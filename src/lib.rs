//! A bounded, back-pressured queue that stops accepting values once it is
//! cancelled, while the values already queued can still be drained.
pub mod faucet;
pub mod model;
mod outside;

pub use faucet::Faucet;
pub use model::{NextRace, PushRace};
