//! A proof-of-existence registry: identities claim exclusive ownership of an
//! opaque byte sequence, revoke that claim, or hand it to another identity.

pub mod laws;
pub mod pallet;
pub mod store;

pub use pallet::{Config, Error, Event, Pallet};
pub use store::{AccountId, BlockNumber, ClaimRecord, ClaimStore};
