//! A verified registry of uniquely identified collectible assets ("kitties").
//!
//! The registry creates, breeds, transfers and trades assets, each carrying an
//! immutable 16-byte genome. It is written to run inside a transactional host
//! that supplies caller identities, a randomness seed, a call sequence number
//! and currency movement; the registry itself holds the stores, checks every
//! precondition before it writes, and records the events it emits.

pub mod genome;
pub mod registry;

pub use registry::{AccountId, Balance, Error, Event, Kitty, KittyIndex, Pallet, PaymentOrder};
