//! A pet game economy: one pet per owner, a block of regenerating stats,
//! a badge collection, and the operations that move them.
//!
//! Every operation is a verified transition on plain values. The host that
//! stores the records, tells the time and checks who is calling hands those
//! values in and takes the new ones back.
//!
//! The modules `admin`, `pet`, `stats`, `shop`, `battle` and `academy` hold
//! the operations on the account of one owner. What each of them does is
//! written down once, as a function from the account before to an
//! [`effect::Effect`], and the executable function is proved to do exactly
//! that. [`PetRegistry`] keeps the accounts of all owners in memory and
//! offers the same operations by owner.

pub mod academy;
pub mod admin;
pub mod battle;
pub mod effect;
pub mod error;
pub mod events;
pub mod pet;
pub mod registry;
pub mod shop;
pub mod stats;
pub mod tags;
pub mod types;

pub use admin::AdminConfig;
pub use error::GameError;
pub use events::Event;
pub use registry::PetRegistry;
pub use tags::{Attribute, Element, Loot, Outcome, ShopItem};
pub use types::{Account, Call, Pet, PetStats};
