//! Verified core of the identity layer of a peer-to-peer collaboration tool.
//!
//! The library holds the rules of two commands: unlocking (or first creating)
//! a local identity, and removing tracking relationships. It performs no I/O.
//! The embedding program talks to the signing agent, the profile store, the
//! tracking store and the terminal, and hands what it learned to the library
//! as plain values.

pub mod bootstrap;
pub mod error;
pub mod exchange;
pub mod keys;
pub mod person;
pub mod profile;
pub mod registry;
pub mod tracking;
pub mod unlock;
pub mod untrack;
pub mod world;
