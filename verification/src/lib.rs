//! A registry of uniquely identified digital assets ("kitties"). Each kitty has
//! one owner, may be listed for sale, and may be bred with another to give a new
//! kitty whose attributes are a pseudo-random crossover of its parents'.
//!
//! The crate holds the rules of that lifecycle and proves them: identifiers are
//! never handed out twice, the registry and the per-account ownership lists
//! always agree, and a request either takes effect as a whole or not at all.
//! Authentication, the balance ledger and the randomness source belong to the
//! host, which passes what they return as plain values.
//!
//! - [`types`]: the plain data of requests, records, events and errors.
//! - [`dna`]: how a kitty's attributes are hashed and crossed.
//! - [`registry`]: the record of each kitty.
//! - [`owned`]: the bounded list of each account's kitties.
//! - [`pallet`]: the five requests, over the registry, the lists and the counter.
//! - [`genesis`]: preloading kitties.
//! - [`model`]: the lifecycle as a state machine over mathematical values.
//! - [`laws`]: what holds of every state that requests can lead to.
//! - [`erc20`]: a fungible token with allowances.

pub mod dna;
pub mod erc20;
pub mod genesis;
pub mod laws;
pub mod model;
pub mod owned;
pub mod pallet;
pub mod registry;
pub mod types;
