//! Proxy pairing for a peer-to-peer device trust network.
//!
//! A device that is directly paired with two others can vouch one to the other.
//! This crate holds the rules of that exchange as a deterministic state machine:
//! the pairing sessions and their driver, the vouching sessions with their
//! per-target state, the queue of vouches that wait for an offline target, and
//! the primitives they share (signing, key derivation, framing, configuration).
//!
//! Nothing here performs I/O. Every operation takes the current time and the
//! device registry as arguments, and leaves the messages and events it produces
//! in the handler's outbox for the caller to deliver.
//!
//! The modules, from the leaves up:
//!
//! - [`time`], [`text`], [`keyed`], [`error`]: times, bytes, keyed sequences and
//!   errors.
//! - [`crypto`]: the primitives taken on trust from other libraries.
//! - [`keys`], [`framing`], [`config`]: signatures and key derivation, frames and
//!   streams, options.
//! - [`device`], [`types`], [`proxy`], [`messages`]: the data of the protocol.
//! - [`sessions`], [`vouching`], [`vouching_queue`], [`pending`], [`outbox`]: the
//!   tables that a handler keeps.
//! - [`verdict`]: how a target judges a vouch.
//! - [`model`]: the handler as a state machine over mathematical values.
//! - [`handler`]: the handler itself, bound to the model by its contracts.
//! - [`laws`], [`first_round`], [`queue_pass`]: what holds of the rules as a whole.
//! - [`ops`], [`sync_partners`], [`volume`]: operations for clients of the
//!   application.

pub mod config;
pub mod crypto;
pub mod device;
pub mod error;
pub mod first_round;
pub mod framing;
pub mod handler;
pub mod keyed;
pub mod keys;
pub mod laws;
pub mod messages;
pub mod model;
pub mod ops;
pub mod outbox;
pub mod pending;
pub mod proxy;
pub mod queue_pass;
pub mod sessions;
pub mod sync_partners;
pub mod text;
pub mod time;
pub mod types;
pub mod verdict;
pub mod volume;
pub mod vouching;
pub mod vouching_queue;
