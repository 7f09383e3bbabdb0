//! Binary layout of the counter account record: sixteen bytes, an opaque
//! eight-byte discriminator followed by the count as a little-endian `u64`.
//!
//! - [`little_endian`] says which number a byte sequence spells and proves
//!   that spelling and reading undo each other.
//! - [`layout`] says which bytes stand for a record and which record bytes
//!   stand for, and proves the laws of the layout.
//! - [`wire`] holds the calls into `borsh` for the two field types, with the
//!   contracts that are taken on trust.
//! - [`counter`] holds [`Counter`] and its verified conversions.

pub mod counter;
pub mod layout;
pub mod little_endian;
pub mod wire;

pub use counter::{Counter, DecodeError};
