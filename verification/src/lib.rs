//! RS485 line-driver configuration for serial devices.
//!
//! A serial driver that drives an RS485 transceiver is configured through a
//! fixed 32-byte control block: a bitmask of flags, two delays in
//! milliseconds, and a reserved region the driver may use. This crate models
//! that control block as a plain value, [`SerialRs485`], with typed setters
//! for each recognized flag, an exact byte-level encoding of the block, and a
//! read-modify-write helper. Talking to the device itself (the two
//! device-control calls that read and write the block) is left to the caller,
//! who owns the file descriptor; this crate never performs I/O.

mod codec;
mod config;
mod laws;
mod update;

pub use codec::{le_bytes, lemma_to_bytes_injective, lemma_words_of_image, spec_to_bytes, word_at};
pub use config::{flag_set, Rs485Flags, SerialRs485};
pub use laws::{
    lemma_set_clear_restores, lemma_setter_preserves_others, lemma_setter_sets,
    lemma_setters_commute,
};
pub use update::update_with;
