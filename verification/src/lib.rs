//! Wire codec for the Minecraft protocol: the byte-level encoding of packet
//! fields, proved against a mathematical model of the wire format.
//!
//! - [`varint`]: the variable-length integer, its reader, and the laws that
//!   relate the two.
//! - [`big_endian`]: fixed-width integers in network byte order.
//! - [`outcome`]: the effect of a write as a value, and how effects compose.
//! - [`writable`]: the primitive writers and the list and map writers, on a
//!   sink of bytes.
//! - [`dispatch`]: the canonical wire form of each field type.
//! - [`serializable_uuid`]: identifiers as four 32-bit words.
//! - [`packets`]: packet records.
//! - [`resource_location`], [`game_type`], [`difficulty`], [`nbt`],
//!   [`component`]: the domain types that fields hold.
//! - [`error`]: the ways in which a write fails.

pub mod big_endian;
pub mod component;
pub mod difficulty;
pub mod dispatch;
pub mod error;
pub mod game_type;
pub mod nbt;
pub mod outcome;
pub mod packets;
pub mod resource_location;
pub mod serializable_uuid;
pub mod varint;
pub mod writable;
