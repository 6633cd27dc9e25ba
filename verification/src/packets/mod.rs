//! Packet records: ordered fields, each written in its declared wire form,
//! with nothing between them.

pub mod login;
