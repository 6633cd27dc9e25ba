//! Packets of the login phase.

pub mod clientbound_custom_query_packet;
