//! The server's custom query to a client that is logging in.

use crate::dispatch::{location_outcome, McBufVarintWritable, McBufWritable, UnsizedByteArray};
use crate::error::WriteError;
use crate::outcome::{wrote, Outcome};
use crate::resource_location::ResourceLocation;
use crate::varint::varint_of;
use vstd::prelude::*;

verus! {

/// A custom query: an id for the exchange, the channel it belongs to, and
/// the channel's payload, which runs to the end of the packet.
#[derive(Hash, Clone, Debug)]
pub struct ClientboundCustomQueryPacket {
    /// Written in compact form.
    pub transaction_id: u32,
    pub identifier: ResourceLocation,
    pub data: UnsizedByteArray,
}

impl ClientboundCustomQueryPacket {
    /// The packet's body, the fields in the order of their declaration: the
    /// id as a VarInt, the channel's name as a string, the payload as it is.
    pub open spec fn wire(&self) -> Outcome {
        wrote(varint_of(self.transaction_id)).followed_by(
            location_outcome(self.identifier),
        ).followed_by(wrote(self.data@))
    }

    /// Appends the packet's body to `buf`, stopping at the first field that
    /// cannot be written.
    pub fn write(&self, buf: &mut Vec<u8>) -> (r: Result<(), WriteError>)
        ensures
            final(buf)@ == old(buf)@ + self.wire().bytes,
            self.wire().reported_as(r),
    {
        self.transaction_id.varint_write_into(buf)?;
        self.identifier.write_into(buf)?;
        self.data.write_into(buf)?;
        assert(buf@ == old(buf)@ + (varint_of(self.transaction_id) + location_outcome(
            self.identifier,
        ).bytes + self.data@));
        Ok(())
    }
}

} // verus!
