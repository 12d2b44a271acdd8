//! The interface every command payload type offers: its packet id, its bytes, and its parser.
use crate::command_utils::{spec_command_number, spec_is_response, RESPONSE_BIT};
use vstd::prelude::*;

verus! {

/// A payload that travels inside a packet.
pub trait CommandData: Sized + View {
    /// The packet id this payload is sent under.
    spec fn spec_packet_id(&self) -> u16;

    /// The bytes of this payload on the wire.
    spec fn spec_bytes(&self) -> Seq<u8>;

    /// Computing the packet id does not overflow.
    spec fn id_fits(&self) -> bool;

    /// Writing the payload out does not fail.
    spec fn encodable(&self) -> bool;

    /// Parsing `data` under `id` does not fail.
    spec fn parse_ok(id: u16, data: Seq<u8>) -> bool;

    /// The payload that `data` under `id` parses to, if it is of this kind.
    spec fn spec_parse(id: u16, data: Seq<u8>) -> Option<<Self as View>::V>;

    /// The packet id this payload is sent under.
    fn to_packet_id(&self) -> (r: u16)
        requires
            self.id_fits(),
        ensures
            r == self.spec_packet_id(),
    ;

    /// Parses `data` received under `id`; `None` when the id is not of this kind.
    fn from_bytes(id: u16, data: &[u8], dest_addr: u8) -> (r: Option<Self>)
        requires
            Self::parse_ok(id, data@),
        ensures
            r is Some <==> Self::spec_parse(id, data@) is Some,
            r matches Some(x) ==> Self::spec_parse(id, data@) == Some(x@),
    ;

    /// The number of payload bytes.
    fn get_bytes_len(&self) -> (r: usize)
        requires
            self.spec_bytes().len() <= usize::MAX,
        ensures
            r == self.spec_bytes().len(),
    ;

    /// The payload bytes.
    fn to_bytes(self) -> (r: Vec<u8>)
        requires
            self.encodable(),
        ensures
            r@ == self.spec_bytes(),
    ;

    /// `pack_id` with the response bit cleared.
    fn command_number(pack_id: u16) -> (r: u16)
        ensures
            r == spec_command_number(pack_id),
    {
        crate::command_utils::command_number(pack_id)
    }

    /// Whether `pack_id` has the response bit set.
    fn is_response(pack_id: u16) -> (r: bool)
        ensures
            r == spec_is_response(pack_id),
    {
        (pack_id & RESPONSE_BIT) > 0
    }
}

} // verus!
