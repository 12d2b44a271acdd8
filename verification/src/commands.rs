//! Payloads of the standard commands that every module understands.
use crate::command_data::CommandData;
use crate::command_utils::{
    command_number, spec_command_number, ACK_ID, KEEP_ALIVE_ID, NACK_ID, QUERY_INTERFACE_ID,
    QUERY_INTERFACE_RESPONSE_ID,
};
use crate::wire::{copy_range, get_u16, le_u16, push_u16, read_u16};
use vstd::prelude::*;

verus! {

/// A payload of no known kind, kept as raw bytes.
#[derive(Clone, Debug)]
pub struct UnknownData {
    pack_id: u16,
    data: Vec<u8>,
}

impl View for UnknownData {
    type V = (u16, Seq<u8>);

    closed spec fn view(&self) -> (u16, Seq<u8>) {
        (self.pack_id, self.data@)
    }
}

impl UnknownData {
    /// A copy with the same value.
    pub fn duplicate(&self) -> (r: UnknownData)
        ensures
            r@ == self@,
    {
        UnknownData { pack_id: self.pack_id, data: copy_range(self.data.as_slice(), 0, self.data.len()) }
    }

    /// The packet id it arrived under.
    pub fn pack_id(&self) -> (r: u16)
        ensures
            r == self@.0,
    {
        self.pack_id
    }

    /// The raw payload bytes.
    pub fn data(&self) -> (r: &Vec<u8>)
        ensures
            r@ == self@.1,
    {
        &self.data
    }
}

impl CommandData for UnknownData {
    open spec fn spec_packet_id(&self) -> u16 {
        self@.0
    }

    open spec fn spec_bytes(&self) -> Seq<u8> {
        self@.1
    }

    open spec fn id_fits(&self) -> bool {
        true
    }

    open spec fn encodable(&self) -> bool {
        true
    }

    open spec fn parse_ok(id: u16, data: Seq<u8>) -> bool {
        true
    }

    open spec fn spec_parse(id: u16, data: Seq<u8>) -> Option<(u16, Seq<u8>)> {
        Some((id, data))
    }

    fn to_packet_id(&self) -> (r: u16) {
        self.pack_id
    }

    fn from_bytes(id: u16, data: &[u8], dest_addr: u8) -> (r: Option<Self>) {
        Some(UnknownData { pack_id: id, data: copy_range(data, 0, data.len()) })
    }

    fn get_bytes_len(&self) -> (r: usize) {
        self.data.len()
    }

    fn to_bytes(self) -> (r: Vec<u8>) {
        self.data
    }
}

/// Acknowledgement of a command.
#[derive(Clone, Copy, Debug, PartialEq, Eq, Structural)]
pub struct AckData {
    pub attention_required: bool,
}

impl View for AckData {
    type V = AckData;

    open spec fn view(&self) -> AckData {
        *self
    }
}

impl CommandData for AckData {
    open spec fn spec_packet_id(&self) -> u16 {
        ACK_ID
    }

    open spec fn spec_bytes(&self) -> Seq<u8> {
        seq![if self.attention_required { 1u8 } else { 0u8 }]
    }

    open spec fn id_fits(&self) -> bool {
        true
    }

    open spec fn encodable(&self) -> bool {
        true
    }

    open spec fn parse_ok(id: u16, data: Seq<u8>) -> bool {
        spec_command_number(id) == ACK_ID ==> data.len() >= 1
    }

    open spec fn spec_parse(id: u16, data: Seq<u8>) -> Option<AckData> {
        if spec_command_number(id) == ACK_ID {
            Some(AckData { attention_required: data[0] != 0 })
        } else {
            None
        }
    }

    fn to_packet_id(&self) -> (r: u16) {
        ACK_ID
    }

    fn from_bytes(id: u16, data: &[u8], dest_addr: u8) -> (r: Option<Self>) {
        if command_number(id) == ACK_ID {
            Some(AckData { attention_required: data[0] != 0 })
        } else {
            None
        }
    }

    fn get_bytes_len(&self) -> (r: usize) {
        1
    }

    fn to_bytes(self) -> (r: Vec<u8>) {
        vec![if self.attention_required { 1u8 } else { 0u8 }]
    }
}

/// Negative acknowledgement of a command.
#[derive(Clone, Copy, Debug, PartialEq, Eq, Structural)]
pub struct NackData {}

impl View for NackData {
    type V = NackData;

    open spec fn view(&self) -> NackData {
        *self
    }
}

impl CommandData for NackData {
    open spec fn spec_packet_id(&self) -> u16 {
        NACK_ID
    }

    open spec fn spec_bytes(&self) -> Seq<u8> {
        Seq::empty()
    }

    open spec fn id_fits(&self) -> bool {
        true
    }

    open spec fn encodable(&self) -> bool {
        true
    }

    open spec fn parse_ok(id: u16, data: Seq<u8>) -> bool {
        true
    }

    open spec fn spec_parse(id: u16, data: Seq<u8>) -> Option<NackData> {
        if spec_command_number(id) == NACK_ID {
            Some(NackData {  })
        } else {
            None
        }
    }

    fn to_packet_id(&self) -> (r: u16) {
        NACK_ID
    }

    fn from_bytes(id: u16, data: &[u8], dest_addr: u8) -> (r: Option<Self>) {
        if command_number(id) == NACK_ID {
            Some(NackData {  })
        } else {
            None
        }
    }

    fn get_bytes_len(&self) -> (r: usize) {
        0
    }

    fn to_bytes(self) -> (r: Vec<u8>) {
        Vec::new()
    }
}

/// Keeps the connection to a module alive.
#[derive(Clone, Copy, Debug, PartialEq, Eq, Structural)]
pub struct KeepAliveData {}

impl View for KeepAliveData {
    type V = KeepAliveData;

    open spec fn view(&self) -> KeepAliveData {
        *self
    }
}

impl CommandData for KeepAliveData {
    open spec fn spec_packet_id(&self) -> u16 {
        KEEP_ALIVE_ID
    }

    open spec fn spec_bytes(&self) -> Seq<u8> {
        Seq::empty()
    }

    open spec fn id_fits(&self) -> bool {
        true
    }

    open spec fn encodable(&self) -> bool {
        true
    }

    open spec fn parse_ok(id: u16, data: Seq<u8>) -> bool {
        true
    }

    open spec fn spec_parse(id: u16, data: Seq<u8>) -> Option<KeepAliveData> {
        if spec_command_number(id) == KEEP_ALIVE_ID {
            Some(KeepAliveData {  })
        } else {
            None
        }
    }

    fn to_packet_id(&self) -> (r: u16) {
        KEEP_ALIVE_ID
    }

    fn from_bytes(id: u16, data: &[u8], dest_addr: u8) -> (r: Option<Self>) {
        if command_number(id) == KEEP_ALIVE_ID {
            Some(KeepAliveData {  })
        } else {
            None
        }
    }

    fn get_bytes_len(&self) -> (r: usize) {
        0
    }

    fn to_bytes(self) -> (r: Vec<u8>) {
        Vec::new()
    }
}

/// Asks a module for the command window of an interface, named by a NUL-terminated string.
#[derive(Clone, Debug)]
pub struct QueryInterfaceData {
    name: Vec<u8>,
}

impl View for QueryInterfaceData {
    type V = Seq<u8>;

    closed spec fn view(&self) -> Seq<u8> {
        self.name@
    }
}

impl QueryInterfaceData {
    /// The query for the "DEKA" interface.
    pub fn new_deka() -> (r: QueryInterfaceData)
        ensures
            r@ == seq![68u8, 69u8, 75u8, 65u8, 0u8],
    {
        let mut name: Vec<u8> = Vec::new();
        name.push(68u8);
        name.push(69u8);
        name.push(75u8);
        name.push(65u8);
        name.push(0u8);
        QueryInterfaceData { name }
    }

    /// A copy with the same value.
    pub fn duplicate(&self) -> (r: QueryInterfaceData)
        ensures
            r@ == self@,
    {
        QueryInterfaceData { name: copy_range(self.name.as_slice(), 0, self.name.len()) }
    }

    /// The interface name bytes.
    pub fn name(&self) -> (r: &Vec<u8>)
        ensures
            r@ == self@,
    {
        &self.name
    }
}

impl CommandData for QueryInterfaceData {
    open spec fn spec_packet_id(&self) -> u16 {
        QUERY_INTERFACE_ID
    }

    open spec fn spec_bytes(&self) -> Seq<u8> {
        self@
    }

    open spec fn id_fits(&self) -> bool {
        true
    }

    open spec fn encodable(&self) -> bool {
        true
    }

    open spec fn parse_ok(id: u16, data: Seq<u8>) -> bool {
        true
    }

    open spec fn spec_parse(id: u16, data: Seq<u8>) -> Option<Seq<u8>> {
        if id == QUERY_INTERFACE_ID {
            Some(data)
        } else {
            None
        }
    }

    fn to_packet_id(&self) -> (r: u16) {
        QUERY_INTERFACE_ID
    }

    fn from_bytes(id: u16, data: &[u8], dest_addr: u8) -> (r: Option<Self>) {
        if id == QUERY_INTERFACE_ID {
            Some(QueryInterfaceData { name: copy_range(data, 0, data.len()) })
        } else {
            None
        }
    }

    fn get_bytes_len(&self) -> (r: usize) {
        self.name.len()
    }

    fn to_bytes(self) -> (r: Vec<u8>) {
        self.name
    }
}

/// A module's answer to an interface query: where its command window starts and how wide it is.
#[derive(Clone, Copy, Debug, PartialEq, Eq, Structural)]
pub struct QueryInterfaceResponseData {
    pub command_number_first: u16,
    pub number_of_commands: u16,
}

impl View for QueryInterfaceResponseData {
    type V = QueryInterfaceResponseData;

    open spec fn view(&self) -> QueryInterfaceResponseData {
        *self
    }
}

impl CommandData for QueryInterfaceResponseData {
    open spec fn spec_packet_id(&self) -> u16 {
        QUERY_INTERFACE_RESPONSE_ID
    }

    open spec fn spec_bytes(&self) -> Seq<u8> {
        le_u16(self.command_number_first) + le_u16(self.number_of_commands)
    }

    open spec fn id_fits(&self) -> bool {
        true
    }

    open spec fn encodable(&self) -> bool {
        true
    }

    open spec fn parse_ok(id: u16, data: Seq<u8>) -> bool {
        id == QUERY_INTERFACE_RESPONSE_ID ==> data.len() >= 4
    }

    open spec fn spec_parse(id: u16, data: Seq<u8>) -> Option<QueryInterfaceResponseData> {
        if id == QUERY_INTERFACE_RESPONSE_ID {
            Some(
                QueryInterfaceResponseData {
                    command_number_first: get_u16(data, 0),
                    number_of_commands: get_u16(data, 2),
                },
            )
        } else {
            None
        }
    }

    fn to_packet_id(&self) -> (r: u16) {
        QUERY_INTERFACE_RESPONSE_ID
    }

    fn from_bytes(id: u16, data: &[u8], dest_addr: u8) -> (r: Option<Self>) {
        if id == QUERY_INTERFACE_RESPONSE_ID {
            Some(
                QueryInterfaceResponseData {
                    command_number_first: read_u16(data, 0),
                    number_of_commands: read_u16(data, 2),
                },
            )
        } else {
            None
        }
    }

    fn get_bytes_len(&self) -> (r: usize) {
        4
    }

    fn to_bytes(self) -> (r: Vec<u8>) {
        let mut v: Vec<u8> = Vec::new();
        push_u16(&mut v, self.command_number_first);
        push_u16(&mut v, self.number_of_commands);
        v
    }
}

/// An acknowledgement on the wire is `0x7F01` with one byte: 1 when attention is required, 0
/// otherwise. Any byte but 0 reads as required, with or without the response bit on the id.
pub proof fn lemma_ack_layout(ack: AckData, data: Seq<u8>)
    ensures
        ack.spec_packet_id() == 0x7F01u16,
        ack.spec_bytes() == seq![if ack.attention_required { 1u8 } else { 0u8 }],
        data.len() >= 1 ==> (AckData::spec_parse(0x7F01u16, data) matches Some(a)
            && a.attention_required == (data[0] != 0)),
        data.len() >= 1 ==> (AckData::spec_parse(0xFF01u16, data) matches Some(a)
            && a.attention_required == (data[0] != 0)),
{
    assert((0xFF01u16 & !0x8000u16) == 0x7F01u16) by (bit_vector);
    assert((0x7F01u16 & !0x8000u16) == 0x7F01u16) by (bit_vector);
}

/// A negative acknowledgement is `0x7F02` and a keep-alive `0x7F04`; both carry no bytes. An
/// interface query is `0x7F07` and carries the interface name.
pub proof fn lemma_empty_and_query_layouts(n: NackData, k: KeepAliveData, q: QueryInterfaceData)
    ensures
        n.spec_packet_id() == 0x7F02u16,
        n.spec_bytes().len() == 0,
        k.spec_packet_id() == 0x7F04u16,
        k.spec_bytes().len() == 0,
        q.spec_packet_id() == 0x7F07u16,
        q.spec_bytes() == q@,
{
}

/// The answer to an interface query is `0xFF07` with the first command number and the number of
/// commands, each as two little-endian bytes; parsing reads them from those offsets.
pub proof fn lemma_query_response_layout(qr: QueryInterfaceResponseData, data: Seq<u8>)
    ensures
        qr.spec_packet_id() == 0xFF07u16,
        qr.spec_bytes() == seq![
            (qr.command_number_first % 256) as u8,
            (qr.command_number_first / 256) as u8,
            (qr.number_of_commands % 256) as u8,
            (qr.number_of_commands / 256) as u8,
        ],
        data.len() >= 4 ==> (QueryInterfaceResponseData::spec_parse(0xFF07u16, data) matches Some(x)
            && x.command_number_first == (data[0] + 256 * data[1]) as u16
            && x.number_of_commands == (data[2] + 256 * data[3]) as u16),
{
}

} // verus!
