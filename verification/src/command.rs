//! The payload of a packet: a standard command, a hub command, or raw bytes.
use crate::base_lynx_command::{LynxCommandData, LynxCommandView};
use crate::command_data::CommandData;
use crate::command_utils::{
    spec_command_number, Module, ACK_ID, KEEP_ALIVE_ID, NACK_ID, QUERY_INTERFACE_ID,
    QUERY_INTERFACE_RESPONSE_ID, RESPONSE_BIT,
};
use crate::commands::{
    AckData, KeepAliveData, NackData, QueryInterfaceData, QueryInterfaceResponseData, UnknownData,
};
use vstd::prelude::*;
use vstd::utf8::{decode_utf8, valid_utf8};

verus! {

/// The payload of a packet.
#[derive(Clone, Debug)]
pub enum Command {
    Ack(AckData),
    Nack(NackData),
    KeepAlive(KeepAliveData),
    QueryInterface(QueryInterfaceData),
    QueryInterfaceResponse(QueryInterfaceResponseData),
    LynxCommand(LynxCommandData),
    Unknown(UnknownData),
}

/// The mathematical value of a [`Command`].
pub enum CommandView {
    Ack(AckData),
    Nack(NackData),
    KeepAlive(KeepAliveData),
    QueryInterface(Seq<u8>),
    QueryInterfaceResponse(QueryInterfaceResponseData),
    LynxCommand((Module, LynxCommandView)),
    Unknown((u16, Seq<u8>)),
}

impl View for Command {
    type V = CommandView;

    open spec fn view(&self) -> CommandView {
        match self {
            Command::Ack(x) => CommandView::Ack(x@),
            Command::Nack(x) => CommandView::Nack(x@),
            Command::KeepAlive(x) => CommandView::KeepAlive(x@),
            Command::QueryInterface(x) => CommandView::QueryInterface(x@),
            Command::QueryInterfaceResponse(x) => CommandView::QueryInterfaceResponse(x@),
            Command::LynxCommand(x) => CommandView::LynxCommand(x@),
            Command::Unknown(x) => CommandView::Unknown(x@),
        }
    }
}

impl CommandView {
    /// The packet id the payload is sent under.
    pub open spec fn packet_id(self) -> u16 {
        match self {
            CommandView::Ack(x) => ACK_ID,
            CommandView::Nack(x) => NACK_ID,
            CommandView::KeepAlive(x) => KEEP_ALIVE_ID,
            CommandView::QueryInterface(x) => QUERY_INTERFACE_ID,
            CommandView::QueryInterfaceResponse(x) => QUERY_INTERFACE_RESPONSE_ID,
            CommandView::LynxCommand(x) => (x.1.rel_packet_id() + x.0.number_command_first) as u16,
            CommandView::Unknown(x) => x.0,
        }
    }

    /// Computing the packet id does not overflow.
    pub open spec fn id_fits(self) -> bool {
        match self {
            CommandView::LynxCommand(x) => x.1.rel_packet_id() + x.0.number_command_first
                <= u16::MAX,
            _ => true,
        }
    }

    /// The payload bytes.
    pub open spec fn bytes(self) -> Seq<u8> {
        match self {
            CommandView::Ack(x) => x.spec_bytes(),
            CommandView::Nack(x) => Seq::empty(),
            CommandView::KeepAlive(x) => Seq::empty(),
            CommandView::QueryInterface(x) => x,
            CommandView::QueryInterfaceResponse(x) => x.spec_bytes(),
            CommandView::LynxCommand(x) => x.1.bytes(),
            CommandView::Unknown(x) => x.1,
        }
    }

    /// Writing the payload out does not fail.
    pub open spec fn encodable(self) -> bool {
        match self {
            CommandView::LynxCommand(x) => x.1.encodable(),
            _ => true,
        }
    }

    /// The id is claimed by one of the standard payload kinds.
    pub open spec fn is_standard_id(id: u16) -> bool {
        ||| spec_command_number(id) == ACK_ID
        ||| spec_command_number(id) == NACK_ID
        ||| spec_command_number(id) == KEEP_ALIVE_ID
        ||| id == QUERY_INTERFACE_ID
        ||| id == QUERY_INTERFACE_RESPONSE_ID
    }

    /// What `data` received under `id` from `src_addr` to `dest_addr` decodes to.
    ///
    /// The standard kinds are tried first, in the order acknowledgement, negative
    /// acknowledgement, keep-alive, interface query, interface answer; then the hub commands;
    /// anything else is kept raw.
    pub open spec fn decode(
        id: u16,
        data: Seq<u8>,
        src_addr: u8,
        dest_addr: u8,
        h0: Option<Module>,
        h1: Option<Module>,
    ) -> CommandView {
        if spec_command_number(id) == ACK_ID {
            CommandView::Ack(AckData::spec_parse(id, data).unwrap())
        } else if spec_command_number(id) == NACK_ID {
            CommandView::Nack(NackData {  })
        } else if spec_command_number(id) == KEEP_ALIVE_ID {
            CommandView::KeepAlive(KeepAliveData {  })
        } else if id == QUERY_INTERFACE_ID {
            CommandView::QueryInterface(data)
        } else if id == QUERY_INTERFACE_RESPONSE_ID {
            CommandView::QueryInterfaceResponse(QueryInterfaceResponseData::spec_parse(id, data).unwrap())
        } else if LynxCommandData::spec_from_bytes(id, data, src_addr, dest_addr, h0, h1) is Some {
            CommandView::LynxCommand(
                LynxCommandData::spec_from_bytes(id, data, src_addr, dest_addr, h0, h1).unwrap(),
            )
        } else {
            CommandView::Unknown((id, data))
        }
    }

    /// Decoding does not fail.
    pub open spec fn decode_ok(
        id: u16,
        data: Seq<u8>,
        src_addr: u8,
        dest_addr: u8,
        h0: Option<Module>,
        h1: Option<Module>,
    ) -> bool {
        &&& AckData::parse_ok(id, data)
        &&& QueryInterfaceResponseData::parse_ok(id, data)
        &&& !Self::is_standard_id(id) ==> LynxCommandData::from_bytes_ok(
            id,
            data,
            src_addr,
            dest_addr,
            h0,
            h1,
        )
    }
}

impl Command {
    /// The packet id the payload is sent under.
    pub fn to_packet_id(&self) -> (r: u16)
        requires
            self@.id_fits(),
        ensures
            r == self@.packet_id(),
    {
        match self {
            Command::Ack(x) => x.to_packet_id(),
            Command::Nack(x) => x.to_packet_id(),
            Command::KeepAlive(x) => x.to_packet_id(),
            Command::QueryInterface(x) => x.to_packet_id(),
            Command::QueryInterfaceResponse(x) => x.to_packet_id(),
            Command::LynxCommand(x) => x.to_packet_id(),
            Command::Unknown(x) => x.to_packet_id(),
        }
    }

    /// Decodes `data` received under `id` from `src_addr` to `dest_addr`, given the known hubs.
    pub fn from_bytes(
        id: u16,
        data: &[u8],
        src_addr: u8,
        dest_addr: u8,
        hub_0: Option<Module>,
        hub_1: Option<Module>,
    ) -> (r: Command)
        requires
            CommandView::decode_ok(id, data@, src_addr, dest_addr, hub_0, hub_1),
        ensures
            r@ == CommandView::decode(id, data@, src_addr, dest_addr, hub_0, hub_1),
    {
        if let Some(x) = AckData::from_bytes(id, data, dest_addr) {
            return Command::Ack(x);
        }
        if let Some(x) = NackData::from_bytes(id, data, dest_addr) {
            return Command::Nack(x);
        }
        if let Some(x) = KeepAliveData::from_bytes(id, data, dest_addr) {
            return Command::KeepAlive(x);
        }
        if let Some(x) = QueryInterfaceData::from_bytes(id, data, dest_addr) {
            return Command::QueryInterface(x);
        }
        if let Some(x) = QueryInterfaceResponseData::from_bytes(id, data, dest_addr) {
            return Command::QueryInterfaceResponse(x);
        }
        if let Some(x) = LynxCommandData::from_bytes(id, data, src_addr, dest_addr, hub_0, hub_1) {
            return Command::LynxCommand(x);
        }
        Command::Unknown(UnknownData::from_bytes(id, data, dest_addr).unwrap())
    }

    /// The number of payload bytes.
    pub fn get_bytes_len(&self) -> (r: usize)
        requires
            self@.bytes().len() <= usize::MAX,
        ensures
            r == self@.bytes().len(),
    {
        match self {
            Command::Ack(x) => x.get_bytes_len(),
            Command::Nack(x) => x.get_bytes_len(),
            Command::KeepAlive(x) => x.get_bytes_len(),
            Command::QueryInterface(x) => x.get_bytes_len(),
            Command::QueryInterfaceResponse(x) => x.get_bytes_len(),
            Command::LynxCommand(x) => x.get_bytes_len(),
            Command::Unknown(x) => x.get_bytes_len(),
        }
    }

    /// A copy with the same value.
    pub fn duplicate(&self) -> (r: Command)
        ensures
            r@ == self@,
    {
        match self {
            Command::Ack(x) => Command::Ack(*x),
            Command::Nack(x) => Command::Nack(*x),
            Command::KeepAlive(x) => Command::KeepAlive(*x),
            Command::QueryInterface(x) => Command::QueryInterface(x.duplicate()),
            Command::QueryInterfaceResponse(x) => Command::QueryInterfaceResponse(*x),
            Command::LynxCommand(x) => Command::LynxCommand(x.duplicate()),
            Command::Unknown(x) => Command::Unknown(x.duplicate()),
        }
    }

    /// `pack_id` with the response bit cleared.
    pub fn command_number(pack_id: u16) -> (r: u16)
        ensures
            r == spec_command_number(pack_id),
    {
        pack_id & !RESPONSE_BIT
    }

    /// Whether `pack_id` has the response bit set.
    pub fn is_response(pack_id: u16) -> (r: bool)
        ensures
            r == crate::command_utils::spec_is_response(pack_id),
    {
        (pack_id & RESPONSE_BIT) > 0
    }

    /// The payload bytes.
    pub fn to_bytes(self) -> (r: Vec<u8>)
        requires
            self@.encodable(),
            self@.bytes().len() <= usize::MAX,
        ensures
            r@ == self@.bytes(),
    {
        if self.get_bytes_len() == 0 {
            return Vec::new();
        }
        match self {
            Command::Ack(x) => x.to_bytes(),
            Command::Nack(x) => x.to_bytes(),
            Command::KeepAlive(x) => x.to_bytes(),
            Command::QueryInterface(x) => x.to_bytes(),
            Command::QueryInterfaceResponse(x) => x.to_bytes(),
            Command::LynxCommand(x) => x.to_bytes(),
            Command::Unknown(x) => x.to_bytes(),
        }
    }
}

/// Whether `Command::from_bytes` can be called with these arguments (the condition it requires).
pub fn command_decodable(
    id: u16,
    data: &[u8],
    src_addr: u8,
    dest_addr: u8,
    hub_0: Option<Module>,
    hub_1: Option<Module>,
) -> (r: bool)
    ensures
        r == CommandView::decode_ok(id, data@, src_addr, dest_addr, hub_0, hub_1),
{
    let cn = crate::command_utils::command_number(id);
    if cn == ACK_ID && data.len() < 1 {
        return false;
    }
    if id == QUERY_INTERFACE_RESPONSE_ID && data.len() < 4 {
        return false;
    }
    let standard = cn == ACK_ID || cn == NACK_ID || cn == KEEP_ALIVE_ID || id == QUERY_INTERFACE_ID
        || id == QUERY_INTERFACE_RESPONSE_ID;
    if standard {
        true
    } else {
        crate::base_lynx_command::lynx_decodable(id, data, src_addr, dest_addr, hub_0, hub_1)
    }
}

/// The length of the part of `x` before its first NUL byte (all of `x` when there is none).
pub open spec fn nul_len(x: Seq<u8>) -> nat
    decreases x.len(),
{
    if x.len() == 0 {
        0
    } else if x[0] == 0 {
        0
    } else {
        1 + nul_len(x.subrange(1, x.len() as int))
    }
}

/// Skipping a run of non-NUL bytes shortens the NUL-terminated part by the same amount.
proof fn lemma_nul_len_skip(x: Seq<u8>, i: int)
    requires
        0 <= i <= x.len(),
        forall|j: int| 0 <= j < i ==> x[j] != 0,
    ensures
        nul_len(x) == i + nul_len(x.subrange(i, x.len() as int)),
    decreases i,
{
    if i > 0 {
        let t = x.subrange(1, x.len() as int);
        assert forall|j: int| 0 <= j < i - 1 implies t[j] != 0 by {
            assert(t[j] == x[j + 1]);
        }
        lemma_nul_len_skip(t, i - 1);
        assert(t.subrange(i - 1, t.len() as int) =~= x.subrange(i, x.len() as int));
        assert(x[0] != 0);
    } else {
        assert(x.subrange(0, x.len() as int) =~= x);
    }
}

/// `String::from_utf8` of std: it succeeds exactly on valid UTF-8 and then holds the decoded
/// characters.
#[verifier::external_body]
fn string_from_utf8(bytes: Vec<u8>) -> (r: Option<String>)
    ensures
        r is Some <==> valid_utf8(bytes@),
        r matches Some(s) ==> s@ == decode_utf8(bytes@),
{
    String::from_utf8(bytes).ok()
}

/// The text of a NUL-terminated byte string (all of `x` when it holds no NUL).
pub fn null_term_to_string(x: &Vec<u8>) -> (r: String)
    requires
        valid_utf8(x@.subrange(0, nul_len(x@) as int)),
    ensures
        r@ == decode_utf8(x@.subrange(0, nul_len(x@) as int)),
{
    let mut i: usize = 0;
    while i < x.len() && x[i] != 0
        invariant
            i <= x@.len(),
            forall|j: int| 0 <= j < i ==> x@[j] != 0,
        decreases x@.len() - i,
    {
        i = i + 1;
    }
    proof {
        lemma_nul_len_skip(x@, i as int);
        if i < x@.len() {
            assert(x@.subrange(i as int, x@.len() as int)[0] == 0);
        }
    }
    let prefix = crate::wire::copy_range(x.as_slice(), 0, i);
    string_from_utf8(prefix).unwrap()
}

} // verus!

verus! {

/// Decoding the bytes of a standard payload under its packet id gives the payload back,
/// whatever the addresses and known hubs.
pub proof fn lemma_standard_decode_roundtrip(
    c: CommandView,
    src_addr: u8,
    dest_addr: u8,
    h0: Option<Module>,
    h1: Option<Module>,
)
    requires
        c is Ack || c is Nack || c is KeepAlive || c is QueryInterface || c is QueryInterfaceResponse,
    ensures
        CommandView::decode_ok(c.packet_id(), c.bytes(), src_addr, dest_addr, h0, h1),
        CommandView::decode(c.packet_id(), c.bytes(), src_addr, dest_addr, h0, h1) == c,
{
    assert(0x7F01u16 & !0x8000u16 == 0x7F01u16) by (bit_vector);
    assert(0x7F02u16 & !0x8000u16 == 0x7F02u16) by (bit_vector);
    assert(0x7F04u16 & !0x8000u16 == 0x7F04u16) by (bit_vector);
    assert(0x7F07u16 & !0x8000u16 == 0x7F07u16) by (bit_vector);
    assert(0xFF07u16 & !0x8000u16 == 0x7F07u16) by (bit_vector);
    match c {
        CommandView::QueryInterfaceResponse(x) => {
            crate::wire::lemma_u16_roundtrip(
                x.command_number_first,
                Seq::empty(),
                crate::wire::le_u16(x.number_of_commands),
            );
            crate::wire::lemma_u16_roundtrip(
                x.number_of_commands,
                crate::wire::le_u16(x.command_number_first),
                Seq::empty(),
            );
            assert(Seq::<u8>::empty() + crate::wire::le_u16(x.command_number_first)
                + crate::wire::le_u16(x.number_of_commands) =~= c.bytes());
            assert(crate::wire::le_u16(x.command_number_first) + crate::wire::le_u16(
                x.number_of_commands,
            ) + Seq::<u8>::empty() =~= c.bytes());
        },
        _ => {},
    }
}

/// A hub command sent to a known hub, inside that hub's command window and under an id that no
/// standard payload claims, decodes back to itself bound to that hub.
pub proof fn lemma_lynx_command_decode_roundtrip(
    m: Module,
    c: LynxCommandView,
    src_addr: u8,
    dest_addr: u8,
    h0: Option<Module>,
    h1: Option<Module>,
)
    requires
        crate::base_lynx_command::hubs_ok(h0, h1),
        h0 is Some,
        crate::base_lynx_command::spec_find_hub(h0, h1, dest_addr) == Some(m),
        c.encodable(),
        !(c is LynxUnknownCommand),
        c matches LynxCommandView::LynxI2CReadStatusQueryResponse(x) ==> x.1.len() <= 255,
        c.rel_packet_id() < m.number_of_commands,
        !CommandView::is_standard_id((c.rel_packet_id() + m.number_command_first) as u16),
    ensures
        ({
            let v = CommandView::LynxCommand((m, c));
            &&& CommandView::decode_ok(v.packet_id(), v.bytes(), src_addr, dest_addr, h0, h1)
            &&& CommandView::decode(v.packet_id(), v.bytes(), src_addr, dest_addr, h0, h1) == v
        }),
{
    crate::base_lynx_command::lemma_lynx_decode_roundtrip(c);
}

/// A hub response coming from a known hub to an address no known hub has, whose command
/// number lies in that hub's window (a window below the response bit), decodes back to itself
/// bound to that hub.
pub proof fn lemma_lynx_response_decode_roundtrip(
    m: Module,
    c: LynxCommandView,
    src_addr: u8,
    dest_addr: u8,
    h0: Option<Module>,
    h1: Option<Module>,
)
    requires
        crate::base_lynx_command::hubs_ok(h0, h1),
        h0 is Some,
        crate::base_lynx_command::spec_find_hub(h0, h1, dest_addr) is None,
        crate::base_lynx_command::spec_find_hub(h0, h1, src_addr) == Some(m),
        c.encodable(),
        !(c is LynxUnknownCommand),
        c matches LynxCommandView::LynxI2CReadStatusQueryResponse(x) ==> x.1.len() <= 255,
        m.number_command_first + m.number_of_commands < 0x8000,
        0x8000 <= c.rel_packet_id(),
        c.rel_packet_id() - 0x8000 < m.number_of_commands,
        !CommandView::is_standard_id((c.rel_packet_id() + m.number_command_first) as u16),
    ensures
        ({
            let v = CommandView::LynxCommand((m, c));
            &&& CommandView::decode_ok(v.packet_id(), v.bytes(), src_addr, dest_addr, h0, h1)
            &&& CommandView::decode(v.packet_id(), v.bytes(), src_addr, dest_addr, h0, h1) == v
        }),
{
    crate::base_lynx_command::lemma_lynx_decode_roundtrip(c);
    let id = (c.rel_packet_id() + m.number_command_first) as u16;
    crate::command_utils::lemma_command_number_split(id);
    assert(id >= 0x8000);
}

} // verus!
