//! Packets on the wire: framing, header, payload and checksum.
use crate::command::{Command, CommandView};
use crate::command_utils::Module;
use crate::commands::NackData;
use crate::wire::{get_u16, le_u16, lemma_u16_roundtrip, push_u16, read_u16};
use vstd::prelude::*;

verus! {

/// The two bytes that open every packet.
pub const FRAME_BYTES: [u8; 2] = [68u8, 75u8];

/// The two bytes that open every packet.
pub open spec fn frame() -> Seq<u8> {
    seq![68u8, 75u8]
}

/// Whether two byte strings are equal.
pub fn bytes_equal(a: &[u8], b: &[u8]) -> (r: bool)
    ensures
        r == (a@ == b@),
{
    if a.len() != b.len() {
        return false;
    }
    let mut i: usize = 0;
    while i < a.len()
        invariant
            a@.len() == b@.len(),
            i <= a@.len(),
            forall|j: int| 0 <= j < i ==> a@[j] == b@[j],
        decreases a@.len() - i,
    {
        if a[i] != b[i] {
            return false;
        }
        i = i + 1;
    }
    assert(a@ =~= b@);
    true
}

/// The running checksum after adding the bytes of `s` to `start`, modulo 256.
pub open spec fn checksum_of(start: u8, s: Seq<u8>) -> u8
    decreases s.len(),
{
    if s.len() == 0 {
        start
    } else {
        ((checksum_of(start, s.drop_last()) + s.last()) % 256) as u8
    }
}

/// Summing two byte strings one after the other is summing their concatenation.
pub proof fn lemma_checksum_concat(start: u8, a: Seq<u8>, b: Seq<u8>)
    ensures
        checksum_of(start, a + b) == checksum_of(checksum_of(start, a), b),
    decreases b.len(),
{
    if b.len() == 0 {
        assert(a + b =~= a);
    } else {
        lemma_checksum_concat(start, a, b.drop_last());
        assert((a + b).drop_last() =~= a + b.drop_last());
    }
}

/// The checksum is the byte sum modulo 256: adding the bytes of `s` to `start` gives `start`
/// plus the sum of all bytes of `s`, modulo 256, whatever their order.
pub proof fn lemma_checksum_is_byte_sum(start: u8, s: Seq<u8>)
    ensures
        checksum_of(start, s) as int == (start + s.fold_left(0int, |acc: int, b: u8| acc + b)) % 256,
    decreases s.len(),
{
    if s.len() > 0 {
        lemma_checksum_is_byte_sum(start, s.drop_last());
        let f = |acc: int, b: u8| acc + b;
        let prev = s.drop_last().fold_left(0int, f);
        assert(s.fold_left(0int, f) == prev + s.last());
        let c = checksum_of(start, s.drop_last()) as int;
        assert(c == (start + prev) % 256);
        assert(((start + prev) % 256 + s.last()) % 256 == (start + prev + s.last()) % 256) by (nonlinear_arith);
    } else {
        assert(start as int % 256 == start);
    }
}

/// The byte-sum checksum of the packet format.
pub struct BSChecksum {
    pub value: u8,
}

impl BSChecksum {
    /// A checksum of nothing.
    pub fn new() -> (r: BSChecksum)
        ensures
            r.value == 0,
    {
        BSChecksum { value: 0 }
    }

    /// Adds one byte, wrapping around.
    pub fn consume_u8(self, i: u8) -> (r: BSChecksum)
        ensures
            r.value == checksum_of(self.value, seq![i]),
            r.value == ((self.value + i) % 256) as u8,
    {
        let v = self.value as u16 + i as u16;
        let w = (v % 256) as u8;
        proof {
            assert(seq![i].drop_last() =~= Seq::<u8>::empty());
            reveal_with_fuel(checksum_of, 2);
        }
        BSChecksum { value: w }
    }

    /// Adds the two little-endian bytes of `i`.
    pub fn consume_u16(self, i: u16) -> (r: BSChecksum)
        ensures
            r.value == checksum_of(self.value, le_u16(i)),
    {
        let mut b: Vec<u8> = Vec::new();
        push_u16(&mut b, i);
        self.consume_bytes(b.as_slice())
    }

    /// Adds every byte of `bytes`.
    pub fn consume_bytes(self, bytes: &[u8]) -> (r: BSChecksum)
        ensures
            r.value == checksum_of(self.value, bytes@),
    {
        let mut acc = self;
        let mut k: usize = 0;
        while k < bytes.len()
            invariant
                k <= bytes@.len(),
                acc.value == checksum_of(self.value, bytes@.subrange(0, k as int)),
            decreases bytes@.len() - k,
        {
            let ghost before = acc.value;
            acc = acc.consume_u8(bytes[k]);
            proof {
                let t = bytes@.subrange(0, k + 1);
                assert(t.drop_last() =~= bytes@.subrange(0, k as int));
                assert(t.last() == bytes@[k as int]);
            }
            k = k + 1;
        }
        assert(bytes@.subrange(0, bytes@.len() as int) =~= bytes@);
        acc
    }

    /// Adds every byte of `bytes`.
    pub fn consume_vec_bytes(self, bytes: Vec<u8>) -> (r: BSChecksum)
        ensures
            r.value == checksum_of(self.value, bytes@),
    {
        self.consume_bytes(bytes.as_slice())
    }

    /// The checksum byte.
    pub fn into_u8(self) -> (r: u8)
        ensures
            r == self.value,
    {
        self.value
    }
}

/// A packet: header fields, payload, and the checksum byte.
#[derive(Clone, Debug)]
pub struct Packet {
    pub packet_length: u16,
    pub dest_module_addr: u8,
    pub src_module_addr: u8,
    /// Set by the sender; a response carries the number of the command it answers here too.
    pub message_number: u8,
    /// Matches a response to its command.
    pub reference_number: u8,
    pub packet_id: u16,
    pub payload_data: Command,
    pub checksum: u8,
}

/// The mathematical value of a [`Packet`].
pub struct PacketView {
    pub packet_length: u16,
    pub dest_module_addr: u8,
    pub src_module_addr: u8,
    pub message_number: u8,
    pub reference_number: u8,
    pub packet_id: u16,
    pub payload: CommandView,
    pub checksum: u8,
}

impl View for Packet {
    type V = PacketView;

    open spec fn view(&self) -> PacketView {
        PacketView {
            packet_length: self.packet_length,
            dest_module_addr: self.dest_module_addr,
            src_module_addr: self.src_module_addr,
            message_number: self.message_number,
            reference_number: self.reference_number,
            packet_id: self.packet_id,
            payload: self.payload_data@,
            checksum: self.checksum,
        }
    }
}

impl PacketView {
    /// The ten header bytes: frame, length, addresses, numbers, packet id.
    pub open spec fn header(self) -> Seq<u8> {
        frame() + le_u16(self.packet_length) + seq![
            self.dest_module_addr,
            self.src_module_addr,
            self.message_number,
            self.reference_number,
        ] + le_u16(self.packet_id)
    }

    /// The checksum the packet should carry: the byte sum of header and payload.
    pub open spec fn spec_checksum(self) -> u8 {
        checksum_of(0, self.header() + self.payload.bytes())
    }

    /// The bytes of the packet on the wire (the checksum is recomputed, not taken from the field).
    pub open spec fn wire(self) -> Seq<u8> {
        self.header() + self.payload.bytes() + seq![self.spec_checksum()]
    }

    /// The payload can be written and its length fits the machine.
    pub open spec fn writable(self) -> bool {
        &&& self.payload.encodable()
        &&& self.payload.bytes().len() <= usize::MAX
    }

    /// The same packet carrying checksum `c`.
    pub open spec fn with_checksum(self, c: u8) -> PacketView {
        PacketView { checksum: c, ..self }
    }

    /// Whether `data` opens with the frame bytes.
    pub open spec fn is_start(data: Seq<u8>) -> bool {
        data[0] == 68u8 && data[1] == 75u8
    }

    /// The packet `data` holds, or `None` when it is not framed or the checksum does not match.
    pub open spec fn decode(data: Seq<u8>, h0: Option<Module>, h1: Option<Module>) -> Option<
        PacketView,
    > {
        if !Self::is_start(data) {
            None
        } else {
            let len = get_u16(data, 2);
            let checksum = data[len - 1];
            if checksum_of(0, data.subrange(0, len - 1)) != checksum {
                None
            } else {
                let id = get_u16(data, 8);
                Some(
                    PacketView {
                        packet_length: len,
                        dest_module_addr: data[4],
                        src_module_addr: data[5],
                        message_number: data[6],
                        reference_number: data[7],
                        packet_id: id,
                        payload: CommandView::decode(
                            id,
                            data.subrange(10, len - 1),
                            data[5],
                            data[4],
                            h0,
                            h1,
                        ),
                        checksum,
                    },
                )
            }
        }
    }

    /// Decoding `data` does not fail: it is long enough for what its header claims, and its
    /// payload decodes.
    pub open spec fn decode_ok(data: Seq<u8>, h0: Option<Module>, h1: Option<Module>) -> bool {
        &&& data.len() >= 2
        &&& Self::is_start(data) ==> {
            &&& data.len() >= 10
            &&& 1 <= get_u16(data, 2) <= data.len()
            &&& checksum_of(0, data.subrange(0, get_u16(data, 2) - 1)) == data[get_u16(data, 2)
                - 1] ==> {
                &&& get_u16(data, 2) >= 11
                &&& CommandView::decode_ok(
                    get_u16(data, 8),
                    data.subrange(10, get_u16(data, 2) - 1),
                    data[5],
                    data[4],
                    h0,
                    h1,
                )
            }
        }
    }
}

impl Module {
    /// Whether `packet` is addressed to this module.
    pub fn is_module(&self, packet: &Packet) -> (r: bool)
        ensures
            r == (packet.dest_module_addr == self.module_addr),
    {
        packet.dest_module_addr == self.module_addr
    }
}

impl Packet {
    /// A placeholder packet: all fields zero, a negative acknowledgement as payload.
    pub fn null() -> (r: Packet)
        ensures
            r.packet_length == 0,
            r.dest_module_addr == 0,
            r.src_module_addr == 0,
            r.message_number == 0,
            r.reference_number == 0,
            r.packet_id == 0,
            r.payload_data@ == CommandView::Nack(NackData {  }),
            r.checksum == 0,
    {
        Packet {
            packet_length: 0,
            dest_module_addr: 0,
            src_module_addr: 0,
            message_number: 0,
            reference_number: 0,
            packet_id: 0,
            payload_data: Command::Nack(NackData {  }),
            checksum: 0,
        }
    }

    /// A packet from the host to `dest_module_addr`.
    pub fn new(command: Command, dest_module_addr: u8, message_number: u8) -> (r: Self)
        requires
            command@.id_fits(),
            command@.encodable(),
            command@.bytes().len() + 11 <= usize::MAX,
        ensures
            r@ == Self::spec_new_full(command@, dest_module_addr, 0, 0, message_number),
    {
        Self::new_full(command, dest_module_addr, 0, 0, message_number)
    }

    /// The packet `new_full` builds.
    pub open spec fn spec_new_full(
        command: CommandView,
        dest_module_addr: u8,
        src_module_addr: u8,
        reference_number: u8,
        message_number: u8,
    ) -> PacketView {
        let p = PacketView {
            packet_length: ((11 + command.bytes().len()) % 65536) as u16,
            dest_module_addr,
            src_module_addr,
            message_number,
            reference_number,
            packet_id: command.packet_id(),
            payload: command,
            checksum: 0,
        };
        p.with_checksum(p.spec_checksum())
    }

    /// A packet with every header field given; length, packet id and checksum are computed.
    pub fn new_full(
        command: Command,
        dest_module_addr: u8,
        src_module_addr: u8,
        reference_number: u8,
        message_number: u8,
    ) -> (r: Self)
        requires
            command@.id_fits(),
            command@.encodable(),
            command@.bytes().len() + 11 <= usize::MAX,
        ensures
            r@ == Self::spec_new_full(
                command@,
                dest_module_addr,
                src_module_addr,
                reference_number,
                message_number,
            ),
            r.checksum == r@.spec_checksum(),
    {
        let packet_id = command.to_packet_id();
        let total = 11 + command.get_bytes_len();
        let packet_length = (total % 65536) as u16;
        let mut packet = Packet {
            packet_length,
            dest_module_addr,
            src_module_addr,
            message_number,
            reference_number,
            packet_id,
            payload_data: command,
            checksum: 0,
        };
        packet.checksum = packet.checksum();
        packet
    }

    /// Whether `data` opens with the frame bytes.
    pub fn is_start(data: &[u8]) -> (r: bool)
        requires
            data@.len() >= 2,
        ensures
            r == PacketView::is_start(data@),
    {
        let head = crate::wire::copy_range(data, 0, 2);
        let r = bytes_equal(head.as_slice(), FRAME_BYTES.as_slice());
        proof {
            assert(FRAME_BYTES@ =~= frame());
            if PacketView::is_start(data@) {
                assert(head@ =~= FRAME_BYTES@);
            }
            if r {
                assert(head@[0] == FRAME_BYTES@[0] && head@[1] == FRAME_BYTES@[1]);
            }
        }
        r
    }

    /// Decodes a packet from the bytes at the start of `data`, given the known hubs.
    /// `None` when `data` does not open with the frame bytes or its checksum does not match.
    pub fn from_data(data: &[u8], hub_0: Option<Module>, hub_1: Option<Module>) -> (r: Option<
        Packet,
    >)
        requires
            PacketView::decode_ok(data@, hub_0, hub_1),
        ensures
            r is Some <==> PacketView::decode(data@, hub_0, hub_1) is Some,
            r matches Some(p) ==> PacketView::decode(data@, hub_0, hub_1) == Some(p@),
    {
        if !Self::is_start(data) {
            return None;
        }
        let len = read_u16(data, 2);
        let dest_module_addr = data[4];
        let src_module_addr = data[5];
        let message_number = data[6];
        let reference_number = data[7];
        let packet_id = read_u16(data, 8);
        let end = len as usize - 1;
        let checksum = data[end];
        let body = crate::wire::copy_range(data, 0, end);
        let our_checksum = BSChecksum::new().consume_bytes(body.as_slice()).value;
        if our_checksum != checksum {
            return None;
        }
        let payload = crate::wire::copy_range(data, 10, end);
        let command = Command::from_bytes(
            packet_id,
            payload.as_slice(),
            src_module_addr,
            dest_module_addr,
            hub_0,
            hub_1,
        );
        Some(
            Packet {
                packet_length: len,
                dest_module_addr,
                src_module_addr,
                message_number,
                reference_number,
                packet_id,
                payload_data: command,
                checksum,
            },
        )
    }

    /// Whether `from_data` can be called on `data` with these hubs (the condition it requires).
    pub fn decodable(data: &[u8], hub_0: Option<Module>, hub_1: Option<Module>) -> (r: bool)
        ensures
            r == PacketView::decode_ok(data@, hub_0, hub_1),
    {
        if data.len() < 2 {
            return false;
        }
        if !Self::is_start(data) {
            return true;
        }
        if data.len() < 10 {
            return false;
        }
        let len = read_u16(data, 2);
        if len < 1 || len as usize > data.len() {
            return false;
        }
        let end = len as usize - 1;
        let body = crate::wire::copy_range(data, 0, end);
        let our_checksum = BSChecksum::new().consume_bytes(body.as_slice()).value;
        if our_checksum != data[end] {
            return true;
        }
        if len < 11 {
            return false;
        }
        let payload = crate::wire::copy_range(data, 10, end);
        crate::command::command_decodable(
            read_u16(data, 8),
            payload.as_slice(),
            data[5],
            data[4],
            hub_0,
            hub_1,
        )
    }

    /// Whether the packet can be written: its payload is encodable and its length fits.
    pub fn is_writable(&self) -> (r: bool)
        ensures
            r == self@.writable(),
    {
        match &self.payload_data {
            Command::LynxCommand(x) => match &x.command {
                crate::base_lynx_command::LynxCommand::LynxI2cWriteMultipleBytesCommand(c) => {
                    c.payload.len() <= 255
                },
                crate::base_lynx_command::LynxCommand::LynxI2CReadStatusQueryResponse(c) => {
                    c.data.len() <= usize::MAX - 2
                },
                crate::base_lynx_command::LynxCommand::LynxUnknownCommand(c) => {
                    let _ = c.data().len();
                    true
                },
                _ => true,
            },
            Command::Unknown(c) => {
                let _ = c.data().len();
                true
            },
            Command::QueryInterface(c) => {
                let _ = c.name().len();
                true
            },
            _ => true,
        }
    }

    /// A copy with the same value.
    pub fn duplicate(&self) -> (r: Packet)
        ensures
            r@ == self@,
    {
        Packet {
            packet_length: self.packet_length,
            dest_module_addr: self.dest_module_addr,
            src_module_addr: self.src_module_addr,
            message_number: self.message_number,
            reference_number: self.reference_number,
            packet_id: self.packet_id,
            payload_data: self.payload_data.duplicate(),
            checksum: self.checksum,
        }
    }

    /// The checksum of the packet's header and payload (the stored checksum is not read).
    pub fn checksum(&self) -> (r: u8)
        requires
            self@.writable(),
        ensures
            r == self@.spec_checksum(),
    {
        let payload = self.payload_data.duplicate().to_bytes();
        let c = BSChecksum::new().consume_bytes(FRAME_BYTES.as_slice()).consume_u16(
            self.packet_length,
        ).consume_u8(self.dest_module_addr).consume_u8(self.src_module_addr).consume_u8(
            self.message_number,
        ).consume_u8(self.reference_number).consume_u16(self.packet_id).consume_vec_bytes(
            payload,
        );
        proof {
            let p = self@;
            assert(FRAME_BYTES@ =~= frame());
            lemma_checksum_concat(0, frame(), le_u16(p.packet_length));
            let h1 = frame() + le_u16(p.packet_length);
            lemma_checksum_concat(0, h1, seq![p.dest_module_addr]);
            let h2 = h1 + seq![p.dest_module_addr];
            lemma_checksum_concat(0, h2, seq![p.src_module_addr]);
            let h3 = h2 + seq![p.src_module_addr];
            lemma_checksum_concat(0, h3, seq![p.message_number]);
            let h4 = h3 + seq![p.message_number];
            lemma_checksum_concat(0, h4, seq![p.reference_number]);
            let h5 = h4 + seq![p.reference_number];
            lemma_checksum_concat(0, h5, le_u16(p.packet_id));
            let h6 = h5 + le_u16(p.packet_id);
            lemma_checksum_concat(0, h6, p.payload.bytes());
            assert(h6 =~= p.header());
        }
        c.into_u8()
    }

    /// The bytes of the packet on the wire, with a freshly computed checksum.
    pub fn to_bytes(self) -> (r: Vec<u8>)
        requires
            self@.writable(),
        ensures
            r@ == self@.wire(),
    {
        let checksum = self.checksum();
        let mut data: Vec<u8> = Vec::new();
        data.push(68u8);
        data.push(75u8);
        push_u16(&mut data, self.packet_length);
        data.push(self.dest_module_addr);
        data.push(self.src_module_addr);
        data.push(self.message_number);
        data.push(self.reference_number);
        push_u16(&mut data, self.packet_id);
        proof {
            assert(data@ =~= self@.header());
        }
        let ghost v = self@;
        let payload: Vec<u8> = self.payload_data.to_bytes();
        crate::wire::append_bytes(&mut data, payload.as_slice());
        data.push(checksum);
        proof {
            assert(data@ =~= v.wire());
        }
        data
    }
}

/// Reading back the bytes of a packet gives the packet back, with the checksum it was sent
/// with, provided its length field is right and its payload decodes to itself.
pub proof fn lemma_packet_roundtrip(p: PacketView, h0: Option<Module>, h1: Option<Module>)
    requires
        p.packet_length == 11 + p.payload.bytes().len(),
        CommandView::decode_ok(
            p.packet_id,
            p.payload.bytes(),
            p.src_module_addr,
            p.dest_module_addr,
            h0,
            h1,
        ),
        CommandView::decode(
            p.packet_id,
            p.payload.bytes(),
            p.src_module_addr,
            p.dest_module_addr,
            h0,
            h1,
        ) == p.payload,
    ensures
        PacketView::decode_ok(p.wire(), h0, h1),
        PacketView::decode(p.wire(), h0, h1) == Some(p.with_checksum(p.spec_checksum())),
        p.wire().len() == p.packet_length,
        get_u16(p.wire(), 2) == p.packet_length,
        p.wire()[0] == 68u8 && p.wire()[1] == 75u8,
{
    let w = p.wire();
    let pre = frame();
    let rest = seq![p.dest_module_addr, p.src_module_addr, p.message_number, p.reference_number]
        + le_u16(p.packet_id) + p.payload.bytes() + seq![p.spec_checksum()];
    assert(w =~= pre + le_u16(p.packet_length) + rest);
    lemma_u16_roundtrip(p.packet_length, pre, rest);
    let pre2 = frame() + le_u16(p.packet_length) + seq![
        p.dest_module_addr,
        p.src_module_addr,
        p.message_number,
        p.reference_number,
    ];
    let rest2 = p.payload.bytes() + seq![p.spec_checksum()];
    assert(w =~= pre2 + le_u16(p.packet_id) + rest2);
    lemma_u16_roundtrip(p.packet_id, pre2, rest2);
    let len = p.packet_length as int;
    assert(w.len() == len);
    assert(w.subrange(0, len - 1) =~= p.header() + p.payload.bytes());
    assert(w.subrange(10, len - 1) =~= p.payload.bytes());
    assert(w[len - 1] == p.spec_checksum());
}

/// The ten header bytes of a packet on the wire: the frame bytes 68 and 75, the length as two
/// little-endian bytes, destination, source, message number, reference number, and the packet
/// id as two little-endian bytes; then the payload, then the checksum byte.
pub proof fn lemma_header_layout(p: PacketView)
    ensures
        p.header() == seq![
            68u8,
            75u8,
            (p.packet_length % 256) as u8,
            (p.packet_length / 256) as u8,
            p.dest_module_addr,
            p.src_module_addr,
            p.message_number,
            p.reference_number,
            (p.packet_id % 256) as u8,
            (p.packet_id / 256) as u8,
        ],
        p.wire() == p.header() + p.payload.bytes() + seq![p.spec_checksum()],
{
}

/// The last byte of every packet written is the byte sum of all the bytes before it.
pub proof fn lemma_wire_checksum(p: PacketView)
    ensures
        p.wire().last() == checksum_of(0, p.wire().drop_last()),
{
    assert(p.wire().drop_last() =~= p.header() + p.payload.bytes());
}

} // verus!
