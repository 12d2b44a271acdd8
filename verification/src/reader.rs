//! Finding packets in the byte stream from a hub: locking onto the frame bytes, reading the
//! length, and decoding.
use crate::command::CommandView;
use crate::command_utils::Module;
use crate::packet::{checksum_of, lemma_packet_roundtrip, Packet, PacketView, FRAME_BYTES, frame};
use crate::wire::get_u16;
use vstd::prelude::*;

verus! {

/// Where the read loop stands, and the bytes of the packet being read.
pub struct FrameReader {
    /// Whether the stream is aligned on packet starts.
    pub locked: bool,
    /// Whether it was aligned before the last packet was read.
    pub was_locked: bool,
    pub reading: Vec<u8>,
}

/// What to do after the header of a packet.
#[derive(Debug, Clone, Copy, PartialEq, Eq, Structural)]
pub enum HeaderOutcome {
    /// The frame bytes were not there: look for them again.
    Resync,
    /// Read this many more bytes: the rest of the packet.
    ReadBody(usize),
    /// The length field is below the header size; no packet can be read.
    Malformed,
}

/// What came of the rest of a packet.
#[derive(Debug)]
pub enum BodyOutcome {
    /// The checksum did not match: look for the frame bytes again.
    Resync,
    /// A packet.
    Packet(Packet),
    /// The bytes claim a payload that cannot be decoded.
    Malformed,
}

/// Whether `b` is frame byte `i`.
pub fn frame_byte_matches(i: usize, b: u8) -> (r: bool)
    requires
        i < 2,
    ensures
        r == (frame()[i as int] == b),
{
    proof {
        assert(FRAME_BYTES@ =~= frame());
    }
    FRAME_BYTES[i] == b
}

/// What a reader holds: aligned, aligned before the last packet, and the reading buffer.
pub type ReaderState = (bool, bool, Seq<u8>);

/// `n` zero bytes (none when `n` is not positive).
pub open spec fn zeros(n: int) -> Seq<u8> {
    Seq::new(if n > 0 { n as nat } else { 0nat }, |i: int| 0u8)
}

/// Taking the header bytes `header` in state `st`: the outcome and the state after it.
#[verifier::opaque]
pub open spec fn header_step(st: ReaderState, header: Seq<u8>) -> (HeaderOutcome, ReaderState) {
    let head = if st.1 != st.0 {
        frame() + header
    } else {
        header
    };
    let bytes = head + st.2.subrange(4, st.2.len() as int);
    let len = get_u16(head, 2);
    if head.subrange(0, 2) != frame() {
        (HeaderOutcome::Resync, (false, st.1, bytes))
    } else if len < 4 {
        (HeaderOutcome::Malformed, (true, st.1, bytes))
    } else {
        (HeaderOutcome::ReadBody((len - 4) as usize), (true, st.1, bytes + zeros(len - bytes.len())))
    }
}

/// What came of a body: `None` when it cannot be decoded, `Some(None)` when the checksum did
/// not match, else the packet.
pub open spec fn body_view(r: BodyOutcome) -> Option<Option<PacketView>> {
    match r {
        BodyOutcome::Malformed => None,
        BodyOutcome::Resync => Some(None),
        BodyOutcome::Packet(q) => Some(Some(q@)),
    }
}

/// Taking the body bytes `body` in state `st`: the outcome and the state after it.
#[verifier::opaque]
pub open spec fn body_step(st: ReaderState, body: Seq<u8>, h0: Option<Module>, h1: Option<Module>) -> (
    Option<Option<PacketView>>,
    ReaderState,
) {
    let n = get_u16(st.2, 2) as int;
    let bytes = st.2.subrange(0, 4) + body + st.2.subrange(n, st.2.len() as int);
    if !PacketView::decode_ok(bytes, h0, h1) {
        (None, (st.0, st.1, bytes))
    } else {
        match PacketView::decode(bytes, h0, h1) {
            None => (Some(None), (false, st.1, bytes)),
            Some(p) => (Some(Some(p)), (true, true, bytes)),
        }
    }
}

/// Bytes after the end of a packet do not change how it decodes.
proof fn lemma_decode_ignores_tail(w: Seq<u8>, e: Seq<u8>, h0: Option<Module>, h1: Option<Module>)
    requires
        w.len() >= 11,
        get_u16(w, 2) == w.len(),
    ensures
        PacketView::decode_ok(w + e, h0, h1) == PacketView::decode_ok(w, h0, h1),
        PacketView::decode(w + e, h0, h1) == PacketView::decode(w, h0, h1),
{
    let d = w + e;
    let len = w.len() as int;
    assert(d.subrange(0, len - 1) =~= w.subrange(0, len - 1));
    assert(d.subrange(10, len - 1) =~= w.subrange(10, len - 1));
    assert(d[0] == w[0] && d[1] == w[1] && d[2] == w[2] && d[3] == w[3]);
    assert(d[4] == w[4] && d[5] == w[5] && d[6] == w[6] && d[7] == w[7]);
    assert(d[8] == w[8] && d[9] == w[9] && d[len - 1] == w[len - 1]);
    assert(get_u16(d, 2) == get_u16(w, 2));
    assert(get_u16(d, 8) == get_u16(w, 8));
}

/// The header bytes an aligned reader asks for: right after locking (`was_locked` false) the
/// frame bytes were consumed by the lock and only the length follows; otherwise frame and length.
pub open spec fn header_part(w: Seq<u8>, was_locked: bool) -> Seq<u8> {
    if was_locked {
        w.subrange(0, 4)
    } else {
        w.subrange(2, 4)
    }
}

/// A reader aligned on packet starts (just locked, or after a packet), given the header bytes of
/// well-framed wire bytes `w` and then the rest, asks for the rest and then decodes `w` itself,
/// whatever its buffer held.
proof fn lemma_reader_reads_wire(was_locked: bool, reading: Seq<u8>, w: Seq<u8>, h0: Option<Module>, h1: Option<Module>)
    requires
        reading.len() >= 4,
        w.len() >= 11,
        w[0] == 68u8,
        w[1] == 75u8,
        get_u16(w, 2) == w.len(),
    ensures
        ({
            let h = header_step((true, was_locked, reading), header_part(w, was_locked));
            let b = body_step(h.1, w.subrange(4, w.len() as int), h0, h1);
            &&& h.0 == HeaderOutcome::ReadBody((w.len() - 4) as usize)
            &&& PacketView::decode_ok(w, h0, h1) ==> {
                &&& b.0 == Some(PacketView::decode(w, h0, h1))
                &&& b.1.0 == PacketView::decode(w, h0, h1) is Some
                &&& b.1.1 == (was_locked || PacketView::decode(w, h0, h1) is Some)
                &&& b.1.2.len() >= 4
            }
        }),
{
    reveal(body_step);
    let len = w.len() as int;
    let r1 = lemma_header_of_wire(was_locked, reading, w);
    let e = r1.subrange(len, r1.len() as int);
    let bytes2 = r1.subrange(0, 4) + w.subrange(4, len) + e;
    assert(bytes2 =~= w + e);
    lemma_decode_ignores_tail(w, e, h0, h1);
    let st1 = (true, was_locked, r1);
    assert(body_step(st1, w.subrange(4, len), h0, h1) == (if !PacketView::decode_ok(w + e, h0, h1) {
        (None, (true, was_locked, bytes2))
    } else {
        match PacketView::decode(w + e, h0, h1) {
            None => (Some(None), (false, was_locked, bytes2)),
            Some(p) => (Some(Some(p)), (true, true, bytes2)),
        }
    }));
}

/// The header step on the header bytes of well-framed wire bytes `w`: read the rest, with the
/// buffer holding the four header bytes of `w`, then the old buffer, padded to the packet length.
proof fn lemma_header_of_wire(was_locked: bool, reading: Seq<u8>, w: Seq<u8>) -> (r1: Seq<u8>)
    requires
        reading.len() >= 4,
        w.len() >= 11,
        w[0] == 68u8,
        w[1] == 75u8,
        get_u16(w, 2) == w.len(),
    ensures
        header_step((true, was_locked, reading), header_part(w, was_locked)) == (
            HeaderOutcome::ReadBody((w.len() - 4) as usize),
            (true, was_locked, r1),
        ),
        r1.len() >= w.len(),
        r1.subrange(0, 4) == w.subrange(0, 4),
        get_u16(r1, 2) == w.len(),
{
    reveal(header_step);
    let len = w.len() as int;
    let head = w.subrange(0, 4);
    if !was_locked {
        assert(frame() + w.subrange(2, 4) =~= head);
    }
    assert(head.subrange(0, 2) =~= frame());
    assert(get_u16(head, 2) == get_u16(w, 2));
    let bytes = head + reading.subrange(4, reading.len() as int);
    let r1 = bytes + zeros(len - bytes.len());
    assert(r1.subrange(0, 4) =~= head);
    assert(r1[2] == w[2] && r1[3] == w[3]);
    r1
}

/// A reader aligned on packet starts, right after locking or after a packet, given the header
/// bytes of a packet on the wire and then the rest of them, reads that packet (carrying the
/// checksum it was sent with) and stays aligned, whatever its buffer held before. The packet's
/// length field must be right and its payload must decode to itself.
pub proof fn lemma_reader_reads_packet(
    was_locked: bool,
    reading: Seq<u8>,
    p: PacketView,
    h0: Option<Module>,
    h1: Option<Module>,
)
    requires
        reading.len() >= 4,
        p.packet_length == 11 + p.payload.bytes().len(),
        CommandView::decode_ok(p.packet_id, p.payload.bytes(), p.src_module_addr, p.dest_module_addr, h0, h1),
        CommandView::decode(p.packet_id, p.payload.bytes(), p.src_module_addr, p.dest_module_addr, h0, h1)
            == p.payload,
    ensures
        ({
            let w = p.wire();
            let h = header_step((true, was_locked, reading), header_part(w, was_locked));
            let b = body_step(h.1, w.subrange(4, w.len() as int), h0, h1);
            &&& h.0 == HeaderOutcome::ReadBody((p.packet_length - 4) as usize)
            &&& b.0 == Some(Some(p.with_checksum(p.spec_checksum())))
            &&& b.1.0
            &&& b.1.1
            &&& b.1.2.len() >= 4
            &&& w.len() == p.packet_length
        }),
{
    let w = p.wire();
    lemma_packet_roundtrip(p, h0, h1);
    lemma_reader_reads_wire(was_locked, reading, w, h0, h1);
}

/// A reader aligned on packet starts, given the header bytes and then the rest of well-framed
/// bytes whose checksum byte is wrong, gives no packet and is no longer aligned: it looks for
/// the frame bytes again.
pub proof fn lemma_reader_resyncs_on_bad_checksum(
    was_locked: bool,
    reading: Seq<u8>,
    w: Seq<u8>,
    h0: Option<Module>,
    h1: Option<Module>,
)
    requires
        reading.len() >= 4,
        w.len() >= 11,
        w[0] == 68u8,
        w[1] == 75u8,
        get_u16(w, 2) == w.len(),
        checksum_of(0, w.subrange(0, w.len() - 1)) != w[w.len() - 1],
    ensures
        ({
            let h = header_step((true, was_locked, reading), header_part(w, was_locked));
            let b = body_step(h.1, w.subrange(4, w.len() as int), h0, h1);
            &&& h.0 == HeaderOutcome::ReadBody((w.len() - 4) as usize)
            &&& b.0 == Some(None::<PacketView>)
            &&& !b.1.0
        }),
{
    assert(PacketView::decode_ok(w, h0, h1));
    assert(PacketView::decode(w, h0, h1) is None);
    lemma_reader_reads_wire(was_locked, reading, w, h0, h1);
}

/// One lock attempt at position `pos`: whether it found the frame bytes, and the position after
/// the bytes it read (one when the first is not the first frame byte, else two).
pub open spec fn lock_attempt(bytes: Seq<u8>, pos: int) -> (bool, int) {
    if bytes[pos] != frame()[0] {
        (false, pos + 1)
    } else if bytes[pos + 1] != frame()[1] {
        (false, pos + 2)
    } else {
        (true, pos + 2)
    }
}

/// The packets the read loop hands on while reading `bytes` from position `pos` in state `st`,
/// taking at most `fuel` steps (a lock attempt, or a header with its body). Unaligned, it makes
/// lock attempts; aligned, it reads a header (two bytes right after locking, else four) and then
/// the body. It stops when the bytes run out or on a malformed packet, where the loop panics.
pub open spec fn read_stream(
    st: ReaderState,
    bytes: Seq<u8>,
    pos: int,
    fuel: nat,
    h0: Option<Module>,
    h1: Option<Module>,
) -> Seq<PacketView>
    decreases fuel,
{
    if fuel == 0 || pos < 0 || pos >= bytes.len() {
        Seq::empty()
    } else if !st.0 {
        if bytes[pos] == frame()[0] && pos + 1 >= bytes.len() {
            Seq::empty()
        } else {
            let a = lock_attempt(bytes, pos);
            read_stream((a.0, false, st.2), bytes, a.1, (fuel - 1) as nat, h0, h1)
        }
    } else {
        let n: int = if st.1 != st.0 { 2 } else { 4 };
        if pos + n > bytes.len() {
            Seq::empty()
        } else {
            let h = header_step(st, bytes.subrange(pos, pos + n));
            match h.0 {
                HeaderOutcome::Resync => read_stream(h.1, bytes, pos + n, (fuel - 1) as nat, h0, h1),
                HeaderOutcome::Malformed => Seq::empty(),
                HeaderOutcome::ReadBody(k) => if pos + n + k > bytes.len() {
                    Seq::empty()
                } else {
                    let b = body_step(h.1, bytes.subrange(pos + n, pos + n + k), h0, h1);
                    match b.0 {
                        None => Seq::empty(),
                        Some(None) => read_stream(b.1, bytes, pos + n + k, (fuel - 1) as nat, h0, h1),
                        Some(Some(q)) => seq![q] + read_stream(
                            b.1,
                            bytes,
                            pos + n + k,
                            (fuel - 1) as nat,
                            h0,
                            h1,
                        ),
                    }
                },
            }
        }
    }
}

/// The wire bytes of the packets `ps`, one after another.
#[verifier::opaque]
pub open spec fn wires(ps: Seq<PacketView>) -> Seq<u8>
    decreases ps.len(),
{
    if ps.len() == 0 {
        Seq::empty()
    } else {
        ps[0].wire() + wires(ps.drop_first())
    }
}

/// Whether a packet reads back as itself: its length field is right and its payload decodes to
/// itself.
#[verifier::opaque]
pub open spec fn reads_back(p: PacketView, h0: Option<Module>, h1: Option<Module>) -> bool {
    &&& p.packet_length == 11 + p.payload.bytes().len()
    &&& CommandView::decode_ok(p.packet_id, p.payload.bytes(), p.src_module_addr, p.dest_module_addr, h0, h1)
    &&& CommandView::decode(p.packet_id, p.payload.bytes(), p.src_module_addr, p.dest_module_addr, h0, h1)
        == p.payload
}

/// The packets as read: each with the checksum it was sent with.
#[verifier::opaque]
pub open spec fn as_read(ps: Seq<PacketView>) -> Seq<PacketView> {
    ps.map_values(|p: PacketView| p.with_checksum(p.spec_checksum()))
}

/// One step of the read loop that reads a whole packet: its header and body are the next bytes.
proof fn lemma_stream_packet_step(
    st: ReaderState,
    bytes: Seq<u8>,
    pos: int,
    fuel: nat,
    hdr: Seq<u8>,
    body: Seq<u8>,
    h0: Option<Module>,
    h1: Option<Module>,
)
    requires
        st.0,
        fuel > 0,
        0 <= pos,
        hdr.len() == (if st.1 != st.0 { 2int } else { 4int }),
        body.len() <= 65535,
        pos + hdr.len() + body.len() <= bytes.len(),
        bytes.subrange(pos, pos + hdr.len()) == hdr,
        bytes.subrange(pos + hdr.len(), pos + hdr.len() + body.len()) == body,
        header_step(st, hdr).0 == HeaderOutcome::ReadBody(body.len() as usize),
        body_step(header_step(st, hdr).1, body, h0, h1).0 is Some,
        body_step(header_step(st, hdr).1, body, h0, h1).0.unwrap() is Some,
    ensures
        read_stream(st, bytes, pos, fuel, h0, h1) == seq![
            body_step(header_step(st, hdr).1, body, h0, h1).0.unwrap().unwrap(),
        ] + read_stream(
            body_step(header_step(st, hdr).1, body, h0, h1).1,
            bytes,
            pos + hdr.len() + body.len(),
            (fuel - 1) as nat,
            h0,
            h1,
        ),
{
    assert(hdr.len() > 0);
}

/// An aligned reader (right after locking, positioned after the first packet's frame bytes; or
/// after a packet, positioned at the next packet) reads the packets whose wire bytes end the
/// stream, one after another.
proof fn lemma_read_packets(
    ps: Seq<PacketView>,
    was_locked: bool,
    reading: Seq<u8>,
    bytes: Seq<u8>,
    start: int,
    fuel: nat,
    h0: Option<Module>,
    h1: Option<Module>,
)
    requires
        reading.len() >= 4,
        0 <= start,
        bytes.len() == start + wires(ps).len(),
        bytes.subrange(start, bytes.len() as int) == wires(ps),
        forall|i: int| 0 <= i < ps.len() ==> reads_back(#[trigger] ps[i], h0, h1),
        !was_locked ==> ps.len() > 0,
        fuel >= ps.len(),
    ensures
        read_stream((true, was_locked, reading), bytes, start + if was_locked { 0int } else { 2int }, fuel, h0, h1)
            == as_read(ps),
    decreases ps.len(),
{
    let pos = start + if was_locked { 0int } else { 2int };
    if ps.len() == 0 {
        reveal(as_read);
        reveal(wires);
        assert(as_read(ps) =~= Seq::<PacketView>::empty());
    } else {
        let p = ps[0];
        let w = p.wire();
        let rest = ps.drop_first();
        assert(reads_back(ps[0], h0, h1));
        lemma_read_one(was_locked, reading, p, h0, h1);
        let len = w.len() as int;
        lemma_wires_split(ps, bytes, start);
        let hdr = header_part(w, was_locked);
        let body = w.subrange(4, len);
        assert(bytes.subrange(pos, pos + hdr.len()) =~= hdr) by {
            assert forall|i: int| 0 <= i < hdr.len() implies bytes.subrange(pos, pos + hdr.len())[i] == hdr[i] by {
                assert(bytes.subrange(start, start + len)[pos - start + i] == w[pos - start + i]);
            }
        }
        assert(bytes.subrange(pos + hdr.len(), pos + hdr.len() + body.len()) =~= body) by {
            assert forall|i: int| 0 <= i < body.len() implies bytes.subrange(pos + hdr.len(), pos + hdr.len() + body.len())[i] == body[i] by {
                assert(bytes.subrange(start, start + len)[4 + i] == w[4 + i]);
            }
        }
        let st = (true, was_locked, reading);
        lemma_stream_packet_step(st, bytes, pos, fuel, hdr, body, h0, h1);
        let b = body_step(header_step(st, hdr).1, body, h0, h1);
        assert forall|i: int| 0 <= i < rest.len() implies reads_back(#[trigger] rest[i], h0, h1) by {
            assert(rest[i] == ps[i + 1]);
        }
        assert(pos + hdr.len() + body.len() == start + len);
        lemma_read_packets(rest, true, b.1.2, bytes, start + len, (fuel - 1) as nat, h0, h1);
        assert(b.1 == (true, true, b.1.2));
        lemma_as_read_first(ps);
    }
}

/// `lemma_reader_reads_packet` for a packet that reads back as itself.
proof fn lemma_read_one(was_locked: bool, reading: Seq<u8>, p: PacketView, h0: Option<Module>, h1: Option<Module>)
    requires
        reading.len() >= 4,
        reads_back(p, h0, h1),
    ensures
        ({
            let w = p.wire();
            let h = header_step((true, was_locked, reading), header_part(w, was_locked));
            let b = body_step(h.1, w.subrange(4, w.len() as int), h0, h1);
            &&& h.0 == HeaderOutcome::ReadBody((p.packet_length - 4) as usize)
            &&& b.0 == Some(Some(p.with_checksum(p.spec_checksum())))
            &&& b.1.0
            &&& b.1.1
            &&& b.1.2.len() >= 4
            &&& w.len() == p.packet_length
            &&& p.packet_length >= 11
            &&& w[0] == 68u8
            &&& w[1] == 75u8
        }),
{
    reveal(reads_back);
    lemma_packet_roundtrip(p, h0, h1);
    lemma_reader_reads_packet(was_locked, reading, p, h0, h1);
}

/// The first packet as read, then the rest as read.
proof fn lemma_as_read_first(ps: Seq<PacketView>)
    requires
        ps.len() > 0,
    ensures
        as_read(ps) == seq![ps[0].with_checksum(ps[0].spec_checksum())] + as_read(ps.drop_first()),
{
    reveal(as_read);
    assert(as_read(ps) =~= seq![ps[0].with_checksum(ps[0].spec_checksum())] + as_read(ps.drop_first()));
}

/// The bytes from `start` are the first packet's wire bytes, then the rest's.
proof fn lemma_wires_split(ps: Seq<PacketView>, bytes: Seq<u8>, start: int)
    requires
        ps.len() > 0,
        0 <= start,
        bytes.len() == start + wires(ps).len(),
        bytes.subrange(start, bytes.len() as int) == wires(ps),
    ensures
        bytes.subrange(start, start + ps[0].wire().len()) == ps[0].wire(),
        bytes.len() == start + ps[0].wire().len() + wires(ps.drop_first()).len(),
        bytes.subrange(start + ps[0].wire().len(), bytes.len() as int) == wires(ps.drop_first()),
{
    reveal(wires);
    let w = ps[0].wire();
    let len = w.len() as int;
    let rest = wires(ps.drop_first());
    assert(wires(ps) == w + rest);
    assert(bytes.subrange(start, start + len) =~= w) by {
        assert forall|i: int| 0 <= i < len implies bytes.subrange(start, start + len)[i] == w[i] by {
            assert(bytes.subrange(start, bytes.len() as int)[i] == wires(ps)[i]);
        }
    }
    assert(bytes.subrange(start + len, bytes.len() as int) =~= rest) by {
        assert forall|i: int| 0 <= i < rest.len() implies bytes.subrange(start + len, bytes.len() as int)[i] == rest[i] by {
            assert(bytes.subrange(start, bytes.len() as int)[len + i] == wires(ps)[len + i]);
        }
    }
}

/// Over a whole stream: a fresh, unaligned reader given bytes without the first frame byte
/// followed by the wire bytes of packets (at least one) that read back as themselves skips the
/// junk, locks on the first packet's frame bytes and hands on every packet, in order, each with
/// the checksum it was sent with, given a step for each junk byte, the lock and each packet.
pub proof fn lemma_read_stream_of_packets(
    junk: Seq<u8>,
    ps: Seq<PacketView>,
    reading: Seq<u8>,
    fuel: nat,
    h0: Option<Module>,
    h1: Option<Module>,
)
    requires
        reading.len() >= 4,
        forall|k: int| 0 <= k < junk.len() ==> #[trigger] junk[k] != 68u8,
        ps.len() > 0,
        forall|i: int| 0 <= i < ps.len() ==> reads_back(#[trigger] ps[i], h0, h1),
        fuel >= junk.len() + 1 + ps.len(),
    ensures
        read_stream((false, false, reading), junk + wires(ps), 0, fuel, h0, h1) == as_read(ps),
{
    let bytes = junk + wires(ps);
    assert(reads_back(ps[0], h0, h1));
    lemma_read_one(false, reading, ps[0], h0, h1);
    reveal(wires);
    assert(wires(ps) == ps[0].wire() + wires(ps.drop_first()));
    assert(bytes[junk.len() as int] == 68u8 && bytes[junk.len() + 1int] == 75u8);
    lemma_skip_junk_steps(junk, bytes, reading, 0, fuel, h0, h1);
    assert(bytes.subrange(junk.len() as int, bytes.len() as int) =~= wires(ps));
    lemma_read_packets(ps, false, reading, bytes, junk.len() as int, (fuel - junk.len() - 1) as nat, h0, h1);
}

/// Failed lock attempts on junk bytes, then the lock on the frame bytes after them.
proof fn lemma_skip_junk_steps(
    junk: Seq<u8>,
    bytes: Seq<u8>,
    reading: Seq<u8>,
    pos: int,
    fuel: nat,
    h0: Option<Module>,
    h1: Option<Module>,
)
    requires
        0 <= pos <= junk.len(),
        bytes.len() >= junk.len() + 2,
        forall|k: int| 0 <= k < junk.len() ==> #[trigger] junk[k] != 68u8,
        forall|k: int| 0 <= k < junk.len() ==> bytes[k] == junk[k],
        bytes[junk.len() as int] == 68u8,
        bytes[junk.len() + 1int] == 75u8,
        fuel >= junk.len() - pos + 1,
    ensures
        read_stream((false, false, reading), bytes, pos, fuel, h0, h1) == read_stream(
            (true, false, reading),
            bytes,
            junk.len() + 2int,
            (fuel - (junk.len() - pos) - 1) as nat,
            h0,
            h1,
        ),
    decreases junk.len() - pos,
{
    if pos < junk.len() {
        assert(bytes[pos] == junk[pos]);
        lemma_skip_junk_steps(junk, bytes, reading, pos + 1, (fuel - 1) as nat, h0, h1);
    }
}

impl FrameReader {
    /// What the reader holds.
    pub open spec fn spec_state(&self) -> ReaderState {
        (self.locked, self.was_locked, self.reading@)
    }

    /// The reading buffer holds the four header bytes at least.
    pub open spec fn wf(&self) -> bool {
        self.reading@.len() >= 4
    }

    /// Whether the stream was just aligned: the frame bytes were consumed by the lock.
    pub open spec fn just_locked(&self) -> bool {
        self.was_locked != self.locked
    }

    /// Not aligned, with a buffer of 128 bytes (more than any packet should need).
    pub fn new() -> (r: FrameReader)
        ensures
            !r.locked,
            !r.was_locked,
            r.reading@.len() == 128,
            r.wf(),
    {
        let mut reading: Vec<u8> = Vec::new();
        let mut i: usize = 0;
        while i < 128
            invariant
                i <= 128,
                reading@.len() == i,
            decreases 128 - i,
        {
            reading.push(0u8);
            i = i + 1;
        }
        FrameReader { locked: false, was_locked: false, reading }
    }

    /// Records an attempt to align on the frame bytes.
    pub fn on_lock_attempt(&mut self, locked: bool)
        requires
            !old(self).locked,
        ensures
            final(self).locked == locked,
            !final(self).was_locked,
            final(self).reading@ == old(self).reading@,
    {
        self.was_locked = false;
        self.locked = locked;
    }

    /// How many header bytes to read: the two length bytes right after aligning (the frame
    /// bytes were consumed), otherwise frame and length.
    pub fn header_len(&self) -> (r: usize)
        requires
            self.locked,
        ensures
            r == if self.just_locked() {
                2usize
            } else {
                4usize
            },
    {
        if self.was_locked != self.locked {
            2
        } else {
            4
        }
    }

    /// Takes the header bytes read. Right after aligning, the frame bytes are filled in before
    /// them. Without the frame bytes, the stream is no longer aligned. A length below four cannot
    /// be read. Otherwise the buffer grows to the packet length when needed and the rest of the
    /// packet is to be read.
    pub fn on_header(&mut self, header: &[u8]) -> (r: HeaderOutcome)
        requires
            old(self).locked,
            old(self).wf(),
            header@.len() == if old(self).just_locked() {
                2int
            } else {
                4int
            },
        ensures
            ({
                let head = if old(self).just_locked() {
                    frame() + header@
                } else {
                    header@
                };
                let bytes = head + old(self).reading@.subrange(4, old(self).reading@.len() as int);
                let len = get_u16(head, 2);
                &&& final(self).was_locked == old(self).was_locked
                &&& final(self).wf()
                &&& if head.subrange(0, 2) != frame() {
                    &&& r == HeaderOutcome::Resync
                    &&& !final(self).locked
                    &&& final(self).reading@ == bytes
                } else if len < 4 {
                    &&& r == HeaderOutcome::Malformed
                    &&& final(self).locked
                    &&& final(self).reading@ == bytes
                } else {
                    &&& r == HeaderOutcome::ReadBody((len - 4) as usize)
                    &&& final(self).locked
                    &&& final(self).reading@.len() >= len
                    &&& final(self).reading@.subrange(0, bytes.len() as int) == bytes
                    &&& forall|i: int| bytes.len() <= i < final(self).reading@.len() ==> final(self).reading@[i] == 0
                    &&& final(self).reading@.len() == if bytes.len() >= len {
                        bytes.len() as int
                    } else {
                        len as int
                    }
                }
            }),
            header_step(old(self).spec_state(), header@) == (r, final(self).spec_state()),
    {
        proof {
            reveal(header_step);
        }
        let ghost old_reading = self.reading@;
        let ghost head = if self.just_locked() {
            frame() + header@
        } else {
            header@
        };
        if self.was_locked != self.locked {
            self.reading.set(0, FRAME_BYTES[0]);
            self.reading.set(1, FRAME_BYTES[1]);
            self.reading.set(2, header[0]);
            self.reading.set(3, header[1]);
        } else {
            self.reading.set(0, header[0]);
            self.reading.set(1, header[1]);
            self.reading.set(2, header[2]);
            self.reading.set(3, header[3]);
        }
        let ghost bytes = head + old_reading.subrange(4, old_reading.len() as int);
        proof {
            assert(FRAME_BYTES@ =~= frame());
            assert(self.reading@ =~= bytes);
        }
        if !(self.reading[0] == FRAME_BYTES[0] && self.reading[1] == FRAME_BYTES[1]) {
            proof {
                assert(head.subrange(0, 2) != frame()) by {
                    if head.subrange(0, 2) == frame() {
                        assert(head.subrange(0, 2)[0] == head[0]);
                        assert(head.subrange(0, 2)[1] == head[1]);
                    }
                }
            }
            self.locked = false;
            return HeaderOutcome::Resync;
        }
        proof {
            assert(head.subrange(0, 2) =~= frame());
        }
        let num_to_read = crate::wire::read_u16(self.reading.as_slice(), 2);
        proof {
            assert(get_u16(bytes, 2) == get_u16(head, 2));
        }
        if num_to_read < 4 {
            return HeaderOutcome::Malformed;
        }
        let n = num_to_read as usize;
        let ghost before = self.reading@;
        while self.reading.len() < n
            invariant
                self.locked,
                self.was_locked == old(self).was_locked,
                before.len() >= 4,
                before.len() <= self.reading@.len(),
                self.reading@.subrange(0, before.len() as int) == before,
                forall|i: int| before.len() <= i < self.reading@.len() ==> self.reading@[i] == 0,
                before.len() >= n ==> self.reading@.len() == before.len(),
                before.len() < n ==> self.reading@.len() <= n,
            decreases n - self.reading@.len(),
        {
            let ghost prev = self.reading@;
            self.reading.push(0u8);
            proof {
                assert(self.reading@.subrange(0, before.len() as int) =~= prev.subrange(0, before.len() as int));
            }
        }
        proof {
            assert(self.reading@ =~= bytes + zeros(n - bytes.len()));
        }
        HeaderOutcome::ReadBody(n - 4)
    }

    /// Takes the rest of the packet read and decodes the packet. When the checksum does not
    /// match, the stream is no longer aligned; a packet read keeps it aligned. A payload that
    /// cannot be decoded yields `Malformed`.
    pub fn on_body(&mut self, body: &[u8], hub_0: Option<Module>, hub_1: Option<Module>) -> (r:
        BodyOutcome)
        requires
            old(self).locked,
            old(self).wf(),
            get_u16(old(self).reading@, 2) >= 4,
            old(self).reading@.len() >= get_u16(old(self).reading@, 2),
            body@.len() == get_u16(old(self).reading@, 2) - 4,
        ensures
            ({
                let n = get_u16(old(self).reading@, 2) as int;
                let bytes = old(self).reading@.subrange(0, 4) + body@ + old(self).reading@.subrange(
                    n,
                    old(self).reading@.len() as int,
                );
                &&& final(self).reading@ == bytes
                &&& final(self).wf()
                &&& if !PacketView::decode_ok(bytes, hub_0, hub_1) {
                    &&& r matches BodyOutcome::Malformed
                    &&& final(self).locked == old(self).locked
                    &&& final(self).was_locked == old(self).was_locked
                } else {
                    match PacketView::decode(bytes, hub_0, hub_1) {
                        None => {
                            &&& r matches BodyOutcome::Resync
                            &&& !final(self).locked
                            &&& final(self).was_locked == old(self).was_locked
                        },
                        Some(p) => {
                            &&& r matches BodyOutcome::Packet(q) && q@ == p
                            &&& final(self).locked
                            &&& final(self).was_locked
                        },
                    }
                }
            }),
            body_step(old(self).spec_state(), body@, hub_0, hub_1) == (
                body_view(r),
                final(self).spec_state(),
            ),
    {
        proof {
            reveal(body_step);
        }
        let ghost old_reading = self.reading@;
        let ghost n = get_u16(old_reading, 2) as int;
        let mut i: usize = 0;
        while i < body.len()
            invariant
                self.locked == old(self).locked,
                self.was_locked == old(self).was_locked,
                old_reading == old(self).reading@,
                self.reading.len() == old_reading.len(),
                i <= body@.len(),
                body@.len() == n - 4,
                4 <= n <= old_reading.len(),
                self.reading@.len() == old_reading.len(),
                forall|k: int| 0 <= k < 4 ==> self.reading@[k] == old_reading[k],
                forall|k: int| 4 <= k < 4 + i ==> self.reading@[k] == body@[k - 4],
                forall|k: int| 4 + i <= k < old_reading.len() ==> self.reading@[k] == old_reading[k],
            decreases body@.len() - i,
        {
            self.reading.set(4 + i, body[i]);
            i = i + 1;
        }
        let ghost bytes = old_reading.subrange(0, 4) + body@ + old_reading.subrange(
            n,
            old_reading.len() as int,
        );
        proof {
            assert(self.reading@ =~= bytes);
        }
        if !Packet::decodable(self.reading.as_slice(), hub_0, hub_1) {
            return BodyOutcome::Malformed;
        }
        match Packet::from_data(self.reading.as_slice(), hub_0, hub_1) {
            None => {
                self.locked = false;
                BodyOutcome::Resync
            },
            Some(p) => {
                self.was_locked = self.locked;
                BodyOutcome::Packet(p)
            },
        }
    }
}

} // verus!
