//! Sharing the hub with the vendor SDK: message numbers, id rewriting and routing of answers.
//!
//! Times are nanoseconds on one monotonic clock.
use crate::base_lynx_command::{LynxCommand, LynxCommandView};
use crate::command::{Command, CommandView};
use crate::compare::same_packet;
use crate::packet::{Packet, PacketView};
use vstd::prelude::*;

verus! {

/// Number of message numbers handed out, one slot each.
pub const MESSAGE_SLOTS: usize = 255;

/// Over the first `n` slots: the first slot whose time is strictly the smallest among the
/// times before `now`, with that time; slot 0 with `now` when no time is before `now`.
pub open spec fn oldest_slot(times: Seq<u64>, now: u64, n: int) -> (int, u64)
    decreases n,
{
    if n <= 0 {
        (0, now)
    } else {
        let prev = oldest_slot(times, now, n - 1);
        if times[n - 1] < prev.1 {
            (n - 1, times[n - 1])
        } else {
            prev
        }
    }
}

/// The slots after one registration at `now`, and the message number handed out.
pub open spec fn spec_register(times: Seq<u64>, now: u64) -> (Seq<u64>, u8) {
    let i = oldest_slot(times, now, times.len() as int).0;
    (times.update(i, now), (i % 256) as u8)
}

/// The slots after `n` registrations at `now`, and the message numbers handed out in order.
pub open spec fn spec_register_n(times: Seq<u64>, now: u64, n: nat) -> (Seq<u64>, Seq<u8>)
    decreases n,
{
    if n == 0 {
        (times, Seq::empty())
    } else {
        let prev = spec_register_n(times, now, (n - 1) as nat);
        let step = spec_register(prev.0, now);
        (step.0, prev.1.push(step.1))
    }
}

/// The slot chosen is one of the first `n`; its time is `now` or earlier, and no slot among the
/// first `n` holds an earlier time.
pub proof fn lemma_oldest_slot_is_oldest(times: Seq<u64>, now: u64, n: int)
    requires
        0 < n <= times.len(),
    ensures
        0 <= oldest_slot(times, now, n).0 < n,
        oldest_slot(times, now, n).1 <= now,
        forall|j: int| 0 <= j < n ==> oldest_slot(times, now, n).1 <= #[trigger] times[j] || times[j]
            >= now,
        oldest_slot(times, now, n).1 < now ==> times[oldest_slot(times, now, n).0] == oldest_slot(
            times,
            now,
            n,
        ).1,
        oldest_slot(times, now, n).1 == now ==> forall|j: int| 0 <= j < n ==> #[trigger] times[j]
            >= now,
    decreases n,
{
    if n > 1 {
        lemma_oldest_slot_is_oldest(times, now, n - 1);
    } else {
        assert(oldest_slot(times, now, 0) == (0int, now));
    }
}

/// Hands out the message number of the slot used longest ago (before `now`), and marks it used
/// at `now`. Slot 0 is handed out when every slot was used at `now` or later.
pub fn register_packet_0(times: &mut Vec<u64>, now: u64) -> (r: u8)
    requires
        old(times)@.len() >= 1,
    ensures
        (final(times)@, r) == spec_register(old(times)@, now),
{
    let ghost t = times@;
    let mut x: usize = 0;
    let mut old: u64 = now;
    let mut i: usize = 0;
    while i < times.len()
        invariant
            times@ == t,
            i <= t.len(),
            (x as int, old) == oldest_slot(t, now, i as int),
        decreases t.len() - i,
    {
        if times[i] < old {
            x = i;
            old = times[i];
        }
        i = i + 1;
    }
    proof {
        lemma_oldest_slot_is_oldest(t, now, t.len() as int);
    }
    times.set(x, now);
    let r: u8 = (x % 256) as u8;
    r
}

/// Hands out `num` message numbers one after another, as `register_packet_0` would.
pub fn register_packets(times: &mut Vec<u64>, now: u64, num: u8) -> (r: Vec<u8>)
    requires
        num == 0 || old(times)@.len() >= 1,
    ensures
        (final(times)@, r@) == spec_register_n(old(times)@, now, num as nat),
        r@.len() == num,
{
    let ghost t = times@;
    let mut numbers: Vec<u8> = Vec::new();
    let mut k: u8 = 0;
    while k < num
        invariant
            k <= num,
            times@.len() == t.len(),
            num == 0 || t.len() >= 1,
            numbers@.len() == k,
            (times@, numbers@) == spec_register_n(t, now, k as nat),
        decreases num - k,
    {
        proof {
            lemma_oldest_slot_is_oldest(times@, now, times@.len() as int);
        }
        let n = register_packet_0(times, now);
        numbers.push(n);
        k = k + 1;
    }
    numbers
}

/// How many of the slots were last used before `now`.
pub open spec fn count_stale(times: Seq<u64>, now: u64) -> nat
    decreases times.len(),
{
    if times.len() == 0 {
        0
    } else {
        count_stale(times.drop_last(), now) + if times.last() < now {
            1nat
        } else {
            0nat
        }
    }
}

/// Marking a stale slot used at `now` leaves one stale slot fewer.
pub proof fn lemma_count_stale_update(times: Seq<u64>, now: u64, i: int)
    requires
        0 <= i < times.len(),
        times[i] < now,
    ensures
        count_stale(times.update(i, now), now) + 1 == count_stale(times, now),
    decreases times.len(),
{
    if i < times.len() - 1 {
        lemma_count_stale_update(times.drop_last(), now, i);
        assert(times.update(i, now).drop_last() =~= times.drop_last().update(i, now));
    } else {
        assert(times.update(i, now).drop_last() =~= times.drop_last());
    }
}

/// With a stale slot, the slot chosen is stale.
pub proof fn lemma_stale_exists(times: Seq<u64>, now: u64)
    requires
        count_stale(times, now) > 0,
    ensures
        exists|j: int| 0 <= j < times.len() && #[trigger] times[j] < now,
    decreases times.len(),
{
    if times.last() < now {
        assert(times[times.len() - 1] < now);
    } else {
        lemma_stale_exists(times.drop_last(), now);
        let j = choose|j: int| 0 <= j < times.drop_last().len() && #[trigger] times.drop_last()[j] < now;
        assert(times[j] < now);
    }
}

/// After `k` registrations at `now`, with at least `k` stale slots at first: the numbers handed
/// out are distinct slots, each marked `now`; every other slot is unchanged; `k` stale slots
/// fewer remain.
pub proof fn lemma_register_n_state(times: Seq<u64>, now: u64, k: nat)
    requires
        times.len() <= 256,
        k <= count_stale(times, now),
    ensures
        ({
            let (t, ids) = spec_register_n(times, now, k);
            &&& t.len() == times.len()
            &&& ids.len() == k
            &&& ids.no_duplicates()
            &&& forall|j: int| 0 <= j < ids.len() ==> (#[trigger] ids[j]) < times.len() && t[ids[j] as int] == now
                && times[ids[j] as int] < now
            &&& forall|i: int| 0 <= i < times.len() && !ids.contains(i as u8) ==> #[trigger] t[i] == times[i]
            &&& count_stale(t, now) + k == count_stale(times, now)
        }),
    decreases k,
{
    if k > 0 {
        lemma_register_n_state(times, now, (k - 1) as nat);
        let (t, ids) = spec_register_n(times, now, (k - 1) as nat);
        lemma_stale_exists(t, now);
        lemma_oldest_slot_is_oldest(t, now, t.len() as int);
        let o = oldest_slot(t, now, t.len() as int);
        let w = choose|j: int| 0 <= j < t.len() && #[trigger] t[j] < now;
        assert(o.1 <= t[w]);
        assert(o.1 < now);
        let i = o.0;
        assert(t[i] < now);
        lemma_count_stale_update(t, now, i);
        assert((i % 256) as u8 == i as u8);
        assert(!ids.contains(i as u8)) by {
            if ids.contains(i as u8) {
                let j = choose|j: int| 0 <= j < ids.len() && ids[j] == i as u8;
                assert(t[ids[j] as int] == now);
            }
        }
        let ids2 = ids.push(i as u8);
        assert forall|a: int, b: int| 0 <= a < b < ids2.len() implies ids2[a] != ids2[b] by {
            if b == ids2.len() - 1 {
                assert(ids2[b] == i as u8);
                assert(ids.contains(ids2[a]));
            }
        }
        assert forall|x: int| 0 <= x < times.len() && !ids2.contains(x as u8) implies #[trigger] t.update(i, now)[x] == times[x] by {
            assert(x != i) by {
                if x == i {
                    assert(ids2[ids2.len() - 1] == x as u8);
                }
            }
            assert(!ids.contains(x as u8)) by {
                if ids.contains(x as u8) {
                    let j = choose|j: int| 0 <= j < ids.len() && ids[j] == x as u8;
                    assert(ids2[j] == x as u8);
                }
            }
        }
        assert forall|j: int| 0 <= j < ids2.len() implies (#[trigger] ids2[j]) < times.len() && t.update(i, now)[ids2[j] as int] == now
            && times[ids2[j] as int] < now by {
            if j < ids.len() {
                assert(ids2[j] == ids[j]);
            } else {
                assert(!ids.contains(i as u8));
                assert(t[i] == times[i]);
            }
        }
    }
}

/// The message numbers handed out in one batch are distinct, as long as at least as many
/// slots were last used before `now` (and there are at most 256 slots, one per number).
pub proof fn lemma_register_packets_distinct(times: Seq<u64>, now: u64, num: nat)
    requires
        times.len() <= 256,
        num <= count_stale(times, now),
    ensures
        spec_register_n(times, now, num).1.no_duplicates(),
{
    lemma_register_n_state(times, now, num);
}

/// How a packet of the SDK was renumbered, so that its answer can be given back under the
/// number the SDK chose.
#[derive(Debug)]
pub struct IdTransform {
    pub old_id: u8,
    pub new_id: u8,
    pub old_pack_id: u16,
    pub old_pack: Packet,
}

/// The renumbered packet the SDK wrote, and the record of the change: the message and reference
/// numbers become `new_id` and the checksum is recomputed.
pub fn remap_sdk_packet(packet: Packet, new_id: u8) -> (r: (Packet, IdTransform))
    requires
        packet@.writable(),
    ensures
        r.1.old_id == packet.message_number,
        r.1.new_id == new_id,
        r.1.old_pack_id == packet.packet_id,
        r.1.old_pack@ == packet@,
        ({
            let moved = PacketView { reference_number: new_id, message_number: new_id, ..packet@ };
            r.0@ == moved.with_checksum(moved.spec_checksum())
        }),
{
    let transform = IdTransform {
        old_id: packet.message_number,
        new_id,
        old_pack_id: packet.packet_id,
        old_pack: packet.duplicate(),
    };
    let mut packet = packet;
    packet.reference_number = new_id;
    packet.message_number = new_id;
    packet.checksum = packet.checksum();
    (packet, transform)
}

/// The packets of this program, ready to be written: each with its checksum recomputed.
/// `None` when there is nothing to write.
pub fn seal_packets(packets: Vec<Packet>) -> (r: Option<Vec<Packet>>)
    requires
        forall|i: int| 0 <= i < packets@.len() ==> (#[trigger] packets@[i])@.writable(),
    ensures
        r is None <==> packets@.len() == 0,
        r matches Some(v) ==> v@.len() == packets@.len() && forall|i: int|
            0 <= i < v@.len() ==> (#[trigger] v@[i])@ == packets@[i]@.with_checksum(
                packets@[i]@.spec_checksum(),
            ),
{
    let mut packets = packets;
    let ghost orig = packets@;
    let mut i: usize = 0;
    while i < packets.len()
        invariant
            packets@.len() == orig.len(),
            i <= orig.len(),
            forall|j: int| 0 <= j < orig.len() ==> (#[trigger] orig[j])@.writable(),
            forall|j: int|
                0 <= j < i ==> (#[trigger] packets@[j])@ == orig[j]@.with_checksum(
                    orig[j]@.spec_checksum(),
                ),
            forall|j: int| i <= j < orig.len() ==> (#[trigger] packets@[j]) == orig[j],
        decreases orig.len() - i,
    {
        let c = packets[i].checksum();
        let mut p = packets.remove(i);
        p.checksum = c;
        packets.insert(i, p);
        i = i + 1;
    }
    if packets.len() == 0 {
        return None;
    }
    Some(packets)
}

/// The packet as it may go to the hub: unchanged when dangerous packets are allowed, otherwise
/// with any motor power set to zero. Every packet is let through.
pub open spec fn spec_make_legal(p: PacketView, allowed: bool) -> PacketView {
    if allowed {
        p
    } else {
        match p.payload {
            CommandView::LynxCommand(
                (m, LynxCommandView::LynxSetMotorPowerCommand(c)),
            ) => PacketView {
                payload: CommandView::LynxCommand(
                    (
                        m,
                        LynxCommandView::LynxSetMotorPowerCommand(
                            crate::lynx_commands::LynxSetMotorPowerCommandData { power: 0, ..c },
                        ),
                    ),
                ),
                ..p
            },
            _ => p,
        }
    }
}

/// Makes the packet safe to send when dangerous packets are not allowed (motor power zero);
/// always lets it through.
pub fn is_legal(pack: &mut Packet, allowed: bool) -> (r: bool)
    ensures
        r,
        final(pack)@ == spec_make_legal(old(pack)@, allowed),
{
    if allowed {
        return true;
    }
    match &mut pack.payload_data {
        Command::LynxCommand(it) => {
            match &mut it.command {
                LynxCommand::LynxSetMotorPowerCommand(c) => {
                    c.power = 0;
                    true
                },
                LynxCommand::LynxSetServoPulseWidthCommand(_) => true,
                _ => true,
            }
        },
        _ => true,
    }
}

/// The first transform from position `i` on that was given number `id`.
pub open spec fn find_transform(s: Seq<IdTransform>, id: u8, i: int) -> Option<int>
    decreases s.len() - i,
{
    if i < 0 || i >= s.len() {
        None
    } else if s[i].new_id == id {
        Some(i)
    } else {
        find_transform(s, id, i + 1)
    }
}

/// A transform recorded for a number no earlier transform carries is the one found for the
/// answer under that number.
pub proof fn lemma_find_pushed_transform(w: Seq<IdTransform>, t: IdTransform, id: u8)
    requires
        find_transform(w, id, 0) is None,
        t.new_id == id,
    ensures
        find_transform(w.push(t), id, 0) == Some(w.len() as int),
{
    lemma_find_push_from(w, t, id, 0);
}

/// Searching from `i` in `w` with `t` pushed finds what searching `w` finds, else `t`'s position.
proof fn lemma_find_push_from(w: Seq<IdTransform>, t: IdTransform, id: u8, i: int)
    requires
        0 <= i <= w.len(),
        find_transform(w, id, i) is None,
        t.new_id == id,
    ensures
        find_transform(w.push(t), id, i) == Some(w.len() as int),
    decreases w.len() - i,
{
    if i < w.len() {
        assert(w.push(t)[i] == w[i]);
        lemma_find_push_from(w, t, id, i + 1);
    } else {
        assert(w.push(t)[i] == t);
    }
}

/// What the read side of the proxy knows: the first packet read, whether another packet has
/// been read since, and the transforms of renumbered SDK packets still awaiting an answer.
pub type ReadState = (Option<PacketView>, bool, Seq<IdTransform>);

/// An answer after the first packet's copies: to the SDK under the SDK's own number when a
/// watched transform carries its reference number (that transform is dropped), else unchanged to
/// this program (`false`). Gives the watch list after it, and where the packet goes.
pub open spec fn watched_route(w: Seq<IdTransform>, d: PacketView) -> (Seq<IdTransform>, (bool, PacketView)) {
    match find_transform(w, d.reference_number, 0) {
        None => (w, (false, d)),
        Some(k) => (
            w.remove(k),
            (true, PacketView { message_number: w[k].old_id, reference_number: w[k].old_id, ..d }),
        ),
    }
}

/// One routing step: the state after packet `d`, and where `d` goes (`true`: to the SDK).
pub open spec fn route_step(st: ReadState, d: PacketView) -> (ReadState, (bool, PacketView)) {
    if st.0 is None {
        ((Some(d), st.1, st.2), (true, d))
    } else if !st.1 && same_packet(st.0.unwrap(), d) {
        (st, (true, d))
    } else {
        let next = watched_route(st.2, d);
        ((st.0, true, next.0), next.1)
    }
}

/// Routing the packets `ds` one after another from state `st`: the state after them, and where
/// each went.
pub open spec fn route_stream(st: ReadState, ds: Seq<PacketView>) -> (ReadState, Seq<(bool, PacketView)>)
    decreases ds.len(),
{
    if ds.len() == 0 {
        (st, Seq::empty())
    } else {
        let prev = route_stream(st, ds.drop_last());
        let next = route_step(prev.0, ds.last());
        (next.0, prev.1.push(next.1))
    }
}

/// The state after the first `n` packets of `ds`, from a fresh proxy watching `w`.
pub open spec fn stream_state(w: Seq<IdTransform>, ds: Seq<PacketView>, n: int) -> ReadState {
    route_stream((None, false, w), ds.take(n)).0
}

/// Where each of the first `n` packets of `ds` went, from a fresh proxy watching `w`.
pub open spec fn stream_out(w: Seq<IdTransform>, ds: Seq<PacketView>, n: int) -> Seq<(bool, PacketView)> {
    route_stream((None, false, w), ds.take(n)).1
}

/// Whether the packets before position `n` are all copies of the first one.
pub open spec fn copies_of_first(ds: Seq<PacketView>, n: int) -> bool {
    forall|k: int| 0 < k < n ==> same_packet(ds[0], #[trigger] ds[k])
}

/// Over a whole stream read from the hub: the first packet, and every later packet up to the
/// first one that differs from it, go unchanged to the SDK. From that packet on, each packet goes
/// to the SDK under the SDK's own number when a watched transform carries its reference number,
/// the first such transform being dropped, and otherwise unchanged to this program.
pub proof fn lemma_read_stream(w: Seq<IdTransform>, ds: Seq<PacketView>, n: int)
    requires
        0 <= n <= ds.len(),
    ensures
        stream_out(w, ds, n).len() == n,
        n > 0 ==> stream_state(w, ds, n).0 == Some(ds[0]),
        stream_state(w, ds, n).1 == !copies_of_first(ds, n),
        copies_of_first(ds, n) ==> stream_state(w, ds, n).2 == w,
        forall|k: int|
            0 <= k < n && copies_of_first(ds, k + 1) ==> #[trigger] stream_out(w, ds, n)[k] == (
            true,
            ds[k],
        ),
        forall|k: int|
            0 <= k < n && !copies_of_first(ds, k + 1) ==> {
                &&& #[trigger] stream_out(w, ds, n)[k] == watched_route(stream_state(w, ds, k).2, ds[k]).1
                &&& stream_state(w, ds, k + 1).2 == watched_route(stream_state(w, ds, k).2, ds[k]).0
            },
    decreases n,
{
    if n == 0 {
        assert(ds.take(0) =~= Seq::<PacketView>::empty());
    } else {
        lemma_read_stream(w, ds, n - 1);
        assert(ds.take(n).drop_last() =~= ds.take(n - 1));
        assert(ds.take(n).last() == ds[n - 1]);
        let prev = stream_state(w, ds, n - 1);
        let outs = stream_out(w, ds, n - 1);
        assert(stream_out(w, ds, n) == outs.push(route_step(prev, ds[n - 1]).1));
        assert(stream_state(w, ds, n) == route_step(prev, ds[n - 1]).0);
        if n - 1 > 0 && copies_of_first(ds, n) {
            assert(copies_of_first(ds, n - 1));
            assert(same_packet(ds[0], ds[n - 1]));
        }
        if !copies_of_first(ds, n) && copies_of_first(ds, n - 1) {
            assert(!same_packet(ds[0], ds[n - 1]));
        }
        if !copies_of_first(ds, n - 1) {
            assert(!copies_of_first(ds, n));
        }
        assert forall|k: int| 0 <= k < n && copies_of_first(ds, k + 1) implies #[trigger] stream_out(w, ds, n)[k] == (
            true,
            ds[k],
        ) by {
            if k < n - 1 {
                assert(stream_out(w, ds, n)[k] == outs[k]);
            }
        }
        assert forall|k: int| 0 <= k < n && !copies_of_first(ds, k + 1) implies {
            &&& #[trigger] stream_out(w, ds, n)[k] == watched_route(stream_state(w, ds, k).2, ds[k]).1
            &&& stream_state(w, ds, k + 1).2 == watched_route(stream_state(w, ds, k).2, ds[k]).0
        } by {
            if k < n - 1 {
                assert(stream_out(w, ds, n)[k] == outs[k]);
            }
        }
    }
}

/// Where a packet read from the hub goes.
#[derive(Debug)]
pub enum ReadRoute {
    /// To the SDK.
    Sdk(Packet),
    /// To this program.
    Regular(Packet),
}

/// What the read side of the proxy remembers: the first packet read, and whether another packet
/// has been read since.
pub struct ReadProxy {
    pub first_packet: Option<Packet>,
    pub had_second_packet: bool,
}

/// Where a routed packet goes (`true`: to the SDK), and the packet.
pub open spec fn route_view(r: ReadRoute) -> (bool, PacketView) {
    match r {
        ReadRoute::Sdk(p) => (true, p@),
        ReadRoute::Regular(p) => (false, p@),
    }
}

impl ReadProxy {
    /// What the proxy knows, with the watch list `w`.
    pub open spec fn spec_state(&self, w: Seq<IdTransform>) -> ReadState {
        (
            match self.first_packet {
                Some(f) => Some(f@),
                None => None,
            },
            self.had_second_packet,
            w,
        )
    }

    /// Nothing read yet.
    pub fn new() -> (r: ReadProxy)
        ensures
            r.first_packet is None,
            !r.had_second_packet,
            r.spec_state(Seq::empty()) == (None::<PacketView>, false, Seq::<IdTransform>::empty()),
    {
        ReadProxy { first_packet: None, had_second_packet: false }
    }

    /// Routes a packet read from the hub. The first packet, and copies of it until another
    /// packet arrives, go to the SDK. After that, an answer to a renumbered SDK packet goes to the
    /// SDK under the SDK's own number (and its transform is dropped); anything else goes to this
    /// program.
    pub fn route(&mut self, d: Packet, watch: &mut Vec<IdTransform>) -> (r: ReadRoute)
        ensures
            ({
                let first = old(self).first_packet;
                if first is None {
                    &&& final(self).first_packet matches Some(f) && f@ == d@
                    &&& final(self).had_second_packet == old(self).had_second_packet
                    &&& final(watch)@ == old(watch)@
                    &&& r matches ReadRoute::Sdk(p) && p@ == d@
                } else if !old(self).had_second_packet && same_packet(first.unwrap()@, d@) {
                    &&& final(self).first_packet == old(self).first_packet
                    &&& final(self).had_second_packet == old(self).had_second_packet
                    &&& final(watch)@ == old(watch)@
                    &&& r matches ReadRoute::Sdk(p) && p@ == d@
                } else {
                    &&& final(self).first_packet == old(self).first_packet
                    &&& final(self).had_second_packet
                    &&& match find_transform(old(watch)@, d.reference_number, 0) {
                        None => {
                            &&& final(watch)@ == old(watch)@
                            &&& r matches ReadRoute::Regular(p) && p@ == d@
                        },
                        Some(k) => {
                            let id = old(watch)@[k].old_id;
                            &&& final(watch)@ == old(watch)@.remove(k)
                            &&& r matches ReadRoute::Sdk(p) && p@ == PacketView {
                                message_number: id,
                                reference_number: id,
                                ..d@
                            }
                        },
                    }
                }
            }),
            route_step(old(self).spec_state(old(watch)@), d@) == (
                final(self).spec_state(final(watch)@),
                route_view(r),
            ),
    {
        if self.first_packet.is_none() {
            self.first_packet = Some(d.duplicate());
            return ReadRoute::Sdk(d);
        }
        if !self.had_second_packet {
            let same = match &self.first_packet {
                Some(first) => first.same_as(&d),
                None => false,
            };
            if same {
                return ReadRoute::Sdk(d);
            }
            self.had_second_packet = true;
        }
        let ghost w = watch@;
        let mut i: usize = 0;
        while i < watch.len()
            invariant
                watch@ == w,
                w == old(watch)@,
                self.first_packet == old(self).first_packet,
                old(self).first_packet is Some,
                self.had_second_packet,
                old(self).had_second_packet || !same_packet(old(self).first_packet.unwrap()@, d@),
                i <= w.len(),
                find_transform(w, d.reference_number, 0) == find_transform(
                    w,
                    d.reference_number,
                    i as int,
                ),
            decreases w.len() - i,
        {
            if watch[i].new_id == d.reference_number {
                let t = watch.remove(i);
                let mut d = d;
                d.message_number = t.old_id;
                d.reference_number = t.old_id;
                return ReadRoute::Sdk(d);
            }
            i = i + 1;
        }
        ReadRoute::Regular(d)
    }
}

/// How many bytes the first read of the SDK drops: none when it asks for one byte (it is looking
/// for the frame), two when it asks for two, otherwise four (the frame and the length it has
/// already read from the real stream).
pub open spec fn first_read_drop(len: usize) -> int {
    if len == 1 {
        0
    } else if len == 2 {
        2
    } else {
        4
    }
}

/// The bytes waiting for the SDK to read them.
pub struct SdkReadBuffer {
    pub bytes: Vec<u8>,
    pub has_received: bool,
}

impl SdkReadBuffer {
    /// Empty, before the first read.
    pub fn new() -> (r: SdkReadBuffer)
        ensures
            r.bytes@.len() == 0,
            !r.has_received,
    {
        SdkReadBuffer { bytes: Vec::new(), has_received: false }
    }

    /// Whether no byte is waiting.
    pub fn is_empty(&self) -> (r: bool)
        ensures
            r == (self.bytes@.len() == 0),
    {
        self.bytes.len() == 0
    }

    /// Queues the bytes of a packet for the SDK.
    pub fn push_packet(&mut self, packet: Packet)
        requires
            packet@.writable(),
        ensures
            final(self).bytes@ == old(self).bytes@ + packet@.wire(),
            final(self).has_received == old(self).has_received,
    {
        let data = packet.to_bytes();
        crate::wire::append_bytes(&mut self.bytes, data.as_slice());
    }

    /// Whether `take(len)` can be called now: on the first read, enough bytes wait to be dropped.
    pub fn can_take(&self, len: usize) -> (r: bool)
        ensures
            r == (self.has_received || self.bytes@.len() >= first_read_drop(len)),
    {
        if self.has_received {
            return true;
        }
        let drop: usize = if len == 1 {
            0
        } else if len == 2 {
            2
        } else {
            4
        };
        self.bytes.len() >= drop
    }

    /// Hands the SDK up to `len` waiting bytes, in order. The first read drops first the bytes
    /// that `first_read_drop` gives.
    pub fn take(&mut self, len: usize) -> (r: Vec<u8>)
        requires
            old(self).has_received || old(self).bytes@.len() >= first_read_drop(len),
        ensures
            ({
                let skip = if old(self).has_received {
                    0
                } else {
                    first_read_drop(len)
                };
                let rest = old(self).bytes@.subrange(skip, old(self).bytes@.len() as int);
                let k = if len < rest.len() {
                    len as int
                } else {
                    rest.len() as int
                };
                &&& r@ == rest.subrange(0, k)
                &&& final(self).bytes@ == rest.subrange(k, rest.len() as int)
                &&& final(self).has_received
            }),
    {
        let drop: usize = if self.has_received {
            0
        } else if len == 1 {
            0
        } else if len == 2 {
            2
        } else {
            4
        };
        self.has_received = true;
        let n = self.bytes.len();
        let avail = n - drop;
        let k = if len < avail {
            len
        } else {
            avail
        };
        let taken = crate::wire::copy_range(self.bytes.as_slice(), drop, drop + k);
        let rest = crate::wire::copy_range(self.bytes.as_slice(), drop + k, n);
        proof {
            let old_bytes = self.bytes@;
            let rest_spec = old_bytes.subrange(drop as int, n as int);
            assert(taken@ =~= rest_spec.subrange(0, k as int));
            assert(rest@ =~= rest_spec.subrange(k as int, rest_spec.len() as int));
        }
        self.bytes = rest;
        taken
    }
}

} // verus!
