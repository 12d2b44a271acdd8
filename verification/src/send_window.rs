//! The load of the serial line: the lengths of the last packets written, with the times they
//! were written, and how many bytes went out within a recent window.
//!
//! Times are nanoseconds on one monotonic clock.
use vstd::prelude::*;

verus! {

/// How many writes are remembered.
pub const SEND_SLOTS: usize = 100;

/// The largest packet length (its length field is a `u16`).
pub const MAX_PACKET_LEN: usize = 65535;

/// The time from `t` to `now`; zero when `t` is later.
pub open spec fn elapsed(t: u64, now: u64) -> int {
    if now >= t {
        now - t
    } else {
        0
    }
}

/// The bytes of the writes in `s` no more than `limit` before `now`.
pub open spec fn bytes_within(s: Seq<(u64, usize)>, now: u64, limit: u64) -> int
    decreases s.len(),
{
    if s.len() == 0 {
        0
    } else {
        bytes_within(s.drop_last(), now, limit) + if elapsed(s.last().0, now) <= limit {
            s.last().1 as int
        } else {
            0
        }
    }
}

/// The bytes counted are at most the largest length times the number of writes.
proof fn lemma_bytes_within_bound(s: Seq<(u64, usize)>, now: u64, limit: u64)
    requires
        forall|i: int| 0 <= i < s.len() ==> (#[trigger] s[i]).1 <= MAX_PACKET_LEN,
    ensures
        0 <= bytes_within(s, now, limit) <= s.len() * MAX_PACKET_LEN,
    decreases s.len(),
{
    if s.len() > 0 {
        lemma_bytes_within_bound(s.drop_last(), now, limit);
    }
}

/// A ring of the last `SEND_SLOTS` writes: time and length each; `next` is the slot written
/// next, holding the oldest write.
pub struct SendWindow {
    sent: Vec<(u64, usize)>,
    next: usize,
}

impl SendWindow {
    /// The remembered writes, slot by slot.
    pub closed spec fn slots(&self) -> Seq<(u64, usize)> {
        self.sent@
    }

    /// The slot written next.
    pub closed spec fn next_slot(&self) -> int {
        self.next as int
    }

    #[verifier::type_invariant]
    spec fn inv(&self) -> bool {
        &&& self.sent@.len() == SEND_SLOTS
        &&& self.next < SEND_SLOTS
        &&& forall|i: int| 0 <= i < self.sent@.len() ==> (#[trigger] self.sent@[i]).1 <= MAX_PACKET_LEN
    }

    /// Every slot an empty write at `now`; slot 0 next.
    pub fn new(now: u64) -> (r: SendWindow)
        ensures
            r.slots() == Seq::new(SEND_SLOTS as nat, |i: int| (now, 0usize)),
            r.next_slot() == 0,
    {
        let mut sent: Vec<(u64, usize)> = Vec::new();
        let mut i: usize = 0;
        while i < SEND_SLOTS
            invariant
                i <= SEND_SLOTS,
                sent@ == Seq::new(i as nat, |k: int| (now, 0usize)),
            decreases SEND_SLOTS - i,
        {
            sent.push((now, 0usize));
            proof {
                assert(sent@ =~= Seq::new((i + 1) as nat, |k: int| (now, 0usize)));
            }
            i = i + 1;
        }
        SendWindow { sent, next: 0 }
    }

    /// Records a write of `len` bytes at `now` in the slot of the oldest write.
    pub fn record(&mut self, now: u64, len: usize)
        requires
            len <= MAX_PACKET_LEN,
        ensures
            final(self).slots() == old(self).slots().update(old(self).next_slot(), (now, len)),
            final(self).next_slot() == (old(self).next_slot() + 1) % (SEND_SLOTS as int),
    {
        proof {
            use_type_invariant(&*self);
        }
        let ghost target = self.sent@.update(self.next as int, (now, len));
        let mut sent: Vec<(u64, usize)> = Vec::new();
        let mut k: usize = 0;
        while k < self.sent.len()
            invariant
                k <= self.sent@.len(),
                self.sent@.len() == SEND_SLOTS,
                self.next < SEND_SLOTS,
                target == self.sent@.update(self.next as int, (now, len)),
                sent@ == target.take(k as int),
            decreases self.sent@.len() - k,
        {
            if k == self.next {
                sent.push((now, len));
            } else {
                sent.push(self.sent[k]);
            }
            proof {
                assert(sent@ =~= target.take(k + 1));
            }
            k = k + 1;
        }
        proof {
            assert(sent@ =~= target);
        }
        let next = if self.next + 1 == SEND_SLOTS {
            0
        } else {
            self.next + 1
        };
        self.sent = sent;
        self.next = next;
    }

    /// The bytes written no more than `limit` before `now`.
    pub fn bytes_within(&self, now: u64, limit: u64) -> (r: u64)
        ensures
            r == bytes_within(self.slots(), now, limit),
    {
        proof {
            use_type_invariant(self);
        }
        let s = &self.sent;
        let mut total: u64 = 0;
        let mut i: usize = 0;
        while i < s.len()
            invariant
                i <= s@.len(),
                s@.len() == SEND_SLOTS,
                forall|k: int| 0 <= k < s@.len() ==> (#[trigger] s@[k]).1 <= MAX_PACKET_LEN,
                total == bytes_within(s@.take(i as int), now, limit),
            decreases s@.len() - i,
        {
            proof {
                assert(s@.take(i + 1).drop_last() =~= s@.take(i as int));
                lemma_bytes_within_bound(s@.take(i as int), now, limit);
            }
            let (t, len) = s[i];
            let age: u64 = if now >= t {
                now - t
            } else {
                0
            };
            if age <= limit {
                total = total + len as u64;
            }
            i = i + 1;
        }
        proof {
            assert(s@.take(s@.len() as int) =~= s@);
        }
        total
    }
}

} // verus!
