//! Allocators for outbound correlation identifiers.
//!
//! Each identifier namespace (generic packet sequence, request id, group
//! sequence, friend sequence, highway-apply sequence) has its own counter,
//! since each id space is matched against a different response stream. A
//! counter hands out its current value and then steps forward, wrapping at
//! the width boundary of its integer type.

use vstd::prelude::*;
use vstd::arithmetic::div_mod::{lemma_mod_equivalence, lemma_mod_self_0, lemma_small_mod};

verus! {

/// The number of distinct values a 16-bit sequence counter runs through
/// before it wraps.
pub const SEQ_PERIOD: u32 = 0x1_0000;

/// Value a 16-bit sequence counter holds `n` steps after holding `start`.
pub open spec fn seq_value_after(start: u16, n: nat) -> u16 {
    (((start as int) + n) % (SEQ_PERIOD as int)) as u16
}

/// Successor of a 16-bit sequence value, wrapping to 0 past the top.
pub open spec fn seq_successor(v: u16) -> u16 {
    if v == u16::MAX {
        0u16
    } else {
        (v + 1) as u16
    }
}

/// Produces monotonically increasing, wrapping 16-bit correlation
/// identifiers for outbound packets.
pub struct SequenceAllocator {
    cur: u16,
}

impl SequenceAllocator {
    /// The value the next call to `next` will return.
    pub closed spec fn current(self) -> u16 {
        self.cur
    }

    /// A fresh allocator whose first handed-out identifier is `start`.
    pub fn new(start: u16) -> (r: SequenceAllocator)
        ensures
            r.current() == start,
    {
        SequenceAllocator { cur: start }
    }

    /// Returns the current counter value and steps the counter forward,
    /// wrapping to 0 at the 16-bit boundary.
    pub fn next(&mut self) -> (r: u16)
        ensures
            r == old(self).current(),
            final(self).current() == seq_successor(old(self).current()),
            final(self).current() == seq_value_after(old(self).current(), 1),
    {
        let r = self.cur;
        self.cur = if self.cur == u16::MAX {
            0
        } else {
            self.cur + 1
        };
        proof {
            if old(self).cur == u16::MAX {
                lemma_mod_self_0(SEQ_PERIOD as int);
            } else {
                lemma_small_mod((old(self).cur + 1) as nat, SEQ_PERIOD as nat);
            }
        }
        r
    }
}

/// Successor of a 32-bit request-id value, wrapping to the minimum past the
/// top, as a 32-bit fetch-and-increment does.
pub open spec fn request_id_successor(v: i32) -> i32 {
    if v == i32::MAX {
        i32::MIN
    } else {
        (v + 1) as i32
    }
}

/// Produces monotonically increasing, wrapping 32-bit correlation
/// identifiers. Distinct instances serve the request-id, group-sequence,
/// friend-sequence and highway-apply namespaces; they never share a counter.
pub struct RequestIdAllocator {
    cur: i32,
}

impl RequestIdAllocator {
    /// The value the next call to `next` will return.
    pub closed spec fn current(self) -> i32 {
        self.cur
    }

    /// A fresh allocator whose first handed-out identifier is `start`.
    pub fn new(start: i32) -> (r: RequestIdAllocator)
        ensures
            r.current() == start,
    {
        RequestIdAllocator { cur: start }
    }

    /// Returns the current counter value and steps the counter forward,
    /// wrapping at the 32-bit boundary.
    pub fn next(&mut self) -> (r: i32)
        ensures
            r == old(self).current(),
            final(self).current() == request_id_successor(old(self).current()),
    {
        let r = self.cur;
        self.cur = if self.cur == i32::MAX {
            i32::MIN
        } else {
            self.cur + 1
        };
        r
    }
}

/// Stepping a counter `n` times and then once more lands on the successor
/// of where `n` steps land.
pub proof fn lemma_seq_value_step(start: u16, n: nat)
    ensures
        seq_value_after(start, n + 1) == seq_successor(seq_value_after(start, n)),
{
    let m = SEQ_PERIOD as int;
    let a = (start as int) + n;
    assert(a % m == seq_value_after(start, n));
    assert((a + 1) % m == seq_value_after(start, n + 1));
    if a % m == m - 1 {
        assert((a + 1) % m == 0) by {
            lemma_mod_equivalence(a + 1, m, m);
            lemma_mod_equivalence(a, m - 1, m);
            lemma_small_mod((m - 1) as nat, m as nat);
        };
    } else {
        assert((a + 1) % m == a % m + 1) by {
            lemma_mod_equivalence(a + 1, a % m + 1, m);
            assert((a - a % m) % m == 0) by {
                lemma_mod_equivalence(a, a % m, m);
                lemma_small_mod((a % m) as nat, m as nat);
            };
            lemma_small_mod((a % m + 1) as nat, m as nat);
        };
    }
}

/// The identifiers a sequence counter hands out are pairwise distinct until
/// it wraps: two calls strictly less than a full period apart return
/// different values.
pub proof fn lemma_seq_values_distinct_within_period(start: u16, i: nat, j: nat)
    requires
        i < j,
        j - i < SEQ_PERIOD,
    ensures
        seq_value_after(start, i) != seq_value_after(start, j),
{
    let m = SEQ_PERIOD as int;
    let a = (start as int) + i;
    let b = (start as int) + j;
    if seq_value_after(start, i) == seq_value_after(start, j) {
        assert(a % m == b % m);
        lemma_mod_equivalence(b, a, m);
        assert((b - a) % m == 0);
        lemma_small_mod((j - i) as nat, m as nat);
        assert((b - a) % m == j - i);
        assert(false);
    }
}

/// A full cycle of the counter returns to its starting value: the first
/// identifier is handed out again only after every other value has been
/// handed out once.
pub proof fn lemma_seq_value_full_cycle(start: u16, n: nat)
    ensures
        seq_value_after(start, n + SEQ_PERIOD as nat) == seq_value_after(start, n),
{
    let m = SEQ_PERIOD as int;
    let a = (start as int) + n;
    lemma_mod_equivalence(a + m, a, m);
    assert((a + m - a) % m == 0) by {
        lemma_mod_equivalence(m, 0, m);
        lemma_small_mod(0nat, m as nat);
    };
}

} // verus!
