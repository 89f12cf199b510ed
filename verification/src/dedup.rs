//! Time-windowed deduplication caches.
//!
//! The service layer may redeliver the same push (across reconnects or over
//! redundant notification channels). Three independent presence sets, each
//! with its own fixed window, suppress the duplicates: one for peer-to-peer
//! message echoes, one for generic push requests, one for push "trans"
//! notifications. An entry older than its window is treated as absent, so
//! memory is bounded by the window rather than by count; the small
//! duplicate-admission gap after an entry expires is an accepted policy of
//! this design, not a defect.
//!
//! The caches take the current time as an argument (milliseconds on any
//! monotone clock the caller fixes), so their whole behaviour is a function
//! of their inputs.

use vstd::prelude::*;

use crate::assoc::{
    entries_map, lemma_entries_map_domain, lemma_entries_map_push, lemma_entries_map_remove,
    lemma_entries_map_value, unique_keys,
};

verus! {

/// Composite identity of a possibly-redelivered push: sender/group
/// identifiers, a sequence number and a timestamp-derived discriminator.
/// Namespaces that need fewer components leave the rest at zero; the three
/// caches are separate instances, so namespaces never meet.
#[derive(Clone, Copy, PartialEq, Eq, Structural)]
pub struct DedupKey {
    pub sender: i64,
    pub target: i64,
    pub sequence: i64,
    pub discriminator: i64,
}

/// Whether `m` (key to expiry instant) still holds `k` as a live entry at
/// time `now`.
pub open spec fn dedup_live(m: Map<DedupKey, u64>, k: DedupKey, now: u64) -> bool {
    m.contains_key(k) && now < m[k]
}

/// One time-windowed presence set: each key maps to the instant its entry
/// expires.
pub struct TtlSet {
    window: u64,
    entries: Vec<(DedupKey, u64)>,
}

impl View for TtlSet {
    type V = Map<DedupKey, u64>;

    closed spec fn view(&self) -> Map<DedupKey, u64> {
        entries_map(self.entries@)
    }
}

impl TtlSet {
    /// Well-formedness: no key occurs twice in the backing store.
    pub closed spec fn wf(self) -> bool {
        unique_keys(self.entries@)
    }

    /// The fixed lifetime of an entry.
    pub closed spec fn spec_window(self) -> u64 {
        self.window
    }

    /// An empty set whose entries will live for `window` milliseconds.
    pub fn new(window: u64) -> (r: TtlSet)
        ensures
            r.wf(),
            r@ == Map::<DedupKey, u64>::empty(),
            r.spec_window() == window,
    {
        TtlSet { window, entries: Vec::new() }
    }

    /// Index of the entry carrying `k`, if one does.
    fn position_of(&self, k: DedupKey) -> (r: Option<usize>)
        requires
            self.wf(),
        ensures
            match r {
                Some(i) => i < self.entries@.len() && self.entries@[i as int].0 == k
                    && self@.contains_key(k) && self@[k] == self.entries@[i as int].1,
                None => !self@.contains_key(k),
            },
    {
        let n = self.entries.len();
        let mut i: usize = 0;
        while i < n
            invariant
                n == self.entries@.len(),
                i <= n,
                unique_keys(self.entries@),
                forall|j: int| 0 <= j < i ==> (#[trigger] self.entries@[j]).0 != k,
            decreases n - i,
        {
            if self.entries[i].0 == k {
                proof {
                    lemma_entries_map_value(self.entries@, i as int);
                }
                return Some(i);
            }
            i += 1;
        }
        proof {
            lemma_entries_map_domain(self.entries@, k);
        }
        None
    }

    /// Reports whether `k` was already live at `now` and, when it was not,
    /// records it with a fresh expiry of `now + window`. Returns true
    /// exactly on a duplicate, in which case nothing changes; a hit on an
    /// expired entry counts as new and re-arms the entry.
    pub fn check_and_insert(&mut self, k: DedupKey, now: u64) -> (r: bool)
        requires
            old(self).wf(),
            now + old(self).spec_window() <= u64::MAX,
        ensures
            final(self).wf(),
            final(self).spec_window() == old(self).spec_window(),
            r == dedup_live(old(self)@, k, now),
            r ==> final(self)@ == old(self)@,
            !r ==> final(self)@ == old(self)@.insert(
                k,
                (now + old(self).spec_window()) as u64,
            ),
    {
        let expiry = now + self.window;
        match self.position_of(k) {
            Some(i) => {
                if now < self.entries[i].1 {
                    true
                } else {
                    proof {
                        lemma_entries_map_remove(self.entries@, i as int);
                    }
                    let _ = self.entries.remove(i);
                    proof {
                        lemma_unique_after_remove(old(self).entries@, self.entries@, i as int);
                        lemma_entries_map_domain(self.entries@, k);
                        lemma_entries_map_push(self.entries@, k, expiry);
                        lemma_unique_after_push(self.entries@, k, expiry);
                        assert(old(self)@.remove(k).insert(k, expiry) =~= old(self)@.insert(
                            k,
                            expiry,
                        ));
                    }
                    self.entries.push((k, expiry));
                    false
                }
            },
            None => {
                proof {
                    lemma_entries_map_domain(self.entries@, k);
                    lemma_entries_map_push(self.entries@, k, expiry);
                    lemma_unique_after_push(self.entries@, k, expiry);
                }
                self.entries.push((k, expiry));
                false
            },
        }
    }

    /// Actively sweeps out every entry whose window has passed, so memory
    /// stays bounded by the window rather than by the number of keys ever
    /// seen. Live entries are untouched.
    pub fn evict_expired(&mut self, now: u64)
        requires
            old(self).wf(),
        ensures
            final(self).wf(),
            final(self).spec_window() == old(self).spec_window(),
            forall|k: DedupKey|
                final(self)@.contains_key(k) <==> dedup_live(old(self)@, k, now),
            forall|k: DedupKey|
                #[trigger] final(self)@.contains_key(k) ==> final(self)@[k] == old(self)@[k],
    {
        let mut i: usize = 0;
        while i < self.entries.len()
            invariant
                unique_keys(self.entries@),
                self.window == old(self).window,
                i <= self.entries@.len(),
                forall|j: int| 0 <= j < i ==> now < (#[trigger] self.entries@[j]).1,
                forall|k: DedupKey|
                    #[trigger] self@.contains_key(k) ==> old(self)@.contains_key(k) && self@[k]
                        == old(self)@[k],
                forall|k: DedupKey|
                    old(self)@.contains_key(k) && !(#[trigger] self@.contains_key(k)) ==> !(now
                        < old(self)@[k]),
            decreases self.entries@.len() - i,
        {
            if now < self.entries[i].1 {
                i += 1;
            } else {
                let ghost pre = self.entries@;
                proof {
                    assert(entries_map(pre) == self@);
                    assert(forall|k: DedupKey|
                        #[trigger] entries_map(pre).contains_key(k) ==> old(self)@.contains_key(k)
                            && entries_map(pre)[k] == old(self)@[k]);
                    lemma_entries_map_value(self.entries@, i as int);
                    lemma_entries_map_remove(self.entries@, i as int);
                }
                let (gone_key, _) = self.entries.remove(i);
                proof {
                    lemma_unique_after_remove(pre, self.entries@, i as int);
                    assert forall|j: int| 0 <= j < i implies now < (
                    #[trigger] self.entries@[j]).1 by {
                        assert(self.entries@[j] == pre[j]);
                    }
                    let gone = pre[i as int].0;
                    assert(entries_map(self.entries@) == entries_map(pre).remove(gone));
                    assert forall|k: DedupKey| #[trigger]
                        entries_map(self.entries@).contains_key(k) implies old(
                        self,
                    )@.contains_key(k) && entries_map(self.entries@)[k] == old(self)@[k] by {
                        assert(entries_map(pre).contains_key(k));
                        assert(entries_map(self.entries@)[k] == entries_map(pre)[k]);
                    }
                    assert forall|k: DedupKey|
                        old(self)@.contains_key(k) && !(#[trigger] entries_map(
                            self.entries@,
                        ).contains_key(k)) implies !(now < old(self)@[k]) by {
                        if entries_map(pre).contains_key(k) {
                            assert(k == gone);
                            assert(entries_map(pre)[k] == pre[i as int].1);
                            assert(old(self)@[k] == entries_map(pre)[k]);
                        }
                    }
                }
                let _ = gone_key;
            }
        }
        proof {
            assert forall|k: DedupKey| #[trigger] self@.contains_key(k) implies now < self@[k] by {
                lemma_entries_map_domain(self.entries@, k);
                let j = choose|j: int|
                    0 <= j < self.entries@.len() && (#[trigger] self.entries@[j]).0 == k;
                lemma_entries_map_value(self.entries@, j);
            }
        }
    }
}

/// Removing an entry keeps keys pairwise distinct.
proof fn lemma_unique_after_remove(s0: Seq<(DedupKey, u64)>, s1: Seq<(DedupKey, u64)>, i: int)
    requires
        unique_keys(s0),
        0 <= i < s0.len(),
        s1 == s0.remove(i),
    ensures
        unique_keys(s1),
{
    assert forall|a: int, b: int| 0 <= a < b < s1.len() implies (#[trigger] s1[a]).0
        != (#[trigger] s1[b]).0 by {
        if a < i {
            assert(s1[a] == s0[a]);
        } else {
            assert(s1[a] == s0[a + 1]);
        }
        if b < i {
            assert(s1[b] == s0[b]);
        } else {
            assert(s1[b] == s0[b + 1]);
        }
    }
}

/// Appending a key that no entry carries keeps keys pairwise distinct.
proof fn lemma_unique_after_push(s: Seq<(DedupKey, u64)>, k: DedupKey, v: u64)
    requires
        unique_keys(s),
        forall|j: int| 0 <= j < s.len() ==> (#[trigger] s[j]).0 != k,
    ensures
        unique_keys(s.push((k, v))),
{
    let s1 = s.push((k, v));
    assert forall|a: int, b: int| 0 <= a < b < s1.len() implies (#[trigger] s1[a]).0
        != (#[trigger] s1[b]).0 by {
        if b < s.len() {
            assert(s1[a] == s[a]);
            assert(s1[b] == s[b]);
        } else {
            assert(s1[a] == s[a]);
            assert(s1[b] == (k, v));
        }
    }
}

/// The three independent deduplication caches of the session core. Each has
/// its own key namespace and window; they share no entries.
pub struct DeduplicationCaches {
    /// Peer-to-peer message echoes: (sender, target, internal sequence,
    /// random discriminator).
    pub c2c: TtlSet,
    /// Generic push requests: (short type code, message id).
    pub push_req: TtlSet,
    /// Push "trans" notifications: (trans type, message id).
    pub push_trans: TtlSet,
}

impl DeduplicationCaches {
    /// All three sets are well-formed.
    pub open spec fn wf(self) -> bool {
        self.c2c.wf() && self.push_req.wf() && self.push_trans.wf()
    }

    /// Three empty caches with their own windows (milliseconds).
    pub fn new(c2c_window: u64, push_req_window: u64, push_trans_window: u64) -> (r:
        DeduplicationCaches)
        ensures
            r.wf(),
            r.c2c@ == Map::<DedupKey, u64>::empty(),
            r.push_req@ == Map::<DedupKey, u64>::empty(),
            r.push_trans@ == Map::<DedupKey, u64>::empty(),
            r.c2c.spec_window() == c2c_window,
            r.push_req.spec_window() == push_req_window,
            r.push_trans.spec_window() == push_trans_window,
    {
        DeduplicationCaches {
            c2c: TtlSet::new(c2c_window),
            push_req: TtlSet::new(push_req_window),
            push_trans: TtlSet::new(push_trans_window),
        }
    }

    /// Key of a peer-to-peer message echo.
    pub open spec fn c2c_key(sender: i64, target: i64, seq: i32, random: i64) -> DedupKey {
        DedupKey { sender, target, sequence: seq as i64, discriminator: random }
    }

    /// Key of a generic push request.
    pub open spec fn push_req_key(type_code: i16, msg_id: i64) -> DedupKey {
        DedupKey { sender: type_code as i64, target: msg_id, sequence: 0, discriminator: 0 }
    }

    /// Key of a push "trans" notification.
    pub open spec fn push_trans_key(trans_type: i32, msg_id: i64) -> DedupKey {
        DedupKey { sender: trans_type as i64, target: msg_id, sequence: 0, discriminator: 0 }
    }

    /// Duplicate test for a peer-to-peer message echo; true means the
    /// caller must suppress event emission for this packet.
    pub fn check_c2c(&mut self, sender: i64, target: i64, seq: i32, random: i64, now: u64) -> (r:
        bool)
        requires
            old(self).wf(),
            now + old(self).c2c.spec_window() <= u64::MAX,
        ensures
            final(self).wf(),
            r == dedup_live(old(self).c2c@, Self::c2c_key(sender, target, seq, random), now),
            r ==> final(self).c2c@ == old(self).c2c@,
            !r ==> final(self).c2c@ == old(self).c2c@.insert(
                Self::c2c_key(sender, target, seq, random),
                (now + old(self).c2c.spec_window()) as u64,
            ),
            final(self).c2c.spec_window() == old(self).c2c.spec_window(),
            final(self).push_req == old(self).push_req,
            final(self).push_trans == old(self).push_trans,
    {
        let key = DedupKey { sender, target, sequence: seq as i64, discriminator: random };
        self.c2c.check_and_insert(key, now)
    }

    /// Duplicate test for a generic push request.
    pub fn check_push_req(&mut self, type_code: i16, msg_id: i64, now: u64) -> (r: bool)
        requires
            old(self).wf(),
            now + old(self).push_req.spec_window() <= u64::MAX,
        ensures
            final(self).wf(),
            r == dedup_live(old(self).push_req@, Self::push_req_key(type_code, msg_id), now),
            r ==> final(self).push_req@ == old(self).push_req@,
            !r ==> final(self).push_req@ == old(self).push_req@.insert(
                Self::push_req_key(type_code, msg_id),
                (now + old(self).push_req.spec_window()) as u64,
            ),
            final(self).push_req.spec_window() == old(self).push_req.spec_window(),
            final(self).c2c == old(self).c2c,
            final(self).push_trans == old(self).push_trans,
    {
        let key = DedupKey { sender: type_code as i64, target: msg_id, sequence: 0, discriminator: 0 };
        self.push_req.check_and_insert(key, now)
    }

    /// Duplicate test for a push "trans" notification.
    pub fn check_push_trans(&mut self, trans_type: i32, msg_id: i64, now: u64) -> (r: bool)
        requires
            old(self).wf(),
            now + old(self).push_trans.spec_window() <= u64::MAX,
        ensures
            final(self).wf(),
            r == dedup_live(old(self).push_trans@, Self::push_trans_key(trans_type, msg_id), now),
            r ==> final(self).push_trans@ == old(self).push_trans@,
            !r ==> final(self).push_trans@ == old(self).push_trans@.insert(
                Self::push_trans_key(trans_type, msg_id),
                (now + old(self).push_trans.spec_window()) as u64,
            ),
            final(self).push_trans.spec_window() == old(self).push_trans.spec_window(),
            final(self).c2c == old(self).c2c,
            final(self).push_req == old(self).push_req,
    {
        let key = DedupKey { sender: trans_type as i64, target: msg_id, sequence: 0, discriminator: 0 };
        self.push_trans.check_and_insert(key, now)
    }
}

/// Law of the deduplication window: once a miss records `k` at `t_insert`,
/// a repeat check strictly inside the window reports a duplicate, and a
/// check at or past the window's end treats `k` as new again.
pub proof fn lemma_dedup_window(
    m: Map<DedupKey, u64>,
    k: DedupKey,
    t_insert: u64,
    window: u64,
    t_check: u64,
)
    requires
        t_insert + window <= u64::MAX,
    ensures
        dedup_live(m.insert(k, (t_insert + window) as u64), k, t_check) == (t_check < t_insert
            + window),
{
}

} // verus!
