//! Reassembly of fragmented inbound group messages.
//!
//! All parts of one multi-part message share a fragmentation id. Parts are
//! buffered sorted by their package index; when the buffered count reaches
//! the declared total, the payloads are concatenated in index order,
//! returned, and the bucket is removed. A bucket that sits past a fixed
//! window from its creation is treated as absent: a partially received
//! message is silently discarded and never delivered. That lossy policy is
//! the observed design, kept deliberately.
//!
//! The current time comes in as an argument (milliseconds on any monotone
//! clock the caller fixes), so the whole behaviour is a function of the
//! inputs.

use vstd::prelude::*;

use crate::assoc::AssocMap;

verus! {

/// One buffered fragment: its package index and its payload bytes.
pub struct Part {
    pub index: u32,
    pub body: Vec<u8>,
}

/// The buffered fragments of one multi-part message, with the instant the
/// bucket was created (its eviction window runs from here, not from the
/// last arrival).
pub struct FragmentBucket {
    pub created: u64,
    pub parts: Vec<Part>,
}

/// Parts stand in non-decreasing package-index order.
pub open spec fn parts_sorted(s: Seq<Part>) -> bool {
    forall|i: int, j: int| 0 <= i < j < s.len() ==> (#[trigger] s[i]).index <= (#[trigger] s[j]).index
}

/// Where an arriving part lands: after every buffered part whose index is
/// not greater than its own.
pub open spec fn insert_sorted(s: Seq<Part>, p: Part) -> Seq<Part>
    decreases s.len(),
{
    if s.len() == 0 {
        seq![p]
    } else if s.last().index <= p.index {
        s.push(p)
    } else {
        insert_sorted(s.drop_last(), p).push(s.last())
    }
}

/// The payload a complete bucket yields: the bodies of its parts,
/// concatenated in buffer order.
pub open spec fn concat_bodies(s: Seq<Part>) -> Seq<u8>
    decreases s.len(),
{
    if s.len() == 0 {
        Seq::empty()
    } else {
        concat_bodies(s.drop_last()) + s.last().body@
    }
}

/// Inserting at a position that splits the parts into a not-greater prefix
/// and a greater suffix realizes `insert_sorted` and keeps the order.
proof fn lemma_insert_at_position(s: Seq<Part>, p: Part, pos: int)
    requires
        parts_sorted(s),
        0 <= pos <= s.len(),
        forall|j: int| 0 <= j < pos ==> (#[trigger] s[j]).index <= p.index,
        forall|j: int| pos <= j < s.len() ==> (#[trigger] s[j]).index > p.index,
    ensures
        s.insert(pos, p) == insert_sorted(s, p),
        parts_sorted(s.insert(pos, p)),
    decreases s.len(),
{
    let t = s.insert(pos, p);
    assert forall|a: int, b: int| 0 <= a < b < t.len() implies (#[trigger] t[a]).index
        <= (#[trigger] t[b]).index by {
        if a < pos && b < pos {
        } else if a == pos && b > pos {
            assert(t[b] == s[b - 1]);
        } else if b == pos {
            assert(t[a] == s[a]);
        } else if a > pos {
            assert(t[a] == s[a - 1]);
            assert(t[b] == s[b - 1]);
        } else {
            assert(t[a] == s[a]);
            assert(t[b] == s[b - 1]);
        }
    }
    if pos == s.len() {
        assert(s.insert(pos, p) =~= s.push(p));
        if s.len() == 0 {
            assert(s.push(p) =~= seq![p]);
        }
    } else {
        assert(s.len() > 0);
        assert(s.last().index > p.index);
        lemma_insert_at_position(s.drop_last(), p, pos);
        assert(s.insert(pos, p) =~= s.drop_last().insert(pos, p).push(s.last()));
    }
}

/// A time-windowed cache of fragment buckets keyed by fragmentation id.
pub struct MessageReassembler {
    window: u64,
    buckets: AssocMap<FragmentBucket>,
}

impl MessageReassembler {
    /// The buffered buckets, keyed by fragmentation id.
    pub closed spec fn buckets_view(self) -> Map<i64, FragmentBucket> {
        self.buckets@
    }

    /// The fixed eviction window, from a bucket's creation.
    pub closed spec fn spec_window(self) -> u64 {
        self.window
    }

    /// Well-formedness: the store keeps one bucket per id, every bucket is
    /// sorted by package index, and no stored expiry computation can
    /// overflow.
    pub closed spec fn wf(self) -> bool {
        &&& self.buckets.wf()
        &&& forall|id: i64|
            self.buckets@.contains_key(id) ==> parts_sorted(
                (#[trigger] self.buckets@[id]).parts@,
            )
        &&& forall|id: i64|
            self.buckets@.contains_key(id) ==> (#[trigger] self.buckets@[id]).created
                + self.window <= u64::MAX
    }

    /// Whether an unexpired bucket for `id` is present at `now`.
    pub open spec fn has_live_bucket(self, id: i64, now: u64) -> bool {
        self.buckets_view().contains_key(id) && now < self.buckets_view()[id].created
            + self.spec_window()
    }

    /// The parts an arriving fragment joins: the live bucket's, or none.
    pub open spec fn base_parts(self, id: i64, now: u64) -> Seq<Part> {
        if self.has_live_bucket(id, now) {
            self.buckets_view()[id].parts@
        } else {
            Seq::empty()
        }
    }

    /// The creation instant the stored bucket keeps: a live bucket keeps
    /// its own, a fresh one starts at `now`.
    pub open spec fn base_created(self, id: i64, now: u64) -> u64 {
        if self.has_live_bucket(id, now) {
            self.buckets_view()[id].created
        } else {
            now
        }
    }

    /// An empty reassembler whose buckets live for `window` milliseconds
    /// from creation.
    pub fn new(window: u64) -> (r: MessageReassembler)
        ensures
            r.wf(),
            r.buckets_view() == Map::<i64, FragmentBucket>::empty(),
            r.spec_window() == window,
    {
        MessageReassembler { window, buckets: AssocMap::new() }
    }

    /// Buffers one fragment and, when that completes the message, returns
    /// the payloads concatenated in package-index order and drops the
    /// bucket. An expired bucket for the same id is discarded first: the
    /// message starts fresh. Returns `None` while the message is still
    /// incomplete.
    pub fn ingest(
        &mut self,
        fragment_id: i64,
        part_index: u32,
        total_parts: u32,
        payload: Vec<u8>,
        now: u64,
    ) -> (r: Option<Vec<u8>>)
        requires
            old(self).wf(),
            now + old(self).spec_window() <= u64::MAX,
        ensures
            final(self).wf(),
            final(self).spec_window() == old(self).spec_window(),
            ({
                let merged = insert_sorted(
                    old(self).base_parts(fragment_id, now),
                    Part { index: part_index, body: payload },
                );
                if merged.len() == total_parts as int {
                    &&& r matches Some(m) && m@ == concat_bodies(merged)
                    &&& final(self).buckets_view() == old(self).buckets_view().remove(
                        fragment_id,
                    )
                } else {
                    &&& r is None
                    &&& final(self).buckets_view().contains_key(fragment_id)
                    &&& final(self).buckets_view()[fragment_id].created == old(self).base_created(
                        fragment_id,
                        now,
                    )
                    &&& final(self).buckets_view()[fragment_id].parts@ == merged
                    &&& final(self).buckets_view().remove(fragment_id) == old(
                        self,
                    ).buckets_view().remove(fragment_id)
                }
            }),
    {
        let ghost merged_spec = insert_sorted(
            old(self).base_parts(fragment_id, now),
            Part { index: part_index, body: payload },
        );
        let (created, mut parts): (u64, Vec<Part>) = match self.buckets.remove(fragment_id) {
            Some(bucket) => {
                if now < bucket.created + self.window {
                    (bucket.created, bucket.parts)
                } else {
                    (now, Vec::new())
                }
            },
            None => (now, Vec::new()),
        };
        let part = Part { index: part_index, body: payload };
        let pos = Self::insert_position(&parts, part_index);
        proof {
            lemma_insert_at_position(parts@, part, pos as int);
        }
        parts.insert(pos, part);
        assert(parts@ == merged_spec);
        if parts.len() == total_parts as usize {
            proof {
                assert(self.buckets@ =~= old(self).buckets@.remove(fragment_id));
            }
            let out = Self::concat(&parts);
            Some(out)
        } else {
            let bucket = FragmentBucket { created, parts };
            self.buckets.insert(fragment_id, bucket);
            proof {
                assert(self.buckets@.remove(fragment_id) =~= old(self).buckets@.remove(
                    fragment_id,
                ));
            }
            None
        }
    }

    /// Actively evicts every expired bucket: an incomplete message whose
    /// window passed is discarded silently — never delivered, never
    /// reported — so memory stays bounded by the window. Live buckets are
    /// untouched.
    pub fn evict_expired(&mut self, now: u64)
        requires
            old(self).wf(),
        ensures
            final(self).wf(),
            final(self).spec_window() == old(self).spec_window(),
            forall|id: i64|
                final(self).buckets_view().contains_key(id) <==> old(self).has_live_bucket(
                    id,
                    now,
                ),
            forall|id: i64|
                #[trigger] final(self).buckets_view().contains_key(id)
                    ==> final(self).buckets_view()[id] == old(self).buckets_view()[id],
    {
        let keys = self.buckets.keys();
        let n = keys.len();
        let mut i: usize = 0;
        while i < n
            invariant
                old(self).wf(),
                self.buckets.wf(),
                self.window == old(self).window,
                n == keys@.len(),
                i <= n,
                forall|j: int| 0 <= j < n ==> old(self).buckets@.contains_key(#[trigger] keys@[j]),
                forall|k: i64| #[trigger] old(self).buckets@.contains_key(k) ==> keys@.contains(k),
                forall|a: int, b: int| 0 <= a < b < n ==> keys@[a] != keys@[b],
                forall|k: i64|
                    #[trigger] self.buckets@.contains_key(k) ==> old(self).buckets@.contains_key(k)
                        && self.buckets@[k] == old(self).buckets@[k],
                forall|k: i64|
                    old(self).buckets@.contains_key(k) && !(#[trigger] self.buckets@.contains_key(
                        k,
                    )) ==> !(now < old(self).buckets@[k].created + old(self).window),
                forall|j: int|
                    0 <= j < i && !(now < old(self).buckets@[#[trigger] keys@[j]].created + old(
                        self,
                    ).window) ==> !self.buckets@.contains_key(keys@[j]),
            decreases n - i,
        {
            let key = keys[i];
            let expired: bool = match self.buckets.get(key) {
                Some(bucket) => !(now < bucket.created + self.window),
                None => false,
            };
            if expired {
                let _ = self.buckets.remove(key);
            }
            i += 1;
        }
        proof {
            assert forall|id: i64|
                old(self).has_live_bucket(id, now) implies self.buckets@.contains_key(id) by {}
            assert forall|id: i64|
                #[trigger] self.buckets@.contains_key(id) implies old(self).has_live_bucket(
                id,
                now,
            ) by {
                let j = choose|j: int| 0 <= j < keys@.len() && keys@[j] == id;
                assert(keys@.contains(id));
                assert(0 <= j < n);
            }
        }
    }

    /// First position whose part has a package index greater than `index`;
    /// the parts before it are all not greater.
    fn insert_position(parts: &Vec<Part>, index: u32) -> (pos: usize)
        requires
            parts_sorted(parts@),
        ensures
            pos <= parts@.len(),
            forall|j: int| 0 <= j < pos ==> (#[trigger] parts@[j]).index <= index,
            forall|j: int| pos <= j < parts@.len() ==> (#[trigger] parts@[j]).index > index,
    {
        let n = parts.len();
        let mut pos: usize = 0;
        while pos < n
            invariant
                n == parts@.len(),
                pos <= n,
                parts_sorted(parts@),
                forall|j: int| 0 <= j < pos ==> (#[trigger] parts@[j]).index <= index,
            decreases n - pos,
        {
            if parts[pos].index > index {
                return pos;
            }
            pos += 1;
        }
        pos
    }

    /// The bodies of the parts, concatenated in buffer order.
    fn concat(parts: &Vec<Part>) -> (out: Vec<u8>)
        ensures
            out@ == concat_bodies(parts@),
    {
        let mut out: Vec<u8> = Vec::new();
        let n = parts.len();
        let mut i: usize = 0;
        while i < n
            invariant
                n == parts@.len(),
                i <= n,
                out@ == concat_bodies(parts@.take(i as int)),
            decreases n - i,
        {
            let m = parts[i].body.len();
            let mut j: usize = 0;
            while j < m
                invariant
                    n == parts@.len(),
                    i < n,
                    m == parts@[i as int].body@.len(),
                    j <= m,
                    out@ == concat_bodies(parts@.take(i as int)) + parts@[i as int].body@.take(
                        j as int,
                    ),
                decreases m - j,
            {
                let b = parts[i].body[j];
                out.push(b);
                proof {
                    assert(parts@[i as int].body@.take(j + 1) =~= parts@[i as int].body@.take(
                        j as int,
                    ).push(b));
                }
                j += 1;
            }
            proof {
                assert(parts@.take(i + 1).drop_last() =~= parts@.take(i as int));
                assert(parts@.take(i + 1).last() == parts@[i as int]);
                assert(parts@[i as int].body@.take(m as int) =~= parts@[i as int].body@);
            }
            i += 1;
        }
        proof {
            assert(parts@.take(n as int) =~= parts@);
        }
        out
    }
}

} // verus!
