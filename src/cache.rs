//! Capacity-bounded frame cache with least-recently-used eviction.
use crate::text::str_eq;
use vstd::prelude::*;

verus! {

/// Bytes in one mebibyte, the unit of a cache's budget.
pub const BYTES_PER_MB: usize = 1048576;

/// A value that the cache can hold: it knows how many payload bytes it
/// occupies.
pub trait FramePayload {
    spec fn payload_bytes(&self) -> nat;

    fn byte_len(&self) -> (r: usize)
        ensures
            r as nat == self.payload_bytes(),
    ;
}

/// What a key is in proofs: the source identifier and the frame index.
pub type KeyView = (Seq<char>, u64);

/// Key of one cache entry: a source identifier and a frame index.
pub struct CacheKey {
    pub source: String,
    pub frame_index: u64,
}

impl View for CacheKey {
    type V = KeyView;

    open spec fn view(&self) -> KeyView {
        (self.source@, self.frame_index)
    }
}

impl CacheKey {
    fn is_key(&self, source: &str, frame_index: u64) -> (r: bool)
        ensures
            r == (self@ == (source@, frame_index)),
    {
        if self.frame_index != frame_index {
            return false;
        }
        let a = self.source.as_str();
        let equal = str_eq(a, source);
        equal
    }
}

/// One cached frame with its byte size.
pub struct CacheEntry<F> {
    pub key: CacheKey,
    pub frame: F,
    pub size_bytes: usize,
}

/// Sum of the payload sizes of a sequence of cached frames.
pub open spec fn total_bytes<F: FramePayload>(s: Seq<(KeyView, F)>) -> nat
    decreases s.len(),
{
    if s.len() == 0 {
        0
    } else {
        s[0].1.payload_bytes() + total_bytes(s.subrange(1, s.len() as int))
    }
}

/// Whether some entry of `s` has key `k`.
pub open spec fn has_key<F>(s: Seq<(KeyView, F)>, k: KeyView) -> bool {
    exists|i: int| 0 <= i < s.len() && s[i].0 == k
}

/// No two entries share a key.
pub open spec fn keys_unique<F>(s: Seq<(KeyView, F)>) -> bool {
    forall|i: int, j: int| 0 <= i < s.len() && 0 <= j < s.len() && i != j ==> s[i].0 != s[j].0
}

/// The frame stored under `k`, if any (the first one in access order).
pub open spec fn lookup<F>(s: Seq<(KeyView, F)>, k: KeyView) -> Option<F>
    decreases s.len(),
{
    if s.len() == 0 {
        None
    } else if s[0].0 == k {
        Some(s[0].1)
    } else {
        lookup(s.subrange(1, s.len() as int), k)
    }
}

/// `s` without its entry for `k` (the first one in access order).
pub open spec fn remove_key<F>(s: Seq<(KeyView, F)>, k: KeyView) -> Seq<(KeyView, F)>
    decreases s.len(),
{
    if s.len() == 0 {
        s
    } else if s[0].0 == k {
        s.subrange(1, s.len() as int)
    } else {
        seq![s[0]] + remove_key(s.subrange(1, s.len() as int), k)
    }
}

/// Drops least-recently-used entries (the front) until `incoming` more bytes
/// fit in `capacity`, or nothing is left.
pub open spec fn evict_for<F: FramePayload>(
    s: Seq<(KeyView, F)>,
    incoming: nat,
    capacity: nat,
) -> Seq<(KeyView, F)>
    decreases s.len(),
{
    if s.len() == 0 || total_bytes(s) + incoming <= capacity {
        s
    } else {
        evict_for(s.subrange(1, s.len() as int), incoming, capacity)
    }
}

/// The entries after inserting `frame` under `k`: the old entry for `k` goes,
/// then the least recently used ones until the new frame fits, and the new
/// frame becomes the most recently used.
pub open spec fn inserted<F: FramePayload>(
    s: Seq<(KeyView, F)>,
    k: KeyView,
    frame: F,
    capacity: nat,
) -> Seq<(KeyView, F)> {
    evict_for(remove_key(s, k), frame.payload_bytes(), capacity).push((k, frame))
}

/// Frame cache with least-recently-used eviction, bounded by a byte budget.
pub struct FrameCache<F> {
    max_size_mb: usize,
    capacity_bytes: usize,
    current_size_bytes: usize,
    entries: Vec<CacheEntry<F>>,
    hits: u64,
    misses: u64,
}

/// Counts that describe a cache at one moment.
pub struct CacheStats {
    pub total_frames: usize,
    pub size_bytes: usize,
    pub hits: u64,
    pub misses: u64,
}

impl<F: FramePayload> FrameCache<F> {
    /// The entries in access order, least recently used first.
    pub closed spec fn entries(&self) -> Seq<(KeyView, F)> {
        self.entries@.map_values(|e: CacheEntry<F>| (e.key@, e.frame))
    }

    pub closed spec fn capacity(&self) -> nat {
        self.capacity_bytes as nat
    }

    pub closed spec fn budget_mb(&self) -> nat {
        self.max_size_mb as nat
    }

    pub closed spec fn size(&self) -> nat {
        self.current_size_bytes as nat
    }

    pub closed spec fn hit_count(&self) -> u64 {
        self.hits
    }

    pub closed spec fn miss_count(&self) -> u64 {
        self.misses
    }

    pub closed spec fn wf(&self) -> bool {
        &&& self.capacity_bytes == self.max_size_mb * BYTES_PER_MB
        &&& forall|i: int|
            0 <= i < self.entries@.len() ==> (#[trigger] self.entries@[i]).size_bytes as nat
                == self.entries@[i].frame.payload_bytes()
        &&& self.current_size_bytes as nat == total_bytes(self.entries())
        &&& keys_unique(self.entries())
        &&& (self.current_size_bytes <= self.capacity_bytes || self.entries@.len() == 1)
    }

    /// Creates an empty cache with a budget of `max_size_mb` mebibytes.
    pub fn new(max_size_mb: usize) -> (r: Self)
        requires
            max_size_mb * BYTES_PER_MB <= usize::MAX,
        ensures
            r.wf(),
            r.entries() == Seq::<(KeyView, F)>::empty(),
            r.budget_mb() == max_size_mb,
            r.capacity() == max_size_mb * BYTES_PER_MB,
            r.size() == 0,
            r.hit_count() == 0,
            r.miss_count() == 0,
    {
        let r = FrameCache {
            max_size_mb,
            capacity_bytes: max_size_mb * BYTES_PER_MB,
            current_size_bytes: 0,
            entries: Vec::new(),
            hits: 0,
            misses: 0,
        };
        assert(r.entries() =~= Seq::<(KeyView, F)>::empty());
        r
    }

    /// Index of the entry for (`source`, `frame_index`), if there is one.
    fn position(&self, source: &str, frame_index: u64) -> (r: Option<usize>)
        requires
            self.wf(),
        ensures
            match r {
                Some(i) => {
                    &&& i < self.entries@.len()
                    &&& self.entries()[i as int].0 == (source@, frame_index)
                    &&& remove_key(self.entries(), (source@, frame_index)) == self.entries().remove(
                        i as int,
                    )
                    &&& lookup(self.entries(), (source@, frame_index)) == Some(
                        self.entries@[i as int].frame,
                    )
                },
                None => {
                    &&& remove_key(self.entries(), (source@, frame_index)) == self.entries()
                    &&& lookup(self.entries(), (source@, frame_index)) == None::<F>
                    &&& !has_key(self.entries(), (source@, frame_index))
                },
            },
    {
        let ghost k: KeyView = (source@, frame_index);
        let ghost s = self.entries();
        let mut i: usize = 0;
        while i < self.entries.len()
            invariant
                i <= self.entries@.len(),
                s == self.entries(),
                k == (source@, frame_index),
                s.len() == self.entries@.len(),
                forall|j: int| 0 <= j < i ==> s[j].0 != k,
            decreases self.entries@.len() - i,
        {
            assert(s[i as int] == (self.entries@[i as int].key@, self.entries@[i as int].frame));
            let found = self.entries[i].key.is_key(source, frame_index);

            if found {
                proof {
                    lemma_first_match(s, k, i as int);
                }
                return Some(i);
            }
            i = i + 1;
        }
        proof {
            lemma_no_match(s, k);
        }
        None
    }

    /// Stores `frame` under (`source`, `frame_index`). An entry already stored
    /// under that key is replaced. Least recently used entries are evicted
    /// until the new frame fits the budget, or until none is left; the new
    /// entry becomes the most recently used.
    pub fn insert(&mut self, source: &str, frame_index: u64, frame: F)
        requires
            old(self).wf(),
        ensures
            final(self).wf(),
            final(self).entries() == inserted(
                old(self).entries(),
                (source@, frame_index),
                frame,
                old(self).capacity(),
            ),
            final(self).capacity() == old(self).capacity(),
            final(self).budget_mb() == old(self).budget_mb(),
            final(self).hit_count() == old(self).hit_count(),
            final(self).miss_count() == old(self).miss_count(),
    {
        let ghost k: KeyView = (source@, frame_index);
        let ghost s0 = self.entries();
        let size = frame.byte_len();
        let pos = self.position(source, frame_index);
        match pos {
            Some(i) => {
                let old_entry = self.entries.remove(i);
                proof {
                    assert(self.entries() =~= s0.remove(i as int));
                    lemma_total_remove(s0, i as int);
                    lemma_unique_remove(s0, i as int);
                }
                self.current_size_bytes = self.current_size_bytes - old_entry.size_bytes;
            },
            None => {},
        }
        let ghost s1 = self.entries();
        assert(s1 == remove_key(s0, k));
        assert(!has_key(s1, k));
        let cap = self.capacity_bytes;
        while self.entries.len() > 0 && (size > cap || self.current_size_bytes > cap - size)
            invariant
                cap == self.capacity_bytes,
                self.capacity_bytes == self.max_size_mb * BYTES_PER_MB,
                forall|i: int|
                    0 <= i < self.entries@.len() ==> (#[trigger] self.entries@[i]).size_bytes as nat
                        == self.entries@[i].frame.payload_bytes(),
                self.current_size_bytes as nat == total_bytes(self.entries()),
                keys_unique(self.entries()),
                !has_key(self.entries(), k),
                k == (source@, frame_index),
                evict_for(self.entries(), size as nat, cap as nat) == evict_for(
                    s1,
                    size as nat,
                    cap as nat,
                ),
                size as nat == frame.payload_bytes(),
                self.hits == old(self).hits,
                self.misses == old(self).misses,
                self.max_size_mb == old(self).max_size_mb,
            decreases self.entries@.len(),
        {
            let ghost before = self.entries();
            let evicted = self.entries.remove(0);
            proof {
                assert(self.entries() =~= before.remove(0));
                assert(before.remove(0) =~= before.subrange(1, before.len() as int));
                lemma_total_remove(before, 0);
                lemma_unique_remove(before, 0);
            }
            self.current_size_bytes = self.current_size_bytes - evicted.size_bytes;
        }
        proof {
            lemma_evict_suffix(s1, size as nat, cap as nat);
            assert(evict_for(self.entries(), size as nat, cap as nat) == self.entries());
        }
        let ghost s2 = self.entries();
        let key = CacheKey { source: source.to_owned(), frame_index };
        self.entries.push(CacheEntry { key, frame, size_bytes: size });
        proof {
            assert(self.entries() =~= s2.push((k, frame)));
            lemma_total_push(s2, (k, frame));
            lemma_unique_push(s2, (k, frame));
        }
        self.current_size_bytes = self.current_size_bytes + size;
    }

    /// Looks up the frame stored under (`source`, `frame_index`). A hit makes
    /// the entry the most recently used and counts a hit; a miss counts a
    /// miss and changes nothing else.
    pub fn get(&mut self, source: &str, frame_index: u64) -> (r: Option<&F>)
        requires
            old(self).wf(),
        ensures
            final(self).wf(),
            final(self).capacity() == old(self).capacity(),
            final(self).budget_mb() == old(self).budget_mb(),
            final(self).size() == old(self).size(),
            match lookup(old(self).entries(), (source@, frame_index)) {
                Some(f) => {
                    &&& r.is_some() && *r.unwrap() == f
                    &&& final(self).entries() == remove_key(
                        old(self).entries(),
                        (source@, frame_index),
                    ).push(((source@, frame_index), f))
                    &&& final(self).hit_count() == bumped(old(self).hit_count())
                    &&& final(self).miss_count() == old(self).miss_count()
                },
                None => {
                    &&& r.is_none()
                    &&& final(self).entries() == old(self).entries()
                    &&& final(self).hit_count() == old(self).hit_count()
                    &&& final(self).miss_count() == bumped(old(self).miss_count())
                },
            },
    {
        let ghost k: KeyView = (source@, frame_index);
        let ghost s0 = self.entries();
        match self.position(source, frame_index) {
            Some(i) => {
                let entry = self.entries.remove(i);
                proof {
                    assert(self.entries() =~= s0.remove(i as int));
                    lemma_total_remove(s0, i as int);
                    lemma_unique_remove(s0, i as int);
                }
                let ghost s1 = self.entries();
                self.entries.push(entry);
                proof {
                    assert(self.entries() =~= s1.push(s0[i as int]));
                    lemma_total_push(s1, s0[i as int]);
                    lemma_unique_push(s1, s0[i as int]);
                }
                self.hits = self.hits.saturating_add(1);
                let last = self.entries.len() - 1;
                Some(&self.entries[last].frame)
            },
            None => {
                self.misses = self.misses.saturating_add(1);
                None
            },
        }
    }

    /// Whether a frame is stored under (`source`, `frame_index`); neither the
    /// access order nor the counters change.
    pub fn contains(&self, source: &str, frame_index: u64) -> (r: bool)
        requires
            self.wf(),
        ensures
            r == has_key(self.entries(), (source@, frame_index)),
    {
        match self.position(source, frame_index) {
            Some(i) => {
                assert(self.entries()[i as int].0 == (source@, frame_index));
                true
            },
            None => false,
        }
    }

    /// Drops every entry and resets the byte count and the counters to zero.
    pub fn clear(&mut self)
        requires
            old(self).wf(),
        ensures
            final(self).wf(),
            final(self).entries() == Seq::<(KeyView, F)>::empty(),
            final(self).size() == 0,
            final(self).hit_count() == 0,
            final(self).miss_count() == 0,
            final(self).capacity() == old(self).capacity(),
            final(self).budget_mb() == old(self).budget_mb(),
    {
        self.entries = Vec::new();
        self.current_size_bytes = 0;
        self.hits = 0;
        self.misses = 0;
        assert(self.entries() =~= Seq::<(KeyView, F)>::empty());
    }

    /// Bytes currently held.
    pub fn current_size_bytes(&self) -> (r: usize)
        ensures
            r == self.size(),
    {
        self.current_size_bytes
    }

    /// The byte budget.
    pub fn capacity_bytes(&self) -> (r: usize)
        ensures
            r == self.capacity(),
    {
        self.capacity_bytes
    }

    /// The budget in mebibytes, as given at construction.
    pub fn max_size_mb(&self) -> (r: usize)
        ensures
            r == self.budget_mb(),
    {
        self.max_size_mb
    }

    /// Number of entries.
    pub fn len(&self) -> (r: usize)
        ensures
            r == self.entries().len(),
    {
        self.entries.len()
    }

    /// Entry count, occupied bytes, hits and misses.
    pub fn stats(&self) -> (r: CacheStats)
        ensures
            r.total_frames == self.entries().len(),
            r.size_bytes == self.size(),
            r.hits == self.hit_count(),
            r.misses == self.miss_count(),
    {
        CacheStats {
            total_frames: self.entries.len(),
            size_bytes: self.current_size_bytes,
            hits: self.hits,
            misses: self.misses,
        }
    }
}

/// `n + 1`, held at the largest value instead of wrapping.
pub open spec fn bumped(n: u64) -> u64 {
    if n == u64::MAX {
        n
    } else {
        (n + 1) as u64
    }
}

/// The byte budget holds after every insert: a frame that fits the budget
/// leaves the cache within it, and a frame larger than the whole budget
/// evicts everything else and stays alone.
pub proof fn lemma_insert_respects_budget<F: FramePayload>(
    s: Seq<(KeyView, F)>,
    k: KeyView,
    frame: F,
    capacity: nat,
)
    ensures
        frame.payload_bytes() <= capacity ==> total_bytes(inserted(s, k, frame, capacity))
            <= capacity,
        frame.payload_bytes() > capacity ==> inserted(s, k, frame, capacity) == seq![(k, frame)],
{
    let s1 = remove_key(s, k);
    let e = evict_for(s1, frame.payload_bytes(), capacity);
    lemma_evict_suffix(s1, frame.payload_bytes(), capacity);
    lemma_total_push(e, (k, frame));
    if e.len() == 0 {
        assert(e.push((k, frame)) =~= seq![(k, frame)]);
    }
}

/// A cache that is well formed holds at most its budget, unless a single
/// entry larger than the budget is all it holds.
pub proof fn lemma_cache_within_budget<F: FramePayload>(c: FrameCache<F>)
    requires
        c.wf(),
    ensures
        c.size() == total_bytes(c.entries()),
        c.size() <= c.capacity() || c.entries().len() == 1,
        keys_unique(c.entries()),
{
}

proof fn lemma_lookup_push<F>(t: Seq<(KeyView, F)>, x: (KeyView, F), m: KeyView)
    ensures
        lookup(t.push(x), m) == match lookup(t, m) {
            Some(v) => Some(v),
            None => if x.0 == m {
                Some(x.1)
            } else {
                None
            },
        },
    decreases t.len(),
{
    let u = t.push(x);
    if t.len() == 0 {
        assert(u.subrange(1, u.len() as int) =~= Seq::<(KeyView, F)>::empty());
    } else {
        assert(u.subrange(1, u.len() as int) =~= t.subrange(1, t.len() as int).push(x));
        lemma_lookup_push(t.subrange(1, t.len() as int), x, m);
    }
}

proof fn lemma_lookup_remove_other<F>(s: Seq<(KeyView, F)>, k: KeyView, m: KeyView)
    requires
        m != k,
    ensures
        lookup(remove_key(s, k), m) == lookup(s, m),
    decreases s.len(),
{
    if s.len() > 0 && s[0].0 != k {
        let tail = s.subrange(1, s.len() as int);
        let r = seq![s[0]] + remove_key(tail, k);
        assert(r.subrange(1, r.len() as int) =~= remove_key(tail, k));
        lemma_lookup_remove_other(tail, k, m);
    }
}

proof fn lemma_lookup_removed<F>(s: Seq<(KeyView, F)>, k: KeyView)
    requires
        keys_unique(s),
    ensures
        lookup(remove_key(s, k), k) == None::<F>,
    decreases s.len(),
{
    if s.len() > 0 {
        let tail = s.subrange(1, s.len() as int);
        lemma_unique_subrange(s, 1, s.len() as int);
        if s[0].0 == k {
            assert forall|j: int| 0 <= j < tail.len() implies tail[j].0 != k by {
                assert(tail[j] == s[j + 1]);
            }
            lemma_no_match(tail, k);
        } else {
            let r = seq![s[0]] + remove_key(tail, k);
            assert(r.subrange(1, r.len() as int) =~= remove_key(tail, k));
            lemma_lookup_removed(tail, k);
        }
    }
}

/// Refreshing the entry for `k` (moving it to the most recently used end)
/// changes what no lookup finds.
pub proof fn lemma_lookup_refresh<F>(s: Seq<(KeyView, F)>, k: KeyView, f: F)
    requires
        keys_unique(s),
        lookup(s, k) == Some(f),
    ensures
        forall|m: KeyView| #[trigger]
            lookup(remove_key(s, k).push((k, f)), m) == lookup(s, m),
{
    assert forall|m: KeyView| #[trigger]
        lookup(remove_key(s, k).push((k, f)), m) == lookup(s, m) by {
        lemma_lookup_push(remove_key(s, k), (k, f), m);
        if m == k {
            lemma_lookup_removed(s, k);
        } else {
            lemma_lookup_remove_other(s, k, m);
        }
    }
}

pub(crate) proof fn lemma_remove_key_push_other<F>(t: Seq<(KeyView, F)>, x: (KeyView, F), k: KeyView)
    requires
        x.0 != k,
    ensures
        remove_key(t.push(x), k) == remove_key(t, k).push(x),
    decreases t.len(),
{
    let u = t.push(x);
    if t.len() == 0 {
        let e = Seq::<(KeyView, F)>::empty();
        assert(u.subrange(1, u.len() as int) =~= e);
        assert(remove_key(e, k) == e);
        assert(t =~= e);
        assert(remove_key(u, k) == seq![u[0]] + remove_key(u.subrange(1, u.len() as int), k));
        assert(seq![u[0]] + e =~= e.push(x));
    } else {
        let tail = t.subrange(1, t.len() as int);
        assert(u.subrange(1, u.len() as int) =~= tail.push(x));
        if t[0].0 == k {
            assert(remove_key(u, k) =~= tail.push(x));
        } else {
            lemma_remove_key_push_other(tail, x, k);
            assert(seq![t[0]] + remove_key(tail, k).push(x) =~= (seq![t[0]] + remove_key(
                tail,
                k,
            )).push(x));
        }
    }
}

pub(crate) proof fn lemma_evict_keeps_last<F: FramePayload>(
    t: Seq<(KeyView, F)>,
    incoming: nat,
    capacity: nat,
)
    requires
        t.len() > 0,
        t.last().1.payload_bytes() + incoming <= capacity,
    ensures
        evict_for(t, incoming, capacity).len() > 0,
        evict_for(t, incoming, capacity).last() == t.last(),
    decreases t.len(),
{
    if t.len() == 1 {
        assert(t.subrange(1, 1) =~= Seq::<(KeyView, F)>::empty());
        assert(total_bytes(t.subrange(1, 1)) == 0);
    } else if total_bytes(t) + incoming > capacity {
        lemma_evict_keeps_last(t.subrange(1, t.len() as int), incoming, capacity);
    }
}

pub(crate) proof fn lemma_lookup_unique<F>(s: Seq<(KeyView, F)>, i: int)
    requires
        keys_unique(s),
        0 <= i < s.len(),
    ensures
        lookup(s, s[i].0) == Some(s[i].1),
{
    lemma_first_match(s, s[i].0, i);
}

/// Every entry of `s` satisfies `p`.
pub open spec fn all_entries<F>(s: Seq<(KeyView, F)>, p: spec_fn((KeyView, F)) -> bool) -> bool {
    forall|i: int| 0 <= i < s.len() ==> p(#[trigger] s[i])
}

pub(crate) proof fn lemma_lookup_satisfies<F>(
    s: Seq<(KeyView, F)>,
    k: KeyView,
    p: spec_fn((KeyView, F)) -> bool,
)
    requires
        all_entries(s, p),
        lookup(s, k) is Some,
    ensures
        p((k, lookup(s, k).unwrap())),
    decreases s.len(),
{
    if s[0].0 != k {
        let tail = s.subrange(1, s.len() as int);
        assert forall|i: int| 0 <= i < tail.len() implies p(#[trigger] tail[i]) by {
            assert(tail[i] == s[i + 1]);
        }
        lemma_lookup_satisfies(tail, k, p);
    } else {
        assert(p(s[0]));
    }
}

pub(crate) proof fn lemma_remove_key_satisfies<F>(
    s: Seq<(KeyView, F)>,
    k: KeyView,
    p: spec_fn((KeyView, F)) -> bool,
)
    requires
        all_entries(s, p),
    ensures
        all_entries(remove_key(s, k), p),
    decreases s.len(),
{
    if s.len() > 0 {
        let tail = s.subrange(1, s.len() as int);
        assert forall|i: int| 0 <= i < tail.len() implies p(#[trigger] tail[i]) by {
            assert(tail[i] == s[i + 1]);
        }
        if s[0].0 != k {
            lemma_remove_key_satisfies(tail, k, p);
            let r = seq![s[0]] + remove_key(tail, k);
            assert forall|i: int| 0 <= i < r.len() implies p(#[trigger] r[i]) by {
                if i == 0 {
                    assert(p(s[0]));
                } else {
                    assert(r[i] == remove_key(tail, k)[i - 1]);
                }
            }
        }
    }
}

/// Inserting an entry that satisfies `p` into entries that all satisfy `p`
/// leaves entries that all satisfy `p`.
pub(crate) proof fn lemma_inserted_satisfies<F: FramePayload>(
    s: Seq<(KeyView, F)>,
    k: KeyView,
    frame: F,
    capacity: nat,
    p: spec_fn((KeyView, F)) -> bool,
)
    requires
        all_entries(s, p),
        p((k, frame)),
    ensures
        all_entries(inserted(s, k, frame, capacity), p),
{
    let s1 = remove_key(s, k);
    lemma_remove_key_satisfies(s, k, p);
    lemma_evict_suffix(s1, frame.payload_bytes(), capacity);
    let e = evict_for(s1, frame.payload_bytes(), capacity);
    let off = s1.len() - e.len();
    let r = e.push((k, frame));
    assert forall|i: int| 0 <= i < r.len() implies p(#[trigger] r[i]) by {
        if i < e.len() {
            assert(e[i] == s1[i + off]);
        }
    }
}

proof fn lemma_total_push<F: FramePayload>(s: Seq<(KeyView, F)>, x: (KeyView, F))
    ensures
        total_bytes(s.push(x)) == total_bytes(s) + x.1.payload_bytes(),
    decreases s.len(),
{
    let t = s.push(x);
    if s.len() == 0 {
        assert(t.subrange(1, t.len() as int) =~= Seq::<(KeyView, F)>::empty());
        assert(total_bytes(t.subrange(1, t.len() as int)) == 0);
    } else {
        assert(t.subrange(1, t.len() as int) =~= s.subrange(1, s.len() as int).push(x));
        lemma_total_push(s.subrange(1, s.len() as int), x);
    }
}

proof fn lemma_total_remove<F: FramePayload>(s: Seq<(KeyView, F)>, i: int)
    requires
        0 <= i < s.len(),
    ensures
        total_bytes(s.remove(i)) + s[i].1.payload_bytes() == total_bytes(s),
    decreases i,
{
    if i == 0 {
        assert(s.remove(0) =~= s.subrange(1, s.len() as int));
    } else {
        let r = s.remove(i);
        let tail = s.subrange(1, s.len() as int);
        assert(r.subrange(1, r.len() as int) =~= tail.remove(i - 1));
        lemma_total_remove(tail, i - 1);
    }
}

proof fn lemma_first_match<F>(s: Seq<(KeyView, F)>, k: KeyView, i: int)
    requires
        0 <= i < s.len(),
        s[i].0 == k,
        forall|j: int| 0 <= j < i ==> s[j].0 != k,
    ensures
        remove_key(s, k) == s.remove(i),
        lookup(s, k) == Some(s[i].1),
    decreases i,
{
    if i == 0 {
        assert(s.remove(0) =~= s.subrange(1, s.len() as int));
    } else {
        let tail = s.subrange(1, s.len() as int);
        lemma_first_match(tail, k, i - 1);
        assert(seq![s[0]] + tail.remove(i - 1) =~= s.remove(i));
    }
}

proof fn lemma_no_match<F>(s: Seq<(KeyView, F)>, k: KeyView)
    requires
        forall|j: int| 0 <= j < s.len() ==> s[j].0 != k,
    ensures
        remove_key(s, k) == s,
        lookup(s, k) == None::<F>,
    decreases s.len(),
{
    if s.len() > 0 {
        let tail = s.subrange(1, s.len() as int);
        lemma_no_match(tail, k);
        assert(seq![s[0]] + tail =~= s);
    }
}

proof fn lemma_evict_suffix<F: FramePayload>(s: Seq<(KeyView, F)>, incoming: nat, capacity: nat)
    ensures
        evict_for(s, incoming, capacity).len() <= s.len(),
        evict_for(s, incoming, capacity) == s.subrange(
            s.len() - evict_for(s, incoming, capacity).len(),
            s.len() as int,
        ),
        evict_for(s, incoming, capacity).len() == 0 || total_bytes(evict_for(s, incoming, capacity))
            + incoming <= capacity,
    decreases s.len(),
{
    if s.len() == 0 || total_bytes(s) + incoming <= capacity {
        assert(s.subrange(0, s.len() as int) =~= s);
    } else {
        let tail = s.subrange(1, s.len() as int);
        lemma_evict_suffix(tail, incoming, capacity);
        let e = evict_for(tail, incoming, capacity);
        assert(tail.subrange(tail.len() - e.len(), tail.len() as int) =~= s.subrange(
            s.len() - e.len(),
            s.len() as int,
        ));
    }
}

/// A sequence with unique keys keeps them unique in any slice.
proof fn lemma_unique_subrange<F>(s: Seq<(KeyView, F)>, a: int, b: int)
    requires
        keys_unique(s),
        0 <= a <= b <= s.len(),
    ensures
        keys_unique(s.subrange(a, b)),
        forall|k: KeyView| has_key(s.subrange(a, b), k) ==> has_key(s, k),
{
    let t = s.subrange(a, b);
    assert forall|i: int, j: int| 0 <= i < t.len() && 0 <= j < t.len() && i != j implies t[i].0
        != t[j].0 by {
        assert(t[i] == s[i + a] && t[j] == s[j + a]);
    }
    assert forall|k: KeyView| has_key(t, k) implies has_key(s, k) by {
        let i = choose|i: int| 0 <= i < t.len() && t[i].0 == k;
        assert(s[i + a].0 == k);
    }
}

/// Removing the entry for a key from a sequence with unique keys leaves
/// unique keys and no entry for that key.
proof fn lemma_unique_remove<F>(s: Seq<(KeyView, F)>, i: int)
    requires
        keys_unique(s),
        0 <= i < s.len(),
    ensures
        keys_unique(s.remove(i)),
        !has_key(s.remove(i), s[i].0),
        forall|k: KeyView| has_key(s.remove(i), k) ==> has_key(s, k),
{
    let t = s.remove(i);
    assert forall|a: int, b: int| 0 <= a < t.len() && 0 <= b < t.len() && a != b implies t[a].0
        != t[b].0 by {
        let sa = if a < i { a } else { a + 1 };
        let sb = if b < i { b } else { b + 1 };
        assert(t[a] == s[sa] && t[b] == s[sb]);
    }
    assert forall|k: KeyView| has_key(t, k) implies has_key(s, k) by {
        let a = choose|a: int| 0 <= a < t.len() && t[a].0 == k;
        let sa = if a < i { a } else { a + 1 };
        assert(t[a] == s[sa]);
    }
    if has_key(t, s[i].0) {
        let a = choose|a: int| 0 <= a < t.len() && t[a].0 == s[i].0;
        let sa = if a < i { a } else { a + 1 };
        assert(t[a] == s[sa]);
    }
}

/// Appending an entry whose key is absent keeps keys unique.
proof fn lemma_unique_push<F>(s: Seq<(KeyView, F)>, x: (KeyView, F))
    requires
        keys_unique(s),
        !has_key(s, x.0),
    ensures
        keys_unique(s.push(x)),
{
    let t = s.push(x);
    assert forall|a: int, b: int| 0 <= a < t.len() && 0 <= b < t.len() && a != b implies t[a].0
        != t[b].0 by {
        if a == s.len() {
            assert(t[b] == s[b]);
        } else if b == s.len() {
            assert(t[a] == s[a]);
        } else {
            assert(t[a] == s[a] && t[b] == s[b]);
        }
    }
}

} // verus!
