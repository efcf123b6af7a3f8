use vstd::prelude::*;

verus! {

/// Seconds after which a cached value is treated as absent.
pub const CACHE_TTL_SECS: u64 = 60;

/// One cached value with the time, in seconds, at which it was stored.
pub struct CacheEntry<V> {
    pub key: String,
    pub value: V,
    pub inserted_at: u64,
}

/// What a caller is to do for a key.
#[derive(PartialEq, Eq, Structural, Clone, Copy, Debug)]
pub enum Flight {
    /// A live value is cached: use it.
    Cached,
    /// Nobody computes the value: the caller computes it and completes.
    Compute,
    /// Another caller computes the value: wait for it to complete.
    Wait,
}

/// The abstract state of a cache: the stored values with their times, and
/// the keys whose computation is in flight.
pub struct CacheState<V> {
    pub entries: Map<Seq<char>, (V, u64)>,
    pub pending: Set<Seq<char>>,
}

/// Whether a value stored at `at` is still live at `now`.
pub open spec fn is_live(at: u64, now: u64) -> bool {
    at <= now && now - at < CACHE_TTL_SECS
}

/// The live value of `k` at `now`, if any.
pub open spec fn live_value<V>(entries: Map<Seq<char>, (V, u64)>, k: Seq<char>, now: u64) -> Option<V> {
    if entries.contains_key(k) && is_live(entries[k].1, now) {
        Some(entries[k].0)
    } else {
        None
    }
}

/// What a caller asking for `k` at `now` is told to do.
pub open spec fn flight_of<V>(s: CacheState<V>, k: Seq<char>, now: u64) -> Flight {
    if live_value(s.entries, k, now) is Some {
        Flight::Cached
    } else if s.pending.contains(k) {
        Flight::Wait
    } else {
        Flight::Compute
    }
}

/// The state after a caller was told what to do.
pub open spec fn after_begin<V>(s: CacheState<V>, k: Seq<char>, now: u64) -> CacheState<V> {
    if flight_of(s, k, now) == Flight::Compute {
        CacheState { entries: s.entries, pending: s.pending.insert(k) }
    } else {
        s
    }
}

/// The state after the computation of `k` ended at `now`: a success is
/// stored, a failure is forgotten.
pub open spec fn after_complete<V>(s: CacheState<V>, k: Seq<char>, outcome: Option<V>, now: u64) -> CacheState<V> {
    CacheState {
        entries: match outcome {
            Some(v) => s.entries.insert(k, (v, now)),
            None => s.entries,
        },
        pending: s.pending.remove(k),
    }
}

/// Whether some string of `s` is `x`.
pub open spec fn occurs(s: Seq<String>, x: Seq<char>) -> bool {
    exists|j: int| 0 <= j < s.len() && s[j]@ == x
}

/// The map of a sequence of entries; a later entry of a key wins.
pub open spec fn entries_map<V>(s: Seq<CacheEntry<V>>) -> Map<Seq<char>, (V, u64)>
    decreases s.len(),
{
    if s.len() == 0 {
        Map::empty()
    } else {
        entries_map(s.drop_last()).insert(s.last().key@, (s.last().value, s.last().inserted_at))
    }
}

proof fn lemma_entries_map_absent<V>(s: Seq<CacheEntry<V>>, k: Seq<char>)
    requires
        forall|j: int| 0 <= j < s.len() ==> s[j].key@ != k,
    ensures
        !entries_map(s).contains_key(k),
    decreases s.len(),
{
    if s.len() > 0 {
        lemma_entries_map_absent(s.drop_last(), k);
    }
}

proof fn lemma_entries_map_last<V>(s: Seq<CacheEntry<V>>, k: Seq<char>, i: int)
    requires
        0 <= i < s.len(),
        s[i].key@ == k,
        forall|j: int| i < j < s.len() ==> s[j].key@ != k,
    ensures
        entries_map(s).contains_key(k),
        entries_map(s)[k] == (s[i].value, s[i].inserted_at),
    decreases s.len(),
{
    if i < s.len() - 1 {
        lemma_entries_map_last(s.drop_last(), k, i);
    }
}

proof fn lemma_entries_map_update<V>(s: Seq<CacheEntry<V>>, i: int, e: CacheEntry<V>)
    requires
        0 <= i < s.len(),
        s[i].key@ == e.key@,
        forall|j: int| i < j < s.len() ==> s[j].key@ != e.key@,
    ensures
        entries_map(s.update(i, e)) == entries_map(s).insert(e.key@, (e.value, e.inserted_at)),
    decreases s.len(),
{
    let t = s.update(i, e);
    if i == s.len() - 1 {
        assert(t.drop_last() =~= s.drop_last());
        let m = entries_map(s.drop_last());
        assert(entries_map(t) =~= m.insert(e.key@, (e.value, e.inserted_at)));
        assert(entries_map(s) =~= m.insert(e.key@, (s[i].value, s[i].inserted_at)));
        assert(entries_map(t) =~= entries_map(s).insert(e.key@, (e.value, e.inserted_at)));
    } else {
        lemma_entries_map_update(s.drop_last(), i, e);
        assert(t.drop_last() =~= s.drop_last().update(i, e));
        assert(entries_map(t) =~= entries_map(s).insert(e.key@, (e.value, e.inserted_at)));
    }
}

/// A time-bound memo of successful results, keyed by strings, that lets one
/// caller at a time compute the value of a key while the others wait.
pub struct TtlCache<V> {
    entries: Vec<CacheEntry<V>>,
    in_flight: Vec<String>,
}

impl<V> TtlCache<V> {
    /// The abstract state of this cache.
    pub closed spec fn state(&self) -> CacheState<V> {
        CacheState {
            entries: entries_map(self.entries@),
            pending: Set::new(|k: Seq<char>| occurs(self.in_flight@, k)),
        }
    }

    /// An empty cache with nothing in flight.
    pub fn new() -> (r: Self)
        ensures
            r.state().entries == Map::<Seq<char>, (V, u64)>::empty(),
            r.state().pending == Set::<Seq<char>>::empty(),
    {
        let r = TtlCache { entries: Vec::new(), in_flight: Vec::new() };
        assert(r.state().pending =~= Set::<Seq<char>>::empty());
        r
    }

    /// The index of the last entry of `key`.
    fn find(&self, key: &String) -> (r: Option<usize>)
        ensures
            r matches Some(i) ==> i < self.entries@.len() && self.entries@[i as int].key@ == key@
                && forall|j: int| i < j < self.entries@.len() ==> self.entries@[j].key@ != key@,
            r is None ==> forall|j: int| 0 <= j < self.entries@.len() ==> self.entries@[j].key@ != key@,
    {
        let mut i: usize = self.entries.len();
        while i > 0
            invariant
                i <= self.entries@.len(),
                forall|j: int| i <= j < self.entries@.len() ==> self.entries@[j].key@ != key@,
            decreases i,
        {
            i = i - 1;
            if self.entries[i].key == *key {
                return Some(i);
            }
        }
        None
    }

    /// The live value of `key` at `now`, if any.
    pub fn get(&self, key: &String, now: u64) -> (r: Option<&V>)
        ensures
            live_value(self.state().entries, key@, now) matches Some(v) ==> r == Some(&v),
            live_value(self.state().entries, key@, now) is None ==> r is None,
    {
        match self.find(key) {
            Some(i) => {
                proof {
                    lemma_entries_map_last(self.entries@, key@, i as int);
                }
                let at = self.entries[i].inserted_at;
                if at <= now && now - at < CACHE_TTL_SECS {
                    Some(&self.entries[i].value)
                } else {
                    None
                }
            },
            None => {
                proof {
                    lemma_entries_map_absent(self.entries@, key@);
                }
                None
            },
        }
    }

    /// Whether the computation of `key` is in flight.
    fn is_pending(&self, key: &String) -> (r: bool)
        ensures
            r == self.state().pending.contains(key@),
    {
        let mut i: usize = 0;
        while i < self.in_flight.len()
            invariant
                i <= self.in_flight@.len(),
                forall|j: int| 0 <= j < i ==> self.in_flight@[j]@ != key@,
            decreases self.in_flight@.len() - i,
        {
            if self.in_flight[i] == *key {
                return true;
            }
            i = i + 1;
        }
        false
    }

    /// Tells a caller asking for `key` at `now` what to do: use the live
    /// cached value, compute it (the key is then in flight until the caller
    /// completes it), or wait for the caller that computes it.
    pub fn begin(&mut self, key: &String, now: u64) -> (r: Flight)
        ensures
            r == flight_of(old(self).state(), key@, now),
            final(self).state() == after_begin(old(self).state(), key@, now),
    {
        if self.get(key, now).is_some() {
            return Flight::Cached;
        }
        if self.is_pending(key) {
            return Flight::Wait;
        }
        let ghost before = self.state();
        self.in_flight.push(key.clone());
        proof {
            assert(self.entries@ == old(self).entries@);
            assert(self.state().pending =~= before.pending.insert(key@)) by {
                assert(self.in_flight@.last()@ == key@);
                assert(occurs(self.in_flight@, key@));
                assert forall|k: Seq<char>| before.pending.contains(k)
                    implies self.state().pending.contains(k) by {
                    let j = choose|j: int| 0 <= j < old(self).in_flight@.len() && old(self).in_flight@[j]@ == k;
                    assert(self.in_flight@[j] == old(self).in_flight@[j]);
                    assert(occurs(self.in_flight@, k));
                }
            }
        }
        Flight::Compute
    }

    /// Takes `key` out of flight.
    fn settle(&mut self, key: &String)
        ensures
            final(self).entries@ == old(self).entries@,
            final(self).state().pending == old(self).state().pending.remove(key@),
    {
        let mut kept: Vec<String> = Vec::new();
        let mut i: usize = 0;
        while i < self.in_flight.len()
            invariant
                i <= self.in_flight@.len(),
                forall|x: Seq<char>| #[trigger] occurs(kept@, x)
                    <==> (x != key@ && occurs(self.in_flight@.subrange(0, i as int), x)),
            decreases self.in_flight@.len() - i,
        {
            let ghost kept0 = kept@;
            let ghost pre = self.in_flight@.subrange(0, i as int);
            if self.in_flight[i] != *key {
                kept.push(self.in_flight[i].clone());
            }
            proof {
                let post = self.in_flight@.subrange(0, i + 1);
                assert forall|x: Seq<char>| #[trigger] occurs(kept@, x)
                    <==> (x != key@ && occurs(post, x)) by {
                    if occurs(kept@, x) {
                        let j = choose|j: int| 0 <= j < kept@.len() && kept@[j]@ == x;
                        if j < kept0.len() {
                            assert(occurs(kept0, x));
                            let j2 = choose|j2: int| 0 <= j2 < pre.len() && pre[j2]@ == x;
                            assert(post[j2] == pre[j2]);
                        } else {
                            assert(post[i as int]@ == x);
                        }
                    }
                    if x != key@ && occurs(post, x) {
                        let j = choose|j: int| 0 <= j < post.len() && post[j]@ == x;
                        if j < i {
                            assert(pre[j] == post[j]);
                            assert(occurs(pre, x));
                            assert(occurs(kept0, x));
                            let j2 = choose|j2: int| 0 <= j2 < kept0.len() && kept0[j2]@ == x;
                            assert(kept@[j2] == kept0[j2]);
                        } else {
                            assert(kept@[kept@.len() - 1]@ == x);
                        }
                    }
                }
            }
            i = i + 1;
        }
        proof {
            assert(self.in_flight@.subrange(0, self.in_flight@.len() as int) =~= self.in_flight@);
        }
        self.in_flight = kept;
        proof {
            assert(self.state().pending =~= old(self).state().pending.remove(key@));
        }
    }

    /// Ends the computation of `key` at `now`: a value is stored, replacing
    /// any earlier one, while a failure (`None`) is not remembered.
    pub fn complete(&mut self, key: String, outcome: Option<V>, now: u64)
        ensures
            final(self).state() == after_complete(old(self).state(), key@, outcome, now),
    {
        self.settle(&key);
        let ghost mid = self.state();
        match outcome {
            Some(value) => {
                let found = self.find(&key);
                let ghost k = key@;
                let e = CacheEntry { key, value, inserted_at: now };
                match found {
                    Some(i) => {
                        proof {
                            lemma_entries_map_update(self.entries@, i as int, e);
                        }
                        self.entries.set(i, e);
                    },
                    None => {
                        self.entries.push(e);
                        proof {
                            assert(self.entries@.drop_last() =~= old(self).entries@);
                        }
                    },
                }
                proof {
                    assert(self.state().pending =~= mid.pending);
                    assert(self.state().entries =~= old(self).state().entries.insert(k, (e.value, now)));
                }
            },
            None => {},
        }
    }
}

/// A value stored at `t` is served from the cache to every caller that asks
/// for its key less than the time to live later, and nobody computes it again.
pub proof fn lemma_stored_value_is_served<V>(s: CacheState<V>, k: Seq<char>, v: V, t: u64, now: u64)
    requires
        t <= now < t + CACHE_TTL_SECS,
    ensures
        live_value(after_complete(s, k, Some(v), t).entries, k, now) == Some(v),
        flight_of(after_complete(s, k, Some(v), t), k, now) == Flight::Cached,
        after_begin(after_complete(s, k, Some(v), t), k, now) == after_complete(s, k, Some(v), t),
{
}

/// Once the time to live has passed, a stored value is computed again.
pub proof fn lemma_expired_value_is_recomputed<V>(s: CacheState<V>, k: Seq<char>, v: V, t: u64, now: u64)
    requires
        now >= t + CACHE_TTL_SECS,
    ensures
        live_value(after_complete(s, k, Some(v), t).entries, k, now) is None,
        flight_of(after_complete(s, k, Some(v), t), k, now) == Flight::Compute,
{
}

/// A failure is never cached: when a computation fails, the entries are
/// as before, and the next caller of the key computes it again.
pub proof fn lemma_failure_is_not_cached<V>(s: CacheState<V>, k: Seq<char>, t: u64, now: u64)
    requires
        live_value(s.entries, k, now) is None,
    ensures
        after_complete(s, k, None, t).entries == s.entries,
        flight_of(after_complete(s, k, None, t), k, now) == Flight::Compute,
{
}

/// Two failing calls in a row both compute: a caller that computes and
/// fails leaves the key to be computed by the next caller.
pub proof fn lemma_failing_calls_both_compute<V>(s: CacheState<V>, k: Seq<char>, t1: u64, t2: u64, t3: u64)
    requires
        live_value(s.entries, k, t1) is None,
        live_value(s.entries, k, t3) is None,
        !s.pending.contains(k),
    ensures
        flight_of(s, k, t1) == Flight::Compute,
        flight_of(after_complete(after_begin(s, k, t1), k, None, t2), k, t3) == Flight::Compute,
{
    assert(after_begin(s, k, t1).pending.remove(k) =~= s.pending.remove(k));
}

/// Single flight: while one caller computes a key, no other caller asking
/// for it, at any time, is told to compute it too.
pub proof fn lemma_single_flight<V>(s: CacheState<V>, k: Seq<char>, now: u64, later: u64)
    requires
        flight_of(s, k, now) == Flight::Compute,
    ensures
        flight_of(after_begin(s, k, now), k, later) != Flight::Compute,
        after_begin(after_begin(s, k, now), k, later) == after_begin(s, k, now),
{
}

} // verus!
