use vstd::prelude::*;

verus! {

/// One counter of the local cache: its key and its accumulated value.
pub struct StatValue {
    pub name: String,
    pub value: u64,
}

/// What the local cache holds, as mathematical values.
pub struct CacheView {
    /// Whether the startup snapshot has arrived with success.
    pub ready: bool,
    /// Keys of the flags known to be unlocked.
    pub unlocked: Set<Seq<char>>,
    /// Value of each counter loaded so far.
    pub stats: Map<Seq<char>, u64>,
}

/// The keys held by a list of flag keys.
pub open spec fn key_set(s: Seq<String>) -> Set<Seq<char>> {
    Set::new(|k: Seq<char>| exists|i: int| 0 <= i < s.len() && s[i]@ == k)
}

/// The counters held by a list of entries; a later entry overrides an earlier
/// one with the same key.
pub open spec fn stats_map(s: Seq<StatValue>) -> Map<Seq<char>, u64>
    decreases s.len(),
{
    if s.len() == 0 {
        Map::empty()
    } else {
        stats_map(s.drop_last()).insert(s.last().name@, s.last().value)
    }
}

pub open spec fn unique_names(s: Seq<StatValue>) -> bool {
    forall|i: int, j: int| 0 <= i < j < s.len() ==> s[i].name@ != s[j].name@
}

pub open spec fn unique_keys(s: Seq<String>) -> bool {
    forall|i: int, j: int| 0 <= i < j < s.len() ==> s[i]@ != s[j]@
}

/// An entry with key `k` stands at index `i` of a list with unique keys: the
/// map holds its value under `k`.
pub proof fn lemma_stats_map_at(s: Seq<StatValue>, i: int)
    requires
        unique_names(s),
        0 <= i < s.len(),
    ensures
        stats_map(s).contains_key(s[i].name@),
        stats_map(s)[s[i].name@] == s[i].value,
    decreases s.len(),
{
    if i < s.len() - 1 {
        lemma_stats_map_at(s.drop_last(), i);
    }
}

/// No entry has key `k`: the map has no value under `k`.
pub proof fn lemma_stats_map_absent(s: Seq<StatValue>, k: Seq<char>)
    requires
        forall|i: int| 0 <= i < s.len() ==> s[i].name@ != k,
    ensures
        !stats_map(s).contains_key(k),
    decreases s.len(),
{
    if s.len() > 0 {
        lemma_stats_map_absent(s.drop_last(), k);
    }
}

/// Replacing the entry at index `i` by one with the same key sets that key.
pub proof fn lemma_stats_map_update(s: Seq<StatValue>, i: int, e: StatValue)
    requires
        unique_names(s),
        0 <= i < s.len(),
        e.name@ == s[i].name@,
    ensures
        stats_map(s.update(i, e)) == stats_map(s).insert(e.name@, e.value),
    decreases s.len(),
{
    let t = s.update(i, e);
    if i == s.len() - 1 {
        assert(t.drop_last() =~= s.drop_last());
        assert(stats_map(t) =~= stats_map(s).insert(e.name@, e.value));
    } else {
        assert(t.drop_last() =~= s.drop_last().update(i, e));
        lemma_stats_map_update(s.drop_last(), i, e);
        assert(s.last().name@ != e.name@);
        assert(stats_map(t) =~= stats_map(s).insert(e.name@, e.value));
    }
}

/// Local mirror of the remote progress state: unlocked flags, counter values
/// and whether the startup snapshot has been received.
pub struct SteamIntegrationState {
    user_stats_ready: bool,
    /// Keys of all flags that have been unlocked already, each once.
    unlocked: Vec<String>,
    /// Value of each loaded counter, one entry per key.
    stats: Vec<StatValue>,
}

impl View for SteamIntegrationState {
    type V = CacheView;

    closed spec fn view(&self) -> CacheView {
        CacheView {
            ready: self.user_stats_ready,
            unlocked: key_set(self.unlocked@),
            stats: stats_map(self.stats@),
        }
    }
}

impl SteamIntegrationState {
    /// Each flag and each counter appears once.
    pub closed spec fn wf(&self) -> bool {
        unique_keys(self.unlocked@) && unique_names(self.stats@)
    }

    /// An empty cache that is not ready.
    pub fn new() -> (r: Self)
        ensures
            r.wf(),
            !r@.ready,
            r@.unlocked == Set::<Seq<char>>::empty(),
            r@.stats == Map::<Seq<char>, u64>::empty(),
    {
        let r = SteamIntegrationState { user_stats_ready: false, unlocked: Vec::new(), stats: Vec::new() };
        assert(key_set(r.unlocked@) =~= Set::<Seq<char>>::empty());
        r
    }

    /// Whether the startup snapshot has been received with success.
    pub fn is_ready(&self) -> (r: bool)
        ensures
            r == self@.ready,
    {
        self.user_stats_ready
    }

    /// Returns true if the flag is already unlocked; false for unknown keys.
    pub fn already_unlocked(&self, achievement: &str) -> (r: bool)
        requires
            self.wf(),
        ensures
            r == self@.unlocked.contains(achievement@),
    {
        let key = achievement.to_owned();
        let mut i: usize = 0;
        while i < self.unlocked.len()
            invariant
                key@ == achievement@,
                i <= self.unlocked@.len(),
                forall|j: int| 0 <= j < i ==> self.unlocked@[j]@ != key@,
            decreases self.unlocked@.len() - i,
        {
            if self.unlocked[i] == key {
                assert(key_set(self.unlocked@).contains(key@));
                return true;
            }
            i = i + 1;
        }
        false
    }

    /// The cached value of a counter, or `None` while it is not loaded.
    pub fn counter_value(&self, name: &str) -> (r: Option<u64>)
        requires
            self.wf(),
        ensures
            r == (if self@.stats.contains_key(name@) {
                Some(self@.stats[name@])
            } else {
                None::<u64>
            }),
    {
        match self.stat_index(name) {
            Some(i) => Some(self.stats[i].value),
            None => None,
        }
    }

    /// Index of the entry of a counter, if it is loaded.
    fn stat_index(&self, name: &str) -> (r: Option<usize>)
        requires
            self.wf(),
        ensures
            self@.stats.contains_key(name@) <==> r.is_some(),
            r matches Some(i) ==> i < self.stats@.len() && self.stats@[i as int].name@ == name@
                && self@.stats[name@] == self.stats@[i as int].value,
    {
        let key = name.to_owned();
        let mut i: usize = 0;
        while i < self.stats.len()
            invariant
                self.wf(),
                key@ == name@,
                i <= self.stats@.len(),
                forall|j: int| 0 <= j < i ==> self.stats@[j].name@ != key@,
            decreases self.stats@.len() - i,
        {
            if self.stats[i].name == key {
                proof {
                    lemma_stats_map_at(self.stats@, i as int);
                }
                return Some(i);
            }
            i = i + 1;
        }
        proof {
            lemma_stats_map_absent(self.stats@, key@);
        }
        None
    }

    /// Adds a flag to the unlocked set; a flag already there stays once.
    pub fn mark_unlocked(&mut self, achievement: &str)
        requires
            old(self).wf(),
        ensures
            final(self).wf(),
            final(self)@ == (CacheView { unlocked: old(self)@.unlocked.insert(achievement@), ..old(self)@ }),
    {
        if !self.already_unlocked(achievement) {
            let key = achievement.to_owned();
            let ghost before = self.unlocked@;
            self.unlocked.push(key);
            proof {
                assert forall|i: int| 0 <= i < before.len() implies before[i]@ != achievement@ by {
                    if before[i]@ == achievement@ {
                        assert(key_set(before).contains(achievement@));
                    }
                }
                assert(key_set(self.unlocked@) =~= key_set(before).insert(achievement@)) by {
                    assert(self.unlocked@[before.len() as int]@ == achievement@);
                    assert forall|k: Seq<char>| key_set(before).contains(k) implies key_set(self.unlocked@).contains(k) by {
                        let j = choose|j: int| 0 <= j < before.len() && before[j]@ == k;
                        assert(self.unlocked@[j] == before[j]);
                    }
                    assert forall|k: Seq<char>| key_set(self.unlocked@).contains(k) implies
                        key_set(before).insert(achievement@).contains(k) by {
                        let j = choose|j: int| 0 <= j < self.unlocked@.len() && self.unlocked@[j]@ == k;
                        if j < before.len() {
                            assert(self.unlocked@[j] == before[j]);
                        }
                    }
                }
            }
        } else {
            assert(self@.unlocked.insert(achievement@) =~= self@.unlocked);
        }
    }

    /// Sets the cached value of a counter, loading it if it was absent.
    pub fn set_counter(&mut self, name: &str, value: u64)
        requires
            old(self).wf(),
        ensures
            final(self).wf(),
            final(self)@ == (CacheView { stats: old(self)@.stats.insert(name@, value), ..old(self)@ }),
    {
        let entry = StatValue { name: name.to_owned(), value };
        match self.stat_index(name) {
            Some(i) => {
                proof {
                    lemma_stats_map_update(self.stats@, i as int, entry);
                }
                self.stats.set(i, entry);
            },
            None => {
                let ghost before = self.stats@;
                self.stats.push(entry);
                proof {
                    assert(self.stats@.drop_last() =~= before);
                    assert forall|j: int| 0 <= j < before.len() implies before[j].name@ != name@ by {
                        if before[j].name@ == name@ {
                            lemma_stats_map_at(before, j);
                        }
                    }
                }
            },
        }
    }

    /// Records the readiness reported by the startup snapshot.
    pub fn set_ready(&mut self, ready: bool)
        requires
            old(self).wf(),
        ensures
            final(self).wf(),
            final(self)@ == (CacheView { ready, ..old(self)@ }),
    {
        self.user_stats_ready = ready;
    }
}

impl Default for SteamIntegrationState {
    fn default() -> (r: Self)
        ensures
            r.wf(),
            !r@.ready,
            r@.unlocked == Set::<Seq<char>>::empty(),
            r@.stats == Map::<Seq<char>, u64>::empty(),
    {
        Self::new()
    }
}

} // verus!
