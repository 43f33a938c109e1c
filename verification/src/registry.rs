//! Registry of scalar substitutions for pattern-matched formulas.
//!
//! The registry maps pattern keys to values (the bit patterns of doubles), can be
//! deactivated without losing data, and keeps lookup and mutation statistics.

use vstd::prelude::*;

use crate::pattern_key::{PatternKey, PatternModel};

verus! {

/// Statistics and metrics for the [`SubstitutionRegistry`].
#[derive(Clone, Copy, Debug, PartialEq, Eq, Structural)]
pub struct RegistryStats {
    /// Total number of successful lookups
    pub successful_lookups: u64,
    /// Total number of failed lookups (key not found)
    pub failed_lookups: u64,
    /// Total number of lookups attempted while inactive
    pub inactive_lookups: u64,
    /// Number of substitutions added
    pub additions: u64,
    /// Number of substitutions removed
    pub removals: u64,
}

/// Statistics with every counter at zero.
pub open spec fn zero_stats() -> RegistryStats {
    RegistryStats {
        successful_lookups: 0,
        failed_lookups: 0,
        inactive_lookups: 0,
        additions: 0,
        removals: 0,
    }
}

impl Default for RegistryStats {
    fn default() -> (s: RegistryStats)
        ensures
            s == zero_stats(),
    {
        RegistryStats {
            successful_lookups: 0,
            failed_lookups: 0,
            inactive_lookups: 0,
            additions: 0,
            removals: 0,
        }
    }
}

/// Every lookup attempt: successful, failed and while inactive.
pub open spec fn lookups_total(s: RegistryStats) -> int {
    s.successful_lookups + s.failed_lookups + s.inactive_lookups
}

/// Additions minus removals, each counter read as an `i64`.
pub open spec fn net_total(s: RegistryStats) -> int {
    wrap_i64(s.additions) - wrap_i64(s.removals)
}

/// `x` read as an `i64` the way `as i64` reads a `u64` (two's complement wrap).
pub open spec fn wrap_i64(x: u64) -> int {
    if x <= i64::MAX {
        x as int
    } else {
        x - 0x1_0000_0000_0000_0000int
    }
}

/// `as i64` on a `u64` is [`wrap_i64`].
proof fn lemma_wrap_i64(x: u64)
    ensures
        (x as i64) as int == wrap_i64(x),
{
    if x <= i64::MAX {
        assert((x as i64) as int == x as int) by (bit_vector)
            requires
                x <= 0x7fff_ffff_ffff_ffffu64,
        ;
    } else {
        assert((x as i64) as int == x as int - 0x1_0000_0000_0000_0000int) by (bit_vector)
            requires
                x > 0x7fff_ffff_ffff_ffffu64,
        ;
    }
}

impl RegistryStats {
    /// The total number of lookup attempts.
    pub fn total_lookups(&self) -> (r: u64)
        requires
            lookups_total(*self) <= u64::MAX,
        ensures
            r == lookups_total(*self),
    {
        self.successful_lookups + self.failed_lookups + self.inactive_lookups
    }

    /// The net change in registry size (additions - removals), each counter read as an `i64`.
    pub fn net_changes(&self) -> (r: i64)
        requires
            i64::MIN <= net_total(*self) <= i64::MAX,
        ensures
            r == net_total(*self),
    {
        let a: i64 = self.additions as i64;
        let b: i64 = self.removals as i64;
        proof {
            lemma_wrap_i64(self.additions);
            lemma_wrap_i64(self.removals);
        }
        a - b
    }
}

/// What a map holds for `k`, if anything.
pub open spec fn value_at(m: Map<PatternModel, u64>, k: PatternModel) -> Option<u64> {
    if m.contains_key(k) {
        Some(m[k])
    } else {
        None
    }
}

/// What a lookup of `k` answers: nothing while inactive, else what the map holds.
pub open spec fn lookup_answer(active: bool, m: Map<PatternModel, u64>, k: PatternModel) -> Option<
    u64,
> {
    if active {
        value_at(m, k)
    } else {
        None
    }
}

/// The statistics after one lookup: an inactive, a successful or a failed one.
pub open spec fn after_lookup(s: RegistryStats, active: bool, found: bool) -> RegistryStats {
    if !active {
        RegistryStats { inactive_lookups: (s.inactive_lookups + 1) as u64, ..s }
    } else if found {
        RegistryStats { successful_lookups: (s.successful_lookups + 1) as u64, ..s }
    } else {
        RegistryStats { failed_lookups: (s.failed_lookups + 1) as u64, ..s }
    }
}

/// Abstract entry: a pattern and the bit pattern of its value.
pub type EntryModel = (PatternModel, u64);

/// Whether some entry has key `k`.
pub open spec fn has_key(e: Seq<EntryModel>, k: PatternModel) -> bool {
    exists|i: int| 0 <= i < e.len() && (#[trigger] e[i]).0 == k
}

/// Index of an entry with key `k` (meaningful when one exists).
pub open spec fn key_index(e: Seq<EntryModel>, k: PatternModel) -> int {
    choose|i: int| 0 <= i < e.len() && (#[trigger] e[i]).0 == k
}

/// No two entries share a key.
pub open spec fn keys_unique(e: Seq<EntryModel>) -> bool {
    forall|i: int, j: int| 0 <= i < j < e.len() ==> (#[trigger] e[i]).0 != (#[trigger] e[j]).0
}

/// The map that a list of entries with unique keys stands for.
pub open spec fn entries_map(e: Seq<EntryModel>) -> Map<PatternModel, u64> {
    Map::new(|k: PatternModel| has_key(e, k), |k: PatternModel| e[key_index(e, k)].1)
}

/// With unique keys, the entry with key `e[i].0` is entry `i`.
pub proof fn lemma_key_index(e: Seq<EntryModel>, i: int)
    requires
        keys_unique(e),
        0 <= i < e.len(),
    ensures
        has_key(e, e[i].0),
        key_index(e, e[i].0) == i,
        entries_map(e).contains_key(e[i].0),
        entries_map(e)[e[i].0] == e[i].1,
{
    assert(has_key(e, e[i].0));
    let j = key_index(e, e[i].0);
    if j < i {
        assert(e[j].0 != e[i].0);
    } else if j > i {
        assert(e[i].0 != e[j].0);
    }
}

/// Replacing the value of entry `i` updates the map at its key.
pub proof fn lemma_update_value(e: Seq<EntryModel>, i: int, v: u64)
    requires
        keys_unique(e),
        0 <= i < e.len(),
    ensures
        keys_unique(e.update(i, (e[i].0, v))),
        entries_map(e.update(i, (e[i].0, v))) == entries_map(e).insert(e[i].0, v),
{
    let e2 = e.update(i, (e[i].0, v));
    let k = e[i].0;
    assert(keys_unique(e2)) by {
        assert forall|a: int, b: int| 0 <= a < b < e2.len() implies (#[trigger] e2[a]).0 != (
        #[trigger] e2[b]).0 by {
            assert(e2[a].0 == e[a].0);
            assert(e2[b].0 == e[b].0);
        }
    }
    lemma_key_index(e2, i);
    assert forall|q: PatternModel| #[trigger] entries_map(e2).contains_key(q) <==> entries_map(
        e,
    ).insert(k, v).contains_key(q) by {
        if has_key(e2, q) {
            let j = key_index(e2, q);
            assert(e[j].0 == q);
        }
        if has_key(e, q) {
            let j = key_index(e, q);
            assert(e2[j].0 == q);
        }
    }
    assert forall|q: PatternModel| #[trigger] entries_map(e2).contains_key(q) implies entries_map(
        e2,
    )[q] == entries_map(e).insert(k, v)[q] by {
        if q != k {
            let j = key_index(e2, q);
            assert(e[j].0 == q);
            lemma_key_index(e, j);
            lemma_key_index(e2, j);
        }
    }
    assert(entries_map(e2) =~= entries_map(e).insert(k, v));
}

/// Appending an entry with a new key inserts it into the map.
pub proof fn lemma_push_entry(e: Seq<EntryModel>, k: PatternModel, v: u64)
    requires
        keys_unique(e),
        !has_key(e, k),
    ensures
        keys_unique(e.push((k, v))),
        entries_map(e.push((k, v))) == entries_map(e).insert(k, v),
{
    let e2 = e.push((k, v));
    assert(keys_unique(e2)) by {
        assert forall|a: int, b: int| 0 <= a < b < e2.len() implies (#[trigger] e2[a]).0 != (
        #[trigger] e2[b]).0 by {
            if b == e.len() {
                assert(e[a].0 != k);
            } else {
                assert(e2[a] == e[a]);
                assert(e2[b] == e[b]);
            }
        }
    }
    lemma_key_index(e2, e.len() as int);
    assert forall|q: PatternModel| #[trigger] entries_map(e2).contains_key(q) <==> entries_map(
        e,
    ).insert(k, v).contains_key(q) by {
        if has_key(e2, q) {
            let j = key_index(e2, q);
            if j < e.len() {
                assert(e[j].0 == q);
            }
        }
        if has_key(e, q) {
            let j = key_index(e, q);
            assert(e2[j].0 == q);
        }
    }
    assert forall|q: PatternModel| #[trigger] entries_map(e2).contains_key(q) implies entries_map(
        e2,
    )[q] == entries_map(e).insert(k, v)[q] by {
        if q != k {
            let j = key_index(e2, q);
            assert(j < e.len());
            assert(e[j].0 == q);
            lemma_key_index(e, j);
            lemma_key_index(e2, j);
        }
    }
    assert(entries_map(e2) =~= entries_map(e).insert(k, v));
}

/// Removing entry `i` removes its key from the map.
pub proof fn lemma_remove_entry(e: Seq<EntryModel>, i: int)
    requires
        keys_unique(e),
        0 <= i < e.len(),
    ensures
        keys_unique(e.remove(i)),
        entries_map(e.remove(i)) == entries_map(e).remove(e[i].0),
{
    let e2 = e.remove(i);
    let k = e[i].0;
    assert(keys_unique(e2)) by {
        assert forall|a: int, b: int| 0 <= a < b < e2.len() implies (#[trigger] e2[a]).0 != (
        #[trigger] e2[b]).0 by {
            let a1 = if a < i { a } else { a + 1 };
            let b1 = if b < i { b } else { b + 1 };
            assert(e2[a] == e[a1]);
            assert(e2[b] == e[b1]);
        }
    }
    assert forall|q: PatternModel| #[trigger] entries_map(e2).contains_key(q) <==> entries_map(
        e,
    ).remove(k).contains_key(q) by {
        if has_key(e2, q) {
            let j = key_index(e2, q);
            let j1 = if j < i { j } else { j + 1 };
            assert(e[j1].0 == q);
            assert(q != k) by {
                if q == k {
                    assert(e[j1].0 == e[i].0);
                }
            }
        }
        if has_key(e, q) && q != k {
            let j = key_index(e, q);
            assert(j != i);
            let j2 = if j < i { j } else { j - 1 };
            assert(e2[j2].0 == q);
        }
    }
    assert forall|q: PatternModel| #[trigger] entries_map(e2).contains_key(q) implies entries_map(
        e2,
    )[q] == entries_map(e).remove(k)[q] by {
        let j = key_index(e2, q);
        let j1 = if j < i { j } else { j + 1 };
        assert(e2[j] == e[j1]);
        lemma_key_index(e2, j);
        lemma_key_index(e, j1);
    }
    assert(entries_map(e2) =~= entries_map(e).remove(k));
}

/// With unique keys, the map has one key per entry.
pub proof fn lemma_map_len(e: Seq<EntryModel>)
    requires
        keys_unique(e),
    ensures
        entries_map(e).dom().finite(),
        entries_map(e).len() == e.len(),
{
    let keys = e.map_values(|x: EntryModel| x.0);
    assert(keys.no_duplicates()) by {
        assert forall|a: int, b: int| 0 <= a < keys.len() && 0 <= b < keys.len() && a != b
            implies keys[a] != keys[b] by {
            if a < b {
                assert(e[a].0 != e[b].0);
            } else {
                assert(e[b].0 != e[a].0);
            }
        }
    }
    keys.unique_seq_to_set();
    assert forall|q: PatternModel| #[trigger] entries_map(e).dom().contains(q) <==> keys.to_set().contains(q) by {
        if has_key(e, q) {
            let j = key_index(e, q);
            assert(keys[j] == q);
        }
        if keys.contains(q) {
            let j = choose|j: int| 0 <= j < keys.len() && keys[j] == q;
            assert(e[j].0 == q);
        }
    }
    assert(entries_map(e).dom() =~= keys.to_set());
}

/// Registry for managing scalar substitutions for pattern-matched formulas.
pub struct SubstitutionRegistry {
    /// The pattern-to-value entries, no two with equal patterns
    pub(crate) substitutions: Vec<(PatternKey, u64)>,
    /// Whether the registry is currently active for lookups
    pub(crate) active: bool,
    /// Statistics about registry usage
    pub(crate) stats: RegistryStats,
}

/// Abstract value of a stored entry.
pub open spec fn entry_view(e: (PatternKey, u64)) -> EntryModel {
    (e.0@, e.1)
}

impl SubstitutionRegistry {
    /// The entries in storage order (the order in which they are listed).
    pub closed spec fn entry_models(&self) -> Seq<EntryModel> {
        self.substitutions@.map_values(|e: (PatternKey, u64)| entry_view(e))
    }

    /// Well-formedness: no two entries share a pattern.
    pub closed spec fn wf(&self) -> bool {
        keys_unique(self.entry_models())
    }

    /// Whether lookups are answered.
    pub closed spec fn spec_active(&self) -> bool {
        self.active
    }

    /// Current statistics.
    pub closed spec fn spec_stats(&self) -> RegistryStats {
        self.stats
    }
}

impl View for SubstitutionRegistry {
    type V = Map<PatternModel, u64>;

    closed spec fn view(&self) -> Map<PatternModel, u64> {
        entries_map(self.entry_models())
    }
}

impl SubstitutionRegistry {
    /// The map is the one its listed entries stand for.
    pub proof fn lemma_view_is_entries(&self)
        ensures
            self@ == entries_map(self.entry_models()),
    {
    }

    /// The listed entries are the stored ones.
    pub(crate) proof fn lemma_entry_models(&self)
        ensures
            self.entry_models().len() == self.substitutions@.len(),
            forall|i: int|
                0 <= i < self.substitutions@.len() ==> #[trigger] self.entry_models()[i]
                    == entry_view(self.substitutions@[i]),
    {
    }

    /// Counts one addition.
    pub(crate) fn count_addition(&mut self)
        requires
            old(self).spec_stats().additions < u64::MAX,
        ensures
            final(self)@ == old(self)@,
            final(self).entry_models() == old(self).entry_models(),
            final(self).wf() == old(self).wf(),
            final(self).spec_active() == old(self).spec_active(),
            final(self).spec_stats() == (RegistryStats {
                additions: (old(self).spec_stats().additions + 1) as u64,
                ..old(self).spec_stats()
            }),
    {
        self.stats.additions = self.stats.additions + 1;
    }

    /// A well-formed registry holds a finite map with one key per listed entry.
    pub proof fn lemma_wf_len(&self)
        requires
            self.wf(),
        ensures
            self@.dom().finite(),
            self@.len() == self.entry_models().len(),
            keys_unique(self.entry_models()),
    {
        lemma_map_len(self.entry_models());
    }

    /// Creates a new, active, empty registry with zeroed statistics.
    pub fn new() -> (r: SubstitutionRegistry)
        ensures
            r.wf(),
            r@ == Map::<PatternModel, u64>::empty(),
            r.spec_active(),
            r.spec_stats() == zero_stats(),
            r.entry_models() == Seq::<EntryModel>::empty(),
    {
        let r = SubstitutionRegistry {
            substitutions: Vec::new(),
            active: true,
            stats: RegistryStats::default(),
        };
        proof {
            assert(r.entry_models() =~= Seq::<EntryModel>::empty());
            assert(r@ =~= Map::<PatternModel, u64>::empty());
        }
        r
    }

    /// Creates a new, active, empty registry with room for `capacity` entries.
    /// The room reserved is the storage's capacity, which no contract here speaks of:
    /// only the empty, active state with zeroed statistics is stated.
    pub fn with_capacity(capacity: usize) -> (r: SubstitutionRegistry)
        ensures
            r.wf(),
            r@ == Map::<PatternModel, u64>::empty(),
            r.spec_active(),
            r.spec_stats() == zero_stats(),
            r.entry_models() == Seq::<EntryModel>::empty(),
    {
        let r = SubstitutionRegistry {
            substitutions: Vec::with_capacity(capacity),
            active: true,
            stats: RegistryStats::default(),
        };
        proof {
            assert(r.entry_models() =~= Seq::<EntryModel>::empty());
            assert(r@ =~= Map::<PatternModel, u64>::empty());
        }
        r
    }

    /// Sets whether the registry is active for lookups; the data is kept either way.
    pub fn set_active(&mut self, active: bool)
        ensures
            final(self).spec_active() == active,
            final(self)@ == old(self)@,
            final(self).entry_models() == old(self).entry_models(),
            final(self).spec_stats() == old(self).spec_stats(),
            final(self).wf() == old(self).wf(),
    {
        self.active = active;
    }

    /// Whether the registry is currently active.
    pub fn is_active(&self) -> (r: bool)
        ensures
            r == self.spec_active(),
    {
        self.active
    }

    /// Index of the entry whose pattern equals `pattern`, if any.
    pub(crate) fn find(&self, pattern: &PatternKey) -> (r: Option<usize>)
        requires
            self.wf(),
        ensures
            match r {
                Some(i) => i < self.entry_models().len() && self.entry_models()[i as int].0
                    == pattern@ && self@.contains_key(pattern@) && self@[pattern@]
                    == self.entry_models()[i as int].1,
                None => !self@.contains_key(pattern@),
            },
    {
        let ghost em = self.entry_models();
        let mut i: usize = 0;
        while i < self.substitutions.len()
            invariant
                i <= self.substitutions.len(),
                em == self.entry_models(),
                em.len() == self.substitutions.len(),
                keys_unique(em),
                forall|j: int| 0 <= j < i ==> (#[trigger] em[j]).0 != pattern@,
            decreases self.substitutions.len() - i,
        {
            assert(em[i as int] == entry_view(self.substitutions@[i as int]));
            if self.substitutions[i].0.equals(pattern) {
                proof {
                    lemma_key_index(em, i as int);
                }
                return Some(i);
            }
            i = i + 1;
        }
        proof {
            if has_key(em, pattern@) {
                let j = key_index(em, pattern@);
                assert(em[j].0 == pattern@);
            }
        }
        None
    }

    /// The value registered for `pattern`, if any, regardless of the active flag and
    /// without touching the statistics.
    pub fn value_of(&self, pattern: &PatternKey) -> (r: Option<u64>)
        requires
            self.wf(),
        ensures
            r == value_at(self@, pattern@),
    {
        match self.find(pattern) {
            Some(i) => Some(self.substitutions[i].1),
            None => None,
        }
    }

    /// Adds a substitution (or replaces the value of an equal pattern) and counts an
    /// addition. Returns the previous value if the pattern was already present.
    pub fn add_substitution(&mut self, pattern: PatternKey, value: u64) -> (r: Option<u64>)
        requires
            old(self).wf(),
            old(self).spec_stats().additions < u64::MAX,
        ensures
            final(self).wf(),
            final(self)@ == old(self)@.insert(pattern@, value),
            r == value_at(old(self)@, pattern@),
            final(self).spec_active() == old(self).spec_active(),
            final(self).spec_stats() == (RegistryStats {
                additions: (old(self).spec_stats().additions + 1) as u64,
                ..old(self).spec_stats()
            }),
    {
        self.stats.additions = self.stats.additions + 1;
        self.insert_entry(pattern, value)
    }

    /// Inserts or replaces an entry, leaving the statistics alone.
    pub(crate) fn insert_entry(&mut self, pattern: PatternKey, value: u64) -> (r: Option<u64>)
        requires
            old(self).wf(),
        ensures
            final(self).wf(),
            final(self)@ == old(self)@.insert(pattern@, value),
            r == value_at(old(self)@, pattern@),
            final(self).spec_active() == old(self).spec_active(),
            final(self).spec_stats() == old(self).spec_stats(),
    {
        let ghost em = self.entry_models();
        match self.find(&pattern) {
            Some(i) => {
                let previous = self.substitutions[i].1;
                let ghost key = em[i as int].0;
                self.substitutions.set(i, (pattern, value));
                proof {
                    lemma_update_value(em, i as int, value);
                    assert(self.entry_models() =~= em.update(i as int, (key, value)));
                }
                Some(previous)
            },
            None => {
                let ghost pm = pattern@;
                self.substitutions.push((pattern, value));
                proof {
                    assert(!has_key(em, pm)) by {
                        if has_key(em, pm) {
                            assert(entries_map(em).contains_key(pm));
                        }
                    }
                    lemma_push_entry(em, pm, value);
                    assert(self.entry_models() =~= em.push((pm, value)));
                }
                None
            },
        }
    }

    /// Removes entry `i` (no statistics change) and returns its value.
    pub(crate) fn remove_at(&mut self, i: usize) -> (r: u64)
        requires
            old(self).wf(),
            i < old(self).entry_models().len(),
        ensures
            final(self).wf(),
            final(self)@ == old(self)@.remove(old(self).entry_models()[i as int].0),
            r == old(self).entry_models()[i as int].1,
            final(self).spec_active() == old(self).spec_active(),
            final(self).spec_stats() == old(self).spec_stats(),
    {
        let ghost em = self.entry_models();
        let entry = self.substitutions.remove(i);
        proof {
            lemma_remove_entry(em, i as int);
            assert(self.entry_models() =~= em.remove(i as int));
        }
        entry.1
    }

    /// Removes a substitution. Returns the removed value if the pattern was present (and
    /// then counts a removal), `None` otherwise.
    pub fn remove_substitution(&mut self, pattern: &PatternKey) -> (r: Option<u64>)
        requires
            old(self).wf(),
            old(self)@.contains_key(pattern@) ==> old(self).spec_stats().removals < u64::MAX,
        ensures
            final(self).wf(),
            final(self)@ == old(self)@.remove(pattern@),
            r == value_at(old(self)@, pattern@),
            final(self).spec_active() == old(self).spec_active(),
            final(self).spec_stats() == (if old(self)@.contains_key(pattern@) {
                RegistryStats {
                    removals: (old(self).spec_stats().removals + 1) as u64,
                    ..old(self).spec_stats()
                }
            } else {
                old(self).spec_stats()
            }),
    {
        match self.find(pattern) {
            Some(i) => {
                let value = self.remove_at(i);
                self.stats.removals = self.stats.removals + 1;
                Some(value)
            },
            None => {
                proof {
                    assert(self@.remove(pattern@) =~= self@);
                }
                None
            },
        }
    }

    /// Looks up the value for `pattern`. Returns `None` when the registry is inactive
    /// (counting an inactive lookup) or the pattern is absent (counting a failed lookup);
    /// otherwise the value (counting a successful lookup). The entries are unchanged.
    pub fn get_substitution(&mut self, pattern: &PatternKey) -> (r: Option<u64>)
        requires
            old(self).wf(),
            !old(self).spec_active() ==> old(self).spec_stats().inactive_lookups < u64::MAX,
            old(self).spec_active() && old(self)@.contains_key(pattern@) ==> old(
                self,
            ).spec_stats().successful_lookups < u64::MAX,
            old(self).spec_active() && !old(self)@.contains_key(pattern@) ==> old(
                self,
            ).spec_stats().failed_lookups < u64::MAX,
        ensures
            final(self).wf(),
            final(self)@ == old(self)@,
            final(self).entry_models() == old(self).entry_models(),
            final(self).spec_active() == old(self).spec_active(),
            r == lookup_answer(old(self).spec_active(), old(self)@, pattern@),
            final(self).spec_stats() == after_lookup(
                old(self).spec_stats(),
                old(self).spec_active(),
                old(self)@.contains_key(pattern@),
            ),
    {
        if !self.active {
            self.stats.inactive_lookups = self.stats.inactive_lookups + 1;
            return None;
        }
        match self.find(pattern) {
            Some(i) => {
                let value = self.substitutions[i].1;
                self.stats.successful_lookups = self.stats.successful_lookups + 1;
                Some(value)
            },
            None => {
                self.stats.failed_lookups = self.stats.failed_lookups + 1;
                None
            },
        }
    }

    /// Whether a pattern has a substitution (regardless of the active flag).
    pub fn contains_pattern(&self, pattern: &PatternKey) -> (r: bool)
        requires
            self.wf(),
        ensures
            r == self@.contains_key(pattern@),
    {
        self.find(pattern).is_some()
    }

    /// The number of substitutions in the registry.
    pub fn len(&self) -> (r: usize)
        requires
            self.wf(),
        ensures
            r == self@.len(),
    {
        proof {
            self.lemma_wf_len();
        }
        self.substitutions.len()
    }

    /// Whether the registry holds no substitution.
    pub fn is_empty(&self) -> (r: bool)
        requires
            self.wf(),
        ensures
            r == (self@.len() == 0),
            r == (self@ == Map::<PatternModel, u64>::empty()),
    {
        proof {
            self.lemma_wf_len();
            if self@.len() == 0 {
                assert(self@.dom() =~= Set::<PatternModel>::empty());
                assert(self@ =~= Map::<PatternModel, u64>::empty());
            }
        }
        self.substitutions.len() == 0
    }

    /// Removes every substitution, counting each as a removal.
    pub fn clear(&mut self)
        requires
            old(self).wf(),
            old(self).spec_stats().removals + old(self)@.len() <= u64::MAX,
        ensures
            final(self).wf(),
            final(self)@ == Map::<PatternModel, u64>::empty(),
            final(self).spec_active() == old(self).spec_active(),
            final(self).spec_stats() == (RegistryStats {
                removals: (old(self).spec_stats().removals + old(self)@.len()) as u64,
                ..old(self).spec_stats()
            }),
    {
        proof {
            self.lemma_wf_len();
        }
        let removed_count: u64 = self.substitutions.len() as u64;
        self.substitutions.clear();
        self.stats.removals = self.stats.removals + removed_count;
        proof {
            assert(self.entry_models() =~= Seq::<EntryModel>::empty());
            assert(self@ =~= Map::<PatternModel, u64>::empty());
        }
    }

    /// The current statistics.
    pub fn stats(&self) -> (r: &RegistryStats)
        ensures
            *r == self.spec_stats(),
    {
        &self.stats
    }

    /// Resets all statistics to zero.
    pub fn reset_stats(&mut self)
        ensures
            final(self).spec_stats() == zero_stats(),
            final(self)@ == old(self)@,
            final(self).entry_models() == old(self).entry_models(),
            final(self).spec_active() == old(self).spec_active(),
            final(self).wf() == old(self).wf(),
    {
        self.stats = RegistryStats::default();
    }
}

/// Capacity of a vector (how many elements it can hold without reallocating).
///
/// Calls `Vec::capacity`; std documents that the capacity is never below the length and
/// that a vector never allocates more than `isize::MAX` bytes (a vector of zero-sized
/// elements allocates nothing). Which capacity an allocation got is not stated.
#[verifier::external_body]
fn vec_capacity<T>(v: &Vec<T>) -> (c: usize)
    ensures
        c >= v.len(),
        c * vstd::layout::size_of::<T>() <= isize::MAX,
{
    v.capacity()
}

/// The map after inserting the pairs of `subs` in order.
pub open spec fn insert_all(m: Map<PatternModel, u64>, subs: Seq<EntryModel>) -> Map<
    PatternModel,
    u64,
>
    decreases subs.len(),
{
    if subs.len() == 0 {
        m
    } else {
        insert_all(m, subs.drop_last()).insert(subs.last().0, subs.last().1)
    }
}

/// Saturating `usize` arithmetic on mathematical integers.
pub open spec fn saturate_usize(x: int) -> int {
    if x > usize::MAX {
        usize::MAX as int
    } else {
        x
    }
}

/// Memory estimate for a storage of capacity `capacity` holding `len` entries.
pub open spec fn memory_estimate(capacity: int, len: int) -> int {
    saturate_usize(saturate_usize(capacity * 16) + saturate_usize(len * 108))
}

impl SubstitutionRegistry {
    /// Adds the given substitutions in order, each as by [`Self::add_substitution`].
    /// Returns how many were added (all of them).
    pub fn add_bulk(&mut self, substitutions: Vec<(PatternKey, u64)>) -> (r: usize)
        requires
            old(self).wf(),
            old(self).spec_stats().additions + substitutions@.len() <= u64::MAX,
        ensures
            final(self).wf(),
            r == substitutions@.len(),
            final(self)@ == insert_all(
                old(self)@,
                substitutions@.map_values(|e: (PatternKey, u64)| entry_view(e)),
            ),
            final(self).spec_active() == old(self).spec_active(),
            final(self).spec_stats() == (RegistryStats {
                additions: (old(self).spec_stats().additions + substitutions@.len()) as u64,
                ..old(self).spec_stats()
            }),
    {
        let ghost subs = substitutions@.map_values(|e: (PatternKey, u64)| entry_view(e));
        let ghost start = *self;
        let mut count: usize = 0;
        let mut items = substitutions;
        let ghost given = items@;
        let total: usize = items.len();
        while items.len() > 0
            invariant
                count <= given.len(),
                given.len() == total,
                given == substitutions@,
                items@ == given.skip(count as int),
                subs == given.map_values(|e: (PatternKey, u64)| entry_view(e)),
                self.wf(),
                self@ == insert_all(start@, subs.take(count as int)),
                self.spec_active() == start.spec_active(),
                self.spec_stats() == (RegistryStats {
                    additions: (start.spec_stats().additions + count) as u64,
                    ..start.spec_stats()
                }),
                start.spec_stats().additions + given.len() <= u64::MAX,
            decreases items.len(),
        {
            let item = items.remove(0);
            proof {
                assert(item == given[count as int]);
                assert(subs.take(count + 1).drop_last() =~= subs.take(count as int));
                assert(items@ =~= given.skip(count + 1));
            }
            self.add_substitution(item.0, item.1);
            count = count + 1;
        }
        proof {
            assert(count == given.len()) by {
                assert(given.skip(count as int).len() == 0);
            }
            assert(subs.take(count as int) =~= subs);
        }
        count
    }

    /// The registered patterns, in listing order.
    pub fn patterns(&self) -> (r: Vec<PatternKey>)
        requires
            self.wf(),
        ensures
            r@.map_values(|p: PatternKey| p@) == self.entry_models().map_values(
                |e: EntryModel| e.0,
            ),
    {
        let ghost em = self.entry_models();
        let mut r: Vec<PatternKey> = Vec::new();
        let mut i: usize = 0;
        while i < self.substitutions.len()
            invariant
                i <= self.substitutions.len(),
                em == self.entry_models(),
                r.len() == i,
                forall|j: int| 0 <= j < i ==> (#[trigger] r@[j])@ == em[j].0,
            decreases self.substitutions.len() - i,
        {
            r.push(self.substitutions[i].0.duplicate());
            i = i + 1;
        }
        proof {
            assert(r@.map_values(|p: PatternKey| p@) =~= em.map_values(|e: EntryModel| e.0));
        }
        r
    }

    /// The registered values, in listing order.
    pub fn values(&self) -> (r: Vec<u64>)
        requires
            self.wf(),
        ensures
            r@ == self.entry_models().map_values(|e: EntryModel| e.1),
    {
        let ghost em = self.entry_models();
        let mut r: Vec<u64> = Vec::new();
        let mut i: usize = 0;
        while i < self.substitutions.len()
            invariant
                i <= self.substitutions.len(),
                em == self.entry_models(),
                r.len() == i,
                forall|j: int| 0 <= j < i ==> #[trigger] r@[j] == em[j].1,
            decreases self.substitutions.len() - i,
        {
            r.push(self.substitutions[i].1);
            i = i + 1;
        }
        proof {
            assert(r@ =~= em.map_values(|e: EntryModel| e.1));
        }
        r
    }

    /// The registered pattern-value pairs, in listing order.
    pub fn entries(&self) -> (r: Vec<(PatternKey, u64)>)
        requires
            self.wf(),
        ensures
            r@.map_values(|e: (PatternKey, u64)| entry_view(e)) == self.entry_models(),
    {
        let ghost em = self.entry_models();
        let mut r: Vec<(PatternKey, u64)> = Vec::new();
        let mut i: usize = 0;
        while i < self.substitutions.len()
            invariant
                i <= self.substitutions.len(),
                em == self.entry_models(),
                r.len() == i,
                forall|j: int| 0 <= j < i ==> entry_view(#[trigger] r@[j]) == em[j],
            decreases self.substitutions.len() - i,
        {
            let e = &self.substitutions[i];
            r.push((e.0.duplicate(), e.1));
            i = i + 1;
        }
        proof {
            assert(r@.map_values(|e: (PatternKey, u64)| entry_view(e)) =~= em);
        }
        r
    }

    /// Estimated memory use in bytes: 16 bytes per slot of capacity plus 108 bytes per
    /// entry (saturating at `usize::MAX`), as [`memory_estimate_for`] computes it from
    /// the storage's capacity. That capacity is at least the number of entries and
    /// takes at most `isize::MAX` bytes.
    pub fn memory_usage_estimate(&self) -> (r: usize)
        requires
            self.wf(),
        ensures
            exists|capacity: int|
                capacity >= self@.len() && capacity * vstd::layout::size_of::<(PatternKey, u64)>()
                    <= isize::MAX && r == #[trigger] memory_estimate(capacity, self@.len() as int),
    {
        proof {
            self.lemma_wf_len();
        }
        let capacity = vec_capacity(&self.substitutions);
        let r = memory_estimate_for(capacity, self.substitutions.len());
        proof {
            assert(capacity >= self@.len());
            assert(r == memory_estimate(capacity as int, self@.len() as int));
        }
        r
    }
}

/// The memory estimate for a storage of `capacity` slots holding `len` entries: 16 bytes
/// per slot plus 108 bytes per entry, saturating at `usize::MAX`.
pub fn memory_estimate_for(capacity: usize, len: usize) -> (r: usize)
    ensures
        r == memory_estimate(capacity as int, len as int),
{
    let overhead: usize = if capacity > usize::MAX / 16 {
        usize::MAX
    } else {
        capacity * 16
    };
    let data_size: usize = if len > usize::MAX / 108 {
        usize::MAX
    } else {
        len * 108
    };
    if overhead > usize::MAX - data_size {
        usize::MAX
    } else {
        overhead + data_size
    }
}

impl Default for SubstitutionRegistry {
    fn default() -> (r: SubstitutionRegistry)
        ensures
            r.wf(),
            r@ == Map::<PatternModel, u64>::empty(),
            r.spec_active(),
            r.spec_stats() == zero_stats(),
    {
        SubstitutionRegistry::new()
    }
}

} // verus!
