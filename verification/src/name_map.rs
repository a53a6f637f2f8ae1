//! A map from names to values that keeps its entries in the order of their
//! names, so that walking it is deterministic.

use crate::names::compare_names;
use crate::names::lemma_name_transitive;
use crate::names::lemma_name_trichotomy;
use crate::names::name_before;
use crate::names::Placement;
use vstd::prelude::*;

verus! {

/// Every name comes strictly before all that follow it.
pub open spec fn ascending(names: Seq<Seq<char>>) -> bool {
    forall|i: int, j: int| 0 <= i < j < names.len() ==> name_before(names[i], names[j])
}

/// Number of leading entries of `names`, from `i` on, that come before `name`.
pub open spec fn slot_from(names: Seq<Seq<char>>, name: Seq<char>, i: int) -> int
    decreases names.len() - i,
{
    if i < 0 || i >= names.len() || !name_before(names[i], name) {
        i
    } else {
        slot_from(names, name, i + 1)
    }
}

/// A map from names to values, held in the order of the names.
#[derive(Debug)]
pub struct NameMap<V> {
    entries: Vec<(String, V)>,
}

impl<V> NameMap<V> {
    /// The names held, in the order in which the map is walked.
    pub closed spec fn names(&self) -> Seq<Seq<char>> {
        self.entries@.map_values(|e: (String, V)| e.0@)
    }

    /// The values held, each at the index of its name.
    pub closed spec fn items(&self) -> Seq<V> {
        self.entries@.map_values(|e: (String, V)| e.1)
    }

    /// One value per name, and the names strictly ascending.
    #[verifier::type_invariant]
    pub open spec fn wf(&self) -> bool {
        &&& self.names().len() == self.items().len()
        &&& ascending(self.names())
    }

    /// The map binds `name`.
    pub open spec fn contains(&self, name: Seq<char>) -> bool {
        self.names().contains(name)
    }

    /// Index of `name` among the names. Meaningful where the map contains it.
    pub open spec fn position(&self, name: Seq<char>) -> int {
        self.names().index_of(name)
    }

    /// The value bound to `name`. Meaningful where the map contains it.
    pub open spec fn value_of(&self, name: Seq<char>) -> V {
        self.items()[self.position(name)]
    }

    /// Index at which `name` stands, or would have to be inserted.
    pub open spec fn slot(&self, name: Seq<char>) -> int {
        slot_from(self.names(), name, 0)
    }

    /// The map as a finite function.
    pub open spec fn as_map(&self) -> Map<Seq<char>, V> {
        Map::new(|n: Seq<char>| self.contains(n), |n: Seq<char>| self.value_of(n))
    }

    /// An empty map.
    pub fn new() -> (m: Self)
        ensures
            m.names() == Seq::<Seq<char>>::empty(),
            m.items() == Seq::<V>::empty(),
            m.wf(),
    {
        let m = NameMap { entries: Vec::new() };
        assert(m.names() =~= Seq::<Seq<char>>::empty());
        assert(m.items() =~= Seq::<V>::empty());
        m
    }

    /// The number of names bound.
    pub fn len(&self) -> (n: usize)
        ensures
            n == self.names().len(),
            n == self.items().len(),
    {
        proof {
            use_type_invariant(self);
        }
        self.entries.len()
    }

    /// Whether no name is bound.
    pub fn is_empty(&self) -> (r: bool)
        ensures
            r == (self.names().len() == 0),
    {
        self.entries.len() == 0
    }

    /// The name at index `i` of the walk.
    pub fn name_at(&self, i: usize) -> (name: &String)
        requires
            i < self.names().len(),
        ensures
            name@ == self.names()[i as int],
    {
        &self.entries[i].0
    }

    /// The value at index `i` of the walk.
    pub fn value_at(&self, i: usize) -> (value: &V)
        requires
            i < self.items().len(),
        ensures
            *value == self.items()[i as int],
    {
        &self.entries[i].1
    }

    /// Finds where `name` stands, by halving the stretch in which it can
    /// stand: `Ok` with its index where the map holds it, `Err` with the
    /// index at which it would be inserted where not.
    pub fn locate(&self, name: &str) -> (r: Result<usize, usize>)
        ensures
            self.wf(),
            match r {
                Ok(i) => self.contains(name@) && i == self.position(name@) && i == self.slot(
                    name@,
                ) && i < self.names().len(),
                Err(i) => !self.contains(name@) && i == self.slot(name@) && i
                    <= self.names().len(),
            },
    {
        proof {
            use_type_invariant(self);
        }
        let ghost names = self.names();
        let mut low: usize = 0;
        let mut high: usize = self.entries.len();
        while low < high
            invariant
                names == self.names(),
                self.wf(),
                low <= high <= names.len(),
                names.len() == self.entries@.len(),
                forall|j: int| 0 <= j < low ==> name_before(#[trigger] names[j], name@),
                forall|j: int| high <= j < names.len() ==> name_before(name@, #[trigger] names[j]),
            decreases high - low,
        {
            let mid: usize = low + (high - low) / 2;
            assert(names[mid as int] == self.entries@[mid as int].0@);
            match compare_names(self.entries[mid].0.as_str(), name) {
                Placement::Before => {
                    proof {
                        assert forall|j: int| 0 <= j < mid + 1 implies name_before(
                            #[trigger] names[j],
                            name@,
                        ) by {
                            if j < mid {
                                lemma_name_transitive(names[j], names[mid as int], name@);
                            }
                        }
                    }
                    low = mid + 1;
                },
                Placement::Same => {
                    proof {
                        lemma_name_trichotomy(names[mid as int], name@);
                        lemma_found(names, name@, mid as int);
                    }
                    return Ok(mid);
                },
                Placement::After => {
                    proof {
                        lemma_name_trichotomy(names[mid as int], name@);
                        assert forall|j: int| mid <= j < names.len() implies name_before(
                            name@,
                            #[trigger] names[j],
                        ) by {
                            if j > mid {
                                lemma_name_transitive(name@, names[mid as int], names[j]);
                            }
                        }
                    }
                    high = mid;
                },
            }
        }
        proof {
            lemma_absent(names, name@, low as int);
        }
        Err(low)
    }

    /// Whether the map binds `name`.
    pub fn contains_key(&self, name: &str) -> (r: bool)
        ensures
            r == self.contains(name@),
    {
        self.locate(name).is_ok()
    }

    /// The value bound to `name`, if there is one.
    pub fn get(&self, name: &str) -> (r: Option<&V>)
        ensures
            match r {
                Some(v) => self.contains(name@) && *v == self.value_of(name@),
                None => !self.contains(name@),
            },
    {
        match self.locate(name) {
            Ok(i) => {
                proof {
                    use_type_invariant(self);
                }
                Some(&self.entries[i].1)
            },
            Err(_) => None,
        }
    }

    /// Binds `name` to `value`. A value already bound to `name` is replaced and
    /// returned; the other entries keep their values and their order.
    pub fn insert(&mut self, name: String, value: V) -> (previous: Option<V>)
        ensures
            final(self).wf(),
            old(self).contains(name@) ==> {
                &&& previous == Some(old(self).value_of(name@))
                &&& final(self).names() == old(self).names()
                &&& final(self).items() == old(self).items().update(
                    old(self).position(name@),
                    value,
                )
            },
            !old(self).contains(name@) ==> {
                &&& previous is None
                &&& final(self).names() == old(self).names().insert(old(self).slot(name@), name@)
                &&& final(self).items() == old(self).items().insert(old(self).slot(name@), value)
            },
            final(self).contains(name@),
            final(self).value_of(name@) == value,
            forall|n: Seq<char>|
                n != name@ ==> final(self).contains(n) == old(self).contains(n),
            forall|n: Seq<char>|
                n != name@ && old(self).contains(n) ==> final(self).value_of(n) == old(self).value_of(n),
    {
        proof {
            use_type_invariant(&*self);
        }
        let ghost before = self.names();
        let ghost before_items = self.items();
        match self.locate(name.as_str()) {
            Ok(i) => {
                let mut entries: Vec<(String, V)> = Vec::new();
                core::mem::swap(&mut entries, &mut self.entries);
                let previous = entries.remove(i);
                entries.insert(i, (name, value));
                proof {
                    lemma_found(before, name@, i as int);
                    assert(entries@.map_values(|e: (String, V)| e.0@) =~= before);
                    assert(entries@.map_values(|e: (String, V)| e.1) =~= before_items.update(
                        i as int,
                        value,
                    ));
                }
                self.entries = entries;
                proof {
                    lemma_after_update(before, before_items, self.items(), name@, i as int, value);
                }
                Some(previous.1)
            },
            Err(i) => {
                let mut entries: Vec<(String, V)> = Vec::new();
                core::mem::swap(&mut entries, &mut self.entries);
                entries.insert(i, (name, value));
                proof {
                    assert(entries@.map_values(|e: (String, V)| e.0@) =~= before.insert(
                        i as int,
                        name@,
                    ));
                    assert(entries@.map_values(|e: (String, V)| e.1) =~= before_items.insert(
                        i as int,
                        value,
                    ));
                    lemma_after_insert(
                        before,
                        before_items,
                        before.insert(i as int, name@),
                        before_items.insert(i as int, value),
                        name@,
                        i as int,
                        value,
                    );
                }
                self.entries = entries;
                proof {
                    lemma_after_insert(
                        before,
                        before_items,
                        self.names(),
                        self.items(),
                        name@,
                        i as int,
                        value,
                    );
                }
                None
            },
        }
    }

    /// Takes the entry of `name` out of the map, if there is one. The other
    /// entries keep their values and their order.
    pub fn remove(&mut self, name: &str) -> (taken: Option<V>)
        ensures
            final(self).wf(),
            old(self).contains(name@) ==> {
                &&& taken == Some(old(self).value_of(name@))
                &&& final(self).names() == old(self).names().remove(old(self).position(name@))
                &&& final(self).items() == old(self).items().remove(old(self).position(name@))
            },
            !old(self).contains(name@) ==> {
                &&& taken is None
                &&& final(self).names() == old(self).names()
                &&& final(self).items() == old(self).items()
            },
            !final(self).contains(name@),
            forall|n: Seq<char>|
                n != name@ ==> final(self).contains(n) == old(self).contains(n),
            forall|n: Seq<char>|
                n != name@ && old(self).contains(n) ==> final(self).value_of(n) == old(self).value_of(n),
    {
        proof {
            use_type_invariant(&*self);
        }
        let ghost before = self.names();
        let ghost before_items = self.items();
        match self.locate(name) {
            Ok(i) => {
                let mut entries: Vec<(String, V)> = Vec::new();
                core::mem::swap(&mut entries, &mut self.entries);
                let taken = entries.remove(i);
                proof {
                    assert(entries@.map_values(|e: (String, V)| e.0@) =~= before.remove(i as int));
                    assert(entries@.map_values(|e: (String, V)| e.1) =~= before_items.remove(
                        i as int,
                    ));
                    lemma_after_remove(
                        before,
                        before_items,
                        before.remove(i as int),
                        before_items.remove(i as int),
                        name@,
                        i as int,
                    );
                }
                self.entries = entries;
                proof {
                    lemma_after_remove(
                        before,
                        before_items,
                        self.names(),
                        self.items(),
                        name@,
                        i as int,
                    );
                }
                Some(taken.1)
            },
            Err(_) => None,
        }
    }

    /// Puts `value` in the place of the value at index `i` and returns the
    /// one that stood there.
    pub fn replace_at(&mut self, i: usize, value: V) -> (previous: V)
        requires
            i < old(self).items().len(),
        ensures
            final(self).wf(),
            previous == old(self).items()[i as int],
            final(self).names() == old(self).names(),
            final(self).items() == old(self).items().update(i as int, value),
    {
        proof {
            use_type_invariant(&*self);
        }
        let ghost before = self.names();
        let ghost before_items = self.items();
        let mut entries: Vec<(String, V)> = Vec::new();
        core::mem::swap(&mut entries, &mut self.entries);
        let previous = entries.remove(i);
        let name = previous.0;
        entries.insert(i, (name, value));
        proof {
            assert(entries@.map_values(|e: (String, V)| e.0@) =~= before);
            assert(entries@.map_values(|e: (String, V)| e.1) =~= before_items.update(
                i as int,
                value,
            ));
        }
        self.entries = entries;
        previous.1
    }
}

/// In a map, the position of a name that it contains is the one index at
/// which the name stands.
pub proof fn lemma_position<V>(map: &NameMap<V>, name: Seq<char>)
    requires
        map.wf(),
        map.contains(name),
    ensures
        0 <= map.position(name) < map.names().len(),
        map.names()[map.position(name)] == name,
        forall|j: int|
            0 <= j < map.names().len() && j != map.position(name) ==> #[trigger] map.names()[j]
                != name,
{
    let k = map.position(name);
    assert forall|j: int| 0 <= j < map.names().len() && j != k implies #[trigger] map.names()[j]
        != name by {
        lemma_name_trichotomy(map.names()[j], map.names()[k]);
    }
}

/// A prefix of ascending names is ascending.
pub proof fn lemma_prefix_ascending(names: Seq<Seq<char>>, k: int)
    requires
        ascending(names),
        0 <= k <= names.len(),
    ensures
        ascending(names.take(k)),
{
    assert forall|a: int, b: int| 0 <= a < b < names.take(k).len() implies name_before(
        names.take(k)[a],
        names.take(k)[b],
    ) by {
        assert(names.take(k)[a] == names[a]);
        assert(names.take(k)[b] == names[b]);
    }
}

/// In ascending names, an index that holds `name` is its position and its slot.
pub proof fn lemma_found(names: Seq<Seq<char>>, name: Seq<char>, i: int)
    requires
        ascending(names),
        0 <= i < names.len(),
        names[i] == name,
    ensures
        names.contains(name),
        names.index_of(name) == i,
        slot_from(names, name, 0) == i,
{
    let k = names.index_of(name);
    if k != i {
        lemma_name_trichotomy(names[k], names[i]);
    }
    lemma_slot_is(names, name, 0, i);
}

/// In ascending names, `name` is absent if the entries before index `i` come
/// before it and the entry at `i`, if any, comes after it.
pub proof fn lemma_absent(names: Seq<Seq<char>>, name: Seq<char>, i: int)
    requires
        ascending(names),
        0 <= i <= names.len(),
        forall|j: int| 0 <= j < i ==> name_before(#[trigger] names[j], name),
        i < names.len() ==> name_before(name, names[i]),
    ensures
        !names.contains(name),
        slot_from(names, name, 0) == i,
{
    if names.contains(name) {
        let k = names.index_of(name);
        lemma_name_trichotomy(names[k], name);
        if k > i {
            lemma_name_trichotomy(names[i], names[k]);
        }
        if k == i {
        }
    }
    if i < names.len() {
        lemma_name_trichotomy(names[i], name);
    }
    lemma_slot_is(names, name, 0, i);
}

/// In ascending names all entries before `k` come before `name` as soon as
/// the entry at `k` does not come after it.
pub proof fn lemma_slot_is(names: Seq<Seq<char>>, name: Seq<char>, from: int, k: int)
    requires
        ascending(names),
        0 <= from <= k <= names.len(),
        k < names.len() ==> !name_before(names[k], name),
        k > 0 ==> name_before(names[k - 1], name) || (k < names.len() && names[k] == name),
    ensures
        slot_from(names, name, from) == k,
    decreases k - from,
{
    if from < k {
        if k < names.len() && names[k] == name {
            assert(name_before(names[from], names[k]));
        } else {
            if from < k - 1 {
                lemma_name_transitive(names[from], names[k - 1], name);
            }
        }
        lemma_slot_is(names, name, from + 1, k);
    }
}

proof fn lemma_after_update<V>(
    names: Seq<Seq<char>>,
    items: Seq<V>,
    items2: Seq<V>,
    name: Seq<char>,
    i: int,
    value: V,
)
    requires
        ascending(names),
        names.len() == items.len(),
        0 <= i < names.len(),
        names[i] == name,
        items2 == items.update(i, value),
    ensures
        items2[names.index_of(name)] == value,
        forall|n: Seq<char>|
            n != name && names.contains(n) ==> items2[names.index_of(n)] == items[names.index_of(
                n,
            )],
{
    lemma_found(names, name, i);
}

proof fn lemma_after_insert<V>(
    names: Seq<Seq<char>>,
    items: Seq<V>,
    names2: Seq<Seq<char>>,
    items2: Seq<V>,
    name: Seq<char>,
    i: int,
    value: V,
)
    requires
        ascending(names),
        names.len() == items.len(),
        0 <= i <= names.len(),
        !names.contains(name),
        slot_from(names, name, 0) == i,
        names2 == names.insert(i, name),
        items2 == items.insert(i, value),
    ensures
        ascending(names2),
        names2.len() == items2.len(),
        names2.contains(name),
        items2[names2.index_of(name)] == value,
        forall|n: Seq<char>| n != name ==> names2.contains(n) == names.contains(n),
        forall|n: Seq<char>|
            n != name && names.contains(n) ==> items2[names2.index_of(n)] == items[names.index_of(
                n,
            )],
{
    lemma_slot_bounds(names, name, 0);
    if i < names.len() {
        assert(names[i] != name) by {
            if names[i] == name {
                assert(names.contains(name));
            }
        }
        lemma_name_trichotomy(names[i], name);
    }
    assert forall|a: int, b: int| 0 <= a < b < names2.len() implies name_before(
        names2[a],
        names2[b],
    ) by {
        if a == i {
            assert(names2[b] == names[b - 1]);
            if b - 1 > i {
                lemma_name_transitive(name, names[i], names[b - 1]);
            }
        } else if b == i {
            assert(names2[a] == names[a]);
        } else {
            let a0 = if a < i { a } else { a - 1 };
            let b0 = if b < i { b } else { b - 1 };
            assert(names2[a] == names[a0]);
            assert(names2[b] == names[b0]);
        }
    }
    assert(names2[i] == name);
    lemma_found(names2, name, i);
    assert forall|n: Seq<char>| n != name implies names2.contains(n) == names.contains(n) by {
        if names.contains(n) {
            let k = names.index_of(n);
            let k2 = if k < i { k } else { k + 1 };
            assert(names2[k2] == n);
        }
        if names2.contains(n) {
            let k2 = names2.index_of(n);
            let k = if k2 < i { k2 } else { k2 - 1 };
            assert(names[k] == n);
        }
    }
    assert forall|n: Seq<char>| n != name && names.contains(n) implies items2[names2.index_of(n)]
        == items[names.index_of(n)] by {
        let k = names.index_of(n);
        let k2 = if k < i { k } else { k + 1 };
        assert(names2[k2] == n);
        lemma_found(names2, n, k2);
    }
}

proof fn lemma_after_remove<V>(
    names: Seq<Seq<char>>,
    items: Seq<V>,
    names2: Seq<Seq<char>>,
    items2: Seq<V>,
    name: Seq<char>,
    i: int,
)
    requires
        ascending(names),
        names.len() == items.len(),
        0 <= i < names.len(),
        names[i] == name,
        names2 == names.remove(i),
        items2 == items.remove(i),
    ensures
        ascending(names2),
        names2.len() == items2.len(),
        !names2.contains(name),
        forall|n: Seq<char>| n != name ==> names2.contains(n) == names.contains(n),
        forall|n: Seq<char>|
            n != name && names.contains(n) ==> items2[names2.index_of(n)] == items[names.index_of(
                n,
            )],
{
    assert forall|a: int, b: int| 0 <= a < b < names2.len() implies name_before(
        names2[a],
        names2[b],
    ) by {
        let a0 = if a < i { a } else { a + 1 };
        let b0 = if b < i { b } else { b + 1 };
        assert(names2[a] == names[a0]);
        assert(names2[b] == names[b0]);
    }
    if names2.contains(name) {
        let k2 = names2.index_of(name);
        let k = if k2 < i { k2 } else { k2 + 1 };
        assert(names[k] == name);
        lemma_name_trichotomy(names[k], names[i]);
    }
    assert forall|n: Seq<char>| n != name implies names2.contains(n) == names.contains(n) by {
        if names.contains(n) {
            let k = names.index_of(n);
            let k2 = if k < i { k } else { k - 1 };
            assert(names2[k2] == n);
        }
        if names2.contains(n) {
            let k2 = names2.index_of(n);
            let k = if k2 < i { k2 } else { k2 + 1 };
            assert(names[k] == n);
        }
    }
    assert forall|n: Seq<char>| n != name && names.contains(n) implies items2[names2.index_of(n)]
        == items[names.index_of(n)] by {
        let k = names.index_of(n);
        let k2 = if k < i { k } else { k - 1 };
        assert(names2[k2] == n);
        lemma_found(names2, n, k2);
    }
}

/// The slot lies within the sequence, after the entries that come before
/// `name` and at one that does not.
pub proof fn lemma_slot_bounds(names: Seq<Seq<char>>, name: Seq<char>, i: int)
    requires
        0 <= i <= names.len(),
    ensures
        i <= slot_from(names, name, i) <= names.len(),
        forall|j: int| i <= j < slot_from(names, name, i) ==> name_before(#[trigger] names[j], name),
        slot_from(names, name, i) < names.len() ==> !name_before(
            names[slot_from(names, name, i)],
            name,
        ),
    decreases names.len() - i,
{
    if i < names.len() && name_before(names[i], name) {
        lemma_slot_bounds(names, name, i + 1);
    }
}

impl<V: Clone> Clone for NameMap<V> {
    fn clone(&self) -> (r: Self)
        ensures
            r.wf(),
            r.names() == self.names(),
            r.items().len() == self.items().len(),
            forall|i: int|
                0 <= i < self.items().len() ==> cloned(self.items()[i], #[trigger] r.items()[i]),
    {
        proof {
            use_type_invariant(self);
        }
        let mut entries: Vec<(String, V)> = Vec::new();
        let mut i: usize = 0;
        while i < self.entries.len()
            invariant
                i <= self.entries@.len(),
                entries@.len() == i,
                forall|j: int| 0 <= j < i ==> (#[trigger] entries@[j]).0@ == self.entries@[j].0@,
                forall|j: int| 0 <= j < i ==> cloned(self.entries@[j].1, (#[trigger] entries@[j]).1),
            decreases self.entries@.len() - i,
        {
            let name = self.entries[i].0.clone();
            let value = self.entries[i].1.clone();
            entries.push((name, value));
            i += 1;
        }
        proof {
            assert(entries@.map_values(|e: (String, V)| e.0@) =~= self.names());
        }
        NameMap { entries }
    }
}

} // verus!
