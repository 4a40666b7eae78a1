//! Small collections keyed by text or by identifiers: every key occurs at most once.

use vstd::prelude::*;

verus! {

/// A key that can be compared: two keys are the same exactly when their views are.
pub trait Key: View + Sized {
    fn same(&self, other: &Self) -> (same: bool)
        ensures
            same == (self@ == other@),
    ;
}

impl Key for String {
    fn same(&self, other: &Self) -> (same: bool) {
        *self == *other
    }
}

/// Associates values with keys, each key at most once.
pub struct Table<K: Key, V: View> {
    entries: Vec<(K, V)>,
}

/// Whether a key stands at a position of a list of entries.
pub open spec fn has_key_at<K: Key, V: View>(entries: Seq<(K, V)>, key: K::V, i: int) -> bool {
    0 <= i < entries.len() && entries[i].0@ == key
}

/// What a list of entries associates with each key; the last entry of a key counts.
pub open spec fn entries_map<K: Key, V: View>(entries: Seq<(K, V)>) -> Map<K::V, V::V>
    decreases entries.len(),
{
    if entries.len() == 0 {
        Map::empty()
    } else {
        entries_map(entries.drop_last()).insert(entries.last().0@, entries.last().1@)
    }
}

/// Whether no key occurs twice.
pub open spec fn keys_unique<K: Key, V: View>(entries: Seq<(K, V)>) -> bool {
    forall|i: int, j: int|
        0 <= i < j < entries.len() ==> (#[trigger] entries[i]).0@ != (#[trigger] entries[j]).0@
}

proof fn lemma_entries_contain<K: Key, V: View>(entries: Seq<(K, V)>, key: K::V)
    ensures
        entries_map(entries).dom().contains(key) <==> exists|i: int|
            has_key_at(entries, key, i),
    decreases entries.len(),
{
    if entries.len() > 0 {
        let front = entries.drop_last();
        lemma_entries_contain(front, key);
        if entries_map(front).dom().contains(key) {
            let i = choose|i: int| has_key_at(front, key, i);
            assert(has_key_at(entries, key, i));
        }
        if entries.last().0@ == key {
            assert(has_key_at(entries, key, entries.len() - 1));
        }
        if exists|i: int| has_key_at(entries, key, i) {
            let i = choose|i: int| has_key_at(entries, key, i);
            if i < entries.len() - 1 {
                assert(has_key_at(front, key, i));
            }
        }
    }
}

proof fn lemma_entry_value<K: Key, V: View>(entries: Seq<(K, V)>, i: int)
    requires
        keys_unique(entries),
        0 <= i < entries.len(),
    ensures
        entries_map(entries).dom().contains(entries[i].0@),
        entries_map(entries)[entries[i].0@] == entries[i].1@,
    decreases entries.len(),
{
    let front = entries.drop_last();
    assert(keys_unique(front));
    if i < entries.len() - 1 {
        lemma_entry_value(front, i);
        assert(front[i] == entries[i]);
    }
}

proof fn lemma_entries_update<K: Key, V: View>(entries: Seq<(K, V)>, i: int, entry: (K, V))
    requires
        keys_unique(entries),
        0 <= i < entries.len(),
        entries[i].0@ == entry.0@,
    ensures
        keys_unique(entries.update(i, entry)),
        entries_map(entries.update(i, entry)) == entries_map(entries).insert(entry.0@, entry.1@),
    decreases entries.len(),
{
    let updated = entries.update(i, entry);
    let front = entries.drop_last();
    assert(keys_unique(front));
    if i == entries.len() - 1 {
        assert(updated.drop_last() =~= front);
        assert(entries_map(updated) =~= entries_map(entries).insert(entry.0@, entry.1@));
    } else {
        lemma_entries_update(front, i, entry);
        assert(updated.drop_last() =~= front.update(i, entry));
        assert(entries_map(updated) =~= entries_map(entries).insert(entry.0@, entry.1@));
    }
}

proof fn lemma_entries_remove<K: Key, V: View>(entries: Seq<(K, V)>, i: int)
    requires
        keys_unique(entries),
        0 <= i < entries.len(),
    ensures
        keys_unique(entries.remove(i)),
        entries_map(entries.remove(i)) == entries_map(entries).remove(entries[i].0@),
    decreases entries.len(),
{
    let removed = entries.remove(i);
    let front = entries.drop_last();
    assert(keys_unique(front));
    if i == entries.len() - 1 {
        assert(removed =~= front);
        lemma_entries_contain(front, entries[i].0@);
        assert(!entries_map(front).dom().contains(entries[i].0@));
        assert(entries_map(removed) =~= entries_map(entries).remove(entries[i].0@));
    } else {
        lemma_entries_remove(front, i);
        assert(removed.drop_last() =~= front.remove(i));
        assert(removed.last() == entries.last());
        assert(entries_map(removed) =~= entries_map(entries).remove(entries[i].0@));
    }
}

impl<K: Key, V: View> View for Table<K, V> {
    type V = Map<K::V, V::V>;

    closed spec fn view(&self) -> Map<K::V, V::V> {
        entries_map(self.entries@)
    }
}

impl<K: Key, V: View> Table<K, V> {
    #[verifier::type_invariant]
    spec fn unique(self) -> bool {
        keys_unique(self.entries@)
    }

    pub fn new() -> (table: Self)
        ensures
            table@ == Map::<K::V, V::V>::empty(),
    {
        Table { entries: Vec::new() }
    }

    fn position(&self, key: &K) -> (position: Option<usize>)
        ensures
            match position {
                Some(i) => has_key_at(self.entries@, key@, i as int),
                None => !self@.dom().contains(key@),
            },
    {
        proof {
            lemma_entries_contain(self.entries@, key@);
        }
        let mut i: usize = 0;
        while i < self.entries.len()
            invariant
                0 <= i <= self.entries@.len(),
                forall|j: int| 0 <= j < i ==> !has_key_at(self.entries@, key@, j),
            decreases self.entries@.len() - i,
        {
            if self.entries[i].0.same(key) {
                return Some(i);
            }
            i += 1;
        }
        None
    }

    pub fn contains_key(&self, key: &K) -> (found: bool)
        ensures
            found == self@.dom().contains(key@),
    {
        let position = self.position(key);
        proof {
            lemma_entries_contain(self.entries@, key@);
        }
        position.is_some()
    }

    pub fn get(&self, key: &K) -> (value: Option<&V>)
        ensures
            match value {
                Some(value) => self@.dom().contains(key@) && value@ == self@[key@],
                None => !self@.dom().contains(key@),
            },
    {
        proof {
            use_type_invariant(self);
        }
        match self.position(key) {
            Some(i) => {
                proof {
                    lemma_entry_value(self.entries@, i as int);
                }
                Some(&self.entries[i].1)
            },
            None => None,
        }
    }

    /// Associates a value with a key, in place of the one that the key had.
    pub fn insert(&mut self, key: K, value: V)
        ensures
            final(self)@ == old(self)@.insert(key@, value@),
    {
        proof {
            use_type_invariant(&*self);
        }
        match self.position(&key) {
            Some(i) => {
                proof {
                    lemma_entries_update(self.entries@, i as int, (key, value));
                }
                let mut entries: Vec<(K, V)> = Vec::new();
                std::mem::swap(&mut entries, &mut self.entries);
                entries.set(i, (key, value));
                self.entries = entries;
            },
            None => {
                let ghost entries = self.entries@.push((key, value));
                proof {
                    lemma_entries_contain(self.entries@, key@);
                    assert forall|i: int, j: int| 0 <= i < j < entries.len() implies (
                    #[trigger] entries[i]).0@ != (#[trigger] entries[j]).0@ by {
                        assert(!has_key_at(self.entries@, key@, i));
                    }
                    assert(entries.drop_last() =~= self.entries@);
                }
                let mut grown: Vec<(K, V)> = Vec::new();
                std::mem::swap(&mut grown, &mut self.entries);
                grown.push((key, value));
                self.entries = grown;
            },
        }
    }

    /// Takes a key out, with the value that it had.
    pub fn remove(&mut self, key: &K) -> (value: Option<V>)
        ensures
            match value {
                Some(value) => {
                    &&& old(self)@.dom().contains(key@)
                    &&& value@ == old(self)@[key@]
                    &&& final(self)@ == old(self)@.remove(key@)
                },
                None => !old(self)@.dom().contains(key@) && final(self)@ == old(self)@,
            },
    {
        proof {
            use_type_invariant(&*self);
        }
        match self.position(key) {
            Some(i) => {
                proof {
                    lemma_entry_value(self.entries@, i as int);
                    lemma_entries_remove(self.entries@, i as int);
                }
                let mut entries: Vec<(K, V)> = Vec::new();
                std::mem::swap(&mut entries, &mut self.entries);
                let (_, value) = entries.remove(i);
                self.entries = entries;
                Some(value)
            },
            None => None,
        }
    }

    /// A table of the given entries; where a key occurs again, the later entry counts.
    pub fn from_entries(entries: Vec<(K, V)>) -> (table: Self)
        ensures
            table@ == entries_map(entries@),
    {
        let mut rest = entries;
        let mut table = Table::new();
        let mut reversed: Vec<(K, V)> = Vec::new();
        while rest.len() > 0
            invariant
                entries@ == rest@ + reversed@.reverse(),
            decreases rest@.len(),
        {
            let ghost before = (rest@, reversed@);
            match rest.pop() {
                Some(entry) => {
                    reversed.push(entry);
                    assert(rest@ + reversed@.reverse() =~= before.0 + before.1.reverse());
                },
                None => {},
            }
        }
        assert(entries@ =~= reversed@.reverse());
        assert(entries@.take(0) =~= Seq::empty());
        while reversed.len() > 0
            invariant
                reversed@.len() <= entries@.len(),
                reversed@ == entries@.reverse().take(reversed@.len() as int),
                table@ == entries_map(entries@.take(entries@.len() - reversed@.len())),
            decreases reversed@.len(),
        {
            let ghost done = entries@.len() - reversed@.len();
            match reversed.pop() {
                Some((key, value)) => {
                    proof {
                        assert(entries@[done] == (key, value));
                        assert(entries@.take(done + 1).drop_last() =~= entries@.take(done));
                    }
                    table.insert(key, value);
                },
                None => {},
            }
        }
        assert(entries@.take(entries@.len() as int) =~= entries@);
        table
    }

    /// The entries, each key once.
    pub fn entries(&self) -> (entries: &Vec<(K, V)>)
        ensures
            entries_map(entries@) == self@,
            keys_unique(entries@),
    {
        proof {
            use_type_invariant(self);
        }
        &self.entries
    }
}

/// The keys and values of a list of entries.
pub open spec fn entry_views<K: Key, V: View>(entries: Seq<(K, V)>) -> Seq<(K::V, V::V)> {
    entries.map_values(|entry: (K, V)| (entry.0@, entry.1@))
}

/// The order of the entries does not matter: two lists without repeated keys that hold the same
/// keys and values associate the same values with the same keys.
pub proof fn order_does_not_matter<K: Key, V: View>(a: Seq<(K, V)>, b: Seq<(K, V)>)
    requires
        keys_unique(a),
        keys_unique(b),
        forall|entry: (K::V, V::V)|
            entry_views(a).contains(entry) <==> entry_views(b).contains(entry),
    ensures
        entries_map(a) == entries_map(b),
{
    assert forall|key: K::V| #[trigger] entries_map(a).dom().contains(key) implies entries_map(
        b,
    ).dom().contains(key) && entries_map(a)[key] == entries_map(b)[key] by {
        lemma_same_entry(a, b, key);
    }
    assert forall|key: K::V| #[trigger] entries_map(b).dom().contains(key) implies entries_map(
        a,
    ).dom().contains(key) by {
        lemma_same_entry(b, a, key);
    }
    assert(entries_map(a).dom() =~= entries_map(b).dom());
    assert(entries_map(a) =~= entries_map(b));
}

proof fn lemma_same_entry<K: Key, V: View>(a: Seq<(K, V)>, b: Seq<(K, V)>, key: K::V)
    requires
        keys_unique(a),
        keys_unique(b),
        forall|entry: (K::V, V::V)|
            entry_views(a).contains(entry) ==> entry_views(b).contains(entry),
        entries_map(a).dom().contains(key),
    ensures
        entries_map(b).dom().contains(key),
        entries_map(a)[key] == entries_map(b)[key],
{
    lemma_entries_contain(a, key);
    let i = choose|i: int| has_key_at(a, key, i);
    lemma_entry_value(a, i);
    assert(entry_views(a)[i] == (a[i].0@, a[i].1@));
    assert(entry_views(a).contains((a[i].0@, a[i].1@)));
    let j = choose|j: int| 0 <= j < b.len() && entry_views(b)[j] == (a[i].0@, a[i].1@);
    lemma_entry_value(b, j);
}

/// A set of keys.
pub struct KeySet<K: Key> {
    items: Vec<K>,
}

/// The keys of a list.
pub open spec fn items_set<K: Key>(items: Seq<K>) -> Set<K::V> {
    items.map_values(|item: K| item@).to_set()
}

/// Whether no key occurs twice.
pub open spec fn items_unique<K: Key>(items: Seq<K>) -> bool {
    items.map_values(|item: K| item@).no_duplicates()
}

proof fn lemma_items_push<K: Key>(items: Seq<K>, item: K)
    ensures
        items_set(items.push(item)) == items_set(items).insert(item@),
{
    let views = items.map_values(|item: K| item@);
    let pushed = items.push(item).map_values(|item: K| item@);
    assert(pushed =~= views.push(item@));
    assert forall|key: K::V| pushed.contains(key) implies views.contains(key) || key == item@ by {
        let i = choose|i: int| 0 <= i < pushed.len() && pushed[i] == key;
        if i < views.len() {
            assert(views[i] == key);
        }
    }
    assert forall|key: K::V| views.contains(key) || key == item@ implies pushed.contains(key) by {
        if views.contains(key) {
            let i = choose|i: int| 0 <= i < views.len() && views[i] == key;
            assert(pushed[i] == key);
        } else {
            assert(pushed[views.len() as int] == key);
        }
    }
    assert(items_set(items.push(item)) =~= items_set(items).insert(item@));
}

impl<K: Key> View for KeySet<K> {
    type V = Set<K::V>;

    closed spec fn view(&self) -> Set<K::V> {
        items_set(self.items@)
    }
}

impl<K: Key> KeySet<K> {
    #[verifier::type_invariant]
    spec fn unique(self) -> bool {
        items_unique(self.items@)
    }

    pub fn new() -> (keys: Self)
        ensures
            keys@ == Set::<K::V>::empty(),
    {
        let keys = KeySet { items: Vec::new() };
        assert(items_set(keys.items@) =~= Set::<K::V>::empty());
        keys
    }

    pub fn contains(&self, key: &K) -> (found: bool)
        ensures
            found == self@.contains(key@),
    {
        let ghost views = self.items@.map_values(|item: K| item@);
        let mut i: usize = 0;
        while i < self.items.len()
            invariant
                0 <= i <= self.items@.len(),
                views == self.items@.map_values(|item: K| item@),
                forall|j: int| 0 <= j < i ==> views[j] != key@,
            decreases self.items@.len() - i,
        {
            if self.items[i].same(key) {
                assert(views[i as int] == key@);
                return true;
            }
            i += 1;
        }
        false
    }

    /// Adds a key, and says whether it was missing.
    pub fn insert(&mut self, key: K) -> (added: bool)
        ensures
            added == !old(self)@.contains(key@),
            final(self)@ == old(self)@.insert(key@),
    {
        proof {
            use_type_invariant(&*self);
        }
        if self.contains(&key) {
            assert(self@.insert(key@) =~= self@);
            return false;
        }
        let ghost views = self.items@.map_values(|item: K| item@);
        proof {
            lemma_items_push(self.items@, key);
            assert(self.items@.push(key).map_values(|item: K| item@) =~= views.push(key@));
            assert forall|i: int| 0 <= i < views.len() implies views[i] != key@ by {
                if views[i] == key@ {
                    assert(views.contains(key@));
                }
            }
        }
        let mut grown: Vec<K> = Vec::new();
        std::mem::swap(&mut grown, &mut self.items);
        grown.push(key);
        self.items = grown;
        true
    }

    /// The set of the keys of a list.
    pub fn from_items(items: Vec<K>) -> (keys: Self)
        ensures
            keys@ == items_set(items@),
    {
        let mut rest = items;
        let mut keys: KeySet<K> = KeySet::new();
        let ghost all = items_set(items@);
        assert(keys@.union(items_set(rest@)) =~= all);
        while rest.len() > 0
            invariant
                keys@.union(items_set(rest@)) == all,
            decreases rest@.len(),
        {
            let ghost before = rest@;
            let ghost keys_before = keys@;
            match rest.pop() {
                Some(key) => {
                    proof {
                        assert(before =~= rest@.push(key));
                        lemma_items_push(rest@, key);
                    }
                    let _ = keys.insert(key);
                    assert(keys@.union(items_set(rest@)) =~= keys_before.union(items_set(before)));
                },
                None => {},
            }
        }
        assert(rest@ =~= Seq::empty());
        assert(items_set(rest@) =~= Set::empty());
        assert(keys@.union(items_set(rest@)) =~= keys@);
        keys
    }

    /// The keys, each once.
    pub fn items(&self) -> (items: &Vec<K>)
        ensures
            items_set(items@) == self@,
            items_unique(items@),
    {
        proof {
            use_type_invariant(self);
        }
        &self.items
    }
}

/// A list of entries knows exactly the keys that occur in it, and associates with each the value
/// of its last entry.
pub proof fn last_entry_of_a_key_counts<K: Key, V: View>(entries: Seq<(K, V)>, i: int, key: K::V)
    ensures
        entries_map(entries).dom().contains(key) <==> exists|j: int|
            0 <= j < entries.len() && (#[trigger] entries[j]).0@ == key,
        0 <= i < entries.len() && entries[i].0@ == key && (forall|j: int|
            i < j < entries.len() ==> (#[trigger] entries[j]).0@ != key) ==> entries_map(
            entries,
        )[key] == entries[i].1@,
    decreases entries.len(),
{
    lemma_entries_contain(entries, key);
    if exists|j: int| 0 <= j < entries.len() && (#[trigger] entries[j]).0@ == key {
        let j = choose|j: int| 0 <= j < entries.len() && (#[trigger] entries[j]).0@ == key;
        assert(has_key_at(entries, key, j));
    }
    if exists|j: int| has_key_at(entries, key, j) {
        let j = choose|j: int| has_key_at(entries, key, j);
        assert(entries[j].0@ == key);
    }
    if 0 <= i < entries.len() && entries[i].0@ == key && (forall|j: int|
        i < j < entries.len() ==> (#[trigger] entries[j]).0@ != key) {
        let front = entries.drop_last();
        if i < entries.len() - 1 {
            assert forall|j: int| i < j < front.len() implies (#[trigger] front[j]).0@ != key by {
                assert(front[j] == entries[j]);
            }
            assert(front[i] == entries[i]);
            last_entry_of_a_key_counts(front, i, key);
            assert(entries[entries.len() - 1].0@ != key);
        }
    }
}

/// A list of items holds exactly the keys that occur in it.
pub proof fn listed_items_are_held<K: Key>(items: Seq<K>, key: K::V)
    ensures
        items_set(items).contains(key) <==> exists|i: int|
            0 <= i < items.len() && (#[trigger] items[i])@ == key,
{
    let views = items.map_values(|item: K| item@);
    if items_set(items).contains(key) {
        let i = choose|i: int| 0 <= i < views.len() && views[i] == key;
        assert(items[i]@ == key);
    }
    if exists|i: int| 0 <= i < items.len() && (#[trigger] items[i])@ == key {
        let i = choose|i: int| 0 <= i < items.len() && (#[trigger] items[i])@ == key;
        assert(views[i] == key);
        assert(views.contains(key));
    }
}

} // verus!
