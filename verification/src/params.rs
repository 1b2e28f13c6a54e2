//! Named parameters for a renderer: a store that maps each name to one
//! value, and the publisher through which a frame writes into it.

use vstd::prelude::*;

verus! {

/// A parameter's value: one scalar, or a vector of four.
#[derive(Clone, Copy, Debug, PartialEq)]
pub enum ParameterValue<T> {
    Scalar(T),
    Vector4(T, T, T, T),
}

/// One named value of a store.
struct Entry<T> {
    name: String,
    value: ParameterValue<T>,
}

/// A mapping from parameter names to values. Each name occurs at most once.
pub struct ParameterStore<T> {
    entries: Vec<Entry<T>>,
}

/// The views of a sequence of names, in the same order.
pub open spec fn name_views(names: Seq<String>) -> Seq<Seq<char>> {
    Seq::new(names.len(), |i: int| names[i]@)
}

/// The names of a sequence of entries, in the same order.
spec fn keys_of<T>(entries: Seq<Entry<T>>) -> Seq<Seq<char>> {
    Seq::new(entries.len(), |i: int| entries[i].name@)
}

/// The mapping that a sequence of entries with distinct names stands for.
spec fn mapping_of<T>(entries: Seq<Entry<T>>) -> Map<Seq<char>, ParameterValue<T>> {
    Map::new(
        |name: Seq<char>| keys_of(entries).contains(name),
        |name: Seq<char>| entries[keys_of(entries).index_of(name)].value,
    )
}

/// In a sequence without duplicates, an element is found where it stands.
proof fn lemma_index_of_unique(keys: Seq<Seq<char>>, at: int)
    requires
        keys.no_duplicates(),
        0 <= at < keys.len(),
    ensures
        keys.index_of(keys[at]) == at,
{
    let found = keys.index_of(keys[at]);
    assert(keys.contains(keys[at]));
    assert(0 <= found < keys.len() && keys[found] == keys[at]);
}

/// Replacing the value of an entry changes the mapping at its name only.
proof fn lemma_mapping_after_replace<T>(entries: Seq<Entry<T>>, at: int, entry: Entry<T>)
    requires
        keys_of(entries).no_duplicates(),
        0 <= at < entries.len(),
        entry.name@ == entries[at].name@,
    ensures
        keys_of(entries.update(at, entry)) == keys_of(entries),
        mapping_of(entries.update(at, entry)) == mapping_of(entries).insert(
            entry.name@,
            entry.value,
        ),
{
    let keys = keys_of(entries);
    let after = entries.update(at, entry);
    assert(keys_of(after) =~= keys);
    lemma_index_of_unique(keys, at);
    assert forall|key: Seq<char>| keys.contains(key) && key != entry.name@ implies keys.index_of(
        key,
    ) != at by {
        let i = keys.index_of(key);
        assert(keys[i] == key);
    }
    assert(mapping_of(after) =~= mapping_of(entries).insert(entry.name@, entry.value));
}

/// Appending an entry under a new name adds that name to the mapping and
/// leaves the rest as it was.
proof fn lemma_mapping_after_append<T>(entries: Seq<Entry<T>>, entry: Entry<T>)
    requires
        keys_of(entries).no_duplicates(),
        !keys_of(entries).contains(entry.name@),
    ensures
        keys_of(entries.push(entry)).no_duplicates(),
        mapping_of(entries.push(entry)) == mapping_of(entries).insert(entry.name@, entry.value),
{
    let keys = keys_of(entries);
    let after = entries.push(entry);
    let after_keys = keys_of(after);
    assert(after_keys =~= keys.push(entry.name@));
    assert forall|i: int, j: int|
        0 <= i < after_keys.len() && 0 <= j < after_keys.len() && i != j implies after_keys[i]
        != after_keys[j] by {
        if i < keys.len() {
            assert(keys.contains(keys[i]));
        }
        if j < keys.len() {
            assert(keys.contains(keys[j]));
        }
    }
    lemma_index_of_unique(after_keys, keys.len() as int);
    assert forall|key: Seq<char>| keys.contains(key) implies after_keys.index_of(key)
        == keys.index_of(key) by {
        let i = keys.index_of(key);
        assert(keys[i] == key);
        assert(after_keys[i] == key);
        lemma_index_of_unique(after_keys, i);
    }
    assert forall|key: Seq<char>| after_keys.contains(key) implies keys.contains(key) || key
        == entry.name@ by {
        let i = after_keys.index_of(key);
        assert(after_keys[i] == key);
        if i < keys.len() {
            assert(keys[i] == key);
        }
    }
    assert(after_keys[keys.len() as int] == entry.name@);
    let grown = mapping_of(entries).insert(entry.name@, entry.value);
    assert forall|key: Seq<char>| #[trigger]
        grown.dom().contains(key) implies mapping_of(after).dom().contains(key) && mapping_of(
        after,
    )[key] == grown[key] by {
        if key == entry.name@ {
            assert(after_keys.contains(key));
        } else {
            let i = keys.index_of(key);
            assert(keys[i] == key);
            assert(after_keys[i] == key);
            assert(after[i] == entries[i]);
        }
    }
    assert forall|key: Seq<char>| #[trigger]
        mapping_of(after).dom().contains(key) implies grown.dom().contains(key) by {
        assert(after_keys.contains(key));
        if key != entry.name@ {
            assert(mapping_of(entries).dom().contains(key));
        }
    }
    assert(mapping_of(after) =~= grown);
}

impl<T> ParameterStore<T> {
    #[verifier::type_invariant]
    spec fn names_unique(self) -> bool {
        keys_of(self.entries@).no_duplicates()
    }
}

impl<T> View for ParameterStore<T> {
    type V = Map<Seq<char>, ParameterValue<T>>;

    closed spec fn view(&self) -> Map<Seq<char>, ParameterValue<T>> {
        mapping_of(self.entries@)
    }
}

impl<T: Copy> ParameterStore<T> {
    /// Creates a store that holds no parameter.
    pub fn new() -> (store: Self)
        ensures
            store@ == Map::<Seq<char>, ParameterValue<T>>::empty(),
    {
        let store = ParameterStore { entries: Vec::new() };
        assert(store@ =~= Map::<Seq<char>, ParameterValue<T>>::empty());
        store
    }

    /// Position of `name` among the entries, if the store holds it.
    fn position(&self, name: &str) -> (found: Option<usize>)
        ensures
            match found {
                Some(at) => at < self.entries@.len() && keys_of(self.entries@)[at as int] == name@,
                None => !keys_of(self.entries@).contains(name@),
            },
    {
        let wanted = name.to_owned();
        let mut at: usize = 0;
        while at < self.entries.len()
            invariant
                wanted@ == name@,
                at <= self.entries@.len(),
                forall|i: int| 0 <= i < at ==> keys_of(self.entries@)[i] != name@,
            decreases self.entries@.len() - at,
        {
            if self.entries[at].name == wanted {
                return Some(at);
            }
            at += 1;
        }
        None
    }

    /// Inserts `value` under `name`, replacing the value that the name had.
    /// Every other name keeps its value.
    pub fn insert(&mut self, name: String, value: ParameterValue<T>)
        ensures
            final(self)@ == old(self)@.insert(name@, value),
    {
        proof {
            use_type_invariant(&*self);
        }
        let found = self.position(name.as_str());
        let mut entries: Vec<Entry<T>> = Vec::new();
        std::mem::swap(&mut entries, &mut self.entries);
        let entry = Entry { name, value };
        match found {
            Some(at) => {
                proof {
                    lemma_mapping_after_replace(entries@, at as int, entry);
                }
                entries.set(at, entry);
            },
            None => {
                proof {
                    lemma_mapping_after_append(entries@, entry);
                }
                entries.push(entry);
            },
        }
        self.entries = entries;
    }

    /// The value held under `name`, if any.
    pub fn get(&self, name: &str) -> (value: Option<ParameterValue<T>>)
        ensures
            value == if self@.contains_key(name@) {
                Some(self@[name@])
            } else {
                None::<ParameterValue<T>>
            },
    {
        proof {
            use_type_invariant(self);
        }
        match self.position(name) {
            Some(at) => {
                proof {
                    lemma_index_of_unique(keys_of(self.entries@), at as int);
                }
                Some(self.entries[at].value)
            },
            None => None,
        }
    }

    /// Whether the store holds a value under `name`.
    pub fn contains(&self, name: &str) -> (held: bool)
        ensures
            held == self@.contains_key(name@),
    {
        self.position(name).is_some()
    }

    /// Number of parameters held.
    pub fn len(&self) -> (count: usize)
        ensures
            self@.dom().finite(),
            count == self@.dom().len(),
    {
        proof {
            use_type_invariant(self);
            let keys = keys_of(self.entries@);
            keys.unique_seq_to_set();
            assert(self@.dom() =~= keys.to_set());
        }
        self.entries.len()
    }

    /// The names held, each once, in the order in which they were first
    /// inserted.
    pub fn names(&self) -> (names: Vec<String>)
        ensures
            name_views(names@).no_duplicates(),
            name_views(names@).to_set() == self@.dom(),
    {
        proof {
            use_type_invariant(self);
        }
        let mut names: Vec<String> = Vec::new();
        let mut at: usize = 0;
        while at < self.entries.len()
            invariant
                at <= self.entries@.len(),
                names@.len() == at,
                forall|i: int| 0 <= i < at ==> names@[i]@ == keys_of(self.entries@)[i],
            decreases self.entries@.len() - at,
        {
            names.push(self.entries[at].name.clone());
            at += 1;
        }
        proof {
            assert(name_views(names@) =~= keys_of(self.entries@));
            assert(self@.dom() =~= keys_of(self.entries@).to_set());
        }
        names
    }
}

/// Holds the parameters of one render item and takes the writes of each
/// frame.
pub struct ParameterPublisher<T> {
    store: ParameterStore<T>,
}

impl<T> View for ParameterPublisher<T> {
    type V = Map<Seq<char>, ParameterValue<T>>;

    closed spec fn view(&self) -> Map<Seq<char>, ParameterValue<T>> {
        self.store@
    }
}

impl<T: Copy> ParameterPublisher<T> {
    /// Creates a publisher with no parameter set.
    pub fn new() -> (publisher: Self)
        ensures
            publisher@ == Map::<Seq<char>, ParameterValue<T>>::empty(),
    {
        ParameterPublisher { store: ParameterStore::new() }
    }

    /// Sets `name` to `value`. The last write to a name wins, and no other
    /// name is touched.
    pub fn set(&mut self, name: String, value: ParameterValue<T>)
        ensures
            final(self)@ == old(self)@.insert(name@, value),
    {
        self.store.insert(name, value);
    }

    /// The current parameters, for the renderer to read.
    pub fn snapshot(&self) -> (store: &ParameterStore<T>)
        ensures
            store@ == self@,
    {
        &self.store
    }
}

/// After a write, the written name holds the written value, every other
/// name holds what it held before, and no other name appears or disappears.
pub proof fn lemma_set_round_trip<T>(
    before: Map<Seq<char>, ParameterValue<T>>,
    name: Seq<char>,
    value: ParameterValue<T>,
)
    ensures
        before.insert(name, value).contains_key(name),
        before.insert(name, value)[name] == value,
        forall|other: Seq<char>|
            other != name ==> (#[trigger] before.insert(name, value).contains_key(other)
                <==> before.contains_key(other)),
        forall|other: Seq<char>|
            other != name && before.contains_key(other) ==> #[trigger] before.insert(
                name,
                value,
            )[other] == before[other],
{
}

/// Of two writes to one name, only the second is seen.
pub proof fn lemma_last_write_wins<T>(
    before: Map<Seq<char>, ParameterValue<T>>,
    name: Seq<char>,
    first: ParameterValue<T>,
    second: ParameterValue<T>,
)
    ensures
        before.insert(name, first).insert(name, second) == before.insert(name, second),
{
    assert(before.insert(name, first).insert(name, second) =~= before.insert(name, second));
}

} // verus!
