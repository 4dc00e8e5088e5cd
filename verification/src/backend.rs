//! The store that commands run against: for each key, a set of frames.

use crate::frame::{contains_frame, copy_frames, frames_view, FrameView, RespFrame};
use vstd::prelude::*;

verus! {

/// What the store holds, as a mathematical value: the keys that exist, and
/// for each the set of values stored under it.
pub type StoreMap = Map<Seq<char>, Set<FrameView>>;

/// The set stored under `key`; a key that does not exist behaves as the
/// empty set.
pub open spec fn members_at(store: StoreMap, key: Seq<char>) -> Set<FrameView> {
    if store.dom().contains(key) {
        store[key]
    } else {
        Set::empty()
    }
}

/// The set of the values that occur in `values`.
pub open spec fn value_set(values: Seq<FrameView>) -> Set<FrameView> {
    Set::new(|v: FrameView| values.contains(v))
}

/// The store after every one of `values` has been put into the set under
/// `key`. The set is created if the key did not exist, and a value that is
/// already in it stays there once.
pub open spec fn insert_many(store: StoreMap, key: Seq<char>, values: Seq<FrameView>) -> StoreMap {
    store.insert(key, members_at(store, key).union(value_set(values)))
}

/// One key of the store with the members of its set.
struct SetEntry {
    key: String,
    members: Vec<RespFrame>,
}

/// The store. Its fields are private: every value of this type that code
/// can hold has pairwise distinct keys, and no member twice under one key.
pub struct Backend {
    sets: Vec<SetEntry>,
}

spec fn has_key(entries: Seq<SetEntry>, key: Seq<char>) -> bool {
    exists|i: int| 0 <= i < entries.len() && #[trigger] entries[i].key@ == key
}

spec fn slot(entries: Seq<SetEntry>, key: Seq<char>) -> int {
    choose|i: int| 0 <= i < entries.len() && #[trigger] entries[i].key@ == key
}

spec fn store_of(entries: Seq<SetEntry>) -> StoreMap {
    Map::new(
        |k: Seq<char>| has_key(entries, k),
        |k: Seq<char>| value_set(frames_view(entries[slot(entries, k)].members@)),
    )
}

spec fn distinct_keys(entries: Seq<SetEntry>) -> bool {
    forall|i: int, j: int|
        0 <= i < j < entries.len() ==> #[trigger] entries[i].key@ != #[trigger] entries[j].key@
}

spec fn distinct_members(entries: Seq<SetEntry>) -> bool {
    forall|i: int|
        0 <= i < entries.len() ==> (#[trigger] frames_view(entries[i].members@)).no_duplicates()
}

proof fn lemma_store_at(entries: Seq<SetEntry>, i: int)
    requires
        distinct_keys(entries),
        0 <= i < entries.len(),
    ensures
        store_of(entries).dom().contains(entries[i].key@),
        store_of(entries)[entries[i].key@] == value_set(frames_view(entries[i].members@)),
{
}

proof fn lemma_store_remove(entries: Seq<SetEntry>, i: int)
    requires
        distinct_keys(entries),
        0 <= i < entries.len(),
    ensures
        distinct_keys(entries.remove(i)),
        !has_key(entries.remove(i), entries[i].key@),
        store_of(entries.remove(i)) == store_of(entries).remove(entries[i].key@),
{
    let rest = entries.remove(i);
    let gone = entries[i].key@;
    assert forall|k: Seq<char>| store_of(rest).dom().contains(k) <==> store_of(entries).remove(
        gone,
    ).dom().contains(k) by {
        if has_key(entries, k) && k != gone {
            let at = slot(entries, k);
            let moved = if at < i { at } else { at - 1 };
            assert(rest[moved] == entries[at]);
        }
    }
    assert forall|k: Seq<char>| store_of(rest).dom().contains(k) implies store_of(rest)[k]
        == store_of(entries).remove(gone)[k] by {
        let at = slot(rest, k);
        lemma_store_at(rest, at);
        lemma_store_at(entries, if at < i { at } else { at + 1 });
    }
}

proof fn lemma_store_push(entries: Seq<SetEntry>, entry: SetEntry)
    requires
        distinct_keys(entries),
        !has_key(entries, entry.key@),
    ensures
        distinct_keys(entries.push(entry)),
        store_of(entries.push(entry)) == store_of(entries).insert(
            entry.key@,
            value_set(frames_view(entry.members@)),
        ),
{
    let more = entries.push(entry);
    let target = store_of(entries).insert(entry.key@, value_set(frames_view(entry.members@)));
    assert forall|k: Seq<char>| store_of(more).dom().contains(k) <==> target.dom().contains(
        k,
    ) by {
        if has_key(entries, k) {
            let at = slot(entries, k);
            assert(more[at] == entries[at]);
        }
        if k == entry.key@ {
            assert(more[entries.len() as int] == entry);
        }
    }
    assert forall|k: Seq<char>| store_of(more).dom().contains(k) implies store_of(more)[k]
        == target[k] by {
        let at = slot(more, k);
        lemma_store_at(more, at);
        if at < entries.len() {
            lemma_store_at(entries, at);
        }
    }
}

proof fn lemma_frames_view_push(frames: Seq<RespFrame>, frame: RespFrame)
    ensures
        frames_view(frames.push(frame)) == frames_view(frames).push(frame@),
{
}

proof fn lemma_value_set_push(values: Seq<FrameView>, value: FrameView)
    ensures
        value_set(values.push(value)) == value_set(values).insert(value),
{
    let more = values.push(value);
    assert forall|v: FrameView| more.contains(v) <==> (values.contains(v) || v == value) by {
        if values.contains(v) {
            let i = choose|i: int| 0 <= i < values.len() && values[i] == v;
            assert(more[i] == v);
        }
        if v == value {
            assert(more[values.len() as int] == v);
        }
    }
}

impl View for Backend {
    type V = StoreMap;

    closed spec fn view(&self) -> StoreMap {
        store_of(self.sets@)
    }
}

impl Default for Backend {
    fn default() -> (r: Self)
        ensures
            r@ == Map::<Seq<char>, Set<FrameView>>::empty(),
    {
        Backend::new()
    }
}

impl Backend {
    #[verifier::type_invariant]
    spec fn well_formed(self) -> bool {
        distinct_keys(self.sets@) && distinct_members(self.sets@)
    }

    /// An empty store.
    pub fn new() -> (r: Self)
        ensures
            r@ == Map::<Seq<char>, Set<FrameView>>::empty(),
    {
        Backend { sets: Vec::new() }
    }

    /// Puts every one of `values` into the set under `key`, which is
    /// created if the key did not exist. A value that the set already holds,
    /// or that occurs twice in `values`, is in the set once.
    pub fn sset(&mut self, key: String, values: Vec<RespFrame>)
        ensures
            final(self)@ == insert_many(old(self)@, key@, frames_view(values@)),
    {
        proof {
            use_type_invariant(&*self);
        }
        let ghost name = key@;
        let ghost wanted = frames_view(values@);
        let ghost before = self.sets@;
        let found = self.position(&key);
        let mut sets: Vec<SetEntry> = Vec::new();
        core::mem::swap(&mut self.sets, &mut sets);
        let mut entry = match found {
            Some(i) => {
                proof {
                    lemma_store_at(before, i as int);
                    lemma_store_remove(before, i as int);
                }
                sets.remove(i)
            },
            None => SetEntry { key, members: Vec::new() },
        };
        let ghost base = members_at(store_of(before), name);
        let ghost rest = sets@;
        let ghost given = values@;
        for value in it: values
            invariant
                it.seq() == given,
                wanted == frames_view(given),
                entry.key@ == name,
                frames_view(entry.members@).no_duplicates(),
                value_set(frames_view(entry.members@)) == base.union(
                    value_set(wanted.take(it.index() as int)),
                ),
        {
            let ghost n = it.index() as int;
            assert(wanted.take(n + 1) =~= wanted.take(n).push(value@));
            proof {
                lemma_value_set_push(wanted.take(n), value@);
            }
            if !contains_frame(&entry.members, &value) {
                proof {
                    lemma_frames_view_push(entry.members@, value);
                    lemma_value_set_push(frames_view(entry.members@), value@);
                }
                entry.members.push(value);
            }
        }
        assert(wanted.take(wanted.len() as int) =~= wanted);
        proof {
            lemma_store_push(rest, entry);
        }
        sets.push(entry);
        self.sets = sets;
    }

    /// The members of the set under `key`, each once and in no particular
    /// order, or `None` if the key does not exist.
    pub fn sget(&self, key: &String) -> (r: Option<Vec<RespFrame>>)
        ensures
            match r {
                Some(members) => {
                    &&& self@.dom().contains(key@)
                    &&& value_set(frames_view(members@)) == self@[key@]
                    &&& frames_view(members@).no_duplicates()
                },
                None => !self@.dom().contains(key@),
            },
    {
        proof {
            use_type_invariant(self);
        }
        match self.position(key) {
            Some(i) => {
                proof {
                    lemma_store_at(self.sets@, i as int);
                }
                Some(copy_frames(&self.sets[i].members))
            },
            None => None,
        }
    }

    /// Where `key` stands among the entries, if it exists.
    fn position(&self, key: &String) -> (r: Option<usize>)
        ensures
            match r {
                Some(i) => i < self.sets.len() && self.sets[i as int].key@ == key@,
                None => !has_key(self.sets@, key@),
            },
    {
        let mut i: usize = 0;
        while i < self.sets.len()
            invariant
                i <= self.sets.len(),
                forall|j: int| 0 <= j < i ==> self.sets[j].key@ != key@,
            decreases self.sets.len() - i,
        {
            if self.sets[i].key == *key {
                return Some(i);
            }
            i += 1;
        }
        None
    }
}

} // verus!
