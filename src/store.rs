use vstd::prelude::*;
use crate::coordinates::{same_text, Coordinates, CoordinatesView, Dimension};

verus! {

/// One stored place under its lookup key.
#[derive(Debug)]
pub struct Entry {
    pub key: String,
    pub place: Coordinates,
}

/// The coordinate registry: entries in insertion order, each key at most once.
pub struct State {
    entries: Vec<Entry>,
}

pub type EntryView = (Seq<char>, CoordinatesView);

pub open spec fn entry_view(e: Entry) -> EntryView {
    (e.key@, e.place@)
}

pub open spec fn keys_unique(es: Seq<EntryView>) -> bool {
    forall|i: int, j: int|
        0 <= i < es.len() && 0 <= j < es.len() && #[trigger] es[i].0 == #[trigger] es[j].0 ==> i == j
}

pub open spec fn has_key(es: Seq<EntryView>, k: Seq<char>) -> bool {
    exists|i: int| 0 <= i < es.len() && #[trigger] es[i].0 == k
}

pub open spec fn index_of(es: Seq<EntryView>, k: Seq<char>) -> int {
    choose|i: int| 0 <= i < es.len() && #[trigger] es[i].0 == k
}

/// The place stored under `k`.
pub open spec fn lookup(es: Seq<EntryView>, k: Seq<char>) -> Option<CoordinatesView> {
    if has_key(es, k) {
        Some(es[index_of(es, k)].1)
    } else {
        None
    }
}

/// Storing `v` under `k`: an entry with that key is replaced in place, else one
/// is added at the end.
pub open spec fn store_insert(es: Seq<EntryView>, k: Seq<char>, v: CoordinatesView) -> Seq<EntryView> {
    if has_key(es, k) {
        es.update(index_of(es, k), (k, v))
    } else {
        es.push((k, v))
    }
}

impl View for State {
    type V = Seq<EntryView>;

    closed spec fn view(&self) -> Seq<EntryView> {
        self.entries@.map_values(|e: Entry| entry_view(e))
    }
}

impl State {
    /// No key is stored twice.
    #[verifier::type_invariant]
    pub closed spec fn wf(&self) -> bool {
        keys_unique(self@)
    }

    /// A store with nothing in it.
    pub fn empty() -> (r: State)
        ensures
            r@ == Seq::<EntryView>::empty(),
    {
        let entries: Vec<Entry> = Vec::new();
        assert(entries@.map_values(|e: Entry| entry_view(e)) =~= Seq::<EntryView>::empty());
        State { entries }
    }

    /// The store the bot starts with: `spawn`, `nether` and `end`, all at the origin.
    pub fn new() -> (r: State)
        ensures
            r@.len() == 3,
            lookup(r@, "spawn"@) == Some(CoordinatesView {
                name: "Spawn"@, x: 0, y: 0, z: 0, dimension: Dimension::Overworld, image: Some(1u64) }),
            lookup(r@, "nether"@) == Some(CoordinatesView {
                name: "Nether"@, x: 0, y: 0, z: 0, dimension: Dimension::Nether, image: None }),
            lookup(r@, "end"@) == Some(CoordinatesView {
                name: "End"@, x: 0, y: 0, z: 0, dimension: Dimension::End, image: None }),
    {
        proof {
            reveal_strlit("spawn");
            reveal_strlit("nether");
            reveal_strlit("end");
        }
        let mut r = State::empty();
        let ghost s0 = r@;
        r.insert("spawn".to_owned(),
            Coordinates::new("Spawn".to_owned(), 0, 0, 0, Dimension::Overworld, Some(1)));
        let ghost s1 = r@;
        proof {
            lemma_insert_keeps_unique(s0, "spawn"@, s1[0].1);
            assert(s1.len() == 1 && s1[0].0 == "spawn"@);
            assert("spawn"@.len() != "nether"@.len());
            assert(!has_key(s1, "nether"@));
        }
        r.insert("nether".to_owned(),
            Coordinates::new("Nether".to_owned(), 0, 0, 0, Dimension::Nether, None));
        let ghost s2 = r@;
        proof {
            lemma_insert_keeps_unique(s1, "nether"@, s2[1].1);
            assert(!has_key(s2, "end"@)) by {
                assert(s2.len() == 2 && s2[0].0 == "spawn"@ && s2[1].0 == "nether"@);
                assert("spawn"@.len() != "end"@.len());
                assert("nether"@.len() != "end"@.len());
            }
        }
        r.insert("end".to_owned(),
            Coordinates::new("End".to_owned(), 0, 0, 0, Dimension::End, None));
        proof {
            lemma_insert_keeps_unique(s2, "end"@, r@[2].1);
        }
        r
    }

    pub fn len(&self) -> (r: usize)
        ensures
            r == self@.len(),
    {
        self.entries.len()
    }

    /// The entry at position `i`, in insertion order.
    pub fn entry(&self, i: usize) -> (r: &Entry)
        requires
            i < self@.len(),
        ensures
            entry_view(*r) == self@[i as int],
    {
        &self.entries[i]
    }

    fn position(&self, key: &str) -> (r: usize)
        ensures
            r <= self@.len(),
            r < self@.len() <==> has_key(self@, key@),
            r < self@.len() ==> index_of(self@, key@) == r,
    {
        proof {
            use_type_invariant(self);
        }
        let mut i: usize = 0;
        while i < self.entries.len()
            invariant
                i <= self@.len(),
                keys_unique(self@),
                forall|j: int| 0 <= j < i ==> self@[j].0 != key@,
            decreases self@.len() - i,
        {
            if same_text(self.entries[i].key.as_str(), key) {
                assert(self@[i as int].0 == key@);
                return i;
            }
            i = i + 1;
        }
        i
    }

    pub fn contains_key(&self, key: &str) -> (r: bool)
        ensures
            r == has_key(self@, key@),
    {
        self.position(key) < self.entries.len()
    }

    pub fn get(&self, key: &str) -> (r: Option<&Coordinates>)
        ensures
            match r {
                Some(c) => lookup(self@, key@) == Some(c@),
                None => lookup(self@, key@) is None,
            },
    {
        let i = self.position(key);
        if i < self.entries.len() {
            Some(&self.entries[i].place)
        } else {
            None
        }
    }

    /// Stores `place` under `key`, replacing what was there.
    pub fn insert(&mut self, key: String, place: Coordinates)
        ensures
            keys_unique(final(self)@),
            final(self)@ == store_insert(old(self)@, key@, place@),
    {
        let ghost k = key@;
        let ghost v = place@;
        proof {
            use_type_invariant(&*self);
            lemma_insert_keeps_unique(self@, k, v);
        }
        let i = self.position(key.as_str());
        let mut entries: Vec<Entry> = Vec::new();
        proof {
            assert(entries@.map_values(|e: Entry| entry_view(e)) =~= Seq::<EntryView>::empty());
        }
        std::mem::swap(&mut self.entries, &mut entries);
        if i < entries.len() {
            entries.set(i, Entry { key, place });
        } else {
            entries.push(Entry { key, place });
        }
        assert(entries@.map_values(|e: Entry| entry_view(e)) =~= store_insert(old(self)@, k, v));
        std::mem::swap(&mut self.entries, &mut entries);
    }
}

pub proof fn lemma_insert_keeps_unique(es: Seq<EntryView>, k: Seq<char>, v: CoordinatesView)
    requires
        keys_unique(es),
    ensures
        keys_unique(store_insert(es, k, v)),
        lookup(store_insert(es, k, v), k) == Some(v),
        forall|k2: Seq<char>| k2 != k ==> lookup(store_insert(es, k, v), k2) == lookup(es, k2),
{
    let r = store_insert(es, k, v);
    if has_key(es, k) {
        let i = index_of(es, k);
        assert(r[i].0 == k);
    } else {
        assert(r[es.len() as int].0 == k);
    }
    assert forall|k2: Seq<char>| k2 != k implies lookup(r, k2) == lookup(es, k2) by {
        if has_key(es, k2) {
            let j = index_of(es, k2);
            assert(r[j].0 == k2);
        }
        if has_key(r, k2) {
            let j = index_of(r, k2);
            assert(es[j].0 == k2);
        }
    }
}

/// Two places stored under different keys, in either order, leave the same
/// lookups: each key maps to its own place, held by exactly one entry, and every
/// other key keeps what it had.
pub proof fn lemma_inserts_commute(
    es: Seq<EntryView>,
    ka: Seq<char>,
    a: CoordinatesView,
    kb: Seq<char>,
    b: CoordinatesView,
)
    requires
        keys_unique(es),
        ka != kb,
    ensures
        ({
            let ab = store_insert(store_insert(es, ka, a), kb, b);
            let ba = store_insert(store_insert(es, kb, b), ka, a);
            &&& keys_unique(ab)
            &&& keys_unique(ba)
            &&& lookup(ab, ka) == Some(a) && lookup(ab, kb) == Some(b)
            &&& lookup(ba, ka) == Some(a) && lookup(ba, kb) == Some(b)
            &&& forall|k: Seq<char>| k != ka && k != kb ==> lookup(ab, k) == lookup(es, k) && lookup(ba, k) == lookup(es, k)
        }),
{
    lemma_insert_keeps_unique(es, ka, a);
    lemma_insert_keeps_unique(store_insert(es, ka, a), kb, b);
    lemma_insert_keeps_unique(es, kb, b);
    lemma_insert_keeps_unique(store_insert(es, kb, b), ka, a);
}

} // verus!
