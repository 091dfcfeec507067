//! The catalog: which resource is filed under which three characters.

use vstd::prelude::*;
use crate::key::Key;

verus! {

/// The three characters that mark an entry of the catalog source as no
/// track: such an entry is passed over.
pub open spec fn reserved_prefix() -> Seq<char> {
    seq!['R', 'E', 'A']
}

/// Whether an entry of this name is filed at all: it has three characters
/// to be filed under, and they are not the reserved ones.
pub open spec fn is_filed(name: Seq<char>) -> bool {
    name.len() >= 3 && name.subrange(0, 3) != reserved_prefix()
}

/// The catalog after one more entry of the source was read: an entry is
/// filed under the first three characters of its name, in place of what was
/// filed there before.
pub open spec fn filed<R>(catalog: Map<Seq<char>, R>, name: Seq<char>, resource: R) -> Map<
    Seq<char>,
    R,
> {
    if is_filed(name) {
        catalog.insert(name.subrange(0, 3), resource)
    } else {
        catalog
    }
}

/// The catalog that a source gives when its entries are read in order.
pub open spec fn catalog_of<R>(source: Seq<(String, R)>) -> Map<Seq<char>, R>
    decreases source.len(),
{
    if source.len() == 0 {
        Map::empty()
    } else {
        filed(catalog_of(source.drop_last()), source.last().0@, source.last().1)
    }
}

/// Maps the three characters of a key to a resource. It is filled once,
/// from a source of named entries, and only read afterwards.
pub struct SongCatalog<R> {
    entries: Vec<(String, R)>,
    model: Ghost<Map<Seq<char>, R>>,
}

impl<R> View for SongCatalog<R> {
    type V = Map<Seq<char>, R>;

    closed spec fn view(&self) -> Map<Seq<char>, R> {
        self.model@
    }
}

impl<R> SongCatalog<R> {
    /// Every prefix is held once, and the entries held are those of the
    /// view.
    pub closed spec fn wf(&self) -> bool {
        &&& forall|i: int|
            0 <= i < self.entries@.len() ==> self.model@.contains_key(
                (#[trigger] self.entries@[i]).0@,
            ) && self.model@[self.entries@[i].0@] == self.entries@[i].1
        &&& forall|i: int, j: int|
            0 <= i < j < self.entries@.len() ==> (#[trigger] self.entries@[i]).0@ != (
            #[trigger] self.entries@[j]).0@
        &&& forall|p: Seq<char>| #[trigger]
            self.model@.contains_key(p) ==> exists|i: int|
                0 <= i < self.entries@.len() && (#[trigger] self.entries@[i]).0@ == p
        &&& self.model@.dom().finite()
        &&& self.model@.dom().len() == self.entries@.len()
    }

    /// A catalog with nothing filed.
    pub fn new() -> (catalog: SongCatalog<R>)
        ensures
            catalog.wf(),
            catalog@ == Map::<Seq<char>, R>::empty(),
    {
        SongCatalog { entries: Vec::new(), model: Ghost(Map::empty()) }
    }

    fn position(&self, prefix: &String) -> (found: Option<usize>)
        requires
            self.wf(),
        ensures
            match found {
                Some(i) => i < self.entries@.len() && self.entries@[i as int].0@ == prefix@,
                None => !self@.contains_key(prefix@),
            },
    {
        let mut i: usize = 0;
        while i < self.entries.len()
            invariant
                self.wf(),
                i <= self.entries@.len(),
                forall|j: int| 0 <= j < i ==> (#[trigger] self.entries@[j]).0@ != prefix@,
            decreases self.entries@.len() - i,
        {
            if self.entries[i].0 == *prefix {
                return Some(i);
            }
            i += 1;
        }
        None
    }

    /// Files `resource` under `prefix`, in place of what was filed there.
    pub fn insert(&mut self, prefix: String, resource: R)
        requires
            old(self).wf(),
        ensures
            final(self).wf(),
            final(self)@ == old(self)@.insert(prefix@, resource),
    {
        let ghost before = self.entries@;
        let ghost key = prefix@;
        match self.position(&prefix) {
            Some(i) => {
                self.entries.set(i, (prefix, resource));
                proof {
                    self.model@ = self.model@.insert(key, resource);
                    assert(self.model@.dom() =~= old(self).model@.dom());
                    assert forall|p: Seq<char>| #[trigger]
                        self.model@.contains_key(p) implies exists|k: int|
                        0 <= k < self.entries@.len() && (#[trigger] self.entries@[k]).0@ == p by {
                        let k = choose|k: int|
                            0 <= k < before.len() && (#[trigger] before[k]).0@ == p;
                        assert(self.entries@[k].0@ == p);
                    }
                }
            },
            None => {
                self.entries.push((prefix, resource));
                proof {
                    self.model@ = self.model@.insert(key, resource);
                    assert forall|p: Seq<char>| #[trigger]
                        self.model@.contains_key(p) implies exists|k: int|
                        0 <= k < self.entries@.len() && (#[trigger] self.entries@[k]).0@ == p by {
                        if p == key {
                            assert(self.entries@[before.len() as int].0@ == p);
                        } else {
                            let k = choose|k: int|
                                0 <= k < before.len() && (#[trigger] before[k]).0@ == p;
                            assert(self.entries@[k].0@ == p);
                        }
                    }
                }
            },
        }
    }

    /// Reads one entry of the source: it is filed under the first three
    /// characters of its name, unless the name is shorter or they are the
    /// reserved ones. Says whether it was filed.
    pub fn ingest(&mut self, name: &str, resource: R) -> (taken: bool)
        requires
            old(self).wf(),
        ensures
            final(self).wf(),
            final(self)@ == filed(old(self)@, name@, resource),
            taken == is_filed(name@),
    {
        if name.unicode_len() < 3 {
            return false;
        }
        let prefix = name.substring_char(0, 3);
        if prefix.get_char(0) == 'R' && prefix.get_char(1) == 'E' && prefix.get_char(2) == 'A' {
            assert(prefix@ =~= reserved_prefix());
            return false;
        }
        self.insert(String::from_str(prefix), resource);
        true
    }

    /// The resource filed under `key`, if there is one.
    pub fn get(&self, key: &Key) -> (found: Option<&R>)
        requires
            self.wf(),
            key.wf(),
        ensures
            match found {
                Some(r) => self@.contains_key(key.text_spec()) && *r == self@[key.text_spec()],
                None => !self@.contains_key(key.text_spec()),
            },
    {
        let text = key.text();
        match self.position(&text) {
            Some(i) => Some(&self.entries[i].1),
            None => None,
        }
    }

    /// Whether something is filed under `key`.
    pub fn contains(&self, key: &Key) -> (held: bool)
        requires
            self.wf(),
            key.wf(),
        ensures
            held == self@.contains_key(key.text_spec()),
    {
        self.get(key).is_some()
    }

    /// How many prefixes have something filed under them.
    pub fn len(&self) -> (n: usize)
        requires
            self.wf(),
        ensures
            n == self@.dom().len(),
    {
        self.entries.len()
    }

    /// Reads a whole source in order. Where two entries share their first
    /// three characters, the later one is kept.
    pub fn build(source: Vec<(String, R)>) -> (catalog: SongCatalog<R>)
        ensures
            catalog.wf(),
            catalog@ == catalog_of(source@),
    {
        let mut catalog = SongCatalog::new();
        let ghost mut done: Seq<(String, R)> = Seq::empty();
        for entry in it: source
            invariant
                catalog.wf(),
                done == source@.subrange(0, it.index() as int),
                catalog@ == catalog_of(done),
        {
            let (name, resource) = entry;
            proof {
                let next = done.push((name, resource));
                assert(next.drop_last() =~= done);
                assert(next =~= source@.subrange(0, it.index() + 1));
                done = next;
            }
            catalog.ingest(name.as_str(), resource);
        }
        assert(done =~= source@);
        catalog
    }
}

} // verus!
