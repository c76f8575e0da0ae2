//! The registry of documents: a name-to-document map with case-sensitive
//! names, at most one document per name, and last-write-wins replacement.

use vstd::prelude::*;
use crate::document::Document;

verus! {

/// The registry.  Its mathematical value is the map from names to documents.
pub struct Store {
    documents: Vec<(String, Document)>,
}

/// The map a list of named documents denotes: later entries win.
pub open spec fn pairs_map(s: Seq<(String, Document)>) -> Map<Seq<char>, Document>
    decreases s.len(),
{
    if s.len() == 0 {
        Map::empty()
    } else {
        pairs_map(s.drop_last()).insert(s.last().0@, s.last().1)
    }
}

/// Whether the names of a list are pairwise distinct.
pub open spec fn names_unique(s: Seq<(String, Document)>) -> bool {
    forall|i: int, j: int|
        0 <= i < j < s.len() ==> (#[trigger] s[i].0@) != (#[trigger] s[j].0@)
}

impl View for Store {
    type V = Map<Seq<char>, Document>;

    closed spec fn view(&self) -> Map<Seq<char>, Document> {
        pairs_map(self.documents@)
    }
}

/// An entry's name is in the map, bound to its document, when names are
/// pairwise distinct.
proof fn lemma_pairs_map_index(s: Seq<(String, Document)>, i: int)
    requires
        names_unique(s),
        0 <= i < s.len(),
    ensures
        pairs_map(s).contains_key(s[i].0@),
        pairs_map(s)[s[i].0@] == s[i].1,
    decreases s.len(),
{
    if i == s.len() - 1 {
    } else {
        assert(names_unique(s.drop_last()));
        lemma_pairs_map_index(s.drop_last(), i);
        assert(s.drop_last()[i] == s[i]);
        assert(s[i].0@ != s.last().0@);
    }
}

/// Every key of the map names some entry.
proof fn lemma_pairs_map_key_has_index(s: Seq<(String, Document)>, key: Seq<char>)
    requires
        pairs_map(s).contains_key(key),
    ensures
        exists|i: int| 0 <= i < s.len() && (#[trigger] s[i].0@) == key,
    decreases s.len(),
{
    if s.len() == 0 {
    } else if s.last().0@ == key {
        assert(s[s.len() - 1].0@ == key);
    } else {
        lemma_pairs_map_key_has_index(s.drop_last(), key);
        let i = choose|i: int| 0 <= i < s.drop_last().len() && (#[trigger] s.drop_last()[i].0@)
            == key;
        assert(s[i].0@ == key);
    }
}

/// Replacing the entry that holds a name denotes inserting under that name.
proof fn lemma_pairs_map_update(s: Seq<(String, Document)>, i: int, p: (String, Document))
    requires
        names_unique(s),
        0 <= i < s.len(),
        s[i].0@ == p.0@,
    ensures
        pairs_map(s.update(i, p)) =~= pairs_map(s).insert(p.0@, p.1),
    decreases s.len(),
{
    if i == s.len() - 1 {
        assert(s.update(i, p).drop_last() =~= s.drop_last());
        assert(s.update(i, p).last() == p);
    } else {
        assert(names_unique(s.drop_last()));
        assert(s.drop_last()[i] == s[i]);
        lemma_pairs_map_update(s.drop_last(), i, p);
        assert(s.update(i, p).drop_last() =~= s.drop_last().update(i, p));
        assert(s.update(i, p).last() == s.last());
        assert(s[i].0@ != s.last().0@);
    }
}

impl Store {
    /// Whether the registry holds at most one document per name.
    pub closed spec fn wf(&self) -> bool {
        names_unique(self.documents@)
    }

    /// The entries, names and documents, in insertion order.
    pub closed spec fn entries(&self) -> Seq<(String, Document)> {
        self.documents@
    }

    /// An empty registry.
    pub fn new() -> (s: Store)
        ensures
            s.wf(),
            s@ =~= Map::<Seq<char>, Document>::empty(),
            s.entries().len() == 0,
    {
        Store { documents: Vec::new() }
    }

    /// The entries, for reading; each name is bound to its document in the
    /// registry's map.
    pub fn documents(&self) -> (r: &Vec<(String, Document)>)
        requires
            self.wf(),
        ensures
            r@ == self.entries(),
            forall|i: int|
                0 <= i < r@.len() ==> self@.contains_key((#[trigger] r@[i]).0@) && self@[r@[i].0@]
                    == r@[i].1,
    {
        proof {
            assert forall|i: int| 0 <= i < self.documents@.len() implies self@.contains_key(
                (#[trigger] self.documents@[i]).0@,
            ) && self@[self.documents@[i].0@] == self.documents@[i].1 by {
                lemma_pairs_map_index(self.documents@, i);
            }
        }
        &self.documents
    }

    /// The document under a name, if one is registered.
    #[verifier::loop_isolation(false)]
    pub fn get<'a>(&'a self, name: &String) -> (r: Option<&'a Document>)
        requires
            self.wf(),
        ensures
            match r {
                Option::Some(d) => self@.contains_key(name@) && *d == self@[name@],
                Option::None => !self@.contains_key(name@),
            },
    {
        let n = self.documents.len();
        for i in 0..n
            invariant
                forall|k: int| 0 <= k < i ==> (#[trigger] self.documents@[k].0@) != name@,
        {
            if self.documents[i].0.eq(name) {
                proof {
                    lemma_pairs_map_index(self.documents@, i as int);
                }
                return Some(&self.documents[i].1);
            }
        }
        proof {
            if self@.contains_key(name@) {
                lemma_pairs_map_key_has_index(self.documents@, name@);
            }
        }
        None
    }

    /// Registers a document under a name.  A prior document under the same
    /// name is replaced outright and dropped — last write wins, no merge.
    #[verifier::loop_isolation(false)]
    pub fn add_document(&mut self, name: String, document: Document)
        requires
            old(self).wf(),
        ensures
            final(self).wf(),
            final(self)@ =~= old(self)@.insert(name@, document),
    {
        let ghost gname = name@;
        let ghost gdoc = document;
        let n = self.documents.len();
        for i in 0..n
            invariant
                self.documents@ == old(self).documents@,
                name@ == gname,
                document == gdoc,
                forall|k: int| 0 <= k < i ==> (#[trigger] self.documents@[k].0@) != name@,
        {
            if self.documents[i].0.eq(&name) {
                proof {
                    lemma_pairs_map_update(self.documents@, i as int, (name, document));
                }
                self.documents.set(i, (name, document));
                proof {
                    assert(names_unique(self.documents@));
                }
                return ;
            }
        }
        self.documents.push((name, document));
        proof {
            assert(self.documents@.drop_last() =~= old(self).documents@);
            assert(self.documents@.last() == (name, gdoc));
            assert(names_unique(self.documents@));
        }
    }
}

} // verus!
