//! An immutable, ordered, fixed-length snapshot of font families, with
//! indexed access and an external iteration protocol.

use vstd::prelude::*;

use crate::error::Error;
use crate::font::TableView;
use crate::font_family::FontFamily;

verus! {

/// An ordered, fixed-length sequence of font families captured at query
/// time. Snapshot semantics: later system font changes are not observed
/// unless the system is re-queried.
pub struct FontCollection {
    families: Vec<FontFamily>,
}

impl View for FontCollection {
    type V = Seq<Seq<Seq<TableView>>>;

    closed spec fn view(&self) -> Seq<Seq<Seq<TableView>>> {
        Seq::new(self.families@.len(), |i: int| self.families@[i]@)
    }
}

impl FontCollection {
    /// A collection over the given families, in order.
    pub fn new(families: Vec<FontFamily>) -> (r: FontCollection)
        ensures
            r@.len() == families@.len(),
            forall|i: int| 0 <= i < families@.len() ==> r@[i] == families@[i]@,
    {
        FontCollection { families }
    }

    /// How many families the snapshot holds; fixed after construction.
    pub fn get_font_family_count(&self) -> (r: usize)
        ensures
            r == self@.len(),
    {
        self.families.len()
    }

    /// The family at the given dense 0-based index. The index carries no
    /// semantic meaning and is not stable across distinct queries.
    pub fn get_font_family(&self, index: usize) -> (r: Result<&FontFamily, Error>)
        ensures
            index < self@.len() ==> (r matches Ok(f) && f@ == self@[index as int]),
            index >= self@.len() ==> r == Err::<&FontFamily, Error>(Error::Index),
    {
        if index >= self.families.len() {
            return Err(Error::Index);
        }
        let f = &self.families[index];
        proof {
            assert(self@[index as int] == self.families@[index as int]@);
        }
        Ok(f)
    }

    /// A fresh cursor over this collection; iteration position is external
    /// to the collection, so independent cursors may run at once.
    pub fn iter<'a>(&'a self) -> (r: FontCollectionIter<'a>)
        ensures
            r.collection == self,
            r.index == 0,
    {
        FontCollectionIter { collection: self, index: 0 }
    }

    /// All families, collected by running the iteration protocol to its
    /// end: exactly `get_font_family_count()` items, in index order, each
    /// the family direct indexed access yields.
    pub fn families<'a>(&'a self) -> (r: Vec<&'a FontFamily>)
        ensures
            r@.len() == self@.len(),
            forall|i: int| 0 <= i < self@.len() ==> #[trigger] r@[i]@ == self@[i],
    {
        let n = self.get_font_family_count();
        let mut it = self.iter();
        let mut out: Vec<&FontFamily> = Vec::new();
        let mut i: usize = 0;
        while i < n
            invariant
                i <= n,
                n == self@.len(),
                it.collection == self,
                it.index == i,
                out@.len() == i,
                forall|k: int| 0 <= k < i ==> #[trigger] out@[k]@ == self@[k],
            decreases n - i,
        {
            match it.next() {
                Some(f) => {
                    out.push(f);
                },
                None => {
                    proof {
                        assert(false);
                    }
                },
            }
            i += 1;
        }
        out
    }
}

/// An external cursor over one collection.
pub struct FontCollectionIter<'a> {
    pub collection: &'a FontCollection,
    pub index: usize,
}

impl<'a> FontCollectionIter<'a> {
    /// The next family in index order, or the end of the sequence once
    /// every index has been yielded.
    pub fn next(&mut self) -> (r: Option<&'a FontFamily>)
        ensures
            final(self).collection == old(self).collection,
            (if old(self).index < old(self).collection@.len() {
                &&& final(self).index == old(self).index + 1
                &&& r matches Some(f) && f@ == old(self).collection@[old(self).index as int]
            } else {
                &&& final(self).index == old(self).index
                &&& r is None
            }),
    {
        let collection = self.collection;
        if self.index < collection.get_font_family_count() {
            match collection.get_font_family(self.index) {
                Ok(f) => {
                    self.index += 1;
                    Some(f)
                },
                Err(_) => {
                    proof {
                        assert(false);
                    }
                    None
                },
            }
        } else {
            None
        }
    }

    /// How many families remain to be yielded.
    pub fn len(&self) -> (r: usize)
        ensures
            r == if self.index < self.collection@.len() {
                self.collection@.len() - self.index
            } else {
                0
            },
    {
        let n = self.collection.get_font_family_count();
        if self.index < n {
            n - self.index
        } else {
            0
        }
    }
}

} // verus!
