//! An ordered, fixed-size group of fonts sharing one family identity, with
//! indexed access and an external iteration protocol.

use vstd::prelude::*;

use crate::error::Error;
use crate::font::{Font, TableView};

verus! {

/// How face variants are grouped into families by the higher capability
/// tiers.
#[derive(Debug, Clone, Copy, PartialEq, Eq, Hash, Structural)]
pub enum FontFamilyModel {
    /// Group strictly by typographic family name.
    Typographic,
    /// Additionally fold legacy weight/stretch/style variants into the
    /// family, as historical applications expect.
    WeightStretchStyle,
}

/// The native code of each family grouping model.
pub open spec fn font_family_model_code(m: FontFamilyModel) -> i32 {
    match m {
        FontFamilyModel::Typographic => 0,
        FontFamilyModel::WeightStretchStyle => 1,
    }
}

impl FontFamilyModel {
    /// The numeric code the native enumeration assigns to this model.
    pub fn native_code(self) -> (r: i32)
        ensures
            r == font_family_model_code(self),
    {
        match self {
            FontFamilyModel::Typographic => 0,
            FontFamilyModel::WeightStretchStyle => 1,
        }
    }
}

/// An immutable, ordered, fixed-length sequence of fonts belonging to one
/// family name group.
pub struct FontFamily {
    fonts: Vec<Font>,
}

impl View for FontFamily {
    type V = Seq<Seq<TableView>>;

    closed spec fn view(&self) -> Seq<Seq<TableView>> {
        Seq::new(self.fonts@.len(), |i: int| self.fonts@[i]@)
    }
}

impl FontFamily {
    /// A family over the given fonts, in order.
    pub fn new(fonts: Vec<Font>) -> (r: FontFamily)
        ensures
            r@.len() == fonts@.len(),
            forall|i: int| 0 <= i < fonts@.len() ==> r@[i] == fonts@[i]@,
    {
        FontFamily { fonts }
    }

    /// How many fonts the family holds; fixed after construction.
    pub fn get_font_count(&self) -> (r: usize)
        ensures
            r == self@.len(),
    {
        self.fonts.len()
    }

    /// The font at the given dense 0-based index.
    pub fn get_font(&self, index: usize) -> (r: Result<&Font, Error>)
        ensures
            index < self@.len() ==> (r matches Ok(f) && f@ == self@[index as int]),
            index >= self@.len() ==> r == Err::<&Font, Error>(Error::Index),
    {
        if index >= self.fonts.len() {
            return Err(Error::Index);
        }
        let f = &self.fonts[index];
        proof {
            assert(self@[index as int] == self.fonts@[index as int]@);
        }
        Ok(f)
    }

    /// A fresh cursor over this family; iteration position is external to
    /// the family, so independent cursors may run at once.
    pub fn iter<'a>(&'a self) -> (r: FontFamilyIter<'a>)
        ensures
            r.family == self,
            r.index == 0,
    {
        FontFamilyIter { family: self, index: 0 }
    }

    /// All fonts, collected by running the iteration protocol to its end:
    /// exactly `get_font_count()` items, in index order, each the font
    /// direct indexed access yields.
    pub fn fonts<'a>(&'a self) -> (r: Vec<&'a Font>)
        ensures
            r@.len() == self@.len(),
            forall|i: int| 0 <= i < self@.len() ==> #[trigger] r@[i]@ == self@[i],
    {
        let n = self.get_font_count();
        let mut it = self.iter();
        let mut out: Vec<&Font> = Vec::new();
        let mut i: usize = 0;
        while i < n
            invariant
                i <= n,
                n == self@.len(),
                it.family == self,
                it.index == i,
                out@.len() == i,
                forall|k: int| 0 <= k < i ==> #[trigger] out@[k]@ == self@[k],
            decreases n - i,
        {
            match it.next() {
                Some(f) => {
                    out.push(f);
                },
                None => {
                    proof {
                        assert(false);
                    }
                },
            }
            i += 1;
        }
        out
    }
}

/// An external cursor over one family.
pub struct FontFamilyIter<'a> {
    pub family: &'a FontFamily,
    pub index: usize,
}

impl<'a> FontFamilyIter<'a> {
    /// The next font in index order, or the end of the sequence once every
    /// index has been yielded.
    pub fn next(&mut self) -> (r: Option<&'a Font>)
        ensures
            final(self).family == old(self).family,
            (if old(self).index < old(self).family@.len() {
                &&& final(self).index == old(self).index + 1
                &&& r matches Some(f) && f@ == old(self).family@[old(self).index as int]
            } else {
                &&& final(self).index == old(self).index
                &&& r is None
            }),
    {
        let family = self.family;
        if self.index < family.get_font_count() {
            match family.get_font(self.index) {
                Ok(f) => {
                    self.index += 1;
                    Some(f)
                },
                Err(_) => {
                    proof {
                        assert(false);
                    }
                    None
                },
            }
        } else {
            None
        }
    }

    /// How many fonts remain to be yielded.
    pub fn len(&self) -> (r: usize)
        ensures
            r == if self.index < self.family@.len() {
                self.family@.len() - self.index
            } else {
                0
            },
    {
        let n = self.family.get_font_count();
        if self.index < n {
            n - self.index
        } else {
            0
        }
    }
}

} // verus!
