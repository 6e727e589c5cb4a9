//! A single face variant within a family, carrying zero or more localized
//! informational string tables keyed by [`InformationalStringId`].

use vstd::prelude::*;

use crate::localized_strings::{InformationalStringId, LocalizedStrings, RowView};

verus! {

/// One informational string table of a font, under its category.
pub struct FontTable {
    pub id: InformationalStringId,
    pub strings: LocalizedStrings,
}

/// The mathematical content of one informational string table.
pub struct TableView {
    pub id: InformationalStringId,
    pub rows: Seq<RowView>,
}

impl View for FontTable {
    type V = TableView;

    open spec fn view(&self) -> TableView {
        TableView { id: self.id, rows: self.strings@ }
    }
}

/// The first table at or after `i` keyed by `id`.
pub open spec fn find_table_from(tables: Seq<TableView>, id: InformationalStringId, i: int) -> Option<
    int,
>
    decreases tables.len() - i,
{
    if i < 0 || i >= tables.len() {
        None
    } else if tables[i].id == id {
        Some(i)
    } else {
        find_table_from(tables, id, i + 1)
    }
}

/// The first table keyed by `id`, or nothing when the font carries none.
pub open spec fn spec_find_table(tables: Seq<TableView>, id: InformationalStringId) -> Option<int> {
    find_table_from(tables, id, 0)
}

/// A single face variant: a weight/style/stretch combination within a
/// family.
pub struct Font {
    tables: Vec<FontTable>,
}

impl View for Font {
    type V = Seq<TableView>;

    closed spec fn view(&self) -> Seq<TableView> {
        Seq::new(self.tables@.len(), |i: int| self.tables@[i]@)
    }
}

impl Font {
    /// A font carrying the given informational string tables, in order.
    pub fn new(tables: Vec<FontTable>) -> (r: Font)
        ensures
            r@.len() == tables@.len(),
            forall|i: int| 0 <= i < tables@.len() ==> r@[i] == tables@[i]@,
    {
        Font { tables }
    }

    /// The localized string table of the given category, or nothing when
    /// the font does not carry that metadata kind.
    pub fn get_informational_strings(&self, id: InformationalStringId) -> (r: Option<
        &LocalizedStrings,
    >)
        ensures
            match spec_find_table(self@, id) {
                Some(i) => r matches Some(t) && t@ == self@[i].rows,
                None => r is None,
            },
    {
        let n = self.tables.len();
        let mut k: usize = 0;
        while k < n
            invariant
                k <= n,
                n == self@.len(),
                self@.len() == self.tables@.len(),
                forall|j: int| 0 <= j < self@.len() ==> #[trigger] self@[j] == self.tables@[j]@,
                find_table_from(self@, id, 0) == find_table_from(self@, id, k as int),
            decreases n - k,
        {
            let table = &self.tables[k];
            if table.id == id {
                proof {
                    assert(self@[k as int].id == id);
                    assert(find_table_from(self@, id, k as int) == Some(k as int));
                }
                return Some(&table.strings);
            }
            proof {
                assert(self@[k as int].id != id);
                assert(find_table_from(self@, id, k as int) == find_table_from(
                    self@,
                    id,
                    k + 1,
                ));
            }
            k += 1;
        }
        proof {
            assert(find_table_from(self@, id, k as int) is None);
        }
        None
    }
}

} // verus!
