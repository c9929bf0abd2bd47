//! Tables of amounts that definitions refer to.

use vstd::prelude::*;
use crate::error::{outcome, EntityKind, ErrorView, PywrError};
use crate::state::{find_keyed, keyed};
use crate::value::Value;

verus! {

/// A table of amounts, each under a key.
#[derive(Clone, Debug, PartialEq, Eq)]
pub struct LoadedTable {
    pub name: String,
    pub entries: Vec<(String, Value)>,
}

/// The tables that have been loaded.
#[derive(Clone, Debug, PartialEq, Eq)]
pub struct LoadedTableCollection {
    pub tables: Vec<LoadedTable>,
}

/// The amount under `index` in the first table named `table`.
pub open spec fn table_lookup(
    tables: Seq<LoadedTable>,
    table: Seq<char>,
    index: Seq<char>,
) -> Result<
    Value,
    ErrorView,
>
    decreases tables.len(),
{
    if tables.len() == 0 {
        Err(ErrorView::NotFound(EntityKind::Table, table))
    } else if tables[0].name@ == table {
        match keyed(tables[0].entries@, index) {
            Some(v) => Ok(v),
            None => Err(ErrorView::NotFound(EntityKind::Column, index)),
        }
    } else {
        table_lookup(tables.skip(1), table, index)
    }
}

impl LoadedTableCollection {
    /// A collection without tables.
    pub fn new() -> (r: Self)
        ensures
            r.tables@ == Seq::<LoadedTable>::empty(),
    {
        Self { tables: Vec::new() }
    }

    /// Adds a table after those that are there.
    pub fn add(&mut self, table: LoadedTable)
        ensures
            final(self).tables@ == old(self).tables@.push(table),
    {
        self.tables.push(table);
    }

    /// The amount under `index` in the first table named `table`.
    ///
    /// Fails with `NotFound` where there is no such table, and where the table
    /// has no such key.
    pub fn get_scalar(&self, table: &str, index: &str) -> (r: Result<Value, PywrError>)
        ensures
            outcome(r) == table_lookup(self.tables@, table@, index@),
    {
        let wanted = table.to_string();
        let key = index.to_string();
        let mut i: usize = 0;
        assert(self.tables@.skip(0) =~= self.tables@);
        while i < self.tables.len()
            invariant
                i <= self.tables.len(),
                wanted@ == table@,
                key@ == index@,
                table_lookup(self.tables@, table@, index@) == table_lookup(
                    self.tables@.skip(i as int),
                    table@,
                    index@,
                ),
            decreases self.tables.len() - i,
        {
            assert(self.tables@.skip(i as int)[0] == self.tables@[i as int]);
            if self.tables[i].name == wanted {
                return match find_keyed(&self.tables[i].entries, &key) {
                    Some(v) => Ok(v),
                    None => Err(PywrError::NotFound(EntityKind::Column, key)),
                };
            }
            assert(self.tables@.skip(i as int).skip(1) =~= self.tables@.skip(i + 1));
            i += 1;
        }
        Err(PywrError::NotFound(EntityKind::Table, wanted))
    }
}

} // verus!
