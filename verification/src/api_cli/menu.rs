//! The messages of the console client's menus.

use crate::text::{concat, owned};
use vstd::prelude::*;

verus! {

/// The wording of the menus.
pub struct MenuHelper;

impl MenuHelper {
    /// The "No items" message for a kind of item.
    pub fn no_items(item_type: &str) -> (r: String)
        ensures
            r@ == "No "@ + item_type@ + " found."@,
    {
        let mut r = concat("No ", item_type);
        r.append(" found.");
        r
    }

    /// The "Cancelled" message.
    pub fn cancelled() -> (r: String)
        ensures
            r@ == "Operation cancelled."@,
    {
        owned("Operation cancelled.")
    }

    /// The columns of a table header or the values of a table row, in one
    /// line with bars between them.
    pub open spec fn joined_cells(cells: Seq<Seq<char>>) -> Seq<char>
        decreases cells.len(),
    {
        if cells.len() == 0 {
            Seq::empty()
        } else if cells.len() == 1 {
            cells[0]
        } else {
            Self::joined_cells(cells.drop_last()) + " │ "@ + cells.last()
        }
    }

    /// The line of a table row.
    pub fn table_row(values: &Vec<String>) -> (r: String)
        ensures
            r@ == Self::joined_cells(crate::text::texts(values@)),
    {
        let ghost all = crate::text::texts(values@);
        let mut r = String::new();
        let mut i: usize = 0;
        assert(all.subrange(0, 0) =~= Seq::<Seq<char>>::empty());
        while i < values.len()
            invariant
                i <= values.len(),
                all == crate::text::texts(values@),
                r@ == Self::joined_cells(all.subrange(0, i as int)),
            decreases values.len() - i,
        {
            assert(all.subrange(0, i + 1).drop_last() =~= all.subrange(0, i as int));
            assert(all.subrange(0, i + 1).last() == values@[i as int]@);
            if i > 0 {
                r.append(" │ ");
            } else {
                assert(r@ + values@[i as int]@ =~= values@[i as int]@);
            }
            r.append(values[i].as_str());
            i = i + 1;
        }
        assert(all.subrange(0, i as int) =~= all);
        r
    }
}

} // verus!
