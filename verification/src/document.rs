use vstd::prelude::*;

use crate::row::Row;

verus! {

/// The ordered rows of text the editor displays and edits; insertion order
/// is line order. An empty document is valid and renders as an all-blank
/// viewport.
pub struct Document {
    pub rows: Vec<Row>,
}

impl View for Document {
    type V = Seq<Seq<char>>;

    open spec fn view(&self) -> Seq<Seq<char>> {
        self.rows@.map_values(|r: Row| r@)
    }
}

impl Document {
    /// An empty document.
    pub fn new() -> (d: Document)
        ensures
            d@ == Seq::<Seq<char>>::empty(),
    {
        let d = Document { rows: Vec::new() };
        proof {
            assert(d@ =~= Seq::<Seq<char>>::empty());
        }
        d
    }

    /// The number of lines.
    pub fn len(&self) -> (n: usize)
        ensures
            n == self@.len(),
    {
        self.rows.len()
    }

    /// Append one row at the end, as the new last line.
    pub fn push_row(&mut self, row: Row)
        ensures
            final(self)@ == old(self)@.push(row@),
    {
        let ghost rv = row@;
        self.rows.push(row);
        proof {
            assert(self@ =~= old(self)@.push(rv));
        }
    }

    /// Total lookup by line index: the row exactly when the index is in
    /// range, and nothing otherwise.
    pub fn row(&self, index: usize) -> (r: Option<&Row>)
        ensures
            r is Some <==> index < self@.len(),
            r matches Some(row) ==> row@ == self@[index as int],
    {
        if index < self.rows.len() {
            Some(&self.rows[index])
        } else {
            None
        }
    }
}

} // verus!
