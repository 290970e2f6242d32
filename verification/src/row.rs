use vstd::prelude::*;

verus! {

/// One line of document text. The editor treats text as a sequence of
/// single-width characters; a row knows nothing about its neighbours.
pub struct Row {
    pub content: Vec<char>,
}

impl View for Row {
    type V = Seq<char>;

    open spec fn view(&self) -> Seq<char> {
        self.content@
    }
}

/// The clipped sub-range of a line that fits in `[start, end)`: the end is
/// first clipped to the content length, then the start to the clipped end,
/// so any arguments at all yield a well-formed (possibly empty) range.
pub open spec fn render_spec(content: Seq<char>, start: int, end: int) -> Seq<char> {
    let e = if end <= content.len() { end } else { content.len() as int };
    let s = if start <= e { start } else { e };
    if s < 0 {
        content.subrange(0, e)
    } else {
        content.subrange(s, e)
    }
}

impl Row {
    /// A row holding the given characters.
    pub fn new(content: Vec<char>) -> (r: Row)
        ensures
            r@ == content@,
    {
        Row { content }
    }

    /// The number of characters in the row.
    pub fn len(&self) -> (n: usize)
        ensures
            n == self@.len(),
    {
        self.content.len()
    }

    /// The part of the row that falls inside `[start, end)`, with the end
    /// clipped to the content length; empty whenever `start` is at or past
    /// the clipped end. Never reads outside the content.
    pub fn render(&self, start: usize, end: usize) -> (r: Vec<char>)
        ensures
            r@ == render_spec(self@, start as int, end as int),
            r@.len() == if start as int <= end as int && start as int <= self@.len() {
                (if end as int <= self@.len() { end as int } else { self@.len() as int }) - start
            } else {
                0
            },
    {
        let len = self.content.len();
        let e: usize = if end <= len { end } else { len };
        let s: usize = if start <= e { start } else { e };
        let mut r: Vec<char> = Vec::new();
        let mut i: usize = s;
        while i < e
            invariant
                s <= i <= e <= self.content@.len(),
                r@ == self.content@.subrange(s as int, i as int),
            decreases e - i,
        {
            r.push(self.content[i]);
            proof {
                assert(r@ =~= self.content@.subrange(s as int, i + 1));
            }
            i = i + 1;
        }
        proof {
            assert(r@ =~= render_spec(self@, start as int, end as int));
        }
        r
    }
}

} // verus!
