use vstd::prelude::*;

verus! {

/// The terminal's reported character grid.
#[derive(Clone, Copy, Debug, PartialEq, Eq, Structural)]
pub struct Size {
    pub width: u16,
    pub height: u16,
}

/// One terminal operation, queued in order. The unverified shell drains the
/// queue and performs each operation on the real terminal; the library only
/// decides which operations are emitted, and in what order.
#[derive(Clone, Debug, PartialEq, Eq)]
pub enum TermOp {
    /// Hide the caret.
    HideCaret,
    /// Show the caret.
    ShowCaret,
    /// Save the caret position.
    SavePos,
    /// Restore the saved caret position.
    RestorePos,
    /// Move the draw position to the given column and line.
    MoveTo(u16, u16),
    /// Clear the whole screen.
    ClearAll,
    /// Clear the current line.
    ClearLine,
    /// Write the characters at the draw position.
    Text(Vec<char>),
    /// End the current line: carriage return plus line feed.
    Newline,
    /// Erase the character cell at the draw position.
    EraseCell,
    /// Flush everything queued so far to the output.
    Flush,
}

/// The mathematical shape of one terminal operation.
#[verifier::ext_equal]
pub enum TermOpView {
    HideCaret,
    ShowCaret,
    SavePos,
    RestorePos,
    MoveTo(u16, u16),
    ClearAll,
    ClearLine,
    Text(Seq<char>),
    Newline,
    EraseCell,
    Flush,
}

impl View for TermOp {
    type V = TermOpView;

    open spec fn view(&self) -> TermOpView {
        match self {
            TermOp::HideCaret => TermOpView::HideCaret,
            TermOp::ShowCaret => TermOpView::ShowCaret,
            TermOp::SavePos => TermOpView::SavePos,
            TermOp::RestorePos => TermOpView::RestorePos,
            TermOp::MoveTo(x, y) => TermOpView::MoveTo(*x, *y),
            TermOp::ClearAll => TermOpView::ClearAll,
            TermOp::ClearLine => TermOpView::ClearLine,
            TermOp::Text(t) => TermOpView::Text(t@),
            TermOp::Newline => TermOpView::Newline,
            TermOp::EraseCell => TermOpView::EraseCell,
            TermOp::Flush => TermOpView::Flush,
        }
    }
}

/// The abstract content of a queue of terminal operations.
pub open spec fn ops_view(ops: Seq<TermOp>) -> Seq<TermOpView> {
    ops.map_values(|op: TermOp| op@)
}

/// Writing one line: its text, then the line ending.
pub open spec fn line_write_ops(text: Seq<char>) -> Seq<TermOpView> {
    seq![TermOpView::Text(text), TermOpView::Newline]
}

/// A text clipped to the viewport width: at most `width` characters.
pub open spec fn clip_spec(text: Seq<char>, width: u16) -> Seq<char> {
    if text.len() <= width {
        text
    } else {
        text.take(width as int)
    }
}

/// Writing a clipped text at an absolute position without disturbing the
/// caret: hide, save, move, write, restore, show, flush.
pub open spec fn print_ops(x: u16, y: u16, text: Seq<char>, width: u16) -> Seq<TermOpView> {
    seq![
        TermOpView::HideCaret,
        TermOpView::SavePos,
        TermOpView::MoveTo(x, y),
        TermOpView::Text(clip_spec(text, width)),
        TermOpView::RestorePos,
        TermOpView::ShowCaret,
        TermOpView::Flush,
    ]
}

/// Erasing one character cell at an absolute position, with the same
/// caret-preserving framing as a positioned write.
pub open spec fn delete_ops(x: u16, y: u16) -> Seq<TermOpView> {
    seq![
        TermOpView::HideCaret,
        TermOpView::SavePos,
        TermOpView::MoveTo(x, y),
        TermOpView::EraseCell,
        TermOpView::RestorePos,
        TermOpView::ShowCaret,
        TermOpView::Flush,
    ]
}

/// The left margin marker written once per viewport row, top to bottom.
pub open spec fn margin_ops(margin: Seq<char>, rows: int) -> Seq<TermOpView>
    decreases rows,
{
    if rows <= 0 {
        Seq::empty()
    } else {
        margin_ops(margin, rows - 1) + line_write_ops(margin)
    }
}

/// The one-time screen setup: hide, save, clear, home, a margin marker on
/// every row, restore, show, flush.
pub open spec fn init_ops(height: u16) -> Seq<TermOpView> {
    seq![
        TermOpView::HideCaret,
        TermOpView::SavePos,
        TermOpView::ClearAll,
        TermOpView::MoveTo(0, 0),
    ] + margin_ops(seq!['~'], height as int) + seq![
        TermOpView::RestorePos,
        TermOpView::ShowCaret,
        TermOpView::Flush,
    ]
}

/// The renderer: it caches the viewport size and queues terminal operations
/// instead of writing them, so that everything it decides is visible in
/// `pending()`.
pub struct Terminal {
    pub size: Size,
    pub ops: Vec<TermOp>,
}

impl Terminal {
    /// The operations queued so far, in order.
    pub open spec fn pending(&self) -> Seq<TermOpView> {
        ops_view(self.ops@)
    }

    /// A renderer for a viewport of the given size, with nothing queued.
    pub fn new(width: u16, height: u16) -> (t: Terminal)
        ensures
            t.size == (Size { width, height }),
            t.pending() == Seq::<TermOpView>::empty(),
    {
        let t = Terminal { size: Size { width, height }, ops: Vec::new() };
        proof {
            assert(t.pending() =~= Seq::<TermOpView>::empty());
        }
        t
    }

    /// The cached viewport size.
    pub fn size(&self) -> (s: &Size)
        ensures
            *s == self.size,
    {
        &self.size
    }

    /// Queue one operation.
    fn emit(&mut self, op: TermOp)
        ensures
            final(self).size == old(self).size,
            final(self).pending() == old(self).pending().push(op@),
    {
        let ghost opv = op@;
        let ghost prev = self.ops@;
        self.ops.push(op);
        proof {
            assert(self.pending() =~= ops_view(prev).push(opv));
        }
    }

    /// Queue a move of the draw position.
    pub fn move_cursor_to(&mut self, x: u16, y: u16)
        ensures
            final(self).size == old(self).size,
            final(self).pending() == old(self).pending() + seq![TermOpView::MoveTo(x, y)],
    {
        self.emit(TermOp::MoveTo(x, y));
        proof {
            assert(self.pending() =~= old(self).pending() + seq![TermOpView::MoveTo(x, y)]);
        }
    }

    /// Queue a clear of the whole screen.
    pub fn clear_screen(&mut self)
        ensures
            final(self).size == old(self).size,
            final(self).pending() == old(self).pending() + seq![TermOpView::ClearAll],
    {
        self.emit(TermOp::ClearAll);
        proof {
            assert(self.pending() =~= old(self).pending() + seq![TermOpView::ClearAll]);
        }
    }

    /// Queue a clear of the current line.
    pub fn clear_current_line(&mut self)
        ensures
            final(self).size == old(self).size,
            final(self).pending() == old(self).pending() + seq![TermOpView::ClearLine],
    {
        self.emit(TermOp::ClearLine);
        proof {
            assert(self.pending() =~= old(self).pending() + seq![TermOpView::ClearLine]);
        }
    }

    /// Queue one full line: the text, then the line ending.
    pub fn write_line(&mut self, text: Vec<char>)
        ensures
            final(self).size == old(self).size,
            final(self).pending() == old(self).pending() + line_write_ops(text@),
    {
        let ghost tv = text@;
        self.emit(TermOp::Text(text));
        self.emit(TermOp::Newline);
        proof {
            assert(self.pending() =~= old(self).pending() + line_write_ops(tv));
        }
    }

    /// Queue the margin marker once per viewport row, top to bottom.
    pub fn draw_left_margin(&mut self, margin: &Vec<char>)
        ensures
            final(self).size == old(self).size,
            final(self).pending() == old(self).pending()
                + margin_ops(margin@, old(self).size.height as int),
    {
        let height = self.size.height;
        let mut i: u16 = 0;
        while i < height
            invariant
                i <= height,
                self.size == old(self).size,
                height == self.size.height,
                self.pending() == old(self).pending() + margin_ops(margin@, i as int),
            decreases height - i,
        {
            let line = copy_chars(margin);
            self.write_line(line);
            proof {
                assert(self.pending() =~= old(self).pending() + margin_ops(margin@, i + 1));
            }
            i = i + 1;
        }
    }

    /// Queue the one-time screen setup of `init_ops`.
    pub fn initialize_screen(&mut self)
        ensures
            final(self).size == old(self).size,
            final(self).pending() == old(self).pending() + init_ops(old(self).size.height),
    {
        self.emit(TermOp::HideCaret);
        self.emit(TermOp::SavePos);
        self.emit(TermOp::ClearAll);
        self.emit(TermOp::MoveTo(0, 0));
        let tilde: Vec<char> = vec!['~'];
        proof {
            assert(tilde@ =~= seq!['~']);
        }
        self.draw_left_margin(&tilde);
        self.emit(TermOp::RestorePos);
        self.emit(TermOp::ShowCaret);
        self.emit(TermOp::Flush);
        proof {
            assert(self.pending() =~= old(self).pending() + init_ops(old(self).size.height));
        }
    }

    /// Queue a caret-preserving write of the text, clipped to the viewport
    /// width, at the given position.
    pub fn print_at_pos(&mut self, x: u16, y: u16, text: &Vec<char>)
        ensures
            final(self).size == old(self).size,
            final(self).pending() == old(self).pending()
                + print_ops(x, y, text@, old(self).size.width),
    {
        let width = self.size.width;
        let len = text.len();
        let keep: usize = if len <= width as usize { len } else { width as usize };
        let mut clipped: Vec<char> = Vec::new();
        let mut i: usize = 0;
        while i < keep
            invariant
                i <= keep <= text@.len(),
                clipped@ == text@.subrange(0, i as int),
            decreases keep - i,
        {
            clipped.push(text[i]);
            proof {
                assert(clipped@ =~= text@.subrange(0, i + 1));
            }
            i = i + 1;
        }
        proof {
            assert(clipped@ =~= clip_spec(text@, width));
        }
        self.emit(TermOp::HideCaret);
        self.emit(TermOp::SavePos);
        self.emit(TermOp::MoveTo(x, y));
        self.emit(TermOp::Text(clipped));
        self.emit(TermOp::RestorePos);
        self.emit(TermOp::ShowCaret);
        self.emit(TermOp::Flush);
        proof {
            assert(self.pending() =~= old(self).pending()
                + print_ops(x, y, text@, old(self).size.width));
        }
    }

    /// Queue a caret-preserving erase of the character cell at the given
    /// position.
    pub fn delete_at_pos(&mut self, x: u16, y: u16)
        ensures
            final(self).size == old(self).size,
            final(self).pending() == old(self).pending() + delete_ops(x, y),
    {
        self.emit(TermOp::HideCaret);
        self.emit(TermOp::SavePos);
        self.emit(TermOp::MoveTo(x, y));
        self.emit(TermOp::EraseCell);
        self.emit(TermOp::RestorePos);
        self.emit(TermOp::ShowCaret);
        self.emit(TermOp::Flush);
        proof {
            assert(self.pending() =~= old(self).pending() + delete_ops(x, y));
        }
    }
}

/// A fresh vector with the same characters.
pub fn copy_chars(text: &Vec<char>) -> (r: Vec<char>)
    ensures
        r@ == text@,
{
    let mut r: Vec<char> = Vec::new();
    let mut i: usize = 0;
    while i < text.len()
        invariant
            i <= text@.len(),
            r@ == text@.subrange(0, i as int),
        decreases text@.len() - i,
    {
        r.push(text[i]);
        proof {
            assert(r@ =~= text@.subrange(0, i + 1));
        }
        i = i + 1;
    }
    proof {
        assert(r@ =~= text@);
    }
    r
}

} // verus!
