use vstd::prelude::*;

use crate::document::Document;
use crate::row::render_spec;
use crate::terminal::Terminal;
use crate::terminal::TermOpView;
use crate::terminal::delete_ops;
use crate::terminal::line_write_ops;
use crate::terminal::print_ops;

verus! {

/// The logical insertion and navigation point, in viewport coordinates:
/// `x` is the column, `y` the line.
#[derive(Clone, Copy, Debug, PartialEq, Eq, Structural)]
pub struct Cursor {
    pub x: u16,
    pub y: u16,
}

/// The identity of one pressed key, as far as the editor distinguishes
/// them; every key the editor does not know falls under `Other`.
#[derive(Clone, Copy, Debug, PartialEq, Eq, Structural)]
pub enum KeyCode {
    Char(char),
    Left,
    Right,
    Up,
    Down,
    Backspace,
    Delete,
    Other,
}

/// One raw key event: a key identity, and whether the modifier set is
/// exactly the control key.
#[derive(Clone, Copy, Debug, PartialEq, Eq, Structural)]
pub struct KeyEvent {
    pub code: KeyCode,
    pub ctrl: bool,
}

/// What one key event asks the editor to do.
#[derive(Clone, Copy, Debug, PartialEq, Eq, Structural)]
pub enum Command {
    /// End the run loop at its next check.
    Quit,
    /// Write the character at the cursor and advance.
    Insert(char),
    /// Move the cursor by the given column and line deltas.
    MoveRel(i16, i16),
    /// Move the cursor one column left, then erase at the new position.
    Backspace,
    /// Erase at the cursor without moving it.
    Delete,
}

/// The characters the editor recognises as printable input: lowercase
/// letters, digits, and the four marks `~`, backquote, `-`, `=`.
pub open spec fn mapped_char(c: char) -> bool {
    ('a' as int <= c as int && c as int <= 'z' as int)
        || ('0' as int <= c as int && c as int <= '9' as int)
        || c == '~' || c == '`' || c == '-' || c == '='
}

/// What a key does when the control-quit chord did not fire: a recognised
/// character inserts itself, the arrows move by one, backspace moves left
/// and erases, delete erases in place, and anything else inserts the
/// placeholder glyph `?`.
pub open spec fn key_command(key: KeyCode) -> Command {
    match key {
        KeyCode::Char(c) => if mapped_char(c) {
            Command::Insert(c)
        } else {
            Command::Insert('?')
        },
        KeyCode::Left => Command::MoveRel(-1i16, 0i16),
        KeyCode::Right => Command::MoveRel(1i16, 0i16),
        KeyCode::Up => Command::MoveRel(0i16, -1i16),
        KeyCode::Down => Command::MoveRel(0i16, 1i16),
        KeyCode::Backspace => Command::Backspace,
        KeyCode::Delete => Command::Delete,
        KeyCode::Other => Command::Insert('?'),
    }
}

/// The whole dispatcher: control plus `q` quits; any other event acts by
/// its key alone.
pub open spec fn dispatch_spec(ev: KeyEvent) -> Command {
    if ev.ctrl && ev.code == KeyCode::Char('q') {
        Command::Quit
    } else {
        key_command(ev.code)
    }
}

/// Where the cursor column lands after a relative move: the new column is
/// taken only when it stays within `[0, width]`; at either bound the move
/// is a no-op, not a clamp.
pub open spec fn moved_x(x: u16, dx: i16, width: u16) -> u16 {
    if 0 <= x + dx <= width {
        (x + dx) as u16
    } else {
        x
    }
}

/// Where the cursor line lands after a relative move: the new line is
/// taken whenever it is not negative; there is no upper bound.
pub open spec fn moved_y(y: u16, dy: i16) -> u16 {
    if y + dy >= 0 {
        (y + dy) as u16
    } else {
        y
    }
}

/// Where the cursor lands after writing `len` characters at it: advanced
/// by `len` while that stays within the width, else wrapped to the start
/// of the next line.
pub open spec fn advanced_cursor(c: Cursor, len: int, width: u16) -> Cursor {
    if c.x + len <= width {
        Cursor { x: (c.x + len) as u16, y: c.y }
    } else {
        Cursor { x: 0, y: (c.y + 1) as u16 }
    }
}

/// The version banner written when the document has no row for the
/// banner line.
pub open spec fn banner_text() -> Seq<char> {
    seq![
        'H', 'e', 'c', 't', 'o', ' ', 'e', 'd', 'i', 't', 'o', 'r', ' ', '-', '-', ' ',
        'v', 'e', 'r', 's', 'i', 'o', 'n', ' ', '0', '.', '1', '.', '0',
    ]
}

/// The farewell line written on quit.
pub open spec fn goodbye_text() -> Seq<char> {
    seq!['G', 'o', 'o', 'd', 'b', 'y', 'e', '.']
}

/// What one visual line of a frame emits: clear the line, then either the
/// clipped document row, or the banner on the banner line, or a tilde.
pub open spec fn line_ops(doc: Seq<Seq<char>>, width: u16, height: u16, i: int) -> Seq<
    TermOpView,
> {
    seq![TermOpView::ClearLine] + if 0 <= i < doc.len() {
        line_write_ops(render_spec(doc[i], 0, width as int))
    } else if i == height as int / 3 {
        print_ops(3, (height as int / 3) as u16, banner_text(), width)
    } else {
        line_write_ops(seq!['~'])
    }
}

/// The first `n` visual lines of a frame, in order.
pub open spec fn rows_ops(doc: Seq<Seq<char>>, width: u16, height: u16, n: int) -> Seq<
    TermOpView,
>
    decreases n,
{
    if n <= 0 {
        Seq::empty()
    } else {
        rows_ops(doc, width, height, n - 1) + line_ops(doc, width, height, n - 1)
    }
}

/// Everything one redraw emits, as a function of the state alone: home the
/// draw position; then either the farewell (on quit) or every visual line;
/// then move the caret to the cursor.
pub open spec fn frame_ops(
    doc: Seq<Seq<char>>,
    cursor: Cursor,
    size: crate::terminal::Size,
    quit: bool,
) -> Seq<TermOpView> {
    seq![TermOpView::MoveTo(0, 0)] + (if quit {
        seq![TermOpView::ClearAll] + line_write_ops(goodbye_text())
    } else {
        rows_ops(doc, size.width, size.height, size.height as int - 1)
    }) + seq![TermOpView::MoveTo(cursor.x, cursor.y)]
}

/// Rendering is a pure function of the state: two editors that agree on
/// document content, cursor, viewport size and quit flag emit the same
/// frame, so redrawing an unchanged state emits identical output both
/// times.
pub proof fn lemma_redraw_deterministic(a: Editor, b: Editor)
    requires
        a.document@ == b.document@,
        a.cursor == b.cursor,
        a.terminal.size == b.terminal.size,
        a.should_quit == b.should_quit,
    ensures
        frame_ops(a.document@, a.cursor, a.terminal.size, a.should_quit) == frame_ops(
            b.document@,
            b.cursor,
            b.terminal.size,
            b.should_quit,
        ),
{
}

/// The version banner, as characters.
pub fn banner() -> (v: Vec<char>)
    ensures
        v@ == banner_text(),
{
    let v: Vec<char> = vec![
        'H', 'e', 'c', 't', 'o', ' ', 'e', 'd', 'i', 't', 'o', 'r', ' ', '-', '-', ' ',
        'v', 'e', 'r', 's', 'i', 'o', 'n', ' ', '0', '.', '1', '.', '0',
    ];
    proof {
        assert(v@ =~= banner_text());
    }
    v
}

/// The farewell line, as characters.
pub fn goodbye() -> (v: Vec<char>)
    ensures
        v@ == goodbye_text(),
{
    let v: Vec<char> = vec!['G', 'o', 'o', 'd', 'b', 'y', 'e', '.'];
    proof {
        assert(v@ =~= goodbye_text());
    }
    v
}

/// The editor: the document, the cursor, the renderer, and the quit flag,
/// all owned by one run loop.
pub struct Editor {
    pub should_quit: bool,
    pub terminal: Terminal,
    pub cursor: Cursor,
    pub document: Document,
}

impl Editor {
    /// The cursor column never leaves the viewport: `0 <= x <= width`.
    pub open spec fn wf(&self) -> bool {
        self.cursor.x <= self.terminal.size.width
    }

    /// An editor over the given document in a viewport of the given size,
    /// with the cursor at the origin and nothing emitted yet.
    pub fn new(document: Document, width: u16, height: u16) -> (e: Editor)
        ensures
            e.wf(),
            !e.should_quit,
            e.cursor == (Cursor { x: 0, y: 0 }),
            e.document == document,
            e.terminal.size == (crate::terminal::Size { width, height }),
            e.terminal.pending() == Seq::<TermOpView>::empty(),
    {
        Editor {
            should_quit: false,
            terminal: Terminal::new(width, height),
            cursor: Cursor { x: 0, y: 0 },
            document,
        }
    }

    /// The printable character a key produces, if any: exactly the
    /// recognised input alphabet, each key giving its own character.
    pub fn get_char_from_keycode(key: KeyCode) -> (r: Option<char>)
        ensures
            r is Some <==> (key matches KeyCode::Char(c) && mapped_char(c)),
            key matches KeyCode::Char(c) ==> r == (if mapped_char(c) {
                Some(c)
            } else {
                None::<char>
            }),
    {
        match key {
            KeyCode::Char(c) => {
                let u = c as u32;
                if ('a' as u32 <= u && u <= 'z' as u32) || ('0' as u32 <= u && u <= '9' as u32)
                    || c == '~' || c == '`' || c == '-' || c == '=' {
                    Some(c)
                } else {
                    None
                }
            },
            _ => None,
        }
    }

    /// Move the cursor by the given deltas under the clipping policy of
    /// `moved_x` and `moved_y`: an out-of-range component leaves that
    /// component unchanged, so the column stays within `[0, width]`.
    pub fn move_cursor_rel(&mut self, dx: i16, dy: i16)
        requires
            old(self).wf(),
            old(self).cursor.y + dy <= u16::MAX,
        ensures
            final(self).wf(),
            final(self).cursor.x == moved_x(old(self).cursor.x, dx, old(self).terminal.size.width),
            final(self).cursor.y == moved_y(old(self).cursor.y, dy),
            final(self).terminal == old(self).terminal,
            final(self).document == old(self).document,
            final(self).should_quit == old(self).should_quit,
    {
        let x_max = self.terminal.size.width;
        let nx: i32 = self.cursor.x as i32 + dx as i32;
        if 0 <= nx && nx <= x_max as i32 {
            self.cursor.x = nx as u16;
        }
        let ny: i32 = self.cursor.y as i32 + dy as i32;
        if ny >= 0 {
            self.cursor.y = ny as u16;
        }
    }

    /// Write the text at the cursor through the renderer, then advance the
    /// cursor by its length, wrapping to the start of the next line when
    /// the advance would pass the viewport width. The document is not
    /// touched: this writes to the visual surface only.
    pub fn print_at_cursor(&mut self, text: &Vec<char>)
        requires
            old(self).wf(),
            text@.len() <= u16::MAX,
            old(self).cursor.x + text@.len() > old(self).terminal.size.width ==> old(self).cursor.y < u16::MAX,
        ensures
            final(self).wf(),
            final(self).cursor == advanced_cursor(
                old(self).cursor,
                text@.len() as int,
                old(self).terminal.size.width,
            ),
            final(self).terminal.size == old(self).terminal.size,
            final(self).terminal.pending() == old(self).terminal.pending() + print_ops(
                old(self).cursor.x,
                old(self).cursor.y,
                text@,
                old(self).terminal.size.width,
            ),
            final(self).document == old(self).document,
            final(self).should_quit == old(self).should_quit,
    {
        let x = self.cursor.x;
        let y = self.cursor.y;
        let x_max = self.terminal.size.width;
        let text_len: u16 = text.len() as u16;
        self.terminal.print_at_pos(x, y, text);
        if x as u32 + text_len as u32 <= x_max as u32 {
            self.cursor.x = x + text_len;
        } else {
            self.cursor.x = 0;
            self.cursor.y = y + 1;
        }
    }

    /// Write the version banner through the renderer at column 3 of the
    /// banner line, a third of the way down the viewport.
    pub fn display_version(&mut self)
        ensures
            final(self).terminal.size == old(self).terminal.size,
            final(self).terminal.pending() == old(self).terminal.pending() + print_ops(
                3,
                (old(self).terminal.size.height as int / 3) as u16,
                banner_text(),
                old(self).terminal.size.width,
            ),
            final(self).cursor == old(self).cursor,
            final(self).document == old(self).document,
            final(self).should_quit == old(self).should_quit,
    {
        let x: u16 = 3;
        let y: u16 = self.terminal.size.height / 3;
        let welcome_message = banner();
        self.terminal.print_at_pos(x, y, &welcome_message);
    }

    /// Write document line `index` through the renderer, clipped to the
    /// viewport width.
    fn draw_row(&mut self, index: usize)
        requires
            index < old(self).document@.len(),
        ensures
            final(self).terminal.size == old(self).terminal.size,
            final(self).terminal.pending() == old(self).terminal.pending() + line_write_ops(
                render_spec(
                    old(self).document@[index as int],
                    0,
                    old(self).terminal.size.width as int,
                ),
            ),
            final(self).cursor == old(self).cursor,
            final(self).document == old(self).document,
            final(self).should_quit == old(self).should_quit,
    {
        let end = self.terminal.size.width as usize;
        match self.document.row(index) {
            Some(row) => {
                let rendered = row.render(0, end);
                self.terminal.write_line(rendered);
            },
            None => {
                proof {
                    assert(false);
                }
            },
        }
    }

    /// Redraw every visual line of the viewport but the last: each line is
    /// cleared, then shows its document row if there is one, the version
    /// banner on the banner line past the end of the document, and a tilde
    /// on every other line past the end.
    pub fn draw_rows(&mut self)
        requires
            old(self).terminal.size.height >= 1,
        ensures
            final(self).terminal.size == old(self).terminal.size,
            final(self).terminal.pending() == old(self).terminal.pending() + rows_ops(
                old(self).document@,
                old(self).terminal.size.width,
                old(self).terminal.size.height,
                old(self).terminal.size.height as int - 1,
            ),
            final(self).cursor == old(self).cursor,
            final(self).document == old(self).document,
            final(self).should_quit == old(self).should_quit,
    {
        let height = self.terminal.size.height;
        let mut terminal_row: u16 = 0;
        while terminal_row < height - 1
            invariant
                terminal_row <= height - 1,
                height >= 1,
                height == self.terminal.size.height,
                self.terminal.size == old(self).terminal.size,
                self.cursor == old(self).cursor,
                self.document == old(self).document,
                self.should_quit == old(self).should_quit,
                self.terminal.pending() == old(self).terminal.pending() + rows_ops(
                    old(self).document@,
                    old(self).terminal.size.width,
                    old(self).terminal.size.height,
                    terminal_row as int,
                ),
            decreases height - 1 - terminal_row,
        {
            self.terminal.clear_current_line();
            let index = terminal_row as usize;
            if index < self.document.len() {
                self.draw_row(index);
            } else if terminal_row == height / 3 {
                self.display_version();
            } else {
                let tilde: Vec<char> = vec!['~'];
                proof {
                    assert(tilde@ =~= seq!['~']);
                }
                self.terminal.write_line(tilde);
            }
            proof {
                assert(self.terminal.pending() =~= old(self).terminal.pending() + rows_ops(
                    old(self).document@,
                    old(self).terminal.size.width,
                    old(self).terminal.size.height,
                    terminal_row as int + 1,
                ));
            }
            terminal_row = terminal_row + 1;
        }
    }

    /// Redraw the whole viewport from the current state, exactly the
    /// operations of `frame_ops`: home the draw position, then the
    /// farewell if the editor is quitting and every visual line otherwise,
    /// then put the caret back on the cursor.
    pub fn refresh_screen(&mut self)
        requires
            old(self).terminal.size.height >= 1,
        ensures
            final(self).terminal.size == old(self).terminal.size,
            final(self).terminal.pending() == old(self).terminal.pending() + frame_ops(
                old(self).document@,
                old(self).cursor,
                old(self).terminal.size,
                old(self).should_quit,
            ),
            final(self).cursor == old(self).cursor,
            final(self).document == old(self).document,
            final(self).should_quit == old(self).should_quit,
    {
        self.terminal.move_cursor_to(0, 0);
        if self.should_quit {
            self.terminal.clear_screen();
            let farewell = goodbye();
            self.terminal.write_line(farewell);
        } else {
            self.draw_rows();
        }
        self.terminal.move_cursor_to(self.cursor.x, self.cursor.y);
        proof {
            assert(self.terminal.pending() =~= old(self).terminal.pending() + frame_ops(
                old(self).document@,
                old(self).cursor,
                old(self).terminal.size,
                old(self).should_quit,
            ));
        }
    }

    /// Act on one key event, exactly as `dispatch_spec` maps it: the
    /// control-quit chord raises the quit flag, and every other event
    /// inserts, moves, or erases as its key alone says.
    pub fn process_keypress(&mut self, ev: KeyEvent)
        requires
            old(self).wf(),
            old(self).cursor.y < u16::MAX,
        ensures
            final(self).wf(),
            final(self).document == old(self).document,
            final(self).terminal.size == old(self).terminal.size,
            dispatch_spec(ev) == Command::Quit ==> final(self).should_quit && final(self).cursor == old(self).cursor && final(self).terminal.pending() == old(self).terminal.pending(),
            dispatch_spec(ev) != Command::Quit ==> final(self).should_quit == old(self).should_quit,
            dispatch_spec(ev) matches Command::Insert(c) ==> final(self).cursor
                == advanced_cursor(old(self).cursor, 1, old(self).terminal.size.width) && final(self).terminal.pending() == old(self).terminal.pending() + print_ops(
                old(self).cursor.x,
                old(self).cursor.y,
                seq![c],
                old(self).terminal.size.width,
            ),
            dispatch_spec(ev) matches Command::MoveRel(dx, dy) ==> final(self).cursor.x == moved_x(
                old(self).cursor.x,
                dx,
                old(self).terminal.size.width,
            ) && final(self).cursor.y == moved_y(old(self).cursor.y, dy) && final(self).terminal.pending() == old(self).terminal.pending(),
            dispatch_spec(ev) == Command::Backspace ==> final(self).cursor == (Cursor {
                x: moved_x(old(self).cursor.x, -1i16, old(self).terminal.size.width),
                y: old(self).cursor.y,
            }) && final(self).terminal.pending() == old(self).terminal.pending() + delete_ops(
                moved_x(old(self).cursor.x, -1i16, old(self).terminal.size.width),
                old(self).cursor.y,
            ),
            dispatch_spec(ev) == Command::Delete ==> final(self).cursor == old(self).cursor
                && final(self).terminal.pending() == old(self).terminal.pending() + delete_ops(
                old(self).cursor.x,
                old(self).cursor.y,
            ),
    {
        let is_quit = ev.ctrl && match ev.code {
            KeyCode::Char(c) => c == 'q',
            _ => false,
        };
        if is_quit {
            self.should_quit = true;
        } else {
            self.handle_unmodified_keycode(ev.code);
        }
    }

    /// Act on a key outside the control-quit chord, exactly as
    /// `key_command` maps it.
    fn handle_unmodified_keycode(&mut self, key: KeyCode)
        requires
            old(self).wf(),
            old(self).cursor.y < u16::MAX,
        ensures
            final(self).wf(),
            final(self).document == old(self).document,
            final(self).terminal.size == old(self).terminal.size,
            final(self).should_quit == old(self).should_quit,
            key_command(key) != Command::Quit,
            key_command(key) matches Command::Insert(c) ==> final(self).cursor
                == advanced_cursor(old(self).cursor, 1, old(self).terminal.size.width) && final(self).terminal.pending() == old(self).terminal.pending() + print_ops(
                old(self).cursor.x,
                old(self).cursor.y,
                seq![c],
                old(self).terminal.size.width,
            ),
            key_command(key) matches Command::MoveRel(dx, dy) ==> final(self).cursor.x == moved_x(
                old(self).cursor.x,
                dx,
                old(self).terminal.size.width,
            ) && final(self).cursor.y == moved_y(old(self).cursor.y, dy) && final(self).terminal.pending() == old(self).terminal.pending(),
            key_command(key) == Command::Backspace ==> final(self).cursor == (Cursor {
                x: moved_x(old(self).cursor.x, -1i16, old(self).terminal.size.width),
                y: old(self).cursor.y,
            }) && final(self).terminal.pending() == old(self).terminal.pending() + delete_ops(
                moved_x(old(self).cursor.x, -1i16, old(self).terminal.size.width),
                old(self).cursor.y,
            ),
            key_command(key) == Command::Delete ==> final(self).cursor == old(self).cursor
                && final(self).terminal.pending() == old(self).terminal.pending() + delete_ops(
                old(self).cursor.x,
                old(self).cursor.y,
            ),
    {
        match Self::get_char_from_keycode(key) {
            Some(character) => {
                let mut key_text: Vec<char> = Vec::new();
                key_text.push(character);
                proof {
                    assert(key_text@ =~= seq![character]);
                }
                self.print_at_cursor(&key_text);
            },
            None => {
                match key {
                    KeyCode::Left => self.move_cursor_rel(-1, 0),
                    KeyCode::Right => self.move_cursor_rel(1, 0),
                    KeyCode::Up => self.move_cursor_rel(0, -1),
                    KeyCode::Down => self.move_cursor_rel(0, 1),
                    KeyCode::Backspace => {
                        self.move_cursor_rel(-1, 0);
                        self.delete_at_cursor();
                    },
                    KeyCode::Delete => self.delete_at_cursor(),
                    _ => {
                        let mut wild_card: Vec<char> = Vec::new();
                        wild_card.push('?');
                        proof {
                            assert(wild_card@ =~= seq!['?']);
                        }
                        self.print_at_cursor(&wild_card);
                    },
                }
            },
        }
    }

    /// Ask the renderer to erase the character cell at the cursor. Visual
    /// only: the owning row keeps its content, and the cursor stays put.
    pub fn delete_at_cursor(&mut self)
        ensures
            final(self).cursor == old(self).cursor,
            final(self).terminal.size == old(self).terminal.size,
            final(self).terminal.pending() == old(self).terminal.pending() + delete_ops(
                old(self).cursor.x,
                old(self).cursor.y,
            ),
            final(self).document == old(self).document,
            final(self).should_quit == old(self).should_quit,
    {
        self.terminal.delete_at_pos(self.cursor.x, self.cursor.y);
    }
}

} // verus!
