//! The editor state and its state machines: keypress-driven navigation,
//! the cursor-to-viewport mapping, and the render driver that computes the
//! text of every visible line. All terminal, file and highlighting work is
//! left to outside collaborators; they hand this module plain values.

use vstd::prelude::*;
use vstd::string::*;

use crate::document::Document;
use crate::position::Position;
use crate::position::Size;
use crate::row::render_of;
use crate::row::render_slice;
use crate::row::spaces;
use crate::text::dec_digits;
use crate::text::push_spaces;
use crate::text::push_str_chars;
use crate::text::push_usize_decimal;
use crate::text::append_chars;
use crate::text::sat_add;
use crate::text::sat_sub;
use crate::text::str_chars;
use crate::text::truncated;

verus! {

/// A key event as the engine sees it: decoded from the input stream by an
/// outside collaborator and handed in as a plain value.
#[derive(Clone, Copy, PartialEq, Eq, Structural, Debug)]
pub enum KeyEvent {
    Up,
    Down,
    Left,
    Right,
    PageUp,
    PageDown,
    Home,
    End,
    Ctrl(char),
    Char(char),
    Other,
}

/// Milliseconds a status message stays on the message bar.
pub const MESSAGE_LIFETIME_MS: u64 = 5000;

/// A transient status-bar message and the moment it was set.
pub struct StatusMessage {
    pub text: String,
    pub time: u64,
}

impl StatusMessage {
    /// A message stamped with the present moment.
    pub fn from(message: String) -> (r: StatusMessage)
        ensures
            r.text@ == message@,
    {
        StatusMessage { time: now_millis(), text: message }
    }
}

/// Relies on std::time::SystemTime::now for the present moment, in
/// milliseconds since the epoch. Nothing is promised of the value, which
/// depends on the clock.
#[verifier::external_body]
fn now_millis() -> u64 {
    match std::time::SystemTime::now().duration_since(std::time::UNIX_EPOCH) {
        Ok(d) => u64::try_from(d.as_millis()).unwrap_or(u64::MAX),
        Err(_) => 0,
    }
}

/// Render-space width of row `y` of the document; a nonexistent row (one
/// past the end) has width zero.
pub open spec fn row_width(doc: Seq<Seq<char>>, y: int) -> int {
    if 0 <= y < doc.len() {
        render_of(doc[y]).len() as int
    } else {
        0
    }
}

/// A cursor within bounds for `doc`: the row index may rest one past the
/// last row, and the column one past the end of the row's render form.
pub open spec fn cursor_in_bounds(c: Position, doc: Seq<Seq<char>>) -> bool {
    &&& c.y <= doc.len()
    &&& c.x <= row_width(doc, c.y as int)
}

/// Whether a key is one of the eight navigation keys.
pub open spec fn is_nav_key(key: KeyEvent) -> bool {
    match key {
        KeyEvent::Up => true,
        KeyEvent::Down => true,
        KeyEvent::Left => true,
        KeyEvent::Right => true,
        KeyEvent::PageUp => true,
        KeyEvent::PageDown => true,
        KeyEvent::Home => true,
        KeyEvent::End => true,
        _ => false,
    }
}

/// The navigation transition table: the cursor after one command, against
/// the current document. Up and Left saturate at zero; Down stops one past
/// the last row; Right stops one past the end of the row; PageUp and
/// PageDown jump to the document's extremes (a known simplification kept
/// as specified behaviour); Home and End jump within the row. After the
/// row-axis update the column is re-clamped to the destination row's
/// width, on every transition.
pub open spec fn moved_cursor(c: Position, key: KeyEvent, doc: Seq<Seq<char>>) -> Position {
    let width = row_width(doc, c.y as int);
    let height = doc.len() as int;
    let y1: int = match key {
        KeyEvent::Up => sat_sub(c.y as int, 1),
        KeyEvent::Down => if c.y < height {
            c.y + 1
        } else {
            c.y as int
        },
        KeyEvent::PageUp => 0,
        KeyEvent::PageDown => height,
        _ => c.y as int,
    };
    let x1: int = match key {
        KeyEvent::Left => sat_sub(c.x as int, 1),
        KeyEvent::Right => if c.x < width {
            c.x + 1
        } else {
            c.x as int
        },
        KeyEvent::Home => 0,
        KeyEvent::End => width,
        _ => c.x as int,
    };
    let w1 = row_width(doc, y1);
    let x2: int = if x1 > w1 {
        w1
    } else {
        x1
    };
    Position { x: x2 as usize, y: y1 as usize }
}

/// The viewport rule for one axis: scroll back to the cursor when it lies
/// before the window, forward by the minimal amount when it lies at or
/// past its far edge, and stay put when the cursor is already visible.
pub open spec fn scrolled_axis(pos: int, off: int, extent: int) -> int {
    if pos < off {
        pos
    } else if pos >= sat_add(off, extent) {
        sat_add(sat_sub(pos, extent), 1)
    } else {
        off
    }
}

/// One line of a paint of the viewport: the visible slice of a document
/// row (handed on to the highlighting collaborator), the welcome banner,
/// or the placeholder drawn past the end of the document.
#[derive(Debug)]
pub enum ScreenLine {
    Content(Vec<char>),
    Welcome(Vec<char>),
    Placeholder,
}

/// The welcome banner row: a `~`, then spaces that center the message,
/// all cut to the terminal width.
pub open spec fn welcome_line_spec(msg: Seq<char>, width: int) -> Seq<char> {
    let padding = sat_sub(width, msg.len() as int) / 2;
    let full = seq!['~'] + spaces(sat_sub(padding, 1) as nat) + msg;
    truncated(full, width)
}

/// What the render driver paints on screen row `r`: the slice of the
/// document row under it when there is one; on an empty document, the
/// welcome banner a third of the way down; the placeholder otherwise.
pub open spec fn screen_line_matches(
    doc: Seq<Seq<char>>,
    offset: Position,
    size: Size,
    msg: Seq<char>,
    r: int,
    line: ScreenLine,
) -> bool {
    let idx = offset.y + r;
    if idx < doc.len() {
        line matches ScreenLine::Content(t) && t@ == render_slice(
            doc[idx],
            offset.x as int,
            sat_add(offset.x as int, size.width as int),
        )
    } else if doc.len() == 0 && r == size.height as int / 3 {
        line matches ScreenLine::Welcome(t) && t@ == welcome_line_spec(msg, size.width as int)
    } else {
        line matches ScreenLine::Placeholder
    }
}

/// The status bar text: the file name (or `[No Name]`, cut to 20
/// characters) with the line count on the left, the cursor's line
/// indicator on the right, padded apart with spaces and cut to the
/// terminal width.
pub open spec fn status_line_spec(
    file_name: Option<Seq<char>>,
    doc_len: int,
    cursor_y: int,
    width: int,
) -> Seq<char> {
    let name = match file_name {
        Some(n) => truncated(n, 20),
        None => "[No Name]"@,
    };
    let status = name + " - "@ + dec_digits(doc_len) + " lines"@;
    let indicator = dec_digits(sat_add(cursor_y, 1)) + "/"@ + dec_digits(doc_len) + " "@;
    let padded = if width > status.len() + indicator.len() {
        status + spaces((width - status.len() - indicator.len()) as nat)
    } else {
        status
    };
    truncated(padded + indicator, width)
}

/// Whether a status message set at `time` is still fresh at `now`:
/// messages fade once they are `MESSAGE_LIFETIME_MS` old.
pub open spec fn message_fresh(time: int, now: int) -> bool {
    sat_sub(now, time) < MESSAGE_LIFETIME_MS
}

/// The whole editor state that the engine owns: the document, the cursor
/// in buffer space, the viewport offset, the terminal dimensions, the quit
/// flag and the transient status message.
pub struct Editor {
    pub should_quit: bool,
    pub cursor_position: Position,
    pub document: Document,
    pub offset: Position,
    pub size: Size,
    pub status_message: StatusMessage,
}

impl Editor {
    /// The editor's invariant: the cursor is in bounds for the document.
    /// It holds of a fresh editor and every navigation step keeps it.
    pub open spec fn wf(&self) -> bool {
        cursor_in_bounds(self.cursor_position, self.document@)
    }

    /// A fresh editor over `document`: cursor and offset at the origin,
    /// not quitting, showing `status`.
    pub fn new(document: Document, size: Size, status: StatusMessage) -> (e: Editor)
        ensures
            e.document == document,
            e.size == size,
            e.cursor_position == (Position { x: 0, y: 0 }),
            e.offset == (Position { x: 0, y: 0 }),
            !e.should_quit,
            e.status_message == status,
            e.wf(),
    {
        Editor {
            should_quit: false,
            cursor_position: Position { x: 0, y: 0 },
            document,
            offset: Position { x: 0, y: 0 },
            size,
            status_message: status,
        }
    }

    /// One navigation step: applies the transition table and re-clamps the
    /// column to the destination row. Total: saturating arithmetic at the
    /// document's boundaries, never a panic.
    pub fn move_cursor(&mut self, key: KeyEvent)
        ensures
            final(self).cursor_position == moved_cursor(
                old(self).cursor_position,
                key,
                old(self).document@,
            ),
            final(self).document == old(self).document,
            final(self).offset == old(self).offset,
            final(self).size == old(self).size,
            final(self).should_quit == old(self).should_quit,
            final(self).status_message == old(self).status_message,
            old(self).wf() ==> final(self).wf(),
    {
        let mut y = self.cursor_position.y;
        let mut x = self.cursor_position.x;
        let width = match self.document.row(y) {
            Some(row) => row.len(),
            None => 0,
        };
        let height = self.document.len();
        match key {
            KeyEvent::Up => {
                y = y.saturating_sub(1);
            },
            KeyEvent::Down => {
                if y < height {
                    y = y + 1;
                }
            },
            KeyEvent::Left => {
                x = x.saturating_sub(1);
            },
            KeyEvent::Right => {
                if x < width {
                    x = x + 1;
                }
            },
            KeyEvent::PageUp => {
                y = 0;
            },
            KeyEvent::PageDown => {
                y = height;
            },
            KeyEvent::Home => {
                x = 0;
            },
            KeyEvent::End => {
                x = width;
            },
            _ => {},
        }
        let new_width = match self.document.row(y) {
            Some(row) => row.len(),
            None => 0,
        };
        if x > new_width {
            x = new_width;
        }
        self.cursor_position = Position { x, y };
    }

    /// Recomputes the viewport offset so that the cursor is visible again,
    /// by the minimal adjustment on each axis.
    pub fn scroll(&mut self)
        ensures
            final(self).offset.x as int == scrolled_axis(
                old(self).cursor_position.x as int,
                old(self).offset.x as int,
                old(self).size.width as int,
            ),
            final(self).offset.y as int == scrolled_axis(
                old(self).cursor_position.y as int,
                old(self).offset.y as int,
                old(self).size.height as int,
            ),
            final(self).cursor_position == old(self).cursor_position,
            final(self).document == old(self).document,
            final(self).size == old(self).size,
            final(self).should_quit == old(self).should_quit,
            final(self).status_message == old(self).status_message,
            old(self).size.width >= 1 ==> final(self).offset.x <= final(self).cursor_position.x
                < final(self).offset.x + old(self).size.width,
            old(self).size.height >= 1 ==> final(self).offset.y <= final(self).cursor_position.y
                < final(self).offset.y + old(self).size.height,
    {
        proof {
            if self.size.width >= 1 {
                lemma_scroll_visible(
                    self.cursor_position.x as int,
                    self.offset.x as int,
                    self.size.width as int,
                );
            }
            if self.size.height >= 1 {
                lemma_scroll_visible(
                    self.cursor_position.y as int,
                    self.offset.y as int,
                    self.size.height as int,
                );
            }
        }
        let x = self.cursor_position.x;
        let y = self.cursor_position.y;
        let width = self.size.width as usize;
        let height = self.size.height as usize;
        let mut off_x = self.offset.x;
        let mut off_y = self.offset.y;
        if x < off_x {
            off_x = x;
        } else if x >= off_x.saturating_add(width) {
            off_x = x.saturating_sub(width).saturating_add(1);
        }
        if y < off_y {
            off_y = y;
        } else if y >= off_y.saturating_add(height) {
            off_y = y.saturating_sub(height).saturating_add(1);
        }
        self.offset = Position { x: off_x, y: off_y };
    }

    /// Interprets one key event: Ctrl-Q raises the quit flag, Ctrl-T asks
    /// the caller to switch the highlighting theme (done outside), a
    /// navigation key moves the cursor, anything else is a no-op; the
    /// viewport is then scrolled back over the cursor.
    pub fn process_keypress(&mut self, key: KeyEvent) -> (switch_theme: bool)
        ensures
            switch_theme == (key == KeyEvent::Ctrl('t')),
            final(self).should_quit == (old(self).should_quit || key == KeyEvent::Ctrl('q')),
            final(self).cursor_position == if is_nav_key(key) {
                moved_cursor(old(self).cursor_position, key, old(self).document@)
            } else {
                old(self).cursor_position
            },
            final(self).offset.x as int == scrolled_axis(
                final(self).cursor_position.x as int,
                old(self).offset.x as int,
                old(self).size.width as int,
            ),
            final(self).offset.y as int == scrolled_axis(
                final(self).cursor_position.y as int,
                old(self).offset.y as int,
                old(self).size.height as int,
            ),
            final(self).document == old(self).document,
            final(self).size == old(self).size,
            final(self).status_message == old(self).status_message,
            old(self).wf() ==> final(self).wf(),
            old(self).size.width >= 1 ==> final(self).offset.x <= final(self).cursor_position.x
                < final(self).offset.x + old(self).size.width,
            old(self).size.height >= 1 ==> final(self).offset.y <= final(self).cursor_position.y
                < final(self).offset.y + old(self).size.height,
    {
        let mut switch = false;
        match key {
            KeyEvent::Ctrl(c) => {
                if c == 'q' {
                    self.should_quit = true;
                } else if c == 't' {
                    switch = true;
                }
            },
            KeyEvent::Up
            | KeyEvent::Down
            | KeyEvent::Left
            | KeyEvent::Right
            | KeyEvent::PageUp
            | KeyEvent::PageDown
            | KeyEvent::Home
            | KeyEvent::End => self.move_cursor(key),
            _ => {},
        }
        self.scroll();
        switch
    }

    /// Where the cursor stands on screen: its buffer position relative to
    /// the viewport offset.
    pub fn screen_cursor(&self) -> (p: Position)
        ensures
            p.x as int == sat_sub(self.cursor_position.x as int, self.offset.x as int),
            p.y as int == sat_sub(self.cursor_position.y as int, self.offset.y as int),
    {
        Position {
            x: self.cursor_position.x.saturating_sub(self.offset.x),
            y: self.cursor_position.y.saturating_sub(self.offset.y),
        }
    }

    /// Computes one full paint of the viewport: for every screen row, the
    /// slice of the document row under it, or the welcome banner (with
    /// `welcome_msg` as its text) a third of the way down an empty
    /// document, or the placeholder.
    pub fn frame(&self, welcome_msg: &Vec<char>) -> (lines: Vec<ScreenLine>)
        ensures
            lines@.len() == self.size.height as int,
            forall|r: int|
                0 <= r < self.size.height as int ==> #[trigger] screen_line_matches(
                    self.document@,
                    self.offset,
                    self.size,
                    welcome_msg@,
                    r,
                    lines@[r],
                ),
    {
        let mut lines: Vec<ScreenLine> = Vec::new();
        let height = self.size.height;
        let width = self.size.width as usize;
        let doc_len = self.document.len();
        let mut r: u16 = 0;
        while r < height
            invariant
                r <= height,
                height == self.size.height,
                width == self.size.width as usize,
                doc_len == self.document@.len(),
                lines@.len() == r as int,
                forall|k: int|
                    0 <= k < r as int ==> #[trigger] screen_line_matches(
                        self.document@,
                        self.offset,
                        self.size,
                        welcome_msg@,
                        k,
                        lines@[k],
                    ),
            decreases height as int - r as int,
        {
            let line = match self.offset.y.checked_add(r as usize) {
                Some(idx) => match self.document.row(idx) {
                    Some(row) => ScreenLine::Content(
                        row.render(self.offset.x, self.offset.x.saturating_add(width)),
                    ),
                    None => self.empty_line(doc_len, r, welcome_msg),
                },
                None => self.empty_line(doc_len, r, welcome_msg),
            };
            lines.push(line);
            r = r + 1;
        }
        lines
    }

    /// The line painted where no document row stands: the welcome banner a
    /// third of the way down an empty document, the placeholder otherwise.
    fn empty_line(&self, doc_len: usize, r: u16, welcome_msg: &Vec<char>) -> (line: ScreenLine)
        requires
            doc_len == self.document@.len(),
        ensures
            self.document@.len() == 0 && r as int == self.size.height as int / 3 ==> (line matches
                ScreenLine::Welcome(t) && t@ == welcome_line_spec(
                welcome_msg@,
                self.size.width as int,
            )),
            !(self.document@.len() == 0 && r as int == self.size.height as int / 3) ==> (
            line matches ScreenLine::Placeholder),
    {
        if doc_len == 0 && r == self.size.height / 3 {
            ScreenLine::Welcome(welcome_line(welcome_msg, self.size.width))
        } else {
            ScreenLine::Placeholder
        }
    }

    /// The status bar text for the present state.
    pub fn status_bar_line(&self) -> (line: Vec<char>)
        ensures
            line@ == status_line_spec(
                self.document.spec_file_name(),
                self.document@.len() as int,
                self.cursor_position.y as int,
                self.size.width as int,
            ),
    {
        let mut status: Vec<char> = Vec::new();
        match self.document.file_name() {
            Some(name) => {
                let s = name.as_str();
                let n = s.unicode_len();
                if n > 20 {
                    let t = s.substring_char(0, 20);
                    push_str_chars(&mut status, t);
                    proof {
                        assert(status@ =~= truncated(s@, 20));
                    }
                } else {
                    push_str_chars(&mut status, s);
                }
            },
            None => {
                push_str_chars(&mut status, "[No Name]");
            },
        }
        let doc_len = self.document.len();
        push_str_chars(&mut status, " - ");
        push_usize_decimal(&mut status, doc_len);
        push_str_chars(&mut status, " lines");

        let mut indicator: Vec<char> = Vec::new();
        push_usize_decimal(&mut indicator, self.cursor_position.y.saturating_add(1));
        push_str_chars(&mut indicator, "/");
        push_usize_decimal(&mut indicator, doc_len);
        push_str_chars(&mut indicator, " ");

        let width = self.size.width as usize;
        let len = status.len().saturating_add(indicator.len());
        if width > len {
            push_spaces(&mut status, width - len);
        }
        append_chars(&mut status, &indicator);
        status.truncate(width);
        proof {
            assert(status@ =~= status_line_spec(
                self.document.spec_file_name(),
                self.document@.len() as int,
                self.cursor_position.y as int,
                self.size.width as int,
            ));
        }
        status
    }

    /// The message bar content at moment `now`: the message text cut to
    /// the terminal width while the message is fresh, nothing once it has
    /// faded.
    pub fn message_bar_line(&self, now: u64) -> (line: Option<Vec<char>>)
        ensures
            match line {
                Some(t) => message_fresh(self.status_message.time as int, now as int) && t@
                    == truncated(self.status_message.text@, self.size.width as int),
                None => !message_fresh(self.status_message.time as int, now as int),
            },
    {
        let elapsed = now.saturating_sub(self.status_message.time);
        if elapsed < MESSAGE_LIFETIME_MS {
            let mut t = str_chars(self.status_message.text.as_str());
            t.truncate(self.size.width as usize);
            proof {
                assert(t@ =~= truncated(self.status_message.text@, self.size.width as int));
            }
            Some(t)
        } else {
            None
        }
    }

    /// The message bar content at the present moment: whatever moment the
    /// clock reports, a shown message is the status text cut to the
    /// terminal width.
    pub fn message_bar(&self) -> (line: Option<Vec<char>>)
        ensures
            match line {
                Some(t) => t@ == truncated(self.status_message.text@, self.size.width as int),
                None => true,
            },
    {
        self.message_bar_line(now_millis())
    }
}

/// The welcome banner row for a message and a terminal width: a `~`, then
/// spaces that center the message, cut to the width.
pub fn welcome_line(msg: &Vec<char>, width: u16) -> (line: Vec<char>)
    ensures
        line@ == welcome_line_spec(msg@, width as int),
{
    let w = width as usize;
    let len = msg.len();
    let padding = w.saturating_sub(len) / 2;
    let pad = padding.saturating_sub(1);
    let mut line: Vec<char> = Vec::new();
    line.push('~');
    proof {
        assert(line@ =~= seq!['~']);
    }
    push_spaces(&mut line, pad);
    append_chars(&mut line, msg);
    line.truncate(w);
    proof {
        assert(line@ =~= welcome_line_spec(msg@, width as int));
    }
    line
}

/// Navigation law: from any in-bounds cursor, every key yields an
/// in-bounds cursor — the row index stays within the document (one past
/// the last row allowed) and the column within the destination row's
/// render width. The two machine bounds hold of any document held in
/// memory: its rows and each row's render form live in vectors.
pub proof fn lemma_navigation_in_bounds(c: Position, key: KeyEvent, doc: Seq<Seq<char>>)
    requires
        cursor_in_bounds(c, doc),
        doc.len() <= usize::MAX,
        forall|y: int| 0 <= y < doc.len() ==> #[trigger] render_of(doc[y]).len() <= usize::MAX,
    ensures
        cursor_in_bounds(moved_cursor(c, key, doc), doc),
{
}

/// Viewport law, visibility: with a positive extent, the recomputed offset
/// always leaves the cursor inside the half-open window
/// `[offset, offset + extent)` on that axis.
pub proof fn lemma_scroll_visible(pos: int, off: int, extent: int)
    requires
        0 <= pos <= usize::MAX,
        0 <= off <= usize::MAX,
        1 <= extent,
    ensures
        scrolled_axis(pos, off, extent) <= pos < scrolled_axis(pos, off, extent) + extent,
{
}

/// Viewport law, minimality: an offset that already shows the cursor is
/// left exactly where it was.
pub proof fn lemma_scroll_minimal(pos: int, off: int, extent: int)
    requires
        off <= pos < sat_add(off, extent),
    ensures
        scrolled_axis(pos, off, extent) == off,
{
}

/// Viewport law, idempotence: recomputing the offset again with an
/// unchanged cursor yields the same offset.
pub proof fn lemma_scroll_idempotent(pos: int, off: int, extent: int)
    requires
        0 <= pos <= usize::MAX,
        0 <= off <= usize::MAX,
        1 <= extent,
    ensures
        scrolled_axis(pos, scrolled_axis(pos, off, extent), extent) == scrolled_axis(
            pos,
            off,
            extent,
        ),
{
    lemma_scroll_visible(pos, off, extent);
}

/// The startup help message.
pub fn help_status() -> (r: String)
    ensures
        r@ == "HELP: Ctrl-Q = quit"@,
{
    String::from_str("HELP: Ctrl-Q = quit")
}

/// The status text shown when a file could not be opened.
pub fn open_error_status(file_name: &str) -> (r: String)
    ensures
        r@ == "ERR: Could not open file: "@ + file_name@,
{
    let mut r = String::from_str("ERR: Could not open file: ");
    r.append(file_name);
    r
}

/// The welcome banner text for a given version string.
pub fn welcome_text(version: &str) -> (r: String)
    ensures
        r@ == "Hector editor -- version "@ + version@ + "\r"@,
{
    let mut r = String::from_str("Hector editor -- version ");
    r.append(version);
    r.append("\r");
    r
}

} // verus!
