//! The content surface: the mutable state a pager callback can read and
//! write — the line buffer, the pinned header and footer, the scroll offset
//! and the quit flag — together with the clamped scroll operations.

use vstd::prelude::*;

use crate::text::{spec_lines, split_lines};

verus! {

/// The largest scroll offset from which a full body of `body_height` rows
/// can still be shown: `len - body_height`, floored at zero.
pub open spec fn max_top_row(len: nat, body_height: nat) -> nat {
    if len > body_height {
        (len - body_height) as nat
    } else {
        0
    }
}

/// Scrolling down by `n` from offset `top`: the offset grows by `n` but is
/// clamped to `max_top_row`, also when `top` already lay beyond it.
pub open spec fn spec_scroll_down(top: nat, n: nat, len: nat, body_height: nat) -> nat {
    if top + n > max_top_row(len, body_height) {
        max_top_row(len, body_height)
    } else {
        top + n
    }
}

/// Scrolling up by `n` from offset `top`: the offset shrinks by `n`,
/// floored at zero.
pub open spec fn spec_scroll_up(top: nat, n: nat) -> nat {
    if top >= n {
        (top - n) as nat
    } else {
        0
    }
}

/// The mutable state of a pager: the scrollable line buffer, the pinned
/// header and footer, the scroll offset and the quit flag. Callbacks
/// receive exclusive mutable access to a value of this type and never see
/// the surrounding event loop.
pub struct PagerHandle {
    /// The scrollable lines, in display order.
    pub buffer: Vec<String>,
    /// Index into `buffer` of the first line shown in the scrollable region.
    pub top_row: usize,
    /// Lines pinned at the top of the screen, outside the scroll range.
    pub header: Option<Vec<String>>,
    /// Lines pinned directly below the scrollable region.
    pub footer: Option<Vec<String>>,
    /// Once set, the event loop terminates at its next check point.
    pub quit_requested: bool,
}

impl PagerHandle {
    /// The lines of the pinned header, empty if none was set.
    pub open spec fn header_lines(self) -> Seq<Seq<char>> {
        match self.header {
            Some(h) => h.deep_view(),
            None => Seq::empty(),
        }
    }

    /// The lines of the pinned footer, empty if none was set.
    pub open spec fn footer_lines(self) -> Seq<Seq<char>> {
        match self.footer {
            Some(f) => f.deep_view(),
            None => Seq::empty(),
        }
    }

    /// The scrollable lines.
    pub open spec fn buffer_lines(self) -> Seq<Seq<char>> {
        self.buffer.deep_view()
    }

    /// An empty surface: no lines, no pinned regions, offset zero, quit not
    /// requested.
    pub fn new() -> (handle: PagerHandle)
        ensures
            handle.buffer@ == Seq::<String>::empty(),
            handle.top_row == 0,
            handle.header is None,
            handle.footer is None,
            !handle.quit_requested,
    {
        PagerHandle {
            buffer: Vec::new(),
            top_row: 0,
            header: None,
            footer: None,
            quit_requested: false,
        }
    }

    /// Replaces the pinned header wholesale with the lines of `message`.
    pub fn header(&mut self, message: &str)
        ensures
            final(self).header matches Some(h) && h.deep_view() == spec_lines(message@),
            final(self).buffer == old(self).buffer,
            final(self).top_row == old(self).top_row,
            final(self).footer == old(self).footer,
            final(self).quit_requested == old(self).quit_requested,
    {
        self.header = Some(split_lines(message));
    }

    /// Replaces the pinned footer wholesale with the lines of `message`.
    pub fn footer(&mut self, message: &str)
        ensures
            final(self).footer matches Some(f) && f.deep_view() == spec_lines(message@),
            final(self).buffer == old(self).buffer,
            final(self).top_row == old(self).top_row,
            final(self).header == old(self).header,
            final(self).quit_requested == old(self).quit_requested,
    {
        self.footer = Some(split_lines(message));
    }

    /// Appends the lines of `content` to the buffer, in order, without
    /// touching the scroll offset or the pinned regions.
    pub fn append(&mut self, content: &str)
        ensures
            final(self).buffer_lines() == old(self).buffer_lines() + spec_lines(content@),
            final(self).top_row == old(self).top_row,
            final(self).header == old(self).header,
            final(self).footer == old(self).footer,
            final(self).quit_requested == old(self).quit_requested,
    {
        let mut lines = split_lines(content);
        let ghost prev = self.buffer.deep_view();
        self.buffer.append(&mut lines);
        proof {
            assert(self.buffer.deep_view() =~= prev + spec_lines(content@));
        }
    }

    /// Empties the buffer and resets the scroll offset to zero; the pinned
    /// header and footer stay as they were.
    pub fn clear_buffer(&mut self)
        ensures
            final(self).buffer@ == Seq::<String>::empty(),
            final(self).top_row == 0,
            final(self).header == old(self).header,
            final(self).footer == old(self).footer,
            final(self).quit_requested == old(self).quit_requested,
    {
        self.buffer.clear();
        self.top_row = 0;
    }

    /// Requests termination of the event loop at its next check point;
    /// idempotent, and never cleared within a run.
    pub fn quit(&mut self)
        ensures
            final(self).quit_requested,
            final(self).buffer == old(self).buffer,
            final(self).top_row == old(self).top_row,
            final(self).header == old(self).header,
            final(self).footer == old(self).footer,
    {
        self.quit_requested = true;
    }

    /// The current scroll offset.
    pub fn scroll_position(&self) -> (row: usize)
        ensures
            row == self.top_row,
    {
        self.top_row
    }

    /// Sets the scroll offset directly, without clamping: meant to restore
    /// a previously saved offset after content was regenerated; the next
    /// scroll operation clamps again.
    pub fn scroll_to(&mut self, line: usize)
        ensures
            final(self).top_row == line,
            final(self).buffer == old(self).buffer,
            final(self).header == old(self).header,
            final(self).footer == old(self).footer,
            final(self).quit_requested == old(self).quit_requested,
    {
        self.top_row = line;
    }

    /// The number of lines in the buffer.
    pub fn content_length(&self) -> (len: usize)
        ensures
            len == self.buffer@.len(),
    {
        self.buffer.len()
    }

    /// Moves the scroll offset down by `lines`, clamped so that it never
    /// passes `max_top_row` of the buffer length and the given body height.
    pub fn scroll_down(&mut self, lines: usize, body_height: usize)
        ensures
            final(self).top_row == spec_scroll_down(
                old(self).top_row as nat,
                lines as nat,
                old(self).buffer@.len(),
                body_height as nat,
            ),
            final(self).buffer == old(self).buffer,
            final(self).header == old(self).header,
            final(self).footer == old(self).footer,
            final(self).quit_requested == old(self).quit_requested,
    {
        let length = self.buffer.len();
        let max_top: usize = if length > body_height {
            length - body_height
        } else {
            0
        };
        if self.top_row >= max_top {
            self.top_row = max_top;
        } else if lines >= max_top - self.top_row {
            self.top_row = max_top;
        } else {
            self.top_row = self.top_row + lines;
        }
    }

    /// Moves the scroll offset up by `lines`, floored at zero.
    pub fn scroll_up(&mut self, lines: usize)
        ensures
            final(self).top_row == spec_scroll_up(old(self).top_row as nat, lines as nat),
            final(self).buffer == old(self).buffer,
            final(self).header == old(self).header,
            final(self).footer == old(self).footer,
            final(self).quit_requested == old(self).quit_requested,
    {
        self.top_row = if self.top_row >= lines {
            self.top_row - lines
        } else {
            0
        };
    }

    /// Jumps to the top of the buffer.
    pub fn jump_home(&mut self)
        ensures
            final(self).top_row == 0,
            final(self).buffer == old(self).buffer,
            final(self).header == old(self).header,
            final(self).footer == old(self).footer,
            final(self).quit_requested == old(self).quit_requested,
    {
        self.top_row = 0;
    }

    /// Jumps to the last page: scrolls down by the whole buffer length,
    /// which the clamp turns into exactly `max_top_row`.
    pub fn jump_end(&mut self, body_height: usize)
        ensures
            final(self).top_row == max_top_row(old(self).buffer@.len(), body_height as nat),
            final(self).buffer == old(self).buffer,
            final(self).header == old(self).header,
            final(self).footer == old(self).footer,
            final(self).quit_requested == old(self).quit_requested,
    {
        let length = self.buffer.len();
        self.scroll_down(length, body_height);
    }

    /// Current terminal width in columns, for callbacks that re-wrap
    /// content to the live width.
    ///
    /// Relies on `crossterm::terminal::size`, which returns the terminal's
    /// `(columns, rows)` pair; the column count is handed back unchanged.
    /// When no terminal can be queried the underlying call fails and this
    /// method panics, as unverified code may.
    #[verifier::external_body]
    pub fn terminal_width(&self) -> u16 {
        crossterm::terminal::size().unwrap().0
    }
}

/// One scroll request: down or up by some number of lines.
pub enum ScrollOp {
    Down(nat),
    Up(nat),
}

/// The offset that one scroll request leaves behind.
pub open spec fn apply_scroll_op(top: nat, op: ScrollOp, len: nat, body_height: nat) -> nat {
    match op {
        ScrollOp::Down(n) => spec_scroll_down(top, n, len, body_height),
        ScrollOp::Up(n) => spec_scroll_up(top, n),
    }
}

/// The offset that a whole sequence of scroll requests leaves behind,
/// applied in order.
pub open spec fn apply_scroll_ops(top: nat, ops: Seq<ScrollOp>, len: nat, body_height: nat) -> nat
    decreases ops.len(),
{
    if ops.len() == 0 {
        top
    } else {
        apply_scroll_ops(
            apply_scroll_op(top, ops[0], len, body_height),
            ops.drop_first(),
            len,
            body_height,
        )
    }
}

/// Law: under any sequence of `scroll_down` / `scroll_up` calls the scroll
/// offset stays within `[0, max_top_row]` — it is a `nat`, so never
/// negative, and from an offset within the bound it never passes the bound.
pub proof fn lemma_scroll_ops_stay_in_range(top: nat, ops: Seq<ScrollOp>, len: nat, body_height: nat)
    requires
        top <= max_top_row(len, body_height),
    ensures
        apply_scroll_ops(top, ops, len, body_height) <= max_top_row(len, body_height),
    decreases ops.len(),
{
    if ops.len() > 0 {
        lemma_scroll_ops_stay_in_range(
            apply_scroll_op(top, ops[0], len, body_height),
            ops.drop_first(),
            len,
            body_height,
        );
    }
}

/// The offset left behind by `count` single-line `scroll_down` calls.
pub open spec fn scroll_down_times(top: nat, count: nat, len: nat, body_height: nat) -> nat
    decreases count,
{
    if count == 0 {
        top
    } else {
        scroll_down_times(
            spec_scroll_down(top, 1, len, body_height),
            (count - 1) as nat,
            len,
            body_height,
        )
    }
}

/// Repeated single-line scrolling adds up: `count` calls of
/// `scroll_down(1)` move the offset exactly as one `scroll_down(count)`.
pub proof fn lemma_scroll_down_times(top: nat, count: nat, len: nat, body_height: nat)
    requires
        top <= max_top_row(len, body_height),
    ensures
        scroll_down_times(top, count, len, body_height) == spec_scroll_down(
            top,
            count,
            len,
            body_height,
        ),
    decreases count,
{
    if count > 0 {
        lemma_scroll_down_times(
            spec_scroll_down(top, 1, len, body_height),
            (count - 1) as nat,
            len,
            body_height,
        );
    }
}

/// Law: `count` calls of `scroll_down(1)` with `count >= len - body_height`
/// leave the offset at exactly `max_top_row` — the clamp is reached and is
/// idempotent beyond the bound.
pub proof fn lemma_scroll_down_reaches_bottom(top: nat, count: nat, len: nat, body_height: nat)
    requires
        top <= max_top_row(len, body_height),
        count + body_height >= len,
    ensures
        scroll_down_times(top, count, len, body_height) == max_top_row(len, body_height),
{
    lemma_scroll_down_times(top, count, len, body_height);
}

/// Law: `jump_end` lands on `max_top_row` from any starting offset, so
/// `jump_end` is idempotent: after `jump_end`, `jump_home`, `jump_end` the
/// second `jump_end` yields the same offset as the first.
pub proof fn lemma_jump_end_idempotent(top: nat, len: nat, body_height: nat)
    ensures
        spec_scroll_down(top, len, len, body_height) == max_top_row(len, body_height),
        spec_scroll_down(0, len, len, body_height) == spec_scroll_down(
            top,
            len,
            len,
            body_height,
        ),
{
}

} // verus!
