//! The event-loop state machine: which keystrokes the pager consumes
//! itself, what each one does to the surface, and what the loop does at
//! the check point after host callbacks have run. The loop itself (raw
//! input, timeouts, screen writes) lives with the host; every decision it
//! takes comes from here.

use vstd::prelude::*;

use crate::surface::{max_top_row, spec_scroll_down, spec_scroll_up, PagerHandle};

verus! {

/// A keystroke as the pager sees it. Keys the built-in table does not
/// consume are forwarded to the host's keypress callback verbatim.
#[derive(Clone, Copy, Debug, PartialEq, Eq, Structural)]
pub enum Key {
    /// A character key.
    Char(char),
    Enter,
    Esc,
    Backspace,
    Left,
    Right,
    Up,
    Down,
    Home,
    End,
    PageUp,
    PageDown,
    Tab,
    BackTab,
    Delete,
    Insert,
    /// A function key: `F(1)` is F1, and so on.
    F(u8),
    /// Any key outside this table (media keys, lone modifiers and similar).
    Other,
}

/// What the built-in key table decides for one keystroke.
#[derive(Clone, Copy, Debug, PartialEq, Eq, Structural)]
pub enum KeyStep {
    /// A built-in quit key: the loop terminates, without another redraw.
    Quit,
    /// A built-in navigation key was applied: redraw and continue.
    Redraw,
    /// Not a built-in key: invoke the keypress callback with it, then the
    /// resize callback, then act on `post_callback_step`.
    Forward,
}

/// What the loop does at the check point after host callbacks have run.
#[derive(Clone, Copy, Debug, PartialEq, Eq, Structural)]
pub enum CycleStep {
    /// The host requested quit: the loop terminates, without another redraw.
    Quit,
    /// Redraw and continue the loop.
    Redraw,
}

/// The step the built-in key table assigns to a keystroke: `q`, `Q`,
/// Escape and Ctrl-C quit; `j`, `k`, Enter, the arrow keys, the paging
/// keys and Home/End navigate; everything else is forwarded to the host.
pub open spec fn spec_key_step(key: Key, ctrl: bool) -> KeyStep {
    match key {
        Key::Char(c) => if c == 'q' || c == 'Q' {
            KeyStep::Quit
        } else if c == 'c' && ctrl {
            KeyStep::Quit
        } else if c == 'j' || c == 'k' {
            KeyStep::Redraw
        } else {
            KeyStep::Forward
        },
        Key::Esc => KeyStep::Quit,
        Key::Enter => KeyStep::Redraw,
        Key::Up => KeyStep::Redraw,
        Key::Down => KeyStep::Redraw,
        Key::PageUp => KeyStep::Redraw,
        Key::PageDown => KeyStep::Redraw,
        Key::Home => KeyStep::Redraw,
        Key::End => KeyStep::Redraw,
        _ => KeyStep::Forward,
    }
}

/// The scroll offset after the built-in table has acted on one keystroke:
/// line keys move by one, paging keys by the body height, Home and End
/// jump, and every other key leaves the offset alone.
pub open spec fn spec_key_top_row(
    top: nat,
    key: Key,
    ctrl: bool,
    len: nat,
    body_height: nat,
) -> nat {
    match key {
        Key::Char(c) => if c == 'j' {
            spec_scroll_down(top, 1, len, body_height)
        } else if c == 'k' {
            spec_scroll_up(top, 1)
        } else {
            top
        },
        Key::Enter => spec_scroll_down(top, 1, len, body_height),
        Key::Down => spec_scroll_down(top, 1, len, body_height),
        Key::Up => spec_scroll_up(top, 1),
        Key::PageDown => spec_scroll_down(top, body_height, len, body_height),
        Key::PageUp => spec_scroll_up(top, body_height),
        Key::Home => 0,
        Key::End => max_top_row(len, body_height),
        _ => top,
    }
}

/// Law: the built-in key table keeps the scroll offset within
/// `[0, max_top_row]` — from an offset within the bound, the offset after
/// any keystroke, with or without control held, is still within it.
pub proof fn lemma_key_keeps_offset_in_range(
    top: nat,
    key: Key,
    ctrl: bool,
    len: nat,
    body_height: nat,
)
    requires
        top <= max_top_row(len, body_height),
    ensures
        spec_key_top_row(top, key, ctrl, len, body_height) <= max_top_row(len, body_height),
{
}

impl PagerHandle {
    /// Applies the built-in key table to one keystroke. Navigation keys
    /// move the scroll offset against the given body height; quit keys and
    /// forwarded keys leave the surface exactly as it was; the returned
    /// step tells the event loop what to do next.
    pub fn handle_key(&mut self, key: Key, ctrl: bool, body_height: usize) -> (step: KeyStep)
        ensures
            step == spec_key_step(key, ctrl),
            final(self).top_row == spec_key_top_row(
                old(self).top_row as nat,
                key,
                ctrl,
                old(self).buffer@.len(),
                body_height as nat,
            ),
            final(self).buffer == old(self).buffer,
            final(self).header == old(self).header,
            final(self).footer == old(self).footer,
            final(self).quit_requested == old(self).quit_requested,
    {
        match key {
            Key::Char(c) => {
                if c == 'q' || c == 'Q' {
                    KeyStep::Quit
                } else if c == 'c' && ctrl {
                    KeyStep::Quit
                } else if c == 'j' {
                    self.scroll_down(1, body_height);
                    KeyStep::Redraw
                } else if c == 'k' {
                    self.scroll_up(1);
                    KeyStep::Redraw
                } else {
                    KeyStep::Forward
                }
            },
            Key::Esc => KeyStep::Quit,
            Key::Enter => {
                self.scroll_down(1, body_height);
                KeyStep::Redraw
            },
            Key::Down => {
                self.scroll_down(1, body_height);
                KeyStep::Redraw
            },
            Key::Up => {
                self.scroll_up(1);
                KeyStep::Redraw
            },
            Key::PageDown => {
                self.scroll_down(body_height, body_height);
                KeyStep::Redraw
            },
            Key::PageUp => {
                self.scroll_up(body_height);
                KeyStep::Redraw
            },
            Key::Home => {
                self.jump_home();
                KeyStep::Redraw
            },
            Key::End => {
                self.jump_end(body_height);
                KeyStep::Redraw
            },
            _ => KeyStep::Forward,
        }
    }

    /// The check point after host callbacks have run — after an unmatched
    /// keystroke's keypress-then-resize pair, or after a resize event's
    /// resize callback: the loop terminates if the host requested quit and
    /// redraws otherwise.
    pub fn post_callback_step(&self) -> (step: CycleStep)
        ensures
            step == if self.quit_requested {
                CycleStep::Quit
            } else {
                CycleStep::Redraw
            },
    {
        if self.quit_requested {
            CycleStep::Quit
        } else {
            CycleStep::Redraw
        }
    }
}

} // verus!
