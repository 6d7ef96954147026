//! Layout: how a surface and the terminal dimensions turn into screen
//! writes. The scrollable body gets the rows left over by the pinned
//! header and footer, and a redraw is a pure function of the surface and
//! the terminal height.

use vstd::prelude::*;

use crate::surface::PagerHandle;

verus! {

/// Rows left for the scrollable body on a terminal of `height` rows once
/// `header` rows are pinned at the top and `footer` rows at the bottom,
/// floored at zero.
pub open spec fn spec_body_height(header: nat, footer: nat, height: nat) -> nat {
    if header + footer <= height {
        (height - header - footer) as nat
    } else {
        0
    }
}

/// How many of the `len` buffer lines are visible in a body of `body` rows
/// when the scroll offset is `top`: the lines from `top` on, capped at the
/// body height.
pub open spec fn spec_visible_body_count(len: nat, top: nat, body: nat) -> nat {
    let avail = if top < len {
        (len - top) as nat
    } else {
        0
    };
    if body <= avail {
        body
    } else {
        avail
    }
}

/// How many header lines fit on a terminal of `height` rows.
pub open spec fn spec_visible_header_count(header: nat, height: nat) -> nat {
    if header <= height {
        header
    } else {
        height
    }
}

/// How many footer lines fit below the body on a terminal of `height`
/// rows: the footer starts at row `header + body`, and only rows before
/// `height` exist.
pub open spec fn spec_visible_footer_count(header: nat, footer: nat, height: nat) -> nat {
    let body = spec_body_height(header, footer, height);
    if header + body >= height {
        0
    } else if footer <= height - header - body {
        footer
    } else {
        (height - header - body) as nat
    }
}

/// One screen write of a redraw: `text` placed at the start of row `row`.
pub struct ScreenLine {
    /// Zero-based terminal row the line is written at.
    pub row: u16,
    /// The line's text.
    pub text: String,
}

/// Number of rows available to the scrollable body: the terminal height
/// minus the pinned header and footer heights, floored at zero so that an
/// oversized pinned region can never underflow.
pub fn body_height(header: usize, footer: usize, height: usize) -> (body: usize)
    ensures
        body == spec_body_height(header as nat, footer as nat, height as nat),
{
    if header <= height && footer <= height - header {
        height - header - footer
    } else {
        0
    }
}

impl PagerHandle {
    /// The pinned header's height in rows, zero if none was set.
    pub fn header_height(&self) -> (n: usize)
        ensures
            n == self.header_lines().len(),
    {
        match &self.header {
            Some(lines) => lines.len(),
            None => 0,
        }
    }

    /// The pinned footer's height in rows, zero if none was set.
    pub fn footer_height(&self) -> (n: usize)
        ensures
            n == self.footer_lines().len(),
    {
        match &self.footer {
            Some(lines) => lines.len(),
            None => 0,
        }
    }

    /// The full, deterministic repaint of this surface on a terminal of
    /// `height` rows: header lines from row 0, up to `body_height` buffer
    /// lines from `top_row` at the rows below the header, then the footer
    /// directly below the body — each write on a row of its own, and only
    /// rows that exist on the terminal.
    pub fn render_plan(&self, height: u16) -> (plan: Vec<ScreenLine>)
        ensures
            ({
                let h = height as nat;
                let hh = self.header_lines().len();
                let fh = self.footer_lines().len();
                let body = spec_body_height(hh, fh, h);
                let nh = spec_visible_header_count(hh, h);
                let nb = spec_visible_body_count(
                    self.buffer_lines().len(),
                    self.top_row as nat,
                    body,
                );
                let nf = spec_visible_footer_count(hh, fh, h);
                &&& plan@.len() == nh + nb + nf
                &&& forall|i: int|
                    0 <= i < nh ==> (#[trigger] plan@[i]).row == i && plan@[i].text@
                        == self.header_lines()[i]
                &&& forall|i: int|
                    nh <= i < nh + nb ==> (#[trigger] plan@[i]).row == hh + (i - nh)
                        && plan@[i].text@ == self.buffer_lines()[self.top_row + (i - nh)]
                &&& forall|i: int|
                    nh + nb <= i < nh + nb + nf ==> (#[trigger] plan@[i]).row == hh + body + (i
                        - nh - nb) && plan@[i].text@ == self.footer_lines()[i - nh - nb]
            }),
    {
        let h = height as usize;
        let hh = self.header_height();
        let fh = self.footer_height();
        let body = body_height(hh, fh, h);
        let mut plan: Vec<ScreenLine> = Vec::new();

        if let Some(lines) = &self.header {
            let nh: usize = if lines.len() <= h {
                lines.len()
            } else {
                h
            };
            let mut r: usize = 0;
            while r < nh
                invariant
                    nh <= lines@.len(),
                    nh <= h <= u16::MAX + 1,
                    r <= nh,
                    plan@.len() == r,
                    self.header matches Some(hl) && hl@ == lines@,
                    forall|i: int|
                        0 <= i < r ==> (#[trigger] plan@[i]).row == i && plan@[i].text@
                            == self.header_lines()[i],
                decreases nh - r,
    {
                plan.push(ScreenLine { row: r as u16, text: lines[r].clone() });
                r += 1;
            }
        }

        let ghost nh = plan@.len();
        let len = self.buffer.len();
        let avail: usize = if self.top_row < len {
            len - self.top_row
        } else {
            0
        };
        let nb: usize = if body <= avail {
            body
        } else {
            avail
        };
        let mut r: usize = 0;
        while r < nb
            invariant
                nb == spec_visible_body_count(
                    self.buffer_lines().len(),
                    self.top_row as nat,
                    body as nat,
                ),
                body == spec_body_height(
                    self.header_lines().len(),
                    self.footer_lines().len(),
                    height as nat,
                ),
                hh == self.header_lines().len(),
                nh == spec_visible_header_count(self.header_lines().len(), height as nat),
                nb > 0 ==> self.top_row + nb <= self.buffer@.len(),
                nb > 0 ==> self.top_row + nb <= usize::MAX,
                nb > 0 ==> hh + body <= height,
                r <= nb,
                plan@.len() == nh + r,
                forall|i: int|
                    0 <= i < nh ==> (#[trigger] plan@[i]).row == i && plan@[i].text@
                        == self.header_lines()[i],
                forall|i: int|
                    nh <= i < nh + r ==> (#[trigger] plan@[i]).row == hh + (i - nh)
                        && plan@[i].text@ == self.buffer_lines()[self.top_row + (i - nh)],
            decreases nb - r,
        {
            plan.push(
                ScreenLine { row: (hh + r) as u16, text: self.buffer[self.top_row + r].clone() },
            );
            r += 1;
        }

        let ghost nbody = plan@.len() - nh;
        if hh < h {
            let start: usize = hh + body;
            if let Some(lines) = &self.footer {
                let rem: usize = if start < h {
                    h - start
                } else {
                    0
                };
                let nf: usize = if lines.len() <= rem {
                    lines.len()
                } else {
                    rem
                };
                let mut r: usize = 0;
                while r < nf
                    invariant
                        nf == spec_visible_footer_count(
                            self.header_lines().len(),
                            self.footer_lines().len(),
                            height as nat,
                        ),
                        nf <= lines@.len(),
                        self.footer matches Some(fl) && fl@ == lines@,
                        start == hh + spec_body_height(
                            self.header_lines().len(),
                            self.footer_lines().len(),
                            height as nat,
                        ),
                        hh == self.header_lines().len(),
                        nh == spec_visible_header_count(self.header_lines().len(), height as nat),
                        nbody == spec_visible_body_count(
                            self.buffer_lines().len(),
                            self.top_row as nat,
                            spec_body_height(
                                self.header_lines().len(),
                                self.footer_lines().len(),
                                height as nat,
                            ),
                        ),
                        start + nf <= height,
                        r <= nf,
                        plan@.len() == nh + nbody + r,
                        forall|i: int|
                            0 <= i < nh ==> (#[trigger] plan@[i]).row == i && plan@[i].text@
                                == self.header_lines()[i],
                        forall|i: int|
                            nh <= i < nh + nbody ==> (#[trigger] plan@[i]).row == hh + (i - nh)
                                && plan@[i].text@ == self.buffer_lines()[self.top_row + (i - nh)],
                        forall|i: int|
                            nh + nbody <= i < nh + nbody + r ==> (#[trigger] plan@[i]).row
                                == start + (i - nh - nbody) && plan@[i].text@
                                == self.footer_lines()[i - nh - nbody],
                    decreases nf - r,
                {
                    plan.push(ScreenLine { row: (start + r) as u16, text: lines[r].clone() });
                    r += 1;
                }
            }
        }
        plan
    }
}

} // verus!
