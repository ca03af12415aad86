use vstd::prelude::*;

verus! {

/// Vertical scroll position of a text that may be taller than its window.
#[derive(Debug, Clone, Copy, PartialEq, Eq, Structural)]
pub struct Scroll {
    offset: usize,
    total_lines: usize,
    viewport_height: usize,
}

/// The largest first line that still fills the window.
pub open spec fn max_offset(total_lines: nat, viewport_height: nat) -> nat {
    if total_lines > viewport_height {
        (total_lines - viewport_height) as nat
    } else {
        0
    }
}

impl Scroll {
    /// First visible line.
    pub closed spec fn line_offset(&self) -> nat {
        self.offset as nat
    }

    pub closed spec fn total_lines(&self) -> nat {
        self.total_lines as nat
    }

    pub closed spec fn viewport_height(&self) -> nat {
        self.viewport_height as nat
    }

    /// The offset stays within `[0, max(0, total_lines - viewport_height)]`.
    pub open spec fn wf(&self) -> bool {
        self.line_offset() <= max_offset(self.total_lines(), self.viewport_height())
    }

    pub fn new() -> (r: Scroll)
        ensures
            r.wf(),
            r.line_offset() == 0,
            r.total_lines() == 0,
            r.viewport_height() == 0,
    {
        Scroll { offset: 0, total_lines: 0, viewport_height: 0 }
    }

    /// Records the size of the reflowed text and clamps the offset to it.
    pub fn adjust(&mut self, total_lines: usize, viewport_height: usize)
        ensures
            final(self).wf(),
            final(self).total_lines() == total_lines,
            final(self).viewport_height() == viewport_height,
            final(self).line_offset() == if old(self).line_offset() <= max_offset(
                total_lines as nat,
                viewport_height as nat,
            ) {
                old(self).line_offset()
            } else {
                max_offset(total_lines as nat, viewport_height as nat)
            },
    {
        let max = if total_lines > viewport_height {
            total_lines - viewport_height
        } else {
            0
        };
        self.total_lines = total_lines;
        self.viewport_height = viewport_height;
        if self.offset > max {
            self.offset = max;
        }
    }

    /// One line up, stopping at the first line.
    pub fn up(&mut self)
        requires
            old(self).wf(),
        ensures
            final(self).wf(),
            final(self).total_lines() == old(self).total_lines(),
            final(self).viewport_height() == old(self).viewport_height(),
            final(self).line_offset() == if old(self).line_offset() > 0 {
                (old(self).line_offset() - 1) as nat
            } else {
                0
            },
    {
        if self.offset > 0 {
            self.offset = self.offset - 1;
        }
    }

    /// One line down, stopping where the window reaches the last line.
    pub fn down(&mut self)
        requires
            old(self).wf(),
        ensures
            final(self).wf(),
            final(self).total_lines() == old(self).total_lines(),
            final(self).viewport_height() == old(self).viewport_height(),
            final(self).line_offset() == if old(self).line_offset() < max_offset(
                old(self).total_lines(),
                old(self).viewport_height(),
            ) {
                old(self).line_offset() + 1
            } else {
                old(self).line_offset()
            },
    {
        if self.total_lines > self.viewport_height && self.offset
            < self.total_lines - self.viewport_height {
            self.offset = self.offset + 1;
        }
    }

    /// The offset as a terminal row count, saturating.
    pub fn to_u16(&self) -> (r: u16)
        ensures
            r as nat == if self.line_offset() <= u16::MAX as nat {
                self.line_offset()
            } else {
                u16::MAX as nat
            },
    {
        if self.offset <= u16::MAX as usize {
            self.offset as u16
        } else {
            u16::MAX
        }
    }
}

} // verus!
