use crate::console::{count_lines, line_count};
use vstd::math::min;
use vstd::prelude::*;

verus! {

/// A scroll window over the lines of a text: the half-open line range
/// `start_line..end_line`, at most `max_lines` lines tall.
pub struct TextScroller {
    pub start_line: usize,
    pub end_line: usize,
    pub max_lines: usize,
}

impl TextScroller {
    pub fn new(max_lines: usize) -> (t: Self)
        ensures
            t.start_line == 0,
            t.end_line == max_lines,
            t.max_lines == max_lines,
    {
        Self { start_line: 0, end_line: max_lines, max_lines }
    }

    pub fn scroll_up(&mut self)
        requires
            old(self).start_line <= old(self).end_line,
        ensures
            final(self).max_lines == old(self).max_lines,
            old(self).start_line > 0 ==> {
                &&& final(self).start_line == old(self).start_line - 1
                &&& final(self).end_line == old(self).end_line - 1
            },
            old(self).start_line == 0 ==> *final(self) == *old(self),
    {
        if self.start_line > 0 {
            self.start_line = self.start_line - 1;
            self.end_line = self.end_line - 1;
        }
    }

    pub fn scroll_down(&mut self, text: &String)
        requires
            old(self).start_line <= old(self).end_line,
        ensures
            final(self).max_lines == old(self).max_lines,
            old(self).end_line < min(
                line_count(text@) as int,
                old(self).max_lines as int,
            ) ==> {
                &&& final(self).start_line == old(self).start_line + 1
                &&& final(self).end_line == old(self).end_line + 1
            },
            old(self).end_line >= min(
                line_count(text@) as int,
                old(self).max_lines as int,
            ) ==> *final(self) == *old(self),
    {
        let count = count_lines(text.as_str());
        let limit = if count < self.max_lines {
            count
        } else {
            self.max_lines
        };
        if self.end_line < limit {
            self.start_line = self.start_line + 1;
            self.end_line = self.end_line + 1;
        }
    }
}

} // verus!
