//! Pagination state machine: a viewport over a logical-line-indexed document.
//!
//! All operations are pure transitions on the viewport fields. Clamping is
//! saturating: no operation underflows when the document is shorter than one
//! page, and every transition leaves the start line within the document
//! bounds.

use vstd::prelude::*;

verus! {

/// Viewport position over a document of `total_lines` logical lines, showing
/// `lines_per_page` lines starting at `display_start_line`.
#[derive(Debug, Clone, Copy, PartialEq, Eq, Structural)]
pub struct PaginationState {
    pub lines_per_page: usize,
    pub display_start_line: usize,
    pub total_lines: usize,
}

impl PaginationState {
    /// Largest start line that still shows the final page (0 when the
    /// document is shorter than one page).
    pub open spec fn spec_max_start_line(self) -> int {
        if self.total_lines >= self.lines_per_page {
            self.total_lines - self.lines_per_page
        } else {
            0
        }
    }

    /// Well-formedness: the viewport never starts past the final page.
    pub open spec fn wf(self) -> bool {
        self.display_start_line <= self.spec_max_start_line()
    }

    pub open spec fn spec_scroll_up(self) -> Self {
        if self.display_start_line > 0 {
            PaginationState { display_start_line: (self.display_start_line - 1) as usize, ..self }
        } else {
            self
        }
    }

    pub open spec fn spec_scroll_down(self) -> Self {
        if self.display_start_line < self.spec_max_start_line() {
            PaginationState { display_start_line: (self.display_start_line + 1) as usize, ..self }
        } else {
            self
        }
    }

    pub open spec fn spec_page_up(self) -> Self {
        if self.display_start_line >= self.lines_per_page {
            PaginationState {
                display_start_line: (self.display_start_line - self.lines_per_page) as usize,
                ..self
            }
        } else {
            PaginationState { display_start_line: 0, ..self }
        }
    }

    pub open spec fn spec_page_down(self) -> Self {
        let stepped = self.display_start_line + self.lines_per_page;
        let clamped = if stepped <= self.spec_max_start_line() {
            stepped
        } else {
            self.spec_max_start_line()
        };
        PaginationState { display_start_line: clamped as usize, ..self }
    }

    pub open spec fn spec_go_to_first_page(self) -> Self {
        PaginationState { display_start_line: 0, ..self }
    }

    pub open spec fn spec_go_to_last_page(self) -> Self {
        PaginationState { display_start_line: self.spec_max_start_line() as usize, ..self }
    }

    pub open spec fn spec_update_lines_per_page(self, lines_per_page: usize) -> Self {
        let resized = PaginationState { lines_per_page, ..self };
        let clamped = if self.display_start_line <= resized.spec_max_start_line() {
            self.display_start_line as int
        } else {
            resized.spec_max_start_line()
        };
        PaginationState { lines_per_page, display_start_line: clamped as usize, ..self }
    }

    /// A fresh viewport starts at the first line.
    pub fn new(lines_per_page: usize, total_lines: usize) -> (r: Self)
        ensures
            r == (PaginationState { lines_per_page, display_start_line: 0, total_lines }),
            r.wf(),
    {
        PaginationState { lines_per_page, display_start_line: 0, total_lines }
    }

    pub fn display_start_line(&self) -> (r: usize)
        ensures
            r == self.display_start_line,
    {
        self.display_start_line
    }

    pub fn lines_per_page(&self) -> (r: usize)
        ensures
            r == self.lines_per_page,
    {
        self.lines_per_page
    }

    pub fn total_lines(&self) -> (r: usize)
        ensures
            r == self.total_lines,
    {
        self.total_lines
    }

    /// Page number of the current start line, counted from 1.
    pub fn current_page(&self) -> (r: usize)
        requires
            self.lines_per_page > 0,
            self.wf(),
        ensures
            r == self.display_start_line / self.lines_per_page + 1,
    {
        proof {
            lemma_div_bound(self.display_start_line as int, self.lines_per_page as int);
        }
        self.display_start_line / self.lines_per_page + 1
    }

    /// Number of pages needed to show the whole document.
    pub fn total_pages(&self) -> (r: usize)
        requires
            self.lines_per_page > 0,
        ensures
            r == (self.total_lines + self.lines_per_page - 1) / self.lines_per_page as int,
    {
        if self.total_lines == 0 {
            proof {
                vstd::arithmetic::div_mod::lemma_basic_div_specific_divisor(
                    self.lines_per_page as int,
                );
            }
            0
        } else {
            let r = (self.total_lines - 1) / self.lines_per_page + 1;
            proof {
                lemma_div_ceil(self.total_lines as int, self.lines_per_page as int);
                lemma_div_bound((self.total_lines - 1) as int, self.lines_per_page as int);
            }
            r
        }
    }

    /// Move the viewport up one line; no-op at the top.
    pub fn scroll_up(&mut self)
        ensures
            *final(self) == old(self).spec_scroll_up(),
            old(self).wf() ==> final(self).wf(),
    {
        if self.display_start_line > 0 {
            self.display_start_line = self.display_start_line - 1;
        }
    }

    /// Move the viewport down one line; no-op once the final page is shown.
    pub fn scroll_down(&mut self)
        ensures
            *final(self) == old(self).spec_scroll_down(),
            old(self).wf() ==> final(self).wf(),
    {
        let max_start_line = if self.total_lines >= self.lines_per_page {
            self.total_lines - self.lines_per_page
        } else {
            0
        };
        if self.display_start_line < max_start_line {
            self.display_start_line = self.display_start_line + 1;
        }
    }

    /// Jump one page towards the start, clamping at line 0.
    pub fn page_up(&mut self)
        ensures
            *final(self) == old(self).spec_page_up(),
            old(self).wf() ==> final(self).wf(),
    {
        if self.display_start_line >= self.lines_per_page {
            self.display_start_line = self.display_start_line - self.lines_per_page;
        } else {
            self.display_start_line = 0;
        }
    }

    /// Jump one page towards the end, clamping at the final page.
    pub fn page_down(&mut self)
        ensures
            *final(self) == old(self).spec_page_down(),
            final(self).wf(),
    {
        let max_start_line = if self.total_lines >= self.lines_per_page {
            self.total_lines - self.lines_per_page
        } else {
            0
        };
        if self.display_start_line >= max_start_line {
            self.display_start_line = max_start_line;
        } else {
            // display_start_line < max_start_line <= total_lines, so the sum
            // stays below total_lines + lines_per_page <= usize::MAX + ... ;
            // more precisely it is below total_lines, hence no overflow.
            let stepped = self.display_start_line + self.lines_per_page;
            self.display_start_line = if stepped <= max_start_line {
                stepped
            } else {
                max_start_line
            };
        }
    }

    pub fn go_to_first_page(&mut self)
        ensures
            *final(self) == old(self).spec_go_to_first_page(),
            final(self).wf(),
    {
        self.display_start_line = 0;
    }

    pub fn go_to_last_page(&mut self)
        ensures
            *final(self) == old(self).spec_go_to_last_page(),
            final(self).wf(),
    {
        self.display_start_line = if self.total_lines >= self.lines_per_page {
            self.total_lines - self.lines_per_page
        } else {
            0
        };
    }

    /// Change the page height and re-clamp the start line to the new bounds.
    pub fn update_lines_per_page(&mut self, lines_per_page: usize)
        ensures
            *final(self) == old(self).spec_update_lines_per_page(lines_per_page),
            final(self).wf(),
    {
        self.lines_per_page = lines_per_page;
        let max_start_line = if self.total_lines >= self.lines_per_page {
            self.total_lines - self.lines_per_page
        } else {
            0
        };
        if self.display_start_line > max_start_line {
            self.display_start_line = max_start_line;
        }
    }
}

/// Every pagination operation that is already a no-op leaves the viewport
/// unchanged: scrolling or paging up at the top, scrolling or paging down on
/// the final page, jumping to a page already shown, and resizing to the
/// current page height.
pub proof fn lemma_noop_operations_are_identity(p: PaginationState)
    requires
        p.wf(),
    ensures
        p.display_start_line == 0 ==> p.spec_scroll_up() == p,
        p.display_start_line == p.spec_max_start_line() ==> p.spec_scroll_down() == p,
        p.display_start_line == 0 ==> p.spec_page_up() == p,
        p.display_start_line == p.spec_max_start_line() ==> p.spec_page_down() == p,
        p.display_start_line == 0 ==> p.spec_go_to_first_page() == p,
        p.display_start_line == p.spec_max_start_line() ==> p.spec_go_to_last_page() == p,
        p.spec_update_lines_per_page(p.lines_per_page) == p,
{
}

proof fn lemma_div_bound(a: int, b: int)
    requires
        0 <= a,
        1 <= b,
    ensures
        0 <= a / b <= a,
{
    vstd::arithmetic::div_mod::lemma_div_pos_is_pos(a, b);
    vstd::arithmetic::div_mod::lemma_div_nonincreasing(a, b);
}

proof fn lemma_div_ceil(t: int, l: int)
    requires
        1 <= t,
        1 <= l,
    ensures
        (t + l - 1) / l == (t - 1) / l + 1,
{
    vstd::arithmetic::div_mod::lemma_div_plus_one(t - 1, l);
}

} // verus!
