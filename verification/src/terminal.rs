//! Terminal geometry: the current terminal size, and the number of display
//! lines left once the help area is reserved.
//!
//! Raw-mode setup and teardown, screen clearing and event reading are
//! terminal I/O and live with the caller; only the size query and the
//! arithmetic on it live here.

use vstd::prelude::*;

verus! {

/// Terminal bookkeeping: whether raw mode is currently active. The flag is
/// flipped by the caller that actually switches the terminal.
#[derive(Debug, Clone, Copy, PartialEq, Eq, Structural)]
pub struct TerminalManager {
    pub is_raw_mode: bool,
}

/// Display lines available on a terminal `height` lines tall once
/// `reserved_lines` are set aside, saturating at zero.
pub open spec fn spec_available_lines(height: int, reserved_lines: int) -> int {
    if height >= reserved_lines {
        height - reserved_lines
    } else {
        0
    }
}

/// The saturating subtraction behind the line budget.
pub fn available_lines(height: usize, reserved_lines: usize) -> (r: usize)
    ensures
        r == spec_available_lines(height as int, reserved_lines as int),
{
    if height >= reserved_lines {
        height - reserved_lines
    } else {
        0
    }
}

impl TerminalManager {
    pub fn new() -> (r: Self)
        ensures
            r == (TerminalManager { is_raw_mode: false }),
    {
        TerminalManager { is_raw_mode: false }
    }

    /// Relies on `crossterm::terminal::size`: the current `(width, height)`
    /// of the terminal, each a `u16`, with `(80, 24)` standing in when the
    /// query fails. What comes back depends on the terminal, so only the
    /// bounds are stated.
    #[verifier::external_body]
    pub fn get_size(&self) -> (r: (usize, usize))
        ensures
            r.0 <= u16::MAX,
            r.1 <= u16::MAX,
    {
        crossterm::terminal::size().map(|(w, h)| (w as usize, h as usize)).unwrap_or((80, 24))
    }

    /// Display lines currently available: the terminal height minus the
    /// reserved lines, saturating at zero. The height is whatever the
    /// terminal reports, so only its bound carries over.
    pub fn calculate_display_lines(&self, reserved_lines: usize) -> (r: usize)
        ensures
            r <= u16::MAX,
    {
        let (_, height) = self.get_size();
        available_lines(height, reserved_lines)
    }
}

} // verus!
