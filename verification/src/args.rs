//! Viewer configuration: the validated values the command line supplies
//! before the viewer is built. Argument parsing itself is terminal-side
//! work and lives with the caller; the viewer only reads these fields.

use vstd::prelude::*;

verus! {

/// Configuration of one viewer run.
#[derive(Debug, Clone)]
pub struct CliArgs {
    /// Path of the capture file (already checked to exist by the caller).
    pub file_path: String,
    /// Bytes shown per display line.
    pub bytes_per_line: usize,
    /// Cap on the number of lines shown, if any.
    pub max_lines: Option<usize>,
    /// First byte offset to show.
    pub offset: usize,
    /// Suppress color output.
    pub no_color: bool,
    /// Show more decoded detail.
    pub verbose: bool,
}

} // verus!
