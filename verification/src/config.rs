//! The configuration of one run: keyword, start directory, flags, colour mode,
//! and the small decisions derived from them (output mode, colourization, exit
//! status).

use vstd::prelude::*;

verus! {

/// When match highlighting is applied to the output.
#[derive(Clone, Copy, PartialEq, Eq, Structural, Debug)]
pub enum ColorMode {
    /// Colour only when standard output is an interactive terminal.
    Auto,
    /// Always colour.
    Always,
    /// Never colour.
    Never,
}

/// Which of the three output modes is active for a run.
#[derive(Clone, Copy, PartialEq, Eq, Structural, Debug)]
pub enum OutputMode {
    /// Print every qualifying line as `path:line_number:text`.
    Full,
    /// Print `path:count` for every file with a qualifying line.
    Count,
    /// Print `path` for every file with a qualifying line.
    List,
}

/// Everything one invocation is configured with, built once from the command
/// line and immutable for the run.
pub struct Config {
    /// Pattern text to search for (regex or, with `fixed_strings`, a literal).
    pub keyword: String,
    /// Root directory of the walk.
    pub prefix: String,
    /// Case-insensitive matching.
    pub ignore_case: bool,
    /// A line qualifies when it does *not* match.
    pub invert_match: bool,
    /// Report a count per file instead of the lines.
    pub count: bool,
    /// Report only the names of files with a qualifying line.
    pub list_files: bool,
    /// Treat the keyword as literal text, not regex syntax.
    pub fixed_strings: bool,
    /// Match whole words only.
    pub word_regexp: bool,
    /// When to highlight matches.
    pub color: ColorMode,
}

/// The output mode selected by the two flags: counting wins over listing, and
/// the full listing is the default when neither flag is set.  Exactly one mode
/// is ever active.
pub open spec fn spec_output_mode(count: bool, list_files: bool) -> OutputMode {
    if count {
        OutputMode::Count
    } else if list_files {
        OutputMode::List
    } else {
        OutputMode::Full
    }
}

impl Config {
    /// The active output mode of this configuration.
    pub fn output_mode(&self) -> (mode: OutputMode)
        ensures
            mode == spec_output_mode(self.count, self.list_files),
    {
        if self.count {
            OutputMode::Count
        } else if self.list_files {
            OutputMode::List
        } else {
            OutputMode::Full
        }
    }
}

/// The colourization decision: `Always` forces colour on, `Never` forces it
/// off, and `Auto` colours exactly when standard output is an interactive
/// terminal.
pub open spec fn spec_should_colorize(mode: ColorMode, stdout_is_terminal: bool) -> bool {
    match mode {
        ColorMode::Always => true,
        ColorMode::Never => false,
        ColorMode::Auto => stdout_is_terminal,
    }
}

/// Decides once, before the walk begins, whether output is highlighted.
pub fn should_colorize(mode: ColorMode, stdout_is_terminal: bool) -> (colorize: bool)
    ensures
        colorize == spec_should_colorize(mode, stdout_is_terminal),
{
    match mode {
        ColorMode::Always => true,
        ColorMode::Never => false,
        ColorMode::Auto => stdout_is_terminal,
    }
}

/// Exit status of a completed walk: success when some file had a qualifying
/// line, failure otherwise.
pub fn exit_status(any_match: bool) -> (status: u8)
    ensures
        any_match ==> status == 0,
        !any_match ==> status == 1,
{
    if any_match {
        0
    } else {
        1
    }
}

/// Exit status of a run whose pattern failed to compile.
pub const PATTERN_ERROR_STATUS: u8 = 2;

} // verus!
