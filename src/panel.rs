use vstd::prelude::*;

verus! {

/// The five regions of the screen that can own keyboard input.
#[derive(Copy, Clone, Debug, PartialEq, Eq, Structural)]
pub enum FocusedPanel {
    SourcePath,
    Filters,
    SourceFiles,
    Output,
    OutputFile,
}

/// Where a merged document goes.
#[derive(Copy, Clone, Debug, PartialEq, Eq, Structural)]
pub enum OutputDestination {
    File,
    Clipboard,
    FileAndClipboard,
}

/// The panel that follows `p` in the focus cycle; the output-file panel is
/// left out of the cycle when the destination is the clipboard alone.
pub open spec fn next_of(p: FocusedPanel, d: OutputDestination) -> FocusedPanel {
    match p {
        FocusedPanel::SourcePath => FocusedPanel::Filters,
        FocusedPanel::Filters => FocusedPanel::SourceFiles,
        FocusedPanel::SourceFiles => FocusedPanel::Output,
        FocusedPanel::Output => if d == OutputDestination::Clipboard {
            FocusedPanel::SourcePath
        } else {
            FocusedPanel::OutputFile
        },
        FocusedPanel::OutputFile => FocusedPanel::SourcePath,
    }
}

/// The panel that precedes `p` in the focus cycle.
pub open spec fn prev_of(p: FocusedPanel, d: OutputDestination) -> FocusedPanel {
    match p {
        FocusedPanel::SourcePath => if d == OutputDestination::Clipboard {
            FocusedPanel::Output
        } else {
            FocusedPanel::OutputFile
        },
        FocusedPanel::Filters => FocusedPanel::SourcePath,
        FocusedPanel::SourceFiles => FocusedPanel::Filters,
        FocusedPanel::Output => FocusedPanel::SourceFiles,
        FocusedPanel::OutputFile => FocusedPanel::Output,
    }
}

/// A key press, as far as the controller and its panels read it.
#[derive(Copy, Clone, Debug, PartialEq, Eq, Structural)]
pub enum Key {
    F(u8),
    Esc,
    Enter,
    Char(char),
    Backspace,
    Left,
    Right,
    Up,
    Down,
    Home,
    End,
    Other,
}

/// The destination that the output panel shows after a press of the right arrow.
pub open spec fn dest_right(d: OutputDestination) -> OutputDestination {
    match d {
        OutputDestination::File => OutputDestination::Clipboard,
        OutputDestination::Clipboard => OutputDestination::FileAndClipboard,
        OutputDestination::FileAndClipboard => OutputDestination::File,
    }
}

/// The destination that the output panel shows after a press of the left arrow.
pub open spec fn dest_left(d: OutputDestination) -> OutputDestination {
    match d {
        OutputDestination::File => OutputDestination::FileAndClipboard,
        OutputDestination::Clipboard => OutputDestination::File,
        OutputDestination::FileAndClipboard => OutputDestination::Clipboard,
    }
}

impl OutputDestination {
    pub open spec fn toggled_spec(self, key: Key) -> OutputDestination {
        if key == Key::Right {
            dest_right(self)
        } else if key == Key::Left {
            dest_left(self)
        } else {
            self
        }
    }

    /// The destination after the output panel reads `key`: the arrows step
    /// through the destinations.
    pub fn toggled(self, key: Key) -> (r: OutputDestination)
        ensures
            r == self.toggled_spec(key),
    {
        if key == Key::Right {
            match self {
                OutputDestination::File => OutputDestination::Clipboard,
                OutputDestination::Clipboard => OutputDestination::FileAndClipboard,
                OutputDestination::FileAndClipboard => OutputDestination::File,
            }
        } else if key == Key::Left {
            match self {
                OutputDestination::File => OutputDestination::FileAndClipboard,
                OutputDestination::Clipboard => OutputDestination::File,
                OutputDestination::FileAndClipboard => OutputDestination::Clipboard,
            }
        } else {
            self
        }
    }
}

/// Moving forward and then back (or back and then forward) returns to the
/// starting panel under the same destination. The output-file panel is not on
/// the cycle when the destination is the clipboard alone, so it is left out
/// there: both directions leave it for a neighbour on the cycle.
pub proof fn lemma_next_prev_inverse(p: FocusedPanel, d: OutputDestination)
    requires
        !(p == FocusedPanel::OutputFile && d == OutputDestination::Clipboard),
    ensures
        prev_of(next_of(p, d), d) == p,
        next_of(prev_of(p, d), d) == p,
{
}

} // verus!
