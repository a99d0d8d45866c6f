use vstd::prelude::*;

use crate::controller::App;
use crate::panel::{FocusedPanel, OutputDestination};

verus! {

/// A rectangle of terminal cells whose right and bottom edges stay within
/// the `u16` coordinate range.
#[derive(Copy, Clone, Debug, PartialEq, Eq, Structural)]
pub struct Rect {
    pub x: u16,
    pub y: u16,
    pub width: u16,
    pub height: u16,
}

impl Rect {
    pub open spec fn wf(&self) -> bool {
        self.x + self.width <= u16::MAX && self.y + self.height <= u16::MAX
    }
}

pub open spec fn centered_spec(width: u16, height: u16, r: Rect) -> Rect {
    Rect {
        x: (r.x + (if r.width >= width { r.width - width } else { 0 }) / 2) as u16,
        y: (r.y + (if r.height >= height { r.height - height } else { 0 }) / 2) as u16,
        width: if width <= r.width { width } else { r.width },
        height: if height <= r.height { height } else { r.height },
    }
}

/// The help line for the focused panel; the output panel's depends on the
/// destination.
pub open spec fn bottom_text_spec(p: FocusedPanel, d: OutputDestination) -> Seq<char> {
    match p {
        FocusedPanel::SourcePath => "enter - focus Filters  •  F1 - reload  •  F2 - generate  •  F3 - clear  •  F10/esc - close"@,
        FocusedPanel::Filters => "↑/↓ - navigate  •  space - (de)select  •  enter - focus Files  •  esc - focus Source  •  F1 - reload  •  F2 - generate  •  F10 - close"@,
        FocusedPanel::SourceFiles => "↑/↓ - navigate  •  space - (de)select  •  enter - count tokens & focus Output  •  esc - focus Filters  •  F1 - reload  •  F2 - generate  •  F10 - close"@,
        FocusedPanel::Output => match d {
            OutputDestination::Clipboard => "←/→ - toggle  •  enter/F2 - generate  •  esc - focus Files  •  F1 - reload  •  F10 - close"@,
            _ => "←/→ - toggle  •  enter - focus Output File  •  esc - focus Files  •  F1 - reload  •  F2 - generate  •  F10 - close"@,
        },
        FocusedPanel::OutputFile => "enter/F2 - generate  •  esc - focus Output  •  F1 - reload  •  F3 - clear  •  F10 - close"@,
    }
}

impl App {
    /// The help line shown under the panels.
    pub fn get_bottom_text(&self) -> (r: String)
        ensures
            r@ == bottom_text_spec(self.focused_panel, self.destination),
    {
        match self.focused_panel {
            FocusedPanel::SourcePath => "enter - focus Filters  •  F1 - reload  •  F2 - generate  •  F3 - clear  •  F10/esc - close".to_owned(),
            FocusedPanel::Filters => "↑/↓ - navigate  •  space - (de)select  •  enter - focus Files  •  esc - focus Source  •  F1 - reload  •  F2 - generate  •  F10 - close".to_owned(),
            FocusedPanel::SourceFiles => "↑/↓ - navigate  •  space - (de)select  •  enter - count tokens & focus Output  •  esc - focus Filters  •  F1 - reload  •  F2 - generate  •  F10 - close".to_owned(),
            FocusedPanel::Output => match self.destination {
                OutputDestination::Clipboard => "←/→ - toggle  •  enter/F2 - generate  •  esc - focus Files  •  F1 - reload  •  F10 - close".to_owned(),
                _ => "←/→ - toggle  •  enter - focus Output File  •  esc - focus Files  •  F1 - reload  •  F2 - generate  •  F10 - close".to_owned(),
            },
            FocusedPanel::OutputFile => "enter/F2 - generate  •  esc - focus Output  •  F1 - reload  •  F3 - clear  •  F10 - close".to_owned(),
        }
    }

    /// A rectangle of at most `width` by `height` cells, centred in `r`.
    pub fn centered_rect(&self, width: u16, height: u16, r: Rect) -> (c: Rect)
        requires
            r.wf(),
        ensures
            c == centered_spec(width, height, r),
            c.wf(),
    {
        let left = r.x + (r.width.saturating_sub(width)) / 2;
        let top = r.y + (r.height.saturating_sub(height)) / 2;
        Rect { x: left, y: top, width: if width <= r.width { width } else { r.width }, height: if height <= r.height { height } else { r.height } }
    }
}

} // verus!
