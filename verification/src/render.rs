//! Pure layout arithmetic the renderer needs: centering a region within
//! another, and placing the hardware cursor in the input box. Drawing
//! itself — widgets, styling, the terminal backend — stays outside the
//! library; it consumes these coordinates.

use vstd::prelude::*;

use crate::editor::App;
use crate::model::InputMode;

verus! {

/// A rectangular screen region in terminal cells: position of the top-left
/// corner plus width and height.
#[derive(Clone, Copy, Debug, PartialEq, Eq, Structural)]
pub struct ScreenRect {
    pub x: u16,
    pub y: u16,
    pub width: u16,
    pub height: u16,
}

impl ScreenRect {
    /// The region lies on the screen: its far edges fit in coordinates.
    pub open spec fn wf(self) -> bool {
        self.x + self.width <= u16::MAX && self.y + self.height <= u16::MAX
    }
}

/// Centers a `width` by `height` region (each capped to the available
/// space) within `area`, on both axes.
pub fn center(area: ScreenRect, width: u16, height: u16) -> (r: ScreenRect)
    requires
        area.wf(),
    ensures
        r.width == if width <= area.width { width as int } else { area.width as int },
        r.height == if height <= area.height { height as int } else { area.height as int },
        r.x == area.x + (area.width - r.width) / 2,
        r.y == area.y + (area.height - r.height) / 2,
        r.wf(),
{
    let w = if width <= area.width { width } else { area.width };
    let h = if height <= area.height { height } else { area.height };
    ScreenRect {
        x: area.x + (area.width - w) / 2,
        y: area.y + (area.height - h) / 2,
        width: w,
        height: h,
    }
}

impl App {
    /// Where the hardware cursor goes, given the input box's region: hidden
    /// in `Normal` mode; in `Searching` mode one cell right of the border
    /// at the cursor's character offset, one row below the top border.
    ///
    /// The column formula counts every character as one terminal column;
    /// wide characters are misplaced. That is an accepted limitation of
    /// the layout, not adjusted for here.
    pub fn cursor_position(&self, input_area: ScreenRect) -> (r: Option<(u16, u16)>)
        requires
            input_area.x + self.character_index + 1 <= u16::MAX,
            input_area.y + 1 <= u16::MAX,
        ensures
            self.input_mode == InputMode::Searching ==> r == Some(
                (
                    (input_area.x + self.character_index + 1) as u16,
                    (input_area.y + 1) as u16,
                ),
            ),
            self.input_mode == InputMode::Normal ==> r is None,
    {
        match self.input_mode {
            InputMode::Normal => None,
            InputMode::Searching => Some(
                (input_area.x + (self.character_index as u16) + 1, input_area.y + 1),
            ),
        }
    }
}

} // verus!
