//! Errors reported by the library.

use vstd::prelude::*;

verus! {

/// Errors reported while drawing or validating widgets.
#[derive(Debug, Clone, PartialEq, Eq)]
pub enum Error {
    /// A line index past the bottom of the window.
    LineOutOfBoundsError { y: u16, height: u16 },
    /// A rectangle with a corner outside the window.
    BoxOutOfBoundsError { x1: u16, y1: u16, x2: u16, y2: u16, width: u16, height: u16 },
    /// A widget that does not fit the window it is validated against.
    WidgetValidationError { widget_width: u16, widget_height: u16, window_width: u16, window_height: u16 },
    /// A FIGlet font could not be loaded; the message says why.
    FontLoadError { message: String },
    /// The text could not be rendered in the FIGlet font.
    RenderError { text: String },
    /// Terminal input or output failed; the message says why.
    IoError { message: String },
}

} // verus!
