//! MinUI: a small terminal UI toolkit whose layout, scrolling, text-editing and
//! rendering logic is specified and proved with Verus.
//!
//! Widgets draw into a [`Canvas`], a buffered surface that records every write
//! (already moved into surface coordinates and clipped) so that a terminal backend can replay it.

pub mod color;
pub mod error;
pub mod input;
pub mod text;
pub mod textops;
pub mod window;
pub mod widgets;

pub use color::{Color, ColorPair};
pub use error::Error;
pub use text::TabPolicy;
pub use window::{Canvas, CursorSpec, DrawOp, Window};
pub use widgets::{BorderChars, FocusStyle, WindowView, Widget, WidgetArea};
pub use widgets::{Alignment, Label, Text, TextBlock, TextWrapMode, VerticalAlignment};
pub use widgets::{Panel, Table, TableColumn, Viewport, Border, Spinner, Tooltip, HoverTracker, StatusBar,
    StatusBarPosition, FigletText, ScrollBox};
pub use widgets::container::{Container, LayoutDirection, Padding};
pub use widgets::input::{TextInput, TextInputState};
pub use widgets::scroll::{ScrollOffset, ScrollOrientation, ScrollSize, ScrollState};
pub use input::{Event, KeyKind, MouseButton};
