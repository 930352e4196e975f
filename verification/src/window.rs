//! Plan of the top-level window that hosts the video.
//!
//! The window has a fixed default size and a single vertical layout holding
//! the sink's display widget followed by one control button. The button is a
//! placeholder: it is wired to nothing. There is no resizing logic and there
//! are no further controls.

use vstd::prelude::*;

verus! {

/// The default width, in pixels, of the viewer window.
pub const DEFAULT_WINDOW_WIDTH: i32 = 320;

/// The default height, in pixels, of the viewer window.
pub const DEFAULT_WINDOW_HEIGHT: i32 = 240;

/// The widgets the window's vertical layout can hold: the sink's video
/// display widget, and the inert control button.
#[derive(Clone, Copy, Debug, PartialEq, Eq, Structural)]
pub enum WidgetSlot {
    VideoDisplay,
    ControlButton,
}

/// What the top-level window is built from: its default size and the
/// children of its vertical layout, top to bottom.
pub struct WindowPlan {
    pub width: i32,
    pub height: i32,
    pub children: Vec<WidgetSlot>,
}

/// The plan of the viewer's one window: default size 320 by 240, and a
/// vertical stack of the video display widget followed by the control
/// button, nothing else.
pub fn build_window_plan() -> (w: WindowPlan)
    ensures
        w.width == DEFAULT_WINDOW_WIDTH,
        w.height == DEFAULT_WINDOW_HEIGHT,
        w.children@ =~= seq![WidgetSlot::VideoDisplay, WidgetSlot::ControlButton],
{
    let mut children: Vec<WidgetSlot> = Vec::new();
    children.push(WidgetSlot::VideoDisplay);
    children.push(WidgetSlot::ControlButton);
    WindowPlan { width: DEFAULT_WINDOW_WIDTH, height: DEFAULT_WINDOW_HEIGHT, children }
}

} // verus!
