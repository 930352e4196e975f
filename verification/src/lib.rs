//! Decision core of a minimal video viewer: pick a display sink
//! (hardware-accelerated when available, software otherwise), model the
//! two-element pipeline that wires a source to that sink, plan the window
//! that hosts the sink's widget, and drive the Quit-on-close state machine.
//! The surrounding GUI and media-framework calls live outside this crate;
//! every decision they act on is made and verified here.

pub mod bootstrap;
pub mod lifecycle;
pub mod pipeline;
pub mod sink;
pub mod window;
