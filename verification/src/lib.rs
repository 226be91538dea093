//! A headless accordion widget: an expandable panel with a header, a body
//! that is shown only while the panel is expanded, and list, item and button
//! sub-components.
//!
//! The widget itself is pure logic: a boolean expand flag, style strings
//! derived from the display configuration, and a markup tree built from the
//! props. Every function here carries a contract that pins its result down,
//! so a host that wires the tree and the toggle plan into its own rendering
//! and event handling gets the widget's behaviour exactly as stated.

pub mod accordion;
pub mod common;
pub mod markup;
pub mod style;
pub mod text;

pub use common::Align;
pub use common::Size;
