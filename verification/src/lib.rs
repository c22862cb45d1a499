//! Model of a text editor's title bar: the controls it carries, the
//! popover settings panel, and the one reactive rule that links the
//! word-wrap checkbox to the visibility of the split-words checkbox.
//!
//! The model holds, as plain values, everything the assembly logic
//! decides: which controls exist, their icons, tooltips and labels,
//! the order they are packed in, and the initial font taken from a
//! stored preference. Realising the model as toolkit widgets is left
//! to the surrounding application.

pub mod controls;
pub mod header;
