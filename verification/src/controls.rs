//! Plain-value models of the toolkit controls the header is built
//! from. Each struct holds exactly the state the assembly logic sets
//! or reads; realising one as a real widget is the application's job.

use vstd::prelude::*;

verus! {

/// Identity of a control packed into the title bar, used to state in
/// which order the bar arranges its children.
#[derive(Clone, Copy, PartialEq, Eq, Structural, Debug)]
pub enum ControlId {
    Open,
    Save,
    SaveAs,
    Find,
    Menu,
}

/// One row of the popover settings panel, top to bottom.
#[derive(Clone, Copy, PartialEq, Eq, Structural, Debug)]
pub enum PopItem {
    ThemeSelector,
    Separator,
    FontControl,
    WrapLabel,
    WrapWordCheck,
    WrapRevealer,
}

/// A push button shown as a named icon, with a hover tooltip.
pub struct Button {
    pub icon: String,
    pub tooltip: String,
}

/// A two-state button shown as a named icon, with a hover tooltip.
pub struct ToggleButton {
    pub icon: String,
    pub tooltip: String,
    pub active: bool,
}

/// An on/off switch with a hover tooltip.
pub struct Switch {
    pub tooltip: String,
    pub active: bool,
}

/// A font picker. `font` is the selected font description; `None`
/// means the toolkit default is kept.
pub struct FontButton {
    pub tooltip: String,
    pub use_font: bool,
    pub font: Option<String>,
}

/// A static line of text.
pub struct Label {
    pub text: String,
}

/// A labelled checkbox.
pub struct CheckButton {
    pub label: String,
    pub active: bool,
}

/// A container that shows or hides its single child.
pub struct Revealer {
    pub reveal_child: bool,
}

/// The menu entry point that opens the settings popover.
pub struct MenuButton {
    pub icon: String,
    pub tooltip: String,
}

/// The transient settings panel anchored to the menu button, as the
/// top-to-bottom sequence of rows it shows.
pub struct Popover {
    pub items: Vec<PopItem>,
}

/// The title bar itself: window title, subtitle, close button, and
/// the controls packed at its two ends, each end left to right.
pub struct HeaderBar {
    pub title: String,
    pub subtitle: String,
    pub show_close_button: bool,
    pub start: Vec<ControlId>,
    pub end: Vec<ControlId>,
}

impl Button {
    /// An inactive icon button with the given icon name and tooltip.
    pub fn new(icon: &str, tooltip: &str) -> (b: Button)
        ensures
            b.icon@ == icon@,
            b.tooltip@ == tooltip@,
    {
        Button { icon: icon.to_owned(), tooltip: tooltip.to_owned() }
    }
}

impl ToggleButton {
    /// An icon toggle button that starts out inactive.
    pub fn new(icon: &str, tooltip: &str) -> (b: ToggleButton)
        ensures
            b.icon@ == icon@,
            b.tooltip@ == tooltip@,
            !b.active,
    {
        ToggleButton { icon: icon.to_owned(), tooltip: tooltip.to_owned(), active: false }
    }
}

impl Switch {
    /// A switch that starts out off.
    pub fn new(tooltip: &str) -> (s: Switch)
        ensures
            s.tooltip@ == tooltip@,
            !s.active,
    {
        Switch { tooltip: tooltip.to_owned(), active: false }
    }
}

impl FontButton {
    /// A font picker that starts at the toolkit default and renders
    /// its label in the selected font.
    pub fn new(tooltip: &str) -> (f: FontButton)
        ensures
            f.tooltip@ == tooltip@,
            f.use_font,
            f.font is None,
    {
        FontButton { tooltip: tooltip.to_owned(), use_font: true, font: None }
    }
}

impl Label {
    /// A label showing the given text.
    pub fn new(text: &str) -> (l: Label)
        ensures
            l.text@ == text@,
    {
        Label { text: text.to_owned() }
    }
}

impl CheckButton {
    /// A labelled checkbox that starts out unchecked.
    pub fn new(label: &str) -> (c: CheckButton)
        ensures
            c.label@ == label@,
            !c.active,
    {
        CheckButton { label: label.to_owned(), active: false }
    }
}

impl Revealer {
    /// A revealer whose child starts out hidden.
    pub fn new() -> (r: Revealer)
        ensures
            !r.reveal_child,
    {
        Revealer { reveal_child: false }
    }
}

impl MenuButton {
    /// A menu entry point with the given icon name and tooltip.
    pub fn new(icon: &str, tooltip: &str) -> (m: MenuButton)
        ensures
            m.icon@ == icon@,
            m.tooltip@ == tooltip@,
    {
        MenuButton { icon: icon.to_owned(), tooltip: tooltip.to_owned() }
    }
}

} // verus!
