//! The header assembler: builds the title bar model and carries the
//! one reactive rule of the component, which keeps the split-words
//! checkbox revealed exactly while text wrapping is enabled.

use vstd::prelude::*;

use crate::controls::Button;
use crate::controls::CheckButton;
use crate::controls::ControlId;
use crate::controls::FontButton;
use crate::controls::HeaderBar;
use crate::controls::Label;
use crate::controls::MenuButton;
use crate::controls::PopItem;
use crate::controls::Popover;
use crate::controls::Revealer;
use crate::controls::Switch;
use crate::controls::ToggleButton;

verus! {

/// The fixed left-to-right order of the controls packed at the start
/// of the title bar.
pub open spec fn bar_start() -> Seq<ControlId> {
    seq![ControlId::Open, ControlId::Save, ControlId::SaveAs]
}

/// The fixed left-to-right order of the controls packed at the end of
/// the title bar.
pub open spec fn bar_end() -> Seq<ControlId> {
    seq![ControlId::Find, ControlId::Menu]
}

/// The fixed top-to-bottom order of the popover settings panel.
pub open spec fn popover_layout() -> Seq<PopItem> {
    seq![
        PopItem::ThemeSelector,
        PopItem::Separator,
        PopItem::FontControl,
        PopItem::Separator,
        PopItem::WrapLabel,
        PopItem::WrapWordCheck,
        PopItem::WrapRevealer,
    ]
}

/// The font the selector is initialised to: a non-empty stored
/// preference is applied; an absent or empty one leaves the toolkit
/// default (`None`) in place.
pub open spec fn applied_font(setting: Option<Seq<char>>) -> Option<Seq<char>> {
    match setting {
        Some(s) => if s.len() > 0 {
            Some(s)
        } else {
            None
        },
        None => None,
    }
}

/// The characters of an optional font string.
pub open spec fn font_view(f: Option<String>) -> Option<Seq<char>> {
    match f {
        Some(s) => Some(s@),
        None => None,
    }
}

/// Aggregate of the title bar and every interactive control in it.
/// The bar arranges the controls; the other fields are the handles an
/// outer component wires to real behaviours.
pub struct Header {
    pub container: HeaderBar,
    pub open: Button,
    pub save: Button,
    pub save_as: Button,
    pub theme_switch: Switch,
    pub font_button: FontButton,
    pub find_button: ToggleButton,
    pub enable_wrapping_word: CheckButton,
    pub enable_wrapping_char: CheckButton,
    pub wrap_label: Label,
    pub menu_button: MenuButton,
    pub popover: Popover,
    pub revealer: Revealer,
}

impl Header {
    /// The one stateful invariant of the component: the revealer that
    /// holds the split-words checkbox is shown exactly when the
    /// primary wrap checkbox is active.
    pub open spec fn wf(self) -> bool {
        self.revealer.reveal_child == self.enable_wrapping_word.active
    }

    /// The structural shape of the header: which controls the bar and
    /// the popover hold, and in what order.
    pub open spec fn well_arranged(self) -> bool {
        &&& self.container.start@ == bar_start()
        &&& self.container.end@ == bar_end()
        &&& self.popover.items@ == popover_layout()
    }

    /// The state of the header after the primary wrap checkbox is
    /// toggled to `active`: the checkbox records the new state and the
    /// revealer's visibility is set to exactly it.
    pub open spec fn with_word_wrap(self, active: bool) -> Header {
        Header {
            enable_wrapping_word: (CheckButton { active, ..self.enable_wrapping_word }),
            revealer: (Revealer { reveal_child: active }),
            ..self
        }
    }

    /// Build the header: open, save and save-as buttons at the start
    /// of the bar; the find toggle and the menu entry point at its
    /// end; and the settings popover holding the theme row, the font
    /// picker and the wrap checkboxes, with the split-words checkbox
    /// hidden while wrapping is off. A non-empty stored font
    /// preference is applied to the font selector; an absent or empty
    /// one leaves the selector at the toolkit default.
    pub fn new(font_setting: Option<String>) -> (h: Header)
        ensures
            h.wf(),
            h.well_arranged(),
            font_view(h.font_button.font) == applied_font(font_view(font_setting)),
            !h.enable_wrapping_word.active,
            !h.enable_wrapping_char.active,
            !h.revealer.reveal_child,
            !h.find_button.active,
            !h.theme_switch.active,
            h.container.title@ == "eddit"@,
            h.container.subtitle@ == "New file"@,
            h.container.show_close_button,
            h.font_button.use_font,
            h.open.icon@ == "document-open"@,
            h.open.tooltip@ == "Open a file\n   Ctrl + O"@,
            h.save.icon@ == "document-save"@,
            h.save.tooltip@ == "Save file\n Ctrl + S"@,
            h.save_as.icon@ == "document-save-as"@,
            h.save_as.tooltip@ == "Save as"@,
            h.find_button.icon@ == "edit-find"@,
            h.find_button.tooltip@ == "Find and replace\n         Ctrl + F"@,
            h.menu_button.icon@ == "open-menu"@,
            h.menu_button.tooltip@ == "Preferences"@,
            h.theme_switch.tooltip@ == "Toggle editor theme"@,
            h.font_button.tooltip@ == "Select font and size"@,
            h.enable_wrapping_word.label@ == "Enable text wrapping"@,
            h.enable_wrapping_char.label@ == "Split words over two lines"@,
            h.wrap_label.text@ == "Text Wrapping"@,
    {
        let mut start: Vec<ControlId> = Vec::new();
        start.push(ControlId::Open);
        start.push(ControlId::Save);
        start.push(ControlId::SaveAs);

        let mut end: Vec<ControlId> = Vec::new();
        end.push(ControlId::Find);
        end.push(ControlId::Menu);

        let container = HeaderBar {
            title: "eddit".to_owned(),
            subtitle: "New file".to_owned(),
            show_close_button: true,
            start,
            end,
        };

        let mut items: Vec<PopItem> = Vec::new();
        items.push(PopItem::ThemeSelector);
        items.push(PopItem::Separator);
        items.push(PopItem::FontControl);
        items.push(PopItem::Separator);
        items.push(PopItem::WrapLabel);
        items.push(PopItem::WrapWordCheck);
        items.push(PopItem::WrapRevealer);

        let mut font_button = FontButton::new("Select font and size");
        if let Some(font) = font_setting {
            if !font.as_str().is_empty() {
                font_button.font = Some(font);
            }
        }

        let h = Header {
            container,
            open: Button::new("document-open", "Open a file\n   Ctrl + O"),
            save: Button::new("document-save", "Save file\n Ctrl + S"),
            save_as: Button::new("document-save-as", "Save as"),
            theme_switch: Switch::new("Toggle editor theme"),
            font_button,
            find_button: ToggleButton::new("edit-find", "Find and replace\n         Ctrl + F"),
            enable_wrapping_word: CheckButton::new("Enable text wrapping"),
            enable_wrapping_char: CheckButton::new("Split words over two lines"),
            wrap_label: Label::new("Text Wrapping"),
            menu_button: MenuButton::new("open-menu", "Preferences"),
            popover: Popover { items },
            revealer: Revealer::new(),
        };
        assert(h.container.start@ =~= bar_start());
        assert(h.container.end@ =~= bar_end());
        assert(h.popover.items@ =~= popover_layout());
        h
    }

    /// React to the primary wrap checkbox being toggled: record the
    /// new checkbox state and set the revealer's visibility to exactly
    /// that state. Nothing else about the header changes.
    pub fn set_word_wrap(&mut self, active: bool)
        ensures
            *final(self) == old(self).with_word_wrap(active),
            final(self).enable_wrapping_word.active == active,
            final(self).revealer.reveal_child == active,
            final(self).wf(),
    {
        self.enable_wrapping_word.active = active;
        self.revealer.reveal_child = active;
    }
}

/// Law of the wrap toggle: for every boolean state of the primary
/// wrap checkbox, the split-words revealer's visibility equals that
/// boolean; toggling is idempotent; and toggling away and back to the
/// original checkbox state returns the whole header, visibility
/// included, to its original state.
pub proof fn lemma_word_wrap_visibility(h: Header, b: bool)
    requires
        h.wf(),
    ensures
        h.with_word_wrap(b).wf(),
        h.with_word_wrap(b).revealer.reveal_child == b,
        h.with_word_wrap(b).with_word_wrap(b) == h.with_word_wrap(b),
        h.with_word_wrap(b).with_word_wrap(h.enable_wrapping_word.active) == h,
{
}

} // verus!
