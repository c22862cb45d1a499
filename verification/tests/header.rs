use eddit_header::controls::ControlId;
use eddit_header::controls::PopItem;
use eddit_header::header::Header;

#[test]
fn font_applied_from_setting() {
    let h = Header::new(Some("Monospace 12".to_string()));
    assert_eq!(h.font_button.font, Some("Monospace 12".to_string()));
    assert!(h.font_button.use_font);
}

#[test]
fn font_default_when_setting_absent() {
    let h = Header::new(None);
    assert_eq!(h.font_button.font, None);
}

#[test]
fn font_default_when_setting_empty() {
    let h = Header::new(Some(String::new()));
    assert_eq!(h.font_button.font, None);
}

#[test]
fn bar_holds_exactly_the_controls_in_order() {
    let h = Header::new(None);
    assert_eq!(
        h.container.start,
        vec![ControlId::Open, ControlId::Save, ControlId::SaveAs]
    );
    assert_eq!(h.container.end, vec![ControlId::Find, ControlId::Menu]);
}

#[test]
fn popover_rows_in_order() {
    let h = Header::new(None);
    assert_eq!(
        h.popover.items,
        vec![
            PopItem::ThemeSelector,
            PopItem::Separator,
            PopItem::FontControl,
            PopItem::Separator,
            PopItem::WrapLabel,
            PopItem::WrapWordCheck,
            PopItem::WrapRevealer,
        ]
    );
}

#[test]
fn wrap_toggle_sets_revealer_visibility() {
    let mut h = Header::new(None);
    assert!(!h.revealer.reveal_child);
    h.set_word_wrap(true);
    assert!(h.enable_wrapping_word.active);
    assert!(h.revealer.reveal_child);
    h.set_word_wrap(false);
    assert!(!h.enable_wrapping_word.active);
    assert!(!h.revealer.reveal_child);
}

#[test]
fn wrap_toggle_twice_restores_visibility() {
    let mut h = Header::new(None);
    let before = h.revealer.reveal_child;
    let original = h.enable_wrapping_word.active;
    h.set_word_wrap(true);
    h.set_word_wrap(original);
    assert_eq!(h.revealer.reveal_child, before);
}

#[test]
fn titles_and_close_button() {
    let h = Header::new(None);
    assert_eq!(h.container.title, "eddit");
    assert_eq!(h.container.subtitle, "New file");
    assert!(h.container.show_close_button);
}

#[test]
fn icons_and_tooltips() {
    let h = Header::new(None);
    assert_eq!(h.open.icon, "document-open");
    assert_eq!(h.open.tooltip, "Open a file\n   Ctrl + O");
    assert_eq!(h.save.icon, "document-save");
    assert_eq!(h.save.tooltip, "Save file\n Ctrl + S");
    assert_eq!(h.save_as.icon, "document-save-as");
    assert_eq!(h.save_as.tooltip, "Save as");
    assert_eq!(h.find_button.icon, "edit-find");
    assert_eq!(h.find_button.tooltip, "Find and replace\n         Ctrl + F");
    assert_eq!(h.menu_button.icon, "open-menu");
    assert_eq!(h.menu_button.tooltip, "Preferences");
    assert_eq!(h.theme_switch.tooltip, "Toggle editor theme");
    assert_eq!(h.font_button.tooltip, "Select font and size");
    assert_eq!(h.enable_wrapping_word.label, "Enable text wrapping");
    assert_eq!(h.enable_wrapping_char.label, "Split words over two lines");
    assert_eq!(h.wrap_label.text, "Text Wrapping");
}

#[test]
fn controls_start_inactive() {
    let h = Header::new(None);
    assert!(!h.enable_wrapping_word.active);
    assert!(!h.enable_wrapping_char.active);
    assert!(!h.find_button.active);
    assert!(!h.theme_switch.active);
    assert!(!h.revealer.reveal_child);
}
