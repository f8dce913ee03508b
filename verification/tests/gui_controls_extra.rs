use std::sync::{Arc, Mutex};
use logic_nih_plug::gui::components::Bounds;
use logic_nih_plug::gui::controls_extra::{
    CheckBox, ComboBox, DrawableButton, HyperlinkButton, ImageComponent, ImageScalingMode, TextEditor, ToggleButton,
    Tooltip,
};

#[test]
fn combo_box_creation() {
    let cb = ComboBox::new();
    assert_eq!(cb.num_items(), 0);
    assert!(cb.selected_index().is_none());
    assert!(cb.selected_item().is_none());
}

#[test]
fn combo_box_add_items() {
    let mut cb = ComboBox::new();
    cb.add_item("Alpha");
    cb.add_item("Beta");
    cb.add_item("Gamma");
    assert_eq!(cb.num_items(), 3);
    assert_eq!(cb.item(0), Some("Alpha"));
    assert_eq!(cb.item(1), Some("Beta"));
    assert_eq!(cb.item(2), Some("Gamma"));
    assert_eq!(cb.item(3), None);
}

#[test]
fn combo_box_select() {
    let mut cb = ComboBox::new();
    cb.add_item("Alpha");
    cb.add_item("Beta");
    cb.set_selected_index(Some(1));
    assert_eq!(cb.selected_index(), Some(1));
    assert_eq!(cb.selected_item(), Some("Beta"));
}

#[test]
fn combo_box_select_out_of_range() {
    let mut cb = ComboBox::new();
    cb.add_item("Alpha");
    cb.set_selected_index(Some(5));
    // Should not change
    assert!(cb.selected_index().is_none());
}

#[test]
fn combo_box_deselect() {
    let mut cb = ComboBox::new();
    cb.add_item("Alpha");
    cb.set_selected_index(Some(0));
    assert_eq!(cb.selected_index(), Some(0));
    cb.set_selected_index(None);
    assert!(cb.selected_index().is_none());
}

#[test]
fn combo_box_clear() {
    let mut cb = ComboBox::new();
    cb.add_item("Alpha");
    cb.add_item("Beta");
    cb.set_selected_index(Some(0));
    cb.clear();
    assert_eq!(cb.num_items(), 0);
    assert!(cb.selected_index().is_none());
}

#[test]
fn combo_box_on_change() {

    let mut cb = ComboBox::new();
    cb.add_item("Alpha");
    cb.add_item("Beta");

    let last = Arc::new(Mutex::new((usize::MAX, String::new())));
    let last_clone = last.clone();
    cb.set_on_change(move |i, s| {
        *last_clone.lock().unwrap() = (i, s.to_string());
    });

    cb.set_selected_index(Some(1));
    let (idx, txt) = &*last.lock().unwrap();
    assert_eq!(*idx, 1);
    assert_eq!(txt, "Beta");
}

#[test]
fn combo_box_default() {
    let cb = ComboBox::default();
    assert_eq!(cb.num_items(), 0);
}

#[test]
fn text_editor_creation() {
    let ed = TextEditor::new();
    assert_eq!(ed.text(), "");
    assert!(!ed.is_multiline());
    assert!(!ed.is_read_only());
    assert_eq!(ed.cursor_position(), 0);
}

#[test]
fn text_editor_set_text() {
    let mut ed = TextEditor::new();
    ed.set_text("Hello");
    assert_eq!(ed.text(), "Hello");
    assert_eq!(ed.cursor_position(), 0);
}

#[test]
fn text_editor_clear() {
    let mut ed = TextEditor::new();
    ed.set_text("Hello");
    ed.clear();
    assert_eq!(ed.text(), "");
}

#[test]
fn text_editor_max_length() {
    let mut ed = TextEditor::new();
    ed.set_max_length(Some(3));
    ed.set_text("Hello");
    assert_eq!(ed.text(), "Hel");
}

#[test]
fn text_editor_insert_text() {
    let mut ed = TextEditor::new();
    ed.set_text("Hel");
    ed.set_cursor_position(3);
    ed.insert_text("lo");
    assert_eq!(ed.text(), "Hello");
    assert_eq!(ed.cursor_position(), 5);
}

#[test]
fn text_editor_insert_at_middle() {
    let mut ed = TextEditor::new();
    ed.set_text("Hlo");
    ed.set_cursor_position(1);
    ed.insert_text("el");
    assert_eq!(ed.text(), "Hello");
    assert_eq!(ed.cursor_position(), 3);
}

#[test]
fn text_editor_read_only() {
    let mut ed = TextEditor::new();
    ed.set_read_only(true);
    ed.set_text("Hello");
    ed.insert_text("World");
    // set_text and clear work on a read-only editor; insert_text does not.
    ed.clear();
    ed.set_text("Hello");
    ed.set_cursor_position(0);
    ed.insert_text("X");
    assert_eq!(ed.text(), "Hello");
}

#[test]
fn text_editor_multiline() {
    let ed = TextEditor::multiline();
    assert!(ed.is_multiline());
}

#[test]
fn text_editor_on_text_change() {

    let mut ed = TextEditor::new();
    let last = Arc::new(Mutex::new(String::new()));
    let last_clone = last.clone();
    ed.set_on_text_change(move |s| {
        *last_clone.lock().unwrap() = s.to_string();
    });

    ed.set_text("Hello");
    assert_eq!(*last.lock().unwrap(), "Hello");
}

#[test]
fn text_editor_cursor_clamped() {
    let mut ed = TextEditor::new();
    ed.set_text("Hi");
    ed.set_cursor_position(100);
    assert_eq!(ed.cursor_position(), 2);
}

#[test]
fn toggle_button_creation() {
    let tb = ToggleButton::new("Enable");
    assert_eq!(tb.text(), "Enable");
    assert!(!tb.is_on());
}

#[test]
fn toggle_button_set_on() {
    let mut tb = ToggleButton::new("Enable");
    tb.set_on(true);
    assert!(tb.is_on());
}

#[test]
fn toggle_button_toggle() {
    let mut tb = ToggleButton::new("Enable");
    tb.toggle();
    assert!(tb.is_on());
    tb.toggle();
    assert!(!tb.is_on());
}

#[test]
fn toggle_button_on_toggle() {

    let mut tb = ToggleButton::new("Enable");
    let last = Arc::new(Mutex::new(false));
    let last_clone = last.clone();
    tb.set_on_toggle(move |v| {
        *last_clone.lock().unwrap() = v;
    });

    tb.toggle();
    assert!(*last.lock().unwrap());

    tb.toggle();
    assert!(!*last.lock().unwrap());
}

#[test]
fn toggle_button_no_double_fire() {

    let mut tb = ToggleButton::new("Enable");
    let count = Arc::new(Mutex::new(0u32));
    let count_clone = count.clone();
    tb.set_on_toggle(move |_| {
        *count_clone.lock().unwrap() += 1;
    });

    tb.set_on(true);
    tb.set_on(true); // Same value, should not fire
    assert_eq!(*count.lock().unwrap(), 1);
}

#[test]
fn check_box_creation() {
    let cb = CheckBox::new("Accept");
    assert_eq!(cb.label(), "Accept");
    assert!(!cb.is_checked());
}

#[test]
fn check_box_set_checked() {
    let mut cb = CheckBox::new("Accept");
    cb.set_checked(true);
    assert!(cb.is_checked());
}

#[test]
fn check_box_toggle() {
    let mut cb = CheckBox::new("Accept");
    cb.toggle();
    assert!(cb.is_checked());
    cb.toggle();
    assert!(!cb.is_checked());
}

#[test]
fn check_box_on_checked_change() {

    let mut cb = CheckBox::new("Accept");
    let last = Arc::new(Mutex::new(false));
    let last_clone = last.clone();
    cb.set_on_checked_change(move |v| {
        *last_clone.lock().unwrap() = v;
    });

    cb.set_checked(true);
    assert!(*last.lock().unwrap());

    cb.set_checked(true); // Same value, should not fire
    assert!(*last.lock().unwrap()); // Still true from first call
}

#[test]
fn check_box_no_double_fire() {

    let mut cb = CheckBox::new("Accept");
    let count = Arc::new(Mutex::new(0u32));
    let count_clone = count.clone();
    cb.set_on_checked_change(move |_| {
        *count_clone.lock().unwrap() += 1;
    });

    cb.set_checked(true);
    cb.set_checked(true); // Same value
    assert_eq!(*count.lock().unwrap(), 1);
}

#[test]
fn tooltip_creation() {
    let tip = Tooltip::new();
    assert_eq!(tip.text(), "");
    assert!(!tip.is_visible());
}

#[test]
fn tooltip_show_hide() {
    let mut tip = Tooltip::new();
    tip.set_text("Help text");
    tip.show();
    assert!(tip.is_visible());
    tip.hide_tooltip();
    assert!(!tip.is_visible());
}

#[test]
fn tooltip_delay() {
    let mut tip = Tooltip::new();
    assert_eq!(tip.delay_ms(), 700);
    tip.set_delay_ms(300);
    assert_eq!(tip.delay_ms(), 300);
}

#[test]
fn tooltip_default() {
    let tip = Tooltip::default();
    assert!(!tip.is_visible());
}

#[test]
fn drawable_button_creation() {
    let btn = DrawableButton::new("icon");
    assert_eq!(btn.name(), "icon");
    assert!(btn.is_enabled());
}

#[test]
fn drawable_button_click() {

    let mut btn = DrawableButton::new("icon");
    let clicked = Arc::new(Mutex::new(false));
    let clicked_clone = clicked.clone();
    btn.set_on_click(move || {
        *clicked_clone.lock().unwrap() = true;
    });

    btn.click();
    assert!(*clicked.lock().unwrap());
}

#[test]
fn hyperlink_button_creation() {
    let link = HyperlinkButton::new("Visit", "https://example.com");
    assert_eq!(link.text(), "Visit");
    assert_eq!(link.url(), "https://example.com");
}

#[test]
fn hyperlink_button_set_url() {
    let mut link = HyperlinkButton::new("Visit", "https://example.com");
    link.set_url("https://other.com");
    assert_eq!(link.url(), "https://other.com");
}

#[test]
fn hyperlink_button_click() {

    let mut link = HyperlinkButton::new("Visit", "https://example.com");
    let clicked = Arc::new(Mutex::new(false));
    let clicked_clone = clicked.clone();
    link.set_on_click(move || {
        *clicked_clone.lock().unwrap() = true;
    });

    link.click();
    assert!(*clicked.lock().unwrap());
}

#[test]
fn image_component_creation() {
    let img = ImageComponent::new();
    assert!(!img.has_image());
    assert_eq!(img.scaling_mode(), ImageScalingMode::Fit);
}

#[test]
fn image_component_scaling_modes() {
    let mut img = ImageComponent::new();

    img.set_scaling_mode(ImageScalingMode::Fill);
    assert_eq!(img.scaling_mode(), ImageScalingMode::Fill);

    img.set_scaling_mode(ImageScalingMode::Stretch);
    assert_eq!(img.scaling_mode(), ImageScalingMode::Stretch);

    img.set_scaling_mode(ImageScalingMode::NoScaling);
    assert_eq!(img.scaling_mode(), ImageScalingMode::NoScaling);
}

#[test]
fn image_component_set_has_image() {
    let mut img = ImageComponent::new();
    assert!(!img.has_image());
    img.set_has_image(true);
    assert!(img.has_image());
    img.set_has_image(false);
    assert!(!img.has_image());
}

#[test]
fn image_component_default() {
    let img = ImageComponent::default();
    assert_eq!(img.scaling_mode(), ImageScalingMode::Fit);
}

#[test]
fn text_editor_max_length_cuts_existing_text() {
    let mut ed = TextEditor::new();
    ed.set_text("Hello");
    ed.set_cursor_position(5);
    ed.set_max_length(Some(2));
    assert_eq!(ed.text(), "He");
    assert_eq!(ed.cursor_position(), 2);
    ed.insert_text("llo");
    assert_eq!(ed.text(), "He");
}

#[test]
fn text_editor_insert_respects_room_left() {
    let mut ed = TextEditor::new();
    ed.set_max_length(Some(4));
    ed.set_text("ab");
    ed.set_cursor_position(1);
    ed.insert_text("XYZ");
    assert_eq!(ed.text(), "aXYb");
    assert_eq!(ed.cursor_position(), 3);
}

#[test]
fn text_editor_multibyte_text() {
    let mut ed = TextEditor::new();
    ed.set_text("h\u{e9}llo");
    assert_eq!(ed.text().len(), 6);
    ed.set_cursor_position(3);
    ed.insert_text("\u{e9}");
    assert_eq!(ed.text(), "h\u{e9}\u{e9}llo");
    assert_eq!(ed.cursor_position(), 5);
}

#[test]
fn combo_box_callback_not_called_for_same_selection() {
    let mut cb = ComboBox::new();
    cb.add_item("A");
    let count = Arc::new(Mutex::new(0u32));
    let c2 = count.clone();
    cb.set_on_change(move |_, _| {
        *c2.lock().unwrap() += 1;
    });
    cb.set_selected_index(Some(0));
    cb.set_selected_index(Some(0));
    cb.set_selected_index(None);
    assert_eq!(*count.lock().unwrap(), 1);
    assert_eq!(cb.items().len(), 1);
}

#[test]
fn controls_delegate_bounds_to_component() {
    let mut tb = ToggleButton::new("T");
    assert!(tb.set_bounds(Bounds::new(1, 2, 30, 40)).is_ok());
    assert_eq!(tb.bounds(), Bounds::new(1, 2, 30, 40));
    assert!(tb.set_bounds(Bounds::new(1, 2, 0, 40)).is_err());
    assert_eq!(tb.component().name(), "ToggleButton_T");
    let cb = CheckBox::new("Accept");
    assert_eq!(cb.component().name(), "CheckBox_Accept");
    let tip = Tooltip::new();
    assert!(!tip.component().is_visible());
}
