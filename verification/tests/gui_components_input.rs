use logic_nih_plug::gui::components::{Bounds, Component, ComponentState};
use logic_nih_plug::gui::input::{EventResult, KeyCode, KeyboardEvent, Modifiers};

#[test]
fn test_component_creation() {
    let component = Component::new("test");
    assert_eq!(component.name(), "test");
    assert_eq!(component.state(), ComponentState::Initializing);
    assert!(component.is_visible());
    assert!(component.is_enabled());
    assert!(!component.has_parent());
    assert_eq!(component.child_count(), 0);
}

#[test]
fn test_bounds() {
    let mut component = Component::new("test");
    let bounds = Bounds::new(10, 20, 100, 50);
    component.set_bounds(bounds).unwrap();
    assert_eq!(component.bounds(), bounds);
}

#[test]
fn test_invalid_bounds() {
    let mut component = Component::new("test");
    let result = component.set_bounds(Bounds::new(0, 0, 0, 0));
    assert!(result.is_err());
}

#[test]
fn test_parent_child_relationship() {
    let mut parent = Component::new("parent");
    let child = Component::new("child");
    parent.add_child(child.clone()).unwrap();
    assert_eq!(parent.child_count(), 1);
    assert!(child.has_parent());
}

#[test]
fn test_cannot_add_child_twice() {
    let mut parent1 = Component::new("parent1");
    let mut parent2 = Component::new("parent2");
    let child = Component::new("child");
    parent1.add_child(child.clone()).unwrap();
    let result = parent2.add_child(child);
    assert!(result.is_err());
}

#[test]
fn test_self_reference() {
    let mut component = Component::new("test");
    let result = component.add_child(component.clone());
    assert!(result.is_err());
}

#[test]
fn test_remove_child() {
    let mut parent = Component::new("parent");
    let child = Component::new("child");
    parent.add_child(child.clone()).unwrap();
    assert_eq!(parent.child_count(), 1);
    let removed = parent.remove_child(0);
    assert!(removed.is_some());
    assert_eq!(parent.child_count(), 0);
    assert!(!child.has_parent());
}

#[test]
fn test_lifecycle() {
    let mut component = Component::new("test");
    assert_eq!(component.state(), ComponentState::Initializing);
    component.initialize();
    assert_eq!(component.state(), ComponentState::Active);
    component.destroy();
    assert_eq!(component.state(), ComponentState::Destroying);
}

#[test]
fn test_find_child_by_name() {
    let mut parent = Component::new("parent");
    let child1 = Component::new("child1");
    let child2 = Component::new("child2");
    parent.add_child(child1).unwrap();
    parent.add_child(child2).unwrap();
    let found = parent.find_child_by_name("child2");
    assert!(found.is_some());
    assert_eq!(found.unwrap().name(), "child2");
    let not_found = parent.find_child_by_name("child3");
    assert!(not_found.is_none());
}

#[test]
fn test_contains_point() {
    let mut component = Component::new("test");
    component.set_bounds(Bounds::new(10, 10, 100, 50)).unwrap();
    assert!(component.contains_point(50, 30));
    assert!(!component.contains_point(5, 5));
    assert!(!component.contains_point(150, 30));
}

#[test]
fn test_keyboard_event_handling() {
    let mut component = Component::new("test");
    let event = KeyboardEvent::KeyDown { key: KeyCode::A, character: Some('a'), modifiers: Modifiers::none(), repeat: false };
    let result = component.handle_keyboard_event(&event);
    assert_eq!(result, EventResult::NotHandled);
}

#[test]
fn test_dispatch_keyboard_event_disabled() {
    let mut component = Component::new("test");
    component.set_enabled(false);
    let event = KeyboardEvent::KeyDown { key: KeyCode::A, character: Some('a'), modifiers: Modifiers::none(), repeat: false };
    let result = component.dispatch_keyboard_event(&event);
    assert_eq!(result, EventResult::NotHandled);
}

#[test]
fn keyboard_handler_is_called_when_enabled() {
    let mut component = Component::new("test");
    component.set_keyboard_handler(|_e: &KeyboardEvent| EventResult::Handled);
    let event = KeyboardEvent::KeyUp { key: KeyCode::A, modifiers: Modifiers::none() };
    assert_eq!(component.dispatch_keyboard_event(&event), EventResult::Handled);
    component.clear_keyboard_handler();
    assert_eq!(component.dispatch_keyboard_event(&event), EventResult::NotHandled);
}

#[test]
fn bounds_contains_is_half_open() {
    let b = Bounds::new(0, 0, 10, 10);
    assert!(b.contains(0, 0));
    assert!(b.contains(9, 9));
    assert!(!b.contains(10, 5));
    assert!(!b.contains(-1, 5));
    assert!(b.is_valid());
    assert!(!Bounds::new(0, 0, 0, 5).is_valid());
}

#[test]
fn input_test_modifiers() {
    let mods = Modifiers::none();
    assert!(!mods.any());
    let mods = Modifiers { shift: true, ctrl: false, alt: false, meta: false };
    assert!(mods.any());
}

#[test]
fn test_keyboard_event_modifiers() {
    let mods = Modifiers { shift: true, ctrl: false, alt: false, meta: false };
    let event = KeyboardEvent::KeyDown { key: KeyCode::A, character: Some('A'), modifiers: mods, repeat: false };
    assert_eq!(event.modifiers(), Some(mods));
    assert_eq!(event.key_code(), Some(KeyCode::A));
}

#[test]
fn text_input_has_no_modifiers_or_key() {
    let event = KeyboardEvent::TextInput { text: "x".to_string() };
    assert_eq!(event.modifiers(), None);
    assert_eq!(event.key_code(), None);
}
