use logic_nih_plug::gui::components::{mouse_dispatch_order, Bounds, Component, ComponentState};
use logic_nih_plug::gui::input::{EventResult, KeyCode, KeyboardEvent, Modifiers, MouseButton};
use logic_nih_plug::gui::layout::{
    AbsoluteLayout, FlexAlign, FlexDirection, FlexLayout, GridLayout, SizeConstraint,
};

#[test]
fn test_component_hierarchy() {
    let mut root = Component::new("root");
    root.set_bounds(Bounds::new(0, 0, 800, 600)).unwrap();
    root.initialize();

    let mut child1 = Component::new("child1");
    child1.set_bounds(Bounds::new(10, 10, 200, 100)).unwrap();

    let mut child2 = Component::new("child2");
    child2.set_bounds(Bounds::new(220, 10, 200, 100)).unwrap();

    root.add_child(child1.clone()).unwrap();
    root.add_child(child2.clone()).unwrap();

    assert_eq!(root.child_count(), 2);
    assert!(child1.has_parent());
    assert!(child2.has_parent());

    let mut grandchild = Component::new("grandchild");
    grandchild.set_bounds(Bounds::new(5, 5, 50, 30)).unwrap();
    child1.add_child(grandchild.clone()).unwrap();

    assert_eq!(child1.child_count(), 1);
    assert!(grandchild.has_parent());
}

#[test]
fn test_component_removal() {
    let mut parent = Component::new("parent");
    parent.set_bounds(Bounds::new(0, 0, 400, 300)).unwrap();

    let child1 = Component::new("child1");
    let child2 = Component::new("child2");
    let child3 = Component::new("child3");

    parent.add_child(child1.clone()).unwrap();
    parent.add_child(child2.clone()).unwrap();
    parent.add_child(child3.clone()).unwrap();

    assert_eq!(parent.child_count(), 3);

    let removed = parent.remove_child(1);
    assert!(removed.is_some());
    assert_eq!(removed.unwrap().name(), "child2");
    assert_eq!(parent.child_count(), 2);
    assert!(!child2.has_parent());

    assert_eq!(parent.child(0).unwrap().name(), "child1");
    assert_eq!(parent.child(1).unwrap().name(), "child3");
}

#[test]
fn test_component_lifecycle_transitions() {
    let mut component = Component::new("test");
    assert_eq!(component.state(), ComponentState::Initializing);

    component.initialize();
    assert_eq!(component.state(), ComponentState::Active);

    component.initialize();
    assert_eq!(component.state(), ComponentState::Active);

    component.destroy();
    assert_eq!(component.state(), ComponentState::Destroying);
}

#[test]
fn test_component_visibility_and_enabled() {
    let mut component = Component::new("test");

    assert!(component.is_visible());
    assert!(component.is_enabled());

    component.set_visible(false);
    assert!(!component.is_visible());

    component.set_enabled(false);
    assert!(!component.is_enabled());

    component.set_visible(true);
    component.set_enabled(true);
    assert!(component.is_visible());
    assert!(component.is_enabled());
}

#[test]
fn test_bounds_validation() {
    let mut component = Component::new("test");
    assert!(component.set_bounds(Bounds::new(0, 0, 100, 100)).is_ok());
    assert!(component.set_bounds(Bounds::new(0, 0, 0, 100)).is_err());
    assert!(component.set_bounds(Bounds::new(0, 0, 100, 0)).is_err());
}

#[test]
fn test_find_child_by_name_recursive() {
    let mut root = Component::new("root");
    root.set_bounds(Bounds::new(0, 0, 800, 600)).unwrap();

    let mut child1 = Component::new("child1");
    child1.set_bounds(Bounds::new(10, 10, 200, 100)).unwrap();

    let mut grandchild = Component::new("target");
    grandchild.set_bounds(Bounds::new(5, 5, 50, 30)).unwrap();

    child1.add_child(grandchild.clone()).unwrap();
    root.add_child(child1.clone()).unwrap();

    assert!(root.find_child_by_name("child1").is_some());
    assert!(root.find_child_by_name("target").is_none());
    assert!(child1.find_child_by_name("target").is_some());
}

#[test]
fn test_component_destroy_removes_from_parent() {
    let mut parent = Component::new("parent");
    parent.set_bounds(Bounds::new(0, 0, 400, 300)).unwrap();

    let mut child = Component::new("child");
    child.set_bounds(Bounds::new(10, 10, 100, 50)).unwrap();

    parent.add_child(child.clone()).unwrap();
    assert_eq!(parent.child_count(), 1);

    child.destroy();

    assert_eq!(parent.child_count(), 0);
    assert!(!child.has_parent());
}

#[test]
fn test_remove_all_children() {
    let mut parent = Component::new("parent");
    parent.set_bounds(Bounds::new(0, 0, 400, 300)).unwrap();

    for i in 0..5 {
        let child = Component::new(&format!("child{}", i));
        parent.add_child(child).unwrap();
    }

    assert_eq!(parent.child_count(), 5);

    parent.remove_all_children();
    assert_eq!(parent.child_count(), 0);
}

#[test]
fn test_bounds_contains_point() {
    let bounds = Bounds::new(10, 20, 100, 50);

    assert!(bounds.contains(50, 40));
    assert!(bounds.contains(10, 20));
    assert!(bounds.contains(109, 69));

    assert!(!bounds.contains(9, 20));
    assert!(!bounds.contains(110, 40));
    assert!(!bounds.contains(50, 19));
    assert!(!bounds.contains(50, 70));
}

#[test]
fn test_component_clone_shares_data() {
    let mut component1 = Component::new("test");
    component1.set_bounds(Bounds::new(0, 0, 100, 100)).unwrap();

    let component2 = component1.clone();

    assert_eq!(component1.id(), component2.id());

    component1.set_visible(false);
    assert!(!component2.is_visible());
}

#[test]
fn test_keyboard_event_dispatch() {
    let mut component = Component::new("test");
    component.initialize();

    let event = KeyboardEvent::KeyDown {
        key: KeyCode::A,
        character: Some('a'),
        modifiers: Modifiers::none(),
        repeat: false,
    };

    let result = component.dispatch_keyboard_event(&event);
    assert_eq!(result, EventResult::NotHandled);
}

#[test]
fn test_keyboard_event_disabled_component() {
    let mut component = Component::new("test");
    component.set_enabled(false);

    let event = KeyboardEvent::KeyDown {
        key: KeyCode::A,
        character: Some('a'),
        modifiers: Modifiers::none(),
        repeat: false,
    };

    let result = component.dispatch_keyboard_event(&event);
    assert_eq!(result, EventResult::NotHandled);
}

#[test]
fn integration_tests_test_modifiers() {
    let mods = Modifiers {
        shift: true,
        ctrl: false,
        alt: true,
        meta: false,
    };

    assert!(mods.shift);
    assert!(!mods.ctrl);
    assert!(mods.alt);
    assert!(!mods.meta);
    assert!(mods.any());

    let no_mods = Modifiers::none();
    assert!(!no_mods.any());
}

#[test]
fn test_keyboard_event_types() {
    let event = KeyboardEvent::KeyDown {
        key: KeyCode::A,
        character: Some('a'),
        modifiers: Modifiers::none(),
        repeat: false,
    };
    assert_eq!(event.key_code(), Some(KeyCode::A));
    assert!(event.modifiers().is_some());

    let event = KeyboardEvent::TextInput {
        text: "hello".to_string(),
    };
    assert_eq!(event.key_code(), None);
    assert!(event.modifiers().is_none());
}

#[test]
fn test_mouse_button_types() {
    let left = MouseButton::Left;
    let right = MouseButton::Right;
    let middle = MouseButton::Middle;
    let other = MouseButton::Other(4);

    assert_ne!(left, right);
    assert_ne!(left, middle);
    assert_ne!(left, other);
}

#[test]
fn test_key_code_types() {
    assert_eq!(KeyCode::A, KeyCode::A);
    assert_ne!(KeyCode::A, KeyCode::B);
    assert_ne!(KeyCode::Num0, KeyCode::Num1);
    assert_ne!(KeyCode::F1, KeyCode::F2);
    assert_ne!(KeyCode::Left, KeyCode::Right);
}

#[test]
fn test_flex_layout_integration() {
    let mut layout = FlexLayout::new(FlexDirection::Horizontal);
    layout.set_spacing(10);
    layout.set_padding(5, 5, 5, 5);

    let mut parent = Component::new("parent");
    parent.set_bounds(Bounds::new(0, 0, 400, 100)).unwrap();

    for i in 0..3 {
        let child = Component::new(&format!("child{}", i));
        parent.add_child(child).unwrap();
    }

    layout.apply(&mut parent).unwrap();

    let c0 = parent.child(0).unwrap();
    let c1 = parent.child(1).unwrap();
    let c2 = parent.child(2).unwrap();

    assert_eq!(c0.bounds().y, 5);
    assert_eq!(c1.bounds().y, 5);
    assert_eq!(c2.bounds().y, 5);

    assert!(c1.bounds().x > c0.bounds().x);
    assert!(c2.bounds().x > c1.bounds().x);

    let spacing_between_0_and_1 = c1.bounds().x - (c0.bounds().x + c0.bounds().width as i32);
    assert_eq!(spacing_between_0_and_1, 10);
}

#[test]
fn test_flex_layout_vertical_integration() {
    let mut layout = FlexLayout::new(FlexDirection::Vertical);
    layout.set_spacing(5);

    let mut parent = Component::new("parent");
    parent.set_bounds(Bounds::new(0, 0, 100, 300)).unwrap();

    for i in 0..3 {
        let child = Component::new(&format!("child{}", i));
        parent.add_child(child).unwrap();
    }

    layout.apply(&mut parent).unwrap();

    let c0 = parent.child(0).unwrap();
    let c1 = parent.child(1).unwrap();
    let c2 = parent.child(2).unwrap();

    assert_eq!(c0.bounds().x, 0);
    assert_eq!(c1.bounds().x, 0);
    assert_eq!(c2.bounds().x, 0);

    assert!(c1.bounds().y > c0.bounds().y);
    assert!(c2.bounds().y > c1.bounds().y);

    let spacing_between_0_and_1 = c1.bounds().y - (c0.bounds().y + c0.bounds().height as i32);
    assert_eq!(spacing_between_0_and_1, 5);
}

#[test]
fn test_flex_layout_alignment() {
    let mut layout = FlexLayout::new(FlexDirection::Horizontal);
    layout.set_align(FlexAlign::Center);

    let mut parent = Component::new("parent");
    parent.set_bounds(Bounds::new(0, 0, 400, 100)).unwrap();

    let child = Component::new("child");
    parent.add_child(child.clone()).unwrap();

    layout.apply(&mut parent).unwrap();

    let c = parent.child(0).unwrap();
    let parent_height = parent.bounds().height;
    let child_height = c.bounds().height;
    let expected_y = (parent_height - child_height) / 2;
    assert_eq!(c.bounds().y as u32, expected_y);
}

#[test]
fn test_grid_layout_integration() {
    let mut layout = GridLayout::new(2, 3).unwrap();
    layout.set_spacing(5);
    layout.set_padding(10, 10, 10, 10);

    let mut parent = Component::new("parent");
    parent.set_bounds(Bounds::new(0, 0, 400, 300)).unwrap();

    for i in 0..6 {
        let child = Component::new(&format!("child{}", i));
        parent.add_child(child).unwrap();
    }

    layout.apply(&mut parent).unwrap();

    let c0 = parent.child(0).unwrap();
    let c1 = parent.child(1).unwrap();
    let c2 = parent.child(2).unwrap();
    let c3 = parent.child(3).unwrap();

    assert_eq!(c0.bounds().y, c1.bounds().y);
    assert_eq!(c1.bounds().y, c2.bounds().y);

    assert!(c3.bounds().y > c0.bounds().y);

    assert!(c1.bounds().x > c0.bounds().x);
    assert!(c2.bounds().x > c1.bounds().x);

    assert_eq!(c0.bounds().width, c1.bounds().width);
    assert_eq!(c0.bounds().height, c3.bounds().height);
}

#[test]
fn test_absolute_layout_with_constraints() {
    let mut layout = AbsoluteLayout::new();
    layout.add_constraint(0, SizeConstraint::new().with_fixed_size(100, 50));
    layout.add_constraint(1, SizeConstraint::new().with_min_width(150).with_max_height(80));

    let mut parent = Component::new("parent");
    parent.set_bounds(Bounds::new(0, 0, 400, 300)).unwrap();

    let mut child1 = Component::new("child1");
    child1.set_bounds(Bounds::new(10, 10, 200, 100)).unwrap();

    let mut child2 = Component::new("child2");
    child2.set_bounds(Bounds::new(50, 50, 100, 150)).unwrap();

    parent.add_child(child1.clone()).unwrap();
    parent.add_child(child2.clone()).unwrap();

    layout.apply(&mut parent).unwrap();

    let c1 = parent.child(0).unwrap();
    assert_eq!(c1.bounds().width, 100);
    assert_eq!(c1.bounds().height, 50);
    assert_eq!(c1.bounds().x, 10);
    assert_eq!(c1.bounds().y, 10);

    let c2 = parent.child(1).unwrap();
    assert_eq!(c2.bounds().width, 150);
    assert_eq!(c2.bounds().height, 80);
    assert_eq!(c2.bounds().x, 50);
    assert_eq!(c2.bounds().y, 50);
}

#[test]
fn test_size_constraint_preferred_size() {
    let constraint = SizeConstraint::new()
        .with_preferred_width(200)
        .with_preferred_height(100);

    assert_eq!(constraint.preferred_size(), Some((200, 100)));

    let constraint_no_pref = SizeConstraint::new().with_min_width(50);
    assert_eq!(constraint_no_pref.preferred_size(), None);
}

#[test]
fn test_grid_layout_with_extra_children() {
    let layout = GridLayout::new(2, 2).unwrap();

    let mut parent = Component::new("parent");
    parent.set_bounds(Bounds::new(0, 0, 200, 200)).unwrap();

    for i in 0..6 {
        let child = Component::new(&format!("child{}", i));
        parent.add_child(child).unwrap();
    }

    layout.apply(&mut parent).unwrap();

    assert!(parent.child(0).is_some());
    assert!(parent.child(3).is_some());

    assert!(parent.child(4).is_some());
    assert!(parent.child(5).is_some());
}

#[test]
fn test_flex_layout_stretch_alignment() {
    let mut layout = FlexLayout::new(FlexDirection::Horizontal);
    layout.set_align(FlexAlign::Stretch);

    let mut parent = Component::new("parent");
    parent.set_bounds(Bounds::new(0, 0, 400, 100)).unwrap();

    let child = Component::new("child");
    parent.add_child(child.clone()).unwrap();

    layout.apply(&mut parent).unwrap();

    let c = parent.child(0).unwrap();
    assert_eq!(c.bounds().height, parent.bounds().height);
}

#[test]
fn mouse_dispatch_order_goes_from_last_to_first_live_child() {
    use_order();
}

fn use_order() {
    let flags = vec![(true, true), (false, true), (true, false), (true, true)];
    assert_eq!(mouse_dispatch_order(&flags), vec![3, 0]);
    assert!(mouse_dispatch_order(&Vec::new()).is_empty());
}
