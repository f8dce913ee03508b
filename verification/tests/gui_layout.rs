use logic_nih_plug::gui::components::{Bounds, Component};
use logic_nih_plug::gui::layout::{constrained_bounds, AbsoluteLayout, FlexAlign, FlexDirection, FlexLayout, GridLayout, SizeConstraint};

#[test]
fn test_size_constraint_creation() {
    let constraint = SizeConstraint::new();
    assert_eq!(constraint.min_width, None);
    assert_eq!(constraint.max_width, None);
    assert_eq!(constraint.min_height, None);
    assert_eq!(constraint.max_height, None);
}

#[test]
fn test_size_constraint_builder() {
    let constraint = SizeConstraint::new()
        .with_min_width(100)
        .with_max_width(200)
        .with_min_height(50)
        .with_max_height(150);

    assert_eq!(constraint.min_width, Some(100));
    assert_eq!(constraint.max_width, Some(200));
    assert_eq!(constraint.min_height, Some(50));
    assert_eq!(constraint.max_height, Some(150));
}

#[test]
fn test_size_constraint_fixed_size() {
    let constraint = SizeConstraint::new().with_fixed_size(100, 50);

    assert_eq!(constraint.min_width, Some(100));
    assert_eq!(constraint.max_width, Some(100));
    assert_eq!(constraint.preferred_width, Some(100));
    assert_eq!(constraint.min_height, Some(50));
    assert_eq!(constraint.max_height, Some(50));
    assert_eq!(constraint.preferred_height, Some(50));
}

#[test]
fn test_size_constraint_constrain() {
    let constraint = SizeConstraint::new()
        .with_min_width(100)
        .with_max_width(200)
        .with_min_height(50)
        .with_max_height(150);

    // Within bounds
    assert_eq!(constraint.constrain(150, 100), (150, 100));

    // Below minimum
    assert_eq!(constraint.constrain(50, 25), (100, 50));

    // Above maximum
    assert_eq!(constraint.constrain(300, 200), (200, 150));
}

#[test]
fn test_flex_layout_horizontal() {
    let mut layout = FlexLayout::new(FlexDirection::Horizontal);
    layout.set_spacing(10);

    let mut parent = Component::new("parent");
    parent.set_bounds(Bounds::new(0, 0, 400, 100)).unwrap();

    let child1 = Component::new("child1");
    let child2 = Component::new("child2");
    let child3 = Component::new("child3");

    parent.add_child(child1.clone()).unwrap();
    parent.add_child(child2.clone()).unwrap();
    parent.add_child(child3.clone()).unwrap();

    layout.apply(&mut parent).unwrap();

    // Check that children are laid out horizontally
    let c1 = parent.child(0).unwrap();
    let c2 = parent.child(1).unwrap();
    let c3 = parent.child(2).unwrap();

    assert_eq!(c1.bounds().x, 0);
    assert!(c2.bounds().x > c1.bounds().x);
    assert!(c3.bounds().x > c2.bounds().x);
}

#[test]
fn test_flex_layout_vertical() {
    let mut layout = FlexLayout::new(FlexDirection::Vertical);
    layout.set_spacing(10);

    let mut parent = Component::new("parent");
    parent.set_bounds(Bounds::new(0, 0, 100, 400)).unwrap();

    let child1 = Component::new("child1");
    let child2 = Component::new("child2");
    let child3 = Component::new("child3");

    parent.add_child(child1.clone()).unwrap();
    parent.add_child(child2.clone()).unwrap();
    parent.add_child(child3.clone()).unwrap();

    layout.apply(&mut parent).unwrap();

    // Check that children are laid out vertically
    let c1 = parent.child(0).unwrap();
    let c2 = parent.child(1).unwrap();
    let c3 = parent.child(2).unwrap();

    assert_eq!(c1.bounds().y, 0);
    assert!(c2.bounds().y > c1.bounds().y);
    assert!(c3.bounds().y > c2.bounds().y);
}

#[test]
fn test_flex_layout_with_padding() {
    let mut layout = FlexLayout::new(FlexDirection::Horizontal);
    layout.set_padding(10, 10, 5, 5);

    let mut parent = Component::new("parent");
    parent.set_bounds(Bounds::new(0, 0, 400, 100)).unwrap();

    let child = Component::new("child");
    parent.add_child(child.clone()).unwrap();

    layout.apply(&mut parent).unwrap();

    let c = parent.child(0).unwrap();
    assert_eq!(c.bounds().x, 10);
    assert_eq!(c.bounds().y, 5);
}

#[test]
fn test_grid_layout() {
    let mut layout = GridLayout::new(2, 3).unwrap();
    layout.set_spacing(5);

    let mut parent = Component::new("parent");
    parent.set_bounds(Bounds::new(0, 0, 300, 200)).unwrap();

    for i in 0..6 {
        let child = Component::new(&format!("child{}", i));
        parent.add_child(child).unwrap();
    }

    layout.apply(&mut parent).unwrap();

    // Check that children are in a grid
    let c0 = parent.child(0).unwrap();
    let c1 = parent.child(1).unwrap();
    let c3 = parent.child(3).unwrap();

    // First row
    assert_eq!(c0.bounds().y, c1.bounds().y);
    // Second row is below first
    assert!(c3.bounds().y > c0.bounds().y);
}

#[test]
fn test_grid_layout_invalid() {
    let result = GridLayout::new(0, 1);
    assert!(result.is_err());

    let result = GridLayout::new(1, 0);
    assert!(result.is_err());
}

#[test]
fn test_absolute_layout() {
    let mut layout = AbsoluteLayout::new();
    layout.add_constraint(
        0,
        SizeConstraint::new().with_fixed_size(100, 50),
    );

    let mut parent = Component::new("parent");
    parent.set_bounds(Bounds::new(0, 0, 400, 300)).unwrap();

    let mut child = Component::new("child");
    child.set_bounds(Bounds::new(10, 10, 200, 100)).unwrap();
    parent.add_child(child.clone()).unwrap();

    layout.apply(&mut parent).unwrap();

    let c = parent.child(0).unwrap();
    // Position unchanged
    assert_eq!(c.bounds().x, 10);
    assert_eq!(c.bounds().y, 10);
    // Size constrained
    assert_eq!(c.bounds().width, 100);
    assert_eq!(c.bounds().height, 50);
}

#[test]
fn test_flex_layout_empty_parent() {
    let layout = FlexLayout::new(FlexDirection::Horizontal);
    let mut parent = Component::new("parent");
    parent.set_bounds(Bounds::new(0, 0, 400, 100)).unwrap();

    // Should not error with no children
    let result = layout.apply(&mut parent);
    assert!(result.is_ok());
}

#[test]
fn test_grid_layout_fewer_children_than_cells() {
    let layout = GridLayout::new(3, 3).unwrap();
    let mut parent = Component::new("parent");
    parent.set_bounds(Bounds::new(0, 0, 300, 300)).unwrap();

    // Only add 2 children (grid has 9 cells)
    parent.add_child(Component::new("child1")).unwrap();
    parent.add_child(Component::new("child2")).unwrap();

    // Should not error
    let result = layout.apply(&mut parent);
    assert!(result.is_ok());
}

#[test]
fn flex_layout_exact_positions() {
    let mut layout = FlexLayout::new(FlexDirection::Horizontal);
    layout.set_spacing(10);
    layout.set_padding(5, 5, 2, 2);
    layout.set_align(FlexAlign::Center);
    let mut parent = Component::new("parent");
    parent.set_bounds(Bounds::new(0, 0, 230, 50)).unwrap();
    let mut small = Component::new("small");
    small.set_bounds(Bounds::new(0, 0, 1, 20)).unwrap();
    parent.add_child(small.clone()).unwrap();
    parent.add_child(Component::new("b")).unwrap();
    layout.apply(&mut parent).unwrap();
    // Room: 220 wide, 46 high; two children share 210 after one gap.
    assert_eq!(parent.child(0).unwrap().bounds(), Bounds::new(5, 2 + 13, 105, 20));
    assert_eq!(parent.child(1).unwrap().bounds(), Bounds::new(5 + 115, 2, 105, 46));
}

#[test]
fn grid_layout_zero_cell_is_refused() {
    let layout = GridLayout::new(1, 4).unwrap();
    let mut parent = Component::new("parent");
    parent.set_bounds(Bounds::new(0, 0, 3, 10)).unwrap();
    parent.add_child(Component::new("c")).unwrap();
    assert!(layout.apply(&mut parent).is_err());
}

#[test]
fn size_constraint_preferred_size() {
    assert_eq!(SizeConstraint::new().preferred_size(), None);
    assert_eq!(SizeConstraint::new().with_preferred_width(3).preferred_size(), None);
    assert_eq!(SizeConstraint::new().with_preferred_width(3).with_preferred_height(4).preferred_size(), Some((3, 4)));
    assert_eq!(SizeConstraint::default(), SizeConstraint::new());
}

#[test]
fn flex_child_bounds_of_one_child() {
    let mut layout = FlexLayout::new(FlexDirection::Horizontal);
    layout.set_spacing(10);
    layout.set_padding(5, 5, 5, 5);
    let parent = Bounds::new(0, 0, 400, 100);
    let b = layout.child_bounds(parent, 3, 1, Bounds::new(0, 0, 0, 0));
    assert_eq!(b, Some(Bounds::new(138, 5, 123, 90)));
}

#[test]
fn grid_cell_bounds_of_last_cell() {
    let layout = GridLayout::new(2, 2).unwrap();
    assert_eq!(layout.cell_bounds(Bounds::new(0, 0, 200, 200), 3), Bounds::new(100, 100, 100, 100));
}

#[test]
fn constrained_bounds_keep_position_and_clamp_size() {
    let c = SizeConstraint::new().with_min_width(150).with_max_height(80);
    assert_eq!(constrained_bounds(&c, Bounds::new(50, 50, 100, 150)), Bounds::new(50, 50, 150, 80));
}
