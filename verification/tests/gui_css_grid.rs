use logic_nih_plug::gui::layout::css_grid::{GridAlignment, GridPlacement, NamedArea};

#[test]
fn placement_cell_span() {
    let p = GridPlacement::cell(2, 3);
    assert_eq!(p.row_start, 2);
    assert_eq!(p.row_end, 3);
    assert_eq!(p.col_start, 3);
    assert_eq!(p.col_end, 4);
    assert_eq!(p.row_span(), 1);
    assert_eq!(p.col_span(), 1);
}

#[test]
fn placement_area_span() {
    let p = GridPlacement::area(1, 3, 2, 5);
    assert_eq!(p.row_span(), 2);
    assert_eq!(p.col_span(), 3);
}

#[test]
fn placement_reversed_or_named_spans_one() {
    let p = GridPlacement::area(4, 2, 5, 5);
    assert_eq!(p.row_span(), 1);
    assert_eq!(p.col_span(), 1);
    let n = GridPlacement::named("header");
    assert_eq!(n.area_name.as_deref(), Some("header"));
    assert_eq!(n.row_span(), 1);
    assert_eq!(GridAlignment::default(), GridAlignment::Stretch);
    let a = NamedArea { name: "main".to_string(), row_start: 1, row_end: 2, col_start: 1, col_end: 3 };
    assert_eq!(a.clone().name, "main");
}
