use logic_nih_plug::gui::components::{Bounds, Component};
use logic_nih_plug::gui::multi_doc_panel::{MultiDocumentPanel, MultiDocumentPanelLayout};

#[test]
fn empty_panel() {
    let panel = MultiDocumentPanel::new();
    assert_eq!(panel.num_documents(), 0);
    assert!(panel.is_empty());
    assert_eq!(panel.active_document_index(), None);
    assert!(panel.active_document().is_none());
}

#[test]
fn add_document_sets_first_active() {
    let mut panel = MultiDocumentPanel::new();
    assert!(panel.add_document(Component::new("A"), true));
    assert_eq!(panel.num_documents(), 1);
    assert_eq!(panel.active_document_index(), Some(0));
}

#[test]
fn add_document_preserves_active() {
    let mut panel = MultiDocumentPanel::new();
    panel.add_document(Component::new("A"), true);
    panel.set_active_document_by_index(0);
    panel.add_document(Component::new("B"), true);
    assert_eq!(panel.active_document_index(), Some(0));
}

#[test]
fn close_document_re_anchors_active() {
    let mut panel = MultiDocumentPanel::new();
    panel.add_document(Component::new("A"), true);
    panel.add_document(Component::new("B"), true);
    panel.add_document(Component::new("C"), true);
    panel.set_active_document_by_index(1);
    panel.close_document(1);
    assert_eq!(panel.active_document_index(), Some(1));
}

#[test]
fn close_document_returns_owned_status() {
    let mut panel = MultiDocumentPanel::new();
    panel.add_document(Component::new("A"), false);
    let returned = panel.close_document(0);
    assert!(returned.is_some());
    assert_eq!(panel.num_documents(), 0);
}

#[test]
fn close_document_owned_returns_none() {
    let mut panel = MultiDocumentPanel::new();
    panel.add_document(Component::new("A"), true);
    assert!(panel.close_document(0).is_none());
    assert_eq!(panel.num_documents(), 0);
}

#[test]
fn close_all_documents_returns_only_non_owned() {
    let mut panel = MultiDocumentPanel::new();
    panel.add_document(Component::new("A"), false);
    panel.add_document(Component::new("B"), true);
    panel.add_document(Component::new("C"), false);
    let returned = panel.close_all_documents();
    assert_eq!(returned.len(), 2);
    assert!(panel.is_empty());
    assert_eq!(panel.active_document_index(), None);
}

#[test]
fn set_active_document_by_index_out_of_bounds() {
    let mut panel = MultiDocumentPanel::new();
    panel.add_document(Component::new("A"), true);
    assert!(!panel.set_active_document_by_index(99));
    assert_eq!(panel.active_document_index(), Some(0));
}

#[test]
fn set_active_document_by_component() {
    let mut panel = MultiDocumentPanel::new();
    let a = Component::new("A");
    let b = Component::new("B");
    let b_id = b.id();
    panel.add_document(a, true);
    panel.add_document(b, true);
    assert!(panel.set_active_document_by_index(1));
    let lookup = Component::new("Lookup");
    assert!(!panel.set_active_document(&lookup));
    let b_ref = Component::new("B");
    assert!(!panel.set_active_document(&b_ref));
    for i in 0..panel.num_documents() {
        if panel.document(i).unwrap().id() == b_id {
            panel.set_active_document_by_index(i);
        }
    }
    assert_eq!(panel.active_document_index(), Some(1));
}

#[test]
fn max_documents_limit() {
    let mut panel = MultiDocumentPanel::new();
    panel.set_max_documents(Some(2));
    assert!(panel.add_document(Component::new("A"), true));
    assert!(panel.add_document(Component::new("B"), true));
    assert!(!panel.add_document(Component::new("C"), true));
    assert_eq!(panel.num_documents(), 2);
}

#[test]
fn max_documents_zero_means_unlimited() {
    let mut panel = MultiDocumentPanel::new();
    panel.set_max_documents(Some(0));
    assert!(panel.max_documents().is_none());
    assert!(panel.add_document(Component::new("A"), true));
    assert!(panel.add_document(Component::new("B"), true));
    assert!(panel.add_document(Component::new("C"), true));
    assert!(panel.add_document(Component::new("D"), true));
}

#[test]
fn layout_mode_round_trip() {
    let mut panel = MultiDocumentPanel::new();
    panel.set_layout_mode(MultiDocumentPanelLayout::FloatingWindows);
    assert_eq!(panel.layout_mode(), MultiDocumentPanelLayout::FloatingWindows);
    panel.set_layout_mode(MultiDocumentPanelLayout::MaximisedWindowsWithTabs);
    assert_eq!(panel.layout_mode(), MultiDocumentPanelLayout::MaximisedWindowsWithTabs);
}

#[test]
fn background_colour_round_trip() {
    let mut panel = MultiDocumentPanel::new();
    panel.set_background_colour([10, 20, 30, 255]);
    assert_eq!(panel.background_colour(), [10, 20, 30, 255]);
}

#[test]
fn fullscreen_when_one_toggle() {
    let mut panel = MultiDocumentPanel::new();
    assert!(!panel.is_fullscreen_when_one_document());
    panel.set_fullscreen_when_one_document(true);
    assert!(panel.is_fullscreen_when_one_document());
}

#[test]
fn documents_iter_in_order() {
    let mut panel = MultiDocumentPanel::new();
    let a = Component::new("A");
    let b = Component::new("B");
    let a_id = a.id();
    let b_id = b.id();
    panel.add_document(a, true);
    panel.add_document(b, true);
    let ids: Vec<_> = panel.documents().iter().map(|c| c.id()).collect();
    assert_eq!(ids, vec![a_id, b_id]);
}

#[test]
fn active_document_mut_provides_mutable_access() {
    let mut panel = MultiDocumentPanel::new();
    panel.add_document(Component::new("A"), true);
    let doc = panel.active_document_mut().unwrap();
    doc.set_bounds(Bounds::new(0, 0, 100, 100)).unwrap();
    assert_eq!(panel.document(0).unwrap().bounds().width, 100);
}

#[test]
fn close_active_document_when_only_one() {
    let mut panel = MultiDocumentPanel::new();
    panel.add_document(Component::new("Solo"), true);
    panel.set_active_document_by_index(0);
    panel.close_document(0);
    assert_eq!(panel.active_document_index(), None);
}

#[test]
fn close_document_out_of_bounds_returns_none() {
    let mut panel = MultiDocumentPanel::new();
    assert!(panel.close_document(0).is_none());
    assert!(panel.close_document(99).is_none());
}

#[test]
fn close_document_after_active_keeps_active_in_range() {
    let mut panel = MultiDocumentPanel::new();
    panel.add_document(Component::new("A"), true);
    panel.add_document(Component::new("B"), true);
    panel.add_document(Component::new("C"), true);
    panel.set_active_document_by_index(0);
    panel.close_document(1);
    assert_eq!(panel.active_document_index(), Some(0));
}

#[test]
fn close_document_before_active_shifts_active_left() {
    let mut panel = MultiDocumentPanel::new();
    panel.add_document(Component::new("A"), true);
    panel.add_document(Component::new("B"), true);
    panel.add_document(Component::new("C"), true);
    panel.set_active_document_by_index(2);
    panel.close_document(0);
    assert_eq!(panel.active_document_index(), Some(1));
}

#[test]
fn document_mut_out_of_bounds_returns_none() {
    let mut panel = MultiDocumentPanel::new();
    assert!(panel.document_mut(0).is_none());
    assert!(panel.document_mut(99).is_none());
}

#[test]
fn is_document_owned_reflects_ownership() {
    let mut panel = MultiDocumentPanel::new();
    panel.add_document(Component::new("A"), true);
    panel.add_document(Component::new("B"), false);
    assert_eq!(panel.is_document_owned(0), Some(true));
    assert_eq!(panel.is_document_owned(1), Some(false));
    assert_eq!(panel.is_document_owned(2), None);
}

#[test]
fn closing_the_last_active_document_activates_the_new_last() {
    let mut panel = MultiDocumentPanel::new();
    panel.add_document(Component::new("A"), true);
    panel.add_document(Component::new("B"), true);
    panel.add_document(Component::new("C"), true);
    panel.set_active_document_by_index(2);
    panel.close_document(2);
    assert_eq!(panel.active_document_index(), Some(1));
}

#[test]
fn close_all_returns_unowned_in_order() {
    let mut panel = MultiDocumentPanel::new();
    let a = Component::new("A");
    let c = Component::new("C");
    let (a_id, c_id) = (a.id(), c.id());
    panel.add_document(a, false);
    panel.add_document(Component::new("B"), true);
    panel.add_document(c, false);
    let ids: Vec<_> = panel.close_all_documents().iter().map(|c| c.id()).collect();
    assert_eq!(ids, vec![a_id, c_id]);
}

#[test]
fn default_panel_has_zero_background() {
    let panel = MultiDocumentPanel::default();
    assert_eq!(panel.background_colour(), [0, 0, 0, 0]);
    assert_eq!(panel.layout_mode(), MultiDocumentPanelLayout::MaximisedWindowsWithTabs);
    assert_eq!(MultiDocumentPanel::new().background_colour(), [40, 40, 40, 255]);
}
