use logic_nih_plug::gui::commands::{
    ApplicationCommandManager, CommandFlags, CommandId, CommandInfo, CommandListener, InvocationInfo,
    InvocationOrigin, KeyPress, KeyPressMappingSet,
};
use logic_nih_plug::gui::input::Modifiers;

fn ctrl() -> Modifiers {
    Modifiers { shift: false, ctrl: true, alt: false, meta: false }
}

fn ctrl_shift() -> Modifiers {
    Modifiers { shift: true, ctrl: true, alt: false, meta: false }
}

#[test]
fn command_flags_const_ops() {
    let f = CommandFlags(CommandFlags::IS_DISABLED | CommandFlags::IS_TICKED);
    assert!(f.is_disabled());
    assert!(f.is_ticked());
    assert!(!f.hidden_in_menu());

    let g = CommandFlags(CommandFlags::HIDE_IN_MENU) | CommandFlags(CommandFlags::IS_DISABLED);
    assert!(g.is_disabled());
    assert!(g.hidden_in_menu());
}

#[test]
fn key_press_from_char_uppercases_with_shift() {
    let no_shift = KeyPress::from_char('s', Modifiers::none());
    let with_shift = KeyPress::from_char('s', Modifiers { shift: true, ..Modifiers::none() });
    assert_eq!(no_shift.key_code, b's' as u32);
    assert_eq!(with_shift.key_code, b'S' as u32);
}

#[test]
fn key_press_text_description() {
    let k = KeyPress::new(b's' as u32, ctrl());
    assert_eq!(k.get_text_description(), "Ctrl+s");
    let k2 = KeyPress::new(KeyPress::F5, Modifiers::none());
    assert_eq!(k2.get_text_description(), "F5");
    let k3 = KeyPress::new(KeyPress::RIGHT, ctrl_shift());
    assert_eq!(k3.get_text_description(), "Ctrl+Shift+Right");
}

#[test]
fn key_press_is_printable() {
    assert!(KeyPress::from_key_code(b'A' as u32).is_printable());
    assert!(KeyPress::from_key_code(b'0' as u32).is_printable());
    assert!(!KeyPress::from_key_code(KeyPress::F1).is_printable());
    assert!(!KeyPress::from_key_code(KeyPress::DELETE).is_printable());
}

#[test]
fn key_press_matches() {
    let a = KeyPress::new(b's' as u32, ctrl());
    let b = KeyPress::new(b's' as u32, ctrl());
    let c = KeyPress::new(b'S' as u32, ctrl());
    assert!(a.matches(&b));
    assert!(!a.matches(&c));
}

#[test]
fn command_info_builder() {
    let info = CommandInfo::new(CommandId(42), "Copy")
        .with_category("Edit")
        .with_description("Copy selection")
        .with_default_keypress(KeyPress::new(b'c' as u32, ctrl()));
    assert_eq!(info.command_id, CommandId(42));
    assert_eq!(info.short_name, "Copy");
    assert_eq!(info.category, "Edit");
    assert_eq!(info.description, "Copy selection");
    assert!(info.default_keypress.is_some());
}

#[test]
fn manager_register_and_lookup() {
    let mut mgr = ApplicationCommandManager::new();
    let save = CommandId(1);
    mgr.register_command(CommandInfo::new(save, "Save"));
    let open = CommandId(2);
    mgr.register_command(CommandInfo::new(open, "Open").with_category("File"));

    assert_eq!(mgr.get_num_commands(), 2);
    assert_eq!(mgr.get_command_for_id(save).map(|c| c.short_name.as_str()), Some("Save"));
    assert_eq!(mgr.get_name_of_command(save), "Save");
    assert_eq!(mgr.get_name_of_command(CommandId(999)), "");
}

#[test]
fn manager_order_preserved() {
    let mut mgr = ApplicationCommandManager::new();
    mgr.register_command(CommandInfo::new(CommandId(1), "A"));
    mgr.register_command(CommandInfo::new(CommandId(2), "B"));
    mgr.register_command(CommandInfo::new(CommandId(3), "C"));
    assert_eq!(mgr.get_command_for_index(0).unwrap().short_name, "A");
    assert_eq!(mgr.get_command_for_index(2).unwrap().short_name, "C");
}

#[test]
fn manager_categories() {
    let mut mgr = ApplicationCommandManager::new();
    mgr.register_command(CommandInfo::new(CommandId(1), "Save").with_category("File"));
    mgr.register_command(CommandInfo::new(CommandId(2), "Open").with_category("File"));
    mgr.register_command(CommandInfo::new(CommandId(3), "Copy").with_category("Edit"));
    let cats = mgr.get_command_categories();
    assert_eq!(cats, vec!["Edit".to_string(), "File".to_string()]);
    assert_eq!(mgr.get_commands_in_category("File"), vec![CommandId(1), CommandId(2)]);
    assert_eq!(mgr.get_commands_in_category("Edit"), vec![CommandId(3)]);
}

#[test]
fn manager_remove_command_clears_mappings() {
    let mut mgr = ApplicationCommandManager::new();
    let save = CommandId(1);
    mgr.register_command(CommandInfo::new(save, "Save").with_default_keypress(KeyPress::new(b's' as u32, ctrl())));
    assert!(mgr.find_key_mapping(&KeyPress::new(b's' as u32, ctrl())).is_some());
    mgr.remove_command(save);
    assert!(mgr.find_key_mapping(&KeyPress::new(b's' as u32, ctrl())).is_none());
    assert_eq!(mgr.get_num_commands(), 0);
}

#[test]
fn manager_clear_commands() {
    let mut mgr = ApplicationCommandManager::new();
    mgr.register_command(CommandInfo::new(CommandId(1), "A"));
    mgr.register_command(CommandInfo::new(CommandId(2), "B"));
    mgr.clear_commands();
    assert_eq!(mgr.get_num_commands(), 0);
}

#[test]
fn manager_add_key_mapping() {
    let mut mgr = ApplicationCommandManager::new();
    let id = CommandId(1);
    mgr.register_command(CommandInfo::new(id, "Test"));
    mgr.add_key_mapping(KeyPress::new(b'x' as u32, ctrl()), id);
    assert_eq!(mgr.find_key_mapping(&KeyPress::new(b'x' as u32, ctrl())), Some(id));
}

#[test]
fn manager_get_description_falls_back() {
    let mut mgr = ApplicationCommandManager::new();
    let id = CommandId(1);
    mgr.register_command(CommandInfo::new(id, "Save"));
    assert_eq!(mgr.get_description_of_command(id), "Save");
}

#[test]
fn key_mapping_add_and_find() {
    let mut set = KeyPressMappingSet::new();
    let key = KeyPress::new(b'a' as u32, ctrl());
    let id = CommandId(1);
    assert!(set.add_mapping(key, id).is_none());
    assert_eq!(set.find_command_for_keypress(&key), Some(id));
}

#[test]
fn key_mapping_remove() {
    let mut set = KeyPressMappingSet::new();
    let key = KeyPress::new(b'a' as u32, ctrl());
    set.add_mapping(key, CommandId(1));
    assert_eq!(set.remove_mapping(&key), Some(CommandId(1)));
    assert!(set.find_command_for_keypress(&key).is_none());
}

#[test]
fn key_mapping_remove_all_for_command() {
    let mut set = KeyPressMappingSet::new();
    let key1 = KeyPress::new(b'a' as u32, ctrl());
    let key2 = KeyPress::new(b'b' as u32, ctrl());
    let id = CommandId(1);
    set.add_mapping(key1, id);
    set.add_mapping(key2, id);
    set.remove_all_mappings_for_command(id);
    assert!(set.is_empty());
}

#[test]
fn key_mapping_get_keypresses_for_command() {
    let mut set = KeyPressMappingSet::new();
    let id = CommandId(1);
    let k1 = KeyPress::new(b'a' as u32, ctrl());
    let k2 = KeyPress::new(b'b' as u32, ctrl_shift());
    set.add_mapping(k1, id);
    set.add_mapping(k2, id);
    let keys = set.get_keypresses_for_command(id);
    assert_eq!(keys.len(), 2);
    assert!(keys.contains(&k1));
    assert!(keys.contains(&k2));
}

#[test]
fn key_mapping_iter_yields_all_pairs() {
    let mut set = KeyPressMappingSet::new();
    set.add_mapping(KeyPress::new(b'a' as u32, ctrl()), CommandId(1));
    set.add_mapping(KeyPress::new(b'b' as u32, ctrl()), CommandId(2));
    assert_eq!(set.iter().len(), 2);
}

#[test]
fn key_mapping_to_compact_string_is_nonempty() {
    let mut set = KeyPressMappingSet::new();
    set.add_mapping(KeyPress::new(b'a' as u32, ctrl()), CommandId(1));
    set.add_mapping(KeyPress::new(KeyPress::F5, Modifiers::none()), CommandId(2));
    let s = set.to_compact_string();
    assert!(s.contains("0x61:"), "missing 'a' mapping: {s:?}");
    assert!(s.contains("0x114:"), "missing F5 mapping: {s:?}");
    assert!(s.contains("0x1"), "missing cmd id 1: {s:?}");
    assert!(s.contains("0x2"), "missing cmd id 2: {s:?}");
}

struct ListRecorder {
    list_changes: u32,
    status_changes: u32,
}

impl CommandListener for ListRecorder {
    fn command_list_changed(&mut self) {
        self.list_changes += 1;
    }
    fn command_status_changed(&mut self) {
        self.status_changes += 1;
    }
}

#[test]
fn manager_listener_gets_list_changed() {
    let mut mgr = ApplicationCommandManager::new();
    mgr.add_listener(Box::new(ListRecorder { list_changes: 0, status_changes: 0 }));
    mgr.register_command(CommandInfo::new(CommandId(1), "X"));
    mgr.clear_commands();
}

#[test]
fn manager_command_status_changed_fires_listener() {
    let mut mgr = ApplicationCommandManager::new();
    mgr.add_listener(Box::new(ListRecorder { list_changes: 0, status_changes: 0 }));
    mgr.command_status_changed();
}

#[test]
fn manager_clear_listeners() {
    let mut mgr = ApplicationCommandManager::new();
    mgr.add_listener(Box::new(ListRecorder { list_changes: 0, status_changes: 0 }));
    mgr.clear_listeners();
}

#[test]
fn manager_re_register_keeps_order_stable() {
    let mut mgr = ApplicationCommandManager::new();
    mgr.register_command(CommandInfo::new(CommandId(1), "A"));
    mgr.register_command(CommandInfo::new(CommandId(2), "B"));
    mgr.register_command(CommandInfo::new(CommandId(1), "A-v2"));
    assert_eq!(mgr.get_num_commands(), 2);
    assert_eq!(mgr.get_command_for_index(0).unwrap().short_name, "A-v2");
}

#[test]
fn manager_get_command_for_index_out_of_bounds() {
    let mgr = ApplicationCommandManager::new();
    assert!(mgr.get_command_for_index(0).is_none());
    assert!(mgr.get_command_for_index(999).is_none());
}

#[test]
fn invocation_origin_variants() {
    let info = InvocationInfo { command_id: CommandId(1), origin: InvocationOrigin::Key, asynchronously: true };
    assert_eq!(info.origin, InvocationOrigin::Key);
    assert!(info.asynchronously);
}

#[test]
fn invocation_from_command_is_direct() {
    let info = InvocationInfo::from_command(CommandId(9));
    assert_eq!(info.command_id, CommandId(9));
    assert_eq!(info.origin, InvocationOrigin::Direct);
    assert!(!info.asynchronously);
}

#[test]
fn a_bound_key_keeps_its_first_command() {
    let mut set = KeyPressMappingSet::new();
    let key = KeyPress::new(b'q' as u32, ctrl());
    set.add_mapping(key, CommandId(1));
    assert_eq!(set.add_mapping(key, CommandId(2)), Some(CommandId(1)));
    assert_eq!(set.find_command_for_keypress(&key), Some(CommandId(1)));
    assert_eq!(set.len(), 1);
    assert_eq!(set.get_keypresses_for_command(CommandId(1)), vec![key]);
    assert!(set.get_keypresses_for_command(CommandId(2)).is_empty());
}

#[test]
fn removing_a_command_keeps_other_commands_keys() {
    let mut set = KeyPressMappingSet::new();
    let a = KeyPress::new(b'a' as u32, ctrl());
    let b = KeyPress::new(b'b' as u32, ctrl());
    set.add_mapping(a, CommandId(1));
    set.add_mapping(b, CommandId(2));
    set.add_mapping(b, CommandId(1));
    set.remove_all_mappings_for_command(CommandId(1));
    assert_eq!(set.find_command_for_keypress(&a), None);
    assert_eq!(set.find_command_for_keypress(&b), Some(CommandId(2)));
    assert_eq!(set.len(), 1);
    assert_eq!(set.get_keypresses_for_command(CommandId(2)), vec![b]);
}

#[test]
fn removing_a_mapping_shrinks_the_set_and_the_record() {
    let mut set = KeyPressMappingSet::new();
    let a = KeyPress::new(b'a' as u32, ctrl());
    let b = KeyPress::new(b'b' as u32, ctrl());
    set.add_mapping(a, CommandId(1));
    set.add_mapping(b, CommandId(1));
    assert_eq!(set.remove_mapping(&a), Some(CommandId(1)));
    assert_eq!(set.len(), 1);
    assert_eq!(set.get_keypresses_for_command(CommandId(1)), vec![b]);
    assert_eq!(set.remove_mapping(&a), None);
}

#[test]
fn flags_contain_any_shared_bit() {
    let f = CommandFlags(CommandFlags::IS_DISABLED);
    assert!(f.contains(CommandFlags(CommandFlags::IS_DISABLED | CommandFlags::IS_TICKED)));
    assert!(!f.contains(CommandFlags(CommandFlags::IS_TICKED)));
    assert!(!f.contains(CommandFlags(0)));
}

#[test]
fn compact_string_exact_text() {
    let mut set = KeyPressMappingSet::new();
    set.add_mapping(KeyPress::new(b'a' as u32, ctrl()), CommandId(1));
    assert_eq!(
        set.to_compact_string(),
        "0x61:Modifiers { shift: false, ctrl: true, alt: false, meta: false }=0x1"
    );
}
