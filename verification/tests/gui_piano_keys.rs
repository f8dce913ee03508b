use logic_nih_plug::gui::piano_keys::{
    add_active_note, clamp_range, is_black_key, is_note_active, note_name, num_notes, num_white_keys,
    remove_active_note, white_key_index,
};

#[test]
fn black_keys_in_an_octave() {
    let black: Vec<u8> = (60u8..72).filter(|&n| is_black_key(n)).collect();
    assert_eq!(black, vec![61, 63, 66, 68, 70]);
}

#[test]
fn white_keys_are_counted_and_indexed() {
    assert_eq!(num_white_keys(36, 84), 28);
    assert_eq!(num_white_keys(60, 60), 0);
    assert_eq!(num_white_keys(70, 60), 0);
    assert_eq!(white_key_index(60, 72, 60), Some(0));
    assert_eq!(white_key_index(60, 72, 64), Some(2));
    assert_eq!(white_key_index(60, 72, 61), None);
    assert_eq!(white_key_index(60, 72, 72), None);
}

#[test]
fn note_names_follow_middle_c() {
    assert_eq!(note_name(60, 60), "C4");
    assert_eq!(note_name(61, 60), "C#4");
    assert_eq!(note_name(59, 60), "B3");
    assert_eq!(note_name(0, 60), "C-1");
    assert_eq!(note_name(127, 60), "G9");
    assert_eq!(note_name(0, 127), "C-6");
    assert_eq!(note_name(120, 0), "C14");
}

#[test]
fn ranges_are_clamped() {
    assert_eq!(clamp_range(36, 84), (36, 84));
    assert_eq!(clamp_range(200, 10), (127, 128));
    assert_eq!(clamp_range(50, 20), (50, 51));
    assert_eq!(clamp_range(0, 255), (0, 128));
    assert_eq!(num_notes(36, 84), 48);
    assert_eq!(num_notes(84, 36), 0);
}

#[test]
fn active_notes_are_kept_once_and_in_range() {
    let mut notes = Vec::new();
    add_active_note(&mut notes, 60, 36, 84);
    add_active_note(&mut notes, 60, 36, 84);
    add_active_note(&mut notes, 20, 36, 84);
    add_active_note(&mut notes, 62, 36, 84);
    assert_eq!(notes, vec![60, 62]);
    assert!(is_note_active(&notes, None, 62));
    assert!(is_note_active(&notes, Some(70), 70));
    assert!(!is_note_active(&notes, None, 70));
    remove_active_note(&mut notes, 60);
    assert_eq!(notes, vec![62]);
}

#[test]
fn midi_keyboard_set_range() {
    let (start, end) = clamp_range(48, 72);
    assert_eq!(start, 48);
    assert_eq!(end, 72);
    assert_eq!(num_notes(start, end), 24);
}

#[test]
fn midi_keyboard_set_range_clamping() {
    assert_eq!(clamp_range(60, 55), (60, 61));
    assert_eq!(clamp_range(130, 140), (127, 128));
}

#[test]
fn midi_keyboard_is_black_key() {
    assert!(!is_black_key(0));
    assert!(is_black_key(1));
    assert!(!is_black_key(2));
    assert!(is_black_key(3));
    assert!(!is_black_key(4));
    assert!(!is_black_key(5));
    assert!(is_black_key(6));
    assert!(!is_black_key(7));
    assert!(is_black_key(8));
    assert!(!is_black_key(9));
    assert!(is_black_key(10));
    assert!(!is_black_key(11));
}

#[test]
fn midi_keyboard_note_name() {
    assert_eq!(note_name(60, 60), "C4");
    assert_eq!(note_name(61, 60), "C#4");
    assert_eq!(note_name(69, 60), "A4");
    assert_eq!(note_name(48, 60), "C3");
    assert_eq!(note_name(72, 60), "C5");
    assert_eq!(note_name(48, 48), "C4");
}

#[test]
fn midi_keyboard_num_white_keys() {
    assert_eq!(num_white_keys(0, 12), 7);
    assert_eq!(num_white_keys(0, 24), 14);
}

#[test]
fn midi_keyboard_active_notes() {
    let (start, end) = (36u8, 84u8);
    let mut notes: Vec<u8> = Vec::new();
    add_active_note(&mut notes, 60, start, end);
    add_active_note(&mut notes, 64, start, end);
    add_active_note(&mut notes, 67, start, end);
    assert_eq!(notes, vec![60, 64, 67]);
    assert!(is_note_active(&notes, None, 60));
    assert!(is_note_active(&notes, None, 64));
    assert!(!is_note_active(&notes, None, 62));

    add_active_note(&mut notes, 60, start, end);
    assert_eq!(notes.len(), 3);

    add_active_note(&mut notes, 0, start, end);
    assert_eq!(notes.len(), 3);

    remove_active_note(&mut notes, 64);
    assert_eq!(notes, vec![60, 67]);
    assert!(!is_note_active(&notes, None, 64));
}
