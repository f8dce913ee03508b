//! Piano-key arithmetic over MIDI note numbers: which keys are black, how
//! white keys are counted, note names, the shown range and the set of
//! notes held from outside.
use vstd::prelude::*;
use crate::text::{push_char, push_str};

verus! {

/// Whether a note is a black key: its place in the octave is C#, D#, F#, G#
/// or A#.
pub open spec fn spec_is_black_key(note: u8) -> bool {
    let r = note % 12;
    r == 1 || r == 3 || r == 6 || r == 8 || r == 10
}

/// Whether a note is a black key.
pub fn is_black_key(note: u8) -> (b: bool)
    ensures b == spec_is_black_key(note),
{
    let r = note % 12;
    r == 1 || r == 3 || r == 6 || r == 8 || r == 10
}

/// How many white keys lie in `start..end`.
pub open spec fn spec_white_keys(start: int, end: int) -> nat
    decreases end - start,
{
    if end <= start {
        0
    } else {
        spec_white_keys(start, end - 1) + (if spec_is_black_key((end - 1) as u8) { 0nat } else { 1nat })
    }
}

/// At most one white key per note.
pub proof fn lemma_white_keys_bounded(start: int, end: int)
    ensures spec_white_keys(start, end) <= (if end > start { end - start } else { 0 }),
    decreases end - start,
{
    if end > start {
        lemma_white_keys_bounded(start, end - 1);
    }
}

/// The number of white keys among the notes `start..end`.
pub fn num_white_keys(start: u8, end: u8) -> (n: usize)
    ensures n == spec_white_keys(start as int, end as int),
{
    let mut n: usize = 0;
    let mut k: u8 = start;
    if end <= start {
        return 0;
    }
    while k < end
        invariant
            start <= k <= end,
            n == spec_white_keys(start as int, k as int),
        decreases end - k,
    {
        proof {
            lemma_white_keys_bounded(start as int, k as int);
        }
        if !is_black_key(k) {
            n = n + 1;
        }
        k = k + 1;
    }
    n
}

/// The position of a white key among the white keys of `start..end`;
/// `None` for a black key or a note outside the range.
pub fn white_key_index(start: u8, end: u8, note: u8) -> (r: Option<usize>)
    ensures
        r == (if spec_is_black_key(note) || note < start || note >= end {
            None
        } else {
            Some(spec_white_keys(start as int, note as int) as usize)
        }),
{
    if is_black_key(note) || note < start || note >= end {
        return None;
    }
    Some(num_white_keys(start, note))
}

/// How many notes `start..end` holds.
pub fn num_notes(start: u8, end: u8) -> (n: usize)
    ensures n == (if end > start { end - start } else { 0 }),
{
    if end > start { (end - start) as usize } else { 0 }
}

/// The range shown for a request of `start..end`: the start at most 127,
/// the end at least one past the start and at most 128.
pub open spec fn spec_clamp_range(start: u8, end: u8) -> (u8, u8) {
    let s: u8 = if start <= 127 { start } else { 127 };
    let lo: int = s + 1;
    let e: int = if end >= lo { end as int } else { lo };
    (s, (if e <= 128 { e } else { 128 }) as u8)
}

/// The range shown for a request of `start..end` (see [`spec_clamp_range`]).
pub fn clamp_range(start: u8, end: u8) -> (r: (u8, u8))
    ensures r == spec_clamp_range(start, end),
{
    let s: u8 = if start <= 127 { start } else { 127 };
    let lo: u8 = s + 1;
    let e: u8 = if end >= lo { end } else { lo };
    (s, if e <= 128 { e } else { 128 })
}

/// The decimal digits of a number.
pub open spec fn spec_decimal(n: nat) -> Seq<char>
    decreases n,
{
    if n < 10 {
        seq![((n + 48) as u8) as char]
    } else {
        spec_decimal(n / 10).push((((n % 10) + 48) as u8) as char)
    }
}

fn push_decimal(s: &mut String, n: u32)
    ensures final(s)@ == old(s)@ + spec_decimal(n as nat),
    decreases n,
{
    if n < 10 {
        push_char(s, ((n + 48) as u8) as char);
        assert(s@ =~= old(s)@ + spec_decimal(n as nat));
    } else {
        push_decimal(s, n / 10);
        push_char(s, (((n % 10) + 48) as u8) as char);
        assert(s@ =~= old(s)@ + spec_decimal(n as nat));
    }
}

/// The name of a note's place in the octave.
pub open spec fn spec_pitch_name(r: int) -> Seq<char> {
    if r == 0 { "C"@ }
    else if r == 1 { "C#"@ }
    else if r == 2 { "D"@ }
    else if r == 3 { "D#"@ }
    else if r == 4 { "E"@ }
    else if r == 5 { "F"@ }
    else if r == 6 { "F#"@ }
    else if r == 7 { "G"@ }
    else if r == 8 { "G#"@ }
    else if r == 9 { "A"@ }
    else if r == 10 { "A#"@ }
    else { "B"@ }
}

/// The octave number of a note when `middle_c` names octave 4.
pub open spec fn spec_octave(note: u8, middle_c: u8) -> int {
    note / 12 - middle_c / 12 + 4
}

/// A note's name: its pitch name and octave, such as `C4` or `F#-1`.
pub open spec fn spec_note_name(note: u8, middle_c: u8) -> Seq<char> {
    let o = spec_octave(note, middle_c);
    spec_pitch_name((note % 12) as int) + (if o < 0 { seq!['-'] + spec_decimal((-o) as nat) } else { spec_decimal(o as nat) })
}

/// A note's name, with `middle_c` naming octave 4.
pub fn note_name(note: u8, middle_c: u8) -> (s: String)
    ensures s@ == spec_note_name(note, middle_c),
{
    let mut s = String::new();
    let r = note % 12;
    if r == 0 { push_str(&mut s, "C"); }
    else if r == 1 { push_str(&mut s, "C#"); }
    else if r == 2 { push_str(&mut s, "D"); }
    else if r == 3 { push_str(&mut s, "D#"); }
    else if r == 4 { push_str(&mut s, "E"); }
    else if r == 5 { push_str(&mut s, "F"); }
    else if r == 6 { push_str(&mut s, "F#"); }
    else if r == 7 { push_str(&mut s, "G"); }
    else if r == 8 { push_str(&mut s, "G#"); }
    else if r == 9 { push_str(&mut s, "A"); }
    else if r == 10 { push_str(&mut s, "A#"); }
    else { push_str(&mut s, "B"); }
    let ghost name = s@;
    let octave: i32 = (note / 12) as i32 - (middle_c / 12) as i32 + 4;
    if octave < 0 {
        push_char(&mut s, '-');
        push_decimal(&mut s, (0 - octave) as u32);
        assert(s@ =~= name + (seq!['-'] + spec_decimal((-spec_octave(note, middle_c)) as nat)));
    } else {
        push_decimal(&mut s, octave as u32);
    }
    s
}

/// `s` without any `note`.
pub open spec fn spec_without_note(s: Seq<u8>, note: u8) -> Seq<u8>
    decreases s.len(),
{
    if s.len() == 0 {
        s
    } else if s.last() == note {
        spec_without_note(s.drop_last(), note)
    } else {
        spec_without_note(s.drop_last(), note).push(s.last())
    }
}

/// Hold a note from outside: it is recorded when it lies in `start..end`
/// and is not held yet.
pub fn add_active_note(notes: &mut Vec<u8>, note: u8, start: u8, end: u8)
    ensures
        final(notes)@ == (if start <= note < end && !old(notes)@.contains(note) {
            old(notes)@.push(note)
        } else {
            old(notes)@
        }),
{
    if note >= start && note < end {
        let mut i: usize = 0;
        while i < notes.len()
            invariant
                i <= notes@.len(),
                notes@ == old(notes)@,
                forall|j: int| 0 <= j < i ==> notes@[j] != note,
            decreases notes@.len() - i,
        {
            if notes[i] == note {
                return;
            }
            i = i + 1;
        }
        notes.push(note);
    }
}

/// Release a held note: every copy of it is dropped, the rest keep their
/// order.
pub fn remove_active_note(notes: &mut Vec<u8>, note: u8)
    ensures final(notes)@ == spec_without_note(old(notes)@, note),
{
    let mut kept: Vec<u8> = Vec::new();
    let mut i: usize = 0;
    while i < notes.len()
        invariant
            i <= notes@.len(),
            notes@ == old(notes)@,
            kept@ == spec_without_note(notes@.take(i as int), note),
        decreases notes@.len() - i,
    {
        let ghost t = notes@.take(i as int + 1);
        assert(t.drop_last() =~= notes@.take(i as int));
        if notes[i] != note {
            kept.push(notes[i]);
        }
        i = i + 1;
    }
    assert(notes@.take(i as int) =~= notes@);
    *notes = kept;
}

/// Whether a note sounds: held from outside, or held by the mouse.
pub fn is_note_active(notes: &Vec<u8>, mouse_note: Option<u8>, note: u8) -> (b: bool)
    ensures b == (notes@.contains(note) || mouse_note == Some(note)),
{
    let mut i: usize = 0;
    while i < notes.len()
        invariant
            i <= notes@.len(),
            forall|j: int| 0 <= j < i ==> notes@[j] != note,
        decreases notes@.len() - i,
    {
        if notes[i] == note {
            return true;
        }
        i = i + 1;
    }
    match mouse_note {
        Some(m) => m == note,
        None => false,
    }
}

} // verus!
