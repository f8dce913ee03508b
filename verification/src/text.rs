//! Text building and comparison used by the display helpers of the library.
use vstd::prelude::*;

verus! {

/// Append one character to a string (`String::push`).
#[verifier::external_body]
pub(crate) fn push_char(s: &mut String, c: char)
    ensures final(s)@ == old(s)@.push(c),
{
    s.push(c);
}

/// Append a string slice.
pub fn push_str(s: &mut String, t: &str)
    ensures final(s)@ == old(s)@ + t@,
{
    s.append(t);
}

/// The upper-case hexadecimal digit of a value below 16.
pub open spec fn spec_hex_digit(d: u32) -> char {
    if d < 10 {
        ((d + 48) as u8) as char
    } else {
        ((d + 55) as u8) as char
    }
}

/// Upper-case hexadecimal digits of a value, without leading zeros.
pub open spec fn spec_hex(v: u32) -> Seq<char>
    decreases v,
{
    if v < 16 {
        seq![spec_hex_digit(v)]
    } else {
        spec_hex(v / 16).push(spec_hex_digit(v % 16))
    }
}

/// Upper-case hexadecimal digits of a value, at least two of them.
pub open spec fn spec_hex2(v: u32) -> Seq<char> {
    if v < 16 {
        seq!['0'].push(spec_hex_digit(v))
    } else {
        spec_hex(v)
    }
}

fn hex_digit(d: u32) -> (c: char)
    requires d < 16,
    ensures c == spec_hex_digit(d),
{
    if d < 10 {
        ((d + 48) as u8) as char
    } else {
        ((d + 55) as u8) as char
    }
}

/// The hexadecimal digits of a value as characters.
pub fn hex_chars(v: u32) -> (cs: Vec<char>)
    ensures cs@ == spec_hex(v),
    decreases v,
{
    if v < 16 {
        let mut cs = Vec::new();
        cs.push(hex_digit(v));
        assert(cs@ =~= seq![spec_hex_digit(v)]);
        cs
    } else {
        let mut cs = hex_chars(v / 16);
        cs.push(hex_digit(v % 16));
        cs
    }
}

/// Append the upper-case hexadecimal digits of a value.
pub fn push_hex(s: &mut String, v: u32)
    ensures final(s)@ == old(s)@ + spec_hex(v),
{
    let cs = hex_chars(v);
    let ghost start = s@;
    let mut i: usize = 0;
    while i < cs.len()
        invariant
            i <= cs@.len(),
            s@ == start + cs@.take(i as int),
        decreases cs@.len() - i,
    {
        push_char(s, cs[i]);
        assert(cs@.take(i as int + 1) =~= cs@.take(i as int).push(cs@[i as int]));
        i = i + 1;
    }
    assert(cs@.take(i as int) =~= cs@);
}

/// Append the upper-case hexadecimal digits of a value, padded to two.
pub fn push_hex2(s: &mut String, v: u32)
    ensures final(s)@ == old(s)@ + spec_hex2(v),
{
    if v < 16 {
        push_char(s, '0');
        push_char(s, hex_digit(v));
        assert(s@ =~= old(s)@ + spec_hex2(v));
    } else {
        push_hex(s, v);
    }
}

/// Upper-case hexadecimal digits of a value, zero-padded on the left to at
/// least `width` digits (as `{:0width$X}` formats it).
pub open spec fn spec_hex_padded(v: u32, width: nat) -> Seq<char> {
    let digits = spec_hex(v);
    if digits.len() < width {
        Seq::new((width - digits.len()) as nat, |i: int| '0') + digits
    } else {
        digits
    }
}

/// Append the upper-case hexadecimal digits of a value, zero-padded to at
/// least `width` digits.
pub fn push_hex_padded(s: &mut String, v: u32, width: usize)
    ensures final(s)@ == old(s)@ + spec_hex_padded(v, width as nat),
{
    let cs = hex_chars(v);
    let ghost start = s@;
    let pad: usize = if cs.len() < width { width - cs.len() } else { 0 };
    let mut j: usize = 0;
    while j < pad
        invariant
            j <= pad,
            s@ == start + Seq::new(j as nat, |i: int| '0'),
        decreases pad - j,
    {
        push_char(s, '0');
        assert(Seq::new((j + 1) as nat, |i: int| '0') =~= Seq::new(j as nat, |i: int| '0').push('0'));
        j = j + 1;
    }
    let ghost padded = s@;
    let mut i: usize = 0;
    while i < cs.len()
        invariant
            i <= cs@.len(),
            s@ == padded + cs@.take(i as int),
        decreases cs@.len() - i,
    {
        push_char(s, cs[i]);
        assert(cs@.take(i as int + 1) =~= cs@.take(i as int).push(cs@[i as int]));
        i = i + 1;
    }
    assert(cs@.take(i as int) =~= cs@);
    proof {
        if cs@.len() < width {
            assert(s@ =~= start + spec_hex_padded(v, width as nat));
        } else {
            assert(Seq::new(0nat, |i: int| '0') =~= Seq::<char>::empty());
            assert(s@ =~= start + spec_hex_padded(v, width as nat));
        }
    }
}

/// The lower-case hexadecimal digit of a value below 16.
pub open spec fn spec_hex_digit_lower(d: u32) -> char {
    if d < 10 {
        ((d + 48) as u8) as char
    } else {
        ((d + 87) as u8) as char
    }
}

/// Lower-case hexadecimal digits of a value, without leading zeros.
pub open spec fn spec_hex_lower(v: u32) -> Seq<char>
    decreases v,
{
    if v < 16 {
        seq![spec_hex_digit_lower(v)]
    } else {
        spec_hex_lower(v / 16).push(spec_hex_digit_lower(v % 16))
    }
}

/// Lower-case hexadecimal digits of a value, zero-padded on the left to at
/// least `width` digits (as `{:0width$x}` formats it).
pub open spec fn spec_hex_lower_padded(v: u32, width: nat) -> Seq<char> {
    let digits = spec_hex_lower(v);
    if digits.len() < width {
        Seq::new((width - digits.len()) as nat, |i: int| '0') + digits
    } else {
        digits
    }
}

fn hex_digit_lower(d: u32) -> (c: char)
    requires d < 16,
    ensures c == spec_hex_digit_lower(d),
{
    if d < 10 {
        ((d + 48) as u8) as char
    } else {
        ((d + 87) as u8) as char
    }
}

fn hex_lower_chars(v: u32) -> (cs: Vec<char>)
    ensures cs@ == spec_hex_lower(v),
    decreases v,
{
    if v < 16 {
        let mut cs = Vec::new();
        cs.push(hex_digit_lower(v));
        assert(cs@ =~= seq![spec_hex_digit_lower(v)]);
        cs
    } else {
        let mut cs = hex_lower_chars(v / 16);
        cs.push(hex_digit_lower(v % 16));
        cs
    }
}

/// Append the lower-case hexadecimal digits of a value, zero-padded to at
/// least `width` digits.
pub fn push_hex_lower_padded(s: &mut String, v: u32, width: usize)
    ensures final(s)@ == old(s)@ + spec_hex_lower_padded(v, width as nat),
{
    let cs = hex_lower_chars(v);
    let ghost start = s@;
    let pad: usize = if cs.len() < width { width - cs.len() } else { 0 };
    let mut j: usize = 0;
    while j < pad
        invariant
            j <= pad,
            s@ == start + Seq::new(j as nat, |i: int| '0'),
        decreases pad - j,
    {
        push_char(s, '0');
        assert(Seq::new((j + 1) as nat, |i: int| '0') =~= Seq::new(j as nat, |i: int| '0').push('0'));
        j = j + 1;
    }
    let ghost padded = s@;
    let mut i: usize = 0;
    while i < cs.len()
        invariant
            i <= cs@.len(),
            s@ == padded + cs@.take(i as int),
        decreases cs@.len() - i,
    {
        push_char(s, cs[i]);
        assert(cs@.take(i as int + 1) =~= cs@.take(i as int).push(cs@[i as int]));
        i = i + 1;
    }
    assert(cs@.take(i as int) =~= cs@);
    proof {
        if cs@.len() < width {
            assert(s@ =~= start + spec_hex_lower_padded(v, width as nat));
        } else {
            assert(Seq::new(0nat, |i: int| '0') =~= Seq::<char>::empty());
            assert(s@ =~= start + spec_hex_lower_padded(v, width as nat));
        }
    }
}

/// Lexicographic order of character sequences (a proper prefix comes first).
pub open spec fn spec_text_less(a: Seq<char>, b: Seq<char>) -> bool
    decreases a.len(),
{
    if a.len() == 0 {
        b.len() > 0
    } else if b.len() == 0 {
        false
    } else if a[0] != b[0] {
        (a[0] as int) < (b[0] as int)
    } else {
        spec_text_less(a.skip(1), b.skip(1))
    }
}

/// The lexicographic order is a strict total order.
pub proof fn lemma_text_less_total(a: Seq<char>, b: Seq<char>)
    ensures
        !(spec_text_less(a, b) && spec_text_less(b, a)),
        a != b ==> spec_text_less(a, b) || spec_text_less(b, a),
        !spec_text_less(a, a),
    decreases a.len(),
{
    if a.len() > 0 && b.len() > 0 {
        lemma_text_less_total(a.skip(1), b.skip(1));
        if a[0] != b[0] {
            assert((a[0] as int) != (b[0] as int));
        }
        if a[0] == b[0] && a != b {
            assert(a =~= seq![a[0]] + a.skip(1));
            assert(b =~= seq![b[0]] + b.skip(1));
        }
    } else if a.len() == 0 && b.len() == 0 {
        assert(a =~= b);
    }
    if a.len() > 0 {
        lemma_text_less_total(a.skip(1), a.skip(1));
    }
}

/// The lexicographic order is transitive.
pub proof fn lemma_text_less_transitive(a: Seq<char>, b: Seq<char>, c: Seq<char>)
    requires
        spec_text_less(a, b),
        spec_text_less(b, c),
    ensures spec_text_less(a, c),
    decreases a.len(),
{
    if a.len() > 0 && b.len() > 0 && c.len() > 0 && a[0] == b[0] && b[0] == c[0] {
        lemma_text_less_transitive(a.skip(1), b.skip(1), c.skip(1));
    }
}

/// Whether `a` comes before `b` in lexicographic character order.
pub fn text_less(a: &str, b: &str) -> (r: bool)
    ensures r == spec_text_less(a@, b@),
{
    let na = a.unicode_len();
    let nb = b.unicode_len();
    let mut i: usize = 0;
    assert(a@.skip(0) =~= a@);
    assert(b@.skip(0) =~= b@);
    while i < na && i < nb
        invariant
            na == a@.len(),
            nb == b@.len(),
            i <= na,
            i <= nb,
            a@.take(i as int) == b@.take(i as int),
            spec_text_less(a@, b@) == spec_text_less(a@.skip(i as int), b@.skip(i as int)),
        decreases na - i,
    {
        let ca = a.get_char(i);
        let cb = b.get_char(i);
        proof {
            assert(a@.skip(i as int)[0] == ca);
            assert(b@.skip(i as int)[0] == cb);
            assert(a@.skip(i as int).skip(1) =~= a@.skip(i as int + 1));
            assert(b@.skip(i as int).skip(1) =~= b@.skip(i as int + 1));
        }
        if ca != cb {
            return ca < cb;
        }
        assert(a@.take(i as int + 1) =~= a@.take(i as int).push(ca));
        assert(b@.take(i as int + 1) =~= b@.take(i as int).push(cb));
        i = i + 1;
    }
    i < nb
}

/// Whether two string slices hold the same characters.
pub fn text_eq(a: &str, b: &str) -> (r: bool)
    ensures r == (a@ == b@),
{
    let na = a.unicode_len();
    let nb = b.unicode_len();
    if na != nb {
        return false;
    }
    let mut i: usize = 0;
    while i < na
        invariant
            na == a@.len(),
            nb == b@.len(),
            na == nb,
            i <= na,
            a@.take(i as int) == b@.take(i as int),
        decreases na - i,
    {
        let ca = a.get_char(i);
        let cb = b.get_char(i);
        if ca != cb {
            return false;
        }
        assert(a@.take(i as int + 1) =~= a@.take(i as int).push(ca));
        assert(b@.take(i as int + 1) =~= b@.take(i as int).push(cb));
        i = i + 1;
    }
    assert(a@.take(i as int) =~= a@);
    assert(b@.take(i as int) =~= b@);
    true
}

/// Whether strings are strictly increasing in lexicographic order.
pub open spec fn spec_texts_increasing(s: Seq<Seq<char>>) -> bool {
    forall|i: int, j: int| 0 <= i < j < s.len() ==> spec_text_less(s[i], s[j])
}

/// The character sequences of a list of strings.
pub open spec fn spec_texts(s: Seq<String>) -> Seq<Seq<char>> {
    s.map_values(|t: String| t@)
}

/// Insert a string into a strictly increasing list of strings, unless an
/// equal one is already there.
pub fn insert_text_sorted(v: &mut Vec<String>, x: String)
    requires spec_texts_increasing(spec_texts(old(v)@)),
    ensures
        spec_texts_increasing(spec_texts(final(v)@)),
        spec_texts(final(v)@).to_set() == spec_texts(old(v)@).to_set().insert(x@),
{
    let ghost before = spec_texts(v@);
    let mut j: usize = 0;
    while j < v.len() && text_less(v[j].as_str(), x.as_str())
        invariant
            j <= v@.len(),
            before == spec_texts(v@),
            forall|i: int| 0 <= i < j ==> spec_text_less(#[trigger] before[i], x@),
        decreases v@.len() - j,
    {
        j = j + 1;
    }
    if j < v.len() && text_eq(v[j].as_str(), x.as_str()) {
        assert(before[j as int] == x@);
        assert(before.to_set().insert(x@) =~= before.to_set());
        return;
    }
    proof {
        if j < before.len() {
            lemma_text_less_total(before[j as int], x@);
        }
    }
    v.insert(j, x);
    proof {
        let after = spec_texts(v@);
        assert(after =~= before.insert(j as int, x@));
        assert forall|a: int, b: int| 0 <= a < b < after.len() implies spec_text_less(after[a], after[b]) by {
            if b < j {
            } else if a < j && b == j {
            } else if a < j && b > j {
                assert(after[b] == before[b - 1]);
                if j < before.len() {
                    if b - 1 > j {
                        lemma_text_less_transitive(x@, before[j as int], before[b - 1]);
                    }
                    lemma_text_less_transitive(after[a], x@, after[b]);
                }
            } else if a == j {
                assert(after[b] == before[b - 1]);
                if b - 1 > j {
                    lemma_text_less_transitive(x@, before[j as int], before[b - 1]);
                }
            } else {
                assert(after[a] == before[a - 1]);
                assert(after[b] == before[b - 1]);
            }
        }
        assert forall|y: Seq<char>| after.to_set().contains(y) <==> before.to_set().insert(x@).contains(y) by {
            if after.to_set().contains(y) {
                let k = choose|k: int| 0 <= k < after.len() && after[k] == y;
                if k < j {
                    assert(before[k] == y);
                } else if k > j {
                    assert(before[k - 1] == y);
                }
            }
            if before.to_set().contains(y) {
                let k = choose|k: int| 0 <= k < before.len() && before[k] == y;
                if k < j {
                    assert(after[k] == y);
                } else {
                    assert(after[k + 1] == y);
                }
            }
            if y == x@ {
                assert(after[j as int] == y);
            }
        }
        assert(after.to_set() =~= before.to_set().insert(x@));
    }
}

} // verus!
