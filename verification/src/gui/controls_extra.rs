//! More controls: a combo box, a text editor, a toggle button, a check box,
//! a tooltip, drawable and hyperlink buttons and an image holder. Each wraps
//! a [`Component`] and keeps its own state; none of them renders.
use vstd::prelude::*;
use vstd::utf8::{encode_utf8, is_char_boundary};
use crate::gui::components::{Bounds, Component};
use crate::gui::error::{GuiError, Result};
use crate::text::push_str;

verus! {

/// Told the index and text of a newly selected item.
pub trait SelectionCallback {
    /// The selection changed to `index`, whose text is `text`.
    fn selected(&mut self, index: usize, text: &str);
}

/// Told the new text of an editor.
pub trait TextCallback {
    /// The text changed to `text`.
    fn text_changed(&mut self, text: &str);
}

/// Told a new on/off state.
pub trait StateCallback {
    /// The state changed to `on`.
    fn state_changed(&mut self, on: bool);
}

/// Told of a click.
pub trait ClickCallback {
    /// The control was clicked.
    fn clicked(&mut self);
}

/// Call a selection closure (`FnMut::call_mut`). What the closure does is
/// its owner's business, so nothing is stated of it.
#[verifier::external_body]
fn call_selection_closure<F: FnMut(usize, &str)>(f: &mut F, index: usize, text: &str) {
    f(index, text)
}

/// Call a text closure (`FnMut::call_mut`); nothing is stated of it.
#[verifier::external_body]
fn call_text_closure<F: FnMut(&str)>(f: &mut F, text: &str) {
    f(text)
}

/// Call a state closure (`FnMut::call_mut`); nothing is stated of it.
#[verifier::external_body]
fn call_state_closure<F: FnMut(bool)>(f: &mut F, on: bool) {
    f(on)
}

/// Call a click closure (`FnMut::call_mut`); nothing is stated of it.
#[verifier::external_body]
fn call_click_closure<F: FnMut()>(f: &mut F) {
    f()
}

impl<F: FnMut(usize, &str)> SelectionCallback for F {
    fn selected(&mut self, index: usize, text: &str) {
        call_selection_closure(self, index, text)
    }
}

impl<F: FnMut(&str)> TextCallback for F {
    fn text_changed(&mut self, text: &str) {
        call_text_closure(self, text)
    }
}

impl<F: FnMut(bool)> StateCallback for F {
    fn state_changed(&mut self, on: bool) {
        call_state_closure(self, on)
    }
}

impl<F: FnMut()> ClickCallback for F {
    fn clicked(&mut self) {
        call_click_closure(self)
    }
}

/// Tell a text callback, if there is one, the new text.
fn notify_text(cb: &mut Option<Box<dyn TextCallback>>, text: &str)
    ensures
        (*final(cb) is Some) == (*old(cb) is Some),
{
    match cb {
        Some(cb) => cb.text_changed(text),
        None => {},
    }
}

/// Tell a state callback, if there is one, the new state.
fn notify_state(cb: &mut Option<Box<dyn StateCallback>>, on: bool)
    ensures
        (*final(cb) is Some) == (*old(cb) is Some),
{
    match cb {
        Some(cb) => cb.state_changed(on),
        None => {},
    }
}

/// Tell a click callback, if there is one, of a click.
fn notify_click(cb: &mut Option<Box<dyn ClickCallback>>)
    ensures
        (*final(cb) is Some) == (*old(cb) is Some),
{
    match cb {
        Some(cb) => cb.clicked(),
        None => {},
    }
}

/// The texts of a list of strings.
pub open spec fn spec_strings(v: Seq<String>) -> Seq<Seq<char>> {
    v.map_values(|s: String| s@)
}

/// A component named by a prefix and a text.
fn named_component(prefix: &str, text: &str) -> Component {
    let mut name = String::new();
    push_str(&mut name, prefix);
    push_str(&mut name, text);
    Component::new(name.as_str())
}

// ---------------------------------------------------------------------------
// ComboBox
// ---------------------------------------------------------------------------

/// A drop-down list of items, one of which may be selected.
pub struct ComboBox {
    component: Component,
    items: Vec<String>,
    selected_index: Option<usize>,
    is_open: bool,
    on_change: Option<Box<dyn SelectionCallback>>,
    notified_log: Ghost<Seq<(usize, Seq<char>)>>,
}

impl ComboBox {
    /// Every call of the callback so far, in order: the (index, text) pairs the change callback was told.
    pub closed spec fn notified(self) -> Seq<(usize, Seq<char>)> {
        self.notified_log@
    }

    /// Whether a change callback is set.
    pub closed spec fn has_on_change(self) -> bool {
        self.on_change is Some
    }

    /// The items' texts, in order.
    pub closed spec fn spec_items(self) -> Seq<Seq<char>> {
        spec_strings(self.items@)
    }

    /// The selected index.
    pub closed spec fn selected(self) -> Option<usize> {
        self.selected_index
    }

    /// Whether the list is open.
    pub closed spec fn open(self) -> bool {
        self.is_open
    }

    /// The wrapped component.
    pub closed spec fn spec_component(self) -> Component {
        self.component
    }

    /// An empty, closed combo box with nothing selected.
    pub fn new() -> (c: ComboBox)
        ensures
            c.spec_items() == Seq::<Seq<char>>::empty(),
            c.selected() is None,
            !c.open(),
    {
        let c = ComboBox {
            component: Component::new("ComboBox"),
            items: Vec::new(),
            selected_index: None,
            is_open: false,
            on_change: None,
            notified_log: Ghost(Seq::empty()),
        };
        assert(c.spec_items() =~= Seq::<Seq<char>>::empty());
        c
    }

    /// Append an item.
    pub fn add_item(&mut self, item: &str)
        ensures
            final(self).spec_items() == old(self).spec_items().push(item@),
            final(self).selected() == old(self).selected(),
            final(self).open() == old(self).open(),
    {
        self.items.push(item.to_owned());
        assert(self.spec_items() =~= old(self).spec_items().push(item@));
    }

    /// Remove every item and the selection.
    pub fn clear(&mut self)
        ensures
            final(self).spec_items() == Seq::<Seq<char>>::empty(),
            final(self).selected() is None,
            final(self).open() == old(self).open(),
    {
        self.items.clear();
        self.selected_index = None;
        assert(self.spec_items() =~= Seq::<Seq<char>>::empty());
    }

    /// The number of items.
    pub fn num_items(&self) -> (n: usize)
        ensures n == self.spec_items().len(),
    {
        self.items.len()
    }

    /// The item at a position.
    pub fn item(&self, index: usize) -> (r: Option<&str>)
        ensures
            r is Some <==> index < self.spec_items().len(),
            r matches Some(s) ==> s@ == self.spec_items()[index as int],
    {
        if index < self.items.len() {
            Some(self.items[index].as_str())
        } else {
            None
        }
    }

    /// Every item.
    pub fn items(&self) -> (r: &[String])
        ensures spec_strings(r@) == self.spec_items(),
    {
        self.items.as_slice()
    }

    /// The selected index.
    pub fn selected_index(&self) -> (r: Option<usize>)
        ensures r == self.selected(),
    {
        self.selected_index
    }

    /// Select an item, or nothing with `None`. An index past the end is
    /// ignored. When the selection changes to an item, the change callback
    /// is told its index and text.
    pub fn set_selected_index(&mut self, index: Option<usize>)
        ensures
            final(self).spec_items() == old(self).spec_items(),
            final(self).open() == old(self).open(),
            final(self).selected() == (if index matches Some(i) && i >= old(self).spec_items().len() {
                old(self).selected()
            } else {
                index
            }),
            final(self).has_on_change() == old(self).has_on_change(),
            final(self).notified() == (if index is Some && index->0 < old(self).spec_items().len()
                && old(self).selected() != index && old(self).has_on_change() {
                old(self).notified().push((index->0, old(self).spec_items()[index->0 as int]))
            } else {
                old(self).notified()
            }),
    {
        match index {
            Some(i) => {
                if i >= self.items.len() {
                    return;
                }
            },
            None => {},
        }
        if self.selected_index != index {
            self.selected_index = index;
            match index {
                Some(i) => match &mut self.on_change {
                    Some(cb) => {
                        cb.selected(i, self.items[i].as_str());
                        self.notified_log = Ghost(self.notified_log@.push((i, self.items@[i as int]@)));
                    },
                    None => {},
                },
                None => {},
            }
        }
    }

    /// The selected item's text.
    pub fn selected_item(&self) -> (r: Option<&str>)
        ensures
            r is Some <==> (self.selected() matches Some(i) && i < self.spec_items().len()),
            r matches Some(s) ==> s@ == self.spec_items()[self.selected()->0 as int],
    {
        match self.selected_index {
            Some(i) => self.item(i),
            None => None,
        }
    }

    /// Whether the list is open.
    pub fn is_open(&self) -> (b: bool)
        ensures b == self.open(),
    {
        self.is_open
    }

    /// Open or close the list.
    pub fn set_open(&mut self, open: bool)
        ensures
            final(self).open() == open,
            final(self).spec_items() == old(self).spec_items(),
            final(self).selected() == old(self).selected(),
    {
        self.is_open = open;
    }

    /// Set the change callback, told `(index, text)` of a new selection.
    pub fn set_on_change<F: FnMut(usize, &str) + 'static>(&mut self, callback: F)
        ensures
            final(self).has_on_change(),
            final(self).spec_items() == old(self).spec_items(),
            final(self).selected() == old(self).selected(),
            final(self).open() == old(self).open(),
    {
        let boxed: Box<dyn SelectionCallback> = Box::new(callback);
        self.on_change = Some(boxed);
    }

    /// The wrapped component.
    pub fn component(&self) -> (c: &Component)
        ensures *c == self.spec_component(),
    {
        &self.component
    }

    /// The wrapped component, to change.
    pub fn component_mut(&mut self) -> (c: &mut Component)
        ensures
            *c == old(self).spec_component(),
            final(self).spec_component() == *final(c),
            final(self).spec_items() == old(self).spec_items(),
            final(self).selected() == old(self).selected(),
            final(self).open() == old(self).open(),
    {
        &mut self.component
    }

    /// Set the component's bounds; bounds with a zero side are refused.
    pub fn set_bounds(&mut self, bounds: Bounds) -> (r: Result<()>)
        ensures
            final(self).spec_component().spec_id() == old(self).spec_component().spec_id(),
            bounds.width > 0 && bounds.height > 0 ==> r is Ok,
            !(bounds.width > 0 && bounds.height > 0) ==> r == Err::<(), GuiError>(
                GuiError::InvalidBounds(bounds.x, bounds.y, bounds.width, bounds.height),
            ),
            final(self).spec_items() == old(self).spec_items(),
            final(self).selected() == old(self).selected(),
            final(self).open() == old(self).open(),
    {
        self.component.set_bounds(bounds)
    }

    /// The component's bounds.
    pub fn bounds(&self) -> Bounds {
        self.component.bounds()
    }

    /// Whether the component is enabled.
    pub fn is_enabled(&self) -> bool {
        self.component.is_enabled()
    }

    /// Enable or disable the component.
    pub fn set_enabled(&mut self, enabled: bool)
        ensures
            final(self).spec_component().spec_id() == old(self).spec_component().spec_id(),
            final(self).spec_items() == old(self).spec_items(),
            final(self).selected() == old(self).selected(),
            final(self).open() == old(self).open(),
    {
        self.component.set_enabled(enabled);
    }

    /// Whether the component is visible.
    pub fn is_visible(&self) -> bool {
        self.component.is_visible()
    }

    /// Show or hide the component.
    pub fn set_visible(&mut self, visible: bool)
        ensures
            final(self).spec_component().spec_id() == old(self).spec_component().spec_id(),
            final(self).spec_items() == old(self).spec_items(),
            final(self).selected() == old(self).selected(),
            final(self).open() == old(self).open(),
    {
        self.component.set_visible(visible);
    }
}

// ---------------------------------------------------------------------------
// TextEditor
// ---------------------------------------------------------------------------

/// The UTF-8 encoding of a concatenation is the concatenation of the
/// encodings.
pub proof fn lemma_encode_utf8_concat(a: Seq<char>, b: Seq<char>)
    ensures encode_utf8(a + b) == encode_utf8(a) + encode_utf8(b),
    decreases a.len(),
{
    if a.len() == 0 {
        assert(a + b =~= b);
        assert(encode_utf8(a) =~= Seq::<u8>::empty());
        assert(encode_utf8(a) + encode_utf8(b) =~= encode_utf8(b));
    } else {
        assert((a + b).drop_first() =~= a.drop_first() + b);
        assert((a + b)[0] == a[0]);
        lemma_encode_utf8_concat(a.drop_first(), b);
        assert(encode_utf8(a + b) =~= encode_utf8(a) + encode_utf8(b));
    }
}

/// The bytes kept of `bytes` under an optional byte limit.
pub open spec fn spec_clip(bytes: Seq<u8>, limit: Option<usize>) -> Seq<u8> {
    match limit {
        Some(m) => if bytes.len() <= m { bytes } else { bytes.subrange(0, m as int) },
        None => bytes,
    }
}

/// How many bytes of a text of `text_len` bytes an insertion into a text of
/// `len` bytes keeps under an optional limit.
pub open spec fn spec_insert_len(text_len: nat, len: nat, limit: Option<usize>) -> nat {
    match limit {
        Some(m) => {
            let room: nat = if len < m { (m - len) as nat } else { 0 };
            if text_len <= room { text_len } else { room }
        },
        None => text_len,
    }
}

/// A text and a cursor inside it, as a byte offset.
struct EditBuffer {
    text: String,
    cursor: usize,
}

impl EditBuffer {
    /// The cursor lies within the text, whose encoding fits in memory.
    #[verifier::type_invariant]
    spec fn wf(self) -> bool {
        &&& encode_utf8(self.text@).len() <= usize::MAX
        &&& self.cursor <= encode_utf8(self.text@).len()
    }

    spec fn bytes(self) -> Seq<u8> {
        encode_utf8(self.text@)
    }

    fn empty() -> (b: EditBuffer)
        ensures
            b.text@ == Seq::<char>::empty(),
            b.cursor == 0,
    {
        EditBuffer { text: String::new(), cursor: 0 }
    }

    fn len(&self) -> (n: usize)
        ensures n == self.bytes().len(),
    {
        proof {
            use_type_invariant(self);
        }
        self.text.as_str().len()
    }

    /// Replace the text by `t` unless it is already `t`; the cursor is
    /// clamped to the new end. Whether it changed is returned.
    fn replace(&mut self, t: &str) -> (changed: bool)
        requires
            encode_utf8(t@).len() <= usize::MAX,
        ensures
            changed == (old(self).bytes() != encode_utf8(t@)),
            final(self).bytes() == encode_utf8(t@),
            final(self).text@ == (if changed { t@ } else { old(self).text@ }),
            final(self).cursor == (if !changed || old(self).cursor <= encode_utf8(t@).len() {
                old(self).cursor
            } else {
                encode_utf8(t@).len() as usize
            }),
    {
        proof {
            use_type_invariant(&*self);
            vstd::utf8::encode_utf8_decode_utf8(self.text@);
            vstd::utf8::encode_utf8_decode_utf8(t@);
        }
        if crate::text::text_eq(self.text.as_str(), t) {
            return false;
        }
        let tl = t.len();
        if self.cursor > tl {
            self.cursor = tl;
        }
        self.text = t.to_owned();
        true
    }

    /// Keep the first `m` bytes (a character boundary) and clamp the cursor.
    fn truncate(&mut self, m: usize)
        requires
            m < old(self).bytes().len(),
            is_char_boundary(old(self).bytes(), m as int),
        ensures
            final(self).bytes() == old(self).bytes().subrange(0, m as int),
            final(self).cursor == (if old(self).cursor <= m { old(self).cursor } else { m }),
    {
        proof {
            use_type_invariant(&*self);
        }
        let (a, _rest) = self.text.as_str().split_at(m);
        let kept = a.to_owned();
        proof {
            assert(encode_utf8(kept@) =~= old(self).bytes().subrange(0, m as int));
        }
        if self.cursor > m {
            self.cursor = m;
        }
        self.text = kept;
    }

    /// Move the cursor, clamped to the end.
    fn set_cursor(&mut self, pos: usize)
        ensures
            final(self).text@ == old(self).text@,
            final(self).cursor == (if pos <= old(self).bytes().len() { pos } else { old(self).bytes().len() as usize }),
    {
        let len = self.len();
        self.cursor = if pos <= len { pos } else { len };
    }

    /// Insert `ins` at the cursor (a character boundary) and move the
    /// cursor past it.
    fn insert(&mut self, ins: &str)
        requires
            is_char_boundary(old(self).bytes(), old(self).cursor as int),
            old(self).bytes().len() + encode_utf8(ins@).len() <= usize::MAX,
        ensures
            final(self).bytes() == old(self).bytes().subrange(0, old(self).cursor as int) + encode_utf8(ins@)
                + old(self).bytes().subrange(old(self).cursor as int, old(self).bytes().len() as int),
            final(self).cursor == old(self).cursor + encode_utf8(ins@).len(),
    {
        proof {
            use_type_invariant(&*self);
        }
        let pos = self.cursor;
        let k = ins.len();
        let (a, b) = self.text.as_str().split_at(pos);
        let mut joined = a.to_owned();
        joined.append(ins);
        joined.append(b);
        proof {
            lemma_encode_utf8_concat(a@, ins@);
            lemma_encode_utf8_concat(a@ + ins@, b@);
            assert(encode_utf8(joined@) =~= old(self).bytes().subrange(0, pos as int) + encode_utf8(ins@)
                + old(self).bytes().subrange(pos as int, old(self).bytes().len() as int));
        }
        self.text = joined;
        self.cursor = pos + k;
    }
}

/// An editable text field. Positions are byte offsets into the UTF-8 text.
pub struct TextEditor {
    component: Component,
    buffer: EditBuffer,
    is_multiline: bool,
    max_length: Option<usize>,
    is_read_only: bool,
    on_text_change: Option<Box<dyn TextCallback>>,
    notified_log: Ghost<Seq<Seq<char>>>,
}

impl TextEditor {
    /// Every call of the callback so far, in order: the texts the change callback was told.
    pub closed spec fn notified(self) -> Seq<Seq<char>> {
        self.notified_log@
    }

    /// Whether a change callback is set.
    pub closed spec fn has_on_text_change(self) -> bool {
        self.on_text_change is Some
    }

    /// The text.
    pub closed spec fn spec_text(self) -> Seq<char> {
        self.buffer.text@
    }

    /// The text's UTF-8 bytes.
    pub open spec fn spec_bytes(self) -> Seq<u8> {
        encode_utf8(self.spec_text())
    }

    /// Whether the editor takes several lines.
    pub closed spec fn multi(self) -> bool {
        self.is_multiline
    }

    /// The byte limit.
    pub closed spec fn limit(self) -> Option<usize> {
        self.max_length
    }

    /// Whether the editor refuses insertions.
    pub closed spec fn read_only(self) -> bool {
        self.is_read_only
    }

    /// The cursor's byte offset.
    pub closed spec fn cursor(self) -> usize {
        self.buffer.cursor
    }

    /// The wrapped component.
    pub closed spec fn spec_component(self) -> Component {
        self.component
    }

    /// Every setting but the text and the cursor is the same in both.
    pub open spec fn same_settings(self, other: TextEditor) -> bool {
        &&& self.multi() == other.multi()
        &&& self.limit() == other.limit()
        &&& self.read_only() == other.read_only()
    }

    /// An empty single-line editor: no limit, writable, cursor at 0.
    pub fn new() -> (e: TextEditor)
        ensures
            e.spec_text() == Seq::<char>::empty(),
            !e.multi(),
            e.limit() is None,
            !e.read_only(),
            e.cursor() == 0,
    {
        TextEditor {
            component: Component::new("TextEditor"),
            buffer: EditBuffer::empty(),
            is_multiline: false,
            max_length: None,
            is_read_only: false,
            on_text_change: None,
            notified_log: Ghost(Seq::empty()),
        }
    }

    /// An empty multi-line editor.
    pub fn multiline() -> (e: TextEditor)
        ensures
            e.spec_text() == Seq::<char>::empty(),
            e.multi(),
            e.limit() is None,
            !e.read_only(),
            e.cursor() == 0,
    {
        TextEditor {
            component: Component::new("TextEditor"),
            buffer: EditBuffer::empty(),
            is_multiline: true,
            max_length: None,
            is_read_only: false,
            on_text_change: None,
            notified_log: Ghost(Seq::empty()),
        }
    }

    /// The text.
    pub fn text(&self) -> (t: &str)
        ensures t@ == self.spec_text(),
    {
        self.buffer.text.as_str()
    }

    /// Replace the text, keeping at most the limit's bytes (read-only
    /// editors accept it too). When the text changes, the cursor is
    /// clamped to its end and the change callback is told the new text.
    /// The limit must fall on a character boundary of `text`.
    pub fn set_text(&mut self, text: &str)
        requires
            encode_utf8(text@).len() <= usize::MAX,
            is_char_boundary(encode_utf8(text@), spec_clip(encode_utf8(text@), old(self).limit()).len() as int),
        ensures
            final(self).spec_bytes() == spec_clip(encode_utf8(text@), old(self).limit()),
            final(self).cursor() == (if old(self).spec_bytes() == spec_clip(encode_utf8(text@), old(self).limit()) {
                old(self).cursor()
            } else if old(self).cursor() <= spec_clip(encode_utf8(text@), old(self).limit()).len() {
                old(self).cursor()
            } else {
                spec_clip(encode_utf8(text@), old(self).limit()).len() as usize
            }),
            final(self).same_settings(*old(self)),
            final(self).has_on_text_change() == old(self).has_on_text_change(),
            final(self).notified() == (if old(self).spec_bytes() != spec_clip(encode_utf8(text@), old(self).limit())
                && old(self).has_on_text_change() {
                old(self).notified().push(final(self).spec_text())
            } else {
                old(self).notified()
            }),
    {
        let len = text.len();
        let k: usize = match self.max_length {
            Some(m) => if len <= m { len } else { m },
            None => len,
        };
        let (t, _rest) = text.split_at(k);
        proof {
            assert(encode_utf8(t@) =~= spec_clip(encode_utf8(text@), old(self).limit()));
        }
        if self.buffer.replace(t) {
            let ghost had = self.on_text_change is Some;
            notify_text(&mut self.on_text_change, self.buffer.text.as_str());
            self.notified_log = Ghost(if had { self.notified_log@.push(self.buffer.text@) } else { self.notified_log@ });
        }
    }

    /// Empty the text (see [`TextEditor::set_text`]).
    pub fn clear(&mut self)
        ensures
            final(self).spec_text() == Seq::<char>::empty(),
            final(self).cursor() == 0,
            final(self).same_settings(*old(self)),
    {
        proof {
            use_type_invariant(&self.buffer);
            reveal_strlit("");
            assert(""@ =~= Seq::<char>::empty());
            assert(encode_utf8(""@) =~= Seq::<u8>::empty());
        }
        self.set_text("");
        proof {
            vstd::utf8::encode_utf8_decode_utf8(self.spec_text());
            vstd::utf8::encode_utf8_decode_utf8(Seq::<char>::empty());
            assert(encode_utf8(Seq::<char>::empty()) =~= Seq::<u8>::empty());
        }
    }

    /// Whether the editor takes several lines.
    pub fn is_multiline(&self) -> (b: bool)
        ensures b == self.multi(),
    {
        self.is_multiline
    }

    /// Choose single- or multi-line.
    pub fn set_multiline(&mut self, multiline: bool)
        ensures
            final(self).multi() == multiline,
            final(self).spec_text() == old(self).spec_text(),
            final(self).cursor() == old(self).cursor(),
            final(self).limit() == old(self).limit(),
            final(self).read_only() == old(self).read_only(),
    {
        self.is_multiline = multiline;
    }

    /// The byte limit, if any.
    pub fn max_length(&self) -> (m: Option<usize>)
        ensures m == self.limit(),
    {
        self.max_length
    }

    /// Set the byte limit (`None` removes it). A longer text is cut to the
    /// limit, which must then fall on a character boundary, and the cursor
    /// is clamped to the text's end. The change callback is not told.
    pub fn set_max_length(&mut self, max: Option<usize>)
        requires
            (max matches Some(m) && m < old(self).spec_bytes().len()) ==> is_char_boundary(old(self).spec_bytes(), max->0 as int),
        ensures
            final(self).limit() == max,
            final(self).spec_bytes() == (if max matches Some(m) && m < old(self).spec_bytes().len() {
                old(self).spec_bytes().subrange(0, max->0 as int)
            } else {
                old(self).spec_bytes()
            }),
            final(self).cursor() == (if old(self).cursor() <= final(self).spec_bytes().len() {
                old(self).cursor()
            } else {
                final(self).spec_bytes().len() as usize
            }),
            final(self).multi() == old(self).multi(),
            final(self).read_only() == old(self).read_only(),
    {
        proof {
            use_type_invariant(&self.buffer);
        }
        self.max_length = max;
        match max {
            Some(m) => {
                if m < self.buffer.len() {
                    self.buffer.truncate(m);
                }
            },
            None => {},
        }
    }

    /// Whether the editor refuses insertions.
    pub fn is_read_only(&self) -> (b: bool)
        ensures b == self.read_only(),
    {
        self.is_read_only
    }

    /// Refuse or accept insertions.
    pub fn set_read_only(&mut self, read_only: bool)
        ensures
            final(self).read_only() == read_only,
            final(self).spec_text() == old(self).spec_text(),
            final(self).cursor() == old(self).cursor(),
            final(self).limit() == old(self).limit(),
            final(self).multi() == old(self).multi(),
    {
        self.is_read_only = read_only;
    }

    /// The cursor's byte offset.
    pub fn cursor_position(&self) -> (p: usize)
        ensures
            p == self.cursor(),
            p <= self.spec_bytes().len(),
    {
        proof {
            use_type_invariant(&self.buffer);
        }
        self.buffer.cursor
    }

    /// Move the cursor, clamped to the text's end.
    pub fn set_cursor_position(&mut self, pos: usize)
        ensures
            final(self).cursor() == (if pos <= old(self).spec_bytes().len() {
                pos
            } else {
                old(self).spec_bytes().len() as usize
            }),
            final(self).spec_text() == old(self).spec_text(),
            final(self).same_settings(*old(self)),
    {
        self.buffer.set_cursor(pos);
    }

    /// Insert text at the cursor and move the cursor past it. A read-only
    /// editor ignores it; under a limit only as many bytes are taken as the
    /// limit leaves room for (that count must fall on a character boundary
    /// of `text`). When something is inserted, the cursor must lie on a
    /// character boundary and the change callback is told the new text.
    pub fn insert_text(&mut self, text: &str)
        requires
            encode_utf8(text@).len() <= usize::MAX,
            !old(self).read_only() ==> is_char_boundary(
                encode_utf8(text@),
                spec_insert_len(encode_utf8(text@).len(), old(self).spec_bytes().len(), old(self).limit()) as int,
            ),
            !old(self).read_only() && spec_insert_len(encode_utf8(text@).len(), old(self).spec_bytes().len(), old(self).limit()) > 0 ==> {
                &&& is_char_boundary(old(self).spec_bytes(), old(self).cursor() as int)
                &&& old(self).spec_bytes().len() + spec_insert_len(
                    encode_utf8(text@).len(),
                    old(self).spec_bytes().len(),
                    old(self).limit(),
                ) <= usize::MAX
            },
        ensures
            ({
                let n = spec_insert_len(encode_utf8(text@).len(), old(self).spec_bytes().len(), old(self).limit());
                let c = old(self).cursor() as int;
                if old(self).read_only() || n == 0 {
                    &&& final(self).spec_text() == old(self).spec_text()
                    &&& final(self).cursor() == old(self).cursor()
                } else {
                    &&& final(self).spec_bytes() == old(self).spec_bytes().subrange(0, c)
                        + encode_utf8(text@).subrange(0, n as int)
                        + old(self).spec_bytes().subrange(c, old(self).spec_bytes().len() as int)
                    &&& final(self).cursor() == c + n
                }
            }),
            final(self).same_settings(*old(self)),
            final(self).has_on_text_change() == old(self).has_on_text_change(),
            final(self).notified() == (if !old(self).read_only()
                && spec_insert_len(encode_utf8(text@).len(), old(self).spec_bytes().len(), old(self).limit()) > 0
                && old(self).has_on_text_change() {
                old(self).notified().push(final(self).spec_text())
            } else {
                old(self).notified()
            }),
    {
        if self.is_read_only {
            return;
        }
        let len = self.buffer.len();
        let tlen = text.len();
        let k: usize = match self.max_length {
            Some(max) => {
                let room: usize = if len < max { max - len } else { 0 };
                if tlen <= room { tlen } else { room }
            },
            None => tlen,
        };
        let (ins, _rest) = text.split_at(k);
        if k == 0 {
            return;
        }
        proof {
            assert(encode_utf8(ins@) =~= encode_utf8(text@).subrange(0, k as int));
        }
        self.buffer.insert(ins);
        let ghost had = self.on_text_change is Some;
        notify_text(&mut self.on_text_change, self.buffer.text.as_str());
        self.notified_log = Ghost(if had { self.notified_log@.push(self.buffer.text@) } else { self.notified_log@ });
    }

    /// Set the change callback, told the new text.
    pub fn set_on_text_change<F: FnMut(&str) + 'static>(&mut self, callback: F)
        ensures
            final(self).has_on_text_change(),
            final(self).spec_text() == old(self).spec_text(),
            final(self).cursor() == old(self).cursor(),
            final(self).same_settings(*old(self)),
    {
        let boxed: Box<dyn TextCallback> = Box::new(callback);
        self.on_text_change = Some(boxed);
    }

    /// The wrapped component.
    pub fn component(&self) -> (c: &Component)
        ensures *c == self.spec_component(),
    {
        &self.component
    }

    /// The wrapped component, to change.
    pub fn component_mut(&mut self) -> (c: &mut Component)
        ensures
            *c == old(self).spec_component(),
            final(self).spec_component() == *final(c),
            final(self).spec_text() == old(self).spec_text(),
            final(self).cursor() == old(self).cursor(),
            final(self).multi() == old(self).multi(),
            final(self).limit() == old(self).limit(),
            final(self).read_only() == old(self).read_only(),
    {
        &mut self.component
    }

    /// Set the component's bounds; bounds with a zero side are refused.
    pub fn set_bounds(&mut self, bounds: Bounds) -> (r: Result<()>)
        ensures
            final(self).spec_component().spec_id() == old(self).spec_component().spec_id(),
            bounds.width > 0 && bounds.height > 0 ==> r is Ok,
            !(bounds.width > 0 && bounds.height > 0) ==> r == Err::<(), GuiError>(
                GuiError::InvalidBounds(bounds.x, bounds.y, bounds.width, bounds.height),
            ),
            final(self).spec_text() == old(self).spec_text(),
            final(self).cursor() == old(self).cursor(),
            final(self).multi() == old(self).multi(),
            final(self).limit() == old(self).limit(),
            final(self).read_only() == old(self).read_only(),
    {
        self.component.set_bounds(bounds)
    }

    /// The component's bounds.
    pub fn bounds(&self) -> Bounds {
        self.component.bounds()
    }

    /// Whether the component is enabled.
    pub fn is_enabled(&self) -> bool {
        self.component.is_enabled()
    }

    /// Enable or disable the component.
    pub fn set_enabled(&mut self, enabled: bool)
        ensures
            final(self).spec_component().spec_id() == old(self).spec_component().spec_id(),
            final(self).spec_text() == old(self).spec_text(),
            final(self).cursor() == old(self).cursor(),
            final(self).multi() == old(self).multi(),
            final(self).limit() == old(self).limit(),
            final(self).read_only() == old(self).read_only(),
    {
        self.component.set_enabled(enabled);
    }

    /// Whether the component is visible.
    pub fn is_visible(&self) -> bool {
        self.component.is_visible()
    }

    /// Show or hide the component.
    pub fn set_visible(&mut self, visible: bool)
        ensures
            final(self).spec_component().spec_id() == old(self).spec_component().spec_id(),
            final(self).spec_text() == old(self).spec_text(),
            final(self).cursor() == old(self).cursor(),
            final(self).multi() == old(self).multi(),
            final(self).limit() == old(self).limit(),
            final(self).read_only() == old(self).read_only(),
    {
        self.component.set_visible(visible);
    }
}

impl Default for TextEditor {
    /// The same as [`TextEditor::new`].
    fn default() -> (e: TextEditor)
        ensures
            e.spec_text() == Seq::<char>::empty(),
            !e.multi(),
            e.limit() is None,
            !e.read_only(),
            e.cursor() == 0,
    {
        TextEditor::new()
    }

}

impl Default for ComboBox {
    /// The same as [`ComboBox::new`].
    fn default() -> (c: ComboBox)
        ensures
            c.spec_items() == Seq::<Seq<char>>::empty(),
            c.selected() is None,
            !c.open(),
    {
        ComboBox::new()
    }
}

// ---------------------------------------------------------------------------
// ToggleButton
// ---------------------------------------------------------------------------

/// A button that is on or off.
pub struct ToggleButton {
    component: Component,
    text: String,
    is_on: bool,
    callback: Option<Box<dyn StateCallback>>,
    notified_log: Ghost<Seq<bool>>,
}

impl ToggleButton {
    /// Every call of the callback so far, in order: the states the callback was told.
    pub closed spec fn notified(self) -> Seq<bool> {
        self.notified_log@
    }

    /// Whether a state callback is set.
    pub closed spec fn has_on_toggle(self) -> bool {
        self.callback is Some
    }

    /// The text.
    pub closed spec fn spec_text(self) -> Seq<char> {
        self.text@
    }

    /// Whether it is on.
    pub closed spec fn spec_is_on(self) -> bool {
        self.is_on
    }

    /// The wrapped component.
    pub closed spec fn spec_component(self) -> Component {
        self.component
    }

    /// A new one with the given text, not on; its component is
    /// named `ToggleButton_` followed by the text.
    pub fn new(text: &str) -> (b: ToggleButton)
        ensures
            b.spec_text() == text@,
            !b.spec_is_on(),
    {
        ToggleButton {
            component: named_component("ToggleButton_", text),
            text: text.to_owned(),
            is_on: false,
            callback: None,
            notified_log: Ghost(Seq::empty()),
        }
    }

    /// The text.
    pub fn text(&self) -> (t: &str)
        ensures t@ == self.spec_text(),
    {
        self.text.as_str()
    }

    /// Replace the text.
    pub fn set_text(&mut self, text: &str)
        ensures
            final(self).spec_text() == text@,
            final(self).spec_is_on() == old(self).spec_is_on(),
    {
        self.text = text.to_owned();
    }

    /// Whether it is on.
    pub fn is_on(&self) -> (b: bool)
        ensures b == self.spec_is_on(),
    {
        self.is_on
    }

    /// Set the state; when it changes, the callback is told the new state.
    pub fn set_on(&mut self, on: bool)
        ensures
            final(self).spec_is_on() == on,
            final(self).spec_text() == old(self).spec_text(),
            final(self).has_on_toggle() == old(self).has_on_toggle(),
            final(self).notified() == (if old(self).spec_is_on() != on && old(self).has_on_toggle() {
                old(self).notified().push(on)
            } else {
                old(self).notified()
            }),
    {
        if self.is_on != on {
            self.is_on = on;
            let ghost had = self.callback is Some;
            notify_state(&mut self.callback, on);
            self.notified_log = Ghost(if had { self.notified_log@.push(on) } else { self.notified_log@ });
        }
    }

    /// Flip the state (see [`ToggleButton::set_on`]).
    pub fn toggle(&mut self)
        ensures
            final(self).spec_is_on() == !old(self).spec_is_on(),
            final(self).spec_text() == old(self).spec_text(),
            final(self).has_on_toggle() == old(self).has_on_toggle(),
            final(self).notified() == (if old(self).has_on_toggle() {
                old(self).notified().push(!old(self).spec_is_on())
            } else {
                old(self).notified()
            }),
    {
        let flipped = !self.is_on;
        self.set_on(flipped);
    }

    /// Set the callback told each new state.
    pub fn set_on_toggle<F: FnMut(bool) + 'static>(&mut self, callback: F)
        ensures
            final(self).has_on_toggle(),
            final(self).spec_is_on() == old(self).spec_is_on(),
            final(self).spec_text() == old(self).spec_text(),
    {
        let boxed: Box<dyn StateCallback> = Box::new(callback);
        self.callback = Some(boxed);
    }

    /// The wrapped component.
    pub fn component(&self) -> (c: &Component)
        ensures *c == self.spec_component(),
    {
        &self.component
    }

    /// The wrapped component, to change.
    pub fn component_mut(&mut self) -> (c: &mut Component)
        ensures
            *c == old(self).spec_component(),
            final(self).spec_component() == *final(c),
            final(self).spec_text() == old(self).spec_text(),
            final(self).spec_is_on() == old(self).spec_is_on(),
    {
        &mut self.component
    }

    /// Set the component's bounds; bounds with a zero side are refused.
    pub fn set_bounds(&mut self, bounds: Bounds) -> (r: Result<()>)
        ensures
            final(self).spec_component().spec_id() == old(self).spec_component().spec_id(),
            bounds.width > 0 && bounds.height > 0 ==> r is Ok,
            !(bounds.width > 0 && bounds.height > 0) ==> r == Err::<(), GuiError>(
                GuiError::InvalidBounds(bounds.x, bounds.y, bounds.width, bounds.height),
            ),
            final(self).spec_text() == old(self).spec_text(),
            final(self).spec_is_on() == old(self).spec_is_on(),
    {
        self.component.set_bounds(bounds)
    }

    /// The component's bounds.
    pub fn bounds(&self) -> Bounds {
        self.component.bounds()
    }

    /// Whether the component is enabled.
    pub fn is_enabled(&self) -> bool {
        self.component.is_enabled()
    }

    /// Enable or disable the component.
    pub fn set_enabled(&mut self, enabled: bool)
        ensures
            final(self).spec_component().spec_id() == old(self).spec_component().spec_id(),
            final(self).spec_text() == old(self).spec_text(),
            final(self).spec_is_on() == old(self).spec_is_on(),
    {
        self.component.set_enabled(enabled);
    }

    /// Whether the component is visible.
    pub fn is_visible(&self) -> bool {
        self.component.is_visible()
    }

    /// Show or hide the component.
    pub fn set_visible(&mut self, visible: bool)
        ensures
            final(self).spec_component().spec_id() == old(self).spec_component().spec_id(),
            final(self).spec_text() == old(self).spec_text(),
            final(self).spec_is_on() == old(self).spec_is_on(),
    {
        self.component.set_visible(visible);
    }
}

// ---------------------------------------------------------------------------
// CheckBox
// ---------------------------------------------------------------------------

/// A box that is checked or not, with a label.
pub struct CheckBox {
    component: Component,
    label: String,
    is_checked: bool,
    callback: Option<Box<dyn StateCallback>>,
    notified_log: Ghost<Seq<bool>>,
}

impl CheckBox {
    /// Every call of the callback so far, in order: the states the callback was told.
    pub closed spec fn notified(self) -> Seq<bool> {
        self.notified_log@
    }

    /// Whether a state callback is set.
    pub closed spec fn has_on_checked_change(self) -> bool {
        self.callback is Some
    }

    /// The label.
    pub closed spec fn spec_label(self) -> Seq<char> {
        self.label@
    }

    /// Whether it is checked.
    pub closed spec fn spec_is_checked(self) -> bool {
        self.is_checked
    }

    /// The wrapped component.
    pub closed spec fn spec_component(self) -> Component {
        self.component
    }

    /// A new one with the given label, not checked; its component is
    /// named `CheckBox_` followed by the label.
    pub fn new(label: &str) -> (b: CheckBox)
        ensures
            b.spec_label() == label@,
            !b.spec_is_checked(),
    {
        CheckBox {
            component: named_component("CheckBox_", label),
            label: label.to_owned(),
            is_checked: false,
            callback: None,
            notified_log: Ghost(Seq::empty()),
        }
    }

    /// The label.
    pub fn label(&self) -> (t: &str)
        ensures t@ == self.spec_label(),
    {
        self.label.as_str()
    }

    /// Replace the label.
    pub fn set_label(&mut self, label: &str)
        ensures
            final(self).spec_label() == label@,
            final(self).spec_is_checked() == old(self).spec_is_checked(),
    {
        self.label = label.to_owned();
    }

    /// Whether it is checked.
    pub fn is_checked(&self) -> (b: bool)
        ensures b == self.spec_is_checked(),
    {
        self.is_checked
    }

    /// Set the state; when it changes, the callback is told the new state.
    pub fn set_checked(&mut self, on: bool)
        ensures
            final(self).spec_is_checked() == on,
            final(self).spec_label() == old(self).spec_label(),
            final(self).has_on_checked_change() == old(self).has_on_checked_change(),
            final(self).notified() == (if old(self).spec_is_checked() != on && old(self).has_on_checked_change() {
                old(self).notified().push(on)
            } else {
                old(self).notified()
            }),
    {
        if self.is_checked != on {
            self.is_checked = on;
            let ghost had = self.callback is Some;
            notify_state(&mut self.callback, on);
            self.notified_log = Ghost(if had { self.notified_log@.push(on) } else { self.notified_log@ });
        }
    }

    /// Flip the state (see [`CheckBox::set_checked`]).
    pub fn toggle(&mut self)
        ensures
            final(self).spec_is_checked() == !old(self).spec_is_checked(),
            final(self).spec_label() == old(self).spec_label(),
            final(self).has_on_checked_change() == old(self).has_on_checked_change(),
            final(self).notified() == (if old(self).has_on_checked_change() {
                old(self).notified().push(!old(self).spec_is_checked())
            } else {
                old(self).notified()
            }),
    {
        let flipped = !self.is_checked;
        self.set_checked(flipped);
    }

    /// Set the callback told each new state.
    pub fn set_on_checked_change<F: FnMut(bool) + 'static>(&mut self, callback: F)
        ensures
            final(self).has_on_checked_change(),
            final(self).spec_is_checked() == old(self).spec_is_checked(),
            final(self).spec_label() == old(self).spec_label(),
    {
        let boxed: Box<dyn StateCallback> = Box::new(callback);
        self.callback = Some(boxed);
    }

    /// The wrapped component.
    pub fn component(&self) -> (c: &Component)
        ensures *c == self.spec_component(),
    {
        &self.component
    }

    /// The wrapped component, to change.
    pub fn component_mut(&mut self) -> (c: &mut Component)
        ensures
            *c == old(self).spec_component(),
            final(self).spec_component() == *final(c),
            final(self).spec_label() == old(self).spec_label(),
            final(self).spec_is_checked() == old(self).spec_is_checked(),
    {
        &mut self.component
    }

    /// Set the component's bounds; bounds with a zero side are refused.
    pub fn set_bounds(&mut self, bounds: Bounds) -> (r: Result<()>)
        ensures
            final(self).spec_component().spec_id() == old(self).spec_component().spec_id(),
            bounds.width > 0 && bounds.height > 0 ==> r is Ok,
            !(bounds.width > 0 && bounds.height > 0) ==> r == Err::<(), GuiError>(
                GuiError::InvalidBounds(bounds.x, bounds.y, bounds.width, bounds.height),
            ),
            final(self).spec_label() == old(self).spec_label(),
            final(self).spec_is_checked() == old(self).spec_is_checked(),
    {
        self.component.set_bounds(bounds)
    }

    /// The component's bounds.
    pub fn bounds(&self) -> Bounds {
        self.component.bounds()
    }

    /// Whether the component is enabled.
    pub fn is_enabled(&self) -> bool {
        self.component.is_enabled()
    }

    /// Enable or disable the component.
    pub fn set_enabled(&mut self, enabled: bool)
        ensures
            final(self).spec_component().spec_id() == old(self).spec_component().spec_id(),
            final(self).spec_label() == old(self).spec_label(),
            final(self).spec_is_checked() == old(self).spec_is_checked(),
    {
        self.component.set_enabled(enabled);
    }

    /// Whether the component is visible.
    pub fn is_visible(&self) -> bool {
        self.component.is_visible()
    }

    /// Show or hide the component.
    pub fn set_visible(&mut self, visible: bool)
        ensures
            final(self).spec_component().spec_id() == old(self).spec_component().spec_id(),
            final(self).spec_label() == old(self).spec_label(),
            final(self).spec_is_checked() == old(self).spec_is_checked(),
    {
        self.component.set_visible(visible);
    }
}

// ---------------------------------------------------------------------------
// Tooltip
// ---------------------------------------------------------------------------

/// Help text shown after a hover delay.
pub struct Tooltip {
    component: Component,
    text: String,
    is_visible: bool,
    delay_ms: u32,
}

impl Tooltip {
    /// The text.
    pub closed spec fn spec_text(self) -> Seq<char> {
        self.text@
    }

    /// Whether it is shown.
    pub closed spec fn shown(self) -> bool {
        self.is_visible
    }

    /// The hover delay in milliseconds.
    pub closed spec fn spec_delay(self) -> u32 {
        self.delay_ms
    }

    /// The wrapped component.
    pub closed spec fn spec_component(self) -> Component {
        self.component
    }

    /// A hidden tooltip with no text and a delay of 700 ms; its component is
    /// hidden too.
    pub fn new() -> (t: Tooltip)
        ensures
            t.spec_text() == Seq::<char>::empty(),
            !t.shown(),
            t.spec_delay() == 700,
    {
        let mut c = Component::new("Tooltip");
        c.set_visible(false);
        Tooltip { component: c, text: String::new(), is_visible: false, delay_ms: 700 }
    }

    /// The text.
    pub fn text(&self) -> (t: &str)
        ensures t@ == self.spec_text(),
    {
        self.text.as_str()
    }

    /// Replace the text.
    pub fn set_text(&mut self, text: &str)
        ensures
            final(self).spec_text() == text@,
            final(self).shown() == old(self).shown(),
            final(self).spec_delay() == old(self).spec_delay(),
    {
        self.text = text.to_owned();
    }

    /// Whether it is shown.
    pub fn is_visible(&self) -> (b: bool)
        ensures b == self.shown(),
    {
        self.is_visible
    }

    /// Show it, and its component.
    pub fn show(&mut self)
        ensures
            final(self).shown(),
            final(self).spec_text() == old(self).spec_text(),
            final(self).spec_delay() == old(self).spec_delay(),
            final(self).spec_component().spec_id() == old(self).spec_component().spec_id(),
    {
        self.is_visible = true;
        self.component.set_visible(true);
    }

    /// Hide it, and its component.
    pub fn hide_tooltip(&mut self)
        ensures
            !final(self).shown(),
            final(self).spec_text() == old(self).spec_text(),
            final(self).spec_delay() == old(self).spec_delay(),
            final(self).spec_component().spec_id() == old(self).spec_component().spec_id(),
    {
        self.is_visible = false;
        self.component.set_visible(false);
    }

    /// The hover delay in milliseconds.
    pub fn delay_ms(&self) -> (d: u32)
        ensures d == self.spec_delay(),
    {
        self.delay_ms
    }

    /// Set the hover delay in milliseconds.
    pub fn set_delay_ms(&mut self, ms: u32)
        ensures
            final(self).spec_delay() == ms,
            final(self).spec_text() == old(self).spec_text(),
            final(self).shown() == old(self).shown(),
    {
        self.delay_ms = ms;
    }

    /// The wrapped component.
    pub fn component(&self) -> (c: &Component)
        ensures *c == self.spec_component(),
    {
        &self.component
    }

    /// The wrapped component, to change.
    pub fn component_mut(&mut self) -> (c: &mut Component)
        ensures
            *c == old(self).spec_component(),
            final(self).spec_component() == *final(c),
            final(self).spec_text() == old(self).spec_text(),
            final(self).shown() == old(self).shown(),
            final(self).spec_delay() == old(self).spec_delay(),
    {
        &mut self.component
    }

    /// Set the component's bounds; bounds with a zero side are refused.
    pub fn set_bounds(&mut self, bounds: Bounds) -> (r: Result<()>)
        ensures
            final(self).spec_component().spec_id() == old(self).spec_component().spec_id(),
            bounds.width > 0 && bounds.height > 0 ==> r is Ok,
            !(bounds.width > 0 && bounds.height > 0) ==> r == Err::<(), GuiError>(
                GuiError::InvalidBounds(bounds.x, bounds.y, bounds.width, bounds.height),
            ),
            final(self).spec_text() == old(self).spec_text(),
            final(self).shown() == old(self).shown(),
            final(self).spec_delay() == old(self).spec_delay(),
    {
        self.component.set_bounds(bounds)
    }

    /// The component's bounds.
    pub fn bounds(&self) -> Bounds {
        self.component.bounds()
    }
}

impl Default for Tooltip {
    /// The same as [`Tooltip::new`].
    fn default() -> (t: Tooltip)
        ensures
            t.spec_text() == Seq::<char>::empty(),
            !t.shown(),
            t.spec_delay() == 700,
    {
        Tooltip::new()
    }
}

// ---------------------------------------------------------------------------
// DrawableButton
// ---------------------------------------------------------------------------

/// A button showing drawn content, known by a name.
pub struct DrawableButton {
    component: Component,
    name: String,
    on_click: Option<Box<dyn ClickCallback>>,
}

impl DrawableButton {
    /// Whether a click callback is set.
    pub closed spec fn has_on_click(self) -> bool {
        self.on_click is Some
    }

    /// The name.
    pub closed spec fn spec_name(self) -> Seq<char> {
        self.name@
    }

    /// The wrapped component.
    pub closed spec fn spec_component(self) -> Component {
        self.component
    }

    /// A button with the given name; its component is named
    /// `DrawableButton_` followed by it.
    pub fn new(name: &str) -> (b: DrawableButton)
        ensures b.spec_name() == name@,
    {
        DrawableButton {
            component: named_component("DrawableButton_", name),
            name: name.to_owned(),
            on_click: None,
        }
    }

    /// The name.
    pub fn name(&self) -> (n: &str)
        ensures n@ == self.spec_name(),
    {
        self.name.as_str()
    }

    /// Set the click callback.
    pub fn set_on_click<F: FnMut() + 'static>(&mut self, callback: F)
        ensures
            final(self).has_on_click(),
            final(self).spec_name() == old(self).spec_name(),
    {
        let boxed: Box<dyn ClickCallback> = Box::new(callback);
        self.on_click = Some(boxed);
    }

    /// Click: the click callback, if any, is called.
    pub fn click(&mut self)
        ensures
            final(self).has_on_click() == old(self).has_on_click(),
            final(self).spec_name() == old(self).spec_name(),
    {
        notify_click(&mut self.on_click);
    }

    /// The wrapped component.
    pub fn component(&self) -> (c: &Component)
        ensures *c == self.spec_component(),
    {
        &self.component
    }

    /// The wrapped component, to change.
    pub fn component_mut(&mut self) -> (c: &mut Component)
        ensures
            *c == old(self).spec_component(),
            final(self).spec_component() == *final(c),
            final(self).spec_name() == old(self).spec_name(),
    {
        &mut self.component
    }

    /// Set the component's bounds; bounds with a zero side are refused.
    pub fn set_bounds(&mut self, bounds: Bounds) -> (r: Result<()>)
        ensures
            final(self).spec_component().spec_id() == old(self).spec_component().spec_id(),
            bounds.width > 0 && bounds.height > 0 ==> r is Ok,
            !(bounds.width > 0 && bounds.height > 0) ==> r == Err::<(), GuiError>(
                GuiError::InvalidBounds(bounds.x, bounds.y, bounds.width, bounds.height),
            ),
            final(self).spec_name() == old(self).spec_name(),
    {
        self.component.set_bounds(bounds)
    }

    /// The component's bounds.
    pub fn bounds(&self) -> Bounds {
        self.component.bounds()
    }

    /// Whether the component is enabled.
    pub fn is_enabled(&self) -> bool {
        self.component.is_enabled()
    }

    /// Enable or disable the component.
    pub fn set_enabled(&mut self, enabled: bool)
        ensures
            final(self).spec_component().spec_id() == old(self).spec_component().spec_id(),
            final(self).spec_name() == old(self).spec_name(),
    {
        self.component.set_enabled(enabled);
    }

    /// Whether the component is visible.
    pub fn is_visible(&self) -> bool {
        self.component.is_visible()
    }

    /// Show or hide the component.
    pub fn set_visible(&mut self, visible: bool)
        ensures
            final(self).spec_component().spec_id() == old(self).spec_component().spec_id(),
            final(self).spec_name() == old(self).spec_name(),
    {
        self.component.set_visible(visible);
    }
}

// ---------------------------------------------------------------------------
// HyperlinkButton
// ---------------------------------------------------------------------------

/// A button drawn as a link, with a text and a URL.
pub struct HyperlinkButton {
    component: Component,
    text: String,
    url: String,
    on_click: Option<Box<dyn ClickCallback>>,
}

impl HyperlinkButton {
    /// Whether a click callback is set.
    pub closed spec fn has_on_click(self) -> bool {
        self.on_click is Some
    }

    /// The text.
    pub closed spec fn spec_text(self) -> Seq<char> {
        self.text@
    }

    /// The URL.
    pub closed spec fn spec_url(self) -> Seq<char> {
        self.url@
    }

    /// The wrapped component.
    pub closed spec fn spec_component(self) -> Component {
        self.component
    }

    /// A link with the given text and URL; its component is named
    /// `HyperlinkButton_` followed by the text.
    pub fn new(text: &str, url: &str) -> (b: HyperlinkButton)
        ensures
            b.spec_text() == text@,
            b.spec_url() == url@,
    {
        HyperlinkButton {
            component: named_component("HyperlinkButton_", text),
            text: text.to_owned(),
            url: url.to_owned(),
            on_click: None,
        }
    }

    /// The text.
    pub fn text(&self) -> (t: &str)
        ensures t@ == self.spec_text(),
    {
        self.text.as_str()
    }

    /// Replace the text.
    pub fn set_text(&mut self, text: &str)
        ensures
            final(self).spec_text() == text@,
            final(self).spec_url() == old(self).spec_url(),
    {
        self.text = text.to_owned();
    }

    /// The URL.
    pub fn url(&self) -> (u: &str)
        ensures u@ == self.spec_url(),
    {
        self.url.as_str()
    }

    /// Replace the URL.
    pub fn set_url(&mut self, url: &str)
        ensures
            final(self).spec_url() == url@,
            final(self).spec_text() == old(self).spec_text(),
    {
        self.url = url.to_owned();
    }

    /// Set the click callback.
    pub fn set_on_click<F: FnMut() + 'static>(&mut self, callback: F)
        ensures
            final(self).has_on_click(),
            final(self).spec_text() == old(self).spec_text(),
            final(self).spec_url() == old(self).spec_url(),
    {
        let boxed: Box<dyn ClickCallback> = Box::new(callback);
        self.on_click = Some(boxed);
    }

    /// Click: the click callback, if any, is called.
    pub fn click(&mut self)
        ensures
            final(self).has_on_click() == old(self).has_on_click(),
            final(self).spec_text() == old(self).spec_text(),
            final(self).spec_url() == old(self).spec_url(),
    {
        notify_click(&mut self.on_click);
    }

    /// The wrapped component.
    pub fn component(&self) -> (c: &Component)
        ensures *c == self.spec_component(),
    {
        &self.component
    }

    /// The wrapped component, to change.
    pub fn component_mut(&mut self) -> (c: &mut Component)
        ensures
            *c == old(self).spec_component(),
            final(self).spec_component() == *final(c),
            final(self).spec_text() == old(self).spec_text(),
            final(self).spec_url() == old(self).spec_url(),
    {
        &mut self.component
    }

    /// Set the component's bounds; bounds with a zero side are refused.
    pub fn set_bounds(&mut self, bounds: Bounds) -> (r: Result<()>)
        ensures
            final(self).spec_component().spec_id() == old(self).spec_component().spec_id(),
            bounds.width > 0 && bounds.height > 0 ==> r is Ok,
            !(bounds.width > 0 && bounds.height > 0) ==> r == Err::<(), GuiError>(
                GuiError::InvalidBounds(bounds.x, bounds.y, bounds.width, bounds.height),
            ),
            final(self).spec_text() == old(self).spec_text(),
            final(self).spec_url() == old(self).spec_url(),
    {
        self.component.set_bounds(bounds)
    }

    /// The component's bounds.
    pub fn bounds(&self) -> Bounds {
        self.component.bounds()
    }

    /// Whether the component is enabled.
    pub fn is_enabled(&self) -> bool {
        self.component.is_enabled()
    }

    /// Enable or disable the component.
    pub fn set_enabled(&mut self, enabled: bool)
        ensures
            final(self).spec_component().spec_id() == old(self).spec_component().spec_id(),
            final(self).spec_text() == old(self).spec_text(),
            final(self).spec_url() == old(self).spec_url(),
    {
        self.component.set_enabled(enabled);
    }

    /// Whether the component is visible.
    pub fn is_visible(&self) -> bool {
        self.component.is_visible()
    }

    /// Show or hide the component.
    pub fn set_visible(&mut self, visible: bool)
        ensures
            final(self).spec_component().spec_id() == old(self).spec_component().spec_id(),
            final(self).spec_text() == old(self).spec_text(),
            final(self).spec_url() == old(self).spec_url(),
    {
        self.component.set_visible(visible);
    }
}

// ---------------------------------------------------------------------------
// ImageComponent
// ---------------------------------------------------------------------------

/// How an image is fitted into its component.
#[derive(Debug, Clone, Copy, PartialEq, Eq, Structural)]
pub enum ImageScalingMode {
    /// Scale to fill, cropping if necessary.
    Fill,
    /// Scale to fit, keeping the aspect ratio.
    Fit,
    /// Draw at the original size.
    NoScaling,
    /// Stretch to fill, ignoring the aspect ratio.
    Stretch,
}

/// A component that shows an image.
pub struct ImageComponent {
    component: Component,
    scaling_mode: ImageScalingMode,
    has_image: bool,
}

impl ImageComponent {
    /// The scaling mode.
    pub closed spec fn spec_mode(self) -> ImageScalingMode {
        self.scaling_mode
    }

    /// Whether an image is loaded.
    pub closed spec fn spec_has_image(self) -> bool {
        self.has_image
    }

    /// The wrapped component.
    pub closed spec fn spec_component(self) -> Component {
        self.component
    }

    /// No image, fitted.
    pub fn new() -> (i: ImageComponent)
        ensures
            i.spec_mode() == ImageScalingMode::Fit,
            !i.spec_has_image(),
    {
        ImageComponent {
            component: Component::new("ImageComponent"),
            scaling_mode: ImageScalingMode::Fit,
            has_image: false,
        }
    }

    /// The scaling mode.
    pub fn scaling_mode(&self) -> (m: ImageScalingMode)
        ensures m == self.spec_mode(),
    {
        self.scaling_mode
    }

    /// Set the scaling mode.
    pub fn set_scaling_mode(&mut self, mode: ImageScalingMode)
        ensures
            final(self).spec_mode() == mode,
            final(self).spec_has_image() == old(self).spec_has_image(),
    {
        self.scaling_mode = mode;
    }

    /// Whether an image is loaded.
    pub fn has_image(&self) -> (b: bool)
        ensures b == self.spec_has_image(),
    {
        self.has_image
    }

    /// Record whether an image is loaded.
    pub fn set_has_image(&mut self, has: bool)
        ensures
            final(self).spec_has_image() == has,
            final(self).spec_mode() == old(self).spec_mode(),
    {
        self.has_image = has;
    }

    /// The wrapped component.
    pub fn component(&self) -> (c: &Component)
        ensures *c == self.spec_component(),
    {
        &self.component
    }

    /// The wrapped component, to change.
    pub fn component_mut(&mut self) -> (c: &mut Component)
        ensures
            *c == old(self).spec_component(),
            final(self).spec_component() == *final(c),
            final(self).spec_mode() == old(self).spec_mode(),
            final(self).spec_has_image() == old(self).spec_has_image(),
    {
        &mut self.component
    }

    /// Set the component's bounds; bounds with a zero side are refused.
    pub fn set_bounds(&mut self, bounds: Bounds) -> (r: Result<()>)
        ensures
            final(self).spec_component().spec_id() == old(self).spec_component().spec_id(),
            bounds.width > 0 && bounds.height > 0 ==> r is Ok,
            !(bounds.width > 0 && bounds.height > 0) ==> r == Err::<(), GuiError>(
                GuiError::InvalidBounds(bounds.x, bounds.y, bounds.width, bounds.height),
            ),
            final(self).spec_mode() == old(self).spec_mode(),
            final(self).spec_has_image() == old(self).spec_has_image(),
    {
        self.component.set_bounds(bounds)
    }

    /// The component's bounds.
    pub fn bounds(&self) -> Bounds {
        self.component.bounds()
    }

    /// Whether the component is enabled.
    pub fn is_enabled(&self) -> bool {
        self.component.is_enabled()
    }

    /// Enable or disable the component.
    pub fn set_enabled(&mut self, enabled: bool)
        ensures
            final(self).spec_component().spec_id() == old(self).spec_component().spec_id(),
            final(self).spec_mode() == old(self).spec_mode(),
            final(self).spec_has_image() == old(self).spec_has_image(),
    {
        self.component.set_enabled(enabled);
    }

    /// Whether the component is visible.
    pub fn is_visible(&self) -> bool {
        self.component.is_visible()
    }

    /// Show or hide the component.
    pub fn set_visible(&mut self, visible: bool)
        ensures
            final(self).spec_component().spec_id() == old(self).spec_component().spec_id(),
            final(self).spec_mode() == old(self).spec_mode(),
            final(self).spec_has_image() == old(self).spec_has_image(),
    {
        self.component.set_visible(visible);
    }
}

impl Default for ImageComponent {
    /// The same as [`ImageComponent::new`].
    fn default() -> (i: ImageComponent)
        ensures
            i.spec_mode() == ImageScalingMode::Fit,
            !i.spec_has_image(),
    {
        ImageComponent::new()
    }
}

/// The direction a keyboard's keys run in.
#[derive(Debug, Clone, Copy, PartialEq, Eq, Structural)]
pub enum KeyboardOrientation {
    /// Left to right, like a piano.
    Horizontal,
    /// Bottom to top.
    Vertical,
}

} // verus!
