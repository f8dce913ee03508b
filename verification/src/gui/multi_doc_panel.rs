//! A tabbed multi-document panel: the documents it hosts, which one is
//! active, and its display options. It does not render.
use vstd::prelude::*;
use crate::gui::components::Component;

verus! {

/// How the panel shows its documents.
#[derive(Copy, Clone, PartialEq, Eq, Structural, Hash, Debug)]
pub enum MultiDocumentPanelLayout {
    /// Each document in its own floating window.
    FloatingWindows,
    /// One tabbed container showing the active document.
    MaximisedWindowsWithTabs,
}

impl Default for MultiDocumentPanelLayout {
    fn default() -> (l: MultiDocumentPanelLayout)
        ensures l == MultiDocumentPanelLayout::MaximisedWindowsWithTabs,
    {
        MultiDocumentPanelLayout::MaximisedWindowsWithTabs
    }
}

/// One hosted document.
pub struct DocumentEntry {
    /// The document's component.
    pub component: Component,
    /// Whether the panel owns (and drops on close) the component.
    pub owned: bool,
}

/// The active index after closing the document at `index` of `len`.
pub open spec fn spec_active_after_close(active: Option<usize>, index: usize, len: nat) -> Option<usize> {
    match active {
        Some(a) => if a == index {
            if len - 1 == 0 {
                None
            } else if index < len - 1 {
                Some(index)
            } else {
                Some((len - 2) as usize)
            }
        } else if a > index {
            Some((a - 1) as usize)
        } else {
            active
        },
        None => None,
    }
}

/// The ids of the documents not owned by the panel, in order.
pub open spec fn spec_unowned_ids(ids: Seq<usize>, owned: Seq<bool>) -> Seq<usize>
    decreases ids.len(),
{
    if ids.len() == 0 || owned.len() == 0 {
        Seq::empty()
    } else {
        let rest = spec_unowned_ids(ids.drop_last(), owned.drop_last());
        if owned.last() { rest } else { rest.push(ids.last()) }
    }
}

/// A tabbed container of documents.
pub struct MultiDocumentPanel {
    documents: Vec<DocumentEntry>,
    active_index: Option<usize>,
    layout_mode: MultiDocumentPanelLayout,
    max_documents: Option<usize>,
    fullscreen_when_one_document: bool,
    background_colour: [u8; 4],
}

impl MultiDocumentPanel {
    /// The ids of the hosted components, in order.
    pub closed spec fn doc_ids(self) -> Seq<usize> {
        self.documents@.map_values(|d: DocumentEntry| d.component.spec_id())
    }

    /// Whether the panel owns each document, in order.
    pub closed spec fn owned_flags(self) -> Seq<bool> {
        self.documents@.map_values(|d: DocumentEntry| d.owned)
    }

    /// The active index.
    pub closed spec fn active(self) -> Option<usize> {
        self.active_index
    }

    /// The layout mode.
    pub closed spec fn spec_layout_mode(self) -> MultiDocumentPanelLayout {
        self.layout_mode
    }

    /// The document limit.
    pub closed spec fn spec_max_documents(self) -> Option<usize> {
        self.max_documents
    }

    /// Whether one document fills the panel.
    pub closed spec fn spec_fullscreen(self) -> bool {
        self.fullscreen_when_one_document
    }

    /// The background colour.
    pub closed spec fn spec_background(self) -> [u8; 4] {
        self.background_colour
    }

    /// An empty panel: tabbed, no limit, not fullscreen, background
    /// `[40, 40, 40, 255]`.
    pub fn new() -> (p: MultiDocumentPanel)
        ensures
            p.doc_ids() == Seq::<usize>::empty(),
            p.owned_flags() == Seq::<bool>::empty(),
            p.active() is None,
            p.spec_layout_mode() == MultiDocumentPanelLayout::MaximisedWindowsWithTabs,
            p.spec_max_documents() is None,
            !p.spec_fullscreen(),
            p.spec_background() == [40u8, 40u8, 40u8, 255u8],
    {
        let p = MultiDocumentPanel {
            documents: Vec::new(),
            active_index: None,
            layout_mode: MultiDocumentPanelLayout::default(),
            max_documents: None,
            fullscreen_when_one_document: false,
            background_colour: [40, 40, 40, 255],
        };
        assert(p.doc_ids() =~= Seq::<usize>::empty());
        assert(p.owned_flags() =~= Seq::<bool>::empty());
        p
    }

    /// The number of documents.
    pub fn num_documents(&self) -> (n: usize)
        ensures
            n == self.doc_ids().len(),
            self.owned_flags().len() == self.doc_ids().len(),
    {
        self.documents.len()
    }

    /// Whether there are no documents.
    pub fn is_empty(&self) -> (b: bool)
        ensures b == (self.doc_ids().len() == 0),
    {
        self.documents.len() == 0
    }

    /// The document at a position.
    pub fn document(&self, index: usize) -> (r: Option<&Component>)
        ensures
            r is None <==> index >= self.doc_ids().len(),
            r matches Some(c) ==> c.spec_id() == self.doc_ids()[index as int],
    {
        if index < self.documents.len() {
            Some(&self.documents[index].component)
        } else {
            None
        }
    }

    /// The document at a position, to change.
    pub fn document_mut(&mut self, index: usize) -> (r: Option<&mut Component>)
        ensures r is None <==> index >= old(self).doc_ids().len(),
    {
        if index < self.documents.len() {
            Some(&mut self.documents[index].component)
        } else {
            None
        }
    }

    /// The active index.
    pub fn active_document_index(&self) -> (r: Option<usize>)
        ensures r == self.active(),
    {
        self.active_index
    }

    /// The active document.
    pub fn active_document(&self) -> (r: Option<&Component>)
        ensures
            r is Some <==> (self.active() matches Some(i) && i < self.doc_ids().len()),
            r matches Some(c) ==> c.spec_id() == self.doc_ids()[self.active()->0 as int],
    {
        match self.active_index {
            Some(i) => self.document(i),
            None => None,
        }
    }

    /// The active document, to change.
    pub fn active_document_mut(&mut self) -> (r: Option<&mut Component>)
        ensures r is Some <==> (old(self).active() matches Some(i) && i < old(self).doc_ids().len()),
    {
        match self.active_index {
            Some(i) => self.document_mut(i),
            None => None,
        }
    }

    /// The layout mode.
    pub fn layout_mode(&self) -> (m: MultiDocumentPanelLayout)
        ensures m == self.spec_layout_mode(),
    {
        self.layout_mode
    }

    /// Set the layout mode.
    pub fn set_layout_mode(&mut self, mode: MultiDocumentPanelLayout)
        ensures
            final(self).spec_layout_mode() == mode,
            final(self).doc_ids() == old(self).doc_ids(),
            final(self).active() == old(self).active(),
    {
        self.layout_mode = mode;
    }

    /// The background colour (RGBA).
    pub fn background_colour(&self) -> (c: [u8; 4])
        ensures c == self.spec_background(),
    {
        self.background_colour
    }

    /// Set the background colour (RGBA).
    pub fn set_background_colour(&mut self, rgba: [u8; 4])
        ensures
            final(self).spec_background() == rgba,
            final(self).doc_ids() == old(self).doc_ids(),
            final(self).active() == old(self).active(),
    {
        self.background_colour = rgba;
    }

    /// The document limit, if any.
    pub fn max_documents(&self) -> (m: Option<usize>)
        ensures m == self.spec_max_documents(),
    {
        self.max_documents
    }

    /// Set the document limit; `None` or zero means no limit.
    pub fn set_max_documents(&mut self, n: Option<usize>)
        ensures
            final(self).spec_max_documents() == (if n matches Some(k) && k > 0 { n } else { None }),
            final(self).doc_ids() == old(self).doc_ids(),
            final(self).active() == old(self).active(),
    {
        self.max_documents = match n {
            Some(k) => if k > 0 { Some(k) } else { None },
            None => None,
        };
    }

    /// Whether a single document fills the panel.
    pub fn is_fullscreen_when_one_document(&self) -> (b: bool)
        ensures b == self.spec_fullscreen(),
    {
        self.fullscreen_when_one_document
    }

    /// Set whether a single document fills the panel.
    pub fn set_fullscreen_when_one_document(&mut self, on: bool)
        ensures
            final(self).spec_fullscreen() == on,
            final(self).doc_ids() == old(self).doc_ids(),
            final(self).active() == old(self).active(),
    {
        self.fullscreen_when_one_document = on;
    }

    /// Add a document at the end; refused (`false`, nothing added) when the
    /// limit is reached. The first document becomes active.
    pub fn add_document(&mut self, component: Component, owned: bool) -> (added: bool)
        ensures
            added == !(old(self).spec_max_documents() matches Some(m) && old(self).doc_ids().len() >= m),
            old(self).owned_flags().len() == old(self).doc_ids().len(),
            final(self).owned_flags().len() == final(self).doc_ids().len(),
            added ==> final(self).owned_flags()[old(self).doc_ids().len() as int] == owned,
            added ==> final(self).doc_ids() == old(self).doc_ids().push(component.spec_id())
                && final(self).owned_flags() == old(self).owned_flags().push(owned)
                && final(self).active() == (if old(self).active() is None {
                    Some(old(self).doc_ids().len() as usize)
                } else {
                    old(self).active()
                }),
            !added ==> final(self).doc_ids() == old(self).doc_ids()
                && final(self).owned_flags() == old(self).owned_flags()
                && final(self).active() == old(self).active(),
            final(self).spec_max_documents() == old(self).spec_max_documents(),
    {
        match self.max_documents {
            Some(max) => {
                if self.documents.len() >= max {
                    return false;
                }
            },
            None => {},
        }
        let new_index = self.documents.len();
        self.documents.push(DocumentEntry { component, owned });
        if self.active_index.is_none() {
            self.active_index = Some(new_index);
        }
        proof {
            assert(self.doc_ids() =~= old(self).doc_ids().push(component.spec_id()));
            assert(self.owned_flags() =~= old(self).owned_flags().push(owned));
        }
        true
    }

    /// Close the document at a position. The active index follows its
    /// document; when the active one is closed the next one (or the new
    /// last one) becomes active. A document the panel does not own is
    /// handed back; an owned one is dropped.
    pub fn close_document(&mut self, index: usize) -> (r: Option<Component>)
        ensures
            index >= old(self).doc_ids().len() ==> r is None && final(self).doc_ids() == old(self).doc_ids()
                && final(self).owned_flags() == old(self).owned_flags()
                && final(self).active() == old(self).active(),
            index < old(self).doc_ids().len() ==> final(self).doc_ids() == old(self).doc_ids().remove(index as int)
                && final(self).owned_flags() == old(self).owned_flags().remove(index as int)
                && final(self).active() == spec_active_after_close(old(self).active(), index, old(self).doc_ids().len())
                && (old(self).owned_flags()[index as int] ==> r is None)
                && (!old(self).owned_flags()[index as int] ==> (r matches Some(c)
                    && c.spec_id() == old(self).doc_ids()[index as int])),
    {
        if index >= self.documents.len() {
            return None;
        }
        let entry = self.documents.remove(index);
        proof {
            assert(self.doc_ids() =~= old(self).doc_ids().remove(index as int));
            assert(self.owned_flags() =~= old(self).owned_flags().remove(index as int));
        }
        match self.active_index {
            Some(active) => {
                if active == index {
                    self.active_index = if self.documents.len() == 0 {
                        None
                    } else if index < self.documents.len() - 1 {
                        Some(index)
                    } else {
                        Some(self.documents.len() - 1)
                    };
                } else if active > index {
                    self.active_index = Some(active - 1);
                }
            },
            None => {},
        }
        if entry.owned {
            None
        } else {
            Some(entry.component)
        }
    }

    /// Close every document, handing back those the panel does not own, in
    /// order.
    pub fn close_all_documents(&mut self) -> (r: Vec<Component>)
        ensures
            r@.map_values(|c: Component| c.spec_id()) == spec_unowned_ids(old(self).doc_ids(), old(self).owned_flags()),
            final(self).doc_ids() == Seq::<usize>::empty(),
            final(self).owned_flags() == Seq::<bool>::empty(),
            final(self).active() is None,
    {
        let mut docs: Vec<DocumentEntry> = Vec::new();
        std::mem::swap(&mut docs, &mut self.documents);
        let ghost all = docs@;
        let ghost ids = all.map_values(|d: DocumentEntry| d.component.spec_id());
        let ghost own = all.map_values(|d: DocumentEntry| d.owned);
        let ghost mut k: int = 0;
        let mut non_owned: Vec<Component> = Vec::new();
        while docs.len() > 0
            invariant
                0 <= k <= all.len(),
                docs@ == all.skip(k),
                ids == all.map_values(|d: DocumentEntry| d.component.spec_id()),
                own == all.map_values(|d: DocumentEntry| d.owned),
                non_owned@.map_values(|c: Component| c.spec_id()) == spec_unowned_ids(ids.take(k), own.take(k)),
            decreases docs@.len(),
        {
            let entry = docs.remove(0);
            proof {
                assert(entry == all[k]);
                assert(ids.take(k + 1).drop_last() =~= ids.take(k));
                assert(own.take(k + 1).drop_last() =~= own.take(k));
            }
            let ghost before = non_owned@;
            if !entry.owned {
                non_owned.push(entry.component);
                proof {
                    assert(non_owned@.map_values(|c: Component| c.spec_id())
                        =~= before.map_values(|c: Component| c.spec_id()).push(ids[k]));
                }
            }
            proof {
                assert(docs@ =~= all.skip(k + 1));
                k = k + 1;
            }
        }
        proof {
            assert(ids.take(k) =~= ids);
            assert(own.take(k) =~= own);
        }
        self.active_index = None;
        proof {
            assert(self.doc_ids() =~= Seq::<usize>::empty());
            assert(self.owned_flags() =~= Seq::<bool>::empty());
        }
        non_owned
    }

    /// Make the document at a position active; `false` (no change) when out
    /// of range.
    pub fn set_active_document_by_index(&mut self, index: usize) -> (b: bool)
        ensures
            b == (index < old(self).doc_ids().len()),
            b ==> final(self).active() == Some(index),
            !b ==> final(self).active() == old(self).active(),
            final(self).doc_ids() == old(self).doc_ids(),
            final(self).owned_flags() == old(self).owned_flags(),
    {
        if index < self.documents.len() {
            self.active_index = Some(index);
            true
        } else {
            false
        }
    }

    /// Make the first document with the component's id active; `false` (no
    /// change) when no document has it.
    pub fn set_active_document(&mut self, component: &Component) -> (b: bool)
        ensures
            b == old(self).doc_ids().contains(component.spec_id()),
            b ==> (final(self).active() matches Some(i) && i < old(self).doc_ids().len()
                && old(self).doc_ids()[i as int] == component.spec_id()
                && forall|j: int| 0 <= j < i ==> old(self).doc_ids()[j] != component.spec_id()),
            !b ==> final(self).active() == old(self).active(),
            final(self).doc_ids() == old(self).doc_ids(),
            final(self).owned_flags() == old(self).owned_flags(),
    {
        let target = component.id();
        let mut i: usize = 0;
        while i < self.documents.len()
            invariant
                i <= self.documents@.len(),
                self.documents == old(self).documents,
                self.active_index == old(self).active_index,
                target == component.spec_id(),
                forall|j: int| 0 <= j < i ==> self.doc_ids()[j] != target,
            decreases self.documents@.len() - i,
        {
            assert(self.doc_ids()[i as int] == self.documents@[i as int].component.spec_id());
            if self.documents[i].component.id() == target {
                self.active_index = Some(i);
                assert(old(self).doc_ids().contains(target)) by {
                    assert(old(self).doc_ids()[i as int] == target);
                }
                return true;
            }
            i = i + 1;
        }
        assert(!old(self).doc_ids().contains(target)) by {
            if old(self).doc_ids().contains(target) {
                let j = choose|j: int| 0 <= j < old(self).doc_ids().len() && old(self).doc_ids()[j] == target;
                assert(self.doc_ids()[j] != target);
            }
        }
        false
    }

    /// Every document, in order.
    pub fn documents(&self) -> (r: Vec<&Component>)
        ensures r@.map_values(|c: &Component| c.spec_id()) == self.doc_ids(),
    {
        let mut out: Vec<&Component> = Vec::new();
        let mut i: usize = 0;
        while i < self.documents.len()
            invariant
                i <= self.documents@.len(),
                out@.map_values(|c: &Component| c.spec_id()) == self.doc_ids().take(i as int),
            decreases self.documents@.len() - i,
        {
            let ghost before = out@;
            out.push(&self.documents[i].component);
            proof {
                assert(self.doc_ids()[i as int] == self.documents@[i as int].component.spec_id());
                assert(self.doc_ids().take(i as int + 1) =~= self.doc_ids().take(i as int).push(self.doc_ids()[i as int]));
                assert(out@.map_values(|c: &Component| c.spec_id())
                    =~= before.map_values(|c: &Component| c.spec_id()).push(self.doc_ids()[i as int]));
            }
            i = i + 1;
        }
        assert(self.doc_ids().take(i as int) =~= self.doc_ids());
        out
    }

    /// Whether the panel owns the document at a position.
    pub fn is_document_owned(&self, index: usize) -> (r: Option<bool>)
        ensures
            r == (if index < self.doc_ids().len() { Some(self.owned_flags()[index as int]) } else { None }),
            self.owned_flags().len() == self.doc_ids().len(),
    {
        if index < self.documents.len() {
            Some(self.documents[index].owned)
        } else {
            None
        }
    }
}

impl Default for MultiDocumentPanel {
    /// An empty panel: tabbed, no limit, not fullscreen, background all zero.
    fn default() -> (p: MultiDocumentPanel)
        ensures
            p.doc_ids() == Seq::<usize>::empty(),
            p.owned_flags() == Seq::<bool>::empty(),
            p.active() is None,
            p.spec_layout_mode() == MultiDocumentPanelLayout::MaximisedWindowsWithTabs,
            p.spec_max_documents() is None,
            !p.spec_fullscreen(),
            p.spec_background() == [0u8, 0u8, 0u8, 0u8],
    {
        let p = MultiDocumentPanel {
            documents: Vec::new(),
            active_index: None,
            layout_mode: MultiDocumentPanelLayout::default(),
            max_documents: None,
            fullscreen_when_one_document: false,
            background_colour: [0, 0, 0, 0],
        };
        assert(p.doc_ids() =~= Seq::<usize>::empty());
        assert(p.owned_flags() =~= Seq::<bool>::empty());
        p
    }
}

/// Closing a document other than the active one keeps the same document
/// active: the active index follows it to its new place.
pub proof fn lemma_close_keeps_active_document(ids: Seq<usize>, active: usize, index: usize)
    requires
        active < ids.len(),
        index < ids.len(),
        active != index,
    ensures
        spec_active_after_close(Some(active), index, ids.len()) matches Some(a)
            && a < ids.remove(index as int).len()
            && ids.remove(index as int)[a as int] == ids[active as int],
{
}

/// Closing the active document makes its successor active, or the new last
/// document when it was the last; closing the only document leaves none
/// active.
pub proof fn lemma_close_active_picks_neighbour(ids: Seq<usize>, index: usize)
    requires
        index < ids.len(),
    ensures
        ids.len() == 1 ==> spec_active_after_close(Some(index), index, ids.len()) is None,
        ids.len() > 1 ==> (spec_active_after_close(Some(index), index, ids.len()) matches Some(a)
            && a < ids.remove(index as int).len()
            && (index + 1 < ids.len() ==> ids.remove(index as int)[a as int] == ids[index + 1])
            && (index + 1 == ids.len() ==> ids.remove(index as int)[a as int] == ids[index - 1])),
{
}

} // verus!
