//! Components: bounds, lifecycle state and the shared parent-child tree.
//!
//! A component is a handle to a node that other handles may share (cloning
//! a component clones the handle, as children and parents share nodes). The
//! node's mutable contents therefore live in a shared cell that Verus cannot
//! see into: what is read from it is whatever some handle last wrote. The
//! checks and decisions around the cell (bounds validation, the rules of
//! `add_child`, the lifecycle transitions, the search by name) are verified.
use vstd::prelude::*;
use std::cell::RefCell;
use std::rc::{Rc, Weak};
use crate::gui::error::{GuiError, Result};
use crate::gui::input::{EventResult, KeyboardEvent};
use crate::text::text_eq;

verus! {

/// Identifier of a component.
pub type ComponentId = usize;

/// A rectangle.
#[derive(Copy, Clone, PartialEq, Eq, Structural, Debug)]
pub struct Bounds {
    /// Left edge.
    pub x: i32,
    /// Top edge.
    pub y: i32,
    /// Width.
    pub width: u32,
    /// Height.
    pub height: u32,
}

/// Whether a point lies in a rectangle: at or right of the left edge and
/// left of `x + width` (the width taken as `i32`), and likewise vertically.
pub open spec fn spec_bounds_contain(b: Bounds, x: i32, y: i32) -> bool {
    x >= b.x && x < b.x + (b.width as i32) && y >= b.y && y < b.y + (b.height as i32)
}

impl Bounds {
    /// A rectangle.
    pub fn new(x: i32, y: i32, width: u32, height: u32) -> (b: Bounds)
        ensures b == (Bounds { x, y, width, height }),
    {
        Bounds { x, y, width, height }
    }

    /// Whether both sides are non-zero.
    pub fn is_valid(&self) -> (b: bool)
        ensures b == (self.width > 0 && self.height > 0),
    {
        self.width > 0 && self.height > 0
    }

    /// Whether a point lies in the rectangle. The right and bottom edges,
    /// `x + width` and `y + height` in `i32`, must not overflow.
    pub fn contains(&self, x: i32, y: i32) -> (b: bool)
        requires
            i32::MIN <= self.x + (self.width as i32) <= i32::MAX,
            i32::MIN <= self.y + (self.height as i32) <= i32::MAX,
        ensures b == spec_bounds_contain(*self, x, y),
    {
        x >= self.x && x < self.x + self.width as i32 && y >= self.y && y < self.y + self.height as i32
    }
}

/// Lifecycle state of a component.
#[derive(Copy, Clone, PartialEq, Eq, Structural, Debug)]
pub enum ComponentState {
    /// Being set up.
    Initializing,
    /// Ready and visible.
    Active,
    /// Hidden but in the tree.
    Hidden,
    /// Being destroyed.
    Destroying,
}

/// The mutable contents of a component node.
#[verifier::external_body]
struct ComponentData {
    name: String,
    bounds: Bounds,
    state: ComponentState,
    visible: bool,
    enabled: bool,
    parent: Option<Weak<RefCell<ComponentData>>>,
    children: Vec<(usize, Node)>,
    keyboard_handler: Option<Box<dyn FnMut(&KeyboardEvent) -> EventResult>>,
}

/// A shared node: a reference-counted `RefCell` holding its contents.
#[verifier::external_body]
struct Node {
    cell: Rc<RefCell<ComponentData>>,
}

/// A fresh component id, drawn from the per-process random hasher.
fn fresh_component_id() -> usize {
    crate::midi_ci::types::random_seed() as usize
}

/// A new node holding the given name, bounds, state and flags, without
/// parent, children or handler (`Rc::new`, `RefCell::new`).
#[verifier::external_body]
fn node_new(name: &str, bounds: Bounds, state: ComponentState, visible: bool, enabled: bool) -> Node {
    Node {
        cell: Rc::new(RefCell::new(ComponentData {
            name: name.to_string(),
            bounds,
            state,
            visible,
            enabled,
            parent: None,
            children: Vec::new(),
            keyboard_handler: None,
        })),
    }
}

/// Another handle to the same node (`Rc::clone`).
#[verifier::external_body]
fn node_share(n: &Node) -> Node {
    Node { cell: Rc::clone(&n.cell) }
}

/// The node's name (`RefCell::borrow`, then a copy).
#[verifier::external_body]
fn node_name(n: &Node) -> String {
    n.cell.borrow().name.clone()
}

/// Store a name (`RefCell::borrow_mut`).
#[verifier::external_body]
fn node_set_name(n: &Node, name: &str) {
    n.cell.borrow_mut().name = name.to_string();
}

/// The node's bounds (`RefCell::borrow`).
#[verifier::external_body]
fn node_bounds(n: &Node) -> Bounds {
    n.cell.borrow().bounds
}

/// Store bounds (`RefCell::borrow_mut`).
#[verifier::external_body]
fn node_set_bounds(n: &Node, b: Bounds) {
    n.cell.borrow_mut().bounds = b;
}

/// The node's lifecycle state (`RefCell::borrow`).
#[verifier::external_body]
fn node_state(n: &Node) -> ComponentState {
    n.cell.borrow().state
}

/// Store a lifecycle state (`RefCell::borrow_mut`).
#[verifier::external_body]
fn node_set_state(n: &Node, s: ComponentState) {
    n.cell.borrow_mut().state = s;
}

/// The node's visibility (`RefCell::borrow`).
#[verifier::external_body]
fn node_visible(n: &Node) -> bool {
    n.cell.borrow().visible
}

/// Store a visibility (`RefCell::borrow_mut`).
#[verifier::external_body]
fn node_set_visible(n: &Node, v: bool) {
    n.cell.borrow_mut().visible = v;
}

/// Whether the node is enabled (`RefCell::borrow`).
#[verifier::external_body]
fn node_enabled(n: &Node) -> bool {
    n.cell.borrow().enabled
}

/// Store whether the node is enabled (`RefCell::borrow_mut`).
#[verifier::external_body]
fn node_set_enabled(n: &Node, e: bool) {
    n.cell.borrow_mut().enabled = e;
}

/// Whether the node records a parent (`RefCell::borrow`).
#[verifier::external_body]
fn node_has_parent(n: &Node) -> bool {
    n.cell.borrow().parent.is_some()
}

/// Record a parent as a weak reference (`Rc::downgrade`).
#[verifier::external_body]
fn node_set_parent(n: &Node, parent: &Node) {
    n.cell.borrow_mut().parent = Some(Rc::downgrade(&parent.cell));
}

/// Forget the parent (`RefCell::borrow_mut`).
#[verifier::external_body]
fn node_clear_parent(n: &Node) {
    n.cell.borrow_mut().parent = None;
}

/// The number of children (`RefCell::borrow`).
#[verifier::external_body]
fn node_child_count(n: &Node) -> usize {
    n.cell.borrow().children.len()
}

/// Append a child with its id (`RefCell::borrow_mut`).
#[verifier::external_body]
fn node_push_child(n: &Node, id: usize, child: Node) {
    n.cell.borrow_mut().children.push((id, child));
}

/// The id of and a handle to the child at a position, if there is one
/// (`slice::get` under `RefCell::borrow`, then `Rc::clone`).
#[verifier::external_body]
fn node_child(n: &Node, index: usize) -> Option<(usize, Node)> {
    match n.cell.borrow().children.get(index) {
        Some((id, c)) => Some((*id, Node { cell: Rc::clone(&c.cell) })),
        None => None,
    }
}

/// Take out every child (`std::mem::take` under `RefCell::borrow_mut`).
#[verifier::external_body]
fn node_take_children(n: &Node) -> Vec<(usize, Node)> {
    std::mem::take(&mut n.cell.borrow_mut().children)
}

/// Store the list of children (`RefCell::borrow_mut`).
#[verifier::external_body]
fn node_put_children(n: &Node, children: Vec<(usize, Node)>) {
    n.cell.borrow_mut().children = children;
}

/// The recorded parent, if it is still alive (`Weak::upgrade`).
#[verifier::external_body]
fn node_parent(n: &Node) -> Option<Node> {
    match &n.cell.borrow().parent {
        Some(w) => match w.upgrade() {
            Some(cell) => Some(Node { cell }),
            None => None,
        },
        None => None,
    }
}

/// Store a keyboard handler (`RefCell::borrow_mut`).
#[verifier::external_body]
fn node_set_keyboard_handler<F: FnMut(&KeyboardEvent) -> EventResult + 'static>(n: &Node, f: F) {
    n.cell.borrow_mut().keyboard_handler = Some(Box::new(f));
}

/// Drop the keyboard handler (`RefCell::borrow_mut`).
#[verifier::external_body]
fn node_clear_keyboard_handler(n: &Node) {
    n.cell.borrow_mut().keyboard_handler = None;
}

/// Call the keyboard handler, if one is stored: it is taken out of the cell
/// (`Option::take` under `RefCell::borrow_mut`), called with no borrow held
/// (`FnMut::call_mut`), and stored back. While it runs the node holds no
/// handler, so a handler may read or change its own component.
#[verifier::external_body]
fn node_call_keyboard_handler(n: &Node, event: &KeyboardEvent) -> Option<EventResult> {
    let taken = n.cell.borrow_mut().keyboard_handler.take();
    match taken {
        Some(mut h) => {
            let r = h(event);
            n.cell.borrow_mut().keyboard_handler = Some(h);
            Some(r)
        },
        None => None,
    }
}

/// The entries of a child list whose id differs from `id`, in order.
spec fn spec_without_id(s: Seq<(usize, Node)>, id: usize) -> Seq<(usize, Node)>
    decreases s.len(),
{
    if s.len() == 0 {
        s
    } else if s[0].0 != id {
        seq![s[0]] + spec_without_id(s.skip(1), id)
    } else {
        spec_without_id(s.skip(1), id)
    }
}

/// The entries of a child list whose id differs from `id`, in order.
fn without_id(children: Vec<(usize, Node)>, id: usize) -> (r: Vec<(usize, Node)>)
    ensures r@ == spec_without_id(children@, id),
{
    let mut rest = children;
    let mut kept: Vec<(usize, Node)> = Vec::new();
    while rest.len() > 0
        invariant kept@ + spec_without_id(rest@, id) == spec_without_id(children@, id),
        decreases rest@.len(),
    {
        let ghost before = rest@;
        let entry = rest.remove(0);
        assert(rest@ =~= before.skip(1));
        if entry.0 != id {
            kept.push(entry);
            assert(kept@ + spec_without_id(rest@, id) =~= (kept@.drop_last() + seq![entry]) + spec_without_id(rest@, id));
        }
    }
    assert(kept@ + spec_without_id(rest@, id) =~= kept@);
    kept
}

/// The positions of the children that may take a mouse event, in the order
/// they are asked: from the last child to the first, skipping those not both
/// visible and enabled (each entry is a child's `(visible, enabled)`).
pub open spec fn spec_mouse_order(flags: Seq<(bool, bool)>) -> Seq<usize>
    decreases flags.len(),
{
    if flags.len() == 0 {
        Seq::empty()
    } else {
        let rest = spec_mouse_order(flags.drop_last());
        if flags.last().0 && flags.last().1 {
            seq![(flags.len() - 1) as usize] + rest
        } else {
            rest
        }
    }
}

/// The positions of the children to offer a mouse event, in order (see
/// [`spec_mouse_order`]).
pub fn mouse_dispatch_order(flags: &Vec<(bool, bool)>) -> (r: Vec<usize>)
    ensures
        r@ == spec_mouse_order(flags@),
{
    let mut r: Vec<usize> = Vec::new();
    let mut i: usize = flags.len();
    assert(flags@.take(i as int) =~= flags@);
    assert(r@ + spec_mouse_order(flags@) =~= spec_mouse_order(flags@));
    while i > 0
        invariant
            i <= flags@.len(),
            r@ + spec_mouse_order(flags@.take(i as int)) == spec_mouse_order(flags@),
        decreases i,
    {
        let j = i - 1;
        let ghost before = r@;
        proof {
            assert(flags@.take(i as int).drop_last() =~= flags@.take(j as int));
        }
        if flags[j].0 && flags[j].1 {
            r.push(j);
            assert(r@ + spec_mouse_order(flags@.take(j as int)) =~= before + spec_mouse_order(flags@.take(i as int)));
        }
        i = j;
    }
    assert(spec_mouse_order(flags@.take(0)) =~= Seq::<usize>::empty());
    assert(r@ + Seq::<usize>::empty() =~= r@);
    r
}

/// One read or write made through a component handle by its traced
/// operations (see [`Component::trace`]).
pub enum NodeEvent {
    /// The component's bounds were read, with this result.
    ReadBounds(Bounds),
    /// The number of children was read, with this result.
    ReadChildCount(usize),
    /// The bounds of the child at a position were read (`None`: no child
    /// there).
    ReadChildBounds(usize, Option<Bounds>),
    /// The child at a position was given bounds; the flag tells whether a
    /// child was there.
    SetChildBounds(usize, Bounds, bool),
}

/// A handle to a component node in a tree of components.
pub struct Component {
    id: ComponentId,
    node: Node,
    trace: Ghost<Seq<NodeEvent>>,
}

impl Component {
    /// The component's id.
    pub closed spec fn spec_id(self) -> ComponentId {
        self.id
    }

    /// The reads and writes made so far through this handle by its traced
    /// operations ([`Component::observe_bounds`],
    /// [`Component::observe_child_count`],
    /// [`Component::observe_child_bounds`] and
    /// [`Component::set_child_bounds`]), in order. A new handle starts with
    /// none.
    pub closed spec fn trace(self) -> Seq<NodeEvent> {
        self.trace@
    }

    /// The bounds, recorded in the trace.
    pub fn observe_bounds(&mut self) -> (b: Bounds)
        ensures
            final(self).spec_id() == old(self).spec_id(),
            final(self).trace() == old(self).trace().push(NodeEvent::ReadBounds(b)),
    {
        let b = node_bounds(&self.node);
        self.trace = Ghost(self.trace@.push(NodeEvent::ReadBounds(b)));
        b
    }

    /// The number of children, recorded in the trace.
    pub fn observe_child_count(&mut self) -> (n: usize)
        ensures
            final(self).spec_id() == old(self).spec_id(),
            final(self).trace() == old(self).trace().push(NodeEvent::ReadChildCount(n)),
    {
        let n = node_child_count(&self.node);
        self.trace = Ghost(self.trace@.push(NodeEvent::ReadChildCount(n)));
        n
    }

    /// The bounds of the child at a position, if there is one, recorded in
    /// the trace.
    pub fn observe_child_bounds(&mut self, index: usize) -> (r: Option<Bounds>)
        ensures
            final(self).spec_id() == old(self).spec_id(),
            final(self).trace() == old(self).trace().push(NodeEvent::ReadChildBounds(index, r)),
    {
        let r = match node_child(&self.node, index) {
            Some((_, child)) => Some(node_bounds(&child)),
            None => None,
        };
        self.trace = Ghost(self.trace@.push(NodeEvent::ReadChildBounds(index, r)));
        r
    }

    /// Give the child at a position new bounds, recorded in the trace. With
    /// no child there nothing happens; a child refuses bounds with a zero
    /// side, and that error is returned.
    pub fn set_child_bounds(&mut self, index: usize, bounds: Bounds) -> (r: Result<()>)
        ensures
            final(self).spec_id() == old(self).spec_id(),
            final(self).trace().len() == old(self).trace().len() + 1,
            final(self).trace().drop_last() == old(self).trace(),
            final(self).trace().last() matches NodeEvent::SetChildBounds(i, b, present)
                && i == index && b == bounds
                && (r is Err <==> present && !(bounds.width > 0 && bounds.height > 0)),
            r is Err ==> r == Err::<(), GuiError>(
                GuiError::InvalidBounds(bounds.x, bounds.y, bounds.width, bounds.height),
            ),
    {
        let (present, r) = match node_child(&self.node, index) {
            Some((id, node)) => {
                let mut child = Component { id, node, trace: Ghost(Seq::empty()) };
                (true, child.set_bounds(bounds))
            },
            None => (false, Ok(())),
        };
        self.trace = Ghost(self.trace@.push(NodeEvent::SetChildBounds(index, bounds, present)));
        proof {
            assert(self.trace@.drop_last() =~= old(self).trace@);
        }
        r
    }

    /// A new component: zero bounds, initializing, visible, enabled, no
    /// parent and no children.
    pub fn new(name: &str) -> (c: Component) {
        let bounds = Bounds { x: 0, y: 0, width: 0, height: 0 };
        Component {
            id: fresh_component_id(),
            node: node_new(name, bounds, ComponentState::Initializing, true, true),
            trace: Ghost(Seq::empty()),
        }
    }

    /// The id.
    pub fn id(&self) -> (id: ComponentId)
        ensures id == self.spec_id(),
    {
        self.id
    }

    /// The name.
    pub fn name(&self) -> String {
        node_name(&self.node)
    }

    /// Rename.
    pub fn set_name(&mut self, name: &str)
        ensures final(self).spec_id() == old(self).spec_id(),
    {
        node_set_name(&self.node, name);
    }

    /// The bounds.
    pub fn bounds(&self) -> Bounds {
        node_bounds(&self.node)
    }

    /// Set the bounds; bounds with a zero side are refused and not stored.
    pub fn set_bounds(&mut self, bounds: Bounds) -> (r: Result<()>)
        ensures
            final(self).spec_id() == old(self).spec_id(),
            bounds.width > 0 && bounds.height > 0 ==> r is Ok,
            !(bounds.width > 0 && bounds.height > 0) ==> r == Err::<(), GuiError>(
                GuiError::InvalidBounds(bounds.x, bounds.y, bounds.width, bounds.height),
            ),
    {
        if !bounds.is_valid() {
            return Err(GuiError::InvalidBounds(bounds.x, bounds.y, bounds.width, bounds.height));
        }
        node_set_bounds(&self.node, bounds);
        Ok(())
    }

    /// The lifecycle state.
    pub fn state(&self) -> ComponentState {
        node_state(&self.node)
    }

    /// Set the lifecycle state.
    pub fn set_state(&mut self, state: ComponentState)
        ensures final(self).spec_id() == old(self).spec_id(),
    {
        node_set_state(&self.node, state);
    }

    /// Whether visible.
    pub fn is_visible(&self) -> bool {
        node_visible(&self.node)
    }

    /// Show or hide.
    pub fn set_visible(&mut self, visible: bool)
        ensures final(self).spec_id() == old(self).spec_id(),
    {
        node_set_visible(&self.node, visible);
    }

    /// Whether enabled.
    pub fn is_enabled(&self) -> bool {
        node_enabled(&self.node)
    }

    /// Enable or disable.
    pub fn set_enabled(&mut self, enabled: bool)
        ensures final(self).spec_id() == old(self).spec_id(),
    {
        node_set_enabled(&self.node, enabled);
    }

    /// Whether the component records a parent.
    pub fn has_parent(&self) -> bool {
        node_has_parent(&self.node)
    }

    /// The number of children.
    pub fn child_count(&self) -> usize {
        node_child_count(&self.node)
    }

    /// Make another component a child of this one. A component cannot be its
    /// own child, and a component that already has a parent is refused.
    pub fn add_child(&mut self, child: Component) -> (r: Result<()>)
        ensures
            final(self).spec_id() == old(self).spec_id(),
            (r == Err::<(), GuiError>(GuiError::SelfReference)) == (old(self).spec_id() == child.spec_id()),
            r is Ok || r == Err::<(), GuiError>(GuiError::SelfReference)
                || r == Err::<(), GuiError>(GuiError::AlreadyHasParent),
    {
        if self.id == child.id {
            return Err(GuiError::SelfReference);
        }
        if node_has_parent(&child.node) {
            return Err(GuiError::AlreadyHasParent);
        }
        node_set_parent(&child.node, &self.node);
        node_push_child(&self.node, child.id, child.node);
        Ok(())
    }

    /// Detach and return the child at a position, if there is one.
    pub fn remove_child(&mut self, index: usize) -> (r: Option<Component>)
        ensures final(self).spec_id() == old(self).spec_id(),
    {
        let mut children = node_take_children(&self.node);
        if index >= children.len() {
            node_put_children(&self.node, children);
            return None;
        }
        let (id, node) = children.remove(index);
        node_put_children(&self.node, children);
        node_clear_parent(&node);
        Some(Component { id, node, trace: Ghost(Seq::empty()) })
    }

    /// Detach every child.
    pub fn remove_all_children(&mut self)
        ensures final(self).spec_id() == old(self).spec_id(),
    {
        let children = node_take_children(&self.node);
        let mut i: usize = 0;
        while i < children.len()
            invariant i <= children@.len(),
            decreases children@.len() - i,
        {
            node_clear_parent(&children[i].1);
            i = i + 1;
        }
    }

    /// A handle to the child at a position, if there is one.
    pub fn child(&self, index: usize) -> (r: Option<Component>) {
        match node_child(&self.node, index) {
            Some((id, node)) => Some(Component { id, node, trace: Ghost(Seq::empty()) }),
            None => None,
        }
    }

    /// The first child whose name is `name`.
    pub fn find_child_by_name(&self, name: &str) -> (r: Option<Component>) {
        let n = node_child_count(&self.node);
        let mut i: usize = 0;
        while i < n
            invariant i <= n,
            decreases n - i,
        {
            match node_child(&self.node, i) {
                Some((id, node)) => {
                    let child_name = node_name(&node);
                    if text_eq(child_name.as_str(), name) {
                        return Some(Component { id, node, trace: Ghost(Seq::empty()) });
                    }
                },
                None => {},
            }
            i = i + 1;
        }
        None
    }

    /// Whether a point lies in the component's bounds (edges computed
    /// without overflow).
    pub fn contains_point(&self, x: i32, y: i32) -> (b: bool) {
        let b = node_bounds(&self.node);
        let right = b.x as i64 + (b.width as i32) as i64;
        let bottom = b.y as i64 + (b.height as i32) as i64;
        x >= b.x && (x as i64) < right && y >= b.y && (y as i64) < bottom
    }

    /// Move from initializing to active; any other state is kept.
    pub fn initialize(&mut self)
        ensures final(self).spec_id() == old(self).spec_id(),
    {
        if node_state(&self.node) == ComponentState::Initializing {
            node_set_state(&self.node, ComponentState::Active);
        }
    }

    /// Leave the parent (if it is alive), move to destroying, forget the
    /// parent and detach every child.
    pub fn destroy(&mut self)
        ensures final(self).spec_id() == old(self).spec_id(),
    {
        match node_parent(&self.node) {
            Some(parent) => {
                let siblings = node_take_children(&parent);
                let kept = without_id(siblings, self.id);
                node_put_children(&parent, kept);
            },
            None => {},
        }
        node_set_state(&self.node, ComponentState::Destroying);
        node_clear_parent(&self.node);
        self.remove_all_children();
    }

    /// Offer a keyboard event to the registered handler; without one the
    /// event is not handled.
    pub fn handle_keyboard_event(&mut self, event: &KeyboardEvent) -> (r: EventResult)
        ensures final(self).spec_id() == old(self).spec_id(),
    {
        match node_call_keyboard_handler(&self.node, event) {
            Some(r) => r,
            None => EventResult::NotHandled,
        }
    }

    /// Register a keyboard handler.
    pub fn set_keyboard_handler<F: FnMut(&KeyboardEvent) -> EventResult + 'static>(&mut self, f: F)
        ensures final(self).spec_id() == old(self).spec_id(),
    {
        node_set_keyboard_handler(&self.node, f);
    }

    /// Drop the keyboard handler.
    pub fn clear_keyboard_handler(&mut self)
        ensures final(self).spec_id() == old(self).spec_id(),
    {
        node_clear_keyboard_handler(&self.node);
    }

    /// Offer a keyboard event to an enabled component; a disabled one does
    /// not handle it.
    pub fn dispatch_keyboard_event(&mut self, event: &KeyboardEvent) -> (r: EventResult)
        ensures final(self).spec_id() == old(self).spec_id(),
    {
        if !node_enabled(&self.node) {
            return EventResult::NotHandled;
        }
        self.handle_keyboard_event(event)
    }
}

impl Clone for Component {
    /// Another handle to the same node.
    fn clone(&self) -> (c: Component)
        ensures c.spec_id() == self.spec_id(),
    {
        Component { id: self.id, node: node_share(&self.node), trace: Ghost(Seq::empty()) }
    }
}

} // verus!
