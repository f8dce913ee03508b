//! Layout managers: size constraints, flexible rows and columns, grids and
//! absolute placement with constraints. Positions follow the arithmetic of
//! 32-bit words: they wrap around as a release build does.
use vstd::prelude::*;
use crate::gui::components::{Bounds, Component, NodeEvent};
use crate::gui::error::{GuiError, Result};

pub mod animation_frame_rate;
pub mod css_grid;

verus! {

/// `a - b`, or 0 when `b` is larger.
pub open spec fn spec_sat_sub(a: int, b: int) -> int {
    if a >= b { a - b } else { 0 }
}

/// `a * b`, or `u32::MAX` when that is larger.
pub open spec fn spec_sat_mul_u32(a: int, b: int) -> int {
    if a * b <= u32::MAX { a * b } else { u32::MAX as int }
}

/// `a * b`, saturating at `u32::MAX`.
pub fn sat_mul_u32(a: u32, b: u32) -> (r: u32)
    ensures r == spec_sat_mul_u32(a as int, b as int),
{
    assert(a as u64 * b as u64 <= u64::MAX) by (nonlinear_arith)
        requires a <= u32::MAX, b <= u32::MAX;
    let p = a as u64 * b as u64;
    if p > u32::MAX as u64 { u32::MAX } else { p as u32 }
}

/// The larger of two numbers.
pub open spec fn spec_max(a: int, b: int) -> int {
    if a >= b { a } else { b }
}

/// The smaller of two numbers.
pub open spec fn spec_min(a: int, b: int) -> int {
    if a <= b { a } else { b }
}

/// Minimum, maximum and preferred sizes; `None` means no constraint.
#[derive(Debug, Clone, Copy, PartialEq, Eq, Structural)]
pub struct SizeConstraint {
    /// Minimum width.
    pub min_width: Option<u32>,
    /// Maximum width.
    pub max_width: Option<u32>,
    /// Minimum height.
    pub min_height: Option<u32>,
    /// Maximum height.
    pub max_height: Option<u32>,
    /// Preferred width.
    pub preferred_width: Option<u32>,
    /// Preferred height.
    pub preferred_height: Option<u32>,
}

/// A value raised to an optional minimum, then lowered to an optional
/// maximum.
pub open spec fn spec_clamp(v: u32, min: Option<u32>, max: Option<u32>) -> u32 {
    let raised = match min {
        Some(m) => if v >= m { v } else { m },
        None => v,
    };
    match max {
        Some(m) => if raised <= m { raised } else { m },
        None => raised,
    }
}

fn clamp(v: u32, min: Option<u32>, max: Option<u32>) -> (r: u32)
    ensures r == spec_clamp(v, min, max),
{
    let mut r = v;
    match min {
        Some(m) => if r < m { r = m; },
        None => {},
    }
    match max {
        Some(m) => if r > m { r = m; },
        None => {},
    }
    r
}

impl SizeConstraint {
    /// The constrained size of a `width` by `height` box.
    pub open spec fn spec_constrain(self, width: u32, height: u32) -> (u32, u32) {
        (spec_clamp(width, self.min_width, self.max_width), spec_clamp(height, self.min_height, self.max_height))
    }

    /// The preferred size, when both sides are preferred.
    pub open spec fn spec_preferred(self) -> Option<(u32, u32)> {
        match (self.preferred_width, self.preferred_height) {
            (Some(w), Some(h)) => Some((w, h)),
            _ => None,
        }
    }

    /// No constraint at all.
    pub fn new() -> (c: SizeConstraint)
        ensures
            c == (SizeConstraint {
                min_width: None,
                max_width: None,
                min_height: None,
                max_height: None,
                preferred_width: None,
                preferred_height: None,
            }),
    {
        SizeConstraint {
            min_width: None,
            max_width: None,
            min_height: None,
            max_height: None,
            preferred_width: None,
            preferred_height: None,
        }
    }

    /// The same with a minimum width.
    pub fn with_min_width(self, width: u32) -> (c: SizeConstraint)
        ensures c == (SizeConstraint { min_width: Some(width), ..self }),
    {
        SizeConstraint { min_width: Some(width), ..self }
    }

    /// The same with a maximum width.
    pub fn with_max_width(self, width: u32) -> (c: SizeConstraint)
        ensures c == (SizeConstraint { max_width: Some(width), ..self }),
    {
        SizeConstraint { max_width: Some(width), ..self }
    }

    /// The same with a minimum height.
    pub fn with_min_height(self, height: u32) -> (c: SizeConstraint)
        ensures c == (SizeConstraint { min_height: Some(height), ..self }),
    {
        SizeConstraint { min_height: Some(height), ..self }
    }

    /// The same with a maximum height.
    pub fn with_max_height(self, height: u32) -> (c: SizeConstraint)
        ensures c == (SizeConstraint { max_height: Some(height), ..self }),
    {
        SizeConstraint { max_height: Some(height), ..self }
    }

    /// The same with a preferred width.
    pub fn with_preferred_width(self, width: u32) -> (c: SizeConstraint)
        ensures c == (SizeConstraint { preferred_width: Some(width), ..self }),
    {
        SizeConstraint { preferred_width: Some(width), ..self }
    }

    /// The same with a preferred height.
    pub fn with_preferred_height(self, height: u32) -> (c: SizeConstraint)
        ensures c == (SizeConstraint { preferred_height: Some(height), ..self }),
    {
        SizeConstraint { preferred_height: Some(height), ..self }
    }

    /// A fixed size: minimum, maximum and preferred all equal.
    pub fn with_fixed_size(self, width: u32, height: u32) -> (c: SizeConstraint)
        ensures
            c == (SizeConstraint {
                min_width: Some(width),
                max_width: Some(width),
                min_height: Some(height),
                max_height: Some(height),
                preferred_width: Some(width),
                preferred_height: Some(height),
            }),
    {
        SizeConstraint {
            min_width: Some(width),
            max_width: Some(width),
            min_height: Some(height),
            max_height: Some(height),
            preferred_width: Some(width),
            preferred_height: Some(height),
        }
    }

    /// Constrain a size: each side is raised to its minimum, then lowered to
    /// its maximum.
    pub fn constrain(&self, width: u32, height: u32) -> (r: (u32, u32))
        ensures r == self.spec_constrain(width, height),
    {
        (clamp(width, self.min_width, self.max_width), clamp(height, self.min_height, self.max_height))
    }

    /// The preferred size, when both sides are preferred.
    pub fn preferred_size(&self) -> (r: Option<(u32, u32)>)
        ensures r == self.spec_preferred(),
    {
        match (self.preferred_width, self.preferred_height) {
            (Some(w), Some(h)) => Some((w, h)),
            _ => None,
        }
    }
}

impl Default for SizeConstraint {
    /// No constraint at all.
    fn default() -> (c: SizeConstraint)
        ensures
            c == (SizeConstraint {
                min_width: None,
                max_width: None,
                min_height: None,
                max_height: None,
                preferred_width: None,
                preferred_height: None,
            }),
    {
        SizeConstraint::new()
    }
}

/// The direction of a flex layout.
#[derive(Debug, Clone, Copy, PartialEq, Eq, Structural)]
pub enum FlexDirection {
    /// Left to right.
    Horizontal,
    /// Top to bottom.
    Vertical,
}

/// How children are placed across a flex layout.
#[derive(Debug, Clone, Copy, PartialEq, Eq, Structural)]
pub enum FlexAlign {
    /// At the start (left or top).
    Start,
    /// Centred.
    Center,
    /// At the end (right or bottom).
    End,
    /// Stretched to fill.
    Stretch,
}

/// The size of each child along the main axis: the room left after the
/// spacing, shared out, and at least 1. `None` when the child count is a
/// multiple of 2^32, where the share cannot be taken.
pub open spec fn spec_main_size(avail: u32, spacing: u32, count: usize) -> Option<u32> {
    let d = count as u32;
    if d == 0 {
        None
    } else {
        let total_spacing = spec_sat_mul_u32(spacing as int, (count - 1) as u32 as int);
        Some(spec_max(spec_sat_sub(avail as int, total_spacing) / (d as int), 1) as u32)
    }
}

/// The size of a child across the main axis: the whole room when
/// stretching or when the child has no size yet, else its size capped at
/// the room (which counts as at least 1).
pub open spec fn spec_cross_size(align: FlexAlign, avail: u32, current: u32) -> u32 {
    let room = spec_max(avail as int, 1) as u32;
    match align {
        FlexAlign::Stretch => room,
        _ => if current == 0 { room } else { spec_min(current as int, room as int) as u32 },
    }
}

/// The offset of a child across the main axis.
pub open spec fn spec_cross_offset(align: FlexAlign, avail: u32, size: u32) -> int {
    let room = spec_max(avail as int, 1);
    match align {
        FlexAlign::Start => 0,
        FlexAlign::Center => spec_sat_sub(room, size as int) / 2,
        FlexAlign::End => spec_sat_sub(room, size as int),
        FlexAlign::Stretch => 0,
    }
}

/// Flexible box layout: children in a row or a column, with spacing,
/// padding and alignment.
#[derive(Debug, Clone)]
pub struct FlexLayout {
    direction: FlexDirection,
    spacing: u32,
    padding_left: u32,
    padding_right: u32,
    padding_top: u32,
    padding_bottom: u32,
    align: FlexAlign,
}

impl FlexLayout {
    /// The direction.
    pub closed spec fn spec_direction(self) -> FlexDirection {
        self.direction
    }

    /// The spacing between children.
    pub closed spec fn spec_spacing(self) -> u32 {
        self.spacing
    }

    /// The padding: left, right, top, bottom.
    pub closed spec fn spec_padding(self) -> (u32, u32, u32, u32) {
        (self.padding_left, self.padding_right, self.padding_top, self.padding_bottom)
    }

    /// The alignment.
    pub closed spec fn spec_align(self) -> FlexAlign {
        self.align
    }

    /// The room inside a parent of the given bounds: its size less the
    /// padding (sums wrap at 32 bits), never below 0.
    pub open spec fn spec_available(self, parent: Bounds) -> (u32, u32) {
        let (l, r, t, b) = self.spec_padding();
        (
            spec_sat_sub(parent.width as int, (l + r) as u32 as int) as u32,
            spec_sat_sub(parent.height as int, (t + b) as u32 as int) as u32,
        )
    }

    /// The bounds given to child `index` of `count` inside a parent of the
    /// given bounds, whose current bounds are `current`; `None` when the
    /// main size cannot be taken.
    pub open spec fn spec_child_bounds(self, parent: Bounds, count: usize, index: usize, current: Bounds) -> Option<Bounds> {
        let (aw, ah) = self.spec_available(parent);
        let (l, r, t, b) = self.spec_padding();
        match self.spec_direction() {
            FlexDirection::Horizontal => match spec_main_size(aw, self.spec_spacing(), count) {
                Some(w) => {
                    let h = spec_cross_size(self.spec_align(), ah, current.height);
                    Some(Bounds {
                        x: (l + index * (w + self.spec_spacing())) as i32,
                        y: (t + spec_cross_offset(self.spec_align(), ah, h)) as i32,
                        width: w,
                        height: h,
                    })
                },
                None => None,
            },
            FlexDirection::Vertical => match spec_main_size(ah, self.spec_spacing(), count) {
                Some(h) => {
                    let w = spec_cross_size(self.spec_align(), aw, current.width);
                    Some(Bounds {
                        x: (l + spec_cross_offset(self.spec_align(), aw, w)) as i32,
                        y: (t + index * (h + self.spec_spacing())) as i32,
                        width: w,
                        height: h,
                    })
                },
                None => None,
            },
        }
    }

    /// A layout in the given direction: no spacing or padding, aligned at
    /// the start.
    pub fn new(direction: FlexDirection) -> (l: FlexLayout)
        ensures
            l.spec_direction() == direction,
            l.spec_spacing() == 0,
            l.spec_padding() == (0u32, 0u32, 0u32, 0u32),
            l.spec_align() == FlexAlign::Start,
    {
        FlexLayout {
            direction,
            spacing: 0,
            padding_left: 0,
            padding_right: 0,
            padding_top: 0,
            padding_bottom: 0,
            align: FlexAlign::Start,
        }
    }

    /// Set the spacing between children.
    pub fn set_spacing(&mut self, spacing: u32)
        ensures
            final(self).spec_spacing() == spacing,
            final(self).spec_direction() == old(self).spec_direction(),
            final(self).spec_padding() == old(self).spec_padding(),
            final(self).spec_align() == old(self).spec_align(),
    {
        self.spacing = spacing;
    }

    /// Set the padding on each side.
    pub fn set_padding(&mut self, left: u32, right: u32, top: u32, bottom: u32)
        ensures
            final(self).spec_padding() == (left, right, top, bottom),
            final(self).spec_direction() == old(self).spec_direction(),
            final(self).spec_spacing() == old(self).spec_spacing(),
            final(self).spec_align() == old(self).spec_align(),
    {
        self.padding_left = left;
        self.padding_right = right;
        self.padding_top = top;
        self.padding_bottom = bottom;
    }

    /// Set the alignment.
    pub fn set_align(&mut self, align: FlexAlign)
        ensures
            final(self).spec_align() == align,
            final(self).spec_direction() == old(self).spec_direction(),
            final(self).spec_spacing() == old(self).spec_spacing(),
            final(self).spec_padding() == old(self).spec_padding(),
    {
        self.align = align;
    }

    /// The bounds of one child (see [`FlexLayout::spec_child_bounds`]).
    pub fn child_bounds(&self, parent: Bounds, count: usize, index: usize, current: Bounds) -> (r: Option<Bounds>)
        requires
            index < count,
        ensures
            r == self.spec_child_bounds(parent, count, index, current),
    {
        let pad_w: u32 = (#[verifier::truncate] ((self.padding_left as u64 + self.padding_right as u64) as u32));
        let pad_h: u32 = (#[verifier::truncate] ((self.padding_top as u64 + self.padding_bottom as u64) as u32));
        let aw = parent.width.saturating_sub(pad_w);
        let ah = parent.height.saturating_sub(pad_h);
        let (avail_main, avail_cross, cross_current) = match self.direction {
            FlexDirection::Horizontal => (aw, ah, current.height),
            FlexDirection::Vertical => (ah, aw, current.width),
        };
        let d: u32 = (#[verifier::truncate] (count as u32));
        if count == 0 || d == 0 {
            return None;
        }
        let gaps: u32 = (#[verifier::truncate] ((count - 1) as u32));
        let total_spacing = sat_mul_u32(self.spacing, gaps);
        let share = avail_main.saturating_sub(total_spacing) / d;
        let main = if share >= 1 { share } else { 1 };
        let room = if avail_cross >= 1 { avail_cross } else { 1 };
        let cross = match self.align {
            FlexAlign::Stretch => room,
            _ => if cross_current == 0 { room } else if cross_current <= room { cross_current } else { room },
        };
        let offset: u32 = match self.align {
            FlexAlign::Start => 0,
            FlexAlign::Center => room.saturating_sub(cross) / 2,
            FlexAlign::End => room.saturating_sub(cross),
            FlexAlign::Stretch => 0,
        };
        proof {
            let a = index as int;
            let b = main as int + self.spacing as int;
            assert(0 <= a * b <= 0x1_0000_0000_0000_0000 * 0x2_0000_0000) by (nonlinear_arith)
                requires 0 <= a <= 0x1_0000_0000_0000_0000, 0 <= b <= 0x2_0000_0000;
        }
        let along: i128 = index as i128 * (main as i128 + self.spacing as i128);
        match self.direction {
            FlexDirection::Horizontal => {
                let x: i32 = (#[verifier::truncate] ((self.padding_left as i128 + along) as i32));
                let y: i32 = (#[verifier::truncate] ((self.padding_top as i128 + offset as i128) as i32));
                Some(Bounds { x, y, width: main, height: cross })
            },
            FlexDirection::Vertical => {
                let x: i32 = (#[verifier::truncate] ((self.padding_left as i128 + offset as i128) as i32));
                let y: i32 = (#[verifier::truncate] ((self.padding_top as i128 + along) as i32));
                Some(Bounds { x, y, width: cross, height: main })
            },
        }
    }

    /// Lay out the component's children: each child, in order, gets the
    /// bounds of [`FlexLayout::spec_child_bounds`] for the parent's bounds
    /// and its own current bounds. Every such bounds has both sides at
    /// least 1, so the layout never fails. The reads and writes, in the
    /// component's trace, are those of [`spec_flex_steps`].
    pub fn apply(&self, component: &mut Component) -> (r: Result<()>)
        ensures
            r is Ok,
            final(component).spec_id() == old(component).spec_id(),
            final(component).trace().take(old(component).trace().len() as int) == old(component).trace(),
            exists|p: Bounds, n: usize, reads: Seq<Option<Bounds>>, presents: Seq<bool>|
                reads.len() == n && presents.len() == n
                && final(component).trace().skip(old(component).trace().len() as int)
                    == seq![NodeEvent::ReadBounds(p), NodeEvent::ReadChildCount(n)]
                    + #[trigger] spec_flex_steps(*self, p, n, reads, presents),
    {
        let ghost t0 = component.trace();
        let bounds = component.observe_bounds();
        let count = component.observe_child_count();
        let ghost mut reads: Seq<Option<Bounds>> = Seq::empty();
        let ghost mut presents: Seq<bool> = Seq::empty();
        let ghost head = seq![NodeEvent::ReadBounds(bounds), NodeEvent::ReadChildCount(count)];
        assert(component.trace() =~= t0 + head + spec_flex_steps(*self, bounds, count, reads, presents));
        let mut i: usize = 0;
        while i < count
            invariant
                i <= count,
                component.spec_id() == old(component).spec_id(),
                reads.len() == i,
                presents.len() == i,
                t0 == old(component).trace(),
                head == seq![NodeEvent::ReadBounds(bounds), NodeEvent::ReadChildCount(count)],
                component.trace() == t0 + head + spec_flex_steps(*self, bounds, count, reads, presents),
            decreases count - i,
        {
            let ghost before = component.trace();
            let current = component.observe_child_bounds(i);
            let ghost mut present = false;
            match current {
                Some(c) => {
                    match self.child_bounds(bounds, count, i, c) {
                        Some(b) => {
                            proof {
                                lemma_child_bounds_nonempty(*self, bounds, count, i, c);
                            }
                            let ghost mid = component.trace();
                            let r = component.set_child_bounds(i, b);
                            assert(r is Ok);
                            proof {
                                assert(component.trace() =~= mid.push(component.trace().last()));
                                present = match component.trace().last() {
                                    NodeEvent::SetChildBounds(_, _, x) => x,
                                    _ => false,
                                };
                                assert(component.trace() =~= before + seq![
                                    NodeEvent::ReadChildBounds(i, current),
                                    NodeEvent::SetChildBounds(i, b, present),
                                ]);
                            }
                        },
                        None => {
                            assert(component.trace() =~= before + seq![NodeEvent::ReadChildBounds(i, current)]);
                        },
                    }
                },
                None => {
                    assert(component.trace() =~= before + seq![NodeEvent::ReadChildBounds(i, current)]);
                },
            }
            proof {
                let r2 = reads.push(current);
                let p2 = presents.push(present);
                assert(r2.drop_last() =~= reads);
                assert(p2.drop_last() =~= presents);
                assert(spec_flex_steps(*self, bounds, count, r2, p2)
                    == spec_flex_steps(*self, bounds, count, reads, presents)
                    + spec_flex_step(*self, bounds, count, i, current, present));
                assert(component.trace() =~= t0 + head + spec_flex_steps(*self, bounds, count, r2, p2));
                reads = r2;
                presents = p2;
            }
            i = i + 1;
        }
        proof {
            let tt = component.trace();
            assert(tt.take(t0.len() as int) =~= t0);
            assert(tt.skip(t0.len() as int) =~= head + spec_flex_steps(*self, bounds, count, reads, presents));
        }
        Ok(())
    }
}

/// The reads and writes a flex layout makes for the child at `index`: its
/// bounds are read, and a child that is there is given
/// [`FlexLayout::spec_child_bounds`] of the parent's bounds, the child count,
/// its position and the bounds it had (`present` is whether the child was
/// still there when written).
pub open spec fn spec_flex_step(
    l: FlexLayout,
    parent: Bounds,
    count: usize,
    index: usize,
    read: Option<Bounds>,
    present: bool,
) -> Seq<NodeEvent> {
    match read {
        Some(cur) => match l.spec_child_bounds(parent, count, index, cur) {
            Some(b) => seq![NodeEvent::ReadChildBounds(index, read), NodeEvent::SetChildBounds(index, b, present)],
            None => seq![NodeEvent::ReadChildBounds(index, read)],
        },
        None => seq![NodeEvent::ReadChildBounds(index, read)],
    }
}

/// The reads and writes of a flex layout for the children `0..reads.len()`,
/// in order.
pub open spec fn spec_flex_steps(
    l: FlexLayout,
    parent: Bounds,
    count: usize,
    reads: Seq<Option<Bounds>>,
    presents: Seq<bool>,
) -> Seq<NodeEvent>
    decreases reads.len(),
{
    if reads.len() == 0 {
        Seq::empty()
    } else {
        spec_flex_steps(l, parent, count, reads.drop_last(), presents.drop_last())
            + spec_flex_step(l, parent, count, (reads.len() - 1) as usize, reads.last(), presents.last())
    }
}

/// Grid layout: children fill a grid of equal cells row by row.
#[derive(Debug)]
pub struct GridLayout {
    rows: usize,
    columns: usize,
    spacing: u32,
    padding_left: u32,
    padding_right: u32,
    padding_top: u32,
    padding_bottom: u32,
}

impl GridLayout {
    /// A grid has at least one row and one column.
    #[verifier::type_invariant]
    spec fn wf(self) -> bool {
        self.rows > 0 && self.columns > 0
    }

    /// The number of rows.
    pub closed spec fn spec_rows(self) -> usize {
        self.rows
    }

    /// The number of columns.
    pub closed spec fn spec_columns(self) -> usize {
        self.columns
    }

    /// The spacing between cells.
    pub closed spec fn spec_spacing(self) -> u32 {
        self.spacing
    }

    /// The padding: left, right, top, bottom.
    pub closed spec fn spec_padding(self) -> (u32, u32, u32, u32) {
        (self.padding_left, self.padding_right, self.padding_top, self.padding_bottom)
    }

    /// The size of a cell inside a parent of the given bounds: the room
    /// left after padding (sums wrap at 32 bits) and spacing, shared out
    /// over the columns and rows. The counts must not be multiples of 2^32.
    pub open spec fn spec_cell_size(self, parent: Bounds) -> (u32, u32) {
        let (l, r, t, b) = self.spec_padding();
        let aw = spec_sat_sub(parent.width as int, (l + r) as u32 as int);
        let ah = spec_sat_sub(parent.height as int, (t + b) as u32 as int);
        let hs = spec_sat_mul_u32(self.spec_spacing() as int, (self.spec_columns() - 1) as u32 as int);
        let vs = spec_sat_mul_u32(self.spec_spacing() as int, (self.spec_rows() - 1) as u32 as int);
        (
            (spec_sat_sub(aw, hs) / (self.spec_columns() as u32 as int)) as u32,
            (spec_sat_sub(ah, vs) / (self.spec_rows() as u32 as int)) as u32,
        )
    }

    /// The bounds of the cell of child `index`: its row and column follow
    /// from the index, and positions wrap at 32 bits.
    pub open spec fn spec_cell_bounds(self, parent: Bounds, index: usize) -> Bounds {
        let (cw, ch) = self.spec_cell_size(parent);
        let (l, r, t, b) = self.spec_padding();
        let row = index / self.spec_columns();
        let col = index % self.spec_columns();
        Bounds {
            x: (l + col * (cw + self.spec_spacing())) as i32,
            y: (t + row * (ch + self.spec_spacing())) as i32,
            width: cw,
            height: ch,
        }
    }

    /// How many children are placed: no more than the cells (a product that
    /// wraps at the word size).
    pub open spec fn spec_placed(self, count: usize) -> usize {
        let cells = (self.spec_rows() * self.spec_columns()) as usize;
        if count <= cells { count } else { cells }
    }

    /// A grid of the given size with no spacing or padding; refused when
    /// either count is 0.
    pub fn new(rows: usize, columns: usize) -> (r: Result<GridLayout>)
        ensures
            (rows == 0 || columns == 0) <==> r is Err,
            r matches Err(e) ==> (e matches GuiError::InvalidLayout(m)
                && m@ == "Grid must have at least 1 row and 1 column"@),
            r matches Ok(g) ==> g.spec_rows() == rows && g.spec_columns() == columns && g.spec_spacing() == 0
                && g.spec_padding() == (0u32, 0u32, 0u32, 0u32),
    {
        if rows == 0 || columns == 0 {
            return Err(GuiError::InvalidLayout("Grid must have at least 1 row and 1 column".to_owned()));
        }
        Ok(GridLayout {
            rows,
            columns,
            spacing: 0,
            padding_left: 0,
            padding_right: 0,
            padding_top: 0,
            padding_bottom: 0,
        })
    }

    /// Set the spacing between cells.
    pub fn set_spacing(&mut self, spacing: u32)
        ensures
            final(self).spec_spacing() == spacing,
            final(self).spec_rows() == old(self).spec_rows(),
            final(self).spec_columns() == old(self).spec_columns(),
            final(self).spec_padding() == old(self).spec_padding(),
    {
        proof {
            use_type_invariant(&*self);
        }
        self.spacing = spacing;
    }

    /// Set the padding on each side.
    pub fn set_padding(&mut self, left: u32, right: u32, top: u32, bottom: u32)
        ensures
            final(self).spec_padding() == (left, right, top, bottom),
            final(self).spec_rows() == old(self).spec_rows(),
            final(self).spec_columns() == old(self).spec_columns(),
            final(self).spec_spacing() == old(self).spec_spacing(),
    {
        proof {
            use_type_invariant(&*self);
        }
        self.padding_left = left;
        self.padding_right = right;
        self.padding_top = top;
        self.padding_bottom = bottom;
    }

    /// The bounds of child `index`'s cell (see [`GridLayout::spec_cell_bounds`]).
    pub fn cell_bounds(&self, parent: Bounds, index: usize) -> (b: Bounds)
        requires
            self.spec_rows() as u32 != 0,
            self.spec_columns() as u32 != 0,
        ensures
            b == self.spec_cell_bounds(parent, index),
    {
        proof {
            use_type_invariant(self);
        }
        let pad_w: u32 = (#[verifier::truncate] ((self.padding_left as u64 + self.padding_right as u64) as u32));
        let pad_h: u32 = (#[verifier::truncate] ((self.padding_top as u64 + self.padding_bottom as u64) as u32));
        let aw = parent.width.saturating_sub(pad_w);
        let ah = parent.height.saturating_sub(pad_h);
        let cols: u32 = (#[verifier::truncate] (self.columns as u32));
        let rows: u32 = (#[verifier::truncate] (self.rows as u32));
        let col_gaps: u32 = (#[verifier::truncate] ((self.columns - 1) as u32));
        let row_gaps: u32 = (#[verifier::truncate] ((self.rows - 1) as u32));
        let hs = sat_mul_u32(self.spacing, col_gaps);
        let vs = sat_mul_u32(self.spacing, row_gaps);
        let cw = aw.saturating_sub(hs) / cols;
        let ch = ah.saturating_sub(vs) / rows;
        let row = index / self.columns;
        let col = index % self.columns;
        proof {
            let a = col as int;
            let c = cw as int + self.spacing as int;
            assert(0 <= a * c <= 0x1_0000_0000_0000_0000 * 0x2_0000_0000) by (nonlinear_arith)
                requires 0 <= a <= 0x1_0000_0000_0000_0000, 0 <= c <= 0x2_0000_0000;
            let d = row as int;
            let e = ch as int + self.spacing as int;
            assert(0 <= d * e <= 0x1_0000_0000_0000_0000 * 0x2_0000_0000) by (nonlinear_arith)
                requires 0 <= d <= 0x1_0000_0000_0000_0000, 0 <= e <= 0x2_0000_0000;
        }
        let x: i32 = (#[verifier::truncate] ((self.padding_left as i128 + col as i128 * (cw as i128 + self.spacing as i128)) as i32));
        let y: i32 = (#[verifier::truncate] ((self.padding_top as i128 + row as i128 * (ch as i128 + self.spacing as i128)) as i32));
        Bounds { x, y, width: cw, height: ch }
    }

    /// Lay out the component's children: the first
    /// [`GridLayout::spec_placed`] children, in order, get the bounds of
    /// their cells. A cell with a zero side is refused by the child, and
    /// that error is returned at once. The reads and writes, in the
    /// component's trace, are: the parent's bounds, the child count, then one
    /// write per placed child (see [`spec_grid_writes`]).
    pub fn apply(&self, component: &mut Component) -> (r: Result<()>)
        requires
            self.spec_rows() as u32 != 0,
            self.spec_columns() as u32 != 0,
        ensures
            final(component).spec_id() == old(component).spec_id(),
            r matches Err(e) ==> e matches GuiError::InvalidBounds(_, _, _, _),
            final(component).trace().take(old(component).trace().len() as int) == old(component).trace(),
            exists|p: Bounds, n: usize, presents: Seq<bool>|
                #![trigger spec_grid_writes(*self, p, presents), self.spec_placed(n)]
            {
                &&& presents.len() <= self.spec_placed(n)
                &&& final(component).trace().skip(old(component).trace().len() as int)
                    == seq![NodeEvent::ReadBounds(p), NodeEvent::ReadChildCount(n)]
                    + spec_grid_writes(*self, p, presents)
                &&& forall|j: int| 0 <= j < presents.len() - 1 ==> presents[j]
                    ==> spec_bounds_valid(self.spec_cell_bounds(p, j as usize))
                &&& r is Ok ==> presents.len() == self.spec_placed(n) && (presents.len() > 0 ==> (presents.last()
                    ==> spec_bounds_valid(self.spec_cell_bounds(p, (presents.len() - 1) as usize))))
                &&& r is Err ==> presents.len() > 0 && presents.last()
                    && !spec_bounds_valid(self.spec_cell_bounds(p, (presents.len() - 1) as usize))
            },
    {
        proof {
            use_type_invariant(self);
        }
        let ghost t0 = component.trace();
        let bounds = component.observe_bounds();
        let count = component.observe_child_count();
        let ghost head = seq![NodeEvent::ReadBounds(bounds), NodeEvent::ReadChildCount(count)];
        let ghost mut presents: Seq<bool> = Seq::empty();
        assert(component.trace() =~= t0 + head + spec_grid_writes(*self, bounds, presents));
        if count == 0 {
            proof {
                assert(self.spec_placed(count) == 0);
                let tt = component.trace();
                assert(tt.take(t0.len() as int) =~= t0);
                assert(tt.skip(t0.len() as int) =~= head + spec_grid_writes(*self, bounds, presents));
            }
            return Ok(());
        }
        proof {
            let a = self.rows as int;
            let b = self.columns as int;
            assert(0 <= a * b <= 0xffff_ffff_ffff_ffff * 0xffff_ffff_ffff_ffff) by (nonlinear_arith)
                requires 0 <= a <= 0xffff_ffff_ffff_ffff, 0 <= b <= 0xffff_ffff_ffff_ffff;
        }
        let cells: usize = (#[verifier::truncate] ((self.rows as u128 * self.columns as u128) as usize));
        let placed = if count <= cells { count } else { cells };
        assert(placed == self.spec_placed(count));
        let mut i: usize = 0;
        while i < placed
            invariant
                i <= placed,
                placed == self.spec_placed(count),
                component.spec_id() == old(component).spec_id(),
                self.spec_rows() as u32 != 0,
                self.spec_columns() as u32 != 0,
                presents.len() == i,
                t0 == old(component).trace(),
                head == seq![NodeEvent::ReadBounds(bounds), NodeEvent::ReadChildCount(count)],
                component.trace() == t0 + head + spec_grid_writes(*self, bounds, presents),
                forall|j: int| 0 <= j < presents.len() ==> presents[j]
                    ==> spec_bounds_valid(self.spec_cell_bounds(bounds, j as usize)),
            decreases placed - i,
        {
            let b = self.cell_bounds(bounds, i);
            let ghost mid = component.trace();
            let r = component.set_child_bounds(i, b);
            let ghost present = match component.trace().last() {
                NodeEvent::SetChildBounds(_, _, x) => x,
                _ => false,
            };
            proof {
                assert(component.trace() =~= mid.push(NodeEvent::SetChildBounds(i, b, present)));
                let p2 = presents.push(present);
                assert(spec_grid_writes(*self, bounds, p2) =~= spec_grid_writes(*self, bounds, presents).push(
                    NodeEvent::SetChildBounds(i, b, present),
                ));
                assert(component.trace() =~= t0 + head + spec_grid_writes(*self, bounds, p2));
                presents = p2;
            }
            match r {
                Ok(()) => {},
                Err(e) => {
                    proof {
                        let tt = component.trace();
                        assert(tt.take(t0.len() as int) =~= t0);
                        assert(tt.skip(t0.len() as int) =~= head + spec_grid_writes(*self, bounds, presents));
                    }
                    return Err(e);
                },
            }
            i = i + 1;
        }
        proof {
            let tt = component.trace();
            assert(tt.take(t0.len() as int) =~= t0);
            assert(tt.skip(t0.len() as int) =~= head + spec_grid_writes(*self, bounds, presents));
        }
        Ok(())
    }
}

/// Whether both sides of a rectangle are non-zero.
pub open spec fn spec_bounds_valid(b: Bounds) -> bool {
    b.width > 0 && b.height > 0
}

/// The writes of a grid layout to its first children, in order: child `j`
/// is given the bounds of cell `j` for the parent's bounds (`presents[j]`
/// is whether a child was there).
pub open spec fn spec_grid_writes(l: GridLayout, parent: Bounds, presents: Seq<bool>) -> Seq<NodeEvent> {
    Seq::new(presents.len(), |j: int| NodeEvent::SetChildBounds(j as usize, l.spec_cell_bounds(parent, j as usize), presents[j]))
}

impl Clone for GridLayout {
    /// An equal grid.
    fn clone(&self) -> (g: GridLayout)
        ensures g == *self,
    {
        proof {
            use_type_invariant(self);
        }
        GridLayout {
            rows: self.rows,
            columns: self.columns,
            spacing: self.spacing,
            padding_left: self.padding_left,
            padding_right: self.padding_right,
            padding_top: self.padding_top,
            padding_bottom: self.padding_bottom,
        }
    }
}

/// The bounds a constraint gives a child: its position kept, its size the
/// preferred one if both sides are preferred, else the constrained one.
pub open spec fn spec_constrained_bounds(c: SizeConstraint, current: Bounds) -> Bounds {
    let (w, h) = match c.spec_preferred() {
        Some(p) => p,
        None => c.spec_constrain(current.width, current.height),
    };
    Bounds { x: current.x, y: current.y, width: w, height: h }
}

/// The bounds a constraint gives a child (see [`spec_constrained_bounds`]).
pub fn constrained_bounds(c: &SizeConstraint, current: Bounds) -> (b: Bounds)
    ensures b == spec_constrained_bounds(*c, current),
{
    let (w, h) = match c.preferred_size() {
        Some(p) => p,
        None => c.constrain(current.width, current.height),
    };
    Bounds::new(current.x, current.y, w, h)
}

/// Manual placement: children keep their positions, and those with a
/// constraint are resized by it.
#[derive(Debug, Clone)]
pub struct AbsoluteLayout {
    constraints: Vec<(usize, SizeConstraint)>,
}

impl AbsoluteLayout {
    /// The constraints, each with the index of its child, in order.
    pub closed spec fn spec_constraints(self) -> Seq<(usize, SizeConstraint)> {
        self.constraints@
    }

    /// No constraints.
    pub fn new() -> (l: AbsoluteLayout)
        ensures l.spec_constraints() == Seq::<(usize, SizeConstraint)>::empty(),
    {
        AbsoluteLayout { constraints: Vec::new() }
    }

    /// Add a constraint for the child at an index.
    pub fn add_constraint(&mut self, child_index: usize, constraint: SizeConstraint)
        ensures final(self).spec_constraints() == old(self).spec_constraints().push((child_index, constraint)),
    {
        self.constraints.push((child_index, constraint));
    }

    /// Resize the constrained children, in the order the constraints were
    /// added: each existing child gets [`spec_constrained_bounds`] of its
    /// current bounds. A size with a zero side is refused by the child, and
    /// that error is returned at once. The reads and writes, in the
    /// component's trace, are those of [`spec_absolute_steps`] for the
    /// constraints handled.
    pub fn apply(&self, component: &mut Component) -> (r: Result<()>)
        ensures
            final(component).spec_id() == old(component).spec_id(),
            r matches Err(e) ==> e matches GuiError::InvalidBounds(_, _, _, _),
            final(component).trace().take(old(component).trace().len() as int) == old(component).trace(),
            exists|reads: Seq<Option<Bounds>>, presents: Seq<bool>|
                #![trigger spec_absolute_steps(self.spec_constraints().take(reads.len() as int), reads, presents)]
            {
                &&& reads.len() <= self.spec_constraints().len()
                &&& presents.len() == reads.len()
                &&& final(component).trace().skip(old(component).trace().len() as int)
                    == spec_absolute_steps(self.spec_constraints().take(reads.len() as int), reads, presents)
                &&& forall|j: int| 0 <= j < reads.len() - 1
                    ==> !spec_absolute_fails(self.spec_constraints()[j], reads[j], presents[j])
                &&& r is Ok ==> reads.len() == self.spec_constraints().len() && (reads.len() > 0
                    ==> !spec_absolute_fails(self.spec_constraints()[reads.len() - 1], reads.last(), presents.last()))
                &&& r is Err ==> reads.len() > 0
                    && spec_absolute_fails(self.spec_constraints()[reads.len() - 1], reads.last(), presents.last())
            },
    {
        let ghost t0 = component.trace();
        let ghost mut reads: Seq<Option<Bounds>> = Seq::empty();
        let ghost mut presents: Seq<bool> = Seq::empty();
        assert(self.constraints@.take(0) =~= Seq::<(usize, SizeConstraint)>::empty());
        assert(component.trace() =~= t0 + spec_absolute_steps(self.constraints@.take(0), reads, presents));
        let mut i: usize = 0;
        while i < self.constraints.len()
            invariant
                i <= self.constraints@.len(),
                component.spec_id() == old(component).spec_id(),
                reads.len() == i,
                presents.len() == i,
                t0 == old(component).trace(),
                component.trace() == t0 + spec_absolute_steps(self.constraints@.take(i as int), reads, presents),
                forall|j: int| 0 <= j < i ==> !spec_absolute_fails(self.constraints@[j], reads[j], presents[j]),
            decreases self.constraints@.len() - i,
        {
            let (child_index, constraint) = self.constraints[i];
            let ghost before = component.trace();
            let current = component.observe_child_bounds(child_index);
            let ghost mut present = false;
            let mut failed: Option<GuiError> = None;
            match current {
                Some(c) => {
                    let b = constrained_bounds(&constraint, c);
                    let ghost mid = component.trace();
                    let r = component.set_child_bounds(child_index, b);
                    proof {
                        assert(component.trace() =~= mid.push(component.trace().last()));
                        present = match component.trace().last() {
                            NodeEvent::SetChildBounds(_, _, x) => x,
                            _ => false,
                        };
                        assert(component.trace() =~= before + seq![
                            NodeEvent::ReadChildBounds(child_index, current),
                            NodeEvent::SetChildBounds(child_index, b, present),
                        ]);
                    }
                    match r {
                        Ok(()) => {},
                        Err(e) => {
                            failed = Some(e);
                        },
                    }
                },
                None => {
                    assert(component.trace() =~= before + seq![NodeEvent::ReadChildBounds(child_index, current)]);
                },
            }
            proof {
                let r2 = reads.push(current);
                let p2 = presents.push(present);
                let cs = self.constraints@;
                assert(r2.drop_last() =~= reads);
                assert(p2.drop_last() =~= presents);
                assert(cs.take(i as int + 1).drop_last() =~= cs.take(i as int));
                assert(cs.take(i as int + 1).last() == cs[i as int]);
                assert(spec_absolute_steps(cs.take(i as int + 1), r2, p2)
                    == spec_absolute_steps(cs.take(i as int), reads, presents)
                    + spec_absolute_step(cs[i as int], current, present));
                assert(component.trace() =~= t0 + spec_absolute_steps(cs.take(i as int + 1), r2, p2));
                assert(failed is Some <==> spec_absolute_fails(cs[i as int], current, present));
                assert(r2[i as int] == current && p2[i as int] == present);
                assert forall|j: int| 0 <= j < i implies r2[j] == reads[j] && p2[j] == presents[j] by {}
                reads = r2;
                presents = p2;
            }
            match failed {
                Some(e) => {
                    proof {
                        let tt = component.trace();
                        assert(tt.take(t0.len() as int) =~= t0);
                        assert(tt.skip(t0.len() as int) =~= spec_absolute_steps(self.constraints@.take(reads.len() as int), reads, presents));
                        assert(self.spec_constraints() == self.constraints@);
                        assert(tt.skip(old(component).trace().len() as int)
                            == spec_absolute_steps(self.spec_constraints().take(reads.len() as int), reads, presents));
                        assert(spec_absolute_fails(self.spec_constraints()[reads.len() - 1], reads.last(), presents.last()));
                    }
                    return Err(e);
                },
                None => {
                    assert(!spec_absolute_fails(self.constraints@[i as int], reads[i as int], presents[i as int]));
                },
            }
            i = i + 1;
        }
        proof {
            let tt = component.trace();
            assert(tt.take(t0.len() as int) =~= t0);
            assert(tt.skip(t0.len() as int) =~= spec_absolute_steps(self.constraints@.take(reads.len() as int), reads, presents));
            assert(self.spec_constraints() == self.constraints@);
            assert(tt.skip(old(component).trace().len() as int)
                == spec_absolute_steps(self.spec_constraints().take(reads.len() as int), reads, presents));
            if reads.len() > 0 {
                assert(!spec_absolute_fails(self.spec_constraints()[reads.len() - 1], reads.last(), presents.last()));
            }
        }
        Ok(())
    }
}

/// Whether handling one constraint fails: the child was there, was read,
/// and refused its constrained bounds (a zero side).
pub open spec fn spec_absolute_fails(entry: (usize, SizeConstraint), read: Option<Bounds>, present: bool) -> bool {
    match read {
        Some(cur) => present && !spec_bounds_valid(spec_constrained_bounds(entry.1, cur)),
        None => false,
    }
}

/// The reads and writes of an absolute layout for one constraint: the
/// constrained child's bounds are read, and a child that is there is given
/// [`spec_constrained_bounds`] of the constraint and the bounds it had.
pub open spec fn spec_absolute_step(entry: (usize, SizeConstraint), read: Option<Bounds>, present: bool) -> Seq<NodeEvent> {
    match read {
        Some(cur) => seq![
            NodeEvent::ReadChildBounds(entry.0, read),
            NodeEvent::SetChildBounds(entry.0, spec_constrained_bounds(entry.1, cur), present),
        ],
        None => seq![NodeEvent::ReadChildBounds(entry.0, read)],
    }
}

/// The reads and writes of an absolute layout for a list of constraints, in
/// order.
pub open spec fn spec_absolute_steps(
    entries: Seq<(usize, SizeConstraint)>,
    reads: Seq<Option<Bounds>>,
    presents: Seq<bool>,
) -> Seq<NodeEvent>
    decreases entries.len(),
{
    if entries.len() == 0 {
        Seq::empty()
    } else {
        spec_absolute_steps(entries.drop_last(), reads.drop_last(), presents.drop_last())
            + spec_absolute_step(entries.last(), reads.last(), presents.last())
    }
}

impl Default for AbsoluteLayout {
    /// No constraints.
    fn default() -> (l: AbsoluteLayout)
        ensures l.spec_constraints() == Seq::<(usize, SizeConstraint)>::empty(),
    {
        AbsoluteLayout::new()
    }
}

/// Every child bounds a flex layout gives has both sides at least 1.
pub proof fn lemma_child_bounds_nonempty(l: FlexLayout, parent: Bounds, count: usize, index: usize, current: Bounds)
    ensures
        l.spec_child_bounds(parent, count, index, current) matches Some(b) ==> b.width >= 1 && b.height >= 1,
{
}

/// In a horizontal flex layout, a later child starts where an earlier one
/// ends or further right, as long as the positions do not wrap.
pub proof fn lemma_flex_children_in_order(
    l: FlexLayout,
    parent: Bounds,
    count: usize,
    i: usize,
    j: usize,
    ci: Bounds,
    cj: Bounds,
)
    requires
        l.spec_direction() == FlexDirection::Horizontal,
        i < j < count,
        l.spec_child_bounds(parent, count, j, cj) matches Some(b)
            && l.spec_padding().0 + j * (b.width + l.spec_spacing()) <= i32::MAX,
    ensures
        l.spec_child_bounds(parent, count, i, ci) matches Some(bi)
            && l.spec_child_bounds(parent, count, j, cj) matches Some(bj)
            && bi.width == bj.width
            && bi.x + bi.width <= bj.x,
{
    let (aw, ah) = l.spec_available(parent);
    let w = spec_main_size(aw, l.spec_spacing(), count)->0;
    let step = w + l.spec_spacing();
    let pl = l.spec_padding().0;
    assert(0 <= i * step <= j * step) by (nonlinear_arith)
        requires 0 <= i < j, step >= 0;
    assert(i * step + step <= j * step) by (nonlinear_arith)
        requires 0 <= i < j, step >= 0;
}


/// Across the main axis, a flex layout sizes and places each child by the
/// alignment. The room is what the padding leaves of the parent (at least 1).
/// The child's size across is between 1 and the room. When stretching, or
/// when the child had no size yet, it takes the whole room; otherwise it
/// keeps its size, capped at the room. Start and stretch put it at the
/// padding, end puts its far edge at the far side of the room, and center
/// leaves equal space on both sides (rounded down before), as long as the
/// position does not wrap.
pub proof fn lemma_flex_cross_axis(l: FlexLayout, parent: Bounds, count: usize, index: usize, current: Bounds)
    requires
        0 < count <= u32::MAX,
    ensures
        l.spec_child_bounds(parent, count, index, current) is Some,
        l.spec_child_bounds(parent, count, index, current) matches Some(b) ==> {
            let (aw, ah) = l.spec_available(parent);
            let (pl, pr, pt, pb) = l.spec_padding();
            let horizontal = l.spec_direction() == FlexDirection::Horizontal;
            let avail: int = if horizontal { ah as int } else { aw as int };
            let room: int = if avail >= 1 { avail } else { 1 };
            let had: int = if horizontal { current.height as int } else { current.width as int };
            let size: int = if horizontal { b.height as int } else { b.width as int };
            let pos: int = if horizontal { b.y as int } else { b.x as int };
            let pad: int = if horizontal { pt as int } else { pl as int };
            &&& 1 <= size <= room
            &&& (l.spec_align() == FlexAlign::Stretch || had == 0) ==> size == room
            &&& (l.spec_align() != FlexAlign::Stretch && had != 0) ==> size == (if had <= room { had } else { room })
            &&& pad + room <= i32::MAX ==> {
                &&& (l.spec_align() == FlexAlign::Start || l.spec_align() == FlexAlign::Stretch) ==> pos == pad
                &&& l.spec_align() == FlexAlign::End ==> pos + size == pad + room
                &&& l.spec_align() == FlexAlign::Center ==> pos == pad + (room - size) / 2
            }
        },
{
}

/// In the reads and writes of a flex layout, the child at position `j` that
/// read bounds `cur` is written, right after that read, the bounds the
/// layout gives a child with bounds `cur` at position `j`.
pub proof fn lemma_flex_write_follows_read(
    l: FlexLayout,
    parent: Bounds,
    count: usize,
    reads: Seq<Option<Bounds>>,
    presents: Seq<bool>,
    j: int,
    cur: Bounds,
)
    requires
        0 < count <= u32::MAX,
        reads.len() == presents.len(),
        0 <= j < reads.len(),
        reads[j] == Some(cur),
    ensures
        exists|q: int| {
            &&& 0 <= q && q + 1 < spec_flex_steps(l, parent, count, reads, presents).len()
            &&& #[trigger] spec_flex_steps(l, parent, count, reads, presents)[q] == NodeEvent::ReadChildBounds(j as usize, Some(cur))
            &&& spec_flex_steps(l, parent, count, reads, presents)[q + 1] == NodeEvent::SetChildBounds(
                j as usize,
                l.spec_child_bounds(parent, count, j as usize, cur)->0,
                presents[j],
            )
        },
    decreases reads.len(),
{
    let n = reads.len();
    let front = spec_flex_steps(l, parent, count, reads.drop_last(), presents.drop_last());
    let last = spec_flex_step(l, parent, count, (n - 1) as usize, reads.last(), presents.last());
    let all = spec_flex_steps(l, parent, count, reads, presents);
    assert(all == front + last);
    lemma_flex_cross_axis(l, parent, count, j as usize, cur);
    if j == n - 1 {
        let q = front.len() as int;
        assert(all[q] == last[0]);
        assert(all[q + 1] == last[1]);
    } else {
        lemma_flex_write_follows_read(l, parent, count, reads.drop_last(), presents.drop_last(), j, cur);
        let q = choose|q: int| {
            &&& 0 <= q && q + 1 < front.len()
            &&& #[trigger] front[q] == NodeEvent::ReadChildBounds(j as usize, Some(cur))
            &&& front[q + 1] == NodeEvent::SetChildBounds(
                j as usize,
                l.spec_child_bounds(parent, count, j as usize, cur)->0,
                presents.drop_last()[j],
            )
        };
        assert(all[q] == front[q]);
        assert(all[q + 1] == front[q + 1]);
    }
}

/// A grid's cells fit inside what the padding leaves of the parent: the
/// columns with the spacing between them are no wider than the room across,
/// and the rows with their spacing no taller than the room down; and they
/// are the largest such cells (one more unit each way would not fit), when
/// the spacing does not already exceed the room.
pub proof fn lemma_grid_cells_fit(l: GridLayout, parent: Bounds)
    requires
        l.spec_rows() as u32 != 0,
        l.spec_columns() as u32 != 0,
        l.spec_rows() <= u32::MAX,
        l.spec_columns() <= u32::MAX,
    ensures
        ({
            let (cw, ch) = l.spec_cell_size(parent);
            let (pl, pr, pt, pb) = l.spec_padding();
            let aw = spec_sat_sub(parent.width as int, (pl + pr) as u32 as int);
            let ah = spec_sat_sub(parent.height as int, (pt + pb) as u32 as int);
            let cols = l.spec_columns() as int;
            let rows = l.spec_rows() as int;
            let hs = l.spec_spacing() as int * (cols - 1);
            let vs = l.spec_spacing() as int * (rows - 1);
            &&& hs <= aw ==> cols * cw + hs <= aw && aw < cols * (cw + 1) + hs
            &&& vs <= ah ==> rows * ch + vs <= ah && ah < rows * (ch + 1) + vs
        }),
{
    let (cw, ch) = l.spec_cell_size(parent);
    let (pl, pr, pt, pb) = l.spec_padding();
    let aw = spec_sat_sub(parent.width as int, (pl + pr) as u32 as int);
    let ah = spec_sat_sub(parent.height as int, (pt + pb) as u32 as int);
    let cols = l.spec_columns() as int;
    let rows = l.spec_rows() as int;
    let sp = l.spec_spacing() as int;
    let hs = sp * (cols - 1);
    let vs = sp * (rows - 1);
    assert(0 <= aw <= u32::MAX && 0 <= ah <= u32::MAX);
    assert((cols - 1) as u32 as int == cols - 1);
    assert((rows - 1) as u32 as int == rows - 1);
    assert(l.spec_columns() as u32 as int == cols);
    assert(l.spec_rows() as u32 as int == rows);
    if hs <= aw {
        assert(spec_sat_mul_u32(sp, cols - 1) == hs);
        let q = (aw - hs) / cols;
        assert(cw as int == q);
        assert(cols * q <= aw - hs && aw - hs < cols * (q + 1)) by (nonlinear_arith)
            requires cols > 0, aw - hs >= 0, q == (aw - hs) / cols;
    }
    if vs <= ah {
        assert(spec_sat_mul_u32(sp, rows - 1) == vs);
        let q = (ah - vs) / rows;
        assert(ch as int == q);
        assert(rows * q <= ah - vs && ah - vs < rows * (q + 1)) by (nonlinear_arith)
            requires rows > 0, ah - vs >= 0, q == (ah - vs) / rows;
    }
}

/// A grid places child `index` in row `index / columns` and column
/// `index % columns`: its size is the cell size, and, as long as the
/// positions do not wrap, it starts one cell plus the spacing further for
/// each row above and column before it.
pub proof fn lemma_grid_cell_position(l: GridLayout, parent: Bounds, index: usize)
    requires
        l.spec_columns() > 0,
    ensures
        ({
            let b = l.spec_cell_bounds(parent, index);
            let (cw, ch) = l.spec_cell_size(parent);
            let (pl, pr, pt, pb) = l.spec_padding();
            let row = index as int / l.spec_columns() as int;
            let col = index as int % l.spec_columns() as int;
            &&& b.width == cw && b.height == ch
            &&& pl + col * (cw + l.spec_spacing()) <= i32::MAX ==> b.x == pl + col * (cw + l.spec_spacing())
            &&& pt + row * (ch + l.spec_spacing()) <= i32::MAX ==> b.y == pt + row * (ch + l.spec_spacing())
        }),
{
}

/// A constraint keeps a child's position. When both preferred sides are
/// given, the child takes exactly the preferred size; otherwise each side is
/// its current size raised to the minimum and lowered to the maximum that
/// are given (the maximum winning over the minimum).
pub proof fn lemma_constrained_bounds(c: SizeConstraint, cur: Bounds)
    ensures
        ({
            let b = spec_constrained_bounds(c, cur);
            &&& b.x == cur.x && b.y == cur.y
            &&& (c.preferred_width is Some && c.preferred_height is Some) ==> b.width == c.preferred_width->0
                && b.height == c.preferred_height->0
            &&& !(c.preferred_width is Some && c.preferred_height is Some) ==> {
                &&& (c.min_width is Some && (c.max_width is None || c.min_width->0 <= c.max_width->0)) ==> b.width >= c.min_width->0
                &&& c.max_width is Some ==> b.width <= c.max_width->0
                &&& (c.min_height is Some && (c.max_height is None || c.min_height->0 <= c.max_height->0)) ==> b.height >= c.min_height->0
                &&& c.max_height is Some ==> b.height <= c.max_height->0
                &&& (c.min_width is None && c.max_width is None) ==> b.width == cur.width
                &&& (c.min_height is None && c.max_height is None) ==> b.height == cur.height
            }
        }),
{
}


/// In the writes of a grid layout, the `j`-th write goes to child `j` and
/// gives it the bounds of cell `j` of the parent it read.
pub proof fn lemma_grid_write_is_cell(l: GridLayout, parent: Bounds, presents: Seq<bool>, j: int)
    requires
        0 <= j < presents.len(),
    ensures
        spec_grid_writes(l, parent, presents).len() == presents.len(),
        spec_grid_writes(l, parent, presents)[j] == NodeEvent::SetChildBounds(
            j as usize,
            l.spec_cell_bounds(parent, j as usize),
            presents[j],
        ),
{
}

/// In the reads and writes of an absolute layout, the `j`-th constraint
/// reads the bounds of the child it names and, when that child is there
/// with bounds `cur`, writes it right after the read the bounds the
/// constraint gives a child with bounds `cur`.
pub proof fn lemma_absolute_write_follows_read(
    entries: Seq<(usize, SizeConstraint)>,
    reads: Seq<Option<Bounds>>,
    presents: Seq<bool>,
    j: int,
    cur: Bounds,
)
    requires
        entries.len() == reads.len(),
        reads.len() == presents.len(),
        0 <= j < reads.len(),
        reads[j] == Some(cur),
    ensures
        exists|q: int| {
            &&& 0 <= q && q + 1 < spec_absolute_steps(entries, reads, presents).len()
            &&& #[trigger] spec_absolute_steps(entries, reads, presents)[q] == NodeEvent::ReadChildBounds(entries[j].0, Some(cur))
            &&& spec_absolute_steps(entries, reads, presents)[q + 1] == NodeEvent::SetChildBounds(
                entries[j].0,
                spec_constrained_bounds(entries[j].1, cur),
                presents[j],
            )
        },
    decreases entries.len(),
{
    let n = entries.len();
    let front = spec_absolute_steps(entries.drop_last(), reads.drop_last(), presents.drop_last());
    let last = spec_absolute_step(entries.last(), reads.last(), presents.last());
    let all = spec_absolute_steps(entries, reads, presents);
    assert(all == front + last);
    if j == n - 1 {
        let q = front.len() as int;
        assert(all[q] == last[0]);
        assert(all[q + 1] == last[1]);
    } else {
        lemma_absolute_write_follows_read(entries.drop_last(), reads.drop_last(), presents.drop_last(), j, cur);
        let q = choose|q: int| {
            &&& 0 <= q && q + 1 < front.len()
            &&& #[trigger] front[q] == NodeEvent::ReadChildBounds(entries.drop_last()[j].0, Some(cur))
            &&& front[q + 1] == NodeEvent::SetChildBounds(
                entries.drop_last()[j].0,
                spec_constrained_bounds(entries.drop_last()[j].1, cur),
                presents.drop_last()[j],
            )
        };
        assert(all[q] == front[q]);
        assert(all[q + 1] == front[q + 1]);
    }
}

} // verus!
