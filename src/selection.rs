//! State of a selection in the grid.
//!
//! A selection starts when the pointer is pressed and follows the pointer while it is
//! dragged. It is cleared when text is added, removed or scrolled on the screen, and
//! when the user clicks off of it.
use crate::index::{Column, Line, Linear, Point, Side};
use core::ops::RangeInclusive;
use vstd::prelude::*;

verus! {

/// The area selected.
///
/// The start endpoint stays where the selection began; every later update moves the
/// end endpoint.
#[derive(Debug)]
pub enum Selection {
    /// No current selection, or the start of one.
    Empty,
    Active { start: Point, end: Point, start_side: Side, end_side: Side },
}

/// How to interpret the boundary cells of a [`Span`].
#[derive(Clone, Copy, Debug, PartialEq, Eq, Structural)]
pub enum SpanType {
    /// Includes the front and tail cells.
    Inclusive,
    /// Excludes both the front and the tail cell.
    Exclusive,
    /// Excludes the tail cell.
    ExcludeTail,
    /// Excludes the front cell.
    ExcludeFront,
}

/// A span of selected cells, from `front` to `tail` in reading order.
///
/// A span that [`Selection::span`] returns never has its tail before its front.
#[derive(Clone, Copy, Debug, PartialEq, Eq, Structural)]
pub struct Span {
    pub front: Point,
    pub tail: Point,
    /// Whether the boundary cells are included.
    pub ty: SpanType,
}

/// The endpoints of an active selection put in reading order, each with its side.
pub open spec fn ordered(start: Point, end: Point, start_side: Side, end_side: Side) -> (
    Point,
    Point,
    Side,
    Side,
) {
    if end.before(start) {
        (end, start, end_side, start_side)
    } else {
        (start, end, start_side, end_side)
    }
}

/// Which boundary cells are covered, given the sides of the front and the tail.
pub open spec fn span_type_of(front_side: Side, tail_side: Side) -> SpanType {
    match (front_side, tail_side) {
        (Side::Left, Side::Right) => SpanType::Inclusive,
        (Side::Right, Side::Left) => SpanType::Exclusive,
        (Side::Left, Side::Left) => SpanType::ExcludeTail,
        (Side::Right, Side::Right) => SpanType::ExcludeFront,
    }
}

/// The empty seam between two neighbouring cells of one line: `[ F][T ]`.
pub open spec fn is_seam(front: Point, tail: Point, front_side: Side, tail_side: Side) -> bool {
    &&& front.line == tail.line
    &&& tail.col.0 == front.col.0 + 1
    &&& front_side == Side::Right
    &&& tail_side == Side::Left
}

/// What an active selection resolves to.
pub open spec fn resolve(start: Point, end: Point, start_side: Side, end_side: Side) -> Option<
    Span,
> {
    let (front, tail, front_side, tail_side) = ordered(start, end, start_side, end_side);
    if front == tail {
        if front_side != tail_side {
            Some(Span { front, tail, ty: SpanType::Inclusive })
        } else {
            None
        }
    } else if is_seam(front, tail, front_side, tail_side) {
        None
    } else {
        Some(Span { front, tail, ty: span_type_of(front_side, tail_side) })
    }
}

impl Selection {
    /// The selection after `update(location, side)`.
    pub open spec fn updated(self, location: Point, side: Side) -> Selection {
        match self {
            Selection::Empty => Selection::Active {
                start: location,
                end: location,
                start_side: side,
                end_side: side,
            },
            Selection::Active { start, start_side, .. } => Selection::Active {
                start,
                end: location,
                start_side,
                end_side: side,
            },
        }
    }

    /// The selection after `update` was called with each of `moves`, in order.
    pub open spec fn after_updates(self, moves: Seq<(Point, Side)>) -> Selection
        decreases moves.len(),
    {
        if moves.len() == 0 {
            self
        } else {
            self.after_updates(moves.drop_last()).updated(moves.last().0, moves.last().1)
        }
    }

    /// The selection after `clear()`: empty, whatever it was.
    pub open spec fn cleared(self) -> Selection {
        Selection::Empty
    }

    /// Whether nothing has been selected since the start or the last clear.
    pub open spec fn spec_is_empty(self) -> bool {
        self is Empty
    }

    /// What the selection currently covers: `None` when nothing is selected.
    pub open spec fn spec_span(self) -> Option<Span> {
        match self {
            Selection::Empty => None,
            Selection::Active { start, end, start_side, end_side } => resolve(
                start,
                end,
                start_side,
                end_side,
            ),
        }
    }

    /// A selection in its initial state, with nothing selected.
    #[inline]
    pub fn new() -> (r: Selection)
        ensures
            r == Selection::Empty,
    {
        Selection::Empty
    }

    /// Clears the active selection.
    pub fn clear(&mut self)
        ensures
            *final(self) == old(self).cleared(),
    {
        *self = Selection::Empty;
    }

    /// Whether nothing has been selected since the start or the last clear.
    pub fn is_empty(&self) -> (r: bool)
        ensures
            r == self.spec_is_empty(),
    {
        match *self {
            Selection::Empty => true,
            _ => false,
        }
    }

    /// Moves the end of the selection to `location`, or starts a selection there.
    pub fn update(&mut self, location: Point, side: Side)
        ensures
            *final(self) == old(self).updated(location, side),
    {
        let next = match *self {
            Selection::Empty => Selection::Active {
                start: location,
                end: location,
                start_side: side,
                end_side: side,
            },
            Selection::Active { start, start_side, .. } => Selection::Active {
                start,
                end: location,
                start_side,
                end_side: side,
            },
        };
        *self = next;
    }

    /// The cells selected, with the front put before the tail.
    pub fn span(&self) -> (r: Option<Span>)
        ensures
            r == self.spec_span(),
            r matches Some(s) ==> s.wf(),
    {
        match *self {
            Selection::Active { start, end, start_side, end_side } => {
                let (front, tail, front_side, tail_side) = if start > end {
                    // Selected upward: start and end change places.
                    (end, start, end_side, start_side)
                } else {
                    (start, end, start_side, end_side)
                };

                // A single cell is selected only where the pointer crossed its midpoint.
                if front == tail {
                    if front_side != tail_side {
                        return Some(Span { front, tail, ty: SpanType::Inclusive });
                    } else {
                        return None;
                    }
                }

                // Two neighbouring cells with nothing selected: [ B][E ] or [ E][B ].
                let adjacent = tail.line == front.line && tail.col.0 - front.col.0 == 1;
                if adjacent && front_side == Side::Right && tail_side == Side::Left {
                    return None;
                }

                let ty = match (front_side, tail_side) {
                    // [FX][XX][XT]
                    (Side::Left, Side::Right) => SpanType::Inclusive,
                    // [ F][XX][T ]
                    (Side::Right, Side::Left) => SpanType::Exclusive,
                    // [FX][XX][T ]
                    (Side::Left, Side::Left) => SpanType::ExcludeTail,
                    // [ F][XX][XT]
                    (Side::Right, Side::Right) => SpanType::ExcludeFront,
                };
                Some(Span { front, tail, ty })
            },
            Selection::Empty => None,
        }
    }
}

impl Default for Selection {
    fn default() -> (r: Selection)
        ensures
            r == Selection::Empty,
    {
        Selection::Empty
    }
}

/// The cell after `p` in reading order, in a grid of `width` columns.
pub open spec fn advance(p: Point, width: usize) -> Point {
    if p.col.0 + 1 == width {
        Point { line: Line((p.line.0 + 1) as usize), col: Column(0) }
    } else {
        Point { line: p.line, col: Column((p.col.0 + 1) as usize) }
    }
}

/// `advance(p, width)` is a point that fits the integer types.
pub open spec fn can_advance(p: Point, width: usize) -> bool {
    &&& p.col.0 < usize::MAX
    &&& p.col.0 + 1 == width ==> p.line.0 < usize::MAX
}

/// The cell before `p`: the first column steps back to the previous line, at column
/// `width`; the first cell of the grid stays where it is.
pub open spec fn retreat(p: Point, width: usize) -> Point {
    if p.col.0 == 0 && p.line.0 != 0 {
        Point { line: Line((p.line.0 - 1) as usize), col: Column(width) }
    } else if p.col.0 == 0 {
        p
    } else {
        Point { line: p.line, col: Column((p.col.0 - 1) as usize) }
    }
}

/// An offset one past `x`.
pub open spec fn exclude_start_of(x: int) -> int {
    x + 1
}

/// An offset one before `x`, never below zero.
pub open spec fn exclude_end_of(x: int) -> int {
    if x > 0 {
        x - 1
    } else {
        x
    }
}

impl Span {
    /// The front does not come after the tail.
    pub open spec fn wf(self) -> bool {
        !self.tail.before(self.front)
    }

    /// Whether the front cell is left out.
    pub open spec fn excludes_front(self) -> bool {
        self.ty == SpanType::Exclusive || self.ty == SpanType::ExcludeFront
    }

    /// Whether the tail cell is left out.
    pub open spec fn excludes_tail(self) -> bool {
        self.ty == SpanType::Exclusive || self.ty == SpanType::ExcludeTail
    }

    /// The first and last selected cells in a grid of `width` columns.
    pub open spec fn locations(self, width: usize) -> (Point, Point) {
        (
            if self.excludes_front() {
                advance(self.front, width)
            } else {
                self.front
            },
            if self.excludes_tail() {
                retreat(self.tail, width)
            } else {
                self.tail
            },
        )
    }

    /// The first and last selected offsets in a grid of `width` columns.
    pub open spec fn bounds(self, width: usize) -> (int, int) {
        let start = self.front.linear(width);
        let end = self.tail.linear(width);
        (
            if self.excludes_front() {
                exclude_start_of(start)
            } else {
                start
            },
            if self.excludes_tail() {
                exclude_end_of(end)
            } else {
                end
            },
        )
    }

    /// The first and last selected cells, in a grid of `cols` columns.
    pub fn to_locations(&self, cols: Column) -> (r: (Point, Point))
        requires
            self.excludes_front() ==> can_advance(self.front, cols.0),
        ensures
            r == self.locations(cols.0),
    {
        match self.ty {
            SpanType::Inclusive => (self.front, self.tail),
            SpanType::Exclusive => (Span::wrap_start(self.front, cols), Span::wrap_end(self.tail, cols)),
            SpanType::ExcludeFront => (Span::wrap_start(self.front, cols), self.tail),
            SpanType::ExcludeTail => (self.front, Span::wrap_end(self.tail, cols)),
        }
    }

    fn wrap_start(start: Point, cols: Column) -> (r: Point)
        requires
            can_advance(start, cols.0),
        ensures
            r == advance(start, cols.0),
    {
        if start.col.0 + 1 == cols.0 {
            Point { line: Line(start.line.0 + 1), col: Column(0) }
        } else {
            Point { line: start.line, col: Column(start.col.0 + 1) }
        }
    }

    fn wrap_end(end: Point, cols: Column) -> (r: Point)
        ensures
            r == retreat(end, cols.0),
    {
        if end.col.0 == 0 && end.line.0 != 0 {
            Point { line: Line(end.line.0 - 1), col: cols }
        } else if end.col.0 == 0 {
            end
        } else {
            Point { line: end.line, col: Column(end.col.0 - 1) }
        }
    }

    fn exclude_start(start: Linear) -> (r: Linear)
        requires
            start.0 < usize::MAX,
        ensures
            r.0 == exclude_start_of(start.0 as int),
    {
        Linear(start.0 + 1)
    }

    fn exclude_end(end: Linear) -> (r: Linear)
        ensures
            r.0 == exclude_end_of(end.0 as int),
    {
        if end.0 > 0 {
            Linear(end.0 - 1)
        } else {
            end
        }
    }

    /// The offsets of the cells from `to_range(cols)` fit in a `usize`.
    pub open spec fn range_fits(self, width: usize) -> bool {
        &&& self.front.linear(width) <= usize::MAX
        &&& self.tail.linear(width) <= usize::MAX
        &&& self.excludes_front() ==> self.front.linear(width) < usize::MAX
    }

    /// The selected cells as an inclusive range of offsets, in a grid of `cols` columns.
    pub fn to_range(&self, cols: Column) -> (r: RangeInclusive<Linear>)
        requires
            self.range_fits(cols.0),
        ensures
            r@.start.0 == self.bounds(cols.0).0,
            r@.end.0 == self.bounds(cols.0).1,
            !r@.exhausted,
    {
        let front_line = self.front.line.0;
        let tail_line = self.tail.line.0;
        proof {
            assert(0 <= front_line * cols.0) by (nonlinear_arith);
            assert(0 <= tail_line * cols.0) by (nonlinear_arith);
        }
        let start = Linear(front_line * cols.0 + self.front.col.0);
        let end = Linear(tail_line * cols.0 + self.tail.col.0);

        let (start, end) = match self.ty {
            SpanType::Inclusive => (start, end),
            SpanType::Exclusive => (Span::exclude_start(start), Span::exclude_end(end)),
            SpanType::ExcludeFront => (Span::exclude_start(start), end),
            SpanType::ExcludeTail => (start, Span::exclude_end(end)),
        };
        RangeInclusive::new(start, end)
    }
}

/// Updating twice with the same point and side leaves nothing selected, when the
/// selection starts there (it was empty, or began at that point on that side).
pub proof fn lemma_same_update_twice_selects_nothing(sel: Selection, p: Point, s: Side)
    requires
        sel is Empty || (sel->start == p && sel->start_side == s),
    ensures
        sel.updated(p, s).updated(p, s).spec_span() is None,
{
}

/// Crossing the midpoint of one cell, in either direction, selects exactly that cell,
/// when the selection starts there.
pub proof fn lemma_one_cell_crossed(sel: Selection, p: Point, first: Side, second: Side)
    requires
        first != second,
        sel is Empty || (sel->start == p && sel->start_side == first),
    ensures
        sel.updated(p, first).updated(p, second).spec_span() == Some(
            Span { front: p, tail: p, ty: SpanType::Inclusive },
        ),
{
}

/// On one line, from the right half of column `c` to the left half of column `c + 1`,
/// nothing is selected, when the selection starts at the first of the two.
pub proof fn lemma_seam_selects_nothing(sel: Selection, line: Line, c: usize)
    requires
        c < usize::MAX,
        sel is Empty || (sel->start == (Point { line, col: Column(c) })
            && sel->start_side == Side::Right),
    ensures
        sel.updated(Point { line, col: Column(c) }, Side::Right).updated(
            Point { line, col: Column((c + 1) as usize) },
            Side::Left,
        ).spec_span() is None,
{
}

/// On one line, from the left half of column `c + 1` back to the right half of column
/// `c`, nothing is selected, when the selection starts at the first of the two.
pub proof fn lemma_seam_reversed_selects_nothing(sel: Selection, line: Line, c: usize)
    requires
        c < usize::MAX,
        sel is Empty || (sel->start == (Point { line, col: Column((c + 1) as usize) })
            && sel->start_side == Side::Left),
    ensures
        sel.updated(Point { line, col: Column((c + 1) as usize) }, Side::Left).updated(
            Point { line, col: Column(c) },
            Side::Right,
        ).spec_span() is None,
{
}

/// Whatever sequence of updates was made, a resolved span never has its tail before
/// its front.
pub proof fn lemma_span_ordered(sel: Selection, moves: Seq<(Point, Side)>)
    ensures
        sel.after_updates(moves).spec_span() matches Some(sp) ==> sp.wf(),
{
}

/// Converting one span twice, for one width, gives the same result.
pub proof fn lemma_conversions_deterministic(
    span: Span,
    cols: Column,
    l1: (Point, Point),
    l2: (Point, Point),
    r1: RangeInclusive<Linear>,
    r2: RangeInclusive<Linear>,
)
    requires
        call_ensures(Span::to_locations, (&span, cols), l1),
        call_ensures(Span::to_locations, (&span, cols), l2),
        call_ensures(Span::to_range, (&span, cols), r1),
        call_ensures(Span::to_range, (&span, cols), r2),
    ensures
        l1 == l2,
        r1@ == r2@,
{
}

/// After a clear, from any state, the selection is empty and selects nothing.
pub proof fn lemma_clear_empties(sel: Selection)
    ensures
        sel.cleared().spec_is_empty(),
        sel.cleared().spec_span() is None,
{
}

} // verus!
