//! Interactive moves and resizes.
use vstd::prelude::*;
use crate::float::F64;
use crate::geometry::{max_i32, min_i32, greater, lesser, Point, Size};
use crate::layout::{released, LayoutWindowState};
use crate::state::Window;

verus! {

/// The edges of a window that a resize moves.
#[derive(Clone, Copy, Debug, PartialEq, Eq, Structural)]
pub struct ResizeEdge {
    pub top: bool,
    pub bottom: bool,
    pub left: bool,
    pub right: bool,
}

/// 1 for true, 0 for false.
pub open spec fn bit(b: bool) -> int {
    if b {
        1
    } else {
        0
    }
}

/// The shape of the cursor.
#[derive(Clone, Copy, Debug, PartialEq, Eq, Structural)]
pub enum CursorIcon {
    Default,
    AllScroll,
    NResize,
    SResize,
    WResize,
    EResize,
    NwResize,
    NeResize,
    SwResize,
    SeResize,
}

/// The edge of a window that an X11 client names.
#[derive(Clone, Copy, Debug, PartialEq, Eq, Structural)]
pub enum X11ResizeEdge {
    Bottom,
    BottomLeft,
    BottomRight,
    Left,
    Right,
    Top,
    TopLeft,
    TopRight,
}

impl ResizeEdge {
    pub open spec fn none() -> ResizeEdge {
        ResizeEdge { top: false, bottom: false, left: false, right: false }
    }

    /// The number of the edges: top counts 1, bottom 2, left 4, right 8.
    pub open spec fn number(self) -> int {
        bit(self.top) + 2 * bit(self.bottom) + 4 * bit(self.left) + 8 * bit(self.right)
    }

    /// The edges with this number.
    pub open spec fn numbered(n: int) -> ResizeEdge {
        ResizeEdge {
            top: n % 2 == 1,
            bottom: (n / 2) % 2 == 1,
            left: (n / 4) % 2 == 1,
            right: (n / 8) % 2 == 1,
        }
    }

    /// No edge at all.
    pub fn empty() -> (e: ResizeEdge)
        ensures
            e == ResizeEdge::none(),
    {
        ResizeEdge { top: false, bottom: false, left: false, right: false }
    }

    /// The number of the edges.
    pub fn bits(&self) -> (n: u32)
        ensures
            n == self.number(),
    {
        let mut n: u32 = 0;
        if self.top {
            n = n + 1;
        }
        if self.bottom {
            n = n + 2;
        }
        if self.left {
            n = n + 4;
        }
        if self.right {
            n = n + 8;
        }
        n
    }

    /// The edges with this number, if there are any.
    pub fn from_bits(n: u32) -> (r: Option<ResizeEdge>)
        ensures
            r == (if n < 16 {
                Some(ResizeEdge::numbered(n as int))
            } else {
                None
            }),
    {
        if n < 16 {
            Some(
                ResizeEdge {
                    top: n % 2 == 1,
                    bottom: (n / 2) % 2 == 1,
                    left: (n / 4) % 2 == 1,
                    right: (n / 8) % 2 == 1,
                },
            )
        } else {
            None
        }
    }

    /// The edges that a client names by a protocol value; none for a value out of range.
    pub open spec fn of_protocol(n: u32) -> ResizeEdge {
        if n < 16 {
            ResizeEdge::numbered(n as int)
        } else {
            ResizeEdge::none()
        }
    }

    /// The edges that a client names by a protocol value.
    pub fn from_protocol(n: u32) -> (e: ResizeEdge)
        ensures
            e == ResizeEdge::of_protocol(n),
    {
        match ResizeEdge::from_bits(n) {
            Some(e) => e,
            None => ResizeEdge::empty(),
        }
    }

    /// Whether the edges are opposite ones, which the protocol has no value for.
    pub open spec fn opposed(self) -> bool {
        (self.top && self.bottom) || (self.left && self.right)
    }

    /// The protocol value of the edges; that of none for opposite edges.
    pub fn to_protocol(&self) -> (n: u32)
        ensures
            n == (if self.opposed() {
                0
            } else {
                self.number()
            }),
    {
        if (self.top && self.bottom) || (self.left && self.right) {
            0
        } else {
            self.bits()
        }
    }

    /// Whether the two have an edge in common.
    pub open spec fn meets(self, other: ResizeEdge) -> bool {
        (self.top && other.top) || (self.bottom && other.bottom) || (self.left && other.left) || (
        self.right && other.right)
    }

    /// Whether the two have an edge in common.
    pub fn intersects(&self, other: ResizeEdge) -> (r: bool)
        ensures
            r == self.meets(other),
    {
        (self.top && other.top) || (self.bottom && other.bottom) || (self.left && other.left) || (
        self.right && other.right)
    }

    /// Whether there is no edge.
    pub fn is_empty(&self) -> (r: bool)
        ensures
            r == (*self == ResizeEdge::none()),
    {
        !self.top && !self.bottom && !self.left && !self.right
    }

    pub open spec fn icon(self) -> CursorIcon {
        if self.opposed() {
            CursorIcon::Default
        } else if self.top && self.left {
            CursorIcon::NwResize
        } else if self.top && self.right {
            CursorIcon::NeResize
        } else if self.bottom && self.left {
            CursorIcon::SwResize
        } else if self.bottom && self.right {
            CursorIcon::SeResize
        } else if self.top {
            CursorIcon::NResize
        } else if self.bottom {
            CursorIcon::SResize
        } else if self.left {
            CursorIcon::WResize
        } else if self.right {
            CursorIcon::EResize
        } else {
            CursorIcon::Default
        }
    }

    /// The cursor that shows which way the edges move.
    pub fn cursor_icon(self) -> (i: CursorIcon)
        ensures
            i == self.icon(),
    {
        match self.bits() {
            4 => CursorIcon::WResize,
            8 => CursorIcon::EResize,
            1 => CursorIcon::NResize,
            2 => CursorIcon::SResize,
            5 => CursorIcon::NwResize,
            9 => CursorIcon::NeResize,
            10 => CursorIcon::SeResize,
            6 => CursorIcon::SwResize,
            _ => CursorIcon::Default,
        }
    }

    pub open spec fn of_x11(edge: X11ResizeEdge) -> ResizeEdge {
        ResizeEdge {
            top: edge is Top || edge is TopLeft || edge is TopRight,
            bottom: edge is Bottom || edge is BottomLeft || edge is BottomRight,
            left: edge is Left || edge is TopLeft || edge is BottomLeft,
            right: edge is Right || edge is TopRight || edge is BottomRight,
        }
    }

    /// The edges that an X11 client names.
    pub fn from_x11(edge: X11ResizeEdge) -> (e: ResizeEdge)
        ensures
            e == ResizeEdge::of_x11(edge),
    {
        let (top, bottom, left, right) = match edge {
            X11ResizeEdge::Bottom => (false, true, false, false),
            X11ResizeEdge::BottomLeft => (false, true, true, false),
            X11ResizeEdge::BottomRight => (false, true, false, true),
            X11ResizeEdge::Left => (false, false, true, false),
            X11ResizeEdge::Right => (false, false, false, true),
            X11ResizeEdge::Top => (true, false, false, false),
            X11ResizeEdge::TopLeft => (true, false, true, false),
            X11ResizeEdge::TopRight => (true, false, false, true),
        };
        ResizeEdge { top, bottom, left, right }
    }
}

/// Edges are their number, and a number is its edges.
pub proof fn edges_are_numbers(e: ResizeEdge, n: int)
    requires
        0 <= n < 16,
    ensures
        0 <= e.number() < 16,
        ResizeEdge::numbered(e.number()) == e,
        ResizeEdge::numbered(n).number() == n,
{
}

/// Where a resize began.
#[derive(Clone, Copy, Debug, PartialEq, Eq, Structural)]
pub struct ResizeData {
    /// The edges the surface is being resized with.
    pub edges: ResizeEdge,
    /// The initial window location.
    pub initial_window_location: Point,
    /// The initial window size (geometry width and height).
    pub initial_window_size: Size,
}

/// State of the resize operation.
#[derive(Clone, Copy, Debug, PartialEq, Eq, Structural)]
pub enum ResizeState {
    /// The surface is not being resized.
    NotResizing,
    /// The surface is currently being resized.
    Resizing(ResizeData),
    /// The resize has finished, and the surface needs to ack the final configure.
    WaitingForFinalAck(ResizeData, u32),
    /// The resize has finished, and the surface needs to commit its final state.
    WaitingForCommit(ResizeData),
}

/// Whether the serial `a` is `b` or comes after it. Serials go round: where two
/// are half the range or more apart, the smaller number is the later one.
pub open spec fn no_older(a: u32, b: u32) -> bool {
    let distance = if a > b {
        a - b
    } else {
        b - a
    };
    if distance < 0x7fff_ffff {
        a >= b
    } else {
        b >= a
    }
}

/// Whether the serial `a` is `b` or comes after it.
pub fn is_no_older(a: u32, b: u32) -> (r: bool)
    ensures
        r == no_older(a, b),
{
    let distance: u32 = if a > b {
        a - b
    } else {
        b - a
    };
    if distance < 0x7fff_ffff {
        a >= b
    } else {
        b >= a
    }
}

impl ResizeState {
    pub open spec fn released(self, serial: u32) -> ResizeState {
        match self {
            ResizeState::Resizing(data) => ResizeState::WaitingForFinalAck(data, serial),
            _ => ResizeState::NotResizing,
        }
    }

    pub open spec fn released_x11(self) -> ResizeState {
        match self {
            ResizeState::Resizing(data) => ResizeState::WaitingForCommit(data),
            _ => ResizeState::NotResizing,
        }
    }

    pub open spec fn acked(self, serial: u32, was_resizing: bool) -> ResizeState {
        match self {
            ResizeState::WaitingForFinalAck(data, last) => if no_older(serial, last) && was_resizing {
                ResizeState::WaitingForCommit(data)
            } else {
                self
            },
            _ => self,
        }
    }

    /// The resize of a Wayland window was let go: its last configure is to be
    /// acknowledged. A state that no resize leads to is reset.
    pub fn release(&mut self, serial: u32)
        ensures
            *final(self) == old(self).released(serial),
    {
        let state = *self;
        *self = match state {
            ResizeState::Resizing(data) => ResizeState::WaitingForFinalAck(data, serial),
            _ => ResizeState::NotResizing,
        };
    }

    /// The resize of an X11 window was let go: there is nothing to acknowledge.
    pub fn release_x11(&mut self)
        ensures
            *final(self) == old(self).released_x11(),
    {
        let state = *self;
        *self = match state {
            ResizeState::Resizing(data) => ResizeState::WaitingForCommit(data),
            _ => ResizeState::NotResizing,
        };
    }

    /// The client acknowledged a configure. `was_resizing` tells whether the
    /// one it had acknowledged before said that a resize was going on.
    pub fn ack_configure(&mut self, serial: u32, was_resizing: bool)
        ensures
            *final(self) == old(self).acked(serial, was_resizing),
    {
        let state = *self;
        match state {
            ResizeState::WaitingForFinalAck(data, last) => {
                if is_no_older(serial, last) && was_resizing {
                    *self = ResizeState::WaitingForCommit(data);
                }
            },
            _ => {},
        }
    }
}

/// A resize that runs its course waits for the acknowledgement of the configure
/// that ended it, and keeps what it began with all along.
pub proof fn resize_runs_its_course(data: ResizeData, serial: u32, ack: u32)
    ensures
        ResizeState::Resizing(data).released(serial).acked(ack, true) == (if no_older(ack, serial) {
            ResizeState::WaitingForCommit(data)
        } else {
            ResizeState::WaitingForFinalAck(data, serial)
        }),
        no_older(serial, serial),
        ResizeState::Resizing(data).acked(ack, true) == ResizeState::Resizing(data),
        ResizeState::NotResizing.released(serial) == ResizeState::NotResizing,
{
}

/// Which way a dragged distance counts for the size of a window.
#[derive(Clone, Copy, Debug, PartialEq, Eq, Structural)]
pub enum DragAxis {
    /// Not at all.
    Fixed,
    /// Away from the window's origin is larger.
    Forward,
    /// Towards the window's origin is larger.
    Backward,
}

/// How a drag at these edges changes the width.
pub fn horizontal_drag(edges: ResizeEdge) -> (a: DragAxis)
    ensures
        a == (if edges.left {
            DragAxis::Backward
        } else if edges.right {
            DragAxis::Forward
        } else {
            DragAxis::Fixed
        }),
{
    if edges.left {
        DragAxis::Backward
    } else if edges.right {
        DragAxis::Forward
    } else {
        DragAxis::Fixed
    }
}

/// How a drag at these edges changes the height.
pub fn vertical_drag(edges: ResizeEdge) -> (a: DragAxis)
    ensures
        a == (if edges.top {
            DragAxis::Backward
        } else if edges.bottom {
            DragAxis::Forward
        } else {
            DragAxis::Fixed
        }),
{
    if edges.top {
        DragAxis::Backward
    } else if edges.bottom {
        DragAxis::Forward
    } else {
        DragAxis::Fixed
    }
}

/// A length within the limits of a client: at least 1 and `min`, at most `max`,
/// which 0 leaves open. Where the limits contradict, `max` holds.
pub open spec fn limited(length: int, min: int, max: int) -> int {
    lesser(
        greater(length, greater(min, 1)),
        if max == 0 {
            i32::MAX as int
        } else {
            max
        },
    )
}

fn limit(length: i32, min: i32, max: i32) -> (r: i32)
    ensures
        r == limited(length as int, min as int, max as int),
{
    let low: i32 = max_i32(min, 1);
    let high: i32 = if max == 0 {
        i32::MAX
    } else {
        max
    };
    min_i32(max_i32(length, low), high)
}

/// The size that a window is asked for while it is dragged by its edges:
/// `dragged` in the directions that move, the initial size in the others, both
/// within the client's limits.
pub fn resized(edges: ResizeEdge, initial: Size, dragged: Size, min: Size, max: Size) -> (r: Size)
    ensures
        r.w == limited(
            if edges.left || edges.right {
                dragged.w as int
            } else {
                initial.w as int
            },
            min.w as int,
            max.w as int,
        ),
        r.h == limited(
            if edges.top || edges.bottom {
                dragged.h as int
            } else {
                initial.h as int
            },
            min.h as int,
            max.h as int,
        ),
{
    let w: i32 = if edges.left || edges.right {
        dragged.w
    } else {
        initial.w
    };
    let h: i32 = if edges.top || edges.bottom {
        dragged.h
    } else {
        initial.h
    };
    Size { w: limit(w, min.w, max.w), h: limit(h, min.h, max.h) }
}

/// A client's limits, where they do not contradict, hold of every size that it
/// is asked for, and no size is below 1.
pub proof fn limits_hold(length: int, min: int, max: int)
    requires
        length <= i32::MAX,
        max == 0 || greater(min, 1) <= max,
        min <= i32::MAX,
        max >= 0,
    ensures
        1 <= limited(length, min, max),
        min <= limited(length, min, max),
        max != 0 ==> limited(length, min, max) <= max,
{
}

/// Where a window goes whose left or top edge was dragged, so that the opposite
/// edge stays: `None` where neither was.
pub open spec fn anchored(data: ResizeData, location: Point, size: Size) -> Option<Point> {
    if data.edges.left || data.edges.top {
        Some(
            Point {
                x: if data.edges.left {
                    (data.initial_window_location.x + (data.initial_window_size.w - size.w)) as i32
                } else {
                    location.x
                },
                y: if data.edges.top {
                    (data.initial_window_location.y + (data.initial_window_size.h - size.h)) as i32
                } else {
                    location.y
                },
            },
        )
    } else {
        None
    }
}

/// Whether the anchored location can be computed.
pub open spec fn anchor_fits(data: ResizeData, size: Size) -> bool {
    let dw = data.initial_window_size.w - size.w;
    let dh = data.initial_window_size.h - size.h;
    &&& data.edges.left ==> i32::MIN <= dw <= i32::MAX && i32::MIN
        <= data.initial_window_location.x + dw <= i32::MAX
    &&& data.edges.top ==> i32::MIN <= dh <= i32::MAX && i32::MIN
        <= data.initial_window_location.y + dh <= i32::MAX
}

/// Where a window of this size goes while or after its left or top edge was
/// dragged.
pub fn anchored_location(data: &ResizeData, location: Point, size: Size) -> (r: Option<Point>)
    requires
        anchor_fits(*data, size),
    ensures
        r == anchored(*data, location, size),
{
    if !data.edges.left && !data.edges.top {
        return None;
    }
    let mut to = location;
    if data.edges.left {
        to.x = data.initial_window_location.x + (data.initial_window_size.w - size.w);
    }
    if data.edges.top {
        to.y = data.initial_window_location.y + (data.initial_window_size.h - size.h);
    }
    Some(to)
}

/// The edge opposite to a dragged one stays where it was.
pub proof fn opposite_edges_stay(data: ResizeData, location: Point, size: Size)
    requires
        anchor_fits(data, size),
    ensures
        data.edges.left ==> anchored(data, location, size)->0.x + size.w
            == data.initial_window_location.x + data.initial_window_size.w,
        data.edges.top ==> anchored(data, location, size)->0.y + size.h
            == data.initial_window_location.y + data.initial_window_size.h,
{
}

/// The bits of 100, the least width of a column that is dragged.
pub const MIN_COLUMN_BITS: u64 = 0x4059_0000_0000_0000;

/// The bits of 4000, the largest width of a column that is dragged.
pub const MAX_COLUMN_BITS: u64 = 0x40AF_4000_0000_0000;

/// The width of a column whose edge was dragged to `width`.
pub fn dragged_column_width(width: F64) -> (r: F64)
    ensures
        r == width.clamped(F64 { bits: MIN_COLUMN_BITS }, F64 { bits: MAX_COLUMN_BITS }),
{
    width.clamp(F64 { bits: MIN_COLUMN_BITS }, F64 { bits: MAX_COLUMN_BITS })
}

/// Where a dragged window goes: the place that it was dragged to, rounded.
pub fn dragged_location(x: F64, y: F64) -> (p: Point)
    ensures
        p == (Point { x: x.rounded() as i32, y: y.rounded() as i32 }),
{
    Point { x: x.round_i32(), y: y.round_i32() }
}

/// What happens to a drag of a window.
#[derive(Clone, Copy, Debug, PartialEq, Eq, Structural)]
pub enum GrabStep {
    /// The drag goes on.
    Keep,
    /// The drag goes on, and the layout is to be arranged anew.
    Arrange,
    /// The drag is over; nothing is left to do.
    Release,
    /// The drag is over; the window takes the slot under it.
    ReleaseIntoLayout,
}

/// The pointer moved while a window is dragged: a window that is gone ends it.
pub fn on_drag_motion(alive: bool) -> (s: GrabStep)
    ensures
        s == (if alive {
            GrabStep::Keep
        } else {
            GrabStep::Release
        }),
{
    if alive {
        GrabStep::Keep
    } else {
        GrabStep::Release
    }
}

/// A button changed while a window is dragged: with the last one the drag ends.
pub fn on_drag_button(buttons_held: usize, within_layout: bool) -> (s: GrabStep)
    ensures
        s == (if buttons_held > 0 {
            GrabStep::Keep
        } else if within_layout {
            GrabStep::ReleaseIntoLayout
        } else {
            GrabStep::Release
        }),
{
    if buttons_held > 0 {
        GrabStep::Keep
    } else if within_layout {
        GrabStep::ReleaseIntoLayout
    } else {
        GrabStep::Release
    }
}

/// A drag of a window's edge within the layout: the window takes the width that
/// it was dragged to and the layout is arranged anew; a window that is gone ends
/// the drag.
pub fn drag_column(window: &mut Window, alive: bool, width: F64) -> (s: GrabStep)
    ensures
        s == (if alive {
            GrabStep::Arrange
        } else {
            GrabStep::Release
        }),
        *final(window) == (if alive {
            Window {
                layout: LayoutWindowState {
                    width_override: Some(
                        width.clamped(F64 { bits: MIN_COLUMN_BITS }, F64 { bits: MAX_COLUMN_BITS }),
                    ),
                    ..old(window).layout
                },
                ..*old(window)
            }
        } else {
            *old(window)
        }),
{
    if alive {
        window.layout.width_override = Some(dragged_column_width(width));
        GrabStep::Arrange
    } else {
        GrabStep::Release
    }
}

/// A drag of a window by its edges, with the pointer or with a finger.
#[derive(Clone, Copy, Debug, PartialEq, Eq, Structural)]
pub struct ResizeGrab {
    pub data: ResizeData,
    /// The size that the client was asked for last.
    pub last_window_size: Size,
}

/// What the end of a resize asks for.
#[derive(Clone, Copy, Debug, PartialEq, Eq, Structural)]
pub struct ResizeEnd {
    /// Whether the drag is over.
    pub release: bool,
    /// The last size that the client is asked for.
    pub size: Option<Size>,
    /// Where the window goes.
    pub to: Option<Point>,
}

/// What is known of a window whose edges are let go.
#[derive(Clone, Copy, Debug, PartialEq, Eq, Structural)]
pub struct ReleaseFacts {
    pub alive: bool,
    pub x11: bool,
    /// Whether there is a surface that keeps a state of the resize.
    pub has_surface: bool,
    /// Where the window is, if it is shown.
    pub location: Option<Point>,
    /// The size that it has.
    pub size: Size,
}

impl ReleaseFacts {
    /// An X11 window that is not shown any more has nothing left to do.
    pub open spec fn is_over(self) -> bool {
        !self.alive || (self.x11 && self.location is None)
    }
}

impl ResizeGrab {
    /// A drag that begins, before any motion.
    pub open spec fn begun(data: ResizeData) -> ResizeGrab {
        ResizeGrab { data, last_window_size: data.initial_window_size }
    }

    /// A drag that begins.
    pub fn new(edges: ResizeEdge, location: Point, size: Size) -> (g: ResizeGrab)
        ensures
            g == (ResizeGrab {
                data: ResizeData {
                    edges,
                    initial_window_location: location,
                    initial_window_size: size,
                },
                last_window_size: size,
            }),
    {
        ResizeGrab {
            data: ResizeData {
                edges,
                initial_window_location: location,
                initial_window_size: size,
            },
            last_window_size: size,
        }
    }

    pub open spec fn sized(self, dragged: Size, min: Size, max: Size) -> Size {
        let edges = self.data.edges;
        Size {
            w: limited(
                if edges.left || edges.right {
                    dragged.w as int
                } else {
                    self.data.initial_window_size.w as int
                },
                min.w as int,
                max.w as int,
            ) as i32,
            h: limited(
                if edges.top || edges.bottom {
                    dragged.h as int
                } else {
                    self.data.initial_window_size.h as int
                },
                min.h as int,
                max.h as int,
            ) as i32,
        }
    }

    /// The edges were dragged. The client is asked for the size that is then the
    /// last one; a window that is gone ends the drag.
    pub fn motion(&mut self, alive: bool, dragged: Size, min: Size, max: Size) -> (s: GrabStep)
        ensures
            s == (if alive {
                GrabStep::Keep
            } else {
                GrabStep::Release
            }),
            *final(self) == (if alive {
                ResizeGrab { last_window_size: old(self).sized(dragged, min, max), ..*old(self) }
            } else {
                *old(self)
            }),
    {
        if alive {
            self.last_window_size = resized(
                self.data.edges,
                self.data.initial_window_size,
                dragged,
                min,
                max,
            );
        }
        on_drag_motion(alive)
    }

    /// A button or finger was let go, and this many are still down.
    pub fn button(
        &self,
        held: usize,
        facts: &ReleaseFacts,
        state: &mut ResizeState,
        serial: u32,
    ) -> (end: ResizeEnd)
        requires
            anchor_fits(self.data, facts.size),
        ensures
            end.release == (held == 0),
            held > 0 || facts.is_over() ==> end.size is None && end.to is None && *final(state)
                == *old(state),
            held == 0 && !facts.is_over() ==> {
                &&& end.size == Some(self.last_window_size)
                &&& end.to == (match facts.location {
                    Some(location) => anchored(self.data, location, facts.size),
                    None => None,
                })
                &&& *final(state) == (if !facts.has_surface {
                    *old(state)
                } else if facts.x11 {
                    old(state).released_x11()
                } else {
                    old(state).released(serial)
                })
            },
    {
        if held > 0 {
            return ResizeEnd { release: false, size: None, to: None };
        }
        if !facts.alive || (facts.x11 && facts.location.is_none()) {
            return ResizeEnd { release: true, size: None, to: None };
        }
        let to = match facts.location {
            Some(location) => anchored_location(&self.data, location, facts.size),
            None => None,
        };
        if facts.has_surface {
            if facts.x11 {
                state.release_x11();
            } else {
                state.release(serial);
            }
        }
        ResizeEnd { release: true, size: Some(self.last_window_size), to }
    }
}

/// Whether a touch event is about the finger that started a grab.
pub fn is_grabbing_finger(start_slot: Option<u32>, slot: Option<u32>) -> (r: bool)
    ensures
        r == (start_slot == slot),
{
    match (start_slot, slot) {
        (Some(a), Some(b)) => a == b,
        (None, None) => true,
        _ => false,
    }
}

/// A window that is taken out of the layout while it is dragged.
pub open spec fn detached(w: Window) -> Window {
    Window {
        layout: LayoutWindowState {
            is_floating: true,
            move_anim: None,
            target: None,
            ..w.layout
        },
        ..w
    }
}

/// Takes a window out of the layout while it is dragged.
pub fn detach_from_layout(window: &mut Window)
    ensures
        *final(window) == detached(*old(window)),
{
    window.layout.is_floating = true;
    window.layout.move_anim = None;
    window.layout.target = None;
}

/// Puts a window whose drag was cancelled back into the layout.
pub fn attach_to_layout(window: &mut Window)
    ensures
        *final(window) == released(*old(window)),
{
    window.layout.is_floating = false;
    window.layout.move_anim = None;
    window.layout.target = None;
}

/// A dragged window is in the layout again when the drag is cancelled.
pub proof fn cancelled_drag_returns(window: Window)
    requires
        !window.layout.is_floating,
    ensures
        released(detached(window)) == (Window {
            layout: LayoutWindowState { move_anim: None, target: None, ..window.layout },
            ..window
        }),
{
}

/// The cursor points where the dragged edges are: north for the top, south for
/// the bottom, west for the left and east for the right, and between two of them
/// at a corner. Without an edge, or with two opposite ones, it is as always.
pub proof fn cursors_point_to_the_edges(e: ResizeEdge)
    ensures
        e.top && !e.bottom && !e.left && !e.right <==> e.icon() is NResize,
        !e.top && e.bottom && !e.left && !e.right <==> e.icon() is SResize,
        !e.top && !e.bottom && e.left && !e.right <==> e.icon() is WResize,
        !e.top && !e.bottom && !e.left && e.right <==> e.icon() is EResize,
        e.top && !e.bottom && e.left && !e.right <==> e.icon() is NwResize,
        e.top && !e.bottom && !e.left && e.right <==> e.icon() is NeResize,
        !e.top && e.bottom && e.left && !e.right <==> e.icon() is SwResize,
        !e.top && e.bottom && !e.left && e.right <==> e.icon() is SeResize,
        !(e.icon() is AllScroll),
{
}

/// An edge that X11 names is the edge of the same name, a corner both its edges.
pub proof fn named_edges_are_their_edges(e: X11ResizeEdge)
    ensures
        e is Top ==> ResizeEdge::of_x11(e) == (ResizeEdge {
            top: true,
            bottom: false,
            left: false,
            right: false,
        }),
        e is Bottom ==> ResizeEdge::of_x11(e) == (ResizeEdge {
            top: false,
            bottom: true,
            left: false,
            right: false,
        }),
        e is Left ==> ResizeEdge::of_x11(e) == (ResizeEdge {
            top: false,
            bottom: false,
            left: true,
            right: false,
        }),
        e is Right ==> ResizeEdge::of_x11(e) == (ResizeEdge {
            top: false,
            bottom: false,
            left: false,
            right: true,
        }),
        e is TopLeft ==> ResizeEdge::of_x11(e) == (ResizeEdge {
            top: true,
            bottom: false,
            left: true,
            right: false,
        }),
        e is TopRight ==> ResizeEdge::of_x11(e) == (ResizeEdge {
            top: true,
            bottom: false,
            left: false,
            right: true,
        }),
        e is BottomLeft ==> ResizeEdge::of_x11(e) == (ResizeEdge {
            top: false,
            bottom: true,
            left: true,
            right: false,
        }),
        e is BottomRight ==> ResizeEdge::of_x11(e) == (ResizeEdge {
            top: false,
            bottom: true,
            left: false,
            right: true,
        }),
{
}

/// The numbers of the protocol: one for the top, two for the bottom, four for the
/// left and eight for the right, added up at a corner; a number that is no sum of
/// them is no edge.
pub proof fn protocol_numbers_are_edges(n: u32)
    ensures
        n == 0 || n >= 16 ==> ResizeEdge::of_protocol(n) == (ResizeEdge {
            top: false,
            bottom: false,
            left: false,
            right: false,
        }),
        n < 16 ==> ({
            let e = ResizeEdge::of_protocol(n);
            n == (if e.top { 1int } else { 0int }) + (if e.bottom { 2int } else { 0int }) + (
            if e.left { 4int } else { 0int }) + (if e.right { 8int } else { 0int })
        }),
{
}

/// Edges meet exactly if one is in both.
pub proof fn edges_meet_in_a_common_one(a: ResizeEdge, b: ResizeEdge)
    ensures
        a.meets(b) <==> b.meets(a),
        a.meets(a) <==> a.top || a.bottom || a.left || a.right,
        !a.meets(ResizeEdge { top: !a.top, bottom: !a.bottom, left: !a.left, right: !a.right }),
        a.top && b.top || a.bottom && b.bottom || a.left && b.left || a.right && b.right ==> a.meets(
            b,
        ),
{
}

/// Numbers of events go on past the largest: of two that are not far apart the
/// larger is no older, also across that point, and a number is no older than
/// itself.
pub proof fn later_events_are_no_older(a: u32, b: u32)
    ensures
        no_older(a, a),
        a > b && a - b < 0x7fff_ffff ==> no_older(a, b) && !no_older(b, a),
        a > b && a - b > 0x7fff_ffff ==> no_older(b, a) && !no_older(a, b),
        no_older(a, b) || no_older(b, a),
{
}

/// A drag ends once: a released resize waits for the client, who answers the
/// last number or a later one while it resizes; only then it waits for the
/// client's picture. What was not being dragged has nothing to wait for.
pub proof fn drags_end_once(state: ResizeState, data: ResizeData, serial: u32, ack: u32)
    ensures
        state == ResizeState::Resizing(data) ==> state.released(serial)
            == ResizeState::WaitingForFinalAck(data, serial),
        state == ResizeState::Resizing(data) ==> state.released_x11()
            == ResizeState::WaitingForCommit(data),
        !(state is Resizing) ==> state.released(serial) is NotResizing
            && state.released_x11() is NotResizing,
        state.released(serial).released(serial) is NotResizing,
        !(state is WaitingForFinalAck) ==> state.acked(ack, true) == state && state.acked(ack, false)
            == state,
        state == ResizeState::WaitingForFinalAck(data, serial) ==> state.acked(ack, false) == state
            && state.acked(serial, true) == ResizeState::WaitingForCommit(data),
        state == ResizeState::WaitingForFinalAck(data, serial) && !no_older(ack, serial)
            ==> state.acked(ack, true) == state,
{
}

/// A window is as large as it was dragged in the directions of the dragged edges
/// and stays as large as it was in the others, within its limits: never smaller
/// than one or the smallest size, nor larger than a largest size that leaves room
/// for the smallest.
pub proof fn drags_resize_along_their_edges(grab: ResizeGrab, dragged: Size, min: Size, max: Size)
    requires
        0 <= min.w && 0 <= min.h,
        max.w == 0 || max.w >= min.w && max.w >= 1,
        max.h == 0 || max.h >= min.h && max.h >= 1,
    ensures
        ({
            let s = grab.sized(dragged, min, max);
            let first = grab.data.initial_window_size;
            let across = grab.data.edges.left || grab.data.edges.right;
            let along = grab.data.edges.top || grab.data.edges.bottom;
            &&& s.w >= 1 && s.h >= 1 && s.w >= min.w && s.h >= min.h
            &&& max.w > 0 ==> s.w <= max.w
            &&& max.h > 0 ==> s.h <= max.h
            &&& across && dragged.w >= 1 && dragged.w >= min.w && (max.w == 0 || dragged.w <= max.w)
                ==> s.w == dragged.w
            &&& !across && first.w >= 1 && first.w >= min.w && (max.w == 0 || first.w <= max.w)
                ==> s.w == first.w
            &&& along && dragged.h >= 1 && dragged.h >= min.h && (max.h == 0 || dragged.h <= max.h)
                ==> s.h == dragged.h
            &&& !along && first.h >= 1 && first.h >= min.h && (max.h == 0 || first.h <= max.h)
                ==> s.h == first.h
        }),
{
}

/// A window whose bottom or right edge is dragged stays where it is.
pub proof fn only_top_and_left_move_a_window(data: ResizeData, location: Point, size: Size)
    requires
        anchor_fits(data, size),
    ensures
        !data.edges.left && !data.edges.top ==> anchored(data, location, size) is None,
        data.edges.left || data.edges.top ==> (anchored(data, location, size) matches Some(p) && (
        if data.edges.left {
            p.x + size.w == data.initial_window_location.x + data.initial_window_size.w
        } else {
            p.x == location.x
        }) && (if data.edges.top {
            p.y + size.h == data.initial_window_location.y + data.initial_window_size.h
        } else {
            p.y == location.y
        })),
{
}

/// A drag begins with the size that the window has.
pub proof fn drags_begin_with_the_size(data: ResizeData)
    ensures
        ResizeGrab::begun(data).data == data,
        ResizeGrab::begun(data).last_window_size == data.initial_window_size,
{
}

/// A drag is over for a window that is gone, and for one of X11 that is not
/// shown.
pub proof fn drags_end_with_their_window(f: ReleaseFacts)
    ensures
        !f.alive ==> f.is_over(),
        f.alive && f.location is Some ==> !f.is_over(),
        f.alive && !f.x11 ==> !f.is_over(),
        f.x11 && f.location is None ==> f.is_over(),
{
}

/// A window that is taken out of the layout floats and has no way to go; nothing
/// else of it changes.
pub proof fn detached_windows_float(w: Window)
    ensures
        detached(w).layout.is_floating,
        detached(w).layout.move_anim is None,
        detached(w).layout.target is None,
        detached(w).layout == (LayoutWindowState {
            is_floating: true,
            move_anim: None,
            target: None,
            ..w.layout
        }),
        detached(w) == (Window { layout: detached(w).layout, ..w }),
        detached(detached(w)) == detached(w),
{
}

} // verus!
