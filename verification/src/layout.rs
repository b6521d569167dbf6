//! The layout engine: which windows are tiled, into which slots, and how each
//! gets to its place.
use vstd::prelude::*;
use crate::animation::{Animation, AnimationValue, SpringTimes};
use crate::config::{AnimConfig, LayoutConfig, LayoutType};
use crate::float::{F64, ONE_BITS};
use crate::geometry::{Point, Rect, Size};
use crate::render_helpers::SizeF;
use crate::shell::closing_window::PointF;
use crate::state::{AnvilState, RectF, Space, Window};

verus! {

/// Persistent state of the layout engine.
#[derive(Clone, Copy, Debug, PartialEq, Eq, Structural)]
pub struct Layout {
    /// The last id that was given to a window.
    pub last_layout_id: u64,
}

/// A position animation and where it started.
#[derive(Clone, Copy, Debug, PartialEq, Eq, Structural)]
pub struct MoveAnimation {
    pub start_x: F64,
    pub start_y: F64,
    pub anim: Animation,
}

/// A picture of a window from before a change of its size. It is shown on top of
/// the window, stretched from the old size to the new one.
#[derive(Clone, Copy, Debug, PartialEq, Eq, Structural)]
pub struct ResizeSnapshot {
    /// The picture, by the handle that the renderer keeps it under.
    pub buffer: u64,
    /// Where the picture is on the output.
    pub pos: PointF,
    /// The old size.
    pub geo_size: SizeF,
    /// Where the window's contents are in the picture.
    pub buffer_offset: PointF,
    /// From 0 to 1.
    pub anim: Animation,
    /// The new size.
    pub target_size: SizeF,
}

/// How a snapshot is drawn.
#[derive(Clone, Copy, Debug, PartialEq, Eq, Structural)]
pub struct ResizeSnapshotRenderElement {
    pub buffer: u64,
    pub pos: PointF,
    /// The part of the picture: the contents without decorations.
    pub src: RectF,
    /// How far the size is on its way from the old to the new one, before it is
    /// held between 0 and 1.
    pub progress: AnimationValue,
}

impl ResizeSnapshot {
    /// How the snapshot is drawn now; not any more once its animation is over.
    pub fn render(&self, now: u128) -> (r: Option<ResizeSnapshotRenderElement>)
        ensures
            r == (if self.anim.done_at(now) {
                None
            } else {
                Some(
                    ResizeSnapshotRenderElement {
                        buffer: self.buffer,
                        pos: self.pos,
                        src: RectF {
                            x: self.buffer_offset.x,
                            y: self.buffer_offset.y,
                            w: self.geo_size.w,
                            h: self.geo_size.h,
                        },
                        progress: if self.anim.clamped_done_at(now) {
                            AnimationValue::Exact { value: self.anim.to }
                        } else {
                            self.anim.value_now(now)
                        },
                    },
                )
            }),
    {
        if self.anim.is_done(now) {
            return None;
        }
        let src = RectF {
            x: self.buffer_offset.x,
            y: self.buffer_offset.y,
            w: self.geo_size.w,
            h: self.geo_size.h,
        };
        Some(
            ResizeSnapshotRenderElement {
                buffer: self.buffer,
                pos: self.pos,
                src,
                progress: self.anim.clamped_value(now),
            },
        )
    }
}

/// Per-window state used by the layout engine.
#[derive(Clone, Copy, Debug, PartialEq, Eq, Structural)]
pub struct LayoutWindowState {
    /// Stable id of this window, 0 while it has none.
    pub layout_id: u64,
    /// Whether this window is excluded from the layout (free-floating).
    pub is_floating: bool,
    /// Whether the window has been placed by the layout at least once.
    pub initialized: bool,
    /// Current target geometry.
    pub target: Option<RectF>,
    /// Active position animation; the window moves from its start to `target`.
    pub move_anim: Option<MoveAnimation>,
    /// Snapshot of the window while it changes size.
    pub resize_snapshot: Option<ResizeSnapshot>,
    /// Column width override in logical pixels.
    pub width_override: Option<F64>,
    /// The window is tiled to the full work area, covering the rest of the layout.
    pub full_width: bool,
}

impl LayoutWindowState {
    /// The state of a window that the layout has not seen yet.
    pub open spec fn fresh() -> LayoutWindowState {
        LayoutWindowState {
            layout_id: 0,
            is_floating: false,
            initialized: false,
            target: None,
            move_anim: None,
            resize_snapshot: None,
            width_override: None,
            full_width: false,
        }
    }
}

impl Default for LayoutWindowState {
    fn default() -> (r: LayoutWindowState)
        ensures
            r == LayoutWindowState::fresh(),
    {
        LayoutWindowState {
            layout_id: 0,
            is_floating: false,
            initialized: false,
            target: None,
            move_anim: None,
            resize_snapshot: None,
            width_override: None,
            full_width: false,
        }
    }
}

impl Default for Layout {
    fn default() -> (r: Layout)
        ensures
            r.last_layout_id == 0,
    {
        Layout { last_layout_id: 0 }
    }
}

impl Layout {
    /// The id that a window has after it was asked for one.
    pub open spec fn id_for(self, state: LayoutWindowState) -> u64 {
        if state.layout_id == 0 {
            (self.last_layout_id + 1) as u64
        } else {
            state.layout_id
        }
    }

    /// The layout after a window was asked for its id.
    pub open spec fn after_id(self, state: LayoutWindowState) -> Layout {
        if state.layout_id == 0 {
            Layout { last_layout_id: (self.last_layout_id + 1) as u64 }
        } else {
            self
        }
    }

    /// Gives a window an id, unless it has one.
    pub fn assign_layout_id(&mut self, state: &mut LayoutWindowState)
        requires
            old(state).layout_id == 0 ==> old(self).last_layout_id < u64::MAX,
        ensures
            *final(state) == (LayoutWindowState {
                layout_id: old(self).id_for(*old(state)),
                ..*old(state)
            }),
            *final(self) == old(self).after_id(*old(state)),
    {
        if state.layout_id == 0 {
            self.last_layout_id = self.last_layout_id + 1;
            state.layout_id = self.last_layout_id;
        }
    }
}

/// Every id that was given to a window is one the layout has handed out, and
/// no two windows have the same.
pub open spec fn ids_wf(windows: Seq<Window>, layout: Layout) -> bool {
    &&& forall|i: int|
        0 <= i < windows.len() ==> (#[trigger] windows[i]).layout.layout_id <= layout.last_layout_id
    &&& forall|i: int, j: int|
        0 <= i < j < windows.len() && (#[trigger] windows[i]).layout.layout_id != 0 ==> windows[i].layout.layout_id
            != (#[trigger] windows[j]).layout.layout_id
}

/// Ids are stable and distinct: giving one window an id keeps the ids of all
/// windows that have one, and the new one is not among them.
pub proof fn layout_ids_are_stable(windows: Seq<Window>, layout: Layout, at: int)
    requires
        ids_wf(windows, layout),
        0 <= at < windows.len(),
        layout.last_layout_id < u64::MAX,
    ensures
        ({
            let state = LayoutWindowState {
                layout_id: layout.id_for(windows[at].layout),
                ..windows[at].layout
            };
            let after = windows.update(at, Window { layout: state, ..windows[at] });
            &&& ids_wf(after, layout.after_id(windows[at].layout))
            &&& after[at].layout.layout_id != 0
            &&& forall|i: int|
                0 <= i < windows.len() && (#[trigger] windows[i]).layout.layout_id != 0
                    ==> after[i].layout.layout_id == windows[i].layout.layout_id
        }),
{
}

/// Whether the layout places a window: it does not float, does not wait to be
/// centered, and is not hidden.
pub open spec fn is_tiled(w: Window) -> bool {
    !(w.layout.is_floating || w.needs_center || w.hidden)
}

/// The tiled windows of an output among the first `upto`, topmost first.
pub open spec fn tiled_windows(windows: Seq<Window>, output: u64, upto: int) -> Seq<usize>
    decreases upto,
{
    if upto <= 0 {
        Seq::empty()
    } else if windows[upto - 1].outputs@.contains(output) && is_tiled(windows[upto - 1]) {
        seq![(upto - 1) as usize] + tiled_windows(windows, output, upto - 1)
    } else {
        tiled_windows(windows, output, upto - 1)
    }
}

/// Every window of an output that the layout places has exactly one slot, and
/// no other window has one.
pub proof fn tiled_windows_are_exact(windows: Seq<Window>, output: u64, upto: int, w: int)
    requires
        0 <= upto <= windows.len() <= usize::MAX,
    ensures
        tiled_windows(windows, output, upto).no_duplicates(),
        0 <= w < windows.len() ==> (tiled_windows(windows, output, upto).contains(w as usize) <==> w
            < upto && windows[w].outputs@.contains(output) && is_tiled(windows[w])),
        forall|k: int|
            0 <= k < tiled_windows(windows, output, upto).len() ==> (#[trigger] tiled_windows(
                windows,
                output,
                upto,
            )[k]) < upto,
    decreases upto,
{
    if upto > 0 {
        tiled_windows_are_exact(windows, output, upto - 1, w);
        let rest = tiled_windows(windows, output, upto - 1);
        if windows[upto - 1].outputs@.contains(output) && is_tiled(windows[upto - 1]) {
            let all = seq![(upto - 1) as usize] + rest;
            assert(all[0] == upto - 1);
            if 0 <= w < windows.len() && rest.contains(w as usize) {
                let k = choose|k: int| 0 <= k < rest.len() && rest[k] == w as usize;
                assert(all[k + 1] == w as usize);
            }
            if 0 <= w < windows.len() && all.contains(w as usize) {
                let k = choose|k: int| 0 <= k < all.len() && all[k] == w as usize;
                if k > 0 {
                    assert(rest[k - 1] == w as usize);
                }
            }
        }
    }
}

fn holds(ids: &Vec<u64>, id: u64) -> (r: bool)
    ensures
        r == ids@.contains(id),
{
    let mut i: usize = 0;
    while i < ids.len()
        invariant
            i <= ids@.len(),
            forall|k: int| 0 <= k < i ==> ids@[k] != id,
        decreases ids@.len() - i,
    {
        if ids[i] == id {
            return true;
        }
        i = i + 1;
    }
    false
}

fn collect_tiled(windows: &Vec<Window>, output: u64) -> (r: Vec<usize>)
    ensures
        r@ == tiled_windows(windows@, output, windows@.len() as int),
{
    let mut r: Vec<usize> = Vec::new();
    let mut i: usize = windows.len();
    assert(r@ + tiled_windows(windows@, output, i as int) == tiled_windows(
        windows@,
        output,
        i as int,
    ));
    while i > 0
        invariant
            i <= windows@.len(),
            r@ + tiled_windows(windows@, output, i as int) == tiled_windows(
                windows@,
                output,
                windows@.len() as int,
            ),
        decreases i,
    {
        i = i - 1;
        let w = &windows[i];
        if holds(&w.outputs, output) && !(w.layout.is_floating || w.needs_center || w.hidden) {
            let ghost before = r@;
            r.push(i);
            assert(r@ + tiled_windows(windows@, output, i as int) =~= before + (seq![i]
                + tiled_windows(windows@, output, i as int)));
        }
    }
    assert(r@ + Seq::<usize>::empty() == r@);
    r
}

/// What a custom layout function is told of a window.
#[derive(Clone, Copy, Debug, PartialEq, Eq, Structural)]
pub struct CustomWindow {
    pub id: u64,
    pub w: i32,
    pub h: i32,
    /// The width override, 0 for none.
    pub width: F64,
}

/// How the slots of an output are to be found.
#[derive(Debug, PartialEq, Eq)]
pub enum SlotRequest {
    /// One window takes the whole area; the others stay where they are.
    Whole { window: usize },
    /// Columns side by side; those with a width keep it, the others share the rest.
    Columns { widths: Vec<Option<F64>> },
    /// A grid of `cols` by `rows` cells, filled row by row.
    Grid { count: usize, cols: usize, rows: usize },
    /// One window on the left, the others stacked on the right.
    MasterStack { count: usize },
    /// Every window takes the whole area.
    Maximize,
    /// A function of the configuration script; columns where it fails.
    Custom { callback: usize, windows: Vec<CustomWindow>, widths: Vec<Option<F64>> },
}

/// An output whose windows are to be placed.
#[derive(Debug, PartialEq, Eq)]
pub struct TileRequest {
    /// Position of the output.
    pub output: usize,
    pub area: RectF,
    /// Positions of the windows, in the order of their slots.
    pub windows: Vec<usize>,
    pub slots: SlotRequest,
}

/// A width that overrides the layout's: one above zero.
pub open spec fn effective_width(width: Option<F64>) -> Option<F64> {
    match width {
        Some(v) => if (F64 { bits: 0 }).below(v) {
            Some(v)
        } else {
            None
        },
        None => None,
    }
}

pub open spec fn widths_of(windows: Seq<Window>, slots: Seq<usize>) -> Seq<Option<F64>> {
    slots.map_values(|w: usize| effective_width(windows[w as int].layout.width_override))
}

pub open spec fn custom_window(w: Window) -> CustomWindow {
    CustomWindow {
        id: w.layout.layout_id,
        w: match w.geometry {
            Some(g) => g.size.w,
            None => 0,
        },
        h: match w.geometry {
            Some(g) => g.size.h,
            None => 0,
        },
        width: match w.layout.width_override {
            Some(v) => v,
            None => F64 { bits: 0 },
        },
    }
}

pub open spec fn custom_windows(windows: Seq<Window>, slots: Seq<usize>) -> Seq<CustomWindow> {
    slots.map_values(|w: usize| custom_window(windows[w as int]))
}

/// The first window among the slots that takes the whole area.
pub open spec fn full_width_slot(windows: Seq<Window>, slots: Seq<usize>, at: int) -> bool {
    &&& 0 <= at < slots.len()
    &&& windows[slots[at] as int].layout.full_width
    &&& forall|k: int| 0 <= k < at ==> !windows[#[trigger] slots[k] as int].layout.full_width
}

/// The least number of columns that makes a square grid large enough.
pub open spec fn is_grid_cols(n: int, cols: int) -> bool {
    cols >= 1 && (cols - 1) * (cols - 1) < n <= cols * cols
}

/// The number of rows that `n` cells take in `cols` columns.
pub open spec fn grid_rows(n: int, cols: int) -> int {
    (n + cols - 1) / cols
}

/// Columns and rows of the grid for `n` windows.
pub fn grid_shape(n: usize) -> (r: (usize, usize))
    requires
        n > 0,
    ensures
        is_grid_cols(n as int, r.0 as int),
        r.1 == grid_rows(n as int, r.0 as int),
        r.0 <= n,
{
    let mut cols: usize = 1;
    while (cols as u128) * (cols as u128) < n as u128
        invariant
            1 <= cols <= n,
            (cols - 1) * (cols - 1) < n,
            (cols as int) * (cols as int) <= 0xffff_ffff_ffff_ffff * 0xffff_ffff_ffff_ffff,
        decreases n - cols,
    {
        proof {
            let c = cols as int;
            assert(c < n) by (nonlinear_arith)
                requires
                    c * c < n,
                    c >= 1,
            ;
        }
        cols = cols + 1;
        proof {
            let c = cols as int;
            assert(c * c <= 0xffff_ffff_ffff_ffff * 0xffff_ffff_ffff_ffff) by (nonlinear_arith)
                requires
                    0 <= c <= 0xffff_ffff_ffff_ffff,
            ;
        }
    }
    let full: usize = n / cols;
    proof {
        let c = cols as int;
        let q = full as int;
        let d = n as int % c;
        vstd::arithmetic::div_mod::lemma_fundamental_div_mod(n as int, c);
        assert(d > 0 ==> q < n) by (nonlinear_arith)
            requires
                n == c * q + d,
                c >= 1,
                q >= 0,
        ;
    }
    let rows: usize = if n % cols == 0 {
        full
    } else {
        full + 1
    };
    proof {
        let c = cols as int;
        let m = n as int;
        vstd::arithmetic::div_mod::lemma_fundamental_div_mod(m, c);
        let q = m / c;
        let d = m % c;
        if d == 0 {
            assert((m + c - 1) / c == q) by {
                vstd::arithmetic::div_mod::lemma_fundamental_div_mod_converse(m + c - 1, c, q, c - 1);
            }
        } else {
            assert(m + c - 1 == c * (q + 1) + (d - 1)) by (nonlinear_arith)
                requires
                    m == c * q + d,
            ;
            vstd::arithmetic::div_mod::lemma_fundamental_div_mod_converse(
                m + c - 1,
                c,
                q + 1,
                d - 1,
            );
        }
    }
    (cols, rows)
}

/// The row and the column of the cell at `i`, when rows are filled one after the
/// other.
pub open spec fn cell_at(i: int, cols: int) -> (int, int) {
    (i / cols, i % cols)
}

/// The row and the column of a window of the grid.
pub fn grid_cell(i: usize, cols: usize) -> (r: (usize, usize))
    requires
        cols > 0,
    ensures
        (r.0 as int, r.1 as int) == cell_at(i as int, cols as int),
        r.0 == i as int / cols as int,
        r.1 == i as int % cols as int,
{
    (i / cols, i % cols)
}

/// Every window of a grid has a cell inside it, and no two have the same.
pub proof fn grid_cells_are_distinct(n: int, cols: int, i: int, j: int)
    requires
        is_grid_cols(n, cols),
        0 <= i < n,
        0 <= j < n,
    ensures
        0 <= i / cols < grid_rows(n, cols),
        0 <= i % cols < cols,
        i != j ==> i / cols != j / cols || i % cols != j % cols,
        grid_rows(n, cols) <= cols,
{
    vstd::arithmetic::div_mod::lemma_fundamental_div_mod(i, cols);
    vstd::arithmetic::div_mod::lemma_fundamental_div_mod(j, cols);
    vstd::arithmetic::div_mod::lemma_div_pos_is_pos(i, cols);
    vstd::arithmetic::div_mod::lemma_mod_bound(i, cols);
    vstd::arithmetic::div_mod::lemma_div_is_ordered(i, n - 1, cols);
    vstd::arithmetic::div_mod::lemma_div_plus_one(n - 1, cols);
    assert(n - 1 + cols == n + cols - 1);
    vstd::arithmetic::div_mod::lemma_div_is_ordered(n + cols - 1, cols * cols + cols - 1, cols);
    assert((cols * cols + cols - 1) / cols == cols) by {
        vstd::arithmetic::div_mod::lemma_fundamental_div_mod_converse(
            cols * cols + cols - 1,
            cols,
            cols,
            cols - 1,
        );
    }
}

/// Whether `slots` is how the layout finds the slots of `windows`.
pub open spec fn slots_for(
    space: Seq<Window>,
    windows: Seq<usize>,
    config: LayoutConfig,
    has_script: bool,
    slots: SlotRequest,
) -> bool {
    &&& forall|at: int| #[trigger]
        full_width_slot(space, windows, at) ==> slots == (SlotRequest::Whole { window: windows[at] })
    &&& (forall|at: int| !#[trigger] full_width_slot(space, windows, at)) ==> match config.layout {
        LayoutType::Columns => slots matches SlotRequest::Columns { widths } && widths@ == widths_of(
            space,
            windows,
        ),
        LayoutType::Grid => slots matches SlotRequest::Grid { count, cols, rows } && count
            == windows.len() && is_grid_cols(count as int, cols as int) && rows == grid_rows(
            count as int,
            cols as int,
        ),
        LayoutType::MasterStack => slots matches SlotRequest::MasterStack { count } && count
            == windows.len(),
        LayoutType::Maximize => slots is Maximize,
        LayoutType::Custom => if config.custom_fn is Some && has_script {
            slots matches SlotRequest::Custom { callback, windows: told, widths } && callback
                == config.custom_fn->0 && told@ == custom_windows(space, windows) && widths@
                == widths_of(space, windows)
        } else {
            slots matches SlotRequest::Columns { widths } && widths@ == widths_of(space, windows)
        },
        LayoutType::Floating => true,
    }
}

/// Whether the layout has anything to place on an output.
pub open spec fn has_request(space: Space, at: int) -> bool {
    &&& 0 <= at < space.outputs@.len()
    &&& space.outputs@[at].work_area is Some
    &&& tiled_windows(space.windows@, space.outputs@[at].id, space.windows@.len() as int).len() > 0
}

/// Whether a request asks for the windows of its output.
pub open spec fn request_wf(
    space: Space,
    config: LayoutConfig,
    has_script: bool,
    r: TileRequest,
) -> bool {
    &&& has_request(space, r.output as int)
    &&& Some(r.area) == space.outputs@[r.output as int].work_area
    &&& r.windows@ == tiled_windows(
        space.windows@,
        space.outputs@[r.output as int].id,
        space.windows@.len() as int,
    )
    &&& slots_for(space.windows@, r.windows@, config, has_script, r.slots)
}

/// The outputs among the first `upto` that the layout has something to place on.
pub open spec fn requested(space: Space, upto: int) -> Seq<int>
    decreases upto,
{
    if upto <= 0 {
        Seq::empty()
    } else if has_request(space, upto - 1) {
        requested(space, upto - 1).push(upto - 1)
    } else {
        requested(space, upto - 1)
    }
}

fn collect_widths(windows: &Vec<Window>, slots: &Vec<usize>) -> (r: Vec<Option<F64>>)
    requires
        forall|k: int| 0 <= k < slots@.len() ==> #[trigger] slots@[k] < windows@.len(),
    ensures
        r@ == widths_of(windows@, slots@),
{
    let mut r: Vec<Option<F64>> = Vec::new();
    let mut i: usize = 0;
    while i < slots.len()
        invariant
            i <= slots@.len(),
            forall|k: int| 0 <= k < slots@.len() ==> #[trigger] slots@[k] < windows@.len(),
            r@ == widths_of(windows@, slots@).take(i as int),
        decreases slots@.len() - i,
    {
        let width = match windows[slots[i]].layout.width_override {
            Some(v) => {
                let zero = F64 { bits: 0 };
                if zero.lt(v) {
                    Some(v)
                } else {
                    None
                }
            },
            None => None,
        };
        r.push(width);
        i = i + 1;
        assert(widths_of(windows@, slots@).take(i as int) == widths_of(windows@, slots@).take(
            i - 1,
        ).push(width));
    }
    assert(widths_of(windows@, slots@).take(i as int) == widths_of(windows@, slots@));
    r
}

fn collect_custom(windows: &Vec<Window>, slots: &Vec<usize>) -> (r: Vec<CustomWindow>)
    requires
        forall|k: int| 0 <= k < slots@.len() ==> #[trigger] slots@[k] < windows@.len(),
    ensures
        r@ == custom_windows(windows@, slots@),
{
    let mut r: Vec<CustomWindow> = Vec::new();
    let mut i: usize = 0;
    while i < slots.len()
        invariant
            i <= slots@.len(),
            forall|k: int| 0 <= k < slots@.len() ==> #[trigger] slots@[k] < windows@.len(),
            r@ == custom_windows(windows@, slots@).take(i as int),
        decreases slots@.len() - i,
    {
        let w = &windows[slots[i]];
        let size = match w.geometry {
            Some(g) => g.size,
            None => Size { w: 0, h: 0 },
        };
        let entry = CustomWindow {
            id: w.layout.layout_id,
            w: size.w,
            h: size.h,
            width: match w.layout.width_override {
                Some(v) => v,
                None => F64 { bits: 0 },
            },
        };
        r.push(entry);
        i = i + 1;
        assert(custom_windows(windows@, slots@).take(i as int) == custom_windows(
            windows@,
            slots@,
        ).take(i - 1).push(entry));
    }
    assert(custom_windows(windows@, slots@).take(i as int) == custom_windows(windows@, slots@));
    r
}

fn find_full_width(windows: &Vec<Window>, slots: &Vec<usize>) -> (r: Option<usize>)
    requires
        forall|k: int| 0 <= k < slots@.len() ==> #[trigger] slots@[k] < windows@.len(),
    ensures
        match r {
            Some(i) => full_width_slot(windows@, slots@, i as int),
            None => forall|at: int| !#[trigger] full_width_slot(windows@, slots@, at),
        },
{
    let mut i: usize = 0;
    while i < slots.len()
        invariant
            i <= slots@.len(),
            forall|k: int| 0 <= k < slots@.len() ==> #[trigger] slots@[k] < windows@.len(),
            forall|k: int| 0 <= k < i ==> !windows@[#[trigger] slots@[k] as int].layout.full_width,
        decreases slots@.len() - i,
    {
        if windows[slots[i]].layout.full_width {
            return Some(i);
        }
        i = i + 1;
    }
    None
}

fn choose_slots(windows: &Vec<Window>, slots: &Vec<usize>, config: &LayoutConfig, has_script: bool) -> (r:
    SlotRequest)
    requires
        forall|k: int| 0 <= k < slots@.len() ==> #[trigger] slots@[k] < windows@.len(),
        slots@.len() > 0,
        !(config.layout is Floating),
    ensures
        slots_for(windows@, slots@, *config, has_script, r),
{
    match find_full_width(windows, slots) {
        Some(i) => {
            assert(forall|at: int|
                #[trigger] full_width_slot(windows@, slots@, at) ==> at == i);
            return SlotRequest::Whole { window: slots[i] };
        },
        None => {},
    }
    let widths = collect_widths(windows, slots);
    match config.layout {
        LayoutType::Columns | LayoutType::Floating => SlotRequest::Columns { widths },
        LayoutType::Grid => {
            let (cols, rows) = grid_shape(slots.len());
            SlotRequest::Grid { count: slots.len(), cols, rows }
        },
        LayoutType::MasterStack => SlotRequest::MasterStack { count: slots.len() },
        LayoutType::Maximize => SlotRequest::Maximize,
        LayoutType::Custom => match config.custom_fn {
            Some(callback) => if has_script {
                SlotRequest::Custom { callback, windows: collect_custom(windows, slots), widths }
            } else {
                SlotRequest::Columns { widths }
            },
            None => SlotRequest::Columns { widths },
        },
    }
}

impl Layout {
    /// For every output with tiled windows, how their slots are to be found. A
    /// floating layout asks for nothing.
    pub fn tile_requests(space: &Space, config: &LayoutConfig, has_script: bool) -> (r: Vec<
        TileRequest,
    >)
        ensures
            config.layout is Floating ==> r@.len() == 0,
            !(config.layout is Floating) ==> r@.map_values(|t: TileRequest| t.output as int)
                == requested(*space, space.outputs@.len() as int),
            forall|k: int|
                0 <= k < r@.len() ==> request_wf(*space, *config, has_script, #[trigger] r@[k]),
    {
        let mut r: Vec<TileRequest> = Vec::new();
        match config.layout {
            LayoutType::Floating => {
                return r;
            },
            _ => {},
        }
        let mut i: usize = 0;
        while i < space.outputs.len()
            invariant
                i <= space.outputs@.len(),
                !(config.layout is Floating),
                r@.map_values(|t: TileRequest| t.output as int) == requested(*space, i as int),
                forall|k: int|
                    0 <= k < r@.len() ==> request_wf(*space, *config, has_script, #[trigger] r@[k]),
            decreases space.outputs@.len() - i,
        {
            let ghost before = r@;
            let output = &space.outputs[i];
            match output.work_area {
                Some(area) => {
                    let windows = collect_tiled(&space.windows, output.id);
                    if windows.len() > 0 {
                        let total: usize = space.windows.len();
                        proof {
                            tiled_windows_are_exact(space.windows@, output.id, total as int, 0);
                        }
                        let slots = choose_slots(&space.windows, &windows, config, has_script);
                        let request = TileRequest { output: i, area, windows, slots };
                        assert(request_wf(*space, *config, has_script, request));
                        r.push(request);
                        assert(r@.map_values(|t: TileRequest| t.output as int) =~= before.map_values(
                            |t: TileRequest| t.output as int,
                        ).push(i as int));
                    }
                },
                None => {},
            }
            i = i + 1;
        }
        r
    }
}

impl TileRequest {
    /// The request with a custom layout replaced by columns, for a function
    /// that failed.
    pub fn fall_back(self) -> (r: TileRequest)
        ensures
            r.output == self.output,
            r.area == self.area,
            r.windows == self.windows,
            match self.slots {
                SlotRequest::Custom { widths, .. } => r.slots == (SlotRequest::Columns { widths }),
                other => r.slots == other,
            },
    {
        match self.slots {
            SlotRequest::Custom { widths, .. } => TileRequest {
                output: self.output,
                area: self.area,
                windows: self.windows,
                slots: SlotRequest::Columns { widths },
            },
            other => TileRequest {
                output: self.output,
                area: self.area,
                windows: self.windows,
                slots: other,
            },
        }
    }
}

/// Target geometry for a single window, by its position.
#[derive(Clone, Copy, Debug, PartialEq, Eq, Structural)]
pub struct Plan {
    pub window: usize,
    pub target: RectF,
}

/// A rectangle without negative extent.
pub open spec fn grown(r: RectF) -> RectF {
    RectF { w: r.w.raised(F64 { bits: 0 }), h: r.h.raised(F64 { bits: 0 }), ..r }
}

/// The plans of the first `upto` windows of a request, given the slots that
/// were found: a window without a slot is left where it is.
pub open spec fn slot_plans(request: TileRequest, slots: Seq<Option<RectF>>, upto: int) -> Seq<Plan>
    decreases upto,
{
    if upto <= 0 {
        Seq::empty()
    } else {
        let before = slot_plans(request, slots, upto - 1);
        match slots[upto - 1] {
            Some(rect) => before.push(
                Plan {
                    window: request.windows@[upto - 1],
                    target: if request.slots is Custom {
                        grown(rect)
                    } else {
                        rect
                    },
                },
            ),
            None => before,
        }
    }
}

/// The plans of one output.
pub open spec fn request_plans(request: TileRequest, slots: Seq<Option<RectF>>) -> Seq<Plan> {
    match request.slots {
        SlotRequest::Whole { window } => seq![Plan { window, target: request.area }],
        SlotRequest::Maximize => request.windows@.map_values(
            |window: usize| Plan { window, target: request.area },
        ),
        _ => slot_plans(
            request,
            slots,
            if request.windows@.len() <= slots.len() {
                request.windows@.len() as int
            } else {
                slots.len() as int
            },
        ),
    }
}

/// The plans of the first `upto` requests.
pub open spec fn all_plans(
    requests: Seq<TileRequest>,
    slots: Seq<Vec<Option<RectF>>>,
    upto: int,
) -> Seq<Plan>
    decreases upto,
{
    if upto <= 0 {
        Seq::empty()
    } else {
        all_plans(requests, slots, upto - 1) + request_plans(requests[upto - 1], slots[upto - 1]@)
    }
}

fn push_plans(plans: &mut Vec<Plan>, request: &TileRequest, slots: &Vec<Option<RectF>>)
    ensures
        final(plans)@ == old(plans)@ + request_plans(*request, slots@),
{
    let ghost before = plans@;
    match &request.slots {
        SlotRequest::Whole { window } => {
            plans.push(Plan { window: *window, target: request.area });
            assert(plans@ =~= before + request_plans(*request, slots@));
        },
        SlotRequest::Maximize => {
            let mut i: usize = 0;
            while i < request.windows.len()
                invariant
                    i <= request.windows@.len(),
                    request.slots is Maximize,
                    plans@ == before + request_plans(*request, slots@).take(i as int),
                decreases request.windows@.len() - i,
            {
                let plan = Plan { window: request.windows[i], target: request.area };
                plans.push(plan);
                i = i + 1;
                assert(request_plans(*request, slots@).take(i as int) == request_plans(
                    *request,
                    slots@,
                ).take(i - 1).push(plan));
            }
            assert(request_plans(*request, slots@).take(i as int) == request_plans(*request, slots@));
        },
        _ => {
            let custom = match &request.slots {
                SlotRequest::Custom { .. } => true,
                _ => false,
            };
            let count: usize = if request.windows.len() <= slots.len() {
                request.windows.len()
            } else {
                slots.len()
            };
            let mut i: usize = 0;
            assert(before + Seq::<Plan>::empty() == before);
            while i < count
                invariant
                    i <= count,
                    count <= request.windows@.len(),
                    count <= slots@.len(),
                    custom == (request.slots is Custom),
                    plans@ == before + slot_plans(*request, slots@, i as int),
                decreases count - i,
            {
                match slots[i] {
                    Some(rect) => {
                        let target = if custom {
                            let zero = F64 { bits: 0 };
                            RectF {
                                x: rect.x,
                                y: rect.y,
                                w: rect.w.at_least(zero),
                                h: rect.h.at_least(zero),
                            }
                        } else {
                            rect
                        };
                        let plan = Plan { window: request.windows[i], target };
                        plans.push(plan);
                        assert(plans@ =~= before + slot_plans(*request, slots@, i as int).push(plan));
                    },
                    None => {},
                }
                i = i + 1;
            }
        },
    }
}

impl Layout {
    /// The target geometry of every tiled window on every output: the area
    /// itself where one window or every window takes it, else the slots that
    /// were found for the request.
    pub fn compute_plans(requests: &Vec<TileRequest>, slots: &Vec<Vec<Option<RectF>>>) -> (plans:
        Vec<Plan>)
        requires
            requests@.len() == slots@.len(),
        ensures
            plans@ == all_plans(requests@, slots@, requests@.len() as int),
    {
        let mut plans: Vec<Plan> = Vec::new();
        let mut i: usize = 0;
        while i < requests.len()
            invariant
                i <= requests@.len(),
                requests@.len() == slots@.len(),
                plans@ == all_plans(requests@, slots@, i as int),
            decreases requests@.len() - i,
        {
            push_plans(&mut plans, &requests[i], &slots[i]);
            i = i + 1;
        }
        plans
    }
}

/// Whether the slots that were found are enough: one for each window, where the
/// request asks for any.
pub open spec fn slots_suffice(request: TileRequest, slots: Seq<Option<RectF>>) -> bool {
    request.slots is Whole || request.slots is Maximize || {
        &&& slots.len() == request.windows@.len()
        &&& forall|k: int| 0 <= k < slots.len() ==> #[trigger] slots[k] is Some
    }
}

/// Where a window of a request goes.
pub open spec fn slot_target(request: TileRequest, slots: Seq<Option<RectF>>, at: int) -> RectF {
    match request.slots {
        SlotRequest::Maximize => request.area,
        SlotRequest::Custom { .. } => grown(slots[at]->0),
        _ => slots[at]->0,
    }
}

proof fn full_slots_give_plans(request: TileRequest, slots: Seq<Option<RectF>>, upto: int)
    requires
        0 <= upto <= slots.len() == request.windows@.len(),
        !(request.slots is Whole || request.slots is Maximize),
        slots_suffice(request, slots),
    ensures
        slot_plans(request, slots, upto) == Seq::new(
            upto as nat,
            |k: int| Plan {
                window: request.windows@[k],
                target: slot_target(request, slots, k),
            },
        ),
    decreases upto,
{
    if upto > 0 {
        full_slots_give_plans(request, slots, upto - 1);
        assert(slots[upto - 1] is Some);
    }
}

/// Where one window takes the whole area it alone has a plan. Otherwise, if
/// there are enough slots, every window of the request has one, in their order:
/// its own slot, or the area where all windows take that.
pub proof fn every_window_of_a_request_is_planned(
    request: TileRequest,
    slots: Seq<Option<RectF>>,
)
    requires
        slots_suffice(request, slots),
    ensures
        request.slots matches SlotRequest::Whole { window } ==> request_plans(request, slots)
            == seq![Plan { window, target: request.area }],
        !(request.slots is Whole) ==> {
            let plans = request_plans(request, slots);
            &&& plans.len() == request.windows@.len()
            &&& forall|k: int|
                0 <= k < plans.len() ==> #[trigger] plans[k] == (Plan {
                    window: request.windows@[k],
                    target: slot_target(request, slots, k),
                })
        },
{
    if !(request.slots is Whole || request.slots is Maximize) {
        full_slots_give_plans(request, slots, slots.len() as int);
    }
}

/// Whether a window has a plan.
pub open spec fn is_planned(plans: Seq<Plan>, window: int) -> bool {
    exists|p: int| 0 <= p < plans.len() && (#[trigger] plans[p]).window == window
}

proof fn outputs_with_windows_are_requested(space: Space, upto: int, at: int)
    requires
        0 <= at < upto,
        has_request(space, at),
    ensures
        requested(space, upto).contains(at),
    decreases upto,
{
    let before = requested(space, upto - 1);
    if at < upto - 1 {
        outputs_with_windows_are_requested(space, upto - 1, at);
        let k = choose|k: int| 0 <= k < before.len() && before[k] == at;
        assert(requested(space, upto)[k] == at);
    } else {
        assert(requested(space, upto)[before.len() as int] == at);
    }
}

proof fn plans_of_a_request_are_kept(
    requests: Seq<TileRequest>,
    slots: Seq<Vec<Option<RectF>>>,
    upto: int,
    k: int,
    window: int,
)
    requires
        0 <= k < upto,
        is_planned(request_plans(requests[k], slots[k]@), window),
    ensures
        is_planned(all_plans(requests, slots, upto), window),
    decreases upto,
{
    let before = all_plans(requests, slots, upto - 1);
    let more = request_plans(requests[upto - 1], slots[upto - 1]@);
    let all = all_plans(requests, slots, upto);
    assert(all == before + more);
    if k < upto - 1 {
        plans_of_a_request_are_kept(requests, slots, upto - 1, k, window);
        let p = choose|p: int| 0 <= p < before.len() && (#[trigger] before[p]).window == window;
        assert(all[p].window == window);
    } else {
        let p = choose|p: int| 0 <= p < more.len() && (#[trigger] more[p]).window == window;
        assert(all[before.len() + p].window == window);
    }
}

/// Whether the layout places a window on an output.
pub open spec fn is_tiled_on(space: Space, output: int, window: int) -> bool {
    &&& 0 <= output < space.outputs@.len()
    &&& space.outputs@[output].work_area is Some
    &&& 0 <= window < space.windows@.len()
    &&& space.windows@[window].outputs@.contains(space.outputs@[output].id)
    &&& is_tiled(space.windows@[window])
}

/// In a tiling layout every tiled window on every output has a target, if the
/// requests are those of the space and there are enough slots. The one exception: where a window of
/// the output takes the whole area, such a window has it, and the others stay
/// where they are.
pub proof fn every_tiled_window_is_planned(
    space: Space,
    config: LayoutConfig,
    has_script: bool,
    requests: Seq<TileRequest>,
    slots: Seq<Vec<Option<RectF>>>,
    output: int,
    window: int,
)
    requires
        !(config.layout is Floating),
        space.windows@.len() <= usize::MAX,
        requests.map_values(|t: TileRequest| t.output as int) == requested(
            space,
            space.outputs@.len() as int,
        ),
        forall|k: int|
            0 <= k < requests.len() ==> request_wf(space, config, has_script, #[trigger] requests[k]),
        slots.len() == requests.len(),
        forall|k: int|
            0 <= k < requests.len() ==> slots_suffice(#[trigger] requests[k], slots[k]@),
        is_tiled_on(space, output, window),
    ensures
        ({
            let plans = all_plans(requests, slots, requests.len() as int);
            ||| is_planned(plans, window)
            ||| exists|v: int| #[trigger]
                is_tiled_on(space, output, v) && space.windows@[v].layout.full_width && is_planned(
                    plans,
                    v,
                )
        }),
{
    let id = space.outputs@[output].id;
    let count = space.windows@.len() as int;
    let tiled = tiled_windows(space.windows@, id, count);
    tiled_windows_are_exact(space.windows@, id, count, window);
    let j = choose|j: int| 0 <= j < tiled.len() && tiled[j] == window as usize;
    assert(has_request(space, output));
    outputs_with_windows_are_requested(space, space.outputs@.len() as int, output);
    let outputs = requests.map_values(|t: TileRequest| t.output as int);
    let k = choose|k: int| 0 <= k < outputs.len() && outputs[k] == output;
    let request = requests[k];
    let found = slots[k]@;
    assert(request.output == output && request.windows@ == tiled);
    assert(request_wf(space, config, has_script, request));
    assert(slots_suffice(request, found));
    every_window_of_a_request_is_planned(request, found);
    let plans = request_plans(request, found);
    if exists|at: int| #[trigger] full_width_slot(space.windows@, tiled, at) {
        let at = choose|at: int| #[trigger] full_width_slot(space.windows@, tiled, at);
        let v = tiled[at] as int;
        tiled_windows_are_exact(space.windows@, id, count, v);
        assert(tiled.contains(v as usize));
        assert(is_tiled_on(space, output, v));
        assert(plans[0].window == v);
        plans_of_a_request_are_kept(requests, slots, requests.len() as int, k, v);
    } else {
        assert(plans[j].window == window);
        plans_of_a_request_are_kept(requests, slots, requests.len() as int, k, window);
    }
}

/// What is to be done outside to bring a window to its place.
#[derive(Clone, Copy, Debug, PartialEq, Eq, Structural)]
pub enum LayoutEffect {
    /// Move the window.
    Relocate { window: usize, to: Point },
    /// Ask the client for another size.
    Configure { window: usize, size: Size },
}

pub open spec fn same_place(x1: F64, y1: F64, x2: F64, y2: F64) -> bool {
    x1.same_number(x2) && y1.same_number(y2)
}

/// Where a window is: at its target, if that is not known.
pub open spec fn place_of(w: Window, target: RectF) -> (F64, F64) {
    match w.geometry {
        Some(g) => (F64::of_int(g.loc.x as int), F64::of_int(g.loc.y as int)),
        None => (target.x, target.y),
    }
}

pub open spec fn rounded_place(target: RectF) -> Point {
    Point { x: target.x.rounded() as i32, y: target.y.rounded() as i32 }
}

pub open spec fn whole_size(target: RectF) -> Size {
    Size {
        w: target.w.raised(F64 { bits: 0 }).truncated() as i32,
        h: target.h.raised(F64 { bits: 0 }).truncated() as i32,
    }
}

/// The double just below one half. Its distance from one rounds to one half.
pub const BELOW_HALF_BITS: u64 = 0x3FDF_FFFF_FFFF_FFFF;

/// The least double that is no more than half a pixel from a whole length.
pub open spec fn lower_edge(length: i32) -> F64 {
    if length == 1 {
        F64 { bits: BELOW_HALF_BITS }
    } else {
        F64::half_of(2 * length - 1)
    }
}

/// The greatest double that is no more than half a pixel from a whole length.
pub open spec fn upper_edge(length: i32) -> F64 {
    if length == -1 {
        F64 { bits: (0x8000_0000_0000_0000 + BELOW_HALF_BITS) as u64 }
    } else {
        F64::half_of(2 * length + 1)
    }
}

/// Whether a length is more than half a pixel from a whole one.
pub open spec fn length_differs(current: i32, target: F64) -> bool {
    target.below(lower_edge(current)) || upper_edge(current).below(target)
}

fn lengths_differ(current: i32, target: F64) -> (r: bool)
    ensures
        r == length_differs(current, target),
{
    let lower = if current == 1 {
        F64 { bits: BELOW_HALF_BITS }
    } else {
        F64::half(2 * (current as i64) - 1)
    };
    let upper = if current == -1 {
        F64 { bits: 0x8000_0000_0000_0000 + BELOW_HALF_BITS }
    } else {
        F64::half(2 * (current as i64) + 1)
    };
    target.lt(lower) || upper.lt(target)
}

/// The size that a window has; one that is not placed has none.
pub open spec fn size_of(geometry: Option<Rect>) -> Size {
    match geometry {
        Some(g) => g.size,
        None => Size { w: 0, h: 0 },
    }
}

/// Whether a window's size differs from that of its target by more than half a
/// pixel. Targets can be fractional while windows have whole sizes, so sizes
/// that are closer than that count as the same.
pub open spec fn size_differs(current: Size, target: RectF) -> bool {
    length_differs(current.w, target.w) || length_differs(current.h, target.h)
}

/// Whether a window's size differs from that of its target by more than half a
/// pixel.
pub fn sizes_differ(current: Size, target: &RectF) -> (r: bool)
    ensures
        r == size_differs(current, *target),
{
    lengths_differ(current.w, target.w) || lengths_differ(current.h, target.h)
}

proof fn length_settles(length: i32)
    ensures
        !length_differs(length, F64::of_int(length as int)),
{
    F64::int_between_halves(length);
    if length == 1 || length == -1 {
        F64::one_is(length as int);
    }
}

/// A window that has exactly its target's size is asked for no other.
pub proof fn whole_targets_settle(current: Size, target: RectF)
    requires
        target.w == F64::of_int(current.w as int),
        target.h == F64::of_int(current.h as int),
    ensures
        !size_differs(current, target),
{
    length_settles(current.w);
    length_settles(current.h);
}

/// Whether a window is moved at once: it is new, or the animation that would
/// move it is over before it began.
pub open spec fn jumps(w: Window, target: RectF, anim: Animation, now: u128) -> bool {
    w.layout.move_anim is None && (!w.layout.initialized || (!same_place(
        place_of(w, target).0,
        place_of(w, target).1,
        target.x,
        target.y,
    ) && anim.done_at(now)))
}

/// The position animation of a window on its way to a target: a running one is
/// begun again from where the window is if the target is another, a window at
/// rest elsewhere starts one.
pub open spec fn move_towards(w: Window, target: RectF, anim: Animation, now: u128) -> Option<
    MoveAnimation,
> {
    let (x, y) = place_of(w, target);
    let begun = Some(MoveAnimation { start_x: x, start_y: y, anim });
    match w.layout.move_anim {
        Some(running) => if !running.anim.done_at(now) && !(w.layout.target matches Some(t)
            && same_place(t.x, t.y, target.x, target.y)) {
            begun
        } else {
            Some(running)
        },
        None => if w.layout.initialized && !same_place(x, y, target.x, target.y)
            && !anim.done_at(now) {
            begun
        } else {
            None
        },
    }
}

/// A window after its plan was applied.
pub open spec fn planned(
    w: Window,
    layout: Layout,
    target: RectF,
    anim: Animation,
    now: u128,
) -> Window {
    Window {
        geometry: match w.geometry {
            Some(g) => if jumps(w, target, anim, now) {
                Some(Rect { loc: rounded_place(target), size: g.size })
            } else {
                Some(g)
            },
            None => None,
        },
        layout: LayoutWindowState {
            layout_id: layout.id_for(w.layout),
            move_anim: move_towards(w, target, anim, now),
            target: Some(target),
            initialized: true,
            ..w.layout
        },
        ..w
    }
}

/// What applying a plan asks for: the move first, then the size.
pub open spec fn plan_effects(
    w: Window,
    plan: Plan,
    anim: Animation,
    now: u128,
) -> Seq<LayoutEffect> {
    (if jumps(w, plan.target, anim, now) {
        seq![LayoutEffect::Relocate { window: plan.window, to: rounded_place(plan.target) }]
    } else {
        Seq::empty()
    }) + (if size_differs(size_of(w.geometry), plan.target) {
        seq![LayoutEffect::Configure { window: plan.window, size: whole_size(plan.target) }]
    } else {
        Seq::empty()
    })
}

/// The animation that windows move by.
pub open spec fn move_animation(
    enabled: bool,
    config: AnimConfig,
    times: SpringTimes,
    now: u128,
) -> Animation {
    if enabled {
        config.animation(F64 { bits: 0 }, F64 { bits: ONE_BITS }, times, now)
    } else {
        Animation::off(now)
    }
}

/// Applies one plan: starts or keeps the position animation, moves the window
/// at once where none is wanted, asks for the size where it differs, and stores
/// the target.
fn apply_plan(
    windows: &mut Vec<Window>,
    layout: &mut Layout,
    plan: &Plan,
    anim: Animation,
    now: u128,
    effects: &mut Vec<LayoutEffect>,
)
    requires
        plan.window < old(windows)@.len(),
        old(layout).last_layout_id < u64::MAX,
    ensures
        final(windows)@ == old(windows)@.update(
            plan.window as int,
            planned(old(windows)@[plan.window as int], *old(layout), plan.target, anim, now),
        ),
        *final(layout) == old(layout).after_id(old(windows)@[plan.window as int].layout),
        final(effects)@ == old(effects)@ + plan_effects(
            old(windows)@[plan.window as int],
            *plan,
            anim,
            now,
        ),
{
    let i: usize = plan.window;
    let ghost w0 = windows@[i as int];
    let ghost effects0 = effects@;
    let target = plan.target;
    let mut lws = windows[i].layout;
    layout.assign_layout_id(&mut lws);
    let geometry = windows[i].geometry;
    let (x, y) = match geometry {
        Some(g) => (F64::from_i32(g.loc.x), F64::from_i32(g.loc.y)),
        None => (target.x, target.y),
    };
    let same_target = match lws.target {
        Some(t) => t.x.equals(target.x) && t.y.equals(target.y),
        None => false,
    };
    let there = x.equals(target.x) && y.equals(target.y);
    let begun = Some(MoveAnimation { start_x: x, start_y: y, anim });
    let mut jump = false;
    match lws.move_anim {
        Some(running) => {
            if !running.anim.is_done(now) && !same_target {
                lws.move_anim = begun;
            }
        },
        None => {
            if !lws.initialized {
                jump = true;
            } else if !there {
                if anim.is_done(now) {
                    jump = true;
                } else {
                    lws.move_anim = begun;
                }
            }
        },
    }
    lws.target = Some(target);
    lws.initialized = true;
    if jump {
        let to = Point { x: target.x.round_i32(), y: target.y.round_i32() };
        match geometry {
            Some(g) => {
                windows[i].geometry = Some(Rect { loc: to, size: g.size });
            },
            None => {},
        }
        effects.push(LayoutEffect::Relocate { window: i, to });
    }
    windows[i].layout = lws;
    let current = match geometry {
        Some(g) => g.size,
        None => Size { w: 0, h: 0 },
    };
    if sizes_differ(current, &target) {
        let zero = F64 { bits: 0 };
        let size = Size {
            w: target.w.at_least(zero).trunc_i32(),
            h: target.h.at_least(zero).trunc_i32(),
        };
        effects.push(LayoutEffect::Configure { window: i, size });
    }
    assert(effects@ =~= effects0 + plan_effects(w0, *plan, anim, now));
    assert(windows@[i as int] == planned(w0, *old(layout), target, anim, now));
}

/// The windows, the layout and the effects after the first `upto` plans.
pub open spec fn arranged(
    windows: Seq<Window>,
    layout: Layout,
    plans: Seq<Plan>,
    anim: Animation,
    now: u128,
    upto: int,
) -> (Seq<Window>, Layout, Seq<LayoutEffect>)
    decreases upto,
{
    if upto <= 0 {
        (windows, layout, Seq::empty())
    } else {
        let (w, l, e) = arranged(windows, layout, plans, anim, now, upto - 1);
        let plan = plans[upto - 1];
        let at = plan.window as int;
        (
            w.update(at, planned(w[at], l, plan.target, anim, now)),
            l.after_id(w[at].layout),
            e + plan_effects(w[at], plan, anim, now),
        )
    }
}

/// Arranging keeps the ids of the windows distinct, gives every planned window
/// one, and leaves windows without a plan as they are.
pub proof fn arranging_is_local(
    windows: Seq<Window>,
    layout: Layout,
    plans: Seq<Plan>,
    anim: Animation,
    now: u128,
    upto: int,
)
    requires
        0 <= upto <= plans.len(),
        forall|k: int| 0 <= k < plans.len() ==> (#[trigger] plans[k]).window < windows.len(),
        ids_wf(windows, layout),
        layout.last_layout_id + plans.len() <= u64::MAX,
    ensures
        ({
            let (w, l, _) = arranged(windows, layout, plans, anim, now, upto);
            &&& w.len() == windows.len()
            &&& ids_wf(w, l)
            &&& l.last_layout_id <= layout.last_layout_id + upto
            &&& forall|k: int|
                0 <= k < upto ==> w[(#[trigger] plans[k]).window as int].layout.initialized
                    && w[plans[k].window as int].layout.layout_id != 0
            &&& forall|i: int|
                0 <= i < windows.len() && (forall|k: int|
                    0 <= k < upto ==> (#[trigger] plans[k]).window != i) ==> #[trigger] w[i]
                    == windows[i]
        }),
    decreases upto,
{
    if upto > 0 {
        arranging_is_local(windows, layout, plans, anim, now, upto - 1);
        let (w, l, _) = arranged(windows, layout, plans, anim, now, upto - 1);
        let at = plans[upto - 1].window as int;
        layout_ids_are_stable(w, l, at);
    }
}

impl AnvilState {
    /// The animation that windows move by now.
    pub open spec fn move_anim_at(self, times: SpringTimes, now: u128) -> Animation {
        move_animation(
            self.config.animations.enable,
            self.config.layout.animation.move_anim,
            times,
            now,
        )
    }

    /// Animates all windows to the targets of their plans. `times` are those of
    /// the spring that windows move by, if it is one. A floating layout places
    /// nothing.
    pub fn arrange_layout(
        &mut self,
        plans: &Vec<Plan>,
        times: SpringTimes,
        now: u128,
    ) -> (effects: Vec<LayoutEffect>)
        requires
            forall|k: int|
                0 <= k < plans@.len() ==> (#[trigger] plans@[k]).window < old(self).space.windows@.len(),
            old(self).layout.last_layout_id + plans@.len() <= u64::MAX,
        ensures
            old(self).config.layout.layout is Floating ==> *final(self) == *old(self)
                && effects@.len() == 0,
            !(old(self).config.layout.layout is Floating) ==> (
                final(self).space.windows@,
                final(self).layout,
                effects@,
            ) == arranged(
                old(self).space.windows@,
                old(self).layout,
                plans@,
                old(self).move_anim_at(times, now),
                now,
                plans@.len() as int,
            ),
            *final(self) == (AnvilState {
                space: Space { outputs: old(self).space.outputs, ..final(self).space },
                layout: final(self).layout,
                ..*old(self)
            }),
    {
        let mut effects: Vec<LayoutEffect> = Vec::new();
        match self.config.layout.layout {
            LayoutType::Floating => {
                return effects;
            },
            _ => {},
        }
        let anim = if self.config.animations.enable {
            let config = self.config.layout.animation.move_anim;
            config.to_animation(F64 { bits: 0 }, F64 { bits: ONE_BITS }, times, now)
        } else {
            Animation::new_off(now)
        };
        let mut i: usize = 0;
        while i < plans.len()
            invariant
                i <= plans@.len(),
                self.space.windows@.len() == old(self).space.windows@.len(),
                forall|k: int|
                    0 <= k < plans@.len() ==> (#[trigger] plans@[k]).window < old(self).space.windows@.len(),
                self.layout.last_layout_id + (plans@.len() - i) <= u64::MAX,
                (self.space.windows@, self.layout, effects@) == arranged(
                    old(self).space.windows@,
                    old(self).layout,
                    plans@,
                    anim,
                    now,
                    i as int,
                ),
                *self == (AnvilState {
                    space: Space { outputs: old(self).space.outputs, ..self.space },
                    layout: self.layout,
                    ..*old(self)
                }),
            decreases plans@.len() - i,
        {
            apply_plan(
                &mut self.space.windows,
                &mut self.layout,
                &plans[i],
                anim,
                now,
                &mut effects,
            );
            i = i + 1;
        }
        effects
    }
}

/// One step of a window towards its target.
#[derive(Clone, Copy, Debug, PartialEq, Eq, Structural)]
pub enum MoveStep {
    /// The window has arrived.
    Arrive { window: usize, to: Point },
    /// The window is `value` of the way from its start to its destination.
    Glide {
        window: usize,
        start_x: F64,
        start_y: F64,
        dest_x: F64,
        dest_y: F64,
        value: AnimationValue,
    },
}

/// Whether a window's fade ends with this frame.
pub open spec fn fades_out(w: Window, now: u128) -> bool {
    w.fade_anim matches Some(fade) && fade.done_at(now)
}

/// Whether a window's move ends with this frame.
pub open spec fn arrives(w: Window, now: u128) -> bool {
    w.layout.move_anim matches Some(m) && m.anim.done_at(now)
}

/// Where a window is after this frame: at its target where its move is over, at
/// `place`, rounded, while it is on its way, and else where it was.
pub open spec fn place_after(w: Window, place: PointF, now: u128) -> Option<Rect> {
    match w.geometry {
        Some(g) => Some(
            Rect {
                loc: if arrives(w, now) {
                    match w.layout.target {
                        Some(target) => rounded_place(target),
                        None => g.loc,
                    }
                } else if w.layout.move_anim is Some {
                    Point { x: place.x.rounded() as i32, y: place.y.rounded() as i32 }
                } else {
                    g.loc
                },
                size: g.size,
            },
        ),
        None => None,
    }
}

/// Whether a frame changes a window: its fade or its move ends, or it is at
/// another place.
pub open spec fn stirs(w: Window, place: PointF, now: u128) -> bool {
    fades_out(w, now) || arrives(w, now) || place_after(w, place, now) != w.geometry
}

/// A window after a frame: it is at its new place, and a fade or a move that is
/// over is dropped.
pub open spec fn advanced(w: Window, place: PointF, now: u128) -> Window {
    Window {
        fade_anim: if fades_out(w, now) {
            None
        } else {
            w.fade_anim
        },
        geometry: place_after(w, place, now),
        layout: LayoutWindowState {
            move_anim: if arrives(w, now) {
                None
            } else {
                w.layout.move_anim
            },
            ..w.layout
        },
        ..w
    }
}

/// Where a window moves with this frame.
pub open spec fn step_of(w: Window, at: usize, now: u128) -> Option<MoveStep> {
    match w.layout.move_anim {
        Some(m) => if m.anim.done_at(now) {
            match w.layout.target {
                Some(t) => Some(MoveStep::Arrive { window: at, to: rounded_place(t) }),
                None => None,
            }
        } else {
            let (dest_x, dest_y) = match w.layout.target {
                Some(t) => (t.x, t.y),
                None => (m.start_x, m.start_y),
            };
            Some(
                MoveStep::Glide {
                    window: at,
                    start_x: m.start_x,
                    start_y: m.start_y,
                    dest_x,
                    dest_y,
                    value: if m.anim.clamped_done_at(now) {
                        AnimationValue::Exact { value: m.anim.to }
                    } else {
                        m.anim.value_now(now)
                    },
                },
            )
        },
        None => None,
    }
}

/// The steps of the first `upto` windows.
pub open spec fn steps_of(windows: Seq<Window>, now: u128, upto: int) -> Seq<MoveStep>
    decreases upto,
{
    if upto <= 0 {
        Seq::empty()
    } else {
        match step_of(windows[upto - 1], (upto - 1) as usize, now) {
            Some(step) => steps_of(windows, now, upto - 1).push(step),
            None => steps_of(windows, now, upto - 1),
        }
    }
}

impl Layout {
    /// Where windows move with this frame.
    pub fn steps(space: &Space, now: u128) -> (r: Vec<MoveStep>)
        ensures
            r@ == steps_of(space.windows@, now, space.windows@.len() as int),
    {
        let mut steps: Vec<MoveStep> = Vec::new();
        let mut i: usize = 0;
        while i < space.windows.len()
            invariant
                i <= space.windows@.len(),
                steps@ == steps_of(space.windows@, now, i as int),
            decreases space.windows@.len() - i,
        {
            let lws = space.windows[i].layout;
            match lws.move_anim {
                Some(m) => {
                    if m.anim.is_done(now) {
                        match lws.target {
                            Some(t) => {
                                let to = Point { x: t.x.round_i32(), y: t.y.round_i32() };
                                steps.push(MoveStep::Arrive { window: i, to });
                            },
                            None => {},
                        }
                    } else {
                        let (dest_x, dest_y) = match lws.target {
                            Some(t) => (t.x, t.y),
                            None => (m.start_x, m.start_y),
                        };
                        steps.push(
                            MoveStep::Glide {
                                window: i,
                                start_x: m.start_x,
                                start_y: m.start_y,
                                dest_x,
                                dest_y,
                                value: m.anim.clamped_value(now),
                            },
                        );
                    }
                },
                None => {},
            }
            i = i + 1;
        }
        steps
    }

    /// Advances the layout animations by one frame. `places` are, window by
    /// window, where those on their way are now. Tells whether any window moved,
    /// or ended its move or its fade, so that a redraw is needed.
    pub fn update(space: &mut Space, places: &Vec<PointF>, now: u128) -> (r: bool)
        requires
            places@.len() == old(space).windows@.len(),
        ensures
            final(space).outputs == old(space).outputs,
            final(space).windows@ == Seq::new(
                old(space).windows@.len(),
                |i: int| advanced(old(space).windows@[i], places@[i], now),
            ),
            r == (exists|i: int|
                0 <= i < old(space).windows@.len() && stirs(
                    #[trigger] old(space).windows@[i],
                    places@[i],
                    now,
                )),
    {
        let ghost windows0 = space.windows@;
        let mut changed = false;
        let mut i: usize = 0;
        while i < space.windows.len()
            invariant
                i <= space.windows@.len() == windows0.len() == places@.len(),
                space.outputs == old(space).outputs,
                changed == (exists|k: int|
                    0 <= k < i && stirs(#[trigger] windows0[k], places@[k], now)),
                forall|k: int|
                    0 <= k < i ==> space.windows@[k] == advanced(windows0[k], places@[k], now),
                forall|k: int| i <= k < windows0.len() ==> space.windows@[k] == windows0[k],
            decreases space.windows@.len() - i,
        {
            let ghost w0 = windows0[i as int];
            let place = places[i];
            let mut stirred = false;
            match space.windows[i].fade_anim {
                Some(fade) => {
                    if fade.is_done(now) {
                        space.windows[i].fade_anim = None;
                        stirred = true;
                    }
                },
                None => {},
            }
            let lws = space.windows[i].layout;
            match lws.move_anim {
                Some(m) => {
                    let done = m.anim.is_done(now);
                    let to = if done {
                        match lws.target {
                            Some(t) => Some(Point { x: t.x.round_i32(), y: t.y.round_i32() }),
                            None => None,
                        }
                    } else {
                        Some(Point { x: place.x.round_i32(), y: place.y.round_i32() })
                    };
                    match (space.windows[i].geometry, to) {
                        (Some(g), Some(to)) => {
                            if !(to.x == g.loc.x && to.y == g.loc.y) {
                                stirred = true;
                            }
                            space.windows[i].geometry = Some(Rect { loc: to, size: g.size });
                        },
                        _ => {},
                    }
                    if done {
                        space.windows[i].layout.move_anim = None;
                        stirred = true;
                    }
                },
                None => {},
            }
            assert(space.windows@[i as int] == advanced(w0, place, now));
            assert(stirred == stirs(w0, place, now));
            if stirred {
                changed = true;
            }
            i = i + 1;
        }
        assert(space.windows@ =~= Seq::new(
            windows0.len(),
            |i: int| advanced(windows0[i], places@[i], now),
        ));
        changed
    }
}

/// Once no window fades or is on its way, a frame changes nothing, asks for no
/// move and for no redraw.
pub proof fn update_settles(w: Window, place: PointF, now: u128)
    requires
        !fades_out(w, now),
        w.layout.move_anim is None,
    ensures
        !stirs(w, place, now),
        advanced(w, place, now) == w,
        forall|at: usize| step_of(w, at, now) is None,
{
}

/// A frame that asks for no redraw leaves every window where and as it was.
pub proof fn quiet_frames_change_nothing(w: Window, place: PointF, now: u128)
    requires
        !stirs(w, place, now),
    ensures
        advanced(w, place, now) == w,
{
}

/// A window that is back in the layout, without a target.
pub open spec fn released(w: Window) -> Window {
    Window {
        layout: LayoutWindowState {
            is_floating: false,
            move_anim: None,
            target: None,
            ..w.layout
        },
        ..w
    }
}

/// Twice the horizontal center of a rectangle.
pub open spec fn twice_center(g: Rect) -> int {
    2 * g.loc.x + g.size.w
}

/// Whether a window is a tiled, visible one of an output.
pub open spec fn has_slot(w: Window, output: u64) -> bool {
    w.outputs@.contains(output) && !w.hidden && !w.layout.is_floating
}

/// The windows among the first `upto`, but for `skip`, that have a slot on the
/// output (or, for `with` false, that have none), from the bottom up.
pub open spec fn peers(
    windows: Seq<Window>,
    output: u64,
    skip: int,
    with: bool,
    upto: int,
) -> Seq<Window>
    decreases upto,
{
    if upto <= 0 {
        Seq::empty()
    } else if upto - 1 != skip && has_slot(windows[upto - 1], output) == with {
        peers(windows, output, skip, with, upto - 1).push(windows[upto - 1])
    } else {
        peers(windows, output, skip, with, upto - 1)
    }
}

/// Whether the center of a window is left of twice a position.
pub open spec fn is_left(w: Window, twice: int) -> bool {
    w.geometry matches Some(g) && twice_center(g) < twice
}

/// Where a window with this center goes among its peers, from the bottom: below
/// it are those up to the first whose center is left of its own, so that it
/// comes after every column that it is to the right of.
pub open spec fn is_drop_slot(peers: Seq<Window>, twice: int, at: int) -> bool {
    &&& 0 <= at <= peers.len()
    &&& at < peers.len() ==> is_left(peers[at], twice)
    &&& forall|k: int| 0 <= k < at ==> !is_left(#[trigger] peers[k], twice)
}

/// The output that a window is reordered on: the first that it is on, else the
/// first of all.
pub open spec fn reorder_output(space: Space, window: int) -> Option<u64> {
    if space.windows@[window].outputs@.len() > 0 {
        Some(space.windows@[window].outputs@[0])
    } else if space.outputs@.len() > 0 {
        Some(space.outputs@[0].id)
    } else {
        None
    }
}

/// The windows when one of them is put back into the layout.
pub open spec fn with_released(windows: Seq<Window>, window: int) -> Seq<Window> {
    windows.update(window, released(windows[window]))
}

/// Whether `after` are the windows of `start` with one of them in the slot under
/// it: those without a slot first, in their order, then those with one, in theirs.
pub open spec fn dropped(
    start: Seq<Window>,
    output: u64,
    window: int,
    twice: int,
    after: Seq<Window>,
) -> bool {
    exists|at: int|
        #![trigger is_drop_slot(peers(start, output, window, true, start.len() as int), twice, at)]
        is_drop_slot(peers(start, output, window, true, start.len() as int), twice, at) && after
            == peers(start, output, window, false, start.len() as int) + peers(
            start,
            output,
            window,
            true,
            start.len() as int,
        ).insert(at, start[window])
}

/// Whether `after` are the windows of a space when one of them is put back into
/// the layout.
pub open spec fn reordered(before: Space, window: int, moved: bool, after: Seq<Window>) -> bool {
    let start = with_released(before.windows@, window);
    if before.windows@[window].geometry is Some && reorder_output(before, window) is Some {
        moved && dropped(
            start,
            reorder_output(before, window)->0,
            window,
            twice_center(before.windows@[window].geometry->0),
            after,
        )
    } else {
        !moved && after == start
    }
}

/// Reordering moves windows in the stack: none is lost and none comes in.
pub proof fn reorder_is_a_permutation(
    windows: Seq<Window>,
    output: u64,
    window: int,
    at: int,
)
    requires
        0 <= window < windows.len(),
        0 <= at <= peers(windows, output, window, true, windows.len() as int).len(),
    ensures
        (peers(windows, output, window, false, windows.len() as int) + peers(
            windows,
            output,
            window,
            true,
            windows.len() as int,
        ).insert(at, windows[window])).to_multiset() == windows.to_multiset(),
{
    broadcast use vstd::multiset::group_multiset_axioms;

    let n = windows.len() as int;
    let rest = peers(windows, output, window, false, n);
    let slots = peers(windows, output, window, true, n);
    peers_partition(windows, output, window, n);
    assert(windows.take(n) == windows);
    vstd::seq_lib::to_multiset_insert(slots, at, windows[window]);
    vstd::seq_lib::lemma_multiset_commutative(rest, slots.insert(at, windows[window]));
    assert((rest + slots.insert(at, windows[window])).to_multiset() =~= windows.to_multiset());
}

proof fn peers_partition(windows: Seq<Window>, output: u64, skip: int, upto: int)
    requires
        0 <= upto <= windows.len(),
        0 <= skip,
    ensures
        peers(windows, output, skip, false, upto).to_multiset().add(
            if skip < upto {
                peers(windows, output, skip, true, upto).to_multiset().insert(windows[skip])
            } else {
                peers(windows, output, skip, true, upto).to_multiset()
            },
        ) == windows.take(upto).to_multiset(),
    decreases upto,
{
    broadcast use vstd::multiset::group_multiset_axioms;

    let rest = peers(windows, output, skip, false, upto);
    let slots = peers(windows, output, skip, true, upto);
    if upto <= 0 {
        assert(windows.take(0) == Seq::<Window>::empty());
        assert(rest == Seq::<Window>::empty() && slots == Seq::<Window>::empty());
        let none = Seq::<Window>::empty();
        none.to_multiset_ensures();
        assert forall|x: Window| none.to_multiset().count(x) == 0 by {
            assert(!none.contains(x));
        }
        assert(none.to_multiset().add(none.to_multiset()) =~= none.to_multiset());
    } else {
        peers_partition(windows, output, skip, upto - 1);
        let w = windows[upto - 1];
        let before = windows.take(upto - 1);
        assert(windows.take(upto) == before.push(w));
        vstd::seq_lib::to_multiset_build(before, w);
        let rest0 = peers(windows, output, skip, false, upto - 1);
        let slots0 = peers(windows, output, skip, true, upto - 1);
        vstd::seq_lib::to_multiset_build(rest0, w);
        vstd::seq_lib::to_multiset_build(slots0, w);
        let whole = if skip < upto {
            slots.to_multiset().insert(windows[skip])
        } else {
            slots.to_multiset()
        };
        let whole0 = if skip < upto - 1 {
            slots0.to_multiset().insert(windows[skip])
        } else {
            slots0.to_multiset()
        };
        assert(rest0.to_multiset().add(whole0) == before.to_multiset());
        assert(rest.to_multiset().add(whole) =~= before.to_multiset().insert(w));
    }
}

/// A window that was taken out of the layout, or put back: it has no way and no
/// target any more.
pub open spec fn refloated(w: Window) -> Window {
    Window {
        layout: LayoutWindowState {
            is_floating: !w.layout.is_floating,
            move_anim: None,
            resize_snapshot: None,
            target: None,
            ..w.layout
        },
        ..w
    }
}

impl AnvilState {
    /// Puts a window back into the layout, in the slot under its current
    /// position: after every window of its output whose center is left of its
    /// own. Slots go by the stacking order, topmost first, so the windows with
    /// a slot are restacked above all others. Tells whether it was done, so
    /// that the layout is to be arranged anew.
    pub fn reorder_layout_window(&mut self, window: usize) -> (moved: bool)
        requires
            window < old(self).space.windows@.len(),
        ensures
            *final(self) == (AnvilState {
                space: Space { outputs: old(self).space.outputs, ..final(self).space },
                ..*old(self)
            }),
            reordered(old(self).space, window as int, moved, final(self).space.windows@),
    {
        self.space.windows[window].layout.is_floating = false;
        self.space.windows[window].layout.move_anim = None;
        self.space.windows[window].layout.target = None;
        let ghost start = self.space.windows@;
        assert(start =~= old(self).space.windows@.update(
            window as int,
            released(old(self).space.windows@[window as int]),
        ));
        let geometry = match self.space.windows[window].geometry {
            Some(g) => g,
            None => {
                return false;
            },
        };
        let output: u64 = if self.space.windows[window].outputs.len() > 0 {
            self.space.windows[window].outputs[0]
        } else if self.space.outputs.len() > 0 {
            self.space.outputs[0].id
        } else {
            return false;
        };
        let twice: i64 = 2 * geometry.loc.x as i64 + geometry.size.w as i64;

        let mut todo: Vec<Window> = Vec::new();
        std::mem::swap(&mut todo, &mut self.space.windows);
        let count: usize = todo.len();
        let mut rest: Vec<Window> = Vec::new();
        let mut slots: Vec<Window> = Vec::new();
        let mut dragged: Option<Window> = None;
        let mut at: usize = 0;
        let mut found = false;
        let mut i: usize = 0;
        while todo.len() > 0
            invariant
                i + todo@.len() == count == start.len(),
                window < count,
                todo@ == start.skip(i as int),
                rest@ == peers(start, output, window as int, false, i as int),
                slots@ == peers(start, output, window as int, true, i as int),
                dragged == (if i > window {
                    Some(start[window as int])
                } else {
                    None
                }),
                at <= slots@.len() <= i,
                found ==> at < slots@.len() && is_left(slots@[at as int], twice as int),
                !found ==> at == slots@.len(),
                forall|k: int| 0 <= k < at ==> !is_left(#[trigger] slots@[k], twice as int),
            decreases todo@.len(),
        {
            let w = todo.remove(0);
            assert(w == start[i as int]);
            assert(todo@ =~= start.skip(i + 1));
            if i == window {
                dragged = Some(w);
            } else if holds(&w.outputs, output) && !w.hidden && !w.layout.is_floating {
                if !found {
                    let left = match w.geometry {
                        Some(g) => 2 * g.loc.x as i64 + (g.size.w as i64) < twice,
                        None => false,
                    };
                    assert(left == is_left(w, twice as int));
                    if left {
                        found = true;
                    } else {
                        at = at + 1;
                    }
                }
                slots.push(w);
            } else {
                rest.push(w);
            }
            i = i + 1;
        }
        match dragged {
            Some(w) => {
                slots.insert(at, w);
            },
            None => {},
        }
        rest.append(&mut slots);
        self.space.windows = rest;
        proof {
            let n = start.len() as int;
            let peer_slots = peers(start, output, window as int, true, n);
            assert(start == with_released(old(self).space.windows@, window as int));
            assert(is_drop_slot(peer_slots, twice_center(geometry), at as int));
            assert(self.space.windows@ == peers(start, output, window as int, false, n)
                + peer_slots.insert(at as int, start[window as int]));
            assert(dropped(
                start,
                output,
                window as int,
                twice_center(geometry),
                self.space.windows@,
            ));
        }
        true
    }

    /// Takes a window out of the layout, or puts it back. The layout is to be
    /// arranged anew.
    pub fn toggle_window_floating(&mut self, window: usize)
        requires
            window < old(self).space.windows@.len(),
        ensures
            final(self).space.windows@ == old(self).space.windows@.update(
                window as int,
                Window {
                    layout: LayoutWindowState {
                        is_floating: !old(self).space.windows@[window as int].layout.is_floating,
                        move_anim: None,
                        resize_snapshot: None,
                        target: None,
                        ..old(self).space.windows@[window as int].layout
                    },
                    ..old(self).space.windows@[window as int]
                },
            ),
            final(self).space.windows@[window as int] == refloated(
                old(self).space.windows@[window as int],
            ),
            *final(self) == (AnvilState {
                space: Space { outputs: old(self).space.outputs, ..final(self).space },
                ..*old(self)
            }),
    {
        let ghost w0 = self.space.windows@[window as int];
        let floating = self.space.windows[window].layout.is_floating;
        self.space.windows[window].layout.is_floating = !floating;
        self.space.windows[window].layout.move_anim = None;
        self.space.windows[window].layout.resize_snapshot = None;
        self.space.windows[window].layout.target = None;
        assert(self.space.windows@ =~= old(self).space.windows@.update(
            window as int,
            self.space.windows@[window as int],
        ));
    }
}

/// The windows that the layout places are those that are in it, in the middle
/// and on the active workspace.
pub proof fn only_settled_windows_are_tiled(w: Window)
    ensures
        is_tiled(w) <==> !w.layout.is_floating && !w.needs_center && !w.hidden,
{
}

/// Slots go to the windows from the top of the stack down.
pub proof fn topmost_windows_come_first(
    windows: Seq<Window>,
    output: u64,
    upto: int,
    i: int,
    j: int,
)
    requires
        0 <= upto <= windows.len() <= usize::MAX,
        0 <= i < j < tiled_windows(windows, output, upto).len(),
    ensures
        tiled_windows(windows, output, upto)[i] > tiled_windows(windows, output, upto)[j],
    decreases upto,
{
    tiled_windows_are_exact(windows, output, upto - 1, 0);
    let rest = tiled_windows(windows, output, upto - 1);
    let all = tiled_windows(windows, output, upto);
    if windows[upto - 1].outputs@.contains(output) && is_tiled(windows[upto - 1]) {
        assert(all == seq![(upto - 1) as usize] + rest);
        if i > 0 {
            topmost_windows_come_first(windows, output, upto - 1, i - 1, j - 1);
            assert(all[i] == rest[i - 1]);
        }
        assert(all[j] == rest[j - 1]);
    } else {
        topmost_windows_come_first(windows, output, upto - 1, i, j);
    }
}

/// How slots are found is what the layout is called: columns for columns, a grid
/// for a grid, a master and its stack, the whole area for each window, and a
/// function of the script where there is one. Columns and grids have room for
/// exactly the windows, and a column keeps a width of its own above zero.
pub proof fn slots_are_those_of_the_layout(
    space: Seq<Window>,
    windows: Seq<usize>,
    config: LayoutConfig,
    has_script: bool,
    slots: SlotRequest,
    k: int,
)
    requires
        slots_for(space, windows, config, has_script, slots),
        !(config.layout is Floating),
        0 <= k < windows.len(),
        forall|i: int|
            0 <= i < windows.len() ==> !space[#[trigger] windows[i] as int].layout.full_width,
    ensures
        match slots {
            SlotRequest::Columns { widths } => {
                &&& config.layout is Columns || (config.layout is Custom && (config.custom_fn is None
                    || !has_script))
                &&& widths@.len() == windows.len()
                &&& widths@[k] matches Some(v) ==> space[windows[k] as int].layout.width_override
                    == Some(v) && (F64 { bits: 0 }).below(v)
                &&& widths@[k] is None ==> (space[windows[k] as int].layout.width_override matches Some(
                    v,
                ) ==> !(F64 { bits: 0 }).below(v))
            },
            SlotRequest::Grid { count, cols, rows } => {
                &&& config.layout is Grid
                &&& count == windows.len()
                &&& (cols - 1) * (cols - 1) < count <= cols * cols
                &&& (rows - 1) * cols < count <= rows * cols
            },
            SlotRequest::MasterStack { count } => config.layout is MasterStack && count
                == windows.len(),
            SlotRequest::Maximize => config.layout is Maximize,
            SlotRequest::Custom { callback, windows: told, widths } => {
                let w = space[windows[k] as int];
                &&& config.layout is Custom && has_script
                &&& config.custom_fn == Some(callback)
                &&& told@.len() == windows.len()
                &&& told@[k].id == w.layout.layout_id
                &&& w.geometry matches Some(g) ==> told@[k].w == g.size.w && told@[k].h == g.size.h
                &&& w.geometry is None ==> told@[k].w == 0 && told@[k].h == 0
                &&& told@[k].width == (if w.layout.width_override is Some {
                    w.layout.width_override->0
                } else {
                    F64 { bits: 0 }
                })
                &&& widths@.len() == windows.len()
                &&& widths@[k] matches Some(v) ==> w.layout.width_override == Some(v)
            },
            SlotRequest::Whole { .. } => false,
        },
{
    assert(forall|at: int| !#[trigger] full_width_slot(space, windows, at));
    if slots is Grid {
        let n = windows.len() as int;
        let c = slots->Grid_cols as int;
        let q = n + c - 1;
        vstd::arithmetic::div_mod::lemma_fundamental_div_mod(q, c);
        vstd::arithmetic::div_mod::lemma_mod_bound(q, c);
        let rows = q / c;
        assert((rows - 1) * c < n <= rows * c) by (nonlinear_arith)
            requires
                n + c - 1 == c * rows + q % c,
                0 <= q % c < c,
                q == n + c - 1,
        ;
    }
}

/// Where a window of the output takes the whole area, it is the topmost of those
/// that do, whatever the layout.
pub proof fn the_topmost_full_window_takes_the_area(
    space: Seq<Window>,
    windows: Seq<usize>,
    config: LayoutConfig,
    has_script: bool,
    slots: SlotRequest,
    at: int,
)
    requires
        slots_for(space, windows, config, has_script, slots),
        0 <= at < windows.len(),
        space[windows[at] as int].layout.full_width,
        forall|k: int| 0 <= k < at ==> !space[#[trigger] windows[k] as int].layout.full_width,
    ensures
        slots == (SlotRequest::Whole { window: windows[at] }),
{
    assert(full_width_slot(space, windows, at));
}

/// Cells are filled row by row: the first is in the corner, the next one to the
/// right of it as long as the row lasts, then the first of the next row.
pub proof fn rows_are_filled_one_by_one(i: int, cols: int)
    requires
        0 <= i,
        0 < cols,
    ensures
        cell_at(0, cols) == (0int, 0int),
        ({
            let (row, column) = cell_at(i, cols);
            let next = cell_at(i + 1, cols);
            &&& 0 <= column < cols
            &&& column + 1 < cols ==> next == (row, column + 1)
            &&& column + 1 == cols ==> next == (row + 1, 0int)
        }),
{
    vstd::arithmetic::div_mod::lemma_fundamental_div_mod(i, cols);
    vstd::arithmetic::div_mod::lemma_mod_bound(i, cols);
    vstd::arithmetic::div_mod::lemma_small_mod(0, cols as nat);
    vstd::arithmetic::div_mod::lemma_basic_div(0, cols);
    let q = i / cols;
    let r = i % cols;
    if r + 1 < cols {
        assert(i + 1 == q * cols + (r + 1)) by (nonlinear_arith)
            requires
                i == cols * q + r,
        ;
        vstd::arithmetic::div_mod::lemma_fundamental_div_mod_converse(i + 1, cols, q, r + 1);
    } else {
        assert(i + 1 == (q + 1) * cols + 0) by (nonlinear_arith)
            requires
                i == cols * q + r,
                r + 1 == cols,
        ;
        vstd::arithmetic::div_mod::lemma_fundamental_div_mod_converse(i + 1, cols, q + 1, 0);
    }
}

/// A window with a plan goes to its own slot as it is; only a slot of a function
/// of the script is kept from having a negative side. Where all windows take the
/// area, or one does, that is their target.
pub proof fn plans_are_the_slots(request: TileRequest, slots: Seq<Option<RectF>>, k: int)
    requires
        0 <= k < request.windows@.len(),
        request.slots is Whole || request.slots is Maximize || (slots.len()
            == request.windows@.len() && forall|i: int|
            0 <= i < slots.len() ==> #[trigger] slots[i] is Some),
    ensures
        ({
            let plans = request_plans(request, slots);
            match request.slots {
                SlotRequest::Whole { window } => plans.len() == 1 && plans[0].window == window
                    && plans[0].target == request.area,
                SlotRequest::Maximize => plans[k].window == request.windows@[k] && plans[k].target
                    == request.area,
                SlotRequest::Custom { .. } => {
                    let given = slots[k]->0;
                    let target = plans[k].target;
                    &&& plans[k].window == request.windows@[k]
                    &&& target.x == given.x && target.y == given.y
                    &&& (F64 { bits: 0 }).at_most(target.w) && (F64 { bits: 0 }).at_most(target.h)
                    &&& (F64 { bits: 0 }).at_most(given.w) ==> target.w == given.w
                    &&& (F64 { bits: 0 }).at_most(given.h) ==> target.h == given.h
                },
                _ => plans[k].window == request.windows@[k] && Some(plans[k].target) == slots[k],
            }
        }),
{
    every_window_of_a_request_is_planned(request, slots);
}

/// While a window is on its way its step goes from where it started to its
/// target, each way by itself; when its time is over it arrives at that target,
/// rounded. A window that is not on its way has no step.
pub proof fn windows_move_to_their_targets(w: Window, at: usize, now: u128)
    ensures
        w.layout.move_anim is None ==> step_of(w, at, now) is None,
        w.layout.move_anim matches Some(m) ==> (w.layout.target matches Some(t) ==> {
            let step = step_of(w, at, now);
            &&& !m.anim.done_at(now) ==> (step matches Some(
                MoveStep::Glide { window, start_x, start_y, dest_x, dest_y, value },
            ) && window == at && start_x == m.start_x && start_y == m.start_y && dest_x == t.x
                && dest_y == t.y && value == (if m.anim.clamped_done_at(now) {
                AnimationValue::Exact { value: m.anim.to }
            } else {
                m.anim.value_now(now)
            }))
            &&& m.anim.done_at(now) ==> (step matches Some(MoveStep::Arrive { window, to })
                && window == at && to.x == t.x.rounded() && to.y == t.y.rounded())
        }),
{
}

/// What a window glides to is where it arrives.
pub proof fn glides_end_where_windows_arrive(w: Window, at: usize, now: u128, later: u128)
    requires
        step_of(w, at, now) is Some,
        step_of(w, at, later) is Some,
        step_of(w, at, now)->0 is Glide,
        step_of(w, at, later)->0 is Arrive,
    ensures
        step_of(w, at, later)->0->to.x == step_of(w, at, now)->0->dest_x.rounded(),
        step_of(w, at, later)->0->to.y == step_of(w, at, now)->0->dest_y.rounded(),
        step_of(w, at, later)->0->Arrive_window == step_of(w, at, now)->0->Glide_window,
{
}

/// A frame has the steps of all windows and no others, from the bottom up.
pub proof fn every_moving_window_has_its_step(windows: Seq<Window>, now: u128, upto: int, at: int)
    requires
        0 <= at < upto <= windows.len() <= usize::MAX,
    ensures
        match step_of(windows[at], at as usize, now) {
            Some(step) => steps_of(windows, now, upto).contains(step),
            None => true,
        },
        forall|k: int|
            0 <= k < steps_of(windows, now, upto).len() ==> exists|i: int|
                0 <= i < upto && step_of(#[trigger] windows[i], i as usize, now) == Some(
                    #[trigger] steps_of(windows, now, upto)[k],
                ),
    decreases upto,
{
    let before = steps_of(windows, now, upto - 1);
    let all = steps_of(windows, now, upto);
    if upto > 1 {
        every_moving_window_has_its_step(
            windows,
            now,
            upto - 1,
            if at < upto - 1 {
                at
            } else {
                0
            },
        );
    }
    if at < upto - 1 && step_of(windows[at], at as usize, now) is Some {
        let step = step_of(windows[at], at as usize, now)->0;
        let k = choose|k: int| 0 <= k < before.len() && before[k] == step;
        assert(all[k] == step);
    }
    if step_of(windows[upto - 1], (upto - 1) as usize, now) is Some {
        let step = step_of(windows[upto - 1], (upto - 1) as usize, now)->0;
        assert(all == before.push(step));
        assert(all[before.len() as int] == step);
    }
    assert forall|k: int| 0 <= k < all.len() implies exists|i: int|
        0 <= i < upto && step_of(#[trigger] windows[i], i as usize, now) == Some(
            #[trigger] all[k],
        ) by {
        if k < before.len() {
            assert(all[k] == before[k]);
            let i = choose|i: int|
                0 <= i < upto - 1 && step_of(#[trigger] windows[i], i as usize, now) == Some(
                    before[k],
                );
            assert(step_of(windows[i], i as usize, now) == Some(all[k]));
        } else {
            assert(step_of(windows[upto - 1], (upto - 1) as usize, now) == Some(all[k]));
        }
    }
}

/// A frame brings a window that arrives to its target, one on its way to the
/// place that it is at, and leaves all others. Nothing else of a window changes
/// but that what is over is dropped.
pub proof fn frames_only_move_windows(w: Window, place: PointF, now: u128)
    ensures
        ({
            let after = advanced(w, place, now);
            let arrived = w.layout.move_anim matches Some(m) && m.anim.done_at(now);
            &&& w.geometry is None ==> after.geometry is None
            &&& w.geometry matches Some(g) ==> (after.geometry matches Some(h) && h.size == g.size && (
            if w.layout.move_anim is None || (arrived && w.layout.target is None) {
                h.loc == g.loc
            } else if arrived {
                h.loc.x == w.layout.target->0.x.rounded() && h.loc.y
                    == w.layout.target->0.y.rounded()
            } else {
                h.loc.x == place.x.rounded() && h.loc.y == place.y.rounded()
            }))
            &&& after.layout.move_anim == (if arrived {
                None
            } else {
                w.layout.move_anim
            })
            &&& after.fade_anim == (if w.fade_anim matches Some(fade) && fade.done_at(now) {
                None
            } else {
                w.fade_anim
            })
            &&& after.id == w.id && after.outputs == w.outputs && after.hidden == w.hidden
            &&& after.needs_center == w.needs_center
            &&& after.layout.target == w.layout.target
            &&& after.layout.layout_id == w.layout.layout_id
            &&& after.layout.is_floating == w.layout.is_floating
            &&& after.layout.initialized == w.layout.initialized
            &&& after.layout.resize_snapshot == w.layout.resize_snapshot
            &&& after.layout.width_override == w.layout.width_override
            &&& after.layout.full_width == w.layout.full_width
        }),
{
}

/// A redraw is asked for exactly if the frame changes the window.
pub proof fn redraws_show_a_change(w: Window, place: PointF, now: u128)
    ensures
        stirs(w, place, now) <==> advanced(w, place, now) != w,
{
    let after = advanced(w, place, now);
    if fades_out(w, now) {
        assert(after.fade_anim is None && w.fade_anim is Some);
    }
    if arrives(w, now) {
        assert(after.layout.move_anim is None && w.layout.move_anim is Some);
    }
}

/// A window that the layout has not placed yet is put to its target at once;
/// one that it has placed elsewhere glides there from where it is, if windows
/// glide at all, and else is put there too; one that is there stays.
pub proof fn new_windows_jump_and_others_glide(
    w: Window,
    layout: Layout,
    plan: Plan,
    anim: Animation,
    now: u128,
    g: Rect,
)
    requires
        w.layout.move_anim is None,
        w.geometry == Some(g),
    ensures
        ({
            let t = plan.target;
            let after = planned(w, layout, t, anim, now);
            let effects = plan_effects(w, plan, anim, now);
            let there = F64::of_int(g.loc.x as int).same_number(t.x) && F64::of_int(
                g.loc.y as int,
            ).same_number(t.y);
            let jumped = !w.layout.initialized || (!there && anim.done_at(now));
            &&& jumped ==> {
                &&& after.geometry matches Some(h) && h.size == g.size && h.loc.x == t.x.rounded()
                    && h.loc.y == t.y.rounded()
                &&& after.layout.move_anim is None
                &&& effects.len() > 0 && (effects[0] matches LayoutEffect::Relocate { window, to }
                    && window == plan.window && to.x == t.x.rounded() && to.y == t.y.rounded())
            }
            &&& !jumped ==> {
                &&& after.geometry == w.geometry
                &&& forall|k: int| 0 <= k < effects.len() ==> !(#[trigger] effects[k] is Relocate)
            }
            &&& w.layout.initialized && there ==> after.layout.move_anim is None
            &&& w.layout.initialized && !there && !anim.done_at(now) ==> (
            after.layout.move_anim matches Some(m) && m.start_x == F64::of_int(g.loc.x as int)
                && m.start_y == F64::of_int(g.loc.y as int) && m.anim == anim)
        }),
{
}

/// A window that is on its way goes on if its target stays; for another target
/// it starts anew from where it is.
pub proof fn moving_windows_turn_for_another_target(
    w: Window,
    layout: Layout,
    target: RectF,
    anim: Animation,
    now: u128,
    running: MoveAnimation,
    g: Rect,
)
    requires
        w.layout.move_anim == Some(running),
        w.geometry == Some(g),
    ensures
        ({
            let after = planned(w, layout, target, anim, now);
            let same = w.layout.target matches Some(t) && t.x.same_number(target.x)
                && t.y.same_number(target.y);
            &&& after.geometry == w.geometry
            &&& same || running.anim.done_at(now) ==> after.layout.move_anim == Some(running)
            &&& !same && !running.anim.done_at(now) ==> (after.layout.move_anim matches Some(m)
                && m.anim == anim && m.start_x == F64::of_int(g.loc.x as int) && m.start_y
                == F64::of_int(g.loc.y as int))
        }),
{
}

/// A plan gives a window its target and an id, and nothing else but its way.
pub proof fn plans_set_the_target(
    w: Window,
    layout: Layout,
    target: RectF,
    anim: Animation,
    now: u128,
)
    ensures
        ({
            let after = planned(w, layout, target, anim, now);
            &&& after.layout.target == Some(target)
            &&& after.layout.initialized
            &&& w.layout.layout_id != 0 ==> after.layout.layout_id == w.layout.layout_id
            &&& w.layout.layout_id == 0 && layout.last_layout_id < u64::MAX
                ==> after.layout.layout_id == layout.last_layout_id + 1
            &&& after.id == w.id && after.outputs == w.outputs && after.hidden == w.hidden
            &&& after.needs_center == w.needs_center && after.fade_anim == w.fade_anim
            &&& after.layout.is_floating == w.layout.is_floating
            &&& after.layout.resize_snapshot == w.layout.resize_snapshot
            &&& after.layout.width_override == w.layout.width_override
            &&& after.layout.full_width == w.layout.full_width
            &&& w.geometry is Some <==> after.geometry is Some
            &&& w.geometry matches Some(g) ==> after.geometry->0.size == g.size
        }),
{
}

/// A window with a plan is in the end where the plan has it: at once, or when its
/// way there is over.
pub proof fn planned_windows_end_at_their_target(
    w: Window,
    layout: Layout,
    target: RectF,
    anim: Animation,
    now: u128,
    place: PointF,
    later: u128,
)
    requires
        w.geometry is Some,
        ({
            let after = planned(w, layout, target, anim, now);
            after.layout.move_anim matches Some(m) && m.anim.done_at(later)
        }),
    ensures
        ({
            let end = advanced(planned(w, layout, target, anim, now), place, later);
            end.geometry matches Some(g) && g.loc.x == target.x.rounded() && g.loc.y
                == target.y.rounded() && end.layout.move_anim is None
        }),
{
}

/// A client is asked for a size exactly if a side of its window is more than
/// half a pixel from the target's, and then for the target's, without what is
/// behind the point; a negative side counts as none.
pub proof fn windows_get_the_size_of_their_slot(
    w: Window,
    plan: Plan,
    anim: Animation,
    now: u128,
    width: i32,
    height: i32,
)
    requires
        plan.target.w == F64::of_int(width as int),
        plan.target.h == F64::of_int(height as int),
        w.geometry is Some,
    ensures
        ({
            let effects = plan_effects(w, plan, anim, now);
            let size = w.geometry->0.size;
            &&& size.w == width && size.h == height ==> forall|k: int|
                0 <= k < effects.len() ==> !(#[trigger] effects[k] is Configure)
            &&& forall|k: int|
                0 <= k < effects.len() ==> (#[trigger] effects[k] matches LayoutEffect::Configure {
                    window,
                    size: asked,
                } ==> window == plan.window && (width >= 0 ==> asked.w == width) && (height >= 0
                    ==> asked.h == height) && (width < 0 ==> asked.w == 0) && (height < 0 ==> asked.h
                    == 0))
        }),
{
    if w.geometry->0.size.w == width && w.geometry->0.size.h == height {
        whole_targets_settle(w.geometry->0.size, plan.target);
    }
    F64::of_int_is_exact(width);
    F64::of_int_is_exact(height);
    F64::of_int_keeps_order(width, 0);
    F64::of_int_keeps_order(height, 0);
    F64::of_int_is_exact(0);
    assert(F64::of_int(0) == (F64 { bits: 0 })) by {
        reveal_with_fuel(crate::float::top_bit, 2);
    }
}

/// Windows that glide go from nothing of their way to all of it; where they do
/// not, that is over at once.
pub proof fn ways_go_from_start_to_end(
    enabled: bool,
    config: AnimConfig,
    times: SpringTimes,
    now: u128,
)
    ensures
        ({
            let anim = move_animation(enabled, config, times, now);
            &&& anim.to == (F64 { bits: 0x3FF0_0000_0000_0000 })
            &&& anim.from == (F64 { bits: 0 })
            &&& !enabled || config is Off ==> anim.done_at(now)
        }),
{
    crate::config::animations_run_between(
        config,
        F64 { bits: 0 },
        F64 { bits: ONE_BITS },
        times,
        now,
    );
}

/// A window that is put back into the layout takes its place in the row: if the
/// columns of the others are in order, from the right at the bottom of the stack
/// to the left at the top, then above it are exactly those whose middle is left
/// of its own.
pub proof fn dropped_windows_keep_the_row_in_order(
    row: Seq<Window>,
    twice: int,
    at: int,
    k: int,
    centers: Seq<int>,
)
    requires
        is_drop_slot(row, twice, at),
        centers.len() == row.len(),
        forall|i: int|
            0 <= i < row.len() ==> ((#[trigger] row[i]).geometry matches Some(g) && 2 * g.loc.x
                + g.size.w == centers[i]),
        forall|i: int, j: int|
            0 <= i < j < row.len() ==> #[trigger] centers[i] >= #[trigger] centers[j],
        0 <= k < row.len(),
    ensures
        centers[k] < twice <==> k >= at,
{
    assert(row[k].geometry is Some);
    if at < row.len() {
        assert(row[at].geometry is Some);
        if at < k {
            assert(centers[at] >= centers[k]);
        }
    }
}

/// Only windows that are shown and in the layout have a slot on their output,
/// and putting one back keeps all of it but its way.
pub proof fn slots_are_for_shown_windows(w: Window, output: u64)
    ensures
        has_slot(w, output) <==> w.outputs@.contains(output) && !w.hidden && !w.layout.is_floating,
        !released(w).layout.is_floating,
        released(w).layout.move_anim is None && released(w).layout.target is None,
        released(w).geometry == w.geometry && released(w).id == w.id && released(w).outputs
            == w.outputs && released(w).hidden == w.hidden,
        released(w).layout.layout_id == w.layout.layout_id,
        released(w).layout.width_override == w.layout.width_override,
        released(w).layout.full_width == w.layout.full_width,
        released(w).layout.initialized == w.layout.initialized,
{
}

/// After a window is put back, it is in the stack right above those of its peers
/// that are not left of it, and the peers and the others each keep their order;
/// the others are below.
pub proof fn dropped_windows_are_between_their_neighbours(
    start: Seq<Window>,
    output: u64,
    window: int,
    twice: int,
    after: Seq<Window>,
)
    requires
        0 <= window < start.len(),
        dropped(start, output, window, twice, after),
    ensures
        ({
            let n = start.len() as int;
            let others = peers(start, output, window, false, n);
            let row = peers(start, output, window, true, n);
            exists|at: int|
                #![trigger row[at]]
                {
                    &&& 0 <= at <= row.len()
                    &&& after.len() == others.len() + row.len() + 1
                    &&& after[others.len() + at] == start[window]
                    &&& forall|k: int| 0 <= k < others.len() ==> #[trigger] after[k] == others[k]
                    &&& forall|k: int|
                        0 <= k < at ==> after[others.len() + k] == #[trigger] row[k]
                    &&& forall|k: int|
                        at <= k < row.len() ==> after[others.len() + k + 1] == #[trigger] row[k]
                    &&& forall|k: int|
                        0 <= k < at ==> !((#[trigger] row[k]).geometry matches Some(g) && 2 * g.loc.x
                            + g.size.w < twice)
                    &&& at < row.len() ==> (row[at].geometry matches Some(g) && 2 * g.loc.x
                        + g.size.w < twice)
                }
        }),
{
    let n = start.len() as int;
    let others = peers(start, output, window, false, n);
    let row = peers(start, output, window, true, n);
    let at = choose|at: int|
        #![trigger is_drop_slot(row, twice, at)]
        is_drop_slot(row, twice, at) && after == others + row.insert(at, start[window]);
    let placed = row.insert(at, start[window]);
    let shown = row[at];
    assert(after == others + placed);
    assert(after[others.len() + at] == placed[at]);
    assert forall|k: int| 0 <= k < at implies after[others.len() + k] == #[trigger] row[k] by {
        assert(after[others.len() + k] == placed[k]);
    }
    assert forall|k: int| at <= k < row.len() implies after[others.len() + k + 1]
        == #[trigger] row[k] by {
        assert(after[others.len() + k + 1] == placed[k + 1]);
    }
}

/// Taking a window out of the layout and putting it back has it in again; on
/// the way it loses its target, and nothing else of it changes.
pub proof fn floating_twice_is_tiled_again(w: Window)
    ensures
        refloated(w).layout.is_floating != w.layout.is_floating,
        refloated(refloated(w)).layout.is_floating == w.layout.is_floating,
        refloated(w).layout.target is None && refloated(w).layout.move_anim is None
            && refloated(w).layout.resize_snapshot is None,
        refloated(w).geometry == w.geometry && refloated(w).id == w.id && refloated(w).hidden
            == w.hidden && refloated(w).outputs == w.outputs && refloated(w).fade_anim
            == w.fade_anim && refloated(w).needs_center == w.needs_center,
        refloated(w).layout.layout_id == w.layout.layout_id,
        refloated(w).layout.width_override == w.layout.width_override,
        refloated(w).layout.full_width == w.layout.full_width,
        refloated(w).layout.initialized == w.layout.initialized,
{
}

/// A window is reordered on the first output that it is on, and on the first of
/// all where it is on none.
pub proof fn windows_are_reordered_on_their_output(space: Space, window: int)
    requires
        0 <= window < space.windows@.len(),
    ensures
        space.windows@[window].outputs@.len() > 0 ==> reorder_output(space, window) == Some(
            space.windows@[window].outputs@[0],
        ),
        space.windows@[window].outputs@.len() == 0 && space.outputs@.len() > 0 ==> reorder_output(
            space,
            window,
        ) == Some(space.outputs@[0].id),
        space.windows@[window].outputs@.len() == 0 && space.outputs@.len() == 0 ==> reorder_output(
            space,
            window,
        ) is None,
{
}

/// Only a width above zero takes the place of the layout's own.
pub proof fn only_positive_widths_count(width: F64)
    ensures
        effective_width(None) is None,
        (F64 { bits: 0 }).below(width) ==> effective_width(Some(width)) == Some(width),
        !(F64 { bits: 0 }).below(width) ==> effective_width(Some(width)) is None,
{
}

/// A layout function is told of each window its number, its size and its width,
/// and zeros for what it does not have.
pub proof fn layout_functions_are_told_of_windows(w: Window)
    ensures
        custom_window(w).id == w.layout.layout_id,
        w.geometry matches Some(g) ==> custom_window(w).w == g.size.w && custom_window(w).h == g.size.h,
        w.geometry is None ==> custom_window(w).w == 0 && custom_window(w).h == 0,
        w.layout.width_override matches Some(v) ==> custom_window(w).width == v,
        w.layout.width_override is None ==> custom_window(w).width.bits == 0,
{
}

/// Windows of a slot list keep the order of their slots.
pub proof fn slot_lists_keep_their_order(windows: Seq<Window>, slots: Seq<usize>, k: int)
    requires
        0 <= k < slots.len(),
    ensures
        widths_of(windows, slots).len() == slots.len(),
        custom_windows(windows, slots).len() == slots.len(),
        custom_windows(windows, slots)[k].id == windows[slots[k] as int].layout.layout_id,
        windows[slots[k] as int].layout.width_override is None ==> widths_of(windows, slots)[k] is None,
{
}

/// A window is put back into the layout exactly if it is shown and there is an
/// output for it; else nothing moves.
pub proof fn only_shown_windows_are_put_back(
    before: Space,
    window: int,
    moved: bool,
    after: Seq<Window>,
)
    requires
        0 <= window < before.windows@.len(),
        reordered(before, window, moved, after),
    ensures
        moved <==> before.windows@[window].geometry is Some && (before.windows@[window].outputs@.len()
            > 0 || before.outputs@.len() > 0),
        !moved ==> after.len() == before.windows@.len(),
{
    windows_are_reordered_on_their_output(before, window);
}

/// A window goes below the first of its peers, from the bottom, whose center is
/// left of its own, and above them all where there is none.
pub proof fn windows_are_dropped_below_the_first_on_their_left(
    peers: Seq<Window>,
    twice: int,
    at: int,
)
    requires
        forall|k: int|
            0 <= k < at ==> !((#[trigger] peers[k]).geometry is Some && twice_center(
                peers[k].geometry->0,
            ) < twice),
    ensures
        0 <= at < peers.len() && peers[at].geometry is Some && twice_center(peers[at].geometry->0)
            < twice ==> is_drop_slot(peers, twice, at),
        at == peers.len() ==> is_drop_slot(peers, twice, at),
{
}

/// The first window that takes the whole area is found among the slots.
pub proof fn full_windows_are_found(windows: Seq<Window>, slots: Seq<usize>, at: int)
    requires
        0 <= at < slots.len(),
        windows[slots[at] as int].layout.full_width,
        forall|k: int| 0 <= k < at ==> !windows[#[trigger] slots[k] as int].layout.full_width,
    ensures
        full_width_slot(windows, slots, at),
{
}

} // verus!
