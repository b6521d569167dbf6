//! The compositor's state, as plain values: outputs, windows, and what the
//! layout and the screen casts keep.
use vstd::prelude::*;
use crate::animation::Animation;
use crate::config::Config;
use crate::float::F64;
use crate::geometry::{Rect, Size, Transform};
use crate::layout::{Layout, LayoutWindowState};
use crate::screencasting::Screencasting;

verus! {

/// A rectangle in logical coordinates that need not be whole.
#[derive(Clone, Copy, Debug, PartialEq, Eq, Structural)]
pub struct RectF {
    pub x: F64,
    pub y: F64,
    pub w: F64,
    pub h: F64,
}

#[derive(Clone, Copy, Debug, PartialEq, Eq, Structural)]
pub struct OutputMode {
    pub size: Size,
    /// Refresh rate in millihertz.
    pub refresh: i32,
}

/// An output that windows are shown on.
#[derive(Debug, PartialEq, Eq)]
pub struct Output {
    pub id: u64,
    pub name: String,
    pub mode: Option<OutputMode>,
    pub transform: Transform,
    pub geometry: Option<Rect>,
    /// The part that tiled windows may take: the output without bars, panels
    /// and margins.
    pub work_area: Option<RectF>,
}

/// A mapped window.
#[derive(Debug, PartialEq, Eq)]
pub struct Window {
    pub id: u64,
    pub geometry: Option<Rect>,
    /// The outputs that the window overlaps, by id.
    pub outputs: Vec<u64>,
    /// The window still waits to be centered.
    pub needs_center: bool,
    /// The window is on another workspace.
    pub hidden: bool,
    /// The fade of a workspace switch.
    pub fade_anim: Option<Animation>,
    pub layout: LayoutWindowState,
}

/// Outputs in the order in which they were mapped, windows from the bottom up.
#[derive(Debug, PartialEq, Eq)]
pub struct Space {
    pub outputs: Vec<Output>,
    pub windows: Vec<Window>,
}

impl Space {
    /// The position of the first output with this id.
    pub open spec fn output_at(self, id: u64, at: int) -> bool {
        &&& 0 <= at < self.outputs@.len()
        &&& self.outputs@[at].id == id
        &&& forall|i: int| 0 <= i < at ==> (#[trigger] self.outputs@[i]).id != id
    }

    pub open spec fn lacks_output(self, id: u64) -> bool {
        forall|i: int| 0 <= i < self.outputs@.len() ==> (#[trigger] self.outputs@[i]).id != id
    }

    /// The position of the output with this id.
    pub fn find_output(&self, id: u64) -> (r: Option<usize>)
        ensures
            match r {
                Some(i) => self.output_at(id, i as int),
                None => self.lacks_output(id),
            },
    {
        let mut i: usize = 0;
        while i < self.outputs.len()
            invariant
                i <= self.outputs@.len(),
                forall|k: int| 0 <= k < i ==> (#[trigger] self.outputs@[k]).id != id,
            decreases self.outputs@.len() - i,
        {
            if self.outputs[i].id == id {
                return Some(i);
            }
            i = i + 1;
        }
        None
    }
}

/// The compositor's state.
#[derive(Debug)]
pub struct AnvilState {
    pub space: Space,
    pub layout: Layout,
    pub config: Config,
    pub screencasting: Screencasting,
    /// Whether the session bus is connected.
    pub dbus: bool,
}

/// An output is found by its number, at the first place that has it, and lacks
/// exactly if no place does.
pub proof fn outputs_are_found_by_number(space: Space, id: u64, at: int, other: int)
    ensures
        0 <= at < space.outputs@.len() && space.outputs@[at].id == id && (forall|i: int|
            0 <= i < at ==> (#[trigger] space.outputs@[i]).id != id) ==> space.output_at(id, at),
        space.output_at(id, at) ==> 0 <= at < space.outputs@.len() && space.outputs@[at].id == id,
        space.output_at(id, at) && space.output_at(id, other) ==> at == other,
        space.lacks_output(id) && 0 <= at < space.outputs@.len() ==> space.outputs@[at].id != id,
        space.output_at(id, at) ==> !space.lacks_output(id),
{
}

} // verus!
