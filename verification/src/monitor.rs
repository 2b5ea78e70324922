//! Monitor geometry, and the choice of the monitor a window sits on.

use vstd::prelude::*;

verus! {

/// Position and pixel size of one connected monitor.
#[derive(Debug, Clone, Copy)]
pub struct MonitorData {
    /// Top-left corner of the monitor in the global virtual screen, in pixels.
    pub pos: (u32, u32),
    /// Width and height of the monitor in pixels.
    pub size: (u32, u32),
}

impl MonitorData {
    /// Create new [`MonitorData`].
    pub fn new(pos: (u32, u32), size: (u32, u32)) -> (m: Self)
        ensures
            m.pos == pos,
            m.size == size,
    {
        Self { pos, size }
    }

    /// True when the point `(x, y)` lies on this monitor (borders included).
    pub open spec fn spec_contains(self, x: u32, y: u32) -> bool {
        self.pos.0 <= x <= self.pos.0 + self.size.0
            && self.pos.1 <= y <= self.pos.1 + self.size.1
    }

    /// True when the point `(x, y)` lies on this monitor (borders included).
    pub fn contains(&self, x: u32, y: u32) -> (r: bool)
        ensures
            r == self.spec_contains(x, y),
    {
        let x_in = self.pos.0 <= x && x as u64 <= self.pos.0 as u64 + self.size.0 as u64;
        let y_in = self.pos.1 <= y && y as u64 <= self.pos.1 as u64 + self.size.1 as u64;
        x_in && y_in
    }
}

/// Index of the first monitor whose area contains the window position, or 0
/// when no monitor does (matching the fallback a caller would use to pick
/// some monitor rather than none).
pub fn find_monitor(monitors: &Vec<MonitorData>, window_pos: (u32, u32)) -> (idx: usize)
    ensures
        idx < monitors@.len() || idx == 0,
        idx < monitors@.len() ==> (monitors@[idx as int].spec_contains(window_pos.0, window_pos.1)
            || (idx == 0 && forall|j: int|
                0 <= j < monitors@.len()
                    ==> !monitors@[j].spec_contains(window_pos.0, window_pos.1))),
        forall|j: int|
            0 <= j < idx ==> !monitors@[j].spec_contains(window_pos.0, window_pos.1),
{
    let mut i: usize = 0;
    while i < monitors.len()
        invariant
            i <= monitors@.len(),
            forall|j: int|
                0 <= j < i ==> !monitors@[j].spec_contains(window_pos.0, window_pos.1),
        decreases monitors@.len() - i,
    {
        if monitors[i].contains(window_pos.0, window_pos.1) {
            return i;
        }
        i = i + 1;
    }
    0
}

} // verus!
