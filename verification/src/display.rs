//! Monitor geometry: the data the synthesizer and callers read about the
//! displays.
//!
//! Enumerating monitors, reading the cursor, and querying DPI are platform
//! calls made outside this crate; they hand the engine plain values — a list
//! of [`MonitorInfo`] records or one [`VirtualDesktop`] rectangle.  The logic
//! over those values lives here: the union bounding rectangle of all
//! monitors, the primary monitor, and point-to-monitor containment.  Scale
//! factors are carried in percent (100 = 1.0), in line with the quarter-step
//! factors the platforms report.

use vstd::prelude::*;

verus! {

/// Largest coordinate magnitude (offset or size) a monitor record may carry;
/// keeps every union-rectangle computation within `i32`.
pub const COORD_LIMIT: i32 = 0x1000000;

/// Largest accepted scale factor, in percent; keeps the absolute-coordinate
/// mapping within `i64`.
pub const MAX_SCALE_PERCENT: u32 = 10000;

/// One connected physical monitor.
#[derive(Debug, PartialEq, Eq)]
pub struct MonitorInfo {
    /// The OS-assigned name or identifier of the monitor.
    pub name: String,
    /// Whether this is the primary monitor of the system.
    pub is_primary: bool,
    /// Top-left corner (x, y) in the global physical coordinate system.
    pub offset: (i32, i32),
    /// Physical resolution (width, height) in pixels.
    pub size: (i32, i32),
    /// UI scale factor in percent: 100, 125, 150, 200, ...
    pub scale_percent: u32,
}

impl MonitorInfo {
    /// Geometry within the accepted coordinate range, sizes non-negative.
    pub open spec fn wf(&self) -> bool {
        &&& -COORD_LIMIT <= self.offset.0 <= COORD_LIMIT
        &&& -COORD_LIMIT <= self.offset.1 <= COORD_LIMIT
        &&& 0 <= self.size.0 <= COORD_LIMIT
        &&& 0 <= self.size.1 <= COORD_LIMIT
    }

    /// The width of the monitor.
    pub fn width(&self) -> (r: i32)
        ensures
            r == self.size.0,
    {
        self.size.0
    }

    /// The height of the monitor.
    pub fn height(&self) -> (r: i32)
        ensures
            r == self.size.1,
    {
        self.size.1
    }
}

/// True when the point (x, y) lies on the monitor.
pub open spec fn spec_contains_point(m: MonitorInfo, x: int, y: int) -> bool {
    &&& m.offset.0 <= x < m.offset.0 + m.size.0
    &&& m.offset.1 <= y < m.offset.1 + m.size.1
}

/// The union bounding rectangle of all monitors together with the effective
/// scale factor: what the absolute-move path of the synthesizer consumes.
/// The origin may be negative.
#[derive(Debug, Copy, Clone, PartialEq, Eq, Structural)]
pub struct VirtualDesktop {
    /// Left edge of the virtual desktop.
    pub x: i32,
    /// Top edge of the virtual desktop.
    pub y: i32,
    /// Width in physical pixels.
    pub width: i32,
    /// Height in physical pixels.
    pub height: i32,
    /// Effective scale factor in percent: 100 = 1.0.
    pub scale_percent: u32,
}

impl VirtualDesktop {
    /// A positive scale factor within the accepted range.
    pub open spec fn wf(&self) -> bool {
        0 < self.scale_percent <= MAX_SCALE_PERCENT
    }
}

/// The least monitor origin on the x axis, 0 when there are no monitors.
pub open spec fn spec_min_origin_x(s: Seq<MonitorInfo>) -> int
    decreases s.len(),
{
    if s.len() == 0 {
        0
    } else if s.len() == 1 {
        s[0].offset.0 as int
    } else {
        let rest = spec_min_origin_x(s.drop_last());
        if s.last().offset.0 < rest {
            s.last().offset.0 as int
        } else {
            rest
        }
    }
}

/// The least monitor origin on the y axis, 0 when there are no monitors.
pub open spec fn spec_min_origin_y(s: Seq<MonitorInfo>) -> int
    decreases s.len(),
{
    if s.len() == 0 {
        0
    } else if s.len() == 1 {
        s[0].offset.1 as int
    } else {
        let rest = spec_min_origin_y(s.drop_last());
        if s.last().offset.1 < rest {
            s.last().offset.1 as int
        } else {
            rest
        }
    }
}

/// The greatest monitor far edge on the x axis, 0 when there are no monitors.
pub open spec fn spec_max_far_x(s: Seq<MonitorInfo>) -> int
    decreases s.len(),
{
    if s.len() == 0 {
        0
    } else if s.len() == 1 {
        s[0].offset.0 + s[0].size.0
    } else {
        let rest = spec_max_far_x(s.drop_last());
        if s.last().offset.0 + s.last().size.0 > rest {
            s.last().offset.0 + s.last().size.0
        } else {
            rest
        }
    }
}

/// The greatest monitor far edge on the y axis, 0 when there are no monitors.
pub open spec fn spec_max_far_y(s: Seq<MonitorInfo>) -> int
    decreases s.len(),
{
    if s.len() == 0 {
        0
    } else if s.len() == 1 {
        s[0].offset.1 + s[0].size.1
    } else {
        let rest = spec_max_far_y(s.drop_last());
        if s.last().offset.1 + s.last().size.1 > rest {
            s.last().offset.1 + s.last().size.1
        } else {
            rest
        }
    }
}

/// Screen and monitor logic over enumerated monitor records.
pub struct Display;

impl Display {
    /// The union bounding rectangle (x, y, width, height) of the given
    /// monitors: its origin is the least monitor origin on each axis, and its
    /// far edge the greatest monitor far edge.  An empty list yields the
    /// empty rectangle at the origin.
    pub fn get_virtual_screen_bounds(monitors: &Vec<MonitorInfo>) -> (r: (i32, i32, i32, i32))
        requires
            forall|i: int| 0 <= i < monitors@.len() ==> monitors@[i].wf(),
        ensures
            monitors@.len() == 0 ==> r == (0i32, 0i32, 0i32, 0i32),
            r.0 == spec_min_origin_x(monitors@) || monitors@.len() == 0,
            r.1 == spec_min_origin_y(monitors@) || monitors@.len() == 0,
            r.0 + r.2 == spec_max_far_x(monitors@) || monitors@.len() == 0,
            r.1 + r.3 == spec_max_far_y(monitors@) || monitors@.len() == 0,
            monitors@.len() > 0 ==> {
                &&& (exists|i: int| 0 <= i < monitors@.len() && r.0 == monitors@[i].offset.0)
                &&& (exists|i: int| 0 <= i < monitors@.len() && r.1 == monitors@[i].offset.1)
                &&& (exists|i: int|
                    0 <= i < monitors@.len() && r.0 + r.2 == monitors@[i].offset.0
                        + monitors@[i].size.0)
                &&& (exists|i: int|
                    0 <= i < monitors@.len() && r.1 + r.3 == monitors@[i].offset.1
                        + monitors@[i].size.1)
                &&& (forall|i: int| 0 <= i < monitors@.len() ==> r.0 <= monitors@[i].offset.0)
                &&& (forall|i: int| 0 <= i < monitors@.len() ==> r.1 <= monitors@[i].offset.1)
                &&& (forall|i: int|
                    0 <= i < monitors@.len() ==> monitors@[i].offset.0 + monitors@[i].size.0 <= r.0
                        + r.2)
                &&& (forall|i: int|
                    0 <= i < monitors@.len() ==> monitors@[i].offset.1 + monitors@[i].size.1 <= r.1
                        + r.3)
            },
    {
        let n = monitors.len();
        if n == 0 {
            return (0, 0, 0, 0);
        }
        let mut min_x: i64 = monitors[0].offset.0 as i64;
        let mut min_y: i64 = monitors[0].offset.1 as i64;
        let mut max_x: i64 = monitors[0].offset.0 as i64 + monitors[0].size.0 as i64;
        let mut max_y: i64 = monitors[0].offset.1 as i64 + monitors[0].size.1 as i64;
        proof {
            let t = monitors@.take(1);
            assert(t[0] == monitors@[0]);
        }
        let mut i: usize = 1;
        while i < n
            invariant
                1 <= i <= n,
                n == monitors@.len(),
                forall|k: int| 0 <= k < monitors@.len() ==> monitors@[k].wf(),
                -COORD_LIMIT <= min_x <= COORD_LIMIT,
                -COORD_LIMIT <= min_y <= COORD_LIMIT,
                -COORD_LIMIT <= max_x <= 2 * COORD_LIMIT,
                -COORD_LIMIT <= max_y <= 2 * COORD_LIMIT,
                min_x == spec_min_origin_x(monitors@.take(i as int)),
                min_y == spec_min_origin_y(monitors@.take(i as int)),
                max_x == spec_max_far_x(monitors@.take(i as int)),
                max_y == spec_max_far_y(monitors@.take(i as int)),
                exists|k: int| 0 <= k < i && min_x == monitors@[k].offset.0,
                exists|k: int| 0 <= k < i && min_y == monitors@[k].offset.1,
                exists|k: int| 0 <= k < i && max_x == monitors@[k].offset.0 + monitors@[k].size.0,
                exists|k: int| 0 <= k < i && max_y == monitors@[k].offset.1 + monitors@[k].size.1,
                forall|k: int| 0 <= k < i ==> min_x <= monitors@[k].offset.0,
                forall|k: int| 0 <= k < i ==> min_y <= monitors@[k].offset.1,
                forall|k: int| 0 <= k < i ==> monitors@[k].offset.0 + monitors@[k].size.0 <= max_x,
                forall|k: int| 0 <= k < i ==> monitors@[k].offset.1 + monitors@[k].size.1 <= max_y,
            decreases n - i,
        {
            let ox = monitors[i].offset.0 as i64;
            let oy = monitors[i].offset.1 as i64;
            let fx = ox + monitors[i].size.0 as i64;
            let fy = oy + monitors[i].size.1 as i64;
            if ox < min_x {
                min_x = ox;
            }
            if oy < min_y {
                min_y = oy;
            }
            if fx > max_x {
                max_x = fx;
            }
            if fy > max_y {
                max_y = fy;
            }
            proof {
                let t = monitors@.take(i + 1);
                assert(t.drop_last() =~= monitors@.take(i as int));
                assert(t.last() == monitors@[i as int]);
            }
            i = i + 1;
        }
        proof {
            assert(monitors@.take(n as int) =~= monitors@);
        }
        (min_x as i32, min_y as i32, (max_x - min_x) as i32, (max_y - min_y) as i32)
    }

    /// The size (width, height) of the union bounding rectangle of the given
    /// monitors.
    pub fn get_virtual_screen_size(monitors: &Vec<MonitorInfo>) -> (r: (i32, i32))
        requires
            forall|i: int| 0 <= i < monitors@.len() ==> monitors@[i].wf(),
        ensures
            r.0 >= 0,
            r.1 >= 0,
            monitors@.len() == 0 ==> r == (0i32, 0i32),
            monitors@.len() > 0 ==> r.0 == spec_max_far_x(monitors@) - spec_min_origin_x(monitors@)
                && r.1 == spec_max_far_y(monitors@) - spec_min_origin_y(monitors@),
    {
        let bounds = Self::get_virtual_screen_bounds(monitors);
        proof {
            if monitors@.len() > 0 {
                let i = choose|i: int|
                    0 <= i < monitors@.len() && bounds.0 + bounds.2 == monitors@[i].offset.0
                        + monitors@[i].size.0;
                let j = choose|j: int|
                    0 <= j < monitors@.len() && bounds.1 + bounds.3 == monitors@[j].offset.1
                        + monitors@[j].size.1;
                assert(bounds.0 <= monitors@[i].offset.0);
                assert(bounds.1 <= monitors@[j].offset.1);
            }
        }
        (bounds.2, bounds.3)
    }

    /// The first monitor marked primary, if any.
    pub fn get_primary_monitor(monitors: &Vec<MonitorInfo>) -> (r: Option<&MonitorInfo>)
        ensures
            r is None ==> forall|i: int| 0 <= i < monitors@.len() ==> !monitors@[i].is_primary,
            r matches Some(m) ==> exists|i: int|
                0 <= i < monitors@.len() && monitors@[i].is_primary && *m == monitors@[i]
                    && (forall|k: int| 0 <= k < i ==> !monitors@[k].is_primary),
    {
        let mut i: usize = 0;
        while i < monitors.len()
            invariant
                i <= monitors@.len(),
                forall|k: int| 0 <= k < i ==> !monitors@[k].is_primary,
            decreases monitors@.len() - i,
        {
            if monitors[i].is_primary {
                return Some(&monitors[i]);
            }
            i = i + 1;
        }
        None
    }

    /// The first monitor containing the given global point, if any.
    pub fn get_monitor_from_point(monitors: &Vec<MonitorInfo>, x: i32, y: i32) -> (r: Option<
        &MonitorInfo,
    >)
        ensures
            r is None ==> forall|i: int|
                0 <= i < monitors@.len() ==> !spec_contains_point(monitors@[i], x as int, y as int),
            r matches Some(m) ==> exists|i: int|
                0 <= i < monitors@.len() && spec_contains_point(monitors@[i], x as int, y as int)
                    && *m == monitors@[i] && (forall|k: int|
                    0 <= k < i ==> !spec_contains_point(monitors@[k], x as int, y as int)),
    {
        let mut i: usize = 0;
        while i < monitors.len()
            invariant
                i <= monitors@.len(),
                forall|k: int|
                    0 <= k < i ==> !spec_contains_point(monitors@[k], x as int, y as int),
            decreases monitors@.len() - i,
        {
            let ox = monitors[i].offset.0 as i64;
            let oy = monitors[i].offset.1 as i64;
            let fx = ox + monitors[i].size.0 as i64;
            let fy = oy + monitors[i].size.1 as i64;
            if (x as i64) >= ox && (x as i64) < fx && (y as i64) >= oy && (y as i64) < fy {
                return Some(&monitors[i]);
            }
            i = i + 1;
        }
        None
    }
}

} // verus!
