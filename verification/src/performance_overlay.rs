use vstd::prelude::*;

use crate::monitor_settings::MonitorDescriptor;

verus! {

pub const DEFAULT_WINDOW_WIDTH: u32 = 780;
pub const MIN_WINDOW_WIDTH: u32 = 760;
pub const MIN_WINDOW_HEIGHT: u32 = 860;

/// The CPU count that sizes the performance window: the available cores as a `u32`, and 16
/// when the count is unknown or does not fit.
pub open spec fn window_cpu_count(available_cores: Option<usize>) -> int {
    match available_cores {
        Some(n) => if n <= u32::MAX {
            n as int
        } else {
            16
        },
        None => 16,
    }
}

/// Height that fits a row per CPU: 430 plus 28 per CPU (saturating), at least
/// [`MIN_WINDOW_HEIGHT`].
pub open spec fn required_window_height_spec(available_cores: Option<usize>) -> int {
    let rows = if 28 * window_cpu_count(available_cores) <= u32::MAX {
        28 * window_cpu_count(available_cores)
    } else {
        u32::MAX as int
    };
    let dynamic = if 430 + rows <= u32::MAX {
        430 + rows
    } else {
        u32::MAX as int
    };
    if dynamic < MIN_WINDOW_HEIGHT {
        MIN_WINDOW_HEIGHT as int
    } else {
        dynamic
    }
}

pub struct PerformanceOverlayOps;

impl PerformanceOverlayOps {
    pub fn required_window_height(available_cores: Option<usize>) -> (r: u32)
        ensures
            r as int == required_window_height_spec(available_cores),
    {
        let cpu_count: u32 = match available_cores {
            Some(n) => if (n as u64) <= (u32::MAX as u64) {
                n as u32
            } else {
                16
            },
            None => 16,
        };
        let rows: u32 = match cpu_count.checked_mul(28) {
            Some(v) => v,
            None => u32::MAX,
        };
        let dynamic = 430u32.saturating_add(rows);
        if dynamic < MIN_WINDOW_HEIGHT {
            MIN_WINDOW_HEIGHT
        } else {
            dynamic
        }
    }

    /// The performance window's place when none is saved: near the right edge of the monitor,
    /// 180 pixels down.
    pub fn default_geometry(monitor: &MonitorDescriptor, available_cores: Option<usize>) -> (r:
        PerformanceGeometry)
        requires
            i32::MIN <= monitor@.x - 24,
            monitor@.x + monitor@.width <= i32::MAX,
            monitor@.y + 180 <= i32::MAX,
        ensures
            r@.width == max_u32(MIN_WINDOW_WIDTH as int, min_u32(DEFAULT_WINDOW_WIDTH as int, max_u32(monitor@.width as int, MIN_WINDOW_WIDTH as int))),
            r@.height == max_u32(required_window_height_spec(available_cores), min_u32(required_window_height_spec(available_cores), max_u32(monitor@.height as int, MIN_WINDOW_HEIGHT as int))),
            r@.x == monitor@.x + free_width_spec(monitor@.width as int, r@.width as int) - 24,
            r@.y == monitor@.y + 180,
    {
        let monitor_width = monitor.width();
        let monitor_height = monitor.height();
        let wide = if monitor_width < MIN_WINDOW_WIDTH {
            MIN_WINDOW_WIDTH
        } else {
            monitor_width
        };
        let width = if DEFAULT_WINDOW_WIDTH < wide {
            DEFAULT_WINDOW_WIDTH
        } else {
            wide
        };
        let tall = if monitor_height < MIN_WINDOW_HEIGHT {
            MIN_WINDOW_HEIGHT
        } else {
            monitor_height
        };
        let required = Self::required_window_height(available_cores);
        let height = if required < tall {
            required
        } else {
            tall
        };
        let free = if monitor_width >= width {
            monitor_width - width
        } else {
            0
        };
        let free_i32: i32 = if free <= (i32::MAX as u32) {
            free as i32
        } else {
            0
        };
        let x = monitor.position_x() + free_i32 - 24;
        let y = monitor.position_y() + 180;
        PerformanceGeometry::new(x, y, width, height).normalized(available_cores)
    }
}

/// The room left beside a window of width `w` on a monitor of width `mw`, as an `i32` (0 when
/// it does not fit one).
pub open spec fn free_width_spec(mw: int, w: int) -> int {
    let free = if mw >= w {
        mw - w
    } else {
        0
    };
    if free <= i32::MAX {
        free
    } else {
        0
    }
}

pub open spec fn max_u32(a: int, b: int) -> int {
    if a < b {
        b
    } else {
        a
    }
}

pub open spec fn min_u32(a: int, b: int) -> int {
    if a < b {
        a
    } else {
        b
    }
}

/// Where the performance window stands and how large it is.
pub struct PerformanceGeometryView {
    pub x: i32,
    pub y: i32,
    pub width: u32,
    pub height: u32,
}

#[derive(Clone, Copy)]
pub struct PerformanceGeometry {
    x: i32,
    y: i32,
    width: u32,
    height: u32,
}

impl View for PerformanceGeometry {
    type V = PerformanceGeometryView;

    closed spec fn view(&self) -> PerformanceGeometryView {
        PerformanceGeometryView { x: self.x, y: self.y, width: self.width, height: self.height }
    }
}

impl PerformanceGeometry {
    pub fn new(x: i32, y: i32, width: u32, height: u32) -> (r: Self)
        ensures
            r@ == (PerformanceGeometryView { x, y, width, height }),
    {
        Self { x, y, width, height }
    }

    /// The same place, enlarged to at least the minimum width and the required height.
    pub fn normalized(self, available_cores: Option<usize>) -> (r: Self)
        ensures
            r@.x == self@.x,
            r@.y == self@.y,
            r@.width == max_u32(self@.width as int, MIN_WINDOW_WIDTH as int),
            r@.height == max_u32(self@.height as int, required_window_height_spec(available_cores)),
    {
        let required = PerformanceOverlayOps::required_window_height(available_cores);
        Self {
            x: self.x,
            y: self.y,
            width: if self.width < MIN_WINDOW_WIDTH {
                MIN_WINDOW_WIDTH
            } else {
                self.width
            },
            height: if self.height < required {
                required
            } else {
                self.height
            },
        }
    }

    pub fn x(&self) -> (r: i32)
        ensures
            r == self@.x,
    {
        self.x
    }

    pub fn y(&self) -> (r: i32)
        ensures
            r == self@.y,
    {
        self.y
    }

    pub fn width(&self) -> (r: u32)
        ensures
            r == self@.width,
    {
        self.width
    }

    pub fn height(&self) -> (r: u32)
        ensures
            r == self@.height,
    {
        self.height
    }
}

} // verus!
