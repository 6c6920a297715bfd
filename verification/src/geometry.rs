//! Plain-value geometry: physical pixel positions and sizes, logical
//! lengths in thousandths of a logical pixel, and layout bounds.
//!
//! Logical coordinates and scale factors are carried as fixed-point
//! integers (milli units, one thousandth each) so that every computation
//! on them is exact integer arithmetic.

use vstd::prelude::*;

verus! {

/// Largest magnitude a logical length may take, in milli logical pixels
/// (one million logical pixels).  Keeps all conversions inside `u64`.
pub const COORD_LIMIT_MILLI: i64 = 1_000_000_000;

/// A position on screen, in physical pixels.
#[derive(Clone, Copy, Debug, PartialEq, Eq, Structural)]
pub struct PhysicalPosition {
    pub x: i32,
    pub y: i32,
}

impl PhysicalPosition {
    /// The origin, the fallback when the platform cannot report a position.
    pub fn origin() -> (r: PhysicalPosition)
        ensures
            r.x == 0 && r.y == 0,
    {
        PhysicalPosition { x: 0, y: 0 }
    }
}

/// A size in physical pixels.
#[derive(Clone, Copy, Debug, PartialEq, Eq, Structural)]
pub struct PhysicalSize {
    pub width: u32,
    pub height: u32,
}

impl PhysicalSize {
    /// The zero size, the fallback while no size is known.
    pub fn zero() -> (r: PhysicalSize)
        ensures
            r.width == 0 && r.height == 0,
    {
        PhysicalSize { width: 0, height: 0 }
    }
}

/// A size in logical pixels, stored in milli logical pixels.
#[derive(Clone, Copy, Debug, PartialEq, Eq, Structural)]
pub struct LogicalSize {
    pub width_milli: i64,
    pub height_milli: i64,
}

impl LogicalSize {
    pub open spec fn wf(self) -> bool {
        &&& -COORD_LIMIT_MILLI <= self.width_milli <= COORD_LIMIT_MILLI
        &&& -COORD_LIMIT_MILLI <= self.height_milli <= COORD_LIMIT_MILLI
    }

    /// The zero size, the initial value of the last-known-size hint.
    pub fn zero() -> (r: LogicalSize)
        ensures
            r.width_milli == 0 && r.height_milli == 0,
            r.wf(),
    {
        LogicalSize { width_milli: 0, height_milli: 0 }
    }
}

/// What a physical length is for a logical length under a scale factor:
/// the exact product in milli units, truncated to whole physical pixels
/// and saturated at `u32::MAX`.  Non-positive logical lengths give zero.
pub open spec fn spec_physical_length(len_milli: i64, scale_milli: u32) -> u32 {
    if len_milli <= 0 {
        0u32
    } else {
        let p = len_milli * scale_milli / 1_000_000;
        if p > u32::MAX { u32::MAX } else { p as u32 }
    }
}

/// Converts one logical length (milli logical pixels) to physical pixels
/// under the given scale factor (milli units).
pub fn physical_length(len_milli: i64, scale_milli: u32) -> (r: u32)
    requires
        -COORD_LIMIT_MILLI <= len_milli <= COORD_LIMIT_MILLI,
    ensures
        r == spec_physical_length(len_milli, scale_milli),
{
    if len_milli <= 0 {
        0
    } else {
        proof {
            assert((len_milli as int) * (scale_milli as int) <= COORD_LIMIT_MILLI * (u32::MAX
                as int)) by (nonlinear_arith)
                requires
                    0 < len_milli <= COORD_LIMIT_MILLI,
                    scale_milli <= u32::MAX,
            ;
        }
        let p: u64 = (len_milli as u64) * (scale_milli as u64) / 1_000_000;
        if p > u32::MAX as u64 {
            u32::MAX
        } else {
            p as u32
        }
    }
}

/// Converts a logical size to physical pixels under a scale factor.
pub fn physical_size_of(size: LogicalSize, scale_milli: u32) -> (r: PhysicalSize)
    requires
        size.wf(),
    ensures
        r.width == spec_physical_length(size.width_milli, scale_milli),
        r.height == spec_physical_length(size.height_milli, scale_milli),
{
    PhysicalSize {
        width: physical_length(size.width_milli, scale_milli),
        height: physical_length(size.height_milli, scale_milli),
    }
}

/// Layout bounds along one orientation, in milli logical pixels.
#[derive(Clone, Copy, Debug, PartialEq, Eq, Structural)]
pub struct LayoutInfo {
    pub min_milli: i64,
    pub max_milli: i64,
    pub preferred_milli: i64,
}

impl LayoutInfo {
    pub open spec fn wf(self) -> bool {
        &&& -COORD_LIMIT_MILLI <= self.min_milli <= COORD_LIMIT_MILLI
        &&& -COORD_LIMIT_MILLI <= self.max_milli <= COORD_LIMIT_MILLI
        &&& -COORD_LIMIT_MILLI <= self.preferred_milli <= COORD_LIMIT_MILLI
    }

    /// What the bounded preferred length is: the preferred length raised
    /// to the minimum, then capped at the maximum.
    pub open spec fn spec_preferred_bounded(self) -> i64 {
        let raised = if self.preferred_milli >= self.min_milli {
            self.preferred_milli
        } else {
            self.min_milli
        };
        if raised <= self.max_milli {
            raised
        } else {
            self.max_milli
        }
    }

    /// The preferred length, bounded below by the minimum and above by the
    /// maximum.
    pub fn preferred_bounded(&self) -> (r: i64)
        ensures
            r == self.spec_preferred_bounded(),
    {
        let raised = if self.preferred_milli >= self.min_milli {
            self.preferred_milli
        } else {
            self.min_milli
        };
        if raised <= self.max_milli {
            raised
        } else {
            self.max_milli
        }
    }
}

/// The unconstrained layout bounds: no minimum, the largest representable
/// maximum, no preference.
pub open spec fn spec_unconstrained() -> LayoutInfo {
    LayoutInfo { min_milli: 0, max_milli: COORD_LIMIT_MILLI, preferred_milli: 0 }
}

impl Default for LayoutInfo {
    /// Unconstrained bounds.
    fn default() -> (r: LayoutInfo)
        ensures
            r == spec_unconstrained(),
            r.wf(),
    {
        LayoutInfo { min_milli: 0, max_milli: COORD_LIMIT_MILLI, preferred_milli: 0 }
    }
}

} // verus!
