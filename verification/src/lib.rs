pub mod buffer;
pub mod input;
pub mod keyboard;
pub mod pool;
pub mod session;

use vstd::prelude::*;

verus! {

/// A surface dimension in pixels.
#[derive(Clone, Copy, PartialEq, Eq, Structural, Debug)]
pub struct Rect {
    pub width: i32,
    pub height: i32,
}

impl Rect {
    /// A dimension is usable for buffer allocation when both components are
    /// strictly positive and the backing byte length fits the protocol's
    /// signed 32-bit size fields.
    pub open spec fn valid(self) -> bool {
        0 < self.width
        && 0 < self.height
        && self.height * (self.width * 4) <= i32::MAX
    }
}

/// Compositors may deliver a zero-valued dimension, which means "client's
/// choice"; a zero component is clamped to 1 so buffer allocation stays valid.
pub fn clamp_dimension(width: i32, height: i32) -> (r: Rect)
    ensures
        r.width == if width == 0 { 1int } else { width as int },
        r.height == if height == 0 { 1int } else { height as int },
{
    let w: i32 = if width == 0 { 1 } else { width };
    let h: i32 = if height == 0 { 1 } else { height };
    Rect { width: w, height: h }
}

} // verus!
