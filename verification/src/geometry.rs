//! Geometry carried by events.
//!
//! Sizes and positions come from the `dpi` crate; the loop routes them and
//! occasionally reads their integer fields, so the types are declared to the
//! verifier with their fields visible.

use vstd::prelude::*;

verus! {

/// The raw bit pattern of a 64-bit IEEE 754 value.
///
/// The loop never computes with such values; it routes them between the
/// platform and the application unchanged, so only the bits are kept.
#[derive(Debug, Clone, Copy, PartialEq, Eq, Hash, Default, Structural)]
pub struct FloatBits64 {
    /// The bits, as `f64::to_bits` gives them.
    pub bits: u64,
}

/// The raw bit pattern of a 32-bit IEEE 754 value.
#[derive(Debug, Clone, Copy, PartialEq, Eq, Hash, Default, Structural)]
pub struct FloatBits32 {
    /// The bits, as `f32::to_bits` gives them.
    pub bits: u32,
}

/// Declares `dpi::PhysicalSize` with its two public fields visible.
#[verifier::external_type_specification]
pub struct ExPhysicalSize<P>(dpi::PhysicalSize<P>);

/// Declares `dpi::PhysicalPosition` with its two public fields visible.
#[verifier::external_type_specification]
pub struct ExPhysicalPosition<P>(dpi::PhysicalPosition<P>);

/// Relies on the `Clone` impl that `dpi` derives for `PhysicalPosition`:
/// it clones the two fields. Nothing is claimed of the result.
pub assume_specification<P>[ <dpi::PhysicalPosition<P> as core::clone::Clone>::clone ](
    p: &dpi::PhysicalPosition<P>,
) -> dpi::PhysicalPosition<P> where P: core::clone::Clone
;

/// Relies on the `Clone` impl that `dpi` derives for `PhysicalSize`:
/// it clones the two fields. Nothing is claimed of the result.
pub assume_specification<P>[ <dpi::PhysicalSize<P> as core::clone::Clone>::clone ](
    s: &dpi::PhysicalSize<P>,
) -> dpi::PhysicalSize<P> where P: core::clone::Clone
;

/// Build a size in physical pixels.
pub fn physical_size_u32(width: u32, height: u32) -> (r: dpi::PhysicalSize<u32>)
    ensures
        r.width == width,
        r.height == height,
{
    dpi::PhysicalSize { width, height }
}

/// Build a position in physical pixels.
pub fn physical_position_i32(x: i32, y: i32) -> (r: dpi::PhysicalPosition<i32>)
    ensures
        r.x == x,
        r.y == y,
{
    dpi::PhysicalPosition { x, y }
}

} // verus!
