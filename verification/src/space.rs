//! Poses and fields of view as the runtime reports them.
//!
//! Nothing here computes with these numbers: they are taken from the
//! runtime and handed on to whatever renders. Each 32-bit float is
//! therefore carried as its bit pattern, which keeps equality exact.

use vstd::prelude::*;

verus! {

/// The bit pattern of `0.0`.
pub const ZERO_BITS: u32 = 0;

/// The bit pattern of `1.0`.
pub const ONE_BITS: u32 = 0x3f80_0000;

/// A point or direction, by the bits of its coordinates.
#[derive(Clone, Copy, Debug, PartialEq, Eq, Structural)]
pub struct Vec3Bits {
    pub x: u32,
    pub y: u32,
    pub z: u32,
}

/// A rotation, by the bits of its quaternion.
#[derive(Clone, Copy, Debug, PartialEq, Eq, Structural)]
pub struct QuatBits {
    pub x: u32,
    pub y: u32,
    pub z: u32,
    pub w: u32,
}

/// A position and an orientation.
#[derive(Clone, Copy, Debug, PartialEq, Eq, Structural)]
pub struct PoseBits {
    pub position: Vec3Bits,
    pub orientation: QuatBits,
}

impl PoseBits {
    /// The pose at the origin that rotates nothing.
    pub open spec fn spec_identity() -> PoseBits {
        PoseBits {
            position: Vec3Bits { x: ZERO_BITS, y: ZERO_BITS, z: ZERO_BITS },
            orientation: QuatBits { x: ZERO_BITS, y: ZERO_BITS, z: ZERO_BITS, w: ONE_BITS },
        }
    }

    /// The pose at the origin that rotates nothing.
    #[verifier::when_used_as_spec(spec_identity)]
    pub fn identity() -> (pose: PoseBits)
        ensures
            pose == PoseBits::spec_identity(),
    {
        PoseBits {
            position: Vec3Bits { x: ZERO_BITS, y: ZERO_BITS, z: ZERO_BITS },
            orientation: QuatBits { x: ZERO_BITS, y: ZERO_BITS, z: ZERO_BITS, w: ONE_BITS },
        }
    }
}

/// A field of view, by the bits of its four half-angles.
#[derive(Clone, Copy, Debug, PartialEq, Eq, Structural)]
pub struct FovBits {
    pub angle_left: u32,
    pub angle_right: u32,
    pub angle_up: u32,
    pub angle_down: u32,
}

/// Where one eye is and what it sees.
#[derive(Clone, Copy, Debug, PartialEq, Eq, Structural)]
pub struct XrView {
    pub pose: PoseBits,
    pub fov: FovBits,
}

} // verus!
