use vstd::prelude::*;

verus! {

/// Radial segments of the cylinder drawn for a URDF cylinder.
pub const URDF_CYLINDER_RADIAL_SEGMENTS: u32 = 32;

/// Height segments of the cylinder drawn for a URDF cylinder.
pub const URDF_CYLINDER_HEIGHT_SEGMENTS: u32 = 1;

/// Width segments of the sphere drawn for a URDF sphere.
pub const URDF_SPHERE_WIDTH_SEGMENTS: u32 = 32;

/// Height segments of the sphere drawn for a URDF sphere.
pub const URDF_SPHERE_HEIGHT_SEGMENTS: u32 = 16;

} // verus!
