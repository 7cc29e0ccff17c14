use vstd::prelude::*;
use crate::scalar::{Scalar, HALF_TURN_BITS, ZERO_BITS, ONE_BITS};
use crate::matrix::{Mat4, Vec3};

verus! {

/// Bits of `1.3`, the height of the default eye.
pub const DEFAULT_EYE_Y_BITS: u32 = 0x3fa6_6666;

/// Bits of `6.0`, the distance of the default eye.
pub const DEFAULT_EYE_Z_BITS: u32 = 0x40c0_0000;

/// Bits of `4.0 / 3.0`.
pub const DEFAULT_ASPECT_BITS: u32 = 0x3faa_aaab;

/// Bits of `45.0`.
pub const DEFAULT_FOVY_BITS: u32 = 0x4234_0000;

/// Bits of `0.1`.
pub const DEFAULT_ZNEAR_BITS: u32 = 0x3dcc_cccd;

/// Bits of `100.0`.
pub const DEFAULT_ZFAR_BITS: u32 = 0x42c8_0000;

/// Where the viewer stands and how the view is projected. `fovy` is the
/// vertical field of view in degrees.
#[derive(Clone, Copy, Debug, PartialEq, Eq, Structural)]
pub struct Camera {
    pub eye: Vec3,
    pub target: Vec3,
    pub up: Vec3,
    pub aspect: Scalar,
    pub fovy: Scalar,
    pub znear: Scalar,
    pub zfar: Scalar,
}

impl Camera {
    /// A perspective projection exists for this camera: the aspect ratio
    /// is above zero, the field of view lies strictly between 0 and 180
    /// degrees, and the near plane lies above zero and below the far plane.
    pub open spec fn projectable_spec(self) -> bool {
        &&& self.aspect.is_positive_spec()
        &&& self.fovy.is_positive_spec()
        &&& self.fovy.lt_spec(Scalar { bits: HALF_TURN_BITS })
        &&& self.znear.is_positive_spec()
        &&& self.znear.lt_spec(self.zfar)
    }

    pub open spec fn default_spec() -> Camera {
        Camera {
            eye: Vec3 {
                x: Scalar { bits: ZERO_BITS },
                y: Scalar { bits: DEFAULT_EYE_Y_BITS },
                z: Scalar { bits: DEFAULT_EYE_Z_BITS },
            },
            target: Vec3 {
                x: Scalar { bits: ZERO_BITS },
                y: Scalar { bits: ZERO_BITS },
                z: Scalar { bits: ZERO_BITS },
            },
            up: Vec3 {
                x: Scalar { bits: ZERO_BITS },
                y: Scalar { bits: ONE_BITS },
                z: Scalar { bits: ZERO_BITS },
            },
            aspect: Scalar { bits: DEFAULT_ASPECT_BITS },
            fovy: Scalar { bits: DEFAULT_FOVY_BITS },
            znear: Scalar { bits: DEFAULT_ZNEAR_BITS },
            zfar: Scalar { bits: DEFAULT_ZFAR_BITS },
        }
    }

    /// Whether a perspective projection exists for this camera.
    pub fn projectable(&self) -> (r: bool)
        ensures
            r == self.projectable_spec(),
    {
        self.aspect.is_positive() && self.fovy.is_positive() && self.fovy.lt(
            Scalar::from_bits(HALF_TURN_BITS),
        ) && self.znear.is_positive() && self.znear.lt(self.zfar)
    }

    /// Replaces the aspect ratio, whatever the new value is; everything
    /// else stays.
    pub fn update_aspect(&mut self, aspect: Scalar)
        ensures
            *final(self) == (Camera { aspect, ..*old(self) }),
    {
        self.aspect = aspect;
    }

    /// Moves the eye; everything else stays.
    pub fn update_eye(&mut self, new_eye_pos: Vec3)
        ensures
            *final(self) == (Camera { eye: new_eye_pos, ..*old(self) }),
    {
        self.eye = new_eye_pos;
    }
}

impl Default for Camera {
    /// Eye at (0, 1.3, 6) looking at the origin with y up, aspect 4:3,
    /// 45 degrees of vertical view, depth from 0.1 to 100.
    fn default() -> (c: Camera)
        ensures
            c == Camera::default_spec(),
    {
        Camera {
            eye: Vec3 {
                x: Scalar::from_bits(ZERO_BITS),
                y: Scalar::from_bits(DEFAULT_EYE_Y_BITS),
                z: Scalar::from_bits(DEFAULT_EYE_Z_BITS),
            },
            target: Vec3 {
                x: Scalar::from_bits(ZERO_BITS),
                y: Scalar::from_bits(ZERO_BITS),
                z: Scalar::from_bits(ZERO_BITS),
            },
            up: Vec3 {
                x: Scalar::from_bits(ZERO_BITS),
                y: Scalar::from_bits(ONE_BITS),
                z: Scalar::from_bits(ZERO_BITS),
            },
            aspect: Scalar::from_bits(DEFAULT_ASPECT_BITS),
            fovy: Scalar::from_bits(DEFAULT_FOVY_BITS),
            znear: Scalar::from_bits(DEFAULT_ZNEAR_BITS),
            zfar: Scalar::from_bits(DEFAULT_ZFAR_BITS),
        }
    }
}

/// The matrix a shader reads for the camera, as last stored.
#[derive(Clone, Copy, Debug, PartialEq, Eq, Structural)]
pub struct CameraUniform {
    pub view_proj: Mat4,
}

impl CameraUniform {
    /// Starts out as the identity.
    pub fn new() -> (u: CameraUniform)
        ensures
            u.view_proj == Mat4::identity_spec(),
    {
        CameraUniform { view_proj: Mat4::identity() }
    }

    /// Stores a freshly built view-projection matrix.
    pub fn update_view_proj(&mut self, view_proj: Mat4)
        ensures
            final(self).view_proj == view_proj,
    {
        self.view_proj = view_proj;
    }
}

/// The default camera can be projected.
pub proof fn lemma_default_projectable()
    ensures
        Camera::default_spec().projectable_spec(),
{
    assert(0x3faa_aaabu32 & 0x7fff_ffffu32 == 0x3faa_aaabu32) by (bit_vector);
    assert(0x4234_0000u32 & 0x7fff_ffffu32 == 0x4234_0000u32) by (bit_vector);
    assert(0x4334_0000u32 & 0x7fff_ffffu32 == 0x4334_0000u32) by (bit_vector);
    assert(0x3dcc_cccdu32 & 0x7fff_ffffu32 == 0x3dcc_cccdu32) by (bit_vector);
    assert(0x42c8_0000u32 & 0x7fff_ffffu32 == 0x42c8_0000u32) by (bit_vector);
}

/// A new aspect ratio above zero keeps a projectable camera projectable,
/// and a new aspect ratio that is not above zero makes any camera
/// unprojectable.
pub proof fn lemma_aspect_decides_projectable(camera: Camera, aspect: Scalar)
    requires
        camera.projectable_spec(),
    ensures
        (Camera { aspect, ..camera }).projectable_spec() == aspect.is_positive_spec(),
{
}

} // verus!
