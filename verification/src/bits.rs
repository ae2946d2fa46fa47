//! Plain-value carriers for the engine's floating-point data.
//!
//! Every scalar is the IEEE-754 bit pattern of an `f32` (or of an `f64` for
//! the clear color), held in a `u32` (`u64`).  Vectors, quaternions and
//! matrices are structs of such scalars, mirroring the column layout of the
//! math library the shell uses.  This module also defines the little-endian
//! byte encoding with which uniform records are laid out for the GPU.

use vstd::prelude::*;

verus! {

/// Bit pattern of `0.0f32`.
pub const F32_ZERO: u32 = 0x0000_0000;
/// Bit pattern of `1.0f32`.
pub const F32_ONE: u32 = 0x3F80_0000;
/// Bit pattern of `-1.0f32`.
pub const F32_NEG_ONE: u32 = 0xBF80_0000;

/// A 2D vector of `f32` bit patterns.
#[derive(Clone, Copy, PartialEq, Eq, Structural, Debug)]
pub struct Vec2Bits {
    pub x: u32,
    pub y: u32,
}

/// A 3D vector of `f32` bit patterns.
#[derive(Clone, Copy, PartialEq, Eq, Structural, Debug)]
pub struct Vec3Bits {
    pub x: u32,
    pub y: u32,
    pub z: u32,
}

/// A 4D vector of `f32` bit patterns; also one matrix column.
#[derive(Clone, Copy, PartialEq, Eq, Structural, Debug)]
pub struct Vec4Bits {
    pub x: u32,
    pub y: u32,
    pub z: u32,
    pub w: u32,
}

/// A quaternion of `f32` bit patterns.
#[derive(Clone, Copy, PartialEq, Eq, Structural, Debug)]
pub struct QuatBits {
    pub x: u32,
    pub y: u32,
    pub z: u32,
    pub w: u32,
}

/// A column-major 3x3 matrix of `f32` bit patterns.
#[derive(Clone, Copy, PartialEq, Eq, Structural, Debug)]
pub struct Mat3Bits {
    pub x_axis: Vec3Bits,
    pub y_axis: Vec3Bits,
    pub z_axis: Vec3Bits,
}

/// A column-major 4x4 matrix of `f32` bit patterns.
#[derive(Clone, Copy, PartialEq, Eq, Structural, Debug)]
pub struct Mat4Bits {
    pub x_axis: Vec4Bits,
    pub y_axis: Vec4Bits,
    pub z_axis: Vec4Bits,
    pub w_axis: Vec4Bits,
}

/// The all-zero 2D vector, the bit image of `(0.0, 0.0)`.
pub open spec fn vec2_zero() -> Vec2Bits {
    Vec2Bits { x: F32_ZERO, y: F32_ZERO }
}

/// The all-zero 3D vector, the bit image of `(0.0, 0.0, 0.0)`.
pub open spec fn vec3_zero() -> Vec3Bits {
    Vec3Bits { x: F32_ZERO, y: F32_ZERO, z: F32_ZERO }
}

/// The canonical forward axis `+Z`, the bit image of `(0.0, 0.0, 1.0)`.
pub open spec fn vec3_forward() -> Vec3Bits {
    Vec3Bits { x: F32_ZERO, y: F32_ZERO, z: F32_ONE }
}

/// The identity rotation, the bit image of the quaternion `(0, 0, 0, 1)`.
pub open spec fn quat_identity() -> QuatBits {
    QuatBits { x: F32_ZERO, y: F32_ZERO, z: F32_ZERO, w: F32_ONE }
}

/// The identity 4x4 matrix as bit patterns.
pub open spec fn mat4_identity() -> Mat4Bits {
    Mat4Bits {
        x_axis: Vec4Bits { x: F32_ONE, y: F32_ZERO, z: F32_ZERO, w: F32_ZERO },
        y_axis: Vec4Bits { x: F32_ZERO, y: F32_ONE, z: F32_ZERO, w: F32_ZERO },
        z_axis: Vec4Bits { x: F32_ZERO, y: F32_ZERO, z: F32_ONE, w: F32_ZERO },
        w_axis: Vec4Bits { x: F32_ZERO, y: F32_ZERO, z: F32_ZERO, w: F32_ONE },
    }
}

impl Vec2Bits {
    pub fn new(x: u32, y: u32) -> (r: Vec2Bits)
        ensures
            r == (Vec2Bits { x, y }),
    {
        Vec2Bits { x, y }
    }

    pub fn zero() -> (r: Vec2Bits)
        ensures
            r == vec2_zero(),
    {
        Vec2Bits { x: F32_ZERO, y: F32_ZERO }
    }
}

impl Vec3Bits {
    pub fn new(x: u32, y: u32, z: u32) -> (r: Vec3Bits)
        ensures
            r == (Vec3Bits { x, y, z }),
    {
        Vec3Bits { x, y, z }
    }

    pub fn zero() -> (r: Vec3Bits)
        ensures
            r == vec3_zero(),
    {
        Vec3Bits { x: F32_ZERO, y: F32_ZERO, z: F32_ZERO }
    }
}

impl QuatBits {
    pub fn new(x: u32, y: u32, z: u32, w: u32) -> (r: QuatBits)
        ensures
            r == (QuatBits { x, y, z, w }),
    {
        QuatBits { x, y, z, w }
    }

    pub fn identity() -> (r: QuatBits)
        ensures
            r == quat_identity(),
    {
        QuatBits { x: F32_ZERO, y: F32_ZERO, z: F32_ZERO, w: F32_ONE }
    }
}

impl Mat4Bits {
    pub fn identity() -> (r: Mat4Bits)
        ensures
            r == mat4_identity(),
    {
        Mat4Bits {
            x_axis: Vec4Bits { x: F32_ONE, y: F32_ZERO, z: F32_ZERO, w: F32_ZERO },
            y_axis: Vec4Bits { x: F32_ZERO, y: F32_ONE, z: F32_ZERO, w: F32_ZERO },
            z_axis: Vec4Bits { x: F32_ZERO, y: F32_ZERO, z: F32_ONE, w: F32_ZERO },
            w_axis: Vec4Bits { x: F32_ZERO, y: F32_ZERO, z: F32_ZERO, w: F32_ONE },
        }
    }

    /// The sixteen scalars in column-major order.
    pub open spec fn flat(self) -> Seq<u32> {
        seq![
            self.x_axis.x, self.x_axis.y, self.x_axis.z, self.x_axis.w,
            self.y_axis.x, self.y_axis.y, self.y_axis.z, self.y_axis.w,
            self.z_axis.x, self.z_axis.y, self.z_axis.z, self.z_axis.w,
            self.w_axis.x, self.w_axis.y, self.w_axis.z, self.w_axis.w,
        ]
    }

    /// The sixteen scalars in column-major order, as an array.
    pub fn to_array(&self) -> (r: [u32; 16])
        ensures
            r@ == self.flat(),
    {
        [
            self.x_axis.x, self.x_axis.y, self.x_axis.z, self.x_axis.w,
            self.y_axis.x, self.y_axis.y, self.y_axis.z, self.y_axis.w,
            self.z_axis.x, self.z_axis.y, self.z_axis.z, self.z_axis.w,
            self.w_axis.x, self.w_axis.y, self.w_axis.z, self.w_axis.w,
        ]
    }

    /// Rebuilds a matrix from sixteen column-major scalars.
    pub fn from_array(a: [u32; 16]) -> (r: Mat4Bits)
        ensures
            r.flat() == a@,
    {
        let r = Mat4Bits {
            x_axis: Vec4Bits { x: a[0], y: a[1], z: a[2], w: a[3] },
            y_axis: Vec4Bits { x: a[4], y: a[5], z: a[6], w: a[7] },
            z_axis: Vec4Bits { x: a[8], y: a[9], z: a[10], w: a[11] },
            w_axis: Vec4Bits { x: a[12], y: a[13], z: a[14], w: a[15] },
        };
        proof {
            assert(r.flat() =~= a@);
        }
        r
    }
}

/// Little-endian byte image of one 32-bit scalar.
pub open spec fn u32_le_bytes(x: u32) -> Seq<u8> {
    seq![
        (x & 0xff) as u8,
        ((x >> 8) & 0xff) as u8,
        ((x >> 16) & 0xff) as u8,
        ((x >> 24) & 0xff) as u8,
    ]
}

/// Byte image of a 2D vector: both components, little endian.
pub open spec fn vec2_le_bytes(v: Vec2Bits) -> Seq<u8> {
    u32_le_bytes(v.x) + u32_le_bytes(v.y)
}

/// Byte image of a 3D vector: the three components, little endian.
pub open spec fn vec3_le_bytes(v: Vec3Bits) -> Seq<u8> {
    u32_le_bytes(v.x) + u32_le_bytes(v.y) + u32_le_bytes(v.z)
}

/// Byte image of a matrix column.
pub open spec fn vec4_le_bytes(v: Vec4Bits) -> Seq<u8> {
    u32_le_bytes(v.x) + u32_le_bytes(v.y) + u32_le_bytes(v.z) + u32_le_bytes(v.w)
}

/// Byte image of a 4x4 matrix: the four columns in order.
pub open spec fn mat4_le_bytes(m: Mat4Bits) -> Seq<u8> {
    vec4_le_bytes(m.x_axis) + vec4_le_bytes(m.y_axis) + vec4_le_bytes(m.z_axis)
        + vec4_le_bytes(m.w_axis)
}

/// Appends the little-endian bytes of one scalar.
pub fn push_u32_le(out: &mut Vec<u8>, x: u32)
    ensures
        final(out)@ == old(out)@ + u32_le_bytes(x),
{
    out.push((x & 0xff) as u8);
    out.push(((x >> 8) & 0xff) as u8);
    out.push(((x >> 16) & 0xff) as u8);
    out.push(((x >> 24) & 0xff) as u8);
    proof {
        assert(out@ =~= old(out)@ + u32_le_bytes(x));
    }
}

/// Appends four zero bytes, the image of one `f32` of structure padding.
pub fn push_pad4(out: &mut Vec<u8>)
    ensures
        final(out)@ == old(out)@ + u32_le_bytes(0),
{
    push_u32_le(out, 0);
}

/// Appends the byte image of a 2D vector.
pub fn push_vec2_le(out: &mut Vec<u8>, v: &Vec2Bits)
    ensures
        final(out)@ == old(out)@ + vec2_le_bytes(*v),
{
    push_u32_le(out, v.x);
    push_u32_le(out, v.y);
    proof {
        assert(out@ =~= old(out)@ + vec2_le_bytes(*v));
    }
}

/// Appends the byte image of a 3D vector.
pub fn push_vec3_le(out: &mut Vec<u8>, v: &Vec3Bits)
    ensures
        final(out)@ == old(out)@ + vec3_le_bytes(*v),
{
    push_u32_le(out, v.x);
    push_u32_le(out, v.y);
    push_u32_le(out, v.z);
    proof {
        assert(out@ =~= old(out)@ + vec3_le_bytes(*v));
    }
}

/// Appends the byte image of a matrix column.
pub fn push_vec4_le(out: &mut Vec<u8>, v: &Vec4Bits)
    ensures
        final(out)@ == old(out)@ + vec4_le_bytes(*v),
{
    push_u32_le(out, v.x);
    push_u32_le(out, v.y);
    push_u32_le(out, v.z);
    push_u32_le(out, v.w);
    proof {
        assert(out@ =~= old(out)@ + vec4_le_bytes(*v));
    }
}

/// Appends the byte image of a 4x4 matrix.
pub fn push_mat4_le(out: &mut Vec<u8>, m: &Mat4Bits)
    ensures
        final(out)@ == old(out)@ + mat4_le_bytes(*m),
{
    push_vec4_le(out, &m.x_axis);
    push_vec4_le(out, &m.y_axis);
    push_vec4_le(out, &m.z_axis);
    push_vec4_le(out, &m.w_axis);
    proof {
        assert(out@ =~= old(out)@ + mat4_le_bytes(*m));
    }
}

} // verus!
