//! The numeric kernel behind the engine, as a trusted boundary.
//!
//! Every function here either wraps one `f32` operation of std or one
//! matrix/quaternion operation of `glam`, working on IEEE-754 bit patterns.
//! Each wrapped result that is a pure function of its arguments is given a
//! name by an uninterpreted spec function, and the wrapper's contract states
//! that the call returns exactly that named value; the verified code above
//! composes those names.  Componentwise vector arithmetic is built here from
//! the scalar wrappers and carries a proved contract.

use vstd::prelude::*;

use crate::bits::Mat3Bits;
use crate::bits::Mat4Bits;
use crate::bits::QuatBits;
use crate::bits::Vec2Bits;
use crate::bits::Vec3Bits;

verus! {

// ---------------------------------------------------------------------------
// Scalar f32 arithmetic on bit patterns.
// ---------------------------------------------------------------------------

pub uninterp spec fn f32_sum(a: u32, b: u32) -> u32;

pub uninterp spec fn f32_diff(a: u32, b: u32) -> u32;

pub uninterp spec fn f32_prod(a: u32, b: u32) -> u32;

pub uninterp spec fn f32_quot(a: u32, b: u32) -> u32;

pub uninterp spec fn radians_of(degrees: u32) -> u32;

pub uninterp spec fn f32_of_u32(n: u32) -> u32;

pub uninterp spec fn f32_of_u64(n: u64) -> u32;

pub uninterp spec fn f32_gt(a: u32, b: u32) -> bool;

/// Relies on `f32` addition of std: the IEEE-754 sum of the two encoded
/// values, a pure function of the two bit patterns.
#[verifier::external_body]
pub fn f32_add(a: u32, b: u32) -> (r: u32)
    ensures
        r == f32_sum(a, b),
{
    let v = glam::Vec2::from_array(bytemuck::cast([a, b]));
    bytemuck::cast(v.x + v.y)
}

/// Relies on `f32` subtraction of std: the IEEE-754 difference of the two
/// encoded values, a pure function of the two bit patterns.
#[verifier::external_body]
pub fn f32_sub(a: u32, b: u32) -> (r: u32)
    ensures
        r == f32_diff(a, b),
{
    let v = glam::Vec2::from_array(bytemuck::cast([a, b]));
    bytemuck::cast(v.x - v.y)
}

/// Relies on `f32` multiplication of std: the IEEE-754 product of the two
/// encoded values, a pure function of the two bit patterns.
#[verifier::external_body]
pub fn f32_mul(a: u32, b: u32) -> (r: u32)
    ensures
        r == f32_prod(a, b),
{
    let v = glam::Vec2::from_array(bytemuck::cast([a, b]));
    bytemuck::cast(v.x * v.y)
}

/// Relies on `f32` division of std: the IEEE-754 quotient of the two encoded
/// values (infinite on a zero divisor, never a panic), a pure function of the
/// two bit patterns.
#[verifier::external_body]
pub fn f32_div(a: u32, b: u32) -> (r: u32)
    ensures
        r == f32_quot(a, b),
{
    let v = glam::Vec2::from_array(bytemuck::cast([a, b]));
    bytemuck::cast(v.x / v.y)
}

/// Relies on `f32::to_radians` of std: the encoded value scaled from degrees
/// to radians, a pure function of the bit pattern.
#[verifier::external_body]
pub fn f32_to_radians(degrees: u32) -> (r: u32)
    ensures
        r == radians_of(degrees),
{
    let v = glam::Vec2::from_array(bytemuck::cast([degrees, degrees]));
    bytemuck::cast(v.x.to_radians())
}

/// Relies on the `u32`-to-`f32` conversion of std: the nearest `f32` to the
/// given integer, a pure function of it.
#[verifier::external_body]
pub fn f32_from_u32(n: u32) -> (r: u32)
    ensures
        r == f32_of_u32(n),
{
    bytemuck::cast(glam::UVec2::splat(n).as_vec2().x)
}

/// Relies on the `u64`-to-`f32` conversion of std: the nearest `f32` to the
/// given integer, a pure function of it.
#[verifier::external_body]
pub fn f32_from_u64(n: u64) -> (r: u32)
    ensures
        r == f32_of_u64(n),
{
    bytemuck::cast(glam::U64Vec2::splat(n).as_vec2().x)
}

/// Relies on the `f32` strict greater-than comparison of std: whether the
/// first encoded value exceeds the second (false on a NaN), a pure function
/// of the two bit patterns.
#[verifier::external_body]
pub fn f32_greater(a: u32, b: u32) -> (r: bool)
    ensures
        r == f32_gt(a, b),
{
    let v = glam::Vec2::from_array(bytemuck::cast([a, b]));
    v.x > v.y
}

// ---------------------------------------------------------------------------
// Componentwise vector arithmetic, verified over the scalar names.
// ---------------------------------------------------------------------------

/// The componentwise IEEE-754 sum of two 2D vectors.
pub open spec fn vec2_sum(a: Vec2Bits, b: Vec2Bits) -> Vec2Bits {
    Vec2Bits { x: f32_sum(a.x, b.x), y: f32_sum(a.y, b.y) }
}

/// The componentwise IEEE-754 difference of two 2D vectors.
pub open spec fn vec2_diff(a: Vec2Bits, b: Vec2Bits) -> Vec2Bits {
    Vec2Bits { x: f32_diff(a.x, b.x), y: f32_diff(a.y, b.y) }
}

/// A 2D vector with both components scaled by `s`.
pub open spec fn vec2_scaled(s: u32, v: Vec2Bits) -> Vec2Bits {
    Vec2Bits { x: f32_prod(s, v.x), y: f32_prod(s, v.y) }
}

/// The componentwise IEEE-754 sum of two 3D vectors.
pub open spec fn vec3_sum(a: Vec3Bits, b: Vec3Bits) -> Vec3Bits {
    Vec3Bits { x: f32_sum(a.x, b.x), y: f32_sum(a.y, b.y), z: f32_sum(a.z, b.z) }
}

/// A 3D vector with all components scaled by `s`.
pub open spec fn vec3_scaled(s: u32, v: Vec3Bits) -> Vec3Bits {
    Vec3Bits { x: f32_prod(s, v.x), y: f32_prod(s, v.y), z: f32_prod(s, v.z) }
}

pub fn vec2_add(a: &Vec2Bits, b: &Vec2Bits) -> (r: Vec2Bits)
    ensures
        r == vec2_sum(*a, *b),
{
    Vec2Bits { x: f32_add(a.x, b.x), y: f32_add(a.y, b.y) }
}

pub fn vec2_sub(a: &Vec2Bits, b: &Vec2Bits) -> (r: Vec2Bits)
    ensures
        r == vec2_diff(*a, *b),
{
    Vec2Bits { x: f32_sub(a.x, b.x), y: f32_sub(a.y, b.y) }
}

pub fn vec2_scale(s: u32, v: &Vec2Bits) -> (r: Vec2Bits)
    ensures
        r == vec2_scaled(s, *v),
{
    Vec2Bits { x: f32_mul(s, v.x), y: f32_mul(s, v.y) }
}

pub fn vec3_add(a: &Vec3Bits, b: &Vec3Bits) -> (r: Vec3Bits)
    ensures
        r == vec3_sum(*a, *b),
{
    Vec3Bits { x: f32_add(a.x, b.x), y: f32_add(a.y, b.y), z: f32_add(a.z, b.z) }
}

pub fn vec3_scale(s: u32, v: &Vec3Bits) -> (r: Vec3Bits)
    ensures
        r == vec3_scaled(s, *v),
{
    Vec3Bits { x: f32_mul(s, v.x), y: f32_mul(s, v.y), z: f32_mul(s, v.z) }
}

// ---------------------------------------------------------------------------
// Matrix and quaternion operations of glam.
// ---------------------------------------------------------------------------

pub uninterp spec fn rot_trans_mat(rotation: QuatBits, translation: Vec3Bits) -> Mat4Bits;

pub uninterp spec fn mat4_inversed(m: Mat4Bits) -> Mat4Bits;

pub uninterp spec fn perspective_mat(fov_y_radians: u32, aspect: u32, near: u32, far: u32) -> Mat4Bits;

pub uninterp spec fn mat4_prod(a: Mat4Bits, b: Mat4Bits) -> Mat4Bits;

pub uninterp spec fn mat3_of_mat4(m: Mat4Bits) -> Mat3Bits;

pub uninterp spec fn mat4_of_mat3(m: Mat3Bits) -> Mat4Bits;

pub uninterp spec fn rotated_vec3(q: QuatBits, v: Vec3Bits) -> Vec3Bits;

pub uninterp spec fn yaw_quat(radians: u32) -> QuatBits;

pub uninterp spec fn pitch_quat(radians: u32) -> QuatBits;

pub uninterp spec fn quat_prod(a: QuatBits, b: QuatBits) -> QuatBits;

/// Relies on `glam::Mat4::from_rotation_translation`: the affine transform
/// whose upper 3x3 block is the rotation and whose last column is the
/// translation, a pure function of both arguments.
#[verifier::external_body]
pub fn mat4_from_rotation_translation(q: &QuatBits, p: &Vec3Bits) -> (r: Mat4Bits)
    ensures
        r == rot_trans_mat(*q, *p),
{
    let rot = glam::Quat::from_array(bytemuck::cast([q.x, q.y, q.z, q.w]));
    let pos = glam::Vec3::from_array(bytemuck::cast([p.x, p.y, p.z]));
    let m = glam::Mat4::from_rotation_translation(rot, pos);
    Mat4Bits::from_array(bytemuck::cast(m.to_cols_array()))
}

/// Relies on `glam::Mat4::inverse`: the matrix inverse (an invalid matrix,
/// never a panic, on a singular input), a pure function of the argument.
#[verifier::external_body]
pub fn mat4_inverse(m: &Mat4Bits) -> (r: Mat4Bits)
    ensures
        r == mat4_inversed(*m),
{
    let inv = glam::Mat4::from_cols_array(&bytemuck::cast(m.to_array())).inverse();
    Mat4Bits::from_array(bytemuck::cast(inv.to_cols_array()))
}

/// Relies on `glam::Mat4::perspective_lh`: the left-handed perspective
/// projection with `[0,1]` depth range, a pure function of the four
/// parameters.
#[verifier::external_body]
pub fn mat4_perspective_lh(fov_y_radians: u32, aspect: u32, near: u32, far: u32) -> (r: Mat4Bits)
    ensures
        r == perspective_mat(fov_y_radians, aspect, near, far),
{
    let p = glam::Vec4::from_array(bytemuck::cast([fov_y_radians, aspect, near, far]));
    let m = glam::Mat4::perspective_lh(p.x, p.y, p.z, p.w);
    Mat4Bits::from_array(bytemuck::cast(m.to_cols_array()))
}

/// Relies on `glam::Mat4`'s matrix multiplication: the product `a * b`, a
/// pure function of both factors.
#[verifier::external_body]
pub fn mat4_mul(a: &Mat4Bits, b: &Mat4Bits) -> (r: Mat4Bits)
    ensures
        r == mat4_prod(*a, *b),
{
    let ma = glam::Mat4::from_cols_array(&bytemuck::cast(a.to_array()));
    let mb = glam::Mat4::from_cols_array(&bytemuck::cast(b.to_array()));
    Mat4Bits::from_array(bytemuck::cast((ma * mb).to_cols_array()))
}

/// Relies on `glam::Mat3::from_mat4`: the upper 3x3 block of the matrix, a
/// pure function of it.
#[verifier::external_body]
pub fn mat3_from_mat4(m: &Mat4Bits) -> (r: Mat3Bits)
    ensures
        r == mat3_of_mat4(*m),
{
    let m3 = glam::Mat3::from_mat4(glam::Mat4::from_cols_array(&bytemuck::cast(m.to_array())));
    let c: [u32; 9] = bytemuck::cast(m3.to_cols_array());
    Mat3Bits {
        x_axis: Vec3Bits { x: c[0], y: c[1], z: c[2] },
        y_axis: Vec3Bits { x: c[3], y: c[4], z: c[5] },
        z_axis: Vec3Bits { x: c[6], y: c[7], z: c[8] },
    }
}

/// Relies on `glam::Mat4::from_mat3`: the 3x3 matrix embedded in a 4x4
/// identity, a pure function of it.
#[verifier::external_body]
pub fn mat4_from_mat3(m: &Mat3Bits) -> (r: Mat4Bits)
    ensures
        r == mat4_of_mat3(*m),
{
    let c = [
        m.x_axis.x, m.x_axis.y, m.x_axis.z,
        m.y_axis.x, m.y_axis.y, m.y_axis.z,
        m.z_axis.x, m.z_axis.y, m.z_axis.z,
    ];
    let m4 = glam::Mat4::from_mat3(glam::Mat3::from_cols_array(&bytemuck::cast(c)));
    Mat4Bits::from_array(bytemuck::cast(m4.to_cols_array()))
}

/// Relies on `glam::Quat::mul_vec3`: the vector rotated by the quaternion, a
/// pure function of both arguments.
#[verifier::external_body]
pub fn quat_rotate_vec3(q: &QuatBits, v: &Vec3Bits) -> (r: Vec3Bits)
    ensures
        r == rotated_vec3(*q, *v),
{
    let rot = glam::Quat::from_array(bytemuck::cast([q.x, q.y, q.z, q.w]));
    let out = rot.mul_vec3(glam::Vec3::from_array(bytemuck::cast([v.x, v.y, v.z])));
    let o: [u32; 3] = bytemuck::cast(out.to_array());
    Vec3Bits { x: o[0], y: o[1], z: o[2] }
}

/// Relies on `glam::Quat::from_rotation_y`: the rotation about the world-up
/// axis by the given angle in radians, a pure function of it.
#[verifier::external_body]
pub fn quat_from_rotation_y(radians: u32) -> (r: QuatBits)
    ensures
        r == yaw_quat(radians),
{
    let a = glam::Vec2::from_array(bytemuck::cast([radians, radians]));
    let o: [u32; 4] = bytemuck::cast(glam::Quat::from_rotation_y(a.x).to_array());
    QuatBits { x: o[0], y: o[1], z: o[2], w: o[3] }
}

/// Relies on `glam::Quat::from_rotation_x`: the rotation about the local
/// right axis by the given angle in radians, a pure function of it.
#[verifier::external_body]
pub fn quat_from_rotation_x(radians: u32) -> (r: QuatBits)
    ensures
        r == pitch_quat(radians),
{
    let a = glam::Vec2::from_array(bytemuck::cast([radians, radians]));
    let o: [u32; 4] = bytemuck::cast(glam::Quat::from_rotation_x(a.x).to_array());
    QuatBits { x: o[0], y: o[1], z: o[2], w: o[3] }
}

/// Relies on `glam::Quat`'s quaternion multiplication: the Hamilton product
/// `a * b`, a pure function of both factors.
#[verifier::external_body]
pub fn quat_mul(a: &QuatBits, b: &QuatBits) -> (r: QuatBits)
    ensures
        r == quat_prod(*a, *b),
{
    let qa = glam::Quat::from_array(bytemuck::cast([a.x, a.y, a.z, a.w]));
    let qb = glam::Quat::from_array(bytemuck::cast([b.x, b.y, b.z, b.w]));
    let o: [u32; 4] = bytemuck::cast((qa * qb).to_array());
    QuatBits { x: o[0], y: o[1], z: o[2], w: o[3] }
}

} // verus!
