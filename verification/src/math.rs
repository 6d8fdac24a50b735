//! Plain-value transform math: vectors, quaternions, euler angles and
//! matrices whose scalars are IEEE-754 single-precision bit patterns.
//!
//! The verified code stores and moves these values untouched; every numeric
//! kernel (products, decomposition, inversion, view construction) is
//! delegated to the `glam` crate through trusted wrappers. Each wrapper names
//! the result of its kernel with an uninterpreted spec function, so callers
//! can state exactly which kernel ran on which operands without restating
//! float arithmetic.

use vstd::prelude::*;

verus! {

/// Bit pattern of the single-precision number one.
pub const ONE_BITS: u32 = 0x3F80_0000;

/// A 3-component vector; each field is the bit pattern of one coordinate.
#[derive(Clone, Copy, PartialEq, Debug)]
pub struct Vec3 {
    pub x: u32,
    pub y: u32,
    pub z: u32,
}

/// A rotation quaternion; each field is the bit pattern of one component.
#[derive(Clone, Copy, PartialEq, Debug)]
pub struct Quat {
    pub x: u32,
    pub y: u32,
    pub z: u32,
    pub w: u32,
}

/// Rotation angles in radians about the x, y and z axes, applied in
/// intrinsic x-y-z order; each field is the bit pattern of one angle.
#[derive(Clone, Copy, PartialEq, Debug)]
pub struct Euler {
    pub x: u32,
    pub y: u32,
    pub z: u32,
}

/// A column-major 4x4 matrix; sixteen coordinate bit patterns.
#[derive(Clone, Copy, PartialEq, Debug)]
pub struct Mat4 {
    pub e: [u32; 16],
}

/// A column-major 3x3 matrix; nine coordinate bit patterns.
#[derive(Clone, Copy, PartialEq, Debug)]
pub struct Mat3 {
    pub e: [u32; 9],
}

impl Vec3 {
    /// The zero vector.
    pub open spec fn spec_zero() -> Vec3 {
        Vec3 { x: 0, y: 0, z: 0 }
    }

    pub fn zero() -> (r: Vec3)
        ensures
            r == Vec3::spec_zero(),
    {
        Vec3 { x: 0, y: 0, z: 0 }
    }

    /// The vector with one in every coordinate.
    pub open spec fn spec_one() -> Vec3 {
        Vec3 { x: ONE_BITS, y: ONE_BITS, z: ONE_BITS }
    }

    pub fn one() -> (r: Vec3)
        ensures
            r == Vec3::spec_one(),
    {
        Vec3 { x: ONE_BITS, y: ONE_BITS, z: ONE_BITS }
    }

    /// The unit basis vector along x.
    pub open spec fn spec_unit_x() -> Vec3 {
        Vec3 { x: ONE_BITS, y: 0, z: 0 }
    }

    pub fn unit_x() -> (r: Vec3)
        ensures
            r == Vec3::spec_unit_x(),
    {
        Vec3 { x: ONE_BITS, y: 0, z: 0 }
    }

    /// The unit basis vector along y.
    pub open spec fn spec_unit_y() -> Vec3 {
        Vec3 { x: 0, y: ONE_BITS, z: 0 }
    }

    pub fn unit_y() -> (r: Vec3)
        ensures
            r == Vec3::spec_unit_y(),
    {
        Vec3 { x: 0, y: ONE_BITS, z: 0 }
    }

    /// The unit basis vector along z.
    pub open spec fn spec_unit_z() -> Vec3 {
        Vec3 { x: 0, y: 0, z: ONE_BITS }
    }

    pub fn unit_z() -> (r: Vec3)
        ensures
            r == Vec3::spec_unit_z(),
    {
        Vec3 { x: 0, y: 0, z: ONE_BITS }
    }
}

impl Quat {
    /// The identity rotation.
    pub open spec fn spec_identity() -> Quat {
        Quat { x: 0, y: 0, z: 0, w: ONE_BITS }
    }

    pub fn identity() -> (r: Quat)
        ensures
            r == Quat::spec_identity(),
    {
        Quat { x: 0, y: 0, z: 0, w: ONE_BITS }
    }
}

impl Mat4 {
    /// The identity matrix.
    pub open spec fn spec_identity() -> Mat4 {
        Mat4 {
            e: [
                ONE_BITS, 0, 0, 0,
                0, ONE_BITS, 0, 0,
                0, 0, ONE_BITS, 0,
                0, 0, 0, ONE_BITS,
            ],
        }
    }

    pub fn identity() -> (r: Mat4)
        ensures
            r == Mat4::spec_identity(),
    {
        Mat4 {
            e: [
                ONE_BITS, 0, 0, 0,
                0, ONE_BITS, 0, 0,
                0, 0, ONE_BITS, 0,
                0, 0, 0, ONE_BITS,
            ],
        }
    }
}

impl Mat3 {
    /// The identity matrix.
    pub open spec fn spec_identity() -> Mat3 {
        Mat3 {
            e: [
                ONE_BITS, 0, 0,
                0, ONE_BITS, 0,
                0, 0, ONE_BITS,
            ],
        }
    }

    pub fn identity() -> (r: Mat3)
        ensures
            r == Mat3::spec_identity(),
    {
        Mat3 {
            e: [
                ONE_BITS, 0, 0,
                0, ONE_BITS, 0,
                0, 0, ONE_BITS,
            ],
        }
    }
}

pub uninterp spec fn mat4_mul_spec(a: Mat4, b: Mat4) -> Mat4;

/// Relies on glam::Mat4::mul_mat4: the matrix product `a * b`.
#[verifier::external_body]
pub(crate) fn mat4_mul(a: &Mat4, b: &Mat4) -> (r: Mat4)
    ensures
        r == mat4_mul_spec(*a, *b),
{
    let ga = glam::Mat4::from_cols_array(&bytemuck::cast(a.e));
    let gb = glam::Mat4::from_cols_array(&bytemuck::cast(b.e));
    Mat4 { e: bytemuck::cast(ga.mul_mat4(&gb).to_cols_array()) }
}

pub uninterp spec fn mat4_decompose_spec(m: Mat4) -> (Vec3, Quat, Vec3);

/// Relies on glam::Mat4::to_scale_rotation_translation: the (scale, rotation,
/// translation) extraction of an affine matrix; on a non-affine or singular
/// matrix glam documents the output as invalid, but it is still a plain value
/// and is returned as-is.
#[verifier::external_body]
pub(crate) fn mat4_decompose(m: &Mat4) -> (r: (Vec3, Quat, Vec3))
    ensures
        r == mat4_decompose_spec(*m),
{
    let g = glam::Mat4::from_cols_array(&bytemuck::cast(m.e));
    let (s, q, t) = g.to_scale_rotation_translation();
    let sa: [u32; 3] = bytemuck::cast(s.to_array());
    let qa: [u32; 4] = bytemuck::cast(q.to_array());
    let ta: [u32; 3] = bytemuck::cast(t.to_array());
    (
        Vec3 { x: sa[0], y: sa[1], z: sa[2] },
        Quat { x: qa[0], y: qa[1], z: qa[2], w: qa[3] },
        Vec3 { x: ta[0], y: ta[1], z: ta[2] },
    )
}

pub uninterp spec fn mat4_inverse_or_zero_spec(m: Mat4) -> Mat4;

/// Relies on glam::Mat4::inverse_or_zero: the inverse of the matrix, or the
/// all-zero matrix when the matrix is singular or its inverse is not finite.
#[verifier::external_body]
pub(crate) fn mat4_inverse_or_zero(m: &Mat4) -> (r: Mat4)
    ensures
        r == mat4_inverse_or_zero_spec(*m),
{
    let g = glam::Mat4::from_cols_array(&bytemuck::cast(m.e));
    Mat4 { e: bytemuck::cast(g.inverse_or_zero().to_cols_array()) }
}

pub uninterp spec fn mat4_transform_point_spec(m: Mat4, v: Vec3) -> Vec3;

/// Relies on glam::Mat4::transform_point3: the matrix applied to the vector
/// as a point, that is with a homogeneous coordinate of one and no
/// perspective divide.
#[verifier::external_body]
pub(crate) fn mat4_transform_point(m: &Mat4, v: &Vec3) -> (r: Vec3)
    ensures
        r == mat4_transform_point_spec(*m, *v),
{
    let g = glam::Mat4::from_cols_array(&bytemuck::cast(m.e));
    let gv = glam::Vec3::from_array(bytemuck::cast([v.x, v.y, v.z]));
    let a: [u32; 3] = bytemuck::cast(g.transform_point3(gv).to_array());
    Vec3 { x: a[0], y: a[1], z: a[2] }
}

pub uninterp spec fn look_at_quat_spec(eye: Vec3, center: Vec3, up: Vec3) -> Quat;

/// Relies on glam::camera::rh::view::look_at_quat: the right-handed view rotation
/// for a viewer at `eye` facing `center` with `up` as the secondary axis; it
/// maps world space to a view space whose forward axis is negative z.
#[verifier::external_body]
pub(crate) fn look_at_quat(eye: &Vec3, center: &Vec3, up: &Vec3) -> (r: Quat)
    ensures
        r == look_at_quat_spec(*eye, *center, *up),
{
    let ge = glam::Vec3::from_array(bytemuck::cast([eye.x, eye.y, eye.z]));
    let gc = glam::Vec3::from_array(bytemuck::cast([center.x, center.y, center.z]));
    let gu = glam::Vec3::from_array(bytemuck::cast([up.x, up.y, up.z]));
    let a: [u32; 4] = bytemuck::cast(glam::camera::rh::view::look_at_quat(ge, gc, gu).to_array());
    Quat { x: a[0], y: a[1], z: a[2], w: a[3] }
}

pub uninterp spec fn quat_mul_spec(a: Quat, b: Quat) -> Quat;

/// Relies on glam::Quat::mul_quat: the Hamilton product `a * b`, the rotation
/// that applies `b` first and then `a`.
#[verifier::external_body]
pub(crate) fn quat_mul(a: &Quat, b: &Quat) -> (r: Quat)
    ensures
        r == quat_mul_spec(*a, *b),
{
    let ga = glam::Quat::from_array(bytemuck::cast([a.x, a.y, a.z, a.w]));
    let gb = glam::Quat::from_array(bytemuck::cast([b.x, b.y, b.z, b.w]));
    let c: [u32; 4] = bytemuck::cast(ga.mul_quat(gb).to_array());
    Quat { x: c[0], y: c[1], z: c[2], w: c[3] }
}

pub uninterp spec fn quat_inverse_spec(q: Quat) -> Quat;

/// Relies on glam::Quat::inverse: the conjugate of the quaternion, which is
/// the inverse rotation for a normalized quaternion.
#[verifier::external_body]
pub(crate) fn quat_inverse(q: &Quat) -> (r: Quat)
    ensures
        r == quat_inverse_spec(*q),
{
    let g = glam::Quat::from_array(bytemuck::cast([q.x, q.y, q.z, q.w]));
    let a: [u32; 4] = bytemuck::cast(g.inverse().to_array());
    Quat { x: a[0], y: a[1], z: a[2], w: a[3] }
}

pub uninterp spec fn quat_from_axis_angle_spec(axis: Vec3, angle_bits: u32) -> Quat;

/// Relies on glam::Quat::from_axis_angle: the rotation by the given angle, in
/// radians, about the given axis, which glam expects to be normalized.
#[verifier::external_body]
pub(crate) fn quat_from_axis_angle(axis: &Vec3, angle_bits: u32) -> (r: Quat)
    ensures
        r == quat_from_axis_angle_spec(*axis, angle_bits),
{
    let ga = glam::Vec3::from_array(bytemuck::cast([axis.x, axis.y, axis.z]));
    let g = glam::Quat::from_axis_angle(ga, bytemuck::cast(angle_bits));
    let a: [u32; 4] = bytemuck::cast(g.to_array());
    Quat { x: a[0], y: a[1], z: a[2], w: a[3] }
}

pub uninterp spec fn quat_from_euler_spec(e: Euler) -> Quat;

/// Relies on glam::Quat::from_euler with intrinsic x-y-z order: the rotation
/// given by the three euler angles.
#[verifier::external_body]
pub(crate) fn quat_from_euler(e: &Euler) -> (r: Quat)
    ensures
        r == quat_from_euler_spec(*e),
{
    let x = bytemuck::cast(e.x);
    let y = bytemuck::cast(e.y);
    let z = bytemuck::cast(e.z);
    let a: [u32; 4] = bytemuck::cast(glam::Quat::from_euler(glam::EulerRot::XYZ, x, y, z).to_array());
    Quat { x: a[0], y: a[1], z: a[2], w: a[3] }
}

pub uninterp spec fn quat_from_mat4_spec(m: Mat4) -> Quat;

/// Relies on glam::Quat::from_mat4: the rotation stored in the upper 3x3 part
/// of the matrix, which glam expects to be a pure rotation.
#[verifier::external_body]
pub(crate) fn quat_from_mat4(m: &Mat4) -> (r: Quat)
    ensures
        r == quat_from_mat4_spec(*m),
{
    let g = glam::Mat4::from_cols_array(&bytemuck::cast(m.e));
    let a: [u32; 4] = bytemuck::cast(glam::Quat::from_mat4(&g).to_array());
    Quat { x: a[0], y: a[1], z: a[2], w: a[3] }
}

pub uninterp spec fn vec3_apply_quat_spec(q: Quat, v: Vec3) -> Vec3;

/// Relies on glam::Quat::mul_vec3: the vector rotated by the quaternion.
#[verifier::external_body]
pub(crate) fn vec3_apply_quat(q: &Quat, v: &Vec3) -> (r: Vec3)
    ensures
        r == vec3_apply_quat_spec(*q, *v),
{
    let gq = glam::Quat::from_array(bytemuck::cast([q.x, q.y, q.z, q.w]));
    let gv = glam::Vec3::from_array(bytemuck::cast([v.x, v.y, v.z]));
    let a: [u32; 3] = bytemuck::cast(gq.mul_vec3(gv).to_array());
    Vec3 { x: a[0], y: a[1], z: a[2] }
}

pub uninterp spec fn vec3_scale_spec(v: Vec3, factor_bits: u32) -> Vec3;

/// Relies on glam::Vec3 multiplication with a splatted factor: every
/// coordinate multiplied by the factor.
#[verifier::external_body]
pub(crate) fn vec3_scale(v: &Vec3, factor_bits: u32) -> (r: Vec3)
    ensures
        r == vec3_scale_spec(*v, factor_bits),
{
    let gv = glam::Vec3::from_array(bytemuck::cast([v.x, v.y, v.z]));
    let gf = glam::Vec3::splat(bytemuck::cast(factor_bits));
    let a: [u32; 3] = bytemuck::cast((gv * gf).to_array());
    Vec3 { x: a[0], y: a[1], z: a[2] }
}

pub uninterp spec fn vec3_add_spec(a: Vec3, b: Vec3) -> Vec3;

/// Relies on glam::Vec3 addition: the componentwise sum of the operands.
#[verifier::external_body]
pub(crate) fn vec3_add(a: &Vec3, b: &Vec3) -> (r: Vec3)
    ensures
        r == vec3_add_spec(*a, *b),
{
    let ga = glam::Vec3::from_array(bytemuck::cast([a.x, a.y, a.z]));
    let gb = glam::Vec3::from_array(bytemuck::cast([b.x, b.y, b.z]));
    let c: [u32; 3] = bytemuck::cast((ga + gb).to_array());
    Vec3 { x: c[0], y: c[1], z: c[2] }
}

} // verus!
