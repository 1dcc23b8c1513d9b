//! Column-major 4x4 matrices, carried as the bit patterns of their entries.
//!
//! The renderer never inspects a matrix entry numerically; it only assembles
//! matrices, multiplies them through the math library, and hands the bits to
//! the GPU. Entries are therefore stored as `u32` bit patterns, and the two
//! operations whose numeric results this crate does not restate (the general
//! matrix product and the rotation entries) are named, not spelled out.

use vstd::prelude::*;

verus! {

/// Bit pattern of the matrix entry holding zero.
pub const F32_ZERO: u32 = 0x0000_0000;

/// Bit pattern of the matrix entry holding one.
pub const F32_ONE: u32 = 0x3F80_0000;

/// The identity matrix, column-major.
pub open spec fn identity_mat() -> Seq<u32> {
    seq![
        F32_ONE, F32_ZERO, F32_ZERO, F32_ZERO,
        F32_ZERO, F32_ONE, F32_ZERO, F32_ZERO,
        F32_ZERO, F32_ZERO, F32_ONE, F32_ZERO,
        F32_ZERO, F32_ZERO, F32_ZERO, F32_ONE,
    ]
}

/// The translation matrix for an offset of `(px, py, 0)`: the identity with
/// the offset bits placed in the fourth column.
pub open spec fn translation_mat(px: u32, py: u32) -> Seq<u32> {
    seq![
        F32_ONE, F32_ZERO, F32_ZERO, F32_ZERO,
        F32_ZERO, F32_ONE, F32_ZERO, F32_ZERO,
        F32_ZERO, F32_ZERO, F32_ONE, F32_ZERO,
        px, py, F32_ZERO, F32_ONE,
    ]
}

/// The scale matrix for factors `(sx, sy, 1)`: the scale bits on the diagonal.
pub open spec fn scale_mat(sx: u32, sy: u32) -> Seq<u32> {
    seq![
        sx, F32_ZERO, F32_ZERO, F32_ZERO,
        F32_ZERO, sy, F32_ZERO, F32_ZERO,
        F32_ZERO, F32_ZERO, F32_ONE, F32_ZERO,
        F32_ZERO, F32_ZERO, F32_ZERO, F32_ONE,
    ]
}

/// The bits of the product of two 4x4 matrices, as the math library computes
/// it. The product is a pure function of the two operands' bits.
pub uninterp spec fn mat_mul(a: Seq<u32>, b: Seq<u32>) -> Seq<u32>;

/// The bits of the rotation matrix about the z axis for an angle carried as
/// bits. The sine and cosine entries are a pure function of the angle bits.
pub uninterp spec fn rot_z_mat(angle: u32) -> Seq<u32>;

/// Builds the identity matrix. Mirrors what `glam::Mat4::IDENTITY` holds,
/// entry for entry.
pub fn identity_matrix() -> (m: [u32; 16])
    ensures
        m@ == identity_mat(),
{
    let m: [u32; 16] = [
        F32_ONE, F32_ZERO, F32_ZERO, F32_ZERO,
        F32_ZERO, F32_ONE, F32_ZERO, F32_ZERO,
        F32_ZERO, F32_ZERO, F32_ONE, F32_ZERO,
        F32_ZERO, F32_ZERO, F32_ZERO, F32_ONE,
    ];
    proof {
        assert(m@ =~= identity_mat());
    }
    m
}

/// Builds the translation matrix for `(px, py, 0)`. The offset bits pass
/// through untouched, so this mirrors `glam::Mat4::from_translation` bit for
/// bit without calling it.
pub fn translation_matrix(px: u32, py: u32) -> (m: [u32; 16])
    ensures
        m@ == translation_mat(px, py),
{
    let m: [u32; 16] = [
        F32_ONE, F32_ZERO, F32_ZERO, F32_ZERO,
        F32_ZERO, F32_ONE, F32_ZERO, F32_ZERO,
        F32_ZERO, F32_ZERO, F32_ONE, F32_ZERO,
        px, py, F32_ZERO, F32_ONE,
    ];
    proof {
        assert(m@ =~= translation_mat(px, py));
    }
    m
}

/// Builds the scale matrix for `(sx, sy, 1)`. The scale bits pass through
/// untouched, so this mirrors `glam::Mat4::from_scale` bit for bit without
/// calling it.
pub fn scale_matrix(sx: u32, sy: u32) -> (m: [u32; 16])
    ensures
        m@ == scale_mat(sx, sy),
{
    let m: [u32; 16] = [
        sx, F32_ZERO, F32_ZERO, F32_ZERO,
        F32_ZERO, sy, F32_ZERO, F32_ZERO,
        F32_ZERO, F32_ZERO, F32_ONE, F32_ZERO,
        F32_ZERO, F32_ZERO, F32_ZERO, F32_ONE,
    ];
    proof {
        assert(m@ =~= scale_mat(sx, sy));
    }
    m
}

/// Relies on `glam::Mat4::from_rotation_z`: the rotation matrix whose entries
/// depend on the angle bits alone.
#[verifier::external_body]
pub(crate) fn rotation_z_matrix(angle: u32) -> (m: [u32; 16])
    ensures
        m@ == rot_z_mat(angle),
{
    bytemuck::cast(glam::Mat4::from_rotation_z(bytemuck::cast(angle)))
}

/// Relies on `glam::Mat4`'s `Mul` implementation: the matrix product, a pure
/// function of the operands' bits.
#[verifier::external_body]
pub(crate) fn mat4_mul(a: &[u32; 16], b: &[u32; 16]) -> (m: [u32; 16])
    ensures
        m@ == mat_mul(a@, b@),
{
    let x: glam::Mat4 = bytemuck::cast(*a);
    let y: glam::Mat4 = bytemuck::cast(*b);
    bytemuck::cast(x * y)
}

} // verus!
