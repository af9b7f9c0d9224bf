use vstd::prelude::*;

verus! {

/// A 4x4 matrix in column-major order; each entry is the bit pattern of an `f32`.
pub type Mat4 = [u32; 16];

/// Bit pattern of `1.0f32`.
pub const ONE_BITS: u32 = 0x3f80_0000;

/// Mask of the sign bit of an `f32`.
pub const SIGN_BIT: u32 = 0x8000_0000;

/// Negation of an `f32` given by its bits: IEEE 754 negation flips the sign bit only.
pub open spec fn neg_bits(x: u32) -> u32 {
    x ^ SIGN_BIT
}

/// `[z flip] * m`: the row of the z coordinate (entries 2, 6, 10, 14) is negated.
pub open spec fn z_flip_spec(m: Seq<u32>) -> Seq<u32> {
    Seq::new(m.len(), |i: int| if i % 4 == 2 { neg_bits(m[i]) } else { m[i] })
}

/// `z_flip_spec` on a matrix value.
pub open spec fn z_flip_mat(m: Mat4) -> Mat4 {
    [
        m[0], m[1], neg_bits(m[2]), m[3],
        m[4], m[5], neg_bits(m[6]), m[7],
        m[8], m[9], neg_bits(m[10]), m[11],
        m[12], m[13], neg_bits(m[14]), m[15],
    ]
}

/// The identity matrix: `1.0` on the diagonal, `+0.0` elsewhere.
pub open spec fn identity_spec() -> Seq<u32> {
    Seq::new(16, |i: int| if i % 5 == 0 { ONE_BITS } else { 0u32 })
}

/// `identity_spec` as a matrix value.
pub open spec fn identity_mat() -> Mat4 {
    [
        ONE_BITS, 0, 0, 0,
        0, ONE_BITS, 0, 0,
        0, 0, ONE_BITS, 0,
        0, 0, 0, ONE_BITS,
    ]
}

/// Negating an `f32` twice gives back its bits.
pub proof fn lemma_neg_bits_involution(x: u32)
    ensures
        neg_bits(neg_bits(x)) == x,
{
    assert((x ^ 0x8000_0000u32) ^ 0x8000_0000u32 == x) by (bit_vector);
}

/// Flipping the z axis twice gives back the matrix it started from.
pub proof fn lemma_z_flip_involution(m: Seq<u32>)
    ensures
        z_flip_spec(z_flip_spec(m)) == m,
{
    assert forall|i: int| 0 <= i < m.len() implies #[trigger] z_flip_spec(z_flip_spec(m))[i]
        == m[i] by {
        lemma_neg_bits_involution(m[i]);
    }
    assert(z_flip_spec(z_flip_spec(m)) =~= m);
}

/// The z flip that the drawers apply to a projection matrix undoes itself:
/// flipping twice gives back the matrix.
pub proof fn lemma_z_flip_mat_involution(m: Mat4)
    ensures
        z_flip_mat(z_flip_mat(m)) == m,
{
    lemma_neg_bits_involution(m[2]);
    lemma_neg_bits_involution(m[6]);
    lemma_neg_bits_involution(m[10]);
    lemma_neg_bits_involution(m[14]);
    assert(z_flip_mat(z_flip_mat(m))@ =~= m@);
}

/// The projection matrix with its z row negated, as handed to the
/// textured and point drawers' shaders.
pub fn mat4_z_flip(m: &Mat4) -> (r: Mat4)
    ensures
        r@ == z_flip_spec(m@),
        r == z_flip_mat(*m),
{
    let mut r: Mat4 = *m;
    r[2] = m[2] ^ SIGN_BIT;
    r[6] = m[6] ^ SIGN_BIT;
    r[10] = m[10] ^ SIGN_BIT;
    r[14] = m[14] ^ SIGN_BIT;
    assert(r@ =~= z_flip_spec(m@));
    r
}

/// The identity matrix.
pub fn identity_mat4() -> (r: Mat4)
    ensures
        r@ == identity_spec(),
        r == identity_mat(),
{
    let r: Mat4 = [
        ONE_BITS, 0, 0, 0,
        0, ONE_BITS, 0, 0,
        0, 0, ONE_BITS, 0,
        0, 0, 0, ONE_BITS,
    ];
    assert(r@ =~= identity_spec());
    r
}

} // verus!
