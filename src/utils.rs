use vstd::prelude::*;

verus! {

/// Number of depth slots given to each component of a composite z-index.
pub const ZINDEX_SCALE: i128 = 1024;

/// Shifts a depth component into `0..ZINDEX_SCALE`, clamping at both ends.
pub open spec fn zindex_component(v: int) -> int {
    if v + 512 < 0 {
        0
    } else if v + 512 > 1023 {
        1023
    } else {
        v + 512
    }
}

/// The composite depth of `(z, z0, z1, z2)`: each component takes ten bits,
/// `z` the most significant, and the whole is centred on zero.
pub open spec fn zindex(z: int, z0: int, z1: int, z2: int) -> int {
    zindex_component(z) * 1024 * 1024 * 1024 + zindex_component(z0) * 1024 * 1024
        + zindex_component(z1) * 1024 + zindex_component(z2) - 1024 * 1024 * 1024 * 512
}

fn normalize(v: i128) -> (r: i128)
    ensures
        r == zindex_component(v as int),
        0 <= r < ZINDEX_SCALE,
{
    if v < -512 {
        0
    } else if v > 511 {
        ZINDEX_SCALE - 1
    } else {
        v + ZINDEX_SCALE / 2
    }
}

/// Packs four depth components into one z-index that orders first by `z`,
/// then by `z0`, `z1` and `z2`. Each component is clamped to `-512..=511`.
pub fn composite_zindex(z: i128, z0: i128, z1: i128, z2: i128) -> (r: i128)
    ensures
        r == zindex(z as int, z0 as int, z1 as int, z2 as int),
{
    let scale = ZINDEX_SCALE;
    let a = normalize(z);
    let b = normalize(z0);
    let c = normalize(z1);
    let d = normalize(z2);
    assert(0 <= a * scale * scale * scale <= 1023 * 1024 * 1024 * 1024) by (nonlinear_arith)
        requires
            0 <= a < 1024,
            scale == 1024,
    ;
    assert(0 <= b * scale * scale <= 1023 * 1024 * 1024) by (nonlinear_arith)
        requires
            0 <= b < 1024,
            scale == 1024,
    ;
    a * scale * scale * scale + b * scale * scale + c * scale + d - 1024 * 1024 * 1024 * 512
}

} // verus!
