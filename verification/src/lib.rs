use vstd::prelude::*;

pub mod inspector;
pub mod precompile;
pub mod registry;
pub mod spec_id;

verus! {

broadcast use vstd::array::group_array_axioms;

/// A 20-byte account address, the key type of the precompile registry.
/// Precompile addresses are small integers zero-extended into the high bytes.
pub type B160 = [u8; 20];

/// A 32-byte hash, used for log topics.
pub type B256 = [u8; 32];

/// Gas cost that grows linearly with the input length: a fixed base charge
/// plus a per-word charge for every started 32-byte word of input.
pub open spec fn spec_linear_cost(len: int, base: int, word: int) -> int {
    (len + 31) / 32 * word + base
}

/// Linear gas cost over unsigned 64-bit arithmetic; callers bound `len`
/// so that the computation stays within `u64`.
pub fn calc_linear_cost_u32(len: usize, base: u64, word: u64) -> (cost: u64)
    requires
        len + 31 <= u64::MAX,
        spec_linear_cost(len as int, base as int, word as int) <= u64::MAX,
    ensures
        cost == spec_linear_cost(len as int, base as int, word as int),
{
    (len as u64 + 31) / 32 * word + base
}

/// The big-endian bytes of `x` zero-extended into the low end of a 20-byte
/// address; the shape every built-in precompile address takes.
pub open spec fn spec_u64_to_b160(x: u64) -> Seq<u8> {
    seq![
        0u8, 0u8, 0u8, 0u8, 0u8, 0u8, 0u8, 0u8, 0u8, 0u8, 0u8, 0u8,
        (x >> 56) as u8, (x >> 48) as u8, (x >> 40) as u8, (x >> 32) as u8,
        (x >> 24) as u8, (x >> 16) as u8, (x >> 8) as u8, x as u8,
    ]
}

/// Builds an address by concatenating twelve zero bytes with the eight
/// big-endian bytes of `x`.
pub fn u64_to_b160(x: u64) -> (r: B160)
    ensures
        r@ == spec_u64_to_b160(x),
{
    let mut r: B160 = [0u8; 20];
    r[12] = (x >> 56) as u8;
    r[13] = (x >> 48) as u8;
    r[14] = (x >> 40) as u8;
    r[15] = (x >> 32) as u8;
    r[16] = (x >> 24) as u8;
    r[17] = (x >> 16) as u8;
    r[18] = (x >> 8) as u8;
    r[19] = x as u8;
    proof {
        assert(r@ =~= spec_u64_to_b160(x));
    }
    r
}

} // verus!
