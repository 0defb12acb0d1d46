//! Deterministic pseudo-random generator: a 128-bit xorshift generator
//! producing uniform-ish `u32` values and derived bounded integers. It is the
//! foundation for all procedural generation in the core.

use vstd::prelude::*;

verus! {

/// 16 bytes of external entropy used to initialise the generator.
pub type Seed = [u8; 16];

/// 128 bits of generator state, as four 32-bit words. The state is never
/// mutated except through the single step function, so the same state and the
/// same call sequence always give the same outputs.
#[derive(Clone, Copy, Debug, PartialEq, Eq, Structural)]
pub struct Xs {
    pub z0: u32,
    pub z1: u32,
    pub z2: u32,
    pub z3: u32,
}

/// The word computed by one xorshift128 step: the oldest word mixed by three
/// xor-shift operations (left 11, right 8) into the leading word (right 19).
pub open spec fn spec_xorshift_word(xs: Xs) -> u32 {
    let t1 = xs.z3 ^ (xs.z3 << 11u32);
    let t2 = t1 ^ (t1 >> 8u32);
    t2 ^ xs.z0 ^ (xs.z0 >> 19u32)
}

/// The generator state after one xorshift128 step: the words rotate by one
/// place and the freshly mixed word becomes the leading word.
pub open spec fn spec_xorshift(xs: Xs) -> Xs {
    Xs { z0: spec_xorshift_word(xs), z1: xs.z0, z2: xs.z1, z3: xs.z2 }
}

/// Advances the state by one xorshift128 step and returns the newly computed
/// leading word. Deterministic, total, with no failure mode.
pub fn xorshift(xs: &mut Xs) -> (r: u32)
    ensures
        *final(xs) == spec_xorshift(*old(xs)),
        r == spec_xorshift_word(*old(xs)),
{
    let mut t = xs.z3;

    xs.z3 = xs.z2;
    xs.z2 = xs.z1;
    xs.z1 = xs.z0;

    t = t ^ (t << 11u32);
    t = t ^ (t >> 8u32);
    xs.z0 = t ^ xs.z0 ^ (xs.z0 >> 19u32);

    xs.z0
}

/// The bounded draw derived from one step: the raw word reduced into
/// `[min, one_past_max)` by modulus.
pub open spec fn spec_xs_u32(xs: Xs, min: u32, one_past_max: u32) -> int
    recommends
        min < one_past_max,
{
    (spec_xorshift_word(xs) as int) % (one_past_max - min) + min
}

/// Draws one value uniform-ish in `[min, one_past_max)`, advancing the state
/// by one step.
///
/// The range must be non-empty; that is a programming contract on callers,
/// not a runtime error this core recovers from.
pub fn xs_u32(xs: &mut Xs, min: u32, one_past_max: u32) -> (r: u32)
    requires
        min < one_past_max,
    ensures
        min <= r < one_past_max,
        r == spec_xs_u32(*old(xs), min, one_past_max),
        *final(xs) == spec_xorshift(*old(xs)),
{
    (xorshift(xs) % (one_past_max - min)) + min
}

/// A 32-bit word assembled from four bytes, least significant byte first.
pub open spec fn spec_u32_le(b0: u8, b1: u8, b2: u8, b3: u8) -> u32 {
    (b0 + b1 * 0x100 + b2 * 0x1_0000 + b3 * 0x100_0000) as u32
}

/// Whether every byte of the seed is zero.
pub open spec fn is_zero_seed(seed: Seed) -> bool {
    forall|i: int| 0 <= i < 16 ==> seed@[i] == 0
}

/// The fixed non-zero state substituted for the all-zero seed. The xorshift
/// recurrence is degenerate at the all-zero state (it would stay zero
/// forever), so that seed is remapped before use.
pub open spec fn spec_fallback_xs() -> Xs {
    Xs { z0: 0x0BAD_5EED, z1: 0, z2: 0, z3: 0 }
}

/// The generator state a seed maps to: the four words read from the seed
/// bytes least significant byte first, except that the all-zero seed is
/// remapped to the fixed fallback state.
pub open spec fn spec_xs_from_seed(seed: Seed) -> Xs {
    if is_zero_seed(seed) {
        spec_fallback_xs()
    } else {
        Xs {
            z0: spec_u32_le(seed@[0], seed@[1], seed@[2], seed@[3]),
            z1: spec_u32_le(seed@[4], seed@[5], seed@[6], seed@[7]),
            z2: spec_u32_le(seed@[8], seed@[9], seed@[10], seed@[11]),
            z3: spec_u32_le(seed@[12], seed@[13], seed@[14], seed@[15]),
        }
    }
}

/// Deterministically maps any 16-byte seed to a generator state,
/// substituting the fixed non-zero fallback state when the input is the zero
/// vector.
pub fn xs_from_seed(seed: Seed) -> (r: Xs)
    ensures
        r == spec_xs_from_seed(seed),
{
    let zero = seed[0] == 0 && seed[1] == 0 && seed[2] == 0 && seed[3] == 0
        && seed[4] == 0 && seed[5] == 0 && seed[6] == 0 && seed[7] == 0
        && seed[8] == 0 && seed[9] == 0 && seed[10] == 0 && seed[11] == 0
        && seed[12] == 0 && seed[13] == 0 && seed[14] == 0 && seed[15] == 0;
    if zero {
        Xs { z0: 0x0BAD_5EED, z1: 0, z2: 0, z3: 0 }
    } else {
        Xs {
            z0: u32_from_le_bytes(seed[0], seed[1], seed[2], seed[3]),
            z1: u32_from_le_bytes(seed[4], seed[5], seed[6], seed[7]),
            z2: u32_from_le_bytes(seed[8], seed[9], seed[10], seed[11]),
            z3: u32_from_le_bytes(seed[12], seed[13], seed[14], seed[15]),
        }
    }
}

/// Assembles a 32-bit word from four bytes, least significant byte first.
fn u32_from_le_bytes(b0: u8, b1: u8, b2: u8, b3: u8) -> (r: u32)
    ensures
        r == spec_u32_le(b0, b1, b2, b3),
{
    b0 as u32 + b1 as u32 * 0x100 + b2 as u32 * 0x1_0000 + b3 as u32 * 0x100_0000
}

/// The four bytes of a 32-bit word, least significant byte first.
pub open spec fn spec_le_bytes(w: u32) -> Seq<u8> {
    seq![
        (w % 0x100) as u8,
        ((w / 0x100) % 0x100) as u8,
        ((w / 0x1_0000) % 0x100) as u8,
        ((w / 0x100_0000) % 0x100) as u8,
    ]
}

/// The 16 seed bytes drawn by four successive generator steps, each word
/// written least significant byte first.
pub open spec fn spec_new_seed(xs: Xs) -> Seq<u8> {
    let xs1 = spec_xorshift(xs);
    let xs2 = spec_xorshift(xs1);
    let xs3 = spec_xorshift(xs2);
    spec_le_bytes(spec_xorshift_word(xs)) + spec_le_bytes(spec_xorshift_word(xs1))
        + spec_le_bytes(spec_xorshift_word(xs2)) + spec_le_bytes(spec_xorshift_word(xs3))
}

/// The generator state after `n` xorshift128 steps.
pub open spec fn spec_xorshift_n(xs: Xs, n: nat) -> Xs
    decreases n,
{
    if n == 0 {
        xs
    } else {
        spec_xorshift(spec_xorshift_n(xs, (n - 1) as nat))
    }
}

/// Draws a fresh 16-byte seed from the generator: four words, each written
/// least significant byte first, advancing the state by four steps.
pub fn new_seed(rng: &mut Xs) -> (r: Seed)
    ensures
        r@ == spec_new_seed(*old(rng)),
        *final(rng) == spec_xorshift_n(*old(rng), 4),
{
    let s0 = xorshift(rng);
    let s1 = xorshift(rng);
    let s2 = xorshift(rng);
    let s3 = xorshift(rng);

    let r: Seed = [
        (s0 % 0x100) as u8,
        ((s0 / 0x100) % 0x100) as u8,
        ((s0 / 0x1_0000) % 0x100) as u8,
        ((s0 / 0x100_0000) % 0x100) as u8,
        (s1 % 0x100) as u8,
        ((s1 / 0x100) % 0x100) as u8,
        ((s1 / 0x1_0000) % 0x100) as u8,
        ((s1 / 0x100_0000) % 0x100) as u8,
        (s2 % 0x100) as u8,
        ((s2 / 0x100) % 0x100) as u8,
        ((s2 / 0x1_0000) % 0x100) as u8,
        ((s2 / 0x100_0000) % 0x100) as u8,
        (s3 % 0x100) as u8,
        ((s3 / 0x100) % 0x100) as u8,
        ((s3 / 0x1_0000) % 0x100) as u8,
        ((s3 / 0x100_0000) % 0x100) as u8,
    ];
    proof {
        reveal_with_fuel(spec_xorshift_n, 5);
        assert(r@ =~= spec_new_seed(*old(rng)));
    }
    r
}

/// One exchange of two sequence elements.
pub open spec fn spec_swap<A>(s: Seq<A>, i: int, j: int) -> Seq<A>
    recommends
        0 <= i < s.len(),
        0 <= j < s.len(),
{
    s.update(i, s[j]).update(j, s[i])
}

/// The generator state and element order after the shuffle's first `n`
/// iterations: iteration `i` (counting from 1) draws a bounded value `r` in
/// `[0, i]` and exchanges the elements at `i` and `r`.
pub open spec fn spec_shuffle_prefix<A>(xs: Xs, s: Seq<A>, n: int) -> (Xs, Seq<A>)
    decreases n,
{
    if n <= 1 {
        (xs, s)
    } else {
        let prev = spec_shuffle_prefix(xs, s, n - 1);
        let i = n - 1;
        let r = spec_xs_u32(prev.0, 0, (i + 1) as u32);
        (spec_xorshift(prev.0), spec_swap(prev.1, i, r))
    }
}

/// Relies on `<[T]>::swap`: exchanges the elements at `i` and `j` in place.
#[verifier::external_body]
fn vec_swap<A>(v: &mut Vec<A>, i: usize, j: usize)
    requires
        i < old(v).len(),
        j < old(v).len(),
    ensures
        final(v)@ == spec_swap(old(v)@, i as int, j as int),
{
    v.swap(i, j);
}

/// Shuffles the elements Fisher-Yates style, drawing one bounded value per
/// element from index 1 upward. Sequences are supported up to `2^32 - 2`
/// elements, a documented limitation of the bounded draw's 32-bit range.
pub fn xs_shuffle<A>(rng: &mut Xs, slice: &mut Vec<A>)
    requires
        old(slice)@.len() <= 0xFFFF_FFFEusize,
    ensures
        *final(rng) == spec_shuffle_prefix(*old(rng), old(slice)@, old(slice)@.len() as int).0,
        final(slice)@ == spec_shuffle_prefix(*old(rng), old(slice)@, old(slice)@.len() as int).1,
{
    let ghost xs0 = *rng;
    let ghost s0 = slice@;
    let len = slice.len();
    let mut i: usize = 1;
    while i < len
        invariant
            1 <= i,
            i <= len || i == 1,
            len == s0.len() <= 0xFFFF_FFFEusize,
            slice@.len() == s0.len(),
            *rng == spec_shuffle_prefix(xs0, s0, i as int).0,
            slice@ == spec_shuffle_prefix(xs0, s0, i as int).1,
        decreases len - i,
    {
        let r = xs_u32(rng, 0, (i as u32) + 1) as usize;
        vec_swap(slice, i, r);
        i = i + 1;
    }
}

/// The all-zero generator state is degenerate: one step leaves it unchanged
/// and yields the word zero, so it would never advance. This is why the
/// all-zero seed must be remapped.
pub proof fn lemma_zero_state_is_degenerate()
    ensures
        spec_xorshift(Xs { z0: 0, z1: 0, z2: 0, z3: 0 }) == (Xs { z0: 0, z1: 0, z2: 0, z3: 0 }),
        spec_xorshift_word(Xs { z0: 0, z1: 0, z2: 0, z3: 0 }) == 0,
{
    assert(0u32 << 11u32 == 0u32) by (bit_vector);
    assert(0u32 >> 8u32 == 0u32) by (bit_vector);
    assert(0u32 >> 19u32 == 0u32) by (bit_vector);
    assert(0u32 ^ 0u32 == 0u32) by (bit_vector);
}

/// Zero-seed remap: the all-zero seed maps to exactly the state the
/// documented fallback constant maps to (sixteen little-endian bytes of the
/// fallback word), so the two trajectories are identical; and that state is
/// not the degenerate all-zero one.
pub proof fn lemma_zero_seed_remap(z: Seed, f: Seed)
    requires
        is_zero_seed(z),
        f@ == seq![
            0xEDu8, 0x5Eu8, 0xADu8, 0x0Bu8, 0u8, 0u8, 0u8, 0u8, 0u8, 0u8, 0u8, 0u8, 0u8, 0u8,
            0u8, 0u8,
        ],
    ensures
        spec_xs_from_seed(z) == spec_xs_from_seed(f),
        spec_xs_from_seed(z) == spec_fallback_xs(),
        spec_fallback_xs() != (Xs { z0: 0, z1: 0, z2: 0, z3: 0 }),
{
    assert(f@[0] == 0xEDu8);
    assert(!is_zero_seed(f));
}

} // verus!
