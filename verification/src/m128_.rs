//! The `m128` wrapper type, its bonus methods, and the conversions between
//! the register value and a 4-lane array of raw 32-bit patterns.

use vstd::prelude::*;

use crate::render::{numeral, render_wrapped, spec_numeral, spec_wrapped};

verus! {

broadcast use vstd::array::group_array_axioms;

/// The rendering of a register under one of the pattern notations: each
/// lane's raw 32-bit pattern as a numeral in `base`, joined under the
/// shared parenthesized template with no name prefix.
pub open spec fn spec_pattern_rendering(lanes: Seq<u32>, base: nat, upper: bool) -> Seq<char>
    recommends
        lanes.len() == 4,
        2 <= base <= 16,
{
    spec_wrapped(
        Seq::empty(),
        seq![
            spec_numeral(lanes[0] as nat, base, upper),
            spec_numeral(lanes[1] as nat, base, upper),
            spec_numeral(lanes[2] as nat, base, upper),
            spec_numeral(lanes[3] as nat, base, upper),
        ],
    )
}

/// The four 32-bit lanes held in a 128-bit pattern, lane `i` occupying
/// bits `[32 * i, 32 * i + 32)` (the bytes `[4 * i, 4 * i + 4)` of the
/// little-endian value).
pub open spec fn spec_lanes(bits: u128) -> Seq<u32> {
    seq![
        (bits & 0xFFFF_FFFF) as u32,
        ((bits >> 32) & 0xFFFF_FFFF) as u32,
        ((bits >> 64) & 0xFFFF_FFFF) as u32,
        ((bits >> 96) & 0xFFFF_FFFF) as u32,
    ]
}

/// The 128-bit pattern that packs four 32-bit lanes in lane order.
pub open spec fn spec_pack(l: Seq<u32>) -> u128
    recommends
        l.len() == 4,
{
    ((l[0] as u128) | ((l[1] as u128) << 32) | ((l[2] as u128) << 64) | ((l[3] as u128) << 96))
}

/// The data for a 128-bit SSE lane register.
///
/// * This is very similar to having four 32-bit lanes in an array. The main
///   difference is that the value is aligned to 16 instead of just 4, as the
///   hardware register demands.
/// * Each lane is carried as its raw 32-bit pattern: the type imposes no
///   validity constraint beyond size and alignment, so every pattern is a
///   legal value and conversions never alter a bit.
/// * Use `lane` and `set_lane` if you must touch a single lane. Doing so in
///   the middle of a series of register operations usually kills performance:
///   the value has to move out of register and into memory first.
pub struct m128(pub u128);

impl View for m128 {
    type V = Seq<u32>;

    open spec fn view(&self) -> Seq<u32> {
        spec_lanes(self.0)
    }
}

impl Clone for m128 {
    /// Copies the value; the copy is independent and bit-identical.
    fn clone(&self) -> (r: Self)
        ensures
            r == *self,
    {
        m128(self.0)
    }
}

impl Copy for m128 {}

impl Default for m128 {
    /// The all-zero-bits value: every lane is zero.
    fn default() -> (r: Self)
        ensures
            r.0 == 0,
            r@ =~= seq![0u32, 0u32, 0u32, 0u32],
    {
        proof {
            assert((0u128 & 0xFFFF_FFFF) as u32 == 0u32) by (bit_vector);
            assert(((0u128 >> 32) & 0xFFFF_FFFF) as u32 == 0u32) by (bit_vector);
            assert(((0u128 >> 64) & 0xFFFF_FFFF) as u32 == 0u32) by (bit_vector);
            assert(((0u128 >> 96) & 0xFFFF_FFFF) as u32 == 0u32) by (bit_vector);
        }
        m128(0)
    }
}

impl m128 {
    /// Unpacks the `m128` to an array of the four lane patterns, in lane
    /// order.
    pub fn to_array(self) -> (r: [u32; 4])
        ensures
            r@ == self@,
    {
        let l0 = (self.0 & 0xFFFF_FFFF) as u32;
        let l1 = ((self.0 >> 32) & 0xFFFF_FFFF) as u32;
        let l2 = ((self.0 >> 64) & 0xFFFF_FFFF) as u32;
        let l3 = ((self.0 >> 96) & 0xFFFF_FFFF) as u32;
        let r = [l0, l1, l2, l3];
        proof {
            assert(r@ =~= self@);
        }
        r
    }

    /// Packs an array of four lane patterns into an `m128`, in lane order.
    pub fn from_array(f: [u32; 4]) -> (r: Self)
        ensures
            r@ == f@,
            r.0 == spec_pack(f@),
    {
        let bits: u128 = (f[0] as u128) | ((f[1] as u128) << 32) | ((f[2] as u128) << 64) | (
        (f[3] as u128) << 96);
        let r = m128(bits);
        proof {
            lemma_lanes_of_pack(f[0], f[1], f[2], f[3]);
            assert(f@ =~= seq![f[0], f[1], f[2], f[3]]);
        }
        r
    }

    /// Reads the raw pattern of lane `i`.
    ///
    /// This moves the value out of register and into memory; prefer whole
    /// register operations where speed matters.
    pub fn lane(&self, i: usize) -> (r: u32)
        requires
            i < 4,
        ensures
            r == self@[i as int],
    {
        let a = self.to_array();
        a[i]
    }

    /// Overwrites the raw pattern of lane `i`, leaving the other lanes
    /// untouched.
    ///
    /// Taking `&mut self` here is what guarantees the write is exclusive:
    /// no other view of the value, readable or writable, can exist while it
    /// happens.
    pub fn set_lane(&mut self, i: usize, v: u32)
        requires
            i < 4,
        ensures
            final(self)@ =~= old(self)@.update(i as int, v),
    {
        let mut a = self.to_array();
        a[i] = v;
        *self = Self::from_array(a);
    }

    /// Renders each lane's raw pattern in the given base; the numerals
    /// show the bits, never the lane's numeric meaning.
    fn format_pattern(&self, base: u32, upper: bool) -> (s: String)
        requires
            2 <= base <= 16,
        ensures
            s@ == spec_pattern_rendering(self@, base as nat, upper),
    {
        let a = self.to_array();
        let p0 = numeral(a[0], base, upper);
        let p1 = numeral(a[1], base, upper);
        let p2 = numeral(a[2], base, upper);
        let p3 = numeral(a[3], base, upper);
        let s = render_wrapped("", p0.as_str(), p1.as_str(), p2.as_str(), p3.as_str());
        proof {
            reveal_strlit("");
            assert(""@ =~= Seq::<char>::empty());
        }
        s
    }

    /// Renders each lane's raw 32-bit pattern in binary.
    pub fn format_binary(&self) -> (s: String)
        ensures
            s@ == spec_pattern_rendering(self@, 2, false),
    {
        self.format_pattern(2, false)
    }

    /// Renders each lane's raw 32-bit pattern in lowercase hexadecimal.
    pub fn format_lower_hex(&self) -> (s: String)
        ensures
            s@ == spec_pattern_rendering(self@, 16, false),
    {
        self.format_pattern(16, false)
    }

    /// Renders each lane's raw 32-bit pattern in uppercase hexadecimal.
    pub fn format_upper_hex(&self) -> (s: String)
        ensures
            s@ == spec_pattern_rendering(self@, 16, true),
    {
        self.format_pattern(16, true)
    }

    /// Renders each lane's raw 32-bit pattern in octal.
    pub fn format_octal(&self) -> (s: String)
        ensures
            s@ == spec_pattern_rendering(self@, 8, false),
    {
        self.format_pattern(8, false)
    }
}

/// Unpacking a freshly packed value gives back exactly the four lanes that
/// went in: the array bridge is lossless for every bit pattern.
pub proof fn lemma_lanes_of_pack(x0: u32, x1: u32, x2: u32, x3: u32)
    ensures
        spec_lanes(spec_pack(seq![x0, x1, x2, x3])) =~= seq![x0, x1, x2, x3],
{
    let b = spec_pack(seq![x0, x1, x2, x3]);
    assert(b == ((x0 as u128) | ((x1 as u128) << 32) | ((x2 as u128) << 64) | ((x3 as u128)
        << 96)));
    assert((((x0 as u128) | ((x1 as u128) << 32) | ((x2 as u128) << 64) | ((x3 as u128) << 96))
        & 0xFFFF_FFFF) as u32 == x0) by (bit_vector);
    assert(((((x0 as u128) | ((x1 as u128) << 32) | ((x2 as u128) << 64) | ((x3 as u128) << 96))
        >> 32) & 0xFFFF_FFFF) as u32 == x1) by (bit_vector);
    assert(((((x0 as u128) | ((x1 as u128) << 32) | ((x2 as u128) << 64) | ((x3 as u128) << 96))
        >> 64) & 0xFFFF_FFFF) as u32 == x2) by (bit_vector);
    assert(((((x0 as u128) | ((x1 as u128) << 32) | ((x2 as u128) << 64) | ((x3 as u128) << 96))
        >> 96) & 0xFFFF_FFFF) as u32 == x3) by (bit_vector);
}

/// Packing the four lanes read out of a value reproduces the value's whole
/// 128-bit pattern: the other direction of the round trip.
pub proof fn lemma_pack_of_lanes(b: u128)
    ensures
        spec_pack(spec_lanes(b)) == b,
{
    assert((((b & 0xFFFF_FFFF) as u32 as u128) | ((((b >> 32) & 0xFFFF_FFFF) as u32 as u128)
        << 32) | ((((b >> 64) & 0xFFFF_FFFF) as u32 as u128) << 64) | ((((b >> 96)
        & 0xFFFF_FFFF) as u32 as u128) << 96)) == b) by (bit_vector);
}

} // verus!
