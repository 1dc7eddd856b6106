//! The scroll-to-top affordance: when it is shown, and what it asks for.
//!
//! The vertical scroll offset is a binary64 number. It is handed over as its
//! 64 bits, and the rule is stated over the number that the bits stand for.

use vstd::prelude::*;
use vstd::arithmetic::power2::{
    lemma2_to64_rest,
    lemma_pow2_adds,
    lemma_pow2_pos,
    lemma_pow2_strictly_increases,
    pow2,
};

verus! {

/// The bits of the threshold offset: one unit.
pub const THRESHOLD_BITS: u64 = 0x3FF0_0000_0000_0000;

/// The bits of positive infinity, the largest offset there is.
pub const INFINITY_BITS: u64 = 0x7FF0_0000_0000_0000;

/// True when the number is negative: the top bit.
pub open spec fn sign_bit(bits: u64) -> bool {
    bits >= 0x8000_0000_0000_0000
}

/// The eleven exponent bits.
pub open spec fn exponent_field(bits: u64) -> nat {
    ((bits as nat) / 0x10_0000_0000_0000) % 0x800
}

/// The fifty-two fraction bits.
pub open spec fn fraction_field(bits: u64) -> nat {
    (bits as nat) % 0x10_0000_0000_0000
}

/// True when the bits stand for no number.
pub open spec fn is_nan(bits: u64) -> bool {
    exponent_field(bits) == 0x7FF && fraction_field(bits) != 0
}

/// True when the bits stand for an infinity.
pub open spec fn is_infinite(bits: u64) -> bool {
    exponent_field(bits) == 0x7FF && fraction_field(bits) == 0
}

/// The magnitude of a finite number, in units of two to the power -1074, the
/// smallest step of the format: the fraction alone below the normal range,
/// and the fraction with its leading one, shifted by the exponent, within it.
pub open spec fn scaled_magnitude(bits: u64) -> nat
    recommends
        exponent_field(bits) < 0x7FF,
{
    if exponent_field(bits) == 0 {
        fraction_field(bits)
    } else {
        (0x10_0000_0000_0000 + fraction_field(bits)) * pow2((exponent_field(bits) - 1) as nat)
    }
}

/// One unit, in units of two to the power -1074.
pub open spec fn scaled_unit() -> nat {
    pow2(1074)
}

/// True when the offset is a number greater than one unit.
pub open spec fn exceeds_threshold(bits: u64) -> bool {
    &&& !is_nan(bits)
    &&& !sign_bit(bits)
    &&& (is_infinite(bits) || scaled_magnitude(bits) > scaled_unit())
}

/// The threshold's bits stand for exactly one unit.
pub proof fn lemma_threshold_is_one_unit()
    ensures
        !is_nan(THRESHOLD_BITS),
        !is_infinite(THRESHOLD_BITS),
        !sign_bit(THRESHOLD_BITS),
        scaled_magnitude(THRESHOLD_BITS) == scaled_unit(),
{
    lemma2_to64_rest();
    lemma_pow2_adds(52, 1022);
}

/// Among the offsets that are numbers and not negative, the order of the
/// numbers is the order of their bits: an offset exceeds one unit exactly when
/// its bits lie above the threshold's and not above infinity's.
pub proof fn lemma_threshold_by_bits(bits: u64)
    ensures
        exceeds_threshold(bits) <==> (THRESHOLD_BITS < bits && bits <= INFINITY_BITS),
{
    let e = exponent_field(bits);
    let f = fraction_field(bits);
    let unit: nat = 0x10_0000_0000_0000;
    lemma2_to64_rest();
    lemma_pow2_adds(52, 1022);
    if !sign_bit(bits) {
        assert(bits == e * unit + f);
        if e == 0 {
            // Below the normal range the magnitude is under two to the power 52.
            lemma_pow2_strictly_increases(52, 1074);
        } else if e < 0x7FF {
            let p = pow2((e - 1) as nat);
            lemma_pow2_pos((e - 1) as nat);
            if e > 1023 {
                // A larger exponent than the unit's: the leading one alone is more.
                lemma_pow2_strictly_increases(1022, (e - 1) as nat);
                assert((unit + f) * p > unit * pow2(1022)) by (nonlinear_arith)
                    requires
                        p > pow2(1022),
                        unit > 0,
                ;
            } else if e == 1023 {
                // The unit's exponent: the fraction decides.
                assert(((unit + f) * p > unit * p) <==> f > 0) by (nonlinear_arith)
                    requires
                        p > 0,
                ;
            } else {
                // A smaller exponent: even the full fraction stays below the
                // next power of two, which is at most the unit.
                lemma_pow2_adds(53, (e - 1) as nat);
                if e < 1022 {
                    lemma_pow2_strictly_increases(52 + e, 1074);
                }
                assert((unit + f) * p < (2 * unit) * p) by (nonlinear_arith)
                    requires
                        f < unit,
                        p > 0,
                ;
            }
        }
    }
}

/// Tells whether the scroll-to-top affordance is shown at the vertical scroll
/// offset with the bits `offset_bits`: it is shown when the offset exceeds one
/// unit, and absent at one unit and below, and for an offset that is no
/// number.
pub fn affordance_visible(offset_bits: u64) -> (visible: bool)
    ensures
        visible == exceeds_threshold(offset_bits),
{
    proof {
        lemma_threshold_by_bits(offset_bits);
    }
    THRESHOLD_BITS < offset_bits && offset_bits <= INFINITY_BITS
}

/// How the window moves to the requested place.
#[derive(Clone, Copy, Debug, PartialEq, Eq, Structural)]
pub enum Behavior {
    /// As the page's style says.
    Auto,
    /// In one jump.
    Instant,
    /// In a smooth movement.
    Smooth,
}

/// A request to scroll the window.
#[derive(Clone, Copy, Debug, PartialEq, Eq, Structural)]
pub struct ScrollRequest {
    /// The vertical offset to scroll to, in whole units.
    pub top: u32,
    /// How to get there.
    pub behavior: Behavior,
}

/// What the affordance asks for when it is used: one request, to scroll
/// smoothly to offset zero.
pub fn scroll_to_top() -> (request: ScrollRequest)
    ensures
        request == (ScrollRequest { top: 0, behavior: Behavior::Smooth }),
{
    ScrollRequest { top: 0, behavior: Behavior::Smooth }
}

} // verus!
