//! Field elements: the atomic value type for addresses, hashes, storage
//! values, nonces and fees.
//!
//! A field element is an integer modulo the 252-bit Stark prime.  It is
//! held as two 128-bit limbs in big-endian order, so that every protocol
//! value is a plain pair of machine integers with a mathematical view.

use vstd::prelude::*;

verus! {

/// 2^128, the weight of the high limb.
pub open spec fn limb_weight() -> int {
    0x100000000000000000000000000000000int
}

/// The largest value a single limb can hold.
pub const LIMB_MAX: u128 = 0xffffffffffffffffffffffffffffffff;

/// The Stark prime, 2^251 + 17 * 2^192 + 1.
pub open spec fn felt_prime() -> int {
    0x800000000000011000000000000000000000000000000000000000000000001int
}

/// The high 128 bits of the Stark prime; its low 128 bits are 1.
pub const PRIME_HI: u128 = 0x08000000000000110000000000000000;

/// An element of the Stark prime field, as two big-endian 128-bit limbs.
#[derive(Clone, Copy, Debug, PartialEq, Eq, Structural)]
pub struct Felt {
    pub(crate) hi: u128,
    pub(crate) lo: u128,
}

impl View for Felt {
    type V = int;

    closed spec fn view(&self) -> int {
        self.hi * limb_weight() + self.lo
    }
}

impl Felt {
    /// A field element is well formed when its value lies below the prime.
    pub open spec fn wf(self) -> bool {
        self@ < felt_prime()
    }

    /// The zero element, the protocol sentinel for an unset value.
    pub fn zero() -> (r: Felt)
        ensures
            r@ == 0,
            r.wf(),
    {
        Felt { hi: 0, lo: 0 }
    }

    pub fn from_u64(n: u64) -> (r: Felt)
        ensures
            r@ == n as int,
            r.wf(),
    {
        Felt { hi: 0, lo: n as u128 }
    }

    pub fn from_u128(n: u128) -> (r: Felt)
        ensures
            r@ == n as int,
            r.wf(),
    {
        Felt { hi: 0, lo: n }
    }

    /// Builds an element from its two big-endian 128-bit limbs; rejects
    /// pairs whose value would reach the prime.
    pub fn from_parts(hi: u128, lo: u128) -> (r: Option<Felt>)
        ensures
            match r {
                Some(f) => f.wf() && f@ == hi * limb_weight() + lo,
                None => hi * limb_weight() + lo >= felt_prime(),
            },
    {
        if hi < PRIME_HI || (hi == PRIME_HI && lo == 0) {
            Some(Felt { hi, lo })
        } else {
            None
        }
    }

    /// The two big-endian 128-bit limbs of the element.
    pub fn parts(&self) -> (r: (u128, u128))
        ensures
            r.0 * limb_weight() + r.1 == self@,
    {
        (self.hi, self.lo)
    }

    /// The successor modulo the prime; used for nonce increments.
    pub fn add_one(&self) -> (r: Felt)
        requires
            self.wf(),
        ensures
            r.wf(),
            r@ == (self@ + 1) % felt_prime(),
    {
        if self.hi == PRIME_HI && self.lo == 0 {
            // self is the largest element: the successor wraps to zero.
            assert((self@ + 1) % felt_prime() == 0) by {
                assert(self@ + 1 == felt_prime());
            };
            Felt { hi: 0, lo: 0 }
        } else if self.lo == LIMB_MAX {
            let r = Felt { hi: self.hi + 1, lo: 0 };
            assert(r@ == self@ + 1);
            assert((self@ + 1) % felt_prime() == self@ + 1) by {
                vstd::arithmetic::div_mod::lemma_small_mod((self@ + 1) as nat, felt_prime() as nat);
            };
            r
        } else {
            let r = Felt { hi: self.hi, lo: self.lo + 1 };
            assert((self@ + 1) % felt_prime() == self@ + 1) by {
                vstd::arithmetic::div_mod::lemma_small_mod((self@ + 1) as nat, felt_prime() as nat);
            };
            r
        }
    }
}

/// Two elements are structurally equal exactly when their values agree:
/// the limb decomposition of a value below 2^256 is unique.
pub proof fn lemma_felt_eq_value(a: Felt, b: Felt)
    ensures
        (a == b) <==> (a@ == b@),
{
    if a@ == b@ {
        assert(a.hi == b.hi && a.lo == b.lo) by {
            assert(a.hi * limb_weight() + a.lo == b.hi * limb_weight() + b.lo);
            if a.hi != b.hi {
                if a.hi < b.hi {
                    assert(a.hi + 1 <= b.hi);
                    assert((a.hi + 1) * limb_weight() <= b.hi * limb_weight()) by (nonlinear_arith)
                        requires a.hi + 1 <= b.hi;
                } else {
                    assert(b.hi + 1 <= a.hi);
                    assert((b.hi + 1) * limb_weight() <= a.hi * limb_weight()) by (nonlinear_arith)
                        requires b.hi + 1 <= a.hi;
                }
            }
        };
    }
}

/// The values of a sequence of field elements.
pub open spec fn felt_vals(s: Seq<Felt>) -> Seq<int> {
    s.map_values(|f: Felt| f@)
}

/// All elements of a sequence are well formed.
pub open spec fn all_wf(s: Seq<Felt>) -> bool {
    forall|i: int| 0 <= i < s.len() ==> (#[trigger] s[i]).wf()
}

} // verus!
