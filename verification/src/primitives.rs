//! Fixed-width values carried by contract call data: 20-byte addresses and
//! 256-bit words, with the checked narrowings a pool record needs.

use vstd::prelude::*;

verus! {

/// 2^8.
pub open spec fn uint8_limit() -> nat {
    0x100
}

/// 2^23, the magnitude bound of a 24-bit two's-complement integer.
pub open spec fn int24_limit() -> nat {
    0x80_0000
}

/// 2^24.
pub open spec fn uint24_limit() -> nat {
    0x100_0000
}

/// 2^128.
pub open spec fn uint128_limit() -> nat {
    0x1_0000_0000_0000_0000_0000_0000_0000_0000nat
}

/// 2^160.
pub open spec fn uint160_limit() -> nat {
    0x1_0000_0000_0000_0000_0000_0000_0000_0000_0000_0000nat
}

/// 2^255, the first word value that reads as negative in two's complement.
pub open spec fn sign_threshold() -> nat {
    0x8000_0000_0000_0000_0000_0000_0000_0000_0000_0000_0000_0000_0000_0000_0000_0000nat
}

/// 2^256.
pub open spec fn word_modulus() -> nat {
    0x1_0000_0000_0000_0000_0000_0000_0000_0000_0000_0000_0000_0000_0000_0000_0000_0000nat
}

/// A 20-byte account or contract address.
#[derive(Clone, Copy, Debug, PartialEq, Eq)]
pub struct H160(pub [u8; 20]);

impl H160 {
    /// Whether every byte of the address is zero.
    pub open spec fn is_zero_spec(&self) -> bool {
        forall|i: int| 0 <= i < 20 ==> self.0[i] == 0
    }

    /// The all-zero address, which stands for "no contract here".
    pub open spec fn spec_zero() -> H160 {
        H160([0, 0, 0, 0, 0, 0, 0, 0, 0, 0, 0, 0, 0, 0, 0, 0, 0, 0, 0, 0])
    }

    /// The all-zero address, which stands for "no contract here".
    pub fn zero() -> (r: H160)
        ensures
            r == Self::spec_zero(),
            r.is_zero_spec(),
    {
        let r = H160([0u8; 20]);
        assert(r.0 =~= Self::spec_zero().0);
        r
    }

    /// Whether every byte of the address is zero.
    #[verifier::when_used_as_spec(is_zero_spec)]
    pub fn is_zero(&self) -> (r: bool)
        ensures
            r == self.is_zero_spec(),
    {
        let mut i: usize = 0;
        while i < 20
            invariant
                i <= 20,
                forall|j: int| 0 <= j < i ==> self.0[j] == 0,
            decreases 20 - i,
        {
            if self.0[i] != 0 {
                return false;
            }
            i += 1;
        }
        true
    }
}

/// A 256-bit word as four 64-bit limbs, least significant first.
///
/// A word has no sign of its own: `value` reads it as an unsigned integer and
/// `signed_value` as a two's-complement one.
#[derive(Clone, Copy, Debug, PartialEq, Eq)]
pub struct U256(pub [u64; 4]);

impl U256 {
    /// The word read as an unsigned integer.
    pub open spec fn value(self) -> nat {
        (self.0[0] as nat) + (self.0[1] as nat) * 0x1_0000_0000_0000_0000nat + (self.0[2] as nat)
            * 0x1_0000_0000_0000_0000_0000_0000_0000_0000nat + (self.0[3] as nat)
            * 0x1_0000_0000_0000_0000_0000_0000_0000_0000_0000_0000_0000_0000nat
    }

    /// The word read as a 256-bit two's-complement integer.
    pub open spec fn signed_value(self) -> int {
        if self.value() >= sign_threshold() {
            self.value() - word_modulus()
        } else {
            self.value() as int
        }
    }

    /// The word that holds `x`, zero-extended.
    pub open spec fn spec_from_u128(x: u128) -> U256 {
        U256([(x % 0x1_0000_0000_0000_0000) as u64, (x / 0x1_0000_0000_0000_0000) as u64, 0, 0])
    }

    /// The word that holds `x`, sign-extended to 256 bits.
    pub open spec fn spec_from_i128(x: i128) -> U256 {
        if x >= 0 {
            Self::spec_from_u128(x as u128)
        } else {
            let low = (uint128_limit() + x) as u128;
            U256(
                [
                    (low % 0x1_0000_0000_0000_0000) as u64,
                    (low / 0x1_0000_0000_0000_0000) as u64,
                    u64::MAX,
                    u64::MAX,
                ],
            )
        }
    }

    /// The value as an 8-bit unsigned integer, if it is one.
    pub open spec fn spec_to_u8(self) -> Option<u8> {
        if self.value() < uint8_limit() {
            Some(self.value() as u8)
        } else {
            None
        }
    }

    /// The value as a 24-bit unsigned integer, if it is one.
    pub open spec fn spec_to_uint24(self) -> Option<u32> {
        if self.value() < uint24_limit() {
            Some(self.value() as u32)
        } else {
            None
        }
    }

    /// The value as a 128-bit unsigned integer, if it is one.
    pub open spec fn spec_to_u128(self) -> Option<u128> {
        if self.value() < uint128_limit() {
            Some(self.value() as u128)
        } else {
            None
        }
    }

    /// Whether the value is a 160-bit unsigned integer.
    pub open spec fn spec_fits_uint160(&self) -> bool {
        self.value() < uint160_limit()
    }

    /// The signed value as a 24-bit two's-complement integer, if it is one.
    pub open spec fn spec_to_int24(self) -> Option<i32> {
        if -int24_limit() <= self.signed_value() < int24_limit() {
            Some(self.signed_value() as i32)
        } else {
            None
        }
    }

    /// The zero-extension of `x` has the value `x`.
    pub proof fn lemma_from_u128(x: u128)
        ensures
            Self::spec_from_u128(x).value() == x,
    {
    }

    /// The sign-extension of `x` has the signed value `x`.
    pub proof fn lemma_from_i128(x: i128)
        ensures
            Self::spec_from_i128(x).signed_value() == x,
    {
        if x >= 0 {
            Self::lemma_from_u128(x as u128);
        } else {
            let low = (uint128_limit() + x) as u128;
            assert(low == uint128_limit() + x);
            assert(Self::spec_from_i128(x).value() == word_modulus() + x);
        }
    }

    /// The word that holds `x`, zero-extended.
    pub fn from_u128(x: u128) -> (r: U256)
        ensures
            r == Self::spec_from_u128(x),
            r.value() == x,
    {
        let low: u64 = (x % 0x1_0000_0000_0000_0000) as u64;
        let high: u64 = (x / 0x1_0000_0000_0000_0000) as u64;
        U256([low, high, 0, 0])
    }

    /// The word that holds `x`, sign-extended to 256 bits.
    pub fn from_i128(x: i128) -> (r: U256)
        ensures
            r == Self::spec_from_i128(x),
            r.signed_value() == x,
    {
        if x >= 0 {
            Self::from_u128(x as u128)
        } else {
            let below: u128 = (-(x + 1)) as u128;
            let low: u128 = u128::MAX - below;
            let r = U256(
                [
                    (low % 0x1_0000_0000_0000_0000) as u64,
                    (low / 0x1_0000_0000_0000_0000) as u64,
                    u64::MAX,
                    u64::MAX,
                ],
            );
            assert(low == uint128_limit() + x);
            assert(r.value() == word_modulus() + x);
            r
        }
    }

    /// The value as an 8-bit unsigned integer; `None` when it does not fit.
    pub fn to_u8(&self) -> (r: Option<u8>)
        ensures
            r == self.spec_to_u8(),
    {
        if self.0[1] == 0 && self.0[2] == 0 && self.0[3] == 0 && self.0[0] < 0x100 {
            Some(self.0[0] as u8)
        } else {
            None
        }
    }

    /// The value as a 24-bit unsigned integer; `None` when it does not fit.
    pub fn to_uint24(&self) -> (r: Option<u32>)
        ensures
            r == self.spec_to_uint24(),
    {
        if self.0[1] == 0 && self.0[2] == 0 && self.0[3] == 0 && self.0[0] < 0x100_0000 {
            Some(self.0[0] as u32)
        } else {
            None
        }
    }

    /// The value as a 128-bit unsigned integer; `None` when it does not fit.
    pub fn to_u128(&self) -> (r: Option<u128>)
        ensures
            r == self.spec_to_u128(),
    {
        if self.0[2] == 0 && self.0[3] == 0 {
            let high: u128 = (self.0[1] as u128) * 0x1_0000_0000_0000_0000;
            let x: u128 = high + (self.0[0] as u128);
            assert(x == self.value());
            Some(x)
        } else {
            assert(self.value() >= uint128_limit()) by {
                if self.0[3] == 0 {
                    assert(self.0[2] >= 1);
                }
            }
            None
        }
    }

    /// Whether the value is a 160-bit unsigned integer.
    #[verifier::when_used_as_spec(spec_fits_uint160)]
    pub fn fits_uint160(&self) -> (r: bool)
        ensures
            r == self.spec_fits_uint160(),
    {
        self.0[3] == 0 && self.0[2] < 0x1_0000_0000
    }

    /// The signed value as a 24-bit two's-complement integer, widened to
    /// `i32`; `None` when it lies outside -8388608..=8388607.
    pub fn to_int24(&self) -> (r: Option<i32>)
        ensures
            r == self.spec_to_int24(),
    {
        if self.0[1] == 0 && self.0[2] == 0 && self.0[3] == 0 {
            if self.0[0] < 0x80_0000 {
                Some(self.0[0] as i32)
            } else {
                None
            }
        } else if self.0[1] == u64::MAX && self.0[2] == u64::MAX && self.0[3] == u64::MAX {
            let below: u64 = u64::MAX - self.0[0];
            assert(self.value() == word_modulus() - 1 - below);
            if below < 0x80_0000 {
                Some(-(below as i32) - 1)
            } else {
                None
            }
        } else {
            proof {
                self.lemma_outside_int24();
            }
            None
        }
    }

    /// A word whose upper three limbs are neither all clear nor all set is
    /// no sign extension of a 24-bit integer.
    proof fn lemma_outside_int24(self)
        requires
            !(self.0[1] == 0 && self.0[2] == 0 && self.0[3] == 0),
            !(self.0[1] == u64::MAX && self.0[2] == u64::MAX && self.0[3] == u64::MAX),
        ensures
            self.spec_to_int24() is None,
    {
        let a = self.0;
        if self.value() >= sign_threshold() {
            if a[3] < u64::MAX {
            } else if a[2] < u64::MAX {
            } else {
                assert(a[1] < u64::MAX);
            }
        } else {
            if a[3] > 0 {
            } else if a[2] > 0 {
            } else {
                assert(a[1] > 0);
            }
        }
    }
}

} // verus!
