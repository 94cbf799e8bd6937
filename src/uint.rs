//! Unsigned 256-bit integers and their decimal text form.

use vstd::prelude::*;

verus! {

/// The base of one limb, 2^64.
pub open spec fn limb_base() -> nat {
    0x1_0000_0000_0000_0000
}

/// One more than the largest value a [`Uint256`] can hold, 2^256.
pub open spec fn uint256_bound() -> nat {
    limb_base() * limb_base() * limb_base() * limb_base()
}

/// An unsigned 256-bit integer as four 64-bit limbs, least significant first.
#[derive(Clone, Copy, Debug, PartialEq, Eq)]
pub struct Uint256 {
    pub limbs: [u64; 4],
}

impl Uint256 {
    /// The number the limbs stand for.
    pub open spec fn value(self) -> nat {
        let b = limb_base();
        (self.limbs[0] as nat) + (self.limbs[1] as nat) * b + (self.limbs[2] as nat) * b * b + (
        self.limbs[3] as nat) * b * b * b
    }

    pub fn zero() -> (r: Uint256)
        ensures
            r.value() == 0,
    {
        Uint256 { limbs: [0u64, 0u64, 0u64, 0u64] }
    }

    pub fn from_u64(v: u64) -> (r: Uint256)
        ensures
            r.value() == v as nat,
    {
        Uint256 { limbs: [v, 0u64, 0u64, 0u64] }
    }
}

pub open spec fn is_digit(c: char) -> bool {
    '0' as u32 <= c as u32 && c as u32 <= '9' as u32
}

pub open spec fn digit_value(c: char) -> nat {
    (c as u32 - '0' as u32) as nat
}

pub open spec fn digit_char(d: nat) -> char
    recommends
        d < 10,
{
    ((d + '0' as u32) as u32) as char
}

/// Text that the decimal reading accepts: digits, with `_` as a separator.
pub open spec fn is_decimal_text(s: Seq<char>) -> bool {
    forall|i: int| 0 <= i < s.len() ==> #[trigger] is_digit(s[i]) || s[i] == '_'
}

/// The number that decimal text denotes, separators skipped (zero for no digits).
pub open spec fn decimal_text_value(s: Seq<char>) -> nat
    decreases s.len(),
{
    if s.len() == 0 {
        0
    } else if s.last() == '_' {
        decimal_text_value(s.drop_last())
    } else {
        decimal_text_value(s.drop_last()) * 10 + digit_value(s.last())
    }
}

/// The canonical decimal rendering of `n`: no sign, no separators, no leading zeros.
pub open spec fn decimal_string(n: nat) -> Seq<char>
    decreases n,
{
    if n < 10 {
        seq![digit_char(n)]
    } else {
        decimal_string(n / 10).push(digit_char(n % 10))
    }
}

/// Relies on `alloy_primitives::U256::from_str_radix` with radix 10, which
/// accepts digits and `_` separators and fails on any other character or on
/// a value of 2^256 or more.
#[verifier::external_body]
pub(crate) fn parse_decimal(s: &str) -> (r: Option<Uint256>)
    ensures
        r is Some <==> (is_decimal_text(s@) && decimal_text_value(s@) < uint256_bound()),
        r is Some ==> r->Some_0.value() == decimal_text_value(s@),
{
    alloy_primitives::U256::from_str_radix(s, 10).ok().map(|v| Uint256 { limbs: v.into_limbs() })
}

/// Relies on `Display` of `alloy_primitives::U256`, which writes the value in
/// decimal without leading zeros.
#[verifier::external_body]
pub(crate) fn to_decimal(v: &Uint256) -> (r: String)
    ensures
        r@ == decimal_string(v.value()),
{
    alloy_primitives::U256::from_limbs(v.limbs).to_string()
}

/// The canonical decimal rendering of a number is accepted decimal text that
/// reads back as the same number.
pub proof fn lemma_decimal_string_is_decimal_text(n: nat)
    ensures
        is_decimal_text(decimal_string(n)),
        decimal_text_value(decimal_string(n)) == n,
        decimal_string(n).len() > 0,
    decreases n,
{
    let s = decimal_string(n);
    if n < 10 {
        assert(s.drop_last() =~= Seq::<char>::empty());
        assert(decimal_text_value(s.drop_last()) == 0);
    } else {
        lemma_decimal_string_is_decimal_text(n / 10);
        let p = decimal_string(n / 10);
        assert(s.drop_last() =~= p);
        assert forall|i: int| 0 <= i < s.len() implies #[trigger] is_digit(s[i]) || s[i] == '_' by {
            if i < p.len() {
                assert(s[i] == p[i]);
            }
        }
    }
}

} // verus!
