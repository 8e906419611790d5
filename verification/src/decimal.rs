use vstd::prelude::*;
use vstd::arithmetic::div_mod::lemma_fundamental_div_mod;
use vstd::arithmetic::mul::lemma_mul_inequality;

verus! {

/// Number of smallest subunits ("attos") in one whole unit: ten to the 18th.
pub const ATTOS_PER_UNIT: u128 = 1_000_000_000_000_000_000;

/// A non-negative fixed-point number with 18 decimal places, held as its
/// count of attos. The value it stands for is `attos / 10^18`.
#[derive(Clone, Copy, Debug, PartialEq, Eq, Structural)]
pub struct Decimal {
    pub attos: u128,
}

/// The attos of the decimal that a text names, as the parser of scrypto's
/// `Decimal` reads it; `None` where the parser refuses the text, or the
/// value is negative or beyond 128 bits.
pub uninterp spec fn parsed_attos(text: Seq<char>) -> Option<u128>;

/// The product of two decimals, rounded down to a whole number of attos;
/// `None` where it is beyond the range.
pub open spec fn product(a: Decimal, b: Decimal) -> Option<Decimal> {
    let attos = (a.attos as nat * b.attos as nat) / (ATTOS_PER_UNIT as nat);
    if attos <= u128::MAX {
        Some(Decimal { attos: attos as u128 })
    } else {
        None
    }
}

/// The quotient of two decimals, rounded down to a whole number of attos;
/// `None` where the divisor is zero or the quotient is beyond the range.
pub open spec fn quotient(a: Decimal, b: Decimal) -> Option<Decimal> {
    let attos = (a.attos as nat * ATTOS_PER_UNIT as nat) / (b.attos as nat);
    if b.attos != 0 && attos <= u128::MAX {
        Some(Decimal { attos: attos as u128 })
    } else {
        None
    }
}

/// `part / whole >= ratio` over the rationals, with a zero `whole` never
/// reaching any ratio.
pub open spec fn share_reaches(part: Decimal, whole: Decimal, ratio: Decimal) -> bool {
    whole.attos > 0 && part.attos as nat * ATTOS_PER_UNIT as nat >= ratio.attos as nat
        * whole.attos as nat
}

/// The decimal that a text names, if it names one.
pub open spec fn parsed(text: Seq<char>) -> Option<Decimal> {
    match parsed_attos(text) {
        Some(attos) => Some(Decimal { attos }),
        None => None,
    }
}

/// Calls `checked_mul` of `scrypto::prelude::Decimal` on the two values.
/// Trusted: it multiplies the attos in 256 bits, divides by ten to the 18th
/// with the remainder dropped, and answers `None` where that leaves its
/// range; the conversion back answers `None` where the result is beyond 128
/// bits.
#[verifier::external_body]
pub(crate) fn scaled_mul(a: Decimal, b: Decimal) -> (r: Option<Decimal>)
    ensures
        r == product(a, b),
{
    let x = scrypto::prelude::Decimal::from_attos(scrypto::prelude::I192::from(a.attos));
    let y = scrypto::prelude::Decimal::from_attos(scrypto::prelude::I192::from(b.attos));
    match scrypto::prelude::CheckedMul::checked_mul(x, y) {
        Some(p) => match u128::try_from(p.attos()) {
            Ok(attos) => Some(Decimal { attos }),
            Err(_) => None,
        },
        None => None,
    }
}

/// Calls `checked_div` of `scrypto::prelude::Decimal` on the two values.
/// Trusted: it multiplies the dividend's attos by ten to the 18th in 256
/// bits, divides by the divisor's attos with the remainder dropped, and
/// answers `None` for a zero divisor; the conversion back answers `None`
/// where the result is beyond 128 bits.
#[verifier::external_body]
pub(crate) fn scaled_div(a: Decimal, b: Decimal) -> (r: Option<Decimal>)
    ensures
        r == quotient(a, b),
{
    let x = scrypto::prelude::Decimal::from_attos(scrypto::prelude::I192::from(a.attos));
    let y = scrypto::prelude::Decimal::from_attos(scrypto::prelude::I192::from(b.attos));
    match scrypto::prelude::CheckedDiv::checked_div(x, y) {
        Some(q) => match u128::try_from(q.attos()) {
            Ok(attos) => Some(Decimal { attos }),
            Err(_) => None,
        },
        None => None,
    }
}

/// Calls the parser of `scrypto::prelude::Decimal`, its `try_from` on a
/// `&str`, and hands out the attos. Trusted: the result depends on the text
/// alone; it is `None` where the parser fails or the value is negative or
/// beyond 128 bits.
#[verifier::external_body]
pub(crate) fn parse_attos(text: &str) -> (r: Option<u128>)
    ensures
        r == parsed_attos(text@),
{
    match scrypto::prelude::Decimal::try_from(text) {
        Ok(d) => match u128::try_from(d.attos()) {
            Ok(attos) => Some(attos),
            Err(_) => None,
        },
        Err(_) => None,
    }
}

/// For a positive divisor, a floored quotient reaches `m` exactly when the
/// dividend reaches `m` times the divisor.
pub proof fn lemma_floor_reaches(n: nat, w: nat, m: nat)
    requires
        w > 0,
    ensures
        (n / w >= m) <==> (n >= m * w),
{
    let ni: int = n as int;
    let wi: int = w as int;
    let mi: int = m as int;
    let q: int = ni / wi;
    lemma_fundamental_div_mod(ni, wi);
    if q >= mi {
        lemma_mul_inequality(mi, q, wi);
        assert(q * wi == wi * q) by (nonlinear_arith);
    } else {
        lemma_mul_inequality(q + 1, mi, wi);
        assert((q + 1) * wi == wi * q + wi) by (nonlinear_arith);
    }
}

impl Decimal {
    /// The decimal zero.
    pub fn zero() -> (r: Decimal)
        ensures
            r.attos == 0,
    {
        Decimal { attos: 0 }
    }

    /// The decimal with the given number of attos.
    pub fn from_attos(attos: u128) -> (r: Decimal)
        ensures
            r.attos == attos,
    {
        Decimal { attos }
    }

    /// The decimal that stands for a whole number of units.
    pub fn from_units(units: u64) -> (r: Decimal)
        ensures
            r.attos == units as nat * ATTOS_PER_UNIT as nat,
    {
        assert(units as nat * ATTOS_PER_UNIT as nat <= u128::MAX) by (nonlinear_arith)
            requires
                units <= u64::MAX,
                ATTOS_PER_UNIT == 1_000_000_000_000_000_000,
        ;
        let wide: u128 = units as u128;
        Decimal { attos: wide * ATTOS_PER_UNIT }
    }

    /// The number of whole units, where the decimal has no fractional part.
    pub fn whole_units(&self) -> (r: Option<u128>)
        ensures
            r == if self.attos % ATTOS_PER_UNIT == 0 {
                Some(self.attos / ATTOS_PER_UNIT)
            } else {
                None
            },
    {
        if self.attos % ATTOS_PER_UNIT == 0 {
            Some(self.attos / ATTOS_PER_UNIT)
        } else {
            None
        }
    }

    /// The sum of two decimals, `None` where it is beyond the range.
    pub fn checked_add(&self, other: Decimal) -> (r: Option<Decimal>)
        ensures
            r == if self.attos + other.attos <= u128::MAX {
                Some(Decimal { attos: (self.attos + other.attos) as u128 })
            } else {
                None
            },
    {
        match self.attos.checked_add(other.attos) {
            Some(attos) => Some(Decimal { attos }),
            None => None,
        }
    }

    /// The decimal that a text such as `"0.75"` names, as scrypto's parser
    /// reads it. `None` where the parser refuses the text, and for a value
    /// that is negative or beyond the range.
    pub fn parse(text: &String) -> (r: Option<Decimal>)
        ensures
            r == parsed(text@),
    {
        match parse_attos(text.as_str()) {
            Some(attos) => Some(Decimal { attos }),
            None => None,
        }
    }

    /// Whether `part / whole >= ratio`, decided without rounding. A zero
    /// `whole` reaches no ratio.
    pub fn share_at_least(part: Decimal, whole: Decimal, ratio: Decimal) -> (r: bool)
        ensures
            r == share_reaches(part, whole, ratio),
    {
        if whole.attos == 0 {
            return false;
        }
        proof {
            lemma_floor_reaches(
                part.attos as nat * ATTOS_PER_UNIT as nat,
                whole.attos as nat,
                ratio.attos as nat,
            );
        }
        match scaled_div(part, whole) {
            Some(q) => q.attos >= ratio.attos,
            None => true,
        }
    }
}

} // verus!
