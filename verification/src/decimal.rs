//! Exact decimal numbers with six fractional digits.
//!
//! Every number that ends up in generated source (literal defaults, biome
//! sizes, frequencies, thresholds) is a `Decimal`: a signed count of
//! millionths. Its two spellings are fixed-point decimals, so equal numbers
//! always give equal text.

use vstd::prelude::*;
use vstd::string::*;
use crate::text::{digit_char, nat_text, nat_to_string};

verus! {

/// How many millionths make one unit.
pub const MICROS_PER_UNIT: i64 = 1_000_000;

/// A number held as a count of millionths.
#[derive(Clone, Copy, PartialEq, Eq, Structural, Debug, Hash)]
pub struct Decimal {
    pub micros: i64,
}

/// Exactly `width` digits of `f`, least significant last.
pub open spec fn frac_digits(f: nat, width: nat) -> Seq<char>
    decreases width,
{
    if width == 0 {
        Seq::empty()
    } else {
        frac_digits(f / 10, (width - 1) as nat) + seq![digit_char((f % 10) as int)]
    }
}

/// The digits of a fraction of `width` places without its trailing zeros;
/// one digit always stays.
pub open spec fn frac_text(f: nat, width: nat) -> Seq<char>
    decreases width,
{
    if width > 1 && f % 10 == 0 {
        frac_text(f / 10, (width - 1) as nat)
    } else {
        frac_digits(f, width)
    }
}

/// The sign, the whole part, a point and the fraction of `micros` millionths.
pub open spec fn point_text(micros: int) -> Seq<char> {
    let m: nat = if micros < 0 {
        (-micros) as nat
    } else {
        micros as nat
    };
    (if micros < 0 {
        seq!['-']
    } else {
        Seq::empty()
    }) + nat_text(m / 1_000_000) + seq!['.'] + frac_text(m % 1_000_000, 6)
}

/// The sign and the whole part of `micros` millionths.
pub open spec fn whole_text(micros: int) -> Seq<char> {
    let m: nat = if micros < 0 {
        (-micros) as nat
    } else {
        micros as nat
    };
    (if micros < 0 {
        seq!['-']
    } else {
        Seq::empty()
    }) + nat_text(m / 1_000_000)
}

/// The shortest spelling of `micros` millionths: without a fraction when
/// there is none.
pub open spec fn plain_text_of(micros: int) -> Seq<char> {
    let m: int = if micros < 0 {
        -micros
    } else {
        micros
    };
    if m % 1_000_000 == 0 {
        whole_text(micros)
    } else {
        point_text(micros)
    }
}

/// Millionths of the reciprocal of `micros` millionths, rounded toward zero.
/// Zero is taken as the smallest positive step.
pub open spec fn reciprocal_micros(micros: int) -> int {
    if micros > 0 {
        1_000_000_000_000int / micros
    } else if micros < 0 {
        -(1_000_000_000_000int / (-micros))
    } else {
        1_000_000_000_000int
    }
}

fn frac_digits_string(f: u64, width: u8) -> (s: String)
    ensures
        s@ == frac_digits(f as nat, width as nat),
    decreases width,
{
    if width == 0 {
        String::new()
    } else {
        let mut s = frac_digits_string(f / 10, width - 1);
        let d = nat_to_string((f % 10) as u128);
        s.append(d.as_str());
        s
    }
}

fn frac_string(f: u64, width: u8) -> (s: String)
    ensures
        s@ == frac_text(f as nat, width as nat),
    decreases width,
{
    if width > 1 && f % 10 == 0 {
        frac_string(f / 10, width - 1)
    } else {
        frac_digits_string(f, width)
    }
}

impl Decimal {
    /// The number as a count of millionths.
    pub open spec fn value(self) -> int {
        self.micros as int
    }

    /// The spelling that always shows a fraction: `1.0`, `0.25`, `-3.5`.
    pub open spec fn literal_text(self) -> Seq<char> {
        point_text(self.micros as int)
    }

    /// The shortest spelling: `1`, `0.25`, `-3.5`.
    pub open spec fn plain_text(self) -> Seq<char> {
        plain_text_of(self.micros as int)
    }

    pub fn from_micros(micros: i64) -> (d: Decimal)
        ensures
            d.micros == micros,
    {
        Decimal { micros }
    }

    /// The whole number `units`.
    pub fn from_int(units: i32) -> (d: Decimal)
        ensures
            d.micros == units * 1_000_000,
    {
        Decimal { micros: (units as i64) * MICROS_PER_UNIT }
    }

    /// The whole number `units` moved by `half_steps` halves, which is how a
    /// threshold half a unit below or above a boundary is written.
    pub fn from_halves(units: i32, half_steps: i8) -> (d: Decimal)
        ensures
            d.micros == units * 1_000_000 + half_steps * 500_000,
    {
        Decimal { micros: (units as i64) * MICROS_PER_UNIT + (half_steps as i64) * 500_000 }
    }

    /// The sum, wrapped around where it leaves the range of a decimal. A
    /// number moved by an offset and then by the offset's opposite is where
    /// it was.
    pub fn wrapping_add(self, other: Decimal) -> (d: Decimal)
        ensures
            d.micros == self.micros.wrapping_add(other.micros),
    {
        Decimal { micros: self.micros.wrapping_add(other.micros) }
    }

    /// The opposite of the number, wrapped around where it leaves the range
    /// of a decimal.
    pub fn wrapping_neg(self) -> (d: Decimal)
        ensures
            d.micros == 0i64.wrapping_sub(self.micros),
    {
        Decimal { micros: 0i64.wrapping_sub(self.micros) }
    }

    /// The larger of the number and `floor`.
    pub fn at_least(self, floor: Decimal) -> (d: Decimal)
        ensures
            d.micros == if self.micros < floor.micros {
                floor.micros
            } else {
                self.micros
            },
    {
        if self.micros < floor.micros {
            floor
        } else {
            self
        }
    }

    /// One divided by the number, rounded toward zero; zero is taken as the
    /// smallest positive step, so the result is always finite.
    pub fn reciprocal(self) -> (d: Decimal)
        ensures
            d.micros == reciprocal_micros(self.micros as int),
    {
        let one: i128 = 1_000_000_000_000;
        if self.micros > 0 {
            let q: i128 = one / (self.micros as i128);
            assert(0 <= q <= one) by (nonlinear_arith)
                requires
                    q == one / (self.micros as i128),
                    self.micros > 0,
                    one == 1_000_000_000_000,
            ;
            Decimal { micros: q as i64 }
        } else if self.micros < 0 {
            let den: i128 = -(self.micros as i128);
            let q: i128 = one / den;
            assert(0 <= q <= one) by (nonlinear_arith)
                requires
                    q == one / den,
                    den > 0,
                    one == 1_000_000_000_000,
            ;
            Decimal { micros: (-q) as i64 }
        } else {
            Decimal { micros: 1_000_000_000_000 }
        }
    }

    fn magnitude(self) -> (m: u64)
        ensures
            m == if self.micros < 0 {
                -self.micros
            } else {
                self.micros as int
            },
    {
        if self.micros == i64::MIN {
            9223372036854775808u64
        } else if self.micros < 0 {
            (-self.micros) as u64
        } else {
            self.micros as u64
        }
    }

    fn sign_string(self) -> (s: String)
        ensures
            s@ == if self.micros < 0 {
                seq!['-']
            } else {
                Seq::<char>::empty()
            },
    {
        if self.micros < 0 {
            proof {
                reveal_strlit("-");
            }
            let s = String::from_str("-");
            assert(s@ =~= seq!['-']);
            s
        } else {
            String::new()
        }
    }

    /// Spells the number with a fraction, as literals are written.
    pub fn to_literal(self) -> (s: String)
        ensures
            s@ == self.literal_text(),
    {
        let m = self.magnitude();
        let mut s = self.sign_string();
        let whole = nat_to_string((m / 1_000_000) as u128);
        s.append(whole.as_str());
        proof {
            reveal_strlit(".");
        }
        assert("."@ =~= seq!['.']);
        s.append(".");
        let frac = frac_string(m % 1_000_000, 6);
        s.append(frac.as_str());
        s
    }

    /// Spells the number in its shortest form.
    pub fn to_plain(self) -> (s: String)
        ensures
            s@ == self.plain_text(),
    {
        let m = self.magnitude();
        if m % 1_000_000 == 0 {
            let mut s = self.sign_string();
            let whole = nat_to_string((m / 1_000_000) as u128);
            s.append(whole.as_str());
            s
        } else {
            self.to_literal()
        }
    }
}

} // verus!
