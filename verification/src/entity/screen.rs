use vstd::prelude::*;

use crate::parse::decoder::{parse_u32, parse_u32_radix};
use crate::parse::error::UnrecognizedVariant;
use crate::text::{chars_of, eq_ignore_case, str_eq_ignore_case};

verus! {

/// Alignment of an image or frame.
#[derive(Copy, Clone, Debug, PartialEq, Eq, Hash, Structural)]
pub enum Align {
    /// Left.
    Left,
    /// Right.
    Right,
    /// Top.
    Top,
    /// Middle.
    Middle,
    /// Bottom.
    Bottom,
}

/// The alignment a word names, compared without regard to ASCII case.
pub open spec fn align_named(s: Seq<char>) -> Option<Align> {
    if eq_ignore_case(s, "left"@) {
        Some(Align::Left)
    } else if eq_ignore_case(s, "right"@) {
        Some(Align::Right)
    } else if eq_ignore_case(s, "top"@) {
        Some(Align::Top)
    } else if eq_ignore_case(s, "middle"@) {
        Some(Align::Middle)
    } else if eq_ignore_case(s, "bottom"@) {
        Some(Align::Bottom)
    } else {
        None
    }
}

impl Align {
    /// Parses an alignment, ignoring ASCII case.
    pub fn from_str(s: &str) -> (r: Result<Align, UnrecognizedVariant>)
        ensures
            match align_named(s@) {
                Some(a) => r == Ok::<Align, UnrecognizedVariant>(a),
                None => r matches Err(e) && e.spec_target() == s@,
            },
    {
        if str_eq_ignore_case(s, "left") {
            Ok(Align::Left)
        } else if str_eq_ignore_case(s, "right") {
            Ok(Align::Right)
        } else if str_eq_ignore_case(s, "top") {
            Ok(Align::Top)
        } else if str_eq_ignore_case(s, "middle") {
            Ok(Align::Middle)
        } else if str_eq_ignore_case(s, "bottom") {
            Ok(Align::Bottom)
        } else {
            Err(UnrecognizedVariant::new(s))
        }
    }
}

/// The unit of a screen dimension.
#[derive(Copy, Clone, Debug, PartialEq, Eq, Hash, Structural)]
pub enum DimensionUnit {
    /// Pixels.
    Pixel,
    /// Character heights (suffix `c`).
    CharacterHeight,
    /// Percent of the available space (suffix `%`).
    Percentage,
}

/// A screen dimension: an amount and its unit.
#[derive(Copy, Clone, Debug, PartialEq, Eq, Hash, Structural)]
pub struct Dimension {
    /// The amount.
    pub amount: u32,
    /// The unit of the amount.
    pub unit: DimensionUnit,
}

/// What parsing a dimension gives: a number with an optional `%` or `c` suffix.
pub open spec fn dimension_spec(s: Seq<char>) -> Option<(u32, DimensionUnit)> {
    let (unit, digits) = if s.len() > 0 && s.last() == '%' {
        (DimensionUnit::Percentage, s.drop_last())
    } else if s.len() > 0 && s.last() == 'c' {
        (DimensionUnit::CharacterHeight, s.drop_last())
    } else {
        (DimensionUnit::Pixel, s)
    };
    match parse_u32_radix(digits, 10) {
        Some(n) => Some((n, unit)),
        None => None,
    }
}

impl Dimension {
    /// The amount.
    pub fn amount(&self) -> (r: u32)
        ensures
            r == self.amount,
    {
        self.amount
    }

    /// The unit.
    pub fn unit(&self) -> (r: DimensionUnit)
        ensures
            r == self.unit,
    {
        self.unit
    }

    /// A dimension in pixels.
    pub fn pixels(amount: u32) -> (r: Dimension)
        ensures
            r.amount == amount && r.unit == DimensionUnit::Pixel,
    {
        Dimension { amount, unit: DimensionUnit::Pixel }
    }

    /// Parses a dimension: a decimal number with an optional `%` (percentage) or `c` (character
    /// heights) suffix; pixels otherwise. `None` when the number does not parse as a `u32`.
    pub fn from_str(s: &str) -> (r: Option<Dimension>)
        ensures
            match dimension_spec(s@) {
                Some((n, u)) => r matches Some(d) && d.amount == n && d.unit == u,
                None => r is None,
            },
    {
        let cs = chars_of(s);
        let n = cs.len();
        let (unit, end) = if n > 0 && cs[n - 1] == '%' {
            (DimensionUnit::Percentage, n - 1)
        } else if n > 0 && cs[n - 1] == 'c' {
            (DimensionUnit::CharacterHeight, n - 1)
        } else {
            (DimensionUnit::Pixel, n)
        };
        let mut digits: Vec<char> = Vec::new();
        let mut i: usize = 0;
        while i < end
            invariant
                i <= end <= n,
                n == cs@.len(),
                digits@ == cs@.subrange(0, i as int),
            decreases end - i,
        {
            digits.push(cs[i]);
            i += 1;
            assert(digits@ =~= cs@.subrange(0, i as int));
        }
        proof {
            if end < n {
                assert(cs@.drop_last() =~= cs@.subrange(0, end as int));
            } else {
                assert(cs@ =~= cs@.subrange(0, end as int));
            }
        }
        match parse_u32(digits.as_slice(), 10) {
            Some(amount) => Some(Dimension { amount, unit }),
            None => None,
        }
    }
}

} // verus!
