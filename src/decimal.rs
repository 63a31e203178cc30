//! Exact decimal amounts: a sign, a magnitude and a count of digits after
//! the point.
use vstd::prelude::*;

verus! {

/// `(-1)^negative * digits / 10^scale`.
#[derive(Clone, Copy, Debug, PartialEq, Eq, Structural)]
pub struct Decimal {
    pub negative: bool,
    pub digits: u128,
    pub scale: u32,
}

/// The canonical form of `d`: trailing zeros after the point dropped, and
/// zero written without sign or scale.
pub open spec fn canonical(d: Decimal) -> Decimal
    decreases d.scale,
{
    if d.digits == 0 {
        Decimal { negative: false, digits: 0, scale: 0 }
    } else if d.scale > 0 && d.digits % 10 == 0 {
        canonical(Decimal { negative: d.negative, digits: d.digits / 10, scale: (d.scale - 1) as u32 })
    } else {
        d
    }
}

impl Decimal {
    /// The same amount in canonical form, so that amounts that differ only
    /// in trailing zeros compare equal.
    pub fn canonical(&self) -> (r: Decimal)
        ensures
            r == canonical(*self),
    {
        if self.digits == 0 {
            return Decimal { negative: false, digits: 0, scale: 0 };
        }
        let mut d = *self;
        while d.scale > 0 && d.digits % 10 == 0
            invariant
                d.digits != 0,
                canonical(d) == canonical(*self),
            decreases d.scale,
        {
            d = Decimal { negative: d.negative, digits: d.digits / 10, scale: d.scale - 1 };
        }
        d
    }
}

} // verus!
