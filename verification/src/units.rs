//! Time stamps and seconds.

use vstd::prelude::*;

verus! {

/// The factor between a time stamp and seconds: one tick of a time stamp
/// lasts `numer / denom` seconds. Neither part is zero.
#[derive(Debug, Clone, Copy, PartialEq, Eq, Structural)]
pub struct TimeBase {
    numer: u32,
    denom: u32,
}

/// The whole seconds that have passed at the time stamp `ts` under the time
/// base `numer / denom`: the product of time stamp and numerator, divided by
/// the denominator and rounded down. A count past the largest `u64` wraps
/// around.
pub open spec fn time_seconds(numer: u32, denom: u32, ts: u64) -> u64 {
    ((ts as int * numer as int) / (denom as int) % 0x1_0000_0000_0000_0000) as u64
}

/// Calls `TimeBase::new` and `TimeBase::calc_time` of symphonia and takes the
/// `seconds` field of the `Time` that comes back. Nothing is proved of it.
/// The contract claims what the documentation of `calc_time` says: the time
/// is calculated accurately, and the seconds wrap on overflow. The source
/// divides in integers where the product takes 52 bits or more, and in
/// floating point below that, where both operands and every whole quotient
/// are exact and the rounded quotient has the same whole part. A zero
/// numerator or denominator, on which both calls panic, is left out.
#[verifier::external_body]
pub(crate) fn calc_seconds(numer: u32, denom: u32, ts: u64) -> (seconds: u64)
    requires
        numer > 0,
        denom > 0,
    ensures
        seconds == time_seconds(numer, denom, ts),
{
    symphonia::core::units::TimeBase::new(numer, denom).calc_time(ts).seconds
}

impl TimeBase {
    #[verifier::type_invariant]
    spec fn inv(&self) -> bool {
        self.numer > 0 && self.denom > 0
    }

    /// The numerator.
    pub closed spec fn numer(&self) -> u32 {
        self.numer
    }

    /// The denominator.
    pub closed spec fn denom(&self) -> u32 {
        self.denom
    }

    /// The time base `numer / denom`, unless a part of it is zero.
    pub fn new(numer: u32, denom: u32) -> (tb: Option<Self>)
        ensures
            match tb {
                Some(t) => numer > 0 && denom > 0 && t.numer() == numer && t.denom() == denom,
                None => numer == 0 || denom == 0,
            },
    {
        if numer == 0 || denom == 0 {
            None
        } else {
            Some(TimeBase { numer, denom })
        }
    }

    /// The two parts, numerator first.
    pub fn parts(&self) -> (parts: (u32, u32))
        ensures
            parts == (self.numer(), self.denom()),
            parts.0 > 0,
            parts.1 > 0,
    {
        proof {
            use_type_invariant(self);
        }
        (self.numer, self.denom)
    }

    /// The whole seconds that have passed at the time stamp `ts`.
    pub fn seconds_at(&self, ts: u64) -> (seconds: u64)
        ensures
            seconds == time_seconds(self.numer(), self.denom(), ts),
    {
        proof {
            use_type_invariant(self);
        }
        calc_seconds(self.numer, self.denom, ts)
    }
}

} // verus!
