//! Progress as a fixed-point percentage: tenths of a percent, so that a third
//! shows as 33.3 and no value is ever "not a number". Only nothing shows as
//! 0.0 and only the whole as 100.0.

use vstd::prelude::*;

verus! {

/// The share `done / whole` rounded to the nearest tenth of a percent,
/// halves upward.
pub open spec fn spec_rounded_share(done: nat, whole: nat) -> nat {
    (2000 * done + whole) / (2 * whole)
}

/// The share `done / whole` in tenths of a percent: 0 where `whole` is 0 or
/// nothing is done, the full hundred where all is done or more, and between
/// the two the share rounded to the nearest tenth, but kept short of both
/// ends: a part is never shown as nothing, nor as the whole.
pub open spec fn spec_percent(done: nat, whole: nat) -> nat {
    if whole == 0 || done == 0 {
        0
    } else if done >= whole {
        1000
    } else if spec_rounded_share(done, whole) < 1 {
        1
    } else if spec_rounded_share(done, whole) > 999 {
        999
    } else {
        spec_rounded_share(done, whole)
    }
}

/// A percentage between 0.0 and 100.0, held in tenths.
#[derive(Clone, Copy, Debug, PartialEq, Eq, Structural)]
pub struct Percent {
    tenths: u16,
}

impl View for Percent {
    type V = nat;

    /// The percentage in tenths: 333 stands for 33.3 %.
    closed spec fn view(&self) -> nat {
        self.tenths as nat
    }
}

impl Percent {
    /// No percentage lies above the full hundred.
    pub closed spec fn wf(&self) -> bool {
        self.tenths <= 1000
    }

    /// Zero percent.
    pub fn zero() -> (p: Percent)
        ensures
            p@ == 0,
            p.wf(),
    {
        Percent { tenths: 0 }
    }

    /// The share of `done` in `whole`.
    pub fn of(done: u64, whole: u64) -> (p: Percent)
        ensures
            p@ == spec_percent(done as nat, whole as nat),
            p.wf(),
    {
        if whole == 0 || done == 0 {
            return Percent { tenths: 0 };
        }
        if done >= whole {
            return Percent { tenths: 1000 };
        }
        let num: u128 = 2000u128 * (done as u128) + (whole as u128);
        let den: u128 = 2u128 * (whole as u128);
        let q: u128 = num / den;
        proof {
            lemma_share_bound(done as nat, whole as nat);
        }
        if q < 1 {
            Percent { tenths: 1 }
        } else if q > 999 {
            Percent { tenths: 999 }
        } else {
            Percent { tenths: q as u16 }
        }
    }

    /// The percentage in tenths of a percent.
    pub fn tenths(&self) -> (t: u16)
        ensures
            t == self@,
    {
        self.tenths
    }

    /// The whole percents, the tenths cut off.
    pub fn whole(&self) -> (w: u16)
        ensures
            w == self@ / 10,
    {
        self.tenths / 10
    }

    /// Whether this is the full hundred percent.
    pub fn is_full(&self) -> (b: bool)
        ensures
            b == (self@ == 1000),
    {
        self.tenths == 1000
    }
}

/// A share of less than the whole rounds to at most the full hundred.
pub proof fn lemma_share_bound(done: nat, whole: nat)
    requires
        done < whole,
    ensures
        (2000 * done + whole) / (2 * whole) <= 1000,
{
    assert((2000 * done + whole) / (2 * whole) <= 1000) by (nonlinear_arith)
        requires
            done < whole,
    ;
}

/// Every percentage lies between 0.0 and 100.0, whatever the counts: a whole
/// of zero gives zero, not a division by zero. The ends are kept for nothing
/// and for all: a part of a whole lies strictly between them.
pub proof fn lemma_percent_range(done: nat, whole: nat)
    ensures
        spec_percent(done, whole) <= 1000,
        whole == 0 ==> spec_percent(done, whole) == 0,
        whole > 0 && done >= whole ==> spec_percent(done, whole) == 1000,
        0 < done < whole ==> 0 < spec_percent(done, whole) < 1000,
{
}

/// More done of the same whole never shows as less.
pub proof fn lemma_percent_monotone(a: nat, b: nat, whole: nat)
    requires
        a <= b,
    ensures
        spec_percent(a, whole) <= spec_percent(b, whole),
{
    if whole > 0 && 0 < a && b < whole {
        assert(spec_rounded_share(a, whole) <= spec_rounded_share(b, whole)) by (nonlinear_arith)
            requires
                a <= b,
                whole > 0,
        ;
    }
}

} // verus!
