//! The completed fraction of a download, in millionths.

use vstd::prelude::*;

verus! {

/// The number of millionths in a completed download.
pub const FULL: u32 = 1_000_000;

/// The fraction of `size` bytes that `written` bytes are, in millionths,
/// rounded down and never more than one whole. An unknown size (zero) gives
/// no fraction: zero.
pub open spec fn fraction(written: nat, size: nat) -> nat {
    if size == 0 {
        0
    } else if written >= size {
        1_000_000
    } else {
        (written * 1_000_000) / size
    }
}

/// Writing more never lowers the fraction.
pub proof fn lemma_fraction_monotonic(a: nat, b: nat, size: nat)
    requires
        a <= b,
    ensures
        fraction(a, size) <= fraction(b, size) <= FULL,
{
    if size > 0 {
        lemma_fraction_bounded(a, size);
        lemma_fraction_bounded(b, size);
        if b < size {
            assert(a * 1_000_000 <= b * 1_000_000) by (nonlinear_arith)
                requires
                    a <= b,
            ;
            vstd::arithmetic::div_mod::lemma_div_is_ordered(
                (a * 1_000_000) as int,
                (b * 1_000_000) as int,
                size as int,
            );
        }
    }
}

/// A fraction is at most one whole, and is one whole exactly when a known
/// size has been reached.
pub proof fn lemma_fraction_bounded(written: nat, size: nat)
    ensures
        fraction(written, size) <= FULL,
        fraction(written, size) == FULL <==> (size > 0 && written >= size),
{
    if size > 0 && written < size {
        assert((written * 1_000_000) / size < 1_000_000) by (nonlinear_arith)
            requires
                written < size,
                size > 0,
        ;
    }
}

/// A fraction between nothing and everything.
#[derive(Clone, Copy, Debug, PartialEq, Eq, Structural)]
pub struct Progress {
    /// Millionths done; at most `FULL` in a well-formed value.
    pub millionths: u32,
}

impl View for Progress {
    type V = nat;

    open spec fn view(&self) -> nat {
        self.millionths as nat
    }
}

impl Progress {
    /// A progress value lies between zero and one whole.
    pub open spec fn wf(self) -> bool {
        self.millionths <= FULL
    }

    /// Nothing done yet.
    pub fn zero() -> (p: Progress)
        ensures
            p@ == 0,
            p.wf(),
    {
        Progress { millionths: 0 }
    }

    /// Everything done.
    pub fn full() -> (p: Progress)
        ensures
            p@ == FULL,
            p.wf(),
    {
        Progress { millionths: FULL }
    }

    /// The progress of a download of `size` bytes of which `written` are on
    /// disk.
    pub fn of(written: u64, size: u64) -> (p: Progress)
        ensures
            p@ == fraction(written as nat, size as nat),
            p.wf(),
    {
        proof {
            lemma_fraction_bounded(written as nat, size as nat);
        }
        if size == 0 {
            Progress { millionths: 0 }
        } else if written >= size {
            Progress { millionths: FULL }
        } else {
            assert(written as u128 * 1_000_000u128 <= 0xffff_ffff_ffff_ffffu128 * 1_000_000u128)
                by (nonlinear_arith)
                requires
                    written as u128 <= 0xffff_ffff_ffff_ffffu128,
            ;
            let scaled: u128 = written as u128 * 1_000_000u128;
            let parts: u128 = scaled / (size as u128);
            Progress { millionths: parts as u32 }
        }
    }

    /// Whether everything is done.
    pub fn is_complete(&self) -> (b: bool)
        ensures
            b == (self@ >= FULL),
    {
        self.millionths >= FULL
    }

    /// Millionths done.
    pub fn millionths(&self) -> (m: u32)
        ensures
            m == self@,
    {
        self.millionths
    }
}

} // verus!
