//! Spans of time.
use vstd::prelude::*;

verus! {

/// A span of time, in whole seconds and nanoseconds of one more.
#[derive(Clone, Copy, Debug, PartialEq, Eq, Structural)]
pub struct Duration {
    secs: u64,
    nanos: u32,
}

/// So many seconds, in nanoseconds.
pub open spec fn seconds(secs: nat) -> nat {
    secs * 1_000_000_000
}

impl View for Duration {
    type V = nat;

    /// The nanoseconds in all.
    closed spec fn view(&self) -> nat {
        seconds(self.secs as nat) + self.nanos as nat
    }
}

impl Duration {
    #[verifier::type_invariant]
    spec fn well_formed(self) -> bool {
        self.nanos < 1_000_000_000
    }

    /// So many seconds and nanoseconds.
    pub fn new(secs: u64, nanos: u32) -> (r: Self)
        requires
            nanos < 1_000_000_000,
        ensures
            r@ == seconds(secs as nat) + nanos,
    {
        Duration { secs, nanos }
    }

    /// So many seconds.
    pub fn from_secs(secs: u64) -> (r: Self)
        ensures
            r@ == seconds(secs as nat),
    {
        Duration { secs, nanos: 0 }
    }

    /// The whole seconds.
    pub fn as_secs(&self) -> (r: u64)
        ensures
            r == self@ / 1_000_000_000,
    {
        proof {
            use_type_invariant(self);
        }
        self.secs
    }

    /// The nanoseconds beyond the whole seconds.
    pub fn subsec_nanos(&self) -> (r: u32)
        ensures
            r == self@ % 1_000_000_000,
    {
        proof {
            use_type_invariant(self);
        }
        self.nanos
    }
}

/// A second has a thousand million nanoseconds.
pub proof fn seconds_have_their_length(secs: nat)
    ensures
        seconds(secs) == 1_000_000_000 * secs,
        seconds(0) == 0,
{
}

} // verus!
