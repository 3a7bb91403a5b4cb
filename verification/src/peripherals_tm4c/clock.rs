//! The LC-3's millisecond clock on the TM4C launchpad.
//!
//! `TIMER2` interrupts once a millisecond; each interrupt advances the
//! 16-bit millisecond count, which wraps around after 65535.
use vstd::prelude::*;

verus! {

/// The clock: the milliseconds counted so far.
pub struct Tm4cClock {
    pub millis: u16,
}

impl Tm4cClock {
    /// A clock at zero milliseconds.
    pub fn new() -> (r: Tm4cClock)
        ensures
            r.millis == 0,
    {
        Tm4cClock { millis: 0 }
    }

    /// The milliseconds counted so far.
    pub fn get_milliseconds(&self) -> (r: u16)
        ensures
            r == self.millis,
    {
        self.millis
    }

    /// Sets the count to `ms`.
    pub fn set_milliseconds(&mut self, ms: u16)
        ensures
            final(self).millis == ms,
    {
        self.millis = ms;
    }

    /// One more millisecond has passed.
    pub fn tick(&mut self)
        ensures
            final(self).millis == (old(self).millis + 1) % 0x1_0000,
    {
        self.millis = self.millis.wrapping_add(1);
    }
}

/// After the count is set to `ms` and `n` milliseconds pass, the clock reads
/// `ms + n`, modulo 65536.
pub proof fn law_clock_counts_from_set(ms: u16, n: nat, after: Seq<u16>)
    requires
        after.len() == n + 1,
        after[0] == ms,
        forall|i: int| 0 <= i < n ==> #[trigger] after[i + 1] == (after[i] + 1) % 0x1_0000,
    ensures
        after[n as int] == (ms + n) % 0x1_0000,
    decreases n,
{
    if n > 0 {
        let prefix = after.take(n as int);
        assert forall|i: int| 0 <= i < n - 1 implies #[trigger] prefix[i + 1] == (prefix[i] + 1)
            % 0x1_0000 by {
            assert(after[i + 1] == (after[i] + 1) % 0x1_0000);
        }
        law_clock_counts_from_set(ms, (n - 1) as nat, prefix);
        assert(after[(n - 1) as int + 1] == (after[n - 1] + 1) % 0x1_0000);
        assert(after[n as int] == (((ms + n - 1) % 0x1_0000) + 1) % 0x1_0000);
        assert((((ms + n - 1) % 0x1_0000) + 1) % 0x1_0000 == (ms + n) % 0x1_0000) by (nonlinear_arith);
    }
}

} // verus!
