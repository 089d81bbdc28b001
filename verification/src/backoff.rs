use vstd::prelude::*;

verus! {

/// The failure streak saturates at this bound, so the pre-check delay
/// never exceeds `2^9 = 512` seconds.
pub const MAX_FAILURE_STREAK: u8 = 9;

/// `2^e`.
pub open spec fn pow2(e: nat) -> nat
    decreases e,
{
    if e == 0 {
        1
    } else {
        2 * pow2((e - 1) as nat)
    }
}

pub proof fn lemma_pow2_mono(a: nat, b: nat)
    requires
        a <= b,
    ensures
        pow2(a) <= pow2(b),
    decreases b,
{
    if a < b {
        lemma_pow2_mono(a, (b - 1) as nat);
    }
}

pub proof fn lemma_pow2_le_512(e: nat)
    requires
        e <= 9,
    ensures
        pow2(e) <= 512,
{
    reveal_with_fuel(pow2, 10);
    lemma_pow2_mono(e, 9);
}

/// The streak after one failed iteration: one more, saturating at the bound.
pub open spec fn saturating_step(streak: u8) -> u8 {
    if streak < MAX_FAILURE_STREAK {
        (streak + 1) as u8
    } else {
        MAX_FAILURE_STREAK
    }
}

/// The consecutive-failure counter that drives the exponential backoff.
#[derive(Clone, Copy, PartialEq, Eq, Structural, Debug)]
pub struct BackoffState {
    pub failure_streak: u8,
}

impl BackoffState {
    pub open spec fn wf(self) -> bool {
        self.failure_streak <= MAX_FAILURE_STREAK
    }

    /// The seconds to wait before the next probe: `2^failure_streak`,
    /// clamped at `2^9`.
    pub open spec fn delay_spec(self) -> nat {
        if self.failure_streak <= MAX_FAILURE_STREAK {
            pow2(self.failure_streak as nat)
        } else {
            pow2(MAX_FAILURE_STREAK as nat)
        }
    }

    pub fn new() -> (r: BackoffState)
        ensures
            r.failure_streak == 0,
            r.wf(),
    {
        BackoffState { failure_streak: 0 }
    }

    /// A probe found at least one address: the streak resets to zero,
    /// whatever it was before.
    pub fn on_success(&mut self)
        ensures
            final(self).failure_streak == 0,
            final(self).wf(),
    {
        self.failure_streak = 0;
    }

    /// A probe found no address and a reconfiguration was attempted:
    /// the streak grows by one and saturates at the bound.
    pub fn on_failure_attempt(&mut self)
        ensures
            final(self).failure_streak == saturating_step(old(self).failure_streak),
            final(self).wf(),
    {
        if self.failure_streak < MAX_FAILURE_STREAK {
            self.failure_streak = self.failure_streak + 1;
        } else {
            self.failure_streak = MAX_FAILURE_STREAK;
        }
    }

    /// The seconds to sleep before the next probe.
    pub fn pre_check_delay_seconds(&self) -> (r: u64)
        ensures
            r == self.delay_spec(),
    {
        let e: u8 = if self.failure_streak < MAX_FAILURE_STREAK {
            self.failure_streak
        } else {
            MAX_FAILURE_STREAK
        };
        let mut r: u64 = 1;
        let mut i: u8 = 0;
        while i < e
            invariant
                i <= e,
                e <= MAX_FAILURE_STREAK,
                r == pow2(i as nat),
            decreases e - i,
        {
            proof {
                lemma_pow2_le_512((i + 1) as nat);
            }
            r = r * 2;
            i = i + 1;
        }
        r
    }
}

/// The pre-check delay is exponential in the streak and clamped: for a
/// streak `f <= 9` it is `2^f` seconds, and for any streak of 9 or more
/// it stays at 512 seconds.
pub proof fn lemma_delay_exponential_and_clamped(s: BackoffState)
    ensures
        s.failure_streak <= 9 ==> s.delay_spec() == pow2(s.failure_streak as nat),
        s.failure_streak >= 9 ==> s.delay_spec() == 512,
        s.delay_spec() <= 512,
{
    reveal_with_fuel(pow2, 10);
    if s.failure_streak > 9 {
        assert(s.delay_spec() == pow2(9));
    }
    lemma_pow2_le_512(if s.failure_streak <= 9 {
        s.failure_streak as nat
    } else {
        9nat
    });
}

/// A failure attempt never decreases a well-formed streak, and from any
/// streak at all the result stays within the saturation bound, so no run
/// of failures ever pushes it past 9.
pub proof fn lemma_failure_streak_monotonic_saturating(streak: u8)
    ensures
        saturating_step(streak) <= MAX_FAILURE_STREAK,
        streak <= MAX_FAILURE_STREAK ==> saturating_step(streak) >= streak,
        streak >= MAX_FAILURE_STREAK ==> saturating_step(streak) == MAX_FAILURE_STREAK,
{
}

} // verus!
