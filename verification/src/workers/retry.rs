//! The retry schedule of a flush: at most three attempts, with a pause of
//! 100 ms after the first failure that doubles after each further one.
use vstd::prelude::*;

verus! {

/// The most attempts a flush gets.
pub const MAX_ATTEMPTS: u32 = 3;

/// The pause after the first failed attempt, in milliseconds.
pub const INITIAL_DELAY_MS: u64 = 100;

/// The pause after the failure of attempt `attempt` (counting from 1).
pub open spec fn delay_after(attempt: nat) -> nat
    decreases attempt,
{
    if attempt <= 1 {
        INITIAL_DELAY_MS as nat
    } else {
        2 * delay_after((attempt - 1) as nat)
    }
}

/// A flush is tried at most `MAX_ATTEMPTS` times; the pause after a failed
/// attempt is twice the pause after the one before, starting at
/// `INITIAL_DELAY_MS`, so the pause after attempt `n` is `100 * 2^(n-1)` ms.
pub proof fn law_pauses_double(attempt: nat)
    requires
        1 <= attempt,
    ensures
        delay_after(attempt + 1) == 2 * delay_after(attempt),
        delay_after(attempt) == INITIAL_DELAY_MS * vstd::arithmetic::power2::pow2((attempt - 1) as nat),
    decreases attempt,
{
    vstd::arithmetic::power2::lemma_pow2_unfold(attempt);
    if attempt > 1 {
        law_pauses_double((attempt - 1) as nat);
        vstd::arithmetic::power2::lemma_pow2_unfold((attempt - 1) as nat);
    } else {
        vstd::arithmetic::power2::lemma2_to64();
    }
}

/// Where a run of attempts stands: which attempt is under way and how long
/// to pause if it fails.
#[derive(Debug, Clone, Copy)]
pub struct Backoff {
    attempt: u32,
    delay_ms: u64,
}

/// What to do after a failed attempt.
#[derive(Debug, Clone, Copy)]
pub enum RetryStep {
    /// The last attempt failed: report its error.
    GiveUp,
    /// Pause for `wait_ms` milliseconds, then make the attempt that `next`
    /// stands for.
    RetryAfter { wait_ms: u64, next: Backoff },
}

impl Backoff {
    #[verifier::type_invariant]
    spec fn within_schedule(self) -> bool {
        &&& 1 <= self.attempt <= MAX_ATTEMPTS
        &&& self.delay_ms == delay_after(self.attempt as nat)
    }

    /// The number of the attempt under way, from 1.
    pub closed spec fn spec_attempt(self) -> u32 {
        self.attempt
    }

    /// The pause that follows if the attempt under way fails.
    pub closed spec fn spec_delay_ms(self) -> u64 {
        self.delay_ms
    }

    /// The first attempt.
    pub fn new() -> (r: Backoff)
        ensures
            r.spec_attempt() == 1,
            r.spec_delay_ms() == INITIAL_DELAY_MS,
    {
        Backoff { attempt: 1, delay_ms: INITIAL_DELAY_MS }
    }

    pub fn attempt(&self) -> (r: u32)
        ensures
            r == self.spec_attempt(),
            1 <= r <= MAX_ATTEMPTS,
    {
        proof {
            use_type_invariant(self);
        }
        self.attempt
    }

    /// Decides what follows a failed attempt: give up after the third, or
    /// pause for the current delay and try again with the delay doubled.
    pub fn after_failure(self) -> (r: RetryStep)
        ensures
            self.spec_attempt() == MAX_ATTEMPTS <==> r is GiveUp,
            r matches RetryStep::RetryAfter { wait_ms, next } ==> {
                &&& wait_ms == self.spec_delay_ms()
                &&& next.spec_attempt() == self.spec_attempt() + 1
                &&& next.spec_delay_ms() == 2 * self.spec_delay_ms()
            },
    {
        proof {
            use_type_invariant(&self);
        }
        if self.attempt >= MAX_ATTEMPTS {
            RetryStep::GiveUp
        } else {
            assert(delay_after((self.attempt + 1) as nat) == 2 * delay_after(self.attempt as nat));
            assert(delay_after(2) == 200 && delay_after(1) == 100) by {
                reveal_with_fuel(delay_after, 3);
            }
            let next = Backoff { attempt: self.attempt + 1, delay_ms: self.delay_ms * 2 };
            RetryStep::RetryAfter { wait_ms: self.delay_ms, next }
        }
    }
}

} // verus!
