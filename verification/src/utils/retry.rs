//! The retry policy: the attempt cap and the exponential backoff.

use vstd::arithmetic::power2::*;
use vstd::prelude::*;

verus! {

/// Attempts granted to a request unless configured otherwise.
pub const DEFAULT_MAX_ATTEMPTS: u32 = 3;

/// Attempts granted to a best-effort request.
pub const AUXILIARY_MAX_ATTEMPTS: u32 = 2;

/// Base of the exponential backoff, in milliseconds.
pub const DEFAULT_BASE_DELAY_MS: u64 = 1000;

/// Upper bound of the random share of the pauses of a request that changes
/// its identity, in milliseconds.
pub const DEFAULT_JITTER_MS: u64 = 1000;

/// How the random share of a pause is bounded.
#[derive(Debug, Clone, Copy, PartialEq, Eq, Structural)]
pub enum Jitter {
    /// By a fixed number of milliseconds, whatever the pause.
    UpTo(u64),
    /// By half of the fixed part of the pause, rounded down.
    HalfOfPause,
}

impl Jitter {
    /// The largest random share that may be added to a pause whose fixed
    /// part is `delay`.
    pub open spec fn bound(self, delay: nat) -> nat {
        match self {
            Jitter::UpTo(limit) => limit as nat,
            Jitter::HalfOfPause => delay / 2,
        }
    }

    /// Computes the largest random share for a pause of `delay_ms`.
    pub fn bound_for(&self, delay_ms: u64) -> (jitter_ms: u64)
        ensures
            jitter_ms == self.bound(delay_ms as nat),
    {
        match self {
            Jitter::UpTo(limit) => *limit,
            Jitter::HalfOfPause => delay_ms / 2,
        }
    }
}

/// A longer pause has no smaller bound on its random share.
pub proof fn lemma_jitter_grows(jitter: Jitter, shorter: nat, longer: nat)
    requires
        shorter <= longer,
    ensures
        jitter.bound(shorter) <= jitter.bound(longer),
{
}

/// The fixed part of the pause before attempt number `attempt` (counted from
/// one, so the first pause comes before attempt two): the base delay doubled
/// once for every earlier pause.
pub open spec fn backoff_ms(base: nat, attempt: nat) -> nat
    recommends
        attempt >= 2,
{
    base * pow2((attempt - 2) as nat)
}

/// The pause grows with the attempt number.
pub proof fn lemma_backoff_grows(base: nat, earlier: nat, later: nat)
    requires
        2 <= earlier <= later,
    ensures
        backoff_ms(base, earlier) <= backoff_ms(base, later),
{
    let a = pow2((earlier - 2) as nat);
    let b = pow2((later - 2) as nat);
    if earlier < later {
        lemma_pow2_strictly_increases((earlier - 2) as nat, (later - 2) as nat);
    }
    assert(base * a <= base * b) by (nonlinear_arith)
        requires
            a <= b,
    ;
}

/// Each pause is twice the one before it, and the first is the base delay.
pub proof fn lemma_backoff_doubles(base: nat, attempt: nat)
    requires
        attempt >= 2,
    ensures
        backoff_ms(base, 2) == base,
        backoff_ms(base, attempt + 1) == 2 * backoff_ms(base, attempt),
{
    lemma2_to64();
    assert(base * 1 == base);
    lemma_pow2_unfold((attempt - 1) as nat);
    let p = pow2((attempt - 2) as nat);
    assert(base * (2 * p) == 2 * (base * p)) by (nonlinear_arith);
}

/// How often a request is attempted and how long the pauses between the
/// attempts are.
#[derive(Debug, Clone, Copy)]
pub struct RetryPolicy {
    /// The attempt cap: the request is sent at most this often.
    pub max_attempts: u32,
    /// The pause before the second attempt, in milliseconds.
    pub base_delay_ms: u64,
    /// The bound of the random share added to each pause.
    pub jitter: Jitter,
}

/// The policy used where nothing else is configured: three attempts, and
/// pauses whose random share is at most half of their fixed part.
pub open spec fn standard_policy() -> RetryPolicy {
    RetryPolicy {
        max_attempts: DEFAULT_MAX_ATTEMPTS,
        base_delay_ms: DEFAULT_BASE_DELAY_MS,
        jitter: Jitter::HalfOfPause,
    }
}

/// The policy of the requests that change their identity when they are
/// blocked: three attempts, and pauses with a random share of up to a second.
pub open spec fn rotating_policy() -> RetryPolicy {
    RetryPolicy {
        max_attempts: DEFAULT_MAX_ATTEMPTS,
        base_delay_ms: DEFAULT_BASE_DELAY_MS,
        jitter: Jitter::UpTo(DEFAULT_JITTER_MS),
    }
}

/// The policy of best-effort requests: the pauses of the standard policy,
/// fewer attempts.
pub open spec fn auxiliary_policy() -> RetryPolicy {
    RetryPolicy {
        max_attempts: AUXILIARY_MAX_ATTEMPTS,
        base_delay_ms: DEFAULT_BASE_DELAY_MS,
        jitter: Jitter::HalfOfPause,
    }
}

impl RetryPolicy {
    /// A policy allows at least one attempt, and its longest pause, jitter
    /// included, fits in 64 bits.
    pub open spec fn wf(self) -> bool {
        &&& self.max_attempts >= 1
        &&& self.max_attempts >= 2 ==> self.longest_pause() <= u64::MAX
    }

    /// The longest pause that the policy can ask for: the one before the
    /// last attempt, with the largest random share.
    pub open spec fn longest_pause(self) -> nat {
        let delay = backoff_ms(self.base_delay_ms as nat, self.max_attempts as nat);
        delay + self.jitter.bound(delay)
    }

    /// Builds a policy, or nothing where the numbers do not form one.
    pub fn new(max_attempts: u32, base_delay_ms: u64, jitter: Jitter) -> (policy: Option<
        RetryPolicy,
    >)
        ensures
            policy is Some <==> (RetryPolicy { max_attempts, base_delay_ms, jitter }).wf(),
            policy matches Some(p) ==> p == (RetryPolicy { max_attempts, base_delay_ms, jitter }),
    {
        let candidate = RetryPolicy { max_attempts, base_delay_ms, jitter };
        if max_attempts == 0 {
            return None;
        }
        if max_attempts == 1 {
            return Some(candidate);
        }
        if base_delay_ms == 0 {
            proof {
                assert(backoff_ms(0, max_attempts as nat) == 0) by (nonlinear_arith)
                    requires
                        backoff_ms(0, max_attempts as nat) == 0 * pow2((max_attempts - 2) as nat),
                ;
            }
            return Some(candidate);
        }
        let mut delay: u64 = base_delay_ms;
        let mut attempt: u32 = 2;
        proof {
            lemma_backoff_doubles(base_delay_ms as nat, 2);
        }
        while attempt < max_attempts
            invariant
                2 <= attempt <= max_attempts,
                delay == backoff_ms(base_delay_ms as nat, attempt as nat),
            decreases max_attempts - attempt,
        {
            proof {
                lemma_backoff_doubles(base_delay_ms as nat, attempt as nat);
                lemma_backoff_grows(
                    base_delay_ms as nat,
                    (attempt + 1) as nat,
                    max_attempts as nat,
                );
            }
            if delay > u64::MAX / 2 {
                return None;
            }
            delay = delay * 2;
            attempt = attempt + 1;
        }
        if delay > u64::MAX - jitter.bound_for(delay) {
            None
        } else {
            Some(candidate)
        }
    }

    /// Tells whether the numbers form a policy.
    pub fn is_valid(&self) -> (yes: bool)
        ensures
            yes == self.wf(),
    {
        Self::new(self.max_attempts, self.base_delay_ms, self.jitter).is_some()
    }

    /// The policy used where nothing else is configured.
    pub fn standard() -> (policy: RetryPolicy)
        ensures
            policy == standard_policy(),
            policy.wf(),
    {
        proof {
            lemma2_to64();
        }
        RetryPolicy {
            max_attempts: DEFAULT_MAX_ATTEMPTS,
            base_delay_ms: DEFAULT_BASE_DELAY_MS,
            jitter: Jitter::HalfOfPause,
        }
    }

    /// The policy of the requests that change their identity when they are
    /// blocked.
    pub fn rotating() -> (policy: RetryPolicy)
        ensures
            policy == rotating_policy(),
            policy.wf(),
    {
        proof {
            lemma2_to64();
        }
        RetryPolicy {
            max_attempts: DEFAULT_MAX_ATTEMPTS,
            base_delay_ms: DEFAULT_BASE_DELAY_MS,
            jitter: Jitter::UpTo(DEFAULT_JITTER_MS),
        }
    }

    /// The policy of best-effort requests: the same pauses, fewer attempts.
    pub fn auxiliary() -> (policy: RetryPolicy)
        ensures
            policy == auxiliary_policy(),
            policy.wf(),
    {
        proof {
            lemma2_to64();
        }
        RetryPolicy {
            max_attempts: AUXILIARY_MAX_ATTEMPTS,
            base_delay_ms: DEFAULT_BASE_DELAY_MS,
            jitter: Jitter::HalfOfPause,
        }
    }

    /// The fixed part of the pause that precedes attempt number `attempt`.
    pub fn delay_before(&self, attempt: u32) -> (delay_ms: u64)
        requires
            self.wf(),
            2 <= attempt <= self.max_attempts,
        ensures
            delay_ms == backoff_ms(self.base_delay_ms as nat, attempt as nat),
            delay_ms + self.jitter.bound(delay_ms as nat) <= u64::MAX,
    {
        let mut delay: u64 = self.base_delay_ms;
        let mut k: u32 = 2;
        proof {
            lemma_backoff_doubles(self.base_delay_ms as nat, 2);
            lemma_backoff_grows(self.base_delay_ms as nat, attempt as nat, self.max_attempts as nat);
            lemma_jitter_grows(
                self.jitter,
                backoff_ms(self.base_delay_ms as nat, attempt as nat),
                backoff_ms(self.base_delay_ms as nat, self.max_attempts as nat),
            );
        }
        while k < attempt
            invariant
                self.wf(),
                2 <= k <= attempt <= self.max_attempts,
                delay == backoff_ms(self.base_delay_ms as nat, k as nat),
            decreases attempt - k,
        {
            proof {
                lemma_backoff_doubles(self.base_delay_ms as nat, k as nat);
                lemma_backoff_grows(
                    self.base_delay_ms as nat,
                    (k + 1) as nat,
                    self.max_attempts as nat,
                );
            }
            delay = delay * 2;
            k = k + 1;
        }
        delay
    }

    /// What follows a failed attempt: the fixed part of the pause before the
    /// next one, or nothing when the attempt cap is reached.
    pub fn after_failure(&self, attempts_made: u32) -> (pause_ms: Option<u64>)
        requires
            self.wf(),
            1 <= attempts_made <= self.max_attempts,
        ensures
            pause_ms is None <==> attempts_made == self.max_attempts,
            pause_ms matches Some(d) ==> d == backoff_ms(
                self.base_delay_ms as nat,
                (attempts_made + 1) as nat,
            ) && d + self.jitter.bound(d as nat) <= u64::MAX,
    {
        if attempts_made >= self.max_attempts {
            None
        } else {
            Some(self.delay_before(attempts_made + 1))
        }
    }
}

} // verus!
