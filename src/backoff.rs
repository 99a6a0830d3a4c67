use vstd::arithmetic::power::pow;
use vstd::prelude::*;

verus! {

/// Configuration of the delay between two failed attempts to initialise a connection.
#[derive(Debug, Clone, Copy, PartialEq, Eq)]
pub struct ReconnectionBackoffPolicy {
    pub backoff_ms_initial: u64,
    pub backoff_multiplier: u8,
    pub backoff_ms_max: u64,
}

impl ReconnectionBackoffPolicy {
    /// A usable policy: the delay never shrinks and starts within its cap.
    pub open spec fn wf(self) -> bool {
        &&& 1 <= self.backoff_multiplier
        &&& self.backoff_ms_initial <= self.backoff_ms_max
    }

    pub fn new(backoff_ms_initial: u64, backoff_multiplier: u8, backoff_ms_max: u64) -> (r: Self)
        ensures
            r.backoff_ms_initial == backoff_ms_initial,
            r.backoff_multiplier == backoff_multiplier,
            r.backoff_ms_max == backoff_ms_max,
    {
        ReconnectionBackoffPolicy { backoff_ms_initial, backoff_multiplier, backoff_ms_max }
    }
}

pub open spec fn min_int(a: int, b: int) -> int {
    if a <= b {
        a
    } else {
        b
    }
}

/// The delay that follows `delay` after one more failure under `policy`.
pub open spec fn grown(policy: ReconnectionBackoffPolicy, delay: int) -> int {
    min_int(delay * policy.backoff_multiplier, policy.backoff_ms_max as int)
}

/// The current delay after the attempts whose outcomes (`true` for success) are `outcomes`.
pub open spec fn delay_after(policy: ReconnectionBackoffPolicy, outcomes: Seq<bool>) -> int
    decreases outcomes.len(),
{
    if outcomes.len() == 0 {
        policy.backoff_ms_initial as int
    } else if outcomes.last() {
        policy.backoff_ms_initial as int
    } else {
        grown(policy, delay_after(policy, outcomes.drop_last()))
    }
}

/// The sleeps taken, in order, while going through the attempts `outcomes`: one
/// after each failure, of the delay current at that failure.
pub open spec fn sleeps_of(policy: ReconnectionBackoffPolicy, outcomes: Seq<bool>) -> Seq<int>
    decreases outcomes.len(),
{
    if outcomes.len() == 0 {
        seq![]
    } else if outcomes.last() {
        sleeps_of(policy, outcomes.drop_last())
    } else {
        sleeps_of(policy, outcomes.drop_last()).push(delay_after(policy, outcomes.drop_last()))
    }
}

/// The mutable half of the reconnection loop: the policy and the delay that the
/// next failure will wait.
#[derive(Debug)]
pub struct ReconnectionState {
    pub policy: ReconnectionBackoffPolicy,
    pub backoff_ms_current: u64,
}

impl ReconnectionState {
    pub open spec fn wf(&self) -> bool {
        &&& self.policy.wf()
        &&& self.policy.backoff_ms_initial <= self.backoff_ms_current
        &&& self.backoff_ms_current <= self.policy.backoff_ms_max
    }

    /// Starts over from the initial delay, as after a successful attempt.
    pub fn reset_backoff(&mut self)
        ensures
            final(self).policy == old(self).policy,
            final(self).backoff_ms_current == old(self).policy.backoff_ms_initial,
            old(self).policy.wf() ==> final(self).wf(),
    {
        self.backoff_ms_current = self.policy.backoff_ms_initial;
    }

    /// Multiplies the delay by the policy's multiplier, capped at its maximum;
    /// a product beyond `u64` is capped too.
    pub fn multiply_backoff(&mut self)
        requires
            old(self).wf(),
        ensures
            final(self).wf(),
            final(self).policy == old(self).policy,
            final(self).backoff_ms_current as int == grown(
                old(self).policy,
                old(self).backoff_ms_current as int,
            ),
    {
        let multiplier = self.policy.backoff_multiplier as u64;
        let max = self.policy.backoff_ms_max;
        let next = match self.backoff_ms_current.checked_mul(multiplier) {
            Some(product) => product,
            None => max,
        };
        proof {
            let cur = self.backoff_ms_current as int;
            let m = multiplier as int;
            assert(cur <= cur * m) by (nonlinear_arith)
                requires
                    1 <= m,
                    0 <= cur,
            ;
        }
        self.backoff_ms_current = if next <= max {
            next
        } else {
            max
        };
    }

    /// The length, in milliseconds, of the sleep that a failure now calls for.
    pub fn sleep_duration_ms(&self) -> (r: u64)
        ensures
            r == self.backoff_ms_current,
    {
        self.backoff_ms_current
    }

    /// Records the outcome of one attempt. A success resets the delay and asks
    /// for no sleep; a failure asks for a sleep of the current delay and grows it.
    pub fn record_attempt(&mut self, succeeded: bool) -> (sleep_ms: Option<u64>)
        requires
            old(self).wf(),
        ensures
            final(self).wf(),
            final(self).policy == old(self).policy,
            succeeded ==> sleep_ms.is_none() && final(self).backoff_ms_current
                == old(self).policy.backoff_ms_initial,
            !succeeded ==> sleep_ms == Some(old(self).backoff_ms_current)
                && final(self).backoff_ms_current as int == grown(
                old(self).policy,
                old(self).backoff_ms_current as int,
            ),
    {
        if succeeded {
            self.reset_backoff();
            None
        } else {
            let sleep_ms = self.sleep_duration_ms();
            self.multiply_backoff();
            Some(sleep_ms)
        }
    }
}

impl From<ReconnectionBackoffPolicy> for ReconnectionState {
    fn from(policy: ReconnectionBackoffPolicy) -> (r: Self) {
        ReconnectionState { backoff_ms_current: policy.backoff_ms_initial, policy }
    }
}

impl vstd::std_specs::convert::FromSpecImpl<ReconnectionBackoffPolicy> for ReconnectionState {
    open spec fn obeys_from_spec() -> bool {
        true
    }

    open spec fn from_spec(policy: ReconnectionBackoffPolicy) -> Self {
        ReconnectionState { policy, backoff_ms_current: policy.backoff_ms_initial }
    }
}

/// Under a usable policy, `k` failures in a row grow the delay to
/// `min(initial * multiplier^k, max)`.
pub proof fn lemma_delay_after_failures(policy: ReconnectionBackoffPolicy, k: nat)
    requires
        policy.wf(),
    ensures
        delay_after(policy, Seq::new(k, |i: int| false)) == min_int(
            policy.backoff_ms_initial * pow(policy.backoff_multiplier as int, k),
            policy.backoff_ms_max as int,
        ),
    decreases k,
{
    let m = policy.backoff_multiplier as int;
    let init = policy.backoff_ms_initial as int;
    let max = policy.backoff_ms_max as int;
    let fails = Seq::new(k, |i: int| false);
    if k == 0 {
        vstd::arithmetic::power::lemma_pow0(m);
    } else {
        let prev = Seq::new((k - 1) as nat, |i: int| false);
        assert(fails.drop_last() =~= prev);
        lemma_delay_after_failures(policy, (k - 1) as nat);
        vstd::arithmetic::power::lemma_pow_positive(m, (k - 1) as nat);
        let p = pow(m, (k - 1) as nat);
        assert(pow(m, k) == m * p) by {
            vstd::arithmetic::power::lemma_pow_adds(m, 1, (k - 1) as nat);
            vstd::arithmetic::power::lemma_pow1(m);
        };
        assert(init * (m * p) == (init * p) * m) by (nonlinear_arith);
        let a = init * p;
        assert(min_int(min_int(a, max) * m, max) == min_int(a * m, max)) by (nonlinear_arith)
            requires
                1 <= m,
                0 <= max,
                0 <= a,
        ;
    }
}

/// N failed attempts followed by one success sleep `min(initial * multiplier^k, max)`
/// before attempt `k + 1`, for each `k < N`, and leave the delay back at its initial value.
pub proof fn lemma_backoff_schedule(policy: ReconnectionBackoffPolicy, n: nat)
    requires
        policy.wf(),
    ensures
        sleeps_of(policy, Seq::new(n, |i: int| false).push(true)) =~= Seq::new(
            n,
            |k: int|
                min_int(
                    policy.backoff_ms_initial * pow(policy.backoff_multiplier as int, k as nat),
                    policy.backoff_ms_max as int,
                ),
        ),
        delay_after(policy, Seq::new(n, |i: int| false).push(true))
            == policy.backoff_ms_initial,
{
    let fails = Seq::new(n, |i: int| false);
    assert(fails.push(true).drop_last() =~= fails);
    lemma_sleeps_of_failures(policy, n);
}

proof fn lemma_sleeps_of_failures(policy: ReconnectionBackoffPolicy, n: nat)
    requires
        policy.wf(),
    ensures
        sleeps_of(policy, Seq::new(n, |i: int| false)) =~= Seq::new(
            n,
            |k: int|
                min_int(
                    policy.backoff_ms_initial * pow(policy.backoff_multiplier as int, k as nat),
                    policy.backoff_ms_max as int,
                ),
        ),
    decreases n,
{
    if n > 0 {
        let fails = Seq::new(n, |i: int| false);
        let prev = Seq::new((n - 1) as nat, |i: int| false);
        assert(fails.drop_last() =~= prev);
        lemma_sleeps_of_failures(policy, (n - 1) as nat);
        lemma_delay_after_failures(policy, (n - 1) as nat);
    }
}

} // verus!
