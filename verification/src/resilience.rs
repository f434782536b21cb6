//! Retry delays: exponential backoff from an initial delay, capped, with an
//! optional random extra of up to a quarter of the delay.  Delays are in
//! milliseconds.

use vstd::prelude::*;

verus! {

/// `2^n`.
pub open spec fn two_pow(n: nat) -> nat
    decreases n,
{
    if n == 0 {
        1
    } else {
        2 * two_pow((n - 1) as nat)
    }
}

/// `a * b`, or `u64::MAX` where that does not fit.
pub open spec fn sat_mul(a: u64, b: nat) -> u64 {
    if a * b > u64::MAX {
        u64::MAX
    } else {
        (a * b) as u64
    }
}

/// The delay before retry `attempt` (counted from 0) without jitter:
/// `initial * 2^min(attempt, 20)`, saturating, capped at `max`.
pub open spec fn backoff_ms(initial: u64, max: u64, attempt: u32) -> u64 {
    let e: nat = if attempt < 20 {
        attempt as nat
    } else {
        20
    };
    let exp = sat_mul(initial, two_pow(e));
    if exp < max {
        exp
    } else {
        max
    }
}

/// One step of the generator: a 64-bit linear congruential step.
pub open spec fn lcg_next(s: u64) -> u64 {
    s.wrapping_mul(6364136223846793005).wrapping_add(1442695040888963407)
}

/// A small pseudo-random generator: not for anything that needs security.
#[derive(Debug, Clone, Copy, PartialEq, Eq)]
pub struct ThreadRng {
    state: u64,
}

/// A generator seeded from the system clock: its nanoseconds since the
/// epoch, truncated to 64 bits, or 42 where the clock reads before the
/// epoch.
pub fn thread_rng() -> (r: ThreadRng) {
    let seed: u64 = match crate::material::clock_nanos() {
        Some(n) => (n % 0x1_0000_0000_0000_0000u128) as u64,
        None => 42,
    };
    ThreadRng { state: seed }
}

impl ThreadRng {
    pub closed spec fn state(&self) -> u64 {
        self.state
    }

    /// A generator with a given seed.
    pub fn from_seed(seed: u64) -> (r: Self)
        ensures
            r.state() == seed,
    {
        ThreadRng { state: seed }
    }

    /// A number in `lo..=hi`: `lo` plus the next state modulo the width of
    /// the range.
    pub fn gen_range(&mut self, lo: u64, hi: u64) -> (r: u64)
        requires
            lo <= hi,
            hi - lo < u64::MAX,
        ensures
            final(self).state() == lcg_next(old(self).state()),
            r == lo + lcg_next(old(self).state()) % ((hi - lo + 1) as u64),
            lo <= r <= hi,
    {
        let s = self.state.wrapping_mul(6364136223846793005).wrapping_add(1442695040888963407);
        self.state = s;
        let span = hi - lo + 1;
        lo + s % span
    }
}

/// How long to wait between attempts of an operation, and how often to try.
#[derive(Debug, Clone, Copy, PartialEq, Eq)]
pub struct RetryPolicy {
    /// Delay before the first retry, in milliseconds.
    pub initial_delay: u64,
    /// Upper bound of a delay before jitter, in milliseconds.
    pub max_delay: u64,
    /// Attempts in all, the first included.
    pub max_attempts: u32,
    /// Whether a random extra of up to a quarter is added to each delay.
    pub jitter: bool,
}

fn pow2_upto_20(e: u32) -> (r: u64)
    requires
        e <= 20,
    ensures
        r == two_pow(e as nat),
{
    let mut p: u64 = 1;
    let mut i: u32 = 0;
    while i < e
        invariant
            i <= e <= 20,
            p == two_pow(i as nat),
            p <= 0x10_0000,
        decreases e - i,
    {
        proof {
            lemma_two_pow_bound(i as nat);
        }
        p = p * 2;
        i = i + 1;
    }
    p
}

proof fn lemma_two_pow_bound(n: nat)
    requires
        n < 20,
    ensures
        two_pow(n + 1) <= 0x10_0000,
{
    lemma_two_pow_mono(n + 1, 20);
    reveal_with_fuel(two_pow, 21);
    assert(two_pow(20) == 0x10_0000);
}

proof fn lemma_two_pow_mono(a: nat, b: nat)
    requires
        a <= b,
    ensures
        1 <= two_pow(a) <= two_pow(b),
    decreases b,
{
    if b > 0 && a < b {
        lemma_two_pow_mono(a, (b - 1) as nat);
    } else if b > 0 {
        lemma_two_pow_mono(0, (b - 1) as nat);
    }
}

impl RetryPolicy {
    /// 1 s initial delay, 60 s cap, 10 attempts, with jitter.
    pub fn exponential() -> (r: Self)
        ensures
            r == (RetryPolicy { initial_delay: 1000, max_delay: 60_000, max_attempts: 10, jitter: true }),
    {
        RetryPolicy { initial_delay: 1000, max_delay: 60_000, max_attempts: 10, jitter: true }
    }

    pub fn initial_delay(self, ms: u64) -> (r: Self)
        ensures
            r == (RetryPolicy { initial_delay: ms, ..self }),
    {
        RetryPolicy { initial_delay: ms, ..self }
    }

    pub fn max_delay(self, ms: u64) -> (r: Self)
        ensures
            r == (RetryPolicy { max_delay: ms, ..self }),
    {
        RetryPolicy { max_delay: ms, ..self }
    }

    pub fn max_attempts(self, n: u32) -> (r: Self)
        ensures
            r == (RetryPolicy { max_attempts: n, ..self }),
    {
        RetryPolicy { max_attempts: n, ..self }
    }

    pub fn with_jitter(self) -> (r: Self)
        ensures
            r == (RetryPolicy { jitter: true, ..self }),
    {
        RetryPolicy { jitter: true, ..self }
    }

    pub fn without_jitter(self) -> (r: Self)
        ensures
            r == (RetryPolicy { jitter: false, ..self }),
    {
        RetryPolicy { jitter: false, ..self }
    }

    /// The delay before retry `attempt` without jitter.
    pub fn base_delay(&self, attempt: u32) -> (r: u64)
        ensures
            r == backoff_ms(self.initial_delay, self.max_delay, attempt),
    {
        let e: u32 = if attempt < 20 {
            attempt
        } else {
            20
        };
        let p = pow2_upto_20(e);
        let exp: u64 = match self.initial_delay.checked_mul(p) {
            Some(v) => v,
            None => u64::MAX,
        };
        if exp < self.max_delay {
            exp
        } else {
            self.max_delay
        }
    }

    /// The delay with jitter added from `rng`: the base delay plus a draw
    /// in `0..=base/4`.
    pub fn jittered_delay(&self, attempt: u32, rng: &mut ThreadRng) -> (r: u64)
        requires
            ({
                let b = backoff_ms(self.initial_delay, self.max_delay, attempt);
                b + b / 4 <= u64::MAX
            }),
        ensures
            ({
                let b = backoff_ms(self.initial_delay, self.max_delay, attempt);
                &&& final(rng).state() == lcg_next(old(rng).state())
                &&& r == b + lcg_next(old(rng).state()) % ((b / 4 + 1) as u64)
            }),
    {
        let capped = self.base_delay(attempt);
        let jitter_range = capped / 4;
        let jitter = rng.gen_range(0, jitter_range);
        assert(jitter <= jitter_range);
        capped + jitter
    }

    /// The delay before retry `attempt`: the base delay, plus a random
    /// extra of at most a quarter of it when jitter is on.
    pub fn delay_for_attempt(&self, attempt: u32) -> (r: u64)
        requires
            ({
                let b = backoff_ms(self.initial_delay, self.max_delay, attempt);
                self.jitter ==> b + b / 4 <= u64::MAX
            }),
        ensures
            ({
                let b = backoff_ms(self.initial_delay, self.max_delay, attempt);
                &&& !self.jitter ==> r == b
                &&& self.jitter ==> b <= r <= b + b / 4
            }),
    {
        if self.jitter {
            let mut rng = thread_rng();
            self.jittered_delay(attempt, &mut rng)
        } else {
            self.base_delay(attempt)
        }
    }
}

impl RetryPolicy {
    /// After attempt `attempt` (counted from 0) failed: the delay before
    /// the next attempt, or `None` when no attempt is left.
    pub fn retry_after_failure(&self, attempt: u32) -> (r: Option<u64>)
        requires
            ({
                let b = backoff_ms(self.initial_delay, self.max_delay, attempt);
                self.jitter ==> b + b / 4 <= u64::MAX
            }),
        ensures
            attempt + 1 >= self.max_attempts ==> r is None,
            attempt + 1 < self.max_attempts ==> ({
                let b = backoff_ms(self.initial_delay, self.max_delay, attempt);
                &&& r is Some
                &&& !self.jitter ==> r == Some(b)
                &&& self.jitter ==> b <= r.unwrap() <= b + b / 4
            }),
    {
        if (attempt as u64) + 1 < self.max_attempts as u64 {
            Some(self.delay_for_attempt(attempt))
        } else {
            None
        }
    }
}

/// Later retries never wait less: without jitter the delay does not
/// decrease with the attempt number.
pub proof fn lemma_backoff_monotone(initial: u64, max: u64, a1: u32, a2: u32)
    requires
        a1 <= a2,
    ensures
        backoff_ms(initial, max, a1) <= backoff_ms(initial, max, a2),
{
    let e1: nat = if a1 < 20 { a1 as nat } else { 20 };
    let e2: nat = if a2 < 20 { a2 as nat } else { 20 };
    lemma_two_pow_mono(e1, e2);
    let p1 = two_pow(e1);
    let p2 = two_pow(e2);
    assert(initial * p1 <= initial * p2) by (nonlinear_arith)
        requires
            p1 <= p2,
    ;
}

/// No delay exceeds the cap, and a jittered one exceeds it by at most a
/// quarter.
pub proof fn lemma_backoff_capped(initial: u64, max: u64, attempt: u32)
    ensures
        backoff_ms(initial, max, attempt) <= max,
        backoff_ms(initial, max, attempt) + backoff_ms(initial, max, attempt) / 4 <= max + max / 4,
{
}

/// Before the cap and saturation are reached, each retry waits twice as
/// long as the one before.
pub proof fn lemma_backoff_doubles(initial: u64, max: u64, a: u32)
    requires
        a < 20,
        initial * two_pow(a as nat + 1) < max,
    ensures
        backoff_ms(initial, max, (a + 1) as u32) == 2 * backoff_ms(initial, max, a),
{
    lemma_two_pow_mono(a as nat, a as nat + 1);
    let p = two_pow(a as nat);
    assert(two_pow(a as nat + 1) == 2 * p);
    assert(initial * (2 * p) == 2 * (initial * p)) by (nonlinear_arith);
}

} // verus!
