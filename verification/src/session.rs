//! Detection of a broken session: too many consecutive decode failures.

use vstd::prelude::*;

verus! {

/// Consecutive decode failures that mark the session as broken.
pub const MAX_CONSECUTIVE_ERRORS: u32 = 5;

/// Why a session was declared broken.
#[derive(Debug, Clone, Copy, PartialEq, Eq)]
pub enum SessionFaultReason {
    /// This many decode failures in a row.
    ConsecutiveDecodeFailures(u32),
}

/// Counts consecutive decode failures.  The count reaching the limit is a
/// fault: the caller reconnects the session and the count starts over.
#[derive(Debug, Clone, Copy, PartialEq, Eq)]
pub struct SessionFaultDetector {
    consecutive_errors: u32,
}

impl SessionFaultDetector {
    /// The current count of consecutive failures.
    pub closed spec fn count(&self) -> nat {
        self.consecutive_errors as nat
    }

    /// The count stays below the limit between calls.
    pub open spec fn wf(&self) -> bool {
        self.count() < MAX_CONSECUTIVE_ERRORS
    }

    pub fn new() -> (r: Self)
        ensures
            r.wf(),
            r.count() == 0,
    {
        SessionFaultDetector { consecutive_errors: 0 }
    }

    pub fn default() -> (r: Self)
        ensures
            r.wf(),
            r.count() == 0,
    {
        Self::new()
    }

    /// Records a failure.  The failure that brings the count to the limit
    /// is a fault: it is returned, and the count goes back to 0.
    pub fn record_error(&mut self) -> (r: Option<SessionFaultReason>)
        requires
            old(self).wf(),
        ensures
            final(self).wf(),
            final(self).count() == step_error(old(self).count()).0,
            r is Some == step_error(old(self).count()).1,
            r is Some ==> r == Some(
                SessionFaultReason::ConsecutiveDecodeFailures((old(self).count() + 1) as u32),
            ),
            forall|ops: Seq<bool>|
                old(self).count() == count_after(ops) ==> #[trigger] count_after(ops.push(true))
                    == final(self).count(),
    {
        proof {
            assert forall|ops: Seq<bool>| #[trigger] ops.push(true).drop_last() == ops by {
                assert(ops.push(true).drop_last() =~= ops);
            }
        }
        let count = self.consecutive_errors + 1;
        if count >= MAX_CONSECUTIVE_ERRORS {
            self.trigger_fault();
            Some(SessionFaultReason::ConsecutiveDecodeFailures(count))
        } else {
            self.consecutive_errors = count;
            None
        }
    }

    /// Records a success: the count starts over.
    pub fn record_success(&mut self)
        ensures
            final(self).wf(),
            final(self).count() == 0,
            forall|ops: Seq<bool>| #[trigger] count_after(ops.push(false)) == final(self).count(),
    {
        self.consecutive_errors = 0;
    }

    fn trigger_fault(&mut self)
        ensures
            final(self).count() == 0,
    {
        self.consecutive_errors = 0;
    }

    /// The current count of consecutive failures.
    pub fn current_error_count(&self) -> (r: u32)
        ensures
            r == self.count(),
    {
        self.consecutive_errors
    }
}

/// One failure from count `c`: the new count, and whether it is a fault.
pub open spec fn step_error(c: nat) -> (nat, bool) {
    if c + 1 >= MAX_CONSECUTIVE_ERRORS {
        (0, true)
    } else {
        (c + 1, false)
    }
}

/// The count and the number of faults after `n` failures in a row from a
/// fresh detector.
pub open spec fn run_errors(n: nat) -> (nat, nat)
    decreases n,
{
    if n == 0 {
        (0, 0)
    } else {
        let (c, f) = run_errors((n - 1) as nat);
        let (c2, faulted) = step_error(c);
        (c2, if faulted {
            f + 1
        } else {
            f
        })
    }
}

/// Of `n` failures in a row, every fifth one is a fault and nothing else
/// is: `n / 5` faults, and `n % 5` failures counted afterwards.
pub proof fn lemma_run_errors(n: nat)
    ensures
        run_errors(n) == (n % (MAX_CONSECUTIVE_ERRORS as nat), n / (MAX_CONSECUTIVE_ERRORS as nat)),
    decreases n,
{
    if n > 0 {
        lemma_run_errors((n - 1) as nat);
        let m = (n - 1) as nat;
        assert(m % 5 + 1 == 5 ==> n % 5 == 0 && n / 5 == m / 5 + 1);
        assert(m % 5 + 1 < 5 ==> n % 5 == m % 5 + 1 && n / 5 == m / 5);
        assert(m % 5 < 5);
    }
}

/// The count after a run of calls from a fresh detector: `true` for a
/// recorded failure, `false` for a recorded success.
pub open spec fn count_after(ops: Seq<bool>) -> nat
    decreases ops.len(),
{
    if ops.len() == 0 {
        0
    } else if ops.last() {
        step_error(count_after(ops.drop_last())).0
    } else {
        0
    }
}

/// The failures recorded since the last success (or since the start).
pub open spec fn errors_since_success(ops: Seq<bool>) -> nat
    decreases ops.len(),
{
    if ops.len() == 0 {
        0
    } else if ops.last() {
        errors_since_success(ops.drop_last()) + 1
    } else {
        0
    }
}

/// The faults reported since the last success (or since the start); a
/// success reports none.
pub open spec fn faults_since_success(ops: Seq<bool>) -> nat
    decreases ops.len(),
{
    if ops.len() == 0 {
        0
    } else if ops.last() {
        faults_since_success(ops.drop_last()) + if step_error(count_after(ops.drop_last())).1 {
            1nat
        } else {
            0nat
        }
    } else {
        0
    }
}

/// Over any run of failures and successes from a fresh detector, with `e`
/// failures since the last success: the count is `e % 5` (so always below
/// the limit), and exactly `e / 5` faults were reported in that span, at
/// the 5th, 10th, ... failure.
pub proof fn lemma_detector_run(ops: Seq<bool>)
    ensures
        count_after(ops) == errors_since_success(ops) % (MAX_CONSECUTIVE_ERRORS as nat),
        faults_since_success(ops) == errors_since_success(ops) / (MAX_CONSECUTIVE_ERRORS as nat),
        count_after(ops) < MAX_CONSECUTIVE_ERRORS,
    decreases ops.len(),
{
    if ops.len() > 0 {
        lemma_detector_run(ops.drop_last());
        let m = errors_since_success(ops.drop_last());
        assert(m % 5 + 1 == 5 ==> (m + 1) % 5 == 0 && (m + 1) / 5 == m / 5 + 1);
        assert(m % 5 + 1 < 5 ==> (m + 1) % 5 == m % 5 + 1 && (m + 1) / 5 == m / 5);
        assert(m % 5 < 5);
    }
}

} // verus!
