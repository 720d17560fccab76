//! The retry supervisor: classifies each attempt's outcome as retryable or
//! fatal, schedules linear backoff between attempts, and carries the last
//! failure to the terminal verdict.
use vstd::prelude::*;

use crate::text::{lowered_contains, spec_contains, spec_lower};

verus! {

// ---------------------------------------------------------------------------
// Attempt outcomes
// ---------------------------------------------------------------------------

/// The result of one connect-authenticate-execute try against one host.
/// `Completed` means the command ran and reported an exit code, whatever its
/// value; the other variants are transport-level failures of the attempt.
#[derive(Debug)]
pub enum AttemptOutcome {
    /// The command ran; a non-zero exit code is still a completed attempt.
    Completed { output: String, exit_code: i32 },
    /// The attempt failed with a diagnostic message.
    Failed { message: String },
    /// The worker running the attempt panicked.
    Panicked { message: String },
    /// The attempt's hard deadline expired.
    TimedOut,
}

/// The view of an attempt outcome, over character sequences.
pub enum SpecOutcome {
    Completed { output: Seq<char>, exit_code: i32 },
    Failed { message: Seq<char> },
    Panicked { message: Seq<char> },
    TimedOut,
}

impl View for AttemptOutcome {
    type V = SpecOutcome;

    open spec fn view(&self) -> SpecOutcome {
        match self {
            AttemptOutcome::Completed { output, exit_code } => SpecOutcome::Completed {
                output: output@,
                exit_code: *exit_code,
            },
            AttemptOutcome::Failed { message } => SpecOutcome::Failed { message: message@ },
            AttemptOutcome::Panicked { message } => SpecOutcome::Panicked { message: message@ },
            AttemptOutcome::TimedOut => SpecOutcome::TimedOut,
        }
    }
}

/// The views of a sequence of outcomes.
pub open spec fn outcome_views(s: Seq<AttemptOutcome>) -> Seq<SpecOutcome> {
    s.map_values(|o: AttemptOutcome| o@)
}

/// Copies an outcome.
pub fn clone_outcome(o: &AttemptOutcome) -> (r: AttemptOutcome)
    ensures
        r@ == o@,
{
    match o {
        AttemptOutcome::Completed { output, exit_code } => AttemptOutcome::Completed {
            output: output.clone(),
            exit_code: *exit_code,
        },
        AttemptOutcome::Failed { message } => AttemptOutcome::Failed { message: message.clone() },
        AttemptOutcome::Panicked { message } => AttemptOutcome::Panicked {
            message: message.clone(),
        },
        AttemptOutcome::TimedOut => AttemptOutcome::TimedOut,
    }
}

// ---------------------------------------------------------------------------
// The classifier
// ---------------------------------------------------------------------------

/// Whether a failure message describes a transient condition worth another
/// attempt: its lowercased text mentions a connection, timeout, network or
/// handshake problem.  Everything else (notably authentication failures) is
/// fatal for the host.
pub open spec fn spec_retryable(msg: Seq<char>) -> bool {
    ||| spec_contains(spec_lower(msg), "connection"@)
    ||| spec_contains(spec_lower(msg), "timeout"@)
    ||| spec_contains(spec_lower(msg), "network"@)
    ||| spec_contains(spec_lower(msg), "handshake"@)
}

/// Decides `spec_retryable` on a failure message.
pub fn is_retryable_error(msg: &str) -> (r: bool)
    ensures
        r == spec_retryable(msg@),
{
    ||| lowered_contains(msg, "connection")
    ||| lowered_contains(msg, "timeout")
    ||| lowered_contains(msg, "network")
    ||| lowered_contains(msg, "handshake")
}

// ---------------------------------------------------------------------------
// One supervision step
// ---------------------------------------------------------------------------

/// The terminal verdict of a host's supervised run: the successful attempt's
/// output and exit code, or the last recorded failure.  `retries` counts the
/// attempts made beyond the first.
#[derive(Debug)]
pub enum RetryVerdict {
    Completed { output: String, exit_code: i32, retries: u8 },
    Failed { message: String, retries: u8 },
}

/// The view of a verdict.
pub enum SpecVerdict {
    Completed { output: Seq<char>, exit_code: i32, retries: int },
    Failed { message: Seq<char>, retries: int },
}

impl View for RetryVerdict {
    type V = SpecVerdict;

    open spec fn view(&self) -> SpecVerdict {
        match self {
            RetryVerdict::Completed { output, exit_code, retries } => SpecVerdict::Completed {
                output: output@,
                exit_code: *exit_code,
                retries: *retries as int,
            },
            RetryVerdict::Failed { message, retries } => SpecVerdict::Failed {
                message: message@,
                retries: *retries as int,
            },
        }
    }
}

/// What the supervisor does after one attempt: finish with a verdict, or
/// wait and try again.
pub enum RetryStep {
    Finish { verdict: RetryVerdict },
    Backoff { delay_ms: u64 },
}

/// The view of a supervision step.
pub enum SpecStep {
    Finish { verdict: SpecVerdict },
    Backoff { delay_ms: int },
}

impl View for RetryStep {
    type V = SpecStep;

    open spec fn view(&self) -> SpecStep {
        match self {
            RetryStep::Finish { verdict } => SpecStep::Finish { verdict: verdict@ },
            RetryStep::Backoff { delay_ms } => SpecStep::Backoff { delay_ms: *delay_ms as int },
        }
    }
}

/// The supervisor's decision after attempt number `attempt` (counted from
/// zero) came back with `o`, with `max_retries` further attempts allowed in
/// all.  A completed command finishes at once.  A failure is retried — after
/// a backoff of 500 ms times the number of the coming attempt — only while
/// the budget allows and the failure is transient; a worker panic is always
/// fatal, and an expired deadline is always transient.
pub open spec fn spec_step(o: SpecOutcome, attempt: int, max_retries: int) -> SpecStep {
    match o {
        SpecOutcome::Completed { output, exit_code } => SpecStep::Finish {
            verdict: SpecVerdict::Completed { output, exit_code, retries: attempt },
        },
        SpecOutcome::Failed { message } => {
            if spec_retryable(message) && attempt < max_retries {
                SpecStep::Backoff { delay_ms: 500 * (attempt + 1) }
            } else {
                SpecStep::Finish { verdict: SpecVerdict::Failed { message, retries: attempt } }
            }
        },
        SpecOutcome::Panicked { message } => SpecStep::Finish {
            verdict: SpecVerdict::Failed {
                message: "Task panic: "@ + message,
                retries: attempt,
            },
        },
        SpecOutcome::TimedOut => {
            if attempt < max_retries {
                SpecStep::Backoff { delay_ms: 500 * (attempt + 1) }
            } else {
                SpecStep::Finish {
                    verdict: SpecVerdict::Failed { message: "Command timeout"@, retries: attempt },
                }
            }
        },
    }
}

/// Performs one supervision step.
pub fn retry_step(outcome: AttemptOutcome, attempt: u8, max_retries: u8) -> (r: RetryStep)
    requires
        attempt <= max_retries,
    ensures
        r@ == spec_step(outcome@, attempt as int, max_retries as int),
{
    match outcome {
        AttemptOutcome::Completed { output, exit_code } => RetryStep::Finish {
            verdict: RetryVerdict::Completed { output, exit_code, retries: attempt },
        },
        AttemptOutcome::Failed { message } => {
            if is_retryable_error(message.as_str()) && attempt < max_retries {
                RetryStep::Backoff { delay_ms: 500 * ((attempt as u64) + 1) }
            } else {
                RetryStep::Finish {
                    verdict: RetryVerdict::Failed { message, retries: attempt },
                }
            }
        },
        AttemptOutcome::Panicked { message } => {
            let mut m = String::from_str("Task panic: ");
            m.append(message.as_str());
            RetryStep::Finish { verdict: RetryVerdict::Failed { message: m, retries: attempt } }
        },
        AttemptOutcome::TimedOut => {
            if attempt < max_retries {
                RetryStep::Backoff { delay_ms: 500 * ((attempt as u64) + 1) }
            } else {
                RetryStep::Finish {
                    verdict: RetryVerdict::Failed {
                        message: String::from_str("Command timeout"),
                        retries: attempt,
                    },
                }
            }
        },
    }
}

// ---------------------------------------------------------------------------
// The whole supervised run, over a given sequence of outcomes
// ---------------------------------------------------------------------------

/// A backoff step is only taken below the retry budget.
pub proof fn lemma_backoff_below_max(o: SpecOutcome, attempt: int, max_retries: int)
    requires
        spec_step(o, attempt, max_retries) is Backoff,
    ensures
        attempt < max_retries,
{
}

/// The verdict reached from attempt number `attempt` on, when attempt `i`
/// comes back with `outcomes[i]`.  The supervisor stops at the first step
/// that finishes; the final attempt always finishes.
pub open spec fn spec_supervise(
    outcomes: Seq<SpecOutcome>,
    attempt: int,
    max_retries: int,
) -> SpecVerdict
    decreases max_retries - attempt,
{
    match spec_step(outcomes[attempt], attempt, max_retries) {
        SpecStep::Finish { verdict } => verdict,
        SpecStep::Backoff { delay_ms } => if attempt < max_retries {
            spec_supervise(outcomes, attempt + 1, max_retries)
        } else {
            // a backoff step only arises below the retry budget
            SpecVerdict::Failed { message: Seq::empty(), retries: attempt }
        },
    }
}

/// Runs the whole retry loop against a fixed sequence of attempt outcomes,
/// where `outcomes[i]` is what attempt `i` would return.  This is the
/// supervisor's decision logic in isolation: the caller performs the real
/// attempts and the backoff waits.
pub fn supervise(outcomes: &Vec<AttemptOutcome>, max_retries: u8) -> (r: RetryVerdict)
    requires
        outcomes@.len() > max_retries,
    ensures
        r@ == spec_supervise(outcome_views(outcomes@), 0, max_retries as int),
{
    let ghost ovs = outcome_views(outcomes@);
    let mut attempt: u8 = 0;
    loop
        invariant
            attempt <= max_retries,
            outcomes@.len() > max_retries,
            ovs == outcome_views(outcomes@),
            spec_supervise(ovs, 0, max_retries as int) == spec_supervise(
                ovs,
                attempt as int,
                max_retries as int,
            ),
        decreases max_retries - attempt,
    {
        let o = clone_outcome(&outcomes[attempt as usize]);
        proof {
            assert(ovs[attempt as int] == outcomes@[attempt as int]@);
        }
        match retry_step(o, attempt, max_retries) {
            RetryStep::Finish { verdict } => {
                return verdict;
            },
            RetryStep::Backoff { delay_ms: _ } => {
                proof {
                    lemma_backoff_below_max(ovs[attempt as int], attempt as int, max_retries as int);
                }
                attempt = attempt + 1;
            },
        }
    }
}

// ---------------------------------------------------------------------------
// Laws of the supervisor
// ---------------------------------------------------------------------------

/// Whether an outcome is a transient failure: a retryable failure message,
/// or an expired deadline.
pub open spec fn spec_transient(o: SpecOutcome) -> bool {
    match o {
        SpecOutcome::Failed { message } => spec_retryable(message),
        SpecOutcome::TimedOut => true,
        _ => false,
    }
}

/// A command that completes on the first attempt yields its own output and
/// exit code with no retries, whatever the retry budget.
pub proof fn lemma_first_attempt_completes(
    outcomes: Seq<SpecOutcome>,
    max_retries: int,
    output: Seq<char>,
    exit_code: i32,
)
    requires
        0 <= max_retries,
        outcomes.len() > 0,
        outcomes[0] == (SpecOutcome::Completed { output, exit_code }),
    ensures
        spec_supervise(outcomes, 0, max_retries) == (SpecVerdict::Completed {
            output,
            exit_code,
            retries: 0,
        }),
{
}

proof fn lemma_transient_then_completes_from(
    outcomes: Seq<SpecOutcome>,
    attempt: int,
    k: int,
    max_retries: int,
    output: Seq<char>,
    exit_code: i32,
)
    requires
        0 <= attempt <= k <= max_retries,
        k < outcomes.len(),
        forall|i: int| attempt <= i < k ==> spec_transient(#[trigger] outcomes[i]),
        outcomes[k] == (SpecOutcome::Completed { output, exit_code }),
    ensures
        spec_supervise(outcomes, attempt, max_retries) == (SpecVerdict::Completed {
            output,
            exit_code,
            retries: k,
        }),
    decreases k - attempt,
{
    if attempt < k {
        assert(spec_transient(outcomes[attempt]));
        lemma_transient_then_completes_from(
            outcomes,
            attempt + 1,
            k,
            max_retries,
            output,
            exit_code,
        );
    }
}

/// A run whose first `k` attempts fail transiently and whose attempt `k`
/// completes (within the retry budget) succeeds with exactly `k` retries.
pub proof fn lemma_transient_then_completes(
    outcomes: Seq<SpecOutcome>,
    k: int,
    max_retries: int,
    output: Seq<char>,
    exit_code: i32,
)
    requires
        0 <= k <= max_retries,
        k < outcomes.len(),
        forall|i: int| 0 <= i < k ==> spec_transient(#[trigger] outcomes[i]),
        outcomes[k] == (SpecOutcome::Completed { output, exit_code }),
    ensures
        spec_supervise(outcomes, 0, max_retries) == (SpecVerdict::Completed {
            output,
            exit_code,
            retries: k,
        }),
{
    lemma_transient_then_completes_from(outcomes, 0, k, max_retries, output, exit_code);
}

/// A fatal first failure — an authentication rejection, or any other message
/// the classifier does not call transient — stops the supervisor after a
/// single attempt, whatever the retry budget.
pub proof fn lemma_fatal_stops_at_once(
    outcomes: Seq<SpecOutcome>,
    max_retries: int,
    message: Seq<char>,
)
    requires
        0 <= max_retries,
        outcomes.len() > 0,
        outcomes[0] == (SpecOutcome::Failed { message }),
        !spec_retryable(message),
    ensures
        spec_supervise(outcomes, 0, max_retries) == (SpecVerdict::Failed { message, retries: 0 }),
{
}

/// A run whose every attempt fails transiently exhausts the whole budget and
/// reports the last failure with `max_retries` retries.
pub proof fn lemma_exhaustion(outcomes: Seq<SpecOutcome>, max_retries: int)
    requires
        0 <= max_retries < outcomes.len(),
        forall|i: int| 0 <= i <= max_retries ==> spec_transient(#[trigger] outcomes[i]),
    ensures
        spec_supervise(outcomes, 0, max_retries) matches SpecVerdict::Failed {
            message,
            retries,
        } && retries == max_retries && message == (match outcomes[max_retries] {
            SpecOutcome::Failed { message } => message,
            _ => "Command timeout"@,
        }),
{
    lemma_exhaustion_from(outcomes, 0, max_retries);
}

proof fn lemma_exhaustion_from(outcomes: Seq<SpecOutcome>, attempt: int, max_retries: int)
    requires
        0 <= attempt <= max_retries < outcomes.len(),
        forall|i: int| attempt <= i <= max_retries ==> spec_transient(#[trigger] outcomes[i]),
    ensures
        spec_supervise(outcomes, attempt, max_retries) matches SpecVerdict::Failed {
            message,
            retries,
        } && retries == max_retries && message == (match outcomes[max_retries] {
            SpecOutcome::Failed { message } => message,
            _ => "Command timeout"@,
        }),
    decreases max_retries - attempt,
{
    if attempt < max_retries {
        lemma_exhaustion_from(outcomes, attempt + 1, max_retries);
    }
}

} // verus!
