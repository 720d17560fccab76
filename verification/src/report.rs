//! Per-host result records, field projection for structured output, and the
//! run summary with its process exit code.
use vstd::prelude::*;

use crate::retry::{
    lemma_first_attempt_completes, spec_supervise, RetryVerdict, SpecOutcome, SpecVerdict,
};
use crate::text::{contains_char, spec_lines, split_lines, str_eq};

verus! {

// ---------------------------------------------------------------------------
// The per-host record
// ---------------------------------------------------------------------------

/// The terminal, externally visible record for one host, created exactly once
/// when the host's supervised run finishes.  `success` is true only when an
/// attempt completed with exit code zero; a command that runs and exits
/// non-zero is a reported failure, not a transport error.
#[derive(Debug)]
pub struct HostResult {
    pub hostname: String,
    pub success: bool,
    pub stdout: Option<String>,
    pub stdout_lines: Option<Vec<String>>,
    pub stderr: Option<String>,
    pub exit_code: Option<i32>,
    pub retries_attempted: u8,
    /// When the host's run started, in milliseconds since the Unix epoch.
    pub timestamp_ms: i64,
    pub duration_ms: u64,
}

/// The view of a host record, over character sequences.
pub struct SpecHostResult {
    pub hostname: Seq<char>,
    pub success: bool,
    pub stdout: Option<Seq<char>>,
    pub stdout_lines: Option<Seq<Seq<char>>>,
    pub stderr: Option<Seq<char>>,
    pub exit_code: Option<i32>,
    pub retries_attempted: int,
    pub timestamp_ms: i64,
    pub duration_ms: u64,
}

impl View for HostResult {
    type V = SpecHostResult;

    open spec fn view(&self) -> SpecHostResult {
        SpecHostResult {
            hostname: self.hostname@,
            success: self.success,
            stdout: match &self.stdout {
                Some(s) => Some(s@),
                None => None,
            },
            stdout_lines: match &self.stdout_lines {
                Some(ls) => Some(ls.deep_view()),
                None => None,
            },
            stderr: match &self.stderr {
                Some(s) => Some(s@),
                None => None,
            },
            exit_code: self.exit_code,
            retries_attempted: self.retries_attempted as int,
            timestamp_ms: self.timestamp_ms,
            duration_ms: self.duration_ms,
        }
    }
}

/// The record a verdict produces: a completed command reports its output
/// (split into lines when there is more than one), its exit code, and
/// success exactly when the code is zero; a failed run reports the last
/// failure message and no exit code.
pub open spec fn spec_host_result(
    hostname: Seq<char>,
    v: SpecVerdict,
    timestamp_ms: i64,
    duration_ms: u64,
) -> SpecHostResult {
    match v {
        SpecVerdict::Completed { output, exit_code, retries } => SpecHostResult {
            hostname,
            success: exit_code == 0,
            stdout: Some(output),
            stdout_lines: if output.contains('\n') {
                Some(spec_lines(output))
            } else {
                None
            },
            stderr: None,
            exit_code: Some(exit_code),
            retries_attempted: retries,
            timestamp_ms,
            duration_ms,
        },
        SpecVerdict::Failed { message, retries } => SpecHostResult {
            hostname,
            success: false,
            stdout: None,
            stdout_lines: None,
            stderr: Some(message),
            exit_code: None,
            retries_attempted: retries,
            timestamp_ms,
            duration_ms,
        },
    }
}

/// Builds the host's terminal record from the supervisor's verdict and the
/// timing the caller measured.
pub fn finish_host_result(
    hostname: String,
    verdict: RetryVerdict,
    timestamp_ms: i64,
    duration_ms: u64,
) -> (r: HostResult)
    ensures
        r@ == spec_host_result(hostname@, verdict@, timestamp_ms, duration_ms),
{
    match verdict {
        RetryVerdict::Completed { output, exit_code, retries } => {
            let stdout_lines = if contains_char(output.as_str(), '\n') {
                Some(split_lines(output.as_str()))
            } else {
                None
            };
            HostResult {
                hostname,
                success: exit_code == 0,
                stdout: Some(output),
                stdout_lines,
                stderr: None,
                exit_code: Some(exit_code),
                retries_attempted: retries,
                timestamp_ms,
                duration_ms,
            }
        },
        RetryVerdict::Failed { message, retries } => HostResult {
            hostname,
            success: false,
            stdout: None,
            stdout_lines: None,
            stderr: Some(message),
            exit_code: None,
            retries_attempted: retries,
            timestamp_ms,
            duration_ms,
        },
    }
}

/// A command that completes with exit code zero on the first attempt yields
/// a record that reports success after no retries, whatever the retry
/// budget.
pub proof fn lemma_first_success_record(
    hostname: Seq<char>,
    outcomes: Seq<SpecOutcome>,
    max_retries: int,
    output: Seq<char>,
    timestamp_ms: i64,
    duration_ms: u64,
)
    requires
        0 <= max_retries,
        outcomes.len() > 0,
        outcomes[0] == (SpecOutcome::Completed { output, exit_code: 0 }),
    ensures
        ({
            let rec = spec_host_result(
                hostname,
                spec_supervise(outcomes, 0, max_retries),
                timestamp_ms,
                duration_ms,
            );
            rec.success && rec.retries_attempted == 0 && rec.exit_code == Some(0i32)
        }),
{
    lemma_first_attempt_completes(outcomes, max_retries, output, 0);
}

// ---------------------------------------------------------------------------
// Field projection for structured output
// ---------------------------------------------------------------------------

/// One projected value: a typed field of a host record, ready for whatever
/// rendering the caller applies.
pub enum FieldValue {
    Text(String),
    Flag(bool),
    Code(i32),
    TextList(Vec<String>),
    Millis(u64),
    /// A timestamp in milliseconds since the Unix epoch.
    Stamp(i64),
}

/// The view of a projected value.
pub enum SpecFieldValue {
    Text(Seq<char>),
    Flag(bool),
    Code(i32),
    TextList(Seq<Seq<char>>),
    Millis(u64),
    Stamp(i64),
}

impl View for FieldValue {
    type V = SpecFieldValue;

    open spec fn view(&self) -> SpecFieldValue {
        match self {
            FieldValue::Text(s) => SpecFieldValue::Text(s@),
            FieldValue::Flag(b) => SpecFieldValue::Flag(*b),
            FieldValue::Code(c) => SpecFieldValue::Code(*c),
            FieldValue::TextList(ls) => SpecFieldValue::TextList(ls.deep_view()),
            FieldValue::Millis(m) => SpecFieldValue::Millis(*m),
            FieldValue::Stamp(t) => SpecFieldValue::Stamp(*t),
        }
    }
}

/// One key-value pair of the projected record.
pub struct FieldEntry {
    pub key: String,
    pub value: FieldValue,
}

impl View for FieldEntry {
    type V = (Seq<char>, SpecFieldValue);

    open spec fn view(&self) -> (Seq<char>, SpecFieldValue) {
        (self.key@, self.value@)
    }
}

/// The views of a sequence of entries.
pub open spec fn entry_views(s: Seq<FieldEntry>) -> Seq<(Seq<char>, SpecFieldValue)> {
    s.map_values(|e: FieldEntry| e@)
}

/// What one requested field name contributes to the projection: nothing for
/// an unknown name or an absent optional field, one key-value pair otherwise.
pub open spec fn spec_field_entries(r: SpecHostResult, f: Seq<char>) -> Seq<
    (Seq<char>, SpecFieldValue),
> {
    if f == "hostname"@ || f == "host"@ {
        seq![("hostname"@, SpecFieldValue::Text(r.hostname))]
    } else if f == "success"@ {
        seq![("success"@, SpecFieldValue::Flag(r.success))]
    } else if f == "stdout"@ {
        match r.stdout {
            Some(s) => seq![("stdout"@, SpecFieldValue::Text(s))],
            None => Seq::empty(),
        }
    } else if f == "stdout_lines"@ {
        match r.stdout_lines {
            Some(ls) => seq![("stdout_lines"@, SpecFieldValue::TextList(ls))],
            None => Seq::empty(),
        }
    } else if f == "stderr"@ {
        match r.stderr {
            Some(s) => seq![("stderr"@, SpecFieldValue::Text(s))],
            None => Seq::empty(),
        }
    } else if f == "exit_code"@ {
        match r.exit_code {
            Some(c) => seq![("exit_code"@, SpecFieldValue::Code(c))],
            None => Seq::empty(),
        }
    } else if f == "timestamp"@ {
        seq![("timestamp"@, SpecFieldValue::Stamp(r.timestamp_ms))]
    } else if f == "duration_ms"@ || f == "duration"@ {
        seq![("duration_ms"@, SpecFieldValue::Millis(r.duration_ms))]
    } else {
        Seq::empty()
    }
}

/// The whole projection: the requested fields' contributions, in request
/// order.
pub open spec fn spec_filter_fields(r: SpecHostResult, fields: Seq<Seq<char>>) -> Seq<
    (Seq<char>, SpecFieldValue),
>
    decreases fields.len(),
{
    if fields.len() == 0 {
        Seq::empty()
    } else {
        spec_filter_fields(r, fields.drop_last()) + spec_field_entries(r, fields.last())
    }
}

impl HostResult {
    /// Projects the requested fields of this record, in request order:
    /// unknown names and absent optional fields contribute nothing.
    pub fn filter_fields(&self, fields: &Vec<String>) -> (r: Vec<FieldEntry>)
        ensures
            entry_views(r@) == spec_filter_fields(self@, fields.deep_view()),
    {
        let ghost fdv = fields.deep_view();
        let mut out: Vec<FieldEntry> = Vec::new();
        let mut i: usize = 0;
        proof {
            assert(fdv.take(0) =~= Seq::<Seq<char>>::empty());
            assert(entry_views(out@) =~= Seq::<(Seq<char>, SpecFieldValue)>::empty());
        }
        while i < fields.len()
            invariant
                i <= fields.len(),
                fdv == fields.deep_view(),
                fdv.len() == fields.len(),
                entry_views(out@) == spec_filter_fields(self@, fdv.take(i as int)),
            decreases fields.len() - i,
        {
            let ghost old_vs = entry_views(out@);
            let f = fields[i].as_str();
            proof {
                assert(fdv[i as int] == fields@[i as int]@);
            }
            if str_eq(f, "hostname") || str_eq(f, "host") {
                out.push(
                    FieldEntry {
                        key: String::from_str("hostname"),
                        value: FieldValue::Text(self.hostname.clone()),
                    },
                );
            } else if str_eq(f, "success") {
                out.push(
                    FieldEntry {
                        key: String::from_str("success"),
                        value: FieldValue::Flag(self.success),
                    },
                );
            } else if str_eq(f, "stdout") {
                match &self.stdout {
                    Some(s) => {
                        out.push(
                            FieldEntry {
                                key: String::from_str("stdout"),
                                value: FieldValue::Text(s.clone()),
                            },
                        );
                    },
                    None => {},
                }
            } else if str_eq(f, "stdout_lines") {
                match &self.stdout_lines {
                    Some(ls) => {
                        let copied = ls.clone();
                        proof {
                            assert(copied.deep_view() =~= ls.deep_view());
                        }
                        out.push(
                            FieldEntry {
                                key: String::from_str("stdout_lines"),
                                value: FieldValue::TextList(copied),
                            },
                        );
                    },
                    None => {},
                }
            } else if str_eq(f, "stderr") {
                match &self.stderr {
                    Some(s) => {
                        out.push(
                            FieldEntry {
                                key: String::from_str("stderr"),
                                value: FieldValue::Text(s.clone()),
                            },
                        );
                    },
                    None => {},
                }
            } else if str_eq(f, "exit_code") {
                match self.exit_code {
                    Some(c) => {
                        out.push(
                            FieldEntry {
                                key: String::from_str("exit_code"),
                                value: FieldValue::Code(c),
                            },
                        );
                    },
                    None => {},
                }
            } else if str_eq(f, "timestamp") {
                out.push(
                    FieldEntry {
                        key: String::from_str("timestamp"),
                        value: FieldValue::Stamp(self.timestamp_ms),
                    },
                );
            } else if str_eq(f, "duration_ms") || str_eq(f, "duration") {
                out.push(
                    FieldEntry {
                        key: String::from_str("duration_ms"),
                        value: FieldValue::Millis(self.duration_ms),
                    },
                );
            }
            proof {
                let t = fdv.take(i + 1);
                assert(t.drop_last() =~= fdv.take(i as int));
                assert(t.last() == fdv[i as int]);
                assert(entry_views(out@) =~= old_vs + spec_field_entries(self@, fdv[i as int]));
            }
            i += 1;
        }
        proof {
            assert(fdv.take(fields.len() as int) =~= fdv);
        }
        out
    }
}

// ---------------------------------------------------------------------------
// The run summary
// ---------------------------------------------------------------------------

/// The aggregate over all host records, recomputed from the final result
/// set: totals and the process exit code.
#[derive(Debug)]
pub struct RunSummary {
    pub total: usize,
    pub succeeded: usize,
    pub failed: usize,
    pub exit_code: i32,
}

/// The views of a sequence of host records.
pub open spec fn result_views(s: Seq<HostResult>) -> Seq<SpecHostResult> {
    s.map_values(|r: HostResult| r@)
}

/// How many records report success.
pub open spec fn count_successes(s: Seq<SpecHostResult>) -> nat
    decreases s.len(),
{
    if s.len() == 0 {
        0
    } else {
        count_successes(s.drop_last()) + if s.last().success {
            1nat
        } else {
            0
        }
    }
}

proof fn lemma_count_le_len(s: Seq<SpecHostResult>)
    ensures
        count_successes(s) <= s.len(),
    decreases s.len(),
{
    if s.len() > 0 {
        lemma_count_le_len(s.drop_last());
    }
}

/// The process exit code contract: a summary counts no failures — and so
/// reports exit code zero — exactly when every host's record reports
/// success.
pub proof fn lemma_exit_zero_iff_all_succeeded(s: Seq<SpecHostResult>)
    ensures
        count_successes(s) == s.len() <==> (forall|i: int| 0 <= i < s.len() ==> s[i].success),
    decreases s.len(),
{
    lemma_count_le_len(s);
    if s.len() > 0 {
        lemma_exit_zero_iff_all_succeeded(s.drop_last());
        lemma_count_le_len(s.drop_last());
        if count_successes(s) == s.len() {
            assert forall|i: int| 0 <= i < s.len() implies s[i].success by {
                if i < s.len() - 1 {
                    assert(s.drop_last()[i] == s[i]);
                }
            }
        }
        if forall|i: int| 0 <= i < s.len() ==> s[i].success {
            assert forall|i: int| 0 <= i < s.drop_last().len() implies s.drop_last()[i].success by {
                assert(s.drop_last()[i] == s[i]);
            }
            assert(s.last().success);
        }
    }
}

/// Aggregates the final result set: the run fails — with process exit code 1
/// — exactly when any host failed, for whatever reason.
pub fn summarize(results: &Vec<HostResult>) -> (r: RunSummary)
    ensures
        r.total == results@.len(),
        r.succeeded == count_successes(result_views(results@)),
        r.failed == r.total - r.succeeded,
        r.exit_code == if r.failed > 0 {
            1int
        } else {
            0int
        },
{
    let ghost rvs = result_views(results@);
    let total = results.len();
    let mut succeeded: usize = 0;
    let mut i: usize = 0;
    proof {
        assert(rvs.take(0) =~= Seq::<SpecHostResult>::empty());
    }
    while i < total
        invariant
            i <= total,
            total == results@.len(),
            rvs == result_views(results@),
            rvs.len() == total,
            succeeded == count_successes(rvs.take(i as int)),
            succeeded <= i,
        decreases total - i,
    {
        proof {
            let t = rvs.take(i + 1);
            assert(t.drop_last() =~= rvs.take(i as int));
            assert(t.last() == rvs[i as int]);
            assert(rvs[i as int] == results@[i as int]@);
        }
        if results[i].success {
            succeeded += 1;
        }
        i += 1;
    }
    proof {
        assert(rvs.take(total as int) =~= rvs);
        lemma_count_le_len(rvs);
    }
    let failed = total - succeeded;
    let exit_code: i32 = if failed > 0 {
        1
    } else {
        0
    };
    RunSummary { total, succeeded, failed, exit_code }
}

} // verus!
