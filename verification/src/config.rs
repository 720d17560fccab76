//! The run's configuration and the duration syntax of its timeout flag.
use vstd::prelude::*;

use crate::text::{
    char_alphabetic, dec_val, numeric_body, parse_u64, parses_as_u64, spec_lower_char,
    spec_trim_end_alpha, lower_char, trim_end_alphabetic,
};

verus! {

/// Everything the operator chose for one run.  The embedding program parses
/// its command line into this; the engine only reads it.
#[derive(Debug)]
pub struct Cli {
    /// Login user; the embedding program defaults it to the current user.
    pub user: Option<String>,
    /// Explicit password.
    pub password: Option<String>,
    /// Prompt for a password interactively.
    pub ask_pass: bool,
    /// Path to a private key.
    pub private_key: Option<String>,
    /// Raw target host specifications.
    pub target_hosts: Vec<String>,
    /// Path of an inventory file with one host specification per line.
    pub inventory: Option<String>,
    /// Greatest number of hosts worked on at once.
    pub concurrency: usize,
    /// Per-attempt timeout, in seconds.
    pub timeout: u64,
    /// Retries allowed per host beyond the first attempt.
    pub retries: u8,
    /// Emit one structured record per host, as it completes.
    pub json: bool,
    /// Emit one pretty-printed batch at the end.
    pub pretty_json: bool,
    /// Restrict structured output to these fields.
    pub fields: Option<Vec<String>>,
    /// Verbose logging.
    pub verbose: bool,
    /// Never color the output.
    pub no_color: bool,
    /// The words of the command to run, joined by spaces before execution.
    pub command: Vec<String>,
}

/// What a duration flag denotes: trailing letters name the unit — `s`, `m`
/// or `h`, case-insensitively; anything else, or none, means seconds — and
/// what precedes them must parse as a decimal count.  `None` means the flag
/// is rejected: a malformed count, or a total that overflows.
pub open spec fn spec_parse_duration(s: Seq<char>) -> Option<u64> {
    let num = spec_trim_end_alpha(s);
    if !parses_as_u64(num) {
        None
    } else {
        let v = dec_val(numeric_body(num));
        let unit = spec_lower_char(s.last());
        let m: int = if unit == 'm' {
            60
        } else if unit == 'h' {
            3600
        } else {
            1
        };
        if v * m <= u64::MAX {
            Some((v * m) as u64)
        } else {
            None
        }
    }
}

/// A trimmed string is no longer than the original; an accepted count is
/// non-empty, so an accepted duration flag is non-empty too.
proof fn lemma_trim_end_alpha_len(s: Seq<char>)
    ensures
        spec_trim_end_alpha(s).len() <= s.len(),
    decreases s.len(),
{
    if s.len() > 0 && char_alphabetic(s.last()) {
        lemma_trim_end_alpha_len(s.drop_last());
    }
}

/// Parses a duration flag such as `30s`, `5m` or `1h` into seconds.
pub fn parse_duration(s: &str) -> (r: Result<u64, String>)
    ensures
        match spec_parse_duration(s@) {
            Some(v) => r matches Ok(x) && x == v,
            None => r matches Err(m) && m@ == "Invalid duration: "@ + s@,
        },
{
    let n = s.unicode_len();
    let num = trim_end_alphabetic(s);
    let parsed = parse_u64(num);
    proof {
        lemma_trim_end_alpha_len(s@);
    }
    match parsed {
        Some(v) => {
            let unit = lower_char(s.get_char(n - 1));
            let total: Option<u64> = if unit == 'm' {
                v.checked_mul(60)
            } else if unit == 'h' {
                v.checked_mul(3600)
            } else {
                Some(v)
            };
            match total {
                Some(t) => Ok(t),
                None => {
                    let mut m = String::from_str("Invalid duration: ");
                    m.append(s);
                    Err(m)
                },
            }
        },
        None => {
            let mut m = String::from_str("Invalid duration: ");
            m.append(s);
            Err(m)
        },
    }
}

} // verus!
