//! Verified pieces of the single-host session: the address rendered for
//! name resolution, the diagnostics assembled from authentication failures,
//! and the cleanup of collected command output.
//!
//! The wording of these diagnostics matters: the retry classifier reads
//! them, so what they say decides whether a failed attempt is retried.
use vstd::prelude::*;

use crate::host::SshHost;
use crate::text::{spec_dec_str, spec_join, spec_trim_end, join_with, trim_end_str, u64_to_string};

verus! {

impl SshHost {
    /// The `hostname:port` form handed to name resolution.
    pub fn address(&self) -> (r: String)
        ensures
            r@ == self.hostname@ + ":"@ + spec_dec_str(self.port as nat),
    {
        let mut out = self.hostname.clone();
        out.append(":");
        let port = u64_to_string(self.port as u64);
        out.append(port.as_str());
        out
    }
}

/// The terminal authentication diagnostic: every method's failure, joined.
/// Its wording mentions neither a connection nor a handshake, so the
/// classifier treats it as fatal.
pub fn auth_failure_message(errors: &Vec<String>) -> (r: String)
    ensures
        r@ == "Authentication failed: "@ + spec_join(errors.deep_view(), "; "@),
{
    let mut out = String::from_str("Authentication failed: ");
    let joined = join_with(errors, "; ");
    out.append(joined.as_str());
    out
}

/// The diagnostic when every identity the agent offered was rejected.
pub fn agent_failure_message(errors: &Vec<String>) -> (r: String)
    ensures
        r@ == "No SSH agent identities worked: "@ + spec_join(errors.deep_view(), "; "@),
{
    let mut out = String::from_str("No SSH agent identities worked: ");
    let joined = join_with(errors, "; ");
    out.append(joined.as_str());
    out
}

/// Collected command output with its trailing whitespace stripped.
pub fn clean_output(raw: &str) -> (r: String)
    ensures
        r@ == spec_trim_end(raw@),
{
    String::from_str(trim_end_str(raw))
}

/// What `String::from_utf8_lossy` yields: the characters read from the
/// bytes, with every invalid sequence replaced.
pub uninterp spec fn lossy_decoded(bytes: Seq<u8>) -> Seq<char>;

/// Relies on `String::from_utf8_lossy`: decoding never fails — invalid
/// sequences are replaced with the replacement character — and valid UTF-8
/// comes through unchanged.
#[verifier::external_body]
fn decode_lossy(bytes: &Vec<u8>) -> (r: String)
    ensures
        r@ == lossy_decoded(bytes@),
        vstd::utf8::valid_utf8(bytes@) ==> vstd::utf8::encode_utf8(r@) == bytes@,
{
    String::from_utf8_lossy(bytes).into_owned()
}

/// The bytes a command wrote, as the record reports them: decoded
/// permissively — invalid sequences replaced, never fatal — and stripped of
/// trailing whitespace.
pub fn finish_output(bytes: &Vec<u8>) -> (r: String)
    ensures
        r@ == spec_trim_end(lossy_decoded(bytes@)),
{
    let decoded = decode_lossy(bytes);
    clean_output(decoded.as_str())
}

} // verus!
