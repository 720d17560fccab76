//! Credential resolution: turning the operator's authentication hints and
//! the discoverable default keys into one concrete method for the whole run.
use vstd::prelude::*;

use crate::errors::SetupError;

verus! {

/// One concrete way to authenticate, active for the whole run.  The secret
/// of a `Password` is held only for authentication and must never be logged
/// or serialized; the embedding program is expected to move it into a wiping
/// container once resolution is done.  A certificate-bound key is
/// deliberately absent from this set: it would be one more public-key method
/// on a path, and nothing in the tool produces one.
#[derive(Debug)]
pub enum AuthMethod {
    Password(String),
    KeyFile(String),
    Agent,
}

/// The view of an authentication method.
pub enum SpecAuthMethod {
    Password(Seq<char>),
    KeyFile(Seq<char>),
    Agent,
}

impl View for AuthMethod {
    type V = SpecAuthMethod;

    open spec fn view(&self) -> SpecAuthMethod {
        match self {
            AuthMethod::Password(s) => SpecAuthMethod::Password(s@),
            AuthMethod::KeyFile(p) => SpecAuthMethod::KeyFile(p@),
            AuthMethod::Agent => SpecAuthMethod::Agent,
        }
    }
}

/// The resolved credentials: the login user and the method.
#[derive(Debug)]
pub struct SshAuth {
    pub user: String,
    pub method: AuthMethod,
}

/// The view of an `Option<String>`.
pub open spec fn opt_view(o: Option<String>) -> Option<Seq<char>> {
    match o {
        Some(s) => Some(s@),
        None => None,
    }
}

/// The first index whose candidate file exists, or the number of candidates
/// when none does.
pub open spec fn first_existing(exists: Seq<bool>, from: int) -> int
    recommends
        0 <= from <= exists.len(),
    decreases exists.len() - from,
{
    if from < 0 || from >= exists.len() {
        exists.len() as int
    } else if exists[from] {
        from
    } else {
        first_existing(exists, from + 1)
    }
}

/// The resolution rule, in priority order: an explicit password — supplied
/// or prompted — wins; otherwise an explicit private-key path; otherwise the
/// agent when its use is requested; otherwise the first default key that
/// exists on disk; and the agent as the last resort.
pub open spec fn spec_resolve_method(
    password: Option<Seq<char>>,
    key_file: Option<Seq<char>>,
    use_agent: bool,
    candidates: Seq<Seq<char>>,
    exists: Seq<bool>,
) -> SpecAuthMethod {
    if password is Some {
        SpecAuthMethod::Password(password->0)
    } else if key_file is Some {
        SpecAuthMethod::KeyFile(key_file->0)
    } else if use_agent {
        SpecAuthMethod::Agent
    } else {
        let i = first_existing(exists, 0);
        if i < candidates.len() {
            SpecAuthMethod::KeyFile(candidates[i])
        } else {
            SpecAuthMethod::Agent
        }
    }
}

/// The default private-key locations under a home directory, in the order
/// they are probed.
pub fn default_key_candidates(home: &str) -> (r: Vec<String>)
    ensures
        r.deep_view() =~= seq![
            home@ + "/.ssh/id_rsa"@,
            home@ + "/.ssh/id_ed25519"@,
            home@ + "/.ssh/id_ecdsa"@,
        ],
{
    let mut rsa = String::from_str(home);
    rsa.append("/.ssh/id_rsa");
    let mut ed = String::from_str(home);
    ed.append("/.ssh/id_ed25519");
    let mut ec = String::from_str(home);
    ec.append("/.ssh/id_ecdsa");
    let mut out: Vec<String> = Vec::new();
    out.push(rsa);
    out.push(ed);
    out.push(ec);
    out
}

impl SshAuth {
    /// Resolves the run's credentials.  The caller probes the filesystem:
    /// `exists[i]` says whether the candidate path `candidates[i]` names an
    /// existing file.  A fatal resolution failure is unreachable — the agent
    /// always stands as the last resort, so some method applies to every
    /// input — and the result is therefore always `Ok`.
    pub fn new(
        user: String,
        password: Option<String>,
        key_file: Option<String>,
        use_agent: bool,
        candidates: &Vec<String>,
        exists: &Vec<bool>,
    ) -> (r: Result<SshAuth, SetupError>)
        requires
            candidates@.len() == exists@.len(),
        ensures
            r matches Ok(a) && a.user@ == user@ && a.method@ == spec_resolve_method(
                opt_view(password),
                opt_view(key_file),
                use_agent,
                candidates.deep_view(),
                exists@,
            ),
    {
        let method = if let Some(pw) = password {
            AuthMethod::Password(pw)
        } else if let Some(key) = key_file {
            AuthMethod::KeyFile(key)
        } else if use_agent {
            AuthMethod::Agent
        } else {
            let mut i: usize = 0;
            let mut found: Option<usize> = None;
            while i < exists.len() && found.is_none()
                invariant
                    i <= exists@.len(),
                    candidates@.len() == exists@.len(),
                    match found {
                        Some(k) => first_existing(exists@, 0) == k && k == i && k
                            < exists@.len(),
                        None => first_existing(exists@, 0) == first_existing(exists@, i as int),
                    },
                decreases exists@.len() - i + (if found is None { 1int } else { 0 }),
            {
                if exists[i] {
                    found = Some(i);
                } else {
                    i += 1;
                }
            }
            match found {
                Some(k) => {
                    proof {
                        assert(candidates.deep_view()[k as int] == candidates@[k as int]@);
                    }
                    AuthMethod::KeyFile(candidates[k].clone())
                },
                None => {
                    proof {
                        assert(first_existing(exists@, exists@.len() as int)
                            == exists@.len() as int);
                    }
                    AuthMethod::Agent
                },
            }
        };
        Ok(SshAuth { user, method })
    }
}

} // verus!
