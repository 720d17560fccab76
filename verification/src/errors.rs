//! Fatal configuration errors, raised before any host is contacted.
use vstd::prelude::*;

verus! {

/// An error that aborts the whole run during setup; per-host failures during
/// execution are reported in the host's result record instead.
#[derive(Debug)]
pub enum SetupError {
    /// A raw host specification could not be parsed.
    InvalidHostSpec { message: String },
    /// The resolved execution list was empty: there is nothing to do.
    NoHosts,
}

impl SetupError {
    /// The diagnostic text for this error.
    pub fn message(&self) -> (r: String)
        ensures
            match self {
                SetupError::InvalidHostSpec { message } => r@ == message@,
                SetupError::NoHosts => r@ == "No hosts specified"@,
            },
    {
        match self {
            SetupError::InvalidHostSpec { message } => message.clone(),
            SetupError::NoHosts => String::from_str("No hosts specified"),
        }
    }
}

} // verus!
