//! Errors of the bridge, and their text as the control surface reports it.
use vstd::prelude::*;
use vstd::string::StringExecFns;

verus! {

/// Error reported to the control surface, graded by severity.
#[derive(Debug, Clone, PartialEq)]
pub enum CccbError {
    MajorConnError(String),
    MinorConnError(String),
}

/// Text of a `CccbError`: its severity, then its message.
pub open spec fn cccb_text(e: CccbError) -> Seq<char> {
    match e {
        CccbError::MajorConnError(m) => "major error: "@ + m@,
        CccbError::MinorConnError(m) => "minor error: "@ + m@,
    }
}

impl CccbError {
    pub fn describe(&self) -> (r: String)
        ensures
            r@ == cccb_text(*self),
    {
        match self {
            CccbError::MajorConnError(m) => String::from_str("major error: ").concat(m.as_str()),
            CccbError::MinorConnError(m) => String::from_str("minor error: ").concat(m.as_str()),
        }
    }
}

/// Why a connection attempt, or one of its tasks, ended other than cleanly.
#[derive(Debug, Clone, PartialEq)]
pub enum ConnError {
    /// A connect call found the side already connecting or connected.
    AlreadyActive,
    /// The attempt was torn down deliberately.
    Cancelled,
    /// The transport failed, in the handshake or later.
    Transport(String),
    /// Every command identifier of the game connection has been used.
    IdsExhausted,
}

/// Text of a `ConnError`.
pub open spec fn error_text(e: ConnError) -> Seq<char> {
    match e {
        ConnError::AlreadyActive => "already connecting/connected"@,
        ConnError::Cancelled => "cancelled"@,
        ConnError::Transport(m) => m@,
        ConnError::IdsExhausted => "command identifiers exhausted"@,
    }
}

/// Whether an error leaves the side able to go on as before: a refused
/// connect and a deliberate teardown do.
pub open spec fn is_minor(e: ConnError) -> bool {
    e is AlreadyActive || e is Cancelled
}

impl ConnError {
    pub fn describe(&self) -> (r: String)
        ensures
            r@ == error_text(*self),
    {
        match self {
            ConnError::AlreadyActive => String::from_str("already connecting/connected"),
            ConnError::Cancelled => String::from_str("cancelled"),
            ConnError::Transport(m) => m.clone(),
            ConnError::IdsExhausted => String::from_str("command identifiers exhausted"),
        }
    }

    /// The error as reported to the control surface, graded by severity.
    pub fn to_report(&self) -> (r: CccbError)
        ensures
            is_minor(*self) ==> r is MinorConnError,
            !is_minor(*self) ==> r is MajorConnError,
            match r {
                CccbError::MajorConnError(m) => m@ == error_text(*self),
                CccbError::MinorConnError(m) => m@ == error_text(*self),
            },
    {
        let text = self.describe();
        match self {
            ConnError::AlreadyActive | ConnError::Cancelled => CccbError::MinorConnError(text),
            _ => CccbError::MajorConnError(text),
        }
    }
}

} // verus!
