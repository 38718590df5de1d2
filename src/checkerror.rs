use vstd::prelude::*;
use vstd::string::StringExecFns;

verus! {

/// Why one probe attempt did not succeed.
#[derive(Debug)]
pub enum CheckError {
    /// The TCP target could not be turned into a socket address.
    InvalidAddress(String),
    /// The TCP connection was refused or did not complete in time.
    ConnectionFailed(String),
    /// The HTTP request failed, or its answer was not a success status.
    RequestFailed(String),
}

/// The three kinds of probe failure, without their messages.
#[derive(Debug, Clone, Copy, PartialEq, Eq, Structural)]
pub enum FailureKind {
    InvalidAddress,
    ConnectionFailed,
    RequestFailed,
}

/// The text that a failure of each kind shows before its message.
pub open spec fn heading(e: CheckError) -> Seq<char> {
    match e {
        CheckError::InvalidAddress(_) => "Invalid address: "@,
        CheckError::ConnectionFailed(_) => "Connection failed: "@,
        CheckError::RequestFailed(_) => "Request failed: "@,
    }
}

impl CheckError {
    /// The message that the failure carries.
    pub open spec fn detail(&self) -> Seq<char> {
        match self {
            CheckError::InvalidAddress(m) => m@,
            CheckError::ConnectionFailed(m) => m@,
            CheckError::RequestFailed(m) => m@,
        }
    }

    /// The kind of the failure.
    pub open spec fn kind_of(&self) -> FailureKind {
        match self {
            CheckError::InvalidAddress(_) => FailureKind::InvalidAddress,
            CheckError::ConnectionFailed(_) => FailureKind::ConnectionFailed,
            CheckError::RequestFailed(_) => FailureKind::RequestFailed,
        }
    }

    /// The kind of the failure.
    pub fn kind(&self) -> (k: FailureKind)
        ensures
            k == self.kind_of(),
    {
        match self {
            CheckError::InvalidAddress(_) => FailureKind::InvalidAddress,
            CheckError::ConnectionFailed(_) => FailureKind::ConnectionFailed,
            CheckError::RequestFailed(_) => FailureKind::RequestFailed,
        }
    }

    /// The failure as one line of text: its heading, then its message.
    pub open spec fn text(&self) -> Seq<char> {
        heading(*self) + self.detail()
    }

    /// Renders the failure as one line of text.
    pub fn to_string(&self) -> (r: String)
        ensures
            r@ == self.text(),
    {
        match self {
            CheckError::InvalidAddress(m) => String::from_str("Invalid address: ").concat(m.as_str()),
            CheckError::ConnectionFailed(m) => String::from_str("Connection failed: ").concat(m.as_str()),
            CheckError::RequestFailed(m) => String::from_str("Request failed: ").concat(m.as_str()),
        }
    }
}

impl View for CheckError {
    type V = (FailureKind, Seq<char>);

    open spec fn view(&self) -> (FailureKind, Seq<char>) {
        (self.kind_of(), self.detail())
    }
}

/// What a probe's result says: `None` for a success, else the kind and the
/// message of the failure.
pub open spec fn verdict(r: Result<(), CheckError>) -> Option<(FailureKind, Seq<char>)> {
    match r {
        Ok(()) => None,
        Err(e) => Some(e@),
    }
}

} // verus!
