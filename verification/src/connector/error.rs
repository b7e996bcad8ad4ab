//! Error types for `connector`: the classification a transport failure is
//! surfaced under.

use vstd::prelude::*;
use vstd::string::StringExecFns;

verus! {

/// Contains error type information for [`ConnectorError`].
#[derive(Clone, Copy, Debug, PartialEq, Eq, Structural)]
pub enum ConnectorErrorKind {
    ConnectionError,
    Unknown,
}

impl ConnectorErrorKind {
    /// The label this kind is displayed under.
    pub open spec fn spec_label(self) -> Seq<char> {
        match self {
            ConnectorErrorKind::ConnectionError => "ConnectionError"@,
            ConnectorErrorKind::Unknown => "Unknown"@,
        }
    }

    /// Readable label for this error kind.
    pub fn label(&self) -> (r: &'static str)
        ensures
            r@ == self.spec_label(),
    {
        match self {
            ConnectorErrorKind::ConnectionError => "ConnectionError",
            ConnectorErrorKind::Unknown => "Unknown",
        }
    }
}

/// Contains information regarding errors with `Connector` objects.
#[derive(Clone, Copy, Debug)]
pub struct ConnectorError {
    kind: ConnectorErrorKind,
    message: &'static str,
}

impl ConnectorError {
    /// The kind this error was classified under.
    pub closed spec fn spec_kind(self) -> ConnectorErrorKind {
        self.kind
    }

    /// The message this error carries.
    pub closed spec fn spec_message(self) -> Seq<char> {
        self.message@
    }

    /// Builds an error of the given kind carrying the given message.
    pub fn new(kind: ConnectorErrorKind, message: &'static str) -> (r: ConnectorError)
        ensures
            r.spec_kind() == kind,
            r.spec_message() == message@,
    {
        ConnectorError { kind, message }
    }

    /// The kind this error was classified under.
    pub fn kind(&self) -> (r: ConnectorErrorKind)
        ensures
            r == self.spec_kind(),
    {
        self.kind
    }

    /// The message this error carries.
    pub fn message(&self) -> (r: &'static str)
        ensures
            r@ == self.spec_message(),
    {
        self.message
    }

    /// Default rendering for a `ConnectorError`: the message, a space, then
    /// the kind's label.
    pub fn fmt_default(&self) -> (r: String)
        ensures
            r@ == self.spec_message() + " "@ + self.spec_kind().spec_label(),
    {
        let mut s = String::from_str(self.message);
        s.append(" ");
        s.append(self.kind.label());
        s
    }
}

} // verus!
