//! The failures that may cross into the UI, and the shape they take there;
//! with them, the two values that the bridge reads or writes of the backend's
//! protocol: the empty request and the status of a failed call.

use vstd::prelude::*;
use vstd::string::*;
use crate::text::append;

verus! {

/// The four kinds of failure that the UI can be told about.
#[derive(Clone, Copy, PartialEq, Eq, Debug, Structural)]
pub enum ErrorKind {
    /// A local file or process operation failed.
    Io,
    /// Bytes could not be decoded as text.
    Utf8,
    /// The endpoint configuration is malformed.
    InvalidUri,
    /// The backend answered a call with a failure status.
    GrpcStatus,
}

/// The request that carries nothing. It is what the backend is asked with
/// where a call has no parameters.
#[derive(Clone, Copy, PartialEq, Eq, Debug, Structural)]
pub struct Empty;

/// What the bridge reads of a failure status that the backend reported.
#[derive(PartialEq, Eq, Debug)]
pub struct BackendStatus {
    /// The status message, as the backend sent it.
    pub message: String,
}

/// A failure of a forwarded command or of a feed. Each variant holds the
/// text in which the underlying failure described itself.
#[derive(PartialEq, Eq, Debug)]
pub enum Error {
    /// A local file or process operation failed.
    Io(String),
    /// Bytes could not be decoded as text.
    Utf8(String),
    /// The endpoint configuration is malformed.
    InvalidUri(String),
    /// The backend answered a call with a failure status; holds the status
    /// message.
    GrpcStatus(String),
}

/// An [`Error`] as it is delivered to the UI: a kind and a human-readable
/// message.
#[derive(PartialEq, Eq, Debug)]
pub struct ErrorEnvelope {
    pub kind: ErrorKind,
    pub message: String,
}

impl ErrorKind {
    /// The discriminant under which the kind is written at the UI boundary.
    pub open spec fn tag_text(self) -> Seq<char> {
        match self {
            ErrorKind::Io => "io"@,
            ErrorKind::Utf8 => "utf8"@,
            ErrorKind::InvalidUri => "invalidUri"@,
            ErrorKind::GrpcStatus => "grpcStatus"@,
        }
    }

    /// The discriminant under which the kind is written at the UI boundary.
    pub fn tag(self) -> (tag: &'static str)
        ensures
            tag@ == self.tag_text(),
    {
        match self {
            ErrorKind::Io => "io",
            ErrorKind::Utf8 => "utf8",
            ErrorKind::InvalidUri => "invalidUri",
            ErrorKind::GrpcStatus => "grpcStatus",
        }
    }
}

impl ErrorEnvelope {
    /// The envelope as it is written at the UI boundary: the discriminant
    /// under the name `kind`, then the message under the name `message`.
    pub open spec fn wire_fields(&self) -> Seq<(Seq<char>, Seq<char>)> {
        seq![("kind"@, self.kind.tag_text()), ("message"@, self.message@)]
    }

    /// The names and values of the fields that are written at the UI
    /// boundary, in order.
    pub fn fields(&self) -> (fields: Vec<(&'static str, String)>)
        ensures
            fields.deep_view() == self.wire_fields(),
    {
        let mut fields: Vec<(&'static str, String)> = Vec::new();
        fields.push(("kind", self.kind.tag().to_owned()));
        fields.push(("message", self.message.clone()));
        assert(fields.deep_view() =~= self.wire_fields());
        fields
    }
}

impl Error {
    /// The kind of the error.
    pub open spec fn spec_kind(&self) -> ErrorKind {
        match self {
            Error::Io(_) => ErrorKind::Io,
            Error::Utf8(_) => ErrorKind::Utf8,
            Error::InvalidUri(_) => ErrorKind::InvalidUri,
            Error::GrpcStatus(_) => ErrorKind::GrpcStatus,
        }
    }

    /// The text in which the underlying failure described itself.
    pub open spec fn detail(&self) -> Seq<char> {
        match self {
            Error::Io(s) => s@,
            Error::Utf8(s) => s@,
            Error::InvalidUri(s) => s@,
            Error::GrpcStatus(s) => s@,
        }
    }

    /// The human-readable message: the underlying failure's own text, which a
    /// decoding failure introduces with a fixed phrase.
    pub open spec fn text(&self) -> Seq<char> {
        match self {
            Error::Utf8(s) => "failed to parse as string: "@ + s@,
            _ => self.detail(),
        }
    }

    /// The kind of the error.
    #[verifier::when_used_as_spec(spec_kind)]
    pub fn kind(&self) -> (kind: ErrorKind)
        ensures
            kind == self.spec_kind(),
    {
        match self {
            Error::Io(_) => ErrorKind::Io,
            Error::Utf8(_) => ErrorKind::Utf8,
            Error::InvalidUri(_) => ErrorKind::InvalidUri,
            Error::GrpcStatus(_) => ErrorKind::GrpcStatus,
        }
    }

    /// The human-readable message of the error.
    pub fn message(&self) -> (message: String)
        ensures
            message@ == self.text(),
    {
        match self {
            Error::Io(s) => s.clone(),
            Error::Utf8(s) => append("failed to parse as string: ", s.as_str()),
            Error::InvalidUri(s) => s.clone(),
            Error::GrpcStatus(s) => s.clone(),
        }
    }

    /// The error in the shape in which it crosses into the UI: the kind
    /// is kept and the message is the error's human-readable message.
    pub fn serialize(&self) -> (envelope: ErrorEnvelope)
        ensures
            envelope.kind == self.kind(),
            envelope.message@ == self.text(),
    {
        ErrorEnvelope { kind: self.kind(), message: self.message() }
    }

    /// The error for a failure status that the backend reported.
    pub fn from_status(status: BackendStatus) -> (error: Error)
        ensures
            error == Error::GrpcStatus(status.message),
            error.kind() == ErrorKind::GrpcStatus,
            error.text() == status.message@,
    {
        Error::GrpcStatus(status.message)
    }
}

} // verus!
