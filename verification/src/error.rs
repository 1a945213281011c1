//! The failures of the client, one kind per cause.

use vstd::prelude::*;
use vstd::string::StringExecFns;

verus! {

/// What went wrong, without the text.
#[derive(Clone, Copy, Debug, PartialEq, Eq, Structural)]
pub enum ErrorKind {
    /// No usable execution endpoint is configured.
    ConfigurationError,
    /// An execution endpoint could not be reached or its answer not decoded.
    UpstreamRpcError,
    /// A proof did not match, or the verified head needed to check it was missing.
    VerificationFailed,
    /// The filter id names no live filter.
    FilterNotFound,
    /// The server could not bind or its method tables could not be merged.
    ServerStartupError,
}

/// A failure of the client: its kind and the text shown to the caller.
#[derive(Clone, Debug, PartialEq, Eq)]
pub struct ClientError {
    pub kind: ErrorKind,
    pub message: String,
}

/// A failure as the contracts see it: its kind and its text.
pub struct Failure {
    pub kind: ErrorKind,
    pub text: Seq<char>,
}

impl View for ClientError {
    type V = Failure;

    open spec fn view(&self) -> Failure {
        Failure { kind: self.kind, text: self.message@ }
    }
}

/// Text of the failure raised when an endpoint is asked for and none is configured.
pub open spec fn no_endpoint_text() -> Seq<char> {
    "no execution RPCs provided"@
}

/// Text of the failure raised when a raw answer and its proof disagree.
pub open spec fn proof_mismatch_text() -> Seq<char> {
    "proof does not match the value returned by the execution endpoint"@
}

/// Text of the failure raised when no verified head is available.
pub open spec fn head_unavailable_text() -> Seq<char> {
    "verified head unavailable"@
}

/// Text of the failure raised when a filter id is unknown.
pub open spec fn filter_not_found_text() -> Seq<char> {
    "filter not found"@
}

/// Text of the failure raised when a server is started a second time.
pub open spec fn already_started_text() -> Seq<char> {
    "rpc server already started"@
}

impl ClientError {
    /// The text a caller sees for this failure.
    pub open spec fn description(&self) -> Seq<char> {
        self.message@
    }

    /// A failure of the given kind with the given text.
    pub fn new(kind: ErrorKind, message: String) -> (e: Self)
        ensures
            e.kind == kind,
            e.message == message,
    {
        ClientError { kind, message }
    }

    /// No execution endpoint is configured.
    pub fn configuration() -> (e: Self)
        ensures
            e.kind == ErrorKind::ConfigurationError,
            e.description() == no_endpoint_text(),
    {
        ClientError {
            kind: ErrorKind::ConfigurationError,
            message: String::from_str("no execution RPCs provided"),
        }
    }

    /// An execution endpoint failed; `detail` is what it reported.
    pub fn upstream(detail: String) -> (e: Self)
        ensures
            e.kind == ErrorKind::UpstreamRpcError,
            e.message == detail,
    {
        ClientError { kind: ErrorKind::UpstreamRpcError, message: detail }
    }

    /// The proof endpoint's value differs from the raw answer, or is not valid.
    pub fn proof_mismatch() -> (e: Self)
        ensures
            e.kind == ErrorKind::VerificationFailed,
            e.description() == proof_mismatch_text(),
    {
        ClientError {
            kind: ErrorKind::VerificationFailed,
            message: String::from_str(
                "proof does not match the value returned by the execution endpoint",
            ),
        }
    }

    /// The verified head that a check or a relative block tag needs is missing.
    pub fn head_unavailable() -> (e: Self)
        ensures
            e.kind == ErrorKind::VerificationFailed,
            e.description() == head_unavailable_text(),
    {
        ClientError {
            kind: ErrorKind::VerificationFailed,
            message: String::from_str("verified head unavailable"),
        }
    }

    /// The filter id names no live filter.
    pub fn filter_not_found() -> (e: Self)
        ensures
            e.kind == ErrorKind::FilterNotFound,
            e.description() == filter_not_found_text(),
    {
        ClientError {
            kind: ErrorKind::FilterNotFound,
            message: String::from_str("filter not found"),
        }
    }

    /// The server was started before.
    pub fn already_started() -> (e: Self)
        ensures
            e.kind == ErrorKind::ServerStartupError,
            e.description() == already_started_text(),
    {
        ClientError {
            kind: ErrorKind::ServerStartupError,
            message: String::from_str("rpc server already started"),
        }
    }

    /// The server could not be started; `detail` is what the listener or the
    /// method table reported.
    pub fn server_startup(detail: String) -> (e: Self)
        ensures
            e.kind == ErrorKind::ServerStartupError,
            e.message == detail,
    {
        ClientError { kind: ErrorKind::ServerStartupError, message: detail }
    }

    /// The text a caller sees for this failure, as an owned string.
    pub fn to_text(&self) -> (s: String)
        ensures
            s@ == self.description(),
    {
        self.message.clone()
    }
}

} // verus!
