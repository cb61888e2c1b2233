//! The error kinds, the envelope, and the conversions into and out of it.

use crate::foreign::{
    backtrace_capture, backtrace_clone, backtrace_enabled, backtrace_text, dnssec_error_clone,
    dnssec_error_is_timeout, dnssec_timed_out, io_error_from_kind_of, io_error_is_timed_out,
    io_detail, io_error_other_with, io_error_timed_out_with, io_has_payload, io_kind, io_other,
    io_timed_out, proto_error_clone,
    proto_error_is_timeout, proto_timed_out, send_error_clone, send_error_full, send_error_text,
};
use futures_channel::mpsc::SendError;
use trust_dns_proto::error::{DnsSecError, ExtBacktrace, ProtoError};
use vstd::prelude::*;

verus! {

/// The cause of an error: a message of the library's own, a timeout, or an
/// error of one of the layers that the client is built on.
#[derive(Debug)]
pub enum ErrorKind {
    /// A fixed message.
    Message(&'static str),
    /// A message built at run time.
    Msg(String),
    /// An error of the security (DNSSEC) layer that is not a timeout.
    Security(DnsSecError),
    /// An I/O error that is not a timeout.
    Io(std::io::Error),
    /// A protocol error that is not a timeout.
    Protocol(ProtoError),
    /// A message could not be handed to the internal queue.
    SendError(SendError),
    /// The operation exceeded its deadline, whichever layer noticed it.
    Timeout,
}


/// The result of every fallible operation of the client.
pub type Result<T> = std::result::Result<T, Error>;

/// The sentence that `Display for SendError` writes for `e`.
pub open spec fn send_error_detail(e: SendError) -> Seq<char> {
    if send_error_full(e) {
        "send failed because channel is full"@
    } else {
        "send failed because receiver is gone"@
    }
}

/// The kind that an I/O error becomes: a timeout, or the wrapped error.
pub open spec fn kind_from_io(e: std::io::Error) -> ErrorKind {
    if io_timed_out(e) {
        ErrorKind::Timeout
    } else {
        ErrorKind::Io(e)
    }
}

/// The kind that a protocol error becomes: a timeout, or the wrapped error.
pub open spec fn kind_from_proto(e: ProtoError) -> ErrorKind {
    if proto_timed_out(e) {
        ErrorKind::Timeout
    } else {
        ErrorKind::Protocol(e)
    }
}

/// The kind that a security-layer error becomes: a timeout, or the wrapped error.
pub open spec fn kind_from_dnssec(e: DnsSecError) -> ErrorKind {
    if dnssec_timed_out(e) {
        ErrorKind::Timeout
    } else {
        ErrorKind::Security(e)
    }
}

impl ErrorKind {
    /// The text that the kind displays as.
    pub open spec fn text(self) -> Seq<char> {
        match self {
            ErrorKind::Message(s) => s@,
            ErrorKind::Msg(s) => s@,
            ErrorKind::Security(_) => "security error"@,
            ErrorKind::Io(_) => "io error"@,
            ErrorKind::Protocol(_) => "proto error"@,
            ErrorKind::SendError(e) => "error sending to queue: "@ + send_error_detail(e),
            ErrorKind::Timeout => "request timed out"@,
        }
    }

    /// `self` is what cloning `orig` may give: the same variant and the same
    /// message; a wrapped error keeps its classification. A wrapped I/O error
    /// keeps its kind and nothing else: it carries no inner error.
    pub open spec fn is_clone_of(self, orig: ErrorKind) -> bool {
        match orig {
            ErrorKind::Message(s) => self == ErrorKind::Message(s),
            ErrorKind::Msg(s) => self is Msg && self->Msg_0@ == s@,
            ErrorKind::Security(e) => self is Security && dnssec_timed_out(self->Security_0)
                == dnssec_timed_out(e),
            ErrorKind::Io(e) => self is Io && io_kind(self->Io_0) == io_kind(e)
                && !io_has_payload(self->Io_0) && io_timed_out(self->Io_0) == io_timed_out(e)
                && io_other(self->Io_0) == io_other(e),
            ErrorKind::Protocol(e) => self is Protocol && proto_timed_out(self->Protocol_0)
                == proto_timed_out(e),
            ErrorKind::SendError(e) => self is SendError && send_error_full(self->SendError_0)
                == send_error_full(e),
            ErrorKind::Timeout => self is Timeout,
        }
    }

    /// Renders the kind: a message as it is, a wrapped error as a fixed phrase.
    pub fn to_string(&self) -> (r: String)
        ensures
            r@ == self.text(),
    {
        match self {
            ErrorKind::Message(s) => (*s).to_owned(),
            ErrorKind::Msg(s) => s.clone(),
            ErrorKind::Security(_) => String::from_str("security error"),
            ErrorKind::Io(_) => String::from_str("io error"),
            ErrorKind::Protocol(_) => String::from_str("proto error"),
            ErrorKind::SendError(e) => {
                let mut out = String::from_str("error sending to queue: ");
                let detail = send_error_text(e);
                out.append(detail.as_str());
                out
            },
            ErrorKind::Timeout => String::from_str("request timed out"),
        }
    }
}

impl Clone for ErrorKind {
    /// Clones the kind. A wrapped I/O error is rebuilt from its classification
    /// alone: its message is lost.
    fn clone(&self) -> (r: Self)
        ensures
            r.is_clone_of(*self),
    {
        match self {
            ErrorKind::Message(s) => ErrorKind::Message(s),
            ErrorKind::Msg(s) => ErrorKind::Msg(s.clone()),
            ErrorKind::Security(e) => ErrorKind::Security(dnssec_error_clone(e)),
            ErrorKind::Io(e) => ErrorKind::Io(io_error_from_kind_of(e)),
            ErrorKind::Protocol(e) => ErrorKind::Protocol(proto_error_clone(e)),
            ErrorKind::SendError(e) => ErrorKind::SendError(send_error_clone(e)),
            ErrorKind::Timeout => ErrorKind::Timeout,
        }
    }
}

/// The error of the client: its kind, and the call stack at the point where it
/// was made when the environment asks for backtraces.
#[derive(Debug)]
pub struct Error {
    kind: ErrorKind,
    backtrack: Option<ExtBacktrace>,
}

impl Error {
    /// The kind of the error.
    pub closed spec fn spec_kind(self) -> ErrorKind {
        self.kind
    }

    /// Whether a backtrace was captured when the error was made.
    pub closed spec fn has_backtrace(self) -> bool {
        self.backtrack is Some
    }

    /// Makes an error of the given kind, capturing a backtrace when enabled.
    fn capture(kind: ErrorKind) -> (r: Error)
        ensures
            r.spec_kind() == kind,
    {
        let backtrack = if backtrace_enabled() {
            Some(backtrace_capture())
        } else {
            None
        };
        Error { kind, backtrack }
    }

    /// Get the kind of the error.
    pub fn kind(&self) -> (r: &ErrorKind)
        ensures
            *r == self.spec_kind(),
    {
        &self.kind
    }

    /// `s` is what the error may display as: the text of its kind, followed by
    /// the rendering of the backtrace when one was captured.
    pub open spec fn displays_as(self, s: Seq<char>) -> bool {
        &&& !self.has_backtrace() ==> s == self.spec_kind().text()
        &&& self.has_backtrace() ==> self.spec_kind().text().is_prefix_of(s)
    }

    /// Renders the error: the text of its kind, followed by the backtrace if
    /// one was captured.
    pub fn to_string(&self) -> (r: String)
        ensures
            self.displays_as(r@),
    {
        let mut out = self.kind.to_string();
        match &self.backtrack {
            Some(b) => {
                let trace = backtrace_text(b);
                out.append(trace.as_str());
            },
            None => {},
        }
        out
    }

    /// Turns the error into an I/O error that carries its text: of kind
    /// `TimedOut` for a timeout, of kind `Other` for anything else.
    pub fn into_io_error(self) -> (r: std::io::Error)
        ensures
            io_timed_out(r) == (self.spec_kind() is Timeout),
            io_other(r) == !(self.spec_kind() is Timeout),
            io_has_payload(r),
            exists|t: Seq<char>| self.displays_as(t) && io_detail(r) == Some(t),
    {
        let detail = self.to_string();
        match self.kind {
            ErrorKind::Timeout => io_error_timed_out_with(detail),
            _ => io_error_other_with(detail),
        }
    }
}

impl Clone for Error {
    /// Clones the kind (see `ErrorKind::clone`) and the backtrace.
    fn clone(&self) -> (r: Self)
        ensures
            r.spec_kind().is_clone_of(self.spec_kind()),
            r.has_backtrace() == self.has_backtrace(),
    {
        let backtrack = match &self.backtrack {
            Some(b) => Some(backtrace_clone(b)),
            None => None,
        };
        Error { kind: self.kind.clone(), backtrack }
    }
}

/// The result of `from` depends on whether a backtrace is captured, so no
/// single value stands for it; the contract of `from` says what it is.
impl vstd::std_specs::convert::FromSpecImpl<ErrorKind> for Error {
    open spec fn obeys_from_spec() -> bool {
        false
    }

    open spec fn from_spec(v: ErrorKind) -> Self {
        arbitrary()
    }
}

impl From<ErrorKind> for Error {
    fn from(kind: ErrorKind) -> (r: Error)
        ensures
            r.spec_kind() == kind,
    {
        Error::capture(kind)
    }
}

/// The result of `from` depends on whether a backtrace is captured, so no
/// single value stands for it; the contract of `from` says what it is.
impl vstd::std_specs::convert::FromSpecImpl<&'static str> for Error {
    open spec fn obeys_from_spec() -> bool {
        false
    }

    open spec fn from_spec(v: &'static str) -> Self {
        arbitrary()
    }
}

impl From<&'static str> for Error {
    fn from(msg: &'static str) -> (r: Error)
        ensures
            r.spec_kind() == ErrorKind::Message(msg),
    {
        Error::capture(ErrorKind::Message(msg))
    }
}

/// The result of `from` depends on whether a backtrace is captured, so no
/// single value stands for it; the contract of `from` says what it is.
impl vstd::std_specs::convert::FromSpecImpl<String> for Error {
    open spec fn obeys_from_spec() -> bool {
        false
    }

    open spec fn from_spec(v: String) -> Self {
        arbitrary()
    }
}

impl From<String> for Error {
    fn from(msg: String) -> (r: Error)
        ensures
            r.spec_kind() == ErrorKind::Msg(msg),
    {
        Error::capture(ErrorKind::Msg(msg))
    }
}

/// The result of `from` depends on whether a backtrace is captured, so no
/// single value stands for it; the contract of `from` says what it is.
impl vstd::std_specs::convert::FromSpecImpl<SendError> for Error {
    open spec fn obeys_from_spec() -> bool {
        false
    }

    open spec fn from_spec(v: SendError) -> Self {
        arbitrary()
    }
}

impl From<SendError> for Error {
    fn from(e: SendError) -> (r: Error)
        ensures
            r.spec_kind() == ErrorKind::SendError(e),
    {
        Error::capture(ErrorKind::SendError(e))
    }
}

/// The result of `from` depends on whether a backtrace is captured, so no
/// single value stands for it; the contract of `from` says what it is.
impl vstd::std_specs::convert::FromSpecImpl<DnsSecError> for Error {
    open spec fn obeys_from_spec() -> bool {
        false
    }

    open spec fn from_spec(v: DnsSecError) -> Self {
        arbitrary()
    }
}

impl From<DnsSecError> for Error {
    /// A security-layer timeout becomes `Timeout`; any other such error is wrapped.
    fn from(e: DnsSecError) -> (r: Error)
        ensures
            r.spec_kind() == kind_from_dnssec(e),
    {
        if dnssec_error_is_timeout(&e) {
            Error::capture(ErrorKind::Timeout)
        } else {
            Error::capture(ErrorKind::Security(e))
        }
    }
}

/// The result of `from` depends on whether a backtrace is captured, so no
/// single value stands for it; the contract of `from` says what it is.
impl vstd::std_specs::convert::FromSpecImpl<std::io::Error> for Error {
    open spec fn obeys_from_spec() -> bool {
        false
    }

    open spec fn from_spec(v: std::io::Error) -> Self {
        arbitrary()
    }
}

impl From<std::io::Error> for Error {
    /// An I/O error of kind `TimedOut` becomes `Timeout`; any other is wrapped.
    fn from(e: std::io::Error) -> (r: Error)
        ensures
            r.spec_kind() == kind_from_io(e),
    {
        if io_error_is_timed_out(&e) {
            Error::capture(ErrorKind::Timeout)
        } else {
            Error::capture(ErrorKind::Io(e))
        }
    }
}

/// The result of `from` depends on whether a backtrace is captured, so no
/// single value stands for it; the contract of `from` says what it is.
impl vstd::std_specs::convert::FromSpecImpl<ProtoError> for Error {
    open spec fn obeys_from_spec() -> bool {
        false
    }

    open spec fn from_spec(v: ProtoError) -> Self {
        arbitrary()
    }
}

impl From<ProtoError> for Error {
    /// A protocol timeout becomes `Timeout`; any other protocol error is wrapped.
    fn from(e: ProtoError) -> (r: Error)
        ensures
            r.spec_kind() == kind_from_proto(e),
    {
        if proto_error_is_timeout(&e) {
            Error::capture(ErrorKind::Timeout)
        } else {
            Error::capture(ErrorKind::Protocol(e))
        }
    }
}

/// The result of `from` depends on whether a backtrace is captured, so no
/// single value stands for it; the contract of `from` says what it is.
impl vstd::std_specs::convert::FromSpecImpl<Error> for std::io::Error {
    open spec fn obeys_from_spec() -> bool {
        false
    }

    open spec fn from_spec(v: Error) -> Self {
        arbitrary()
    }
}

impl From<Error> for std::io::Error {
    /// See `Error::into_io_error`.
    fn from(e: Error) -> (r: std::io::Error)
        ensures
            io_timed_out(r) == (e.spec_kind() is Timeout),
            io_other(r) == !(e.spec_kind() is Timeout),
            io_has_payload(r),
            exists|t: Seq<char>| e.displays_as(t) && io_detail(r) == Some(t),
    {
        e.into_io_error()
    }
}

} // verus!
