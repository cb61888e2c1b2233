//! The outside error types that the envelope carries, and the few calls into
//! their crates that the classification needs.

use futures_channel::mpsc::SendError;
use trust_dns_proto::error::{DnsSecError, DnsSecErrorKind, ExtBacktrace, ProtoError, ProtoErrorKind};
use vstd::prelude::*;

verus! {

#[verifier::external_type_specification]
#[verifier::external_body]
pub struct ExIoError(std::io::Error);

#[verifier::external_type_specification]
#[verifier::external_body]
pub struct ExIoErrorKind(std::io::ErrorKind);

#[verifier::external_type_specification]
#[verifier::external_body]
pub struct ExProtoError(ProtoError);

#[verifier::external_type_specification]
#[verifier::external_body]
pub struct ExDnsSecError(DnsSecError);

#[verifier::external_type_specification]
#[verifier::external_body]
pub struct ExSendError(SendError);

#[verifier::external_type_specification]
#[verifier::external_body]
pub struct ExBacktrace(ExtBacktrace);

/// Whether `e.kind()` is `std::io::ErrorKind::TimedOut`.
pub uninterp spec fn io_timed_out(e: std::io::Error) -> bool;

/// Whether `e.kind()` is `std::io::ErrorKind::Other`.
pub uninterp spec fn io_other(e: std::io::Error) -> bool;

/// `e.kind()`: the classification of an I/O error.
pub uninterp spec fn io_kind(e: std::io::Error) -> std::io::ErrorKind;

/// `e.get_ref().is_some()`: whether the I/O error carries an inner error.
pub uninterp spec fn io_has_payload(e: std::io::Error) -> bool;

/// `e.get_ref().map(|d| d.to_string())`: the text of the inner error that the
/// I/O error carries, if any.
pub uninterp spec fn io_detail(e: std::io::Error) -> Option<Seq<char>>;

/// Whether `*e.kind()` is `ProtoErrorKind::Timeout`.
pub uninterp spec fn proto_timed_out(e: ProtoError) -> bool;

/// Whether `*e.kind()` is `DnsSecErrorKind::Timeout`.
pub uninterp spec fn dnssec_timed_out(e: DnsSecError) -> bool;

/// Whether `e.is_full()` holds: the channel was full rather than disconnected.
pub uninterp spec fn send_error_full(e: SendError) -> bool;

/// Relies on `std::io::Error::kind`: tells whether the error is classified as timed out.
#[verifier::external_body]
pub(crate) fn io_error_is_timed_out(e: &std::io::Error) -> (r: bool)
    ensures
        r == io_timed_out(*e),
{
    match e.kind() {
        std::io::ErrorKind::TimedOut => true,
        _ => false,
    }
}

/// Relies on `From<std::io::ErrorKind> for std::io::Error`: a new error that has
/// only the kind of `e` (as read by `std::io::Error::kind`), and no inner error.
#[verifier::external_body]
pub(crate) fn io_error_from_kind_of(e: &std::io::Error) -> (r: std::io::Error)
    ensures
        io_kind(r) == io_kind(*e),
        !io_has_payload(r),
        io_detail(r) is None,
        io_timed_out(r) == io_timed_out(*e),
        io_other(r) == io_other(*e),
{
    std::io::Error::from(e.kind())
}

/// Relies on `std::io::Error::new`: an error of kind `TimedOut` that carries `detail`.
#[verifier::external_body]
pub(crate) fn io_error_timed_out_with(detail: String) -> (r: std::io::Error)
    ensures
        io_timed_out(r),
        !io_other(r),
        io_has_payload(r),
        io_detail(r) == Some(detail@),
{
    std::io::Error::new(std::io::ErrorKind::TimedOut, detail)
}

/// Relies on `std::io::Error::new`: an error of kind `Other` that carries `detail`.
#[verifier::external_body]
pub(crate) fn io_error_other_with(detail: String) -> (r: std::io::Error)
    ensures
        io_other(r),
        !io_timed_out(r),
        io_has_payload(r),
        io_detail(r) == Some(detail@),
{
    std::io::Error::new(std::io::ErrorKind::Other, detail)
}

/// Relies on `ProtoError::kind`: tells whether the error is a protocol timeout.
#[verifier::external_body]
pub(crate) fn proto_error_is_timeout(e: &ProtoError) -> (r: bool)
    ensures
        r == proto_timed_out(*e),
{
    match *e.kind() {
        ProtoErrorKind::Timeout => true,
        _ => false,
    }
}

/// Relies on `Clone for ProtoError`, whose kind clones `Timeout` to `Timeout` and
/// every other kind to a kind other than `Timeout`.
#[verifier::external_body]
pub(crate) fn proto_error_clone(e: &ProtoError) -> (r: ProtoError)
    ensures
        proto_timed_out(r) == proto_timed_out(*e),
{
    e.clone()
}

/// Relies on `DnsSecError::kind`: tells whether the error is a security-layer timeout.
#[verifier::external_body]
pub(crate) fn dnssec_error_is_timeout(e: &DnsSecError) -> (r: bool)
    ensures
        r == dnssec_timed_out(*e),
{
    match *e.kind() {
        DnsSecErrorKind::Timeout => true,
        _ => false,
    }
}

/// Relies on `Clone for DnsSecError`, whose kind clones `Timeout` to `Timeout` and
/// every other kind to a kind other than `Timeout`.
#[verifier::external_body]
pub(crate) fn dnssec_error_clone(e: &DnsSecError) -> (r: DnsSecError)
    ensures
        dnssec_timed_out(r) == dnssec_timed_out(*e),
{
    e.clone()
}

/// Relies on `Display for SendError`, which writes one of two fixed sentences
/// depending on `SendError::is_full`.
#[verifier::external_body]
pub(crate) fn send_error_text(e: &SendError) -> (r: String)
    ensures
        send_error_full(*e) ==> r@ == "send failed because channel is full"@,
        !send_error_full(*e) ==> r@ == "send failed because receiver is gone"@,
{
    format!("{}", e)
}

/// Relies on the derived `Clone for SendError`, which copies its kind.
#[verifier::external_body]
pub(crate) fn send_error_clone(e: &SendError) -> (r: SendError)
    ensures
        send_error_full(r) == send_error_full(*e),
{
    e.clone()
}

/// Relies on `trust_dns_proto::error::ENABLE_BACKTRACE`: whether the environment
/// asks for backtraces. Nothing is promised of the answer.
#[verifier::external_body]
pub(crate) fn backtrace_enabled() -> (r: bool) {
    *trust_dns_proto::error::ENABLE_BACKTRACE
}

/// Relies on `Backtrace::new`: a capture of the current call stack.
#[verifier::external_body]
pub(crate) fn backtrace_capture() -> (r: ExtBacktrace) {
    ExtBacktrace::new()
}

/// Relies on `Debug for Backtrace`: the rendering of a captured call stack.
#[verifier::external_body]
pub(crate) fn backtrace_text(b: &ExtBacktrace) -> (r: String) {
    format!("{:?}", b)
}

/// Relies on `Clone for Backtrace`.
#[verifier::external_body]
pub(crate) fn backtrace_clone(b: &ExtBacktrace) -> (r: ExtBacktrace) {
    b.clone()
}

} // verus!
