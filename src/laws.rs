//! Laws that relate the conversions, the clones and the rendering of errors.

use crate::error::{kind_from_dnssec, kind_from_io, kind_from_proto, Error, ErrorKind};
use crate::foreign::{dnssec_timed_out, io_has_payload, io_kind, io_timed_out, proto_timed_out};
use trust_dns_proto::error::{DnsSecError, ProtoError};
use vstd::prelude::*;

verus! {

/// An error of the security, I/O or protocol layer that its own layer
/// classifies as a timeout becomes an error of kind `Timeout`.
pub proof fn lemma_foreign_timeout_becomes_timeout(
    sec: DnsSecError,
    io: std::io::Error,
    proto: ProtoError,
)
    ensures
        dnssec_timed_out(sec) ==> kind_from_dnssec(sec) is Timeout,
        io_timed_out(io) ==> kind_from_io(io) is Timeout,
        proto_timed_out(proto) ==> kind_from_proto(proto) is Timeout,
{
}

/// An error of the security, I/O or protocol layer that its own layer does not
/// classify as a timeout is wrapped, unchanged, in the variant of that layer,
/// and is never a `Timeout`.
pub proof fn lemma_foreign_non_timeout_is_wrapped(
    sec: DnsSecError,
    io: std::io::Error,
    proto: ProtoError,
)
    ensures
        !dnssec_timed_out(sec) ==> kind_from_dnssec(sec) == ErrorKind::Security(sec)
            && !(kind_from_dnssec(sec) is Timeout),
        !io_timed_out(io) ==> kind_from_io(io) == ErrorKind::Io(io) && !(kind_from_io(
            io,
        ) is Timeout),
        !proto_timed_out(proto) ==> kind_from_proto(proto) == ErrorKind::Protocol(proto)
            && !(kind_from_proto(proto) is Timeout),
{
}

/// An error turned into an I/O error (classified `TimedOut` exactly when the
/// error was a `Timeout`) and back again is a `Timeout` exactly when it was one
/// before.
pub proof fn lemma_io_round_trip(e: Error, io: std::io::Error)
    requires
        io_timed_out(io) == (e.spec_kind() is Timeout),
    ensures
        (kind_from_io(io) is Timeout) == (e.spec_kind() is Timeout),
{
}

/// Cloning an error twice keeps the text of its kind, and whether it holds a
/// backtrace; an error without a backtrace therefore displays the same as its
/// clones.
pub proof fn lemma_clone_twice_keeps_display(a: Error, b: Error, c: Error, s: Seq<char>)
    requires
        b.spec_kind().is_clone_of(a.spec_kind()),
        b.has_backtrace() == a.has_backtrace(),
        c.spec_kind().is_clone_of(b.spec_kind()),
        c.has_backtrace() == b.has_backtrace(),
    ensures
        b.spec_kind().text() == a.spec_kind().text(),
        c.spec_kind().text() == a.spec_kind().text(),
        c.has_backtrace() == a.has_backtrace(),
        !a.has_backtrace() ==> (a.displays_as(s) <==> b.displays_as(s)),
        !a.has_backtrace() ==> (a.displays_as(s) <==> c.displays_as(s)),
{
}

/// A clone of a clone is itself a clone of the original: cloning loses what it
/// loses (the inner error of a wrapped I/O error) once, and nothing more after.
pub proof fn lemma_clone_of_clone_loses_nothing_more(k: ErrorKind, c: ErrorKind, cc: ErrorKind)
    requires
        c.is_clone_of(k),
        cc.is_clone_of(c),
    ensures
        cc.is_clone_of(k),
        cc.text() == k.text(),
        k is Io ==> cc is Io && io_kind(cc->Io_0) == io_kind(k->Io_0) && !io_has_payload(
            cc->Io_0,
        ),
{
}

/// An error displays as a non-empty text, unless its kind is a message whose
/// text is empty.
pub proof fn lemma_display_not_empty(e: Error, s: Seq<char>)
    requires
        e.displays_as(s),
        e.spec_kind() is Message ==> e.spec_kind()->Message_0@.len() > 0,
        e.spec_kind() is Msg ==> e.spec_kind()->Msg_0@.len() > 0,
    ensures
        s.len() > 0,
{
    reveal_strlit("security error");
    reveal_strlit("io error");
    reveal_strlit("proto error");
    reveal_strlit("error sending to queue: ");
    reveal_strlit("request timed out");
    let t = e.spec_kind().text();
    assert(t.len() > 0);
    if e.has_backtrace() {
        assert(t.is_prefix_of(s));
    }
}

} // verus!
