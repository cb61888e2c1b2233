use std::io;

use client_error::{Error, ErrorKind};
use futures_channel::mpsc;
use trust_dns_proto::error::{DnsSecError, DnsSecErrorKind, ProtoError, ProtoErrorKind};

fn full_send_error() -> mpsc::SendError {
    let (mut tx, _rx) = mpsc::channel::<u8>(0);
    tx.try_send(1).unwrap();
    tx.try_send(2).unwrap_err().into_send_error()
}

fn disconnected_send_error() -> mpsc::SendError {
    let (mut tx, rx) = mpsc::channel::<u8>(0);
    drop(rx);
    tx.try_send(1).unwrap_err().into_send_error()
}

#[test]
fn test_conversion() {
    let io_error = io::Error::new(io::ErrorKind::TimedOut, "mock timeout");

    let error = Error::from(io_error);

    match *error.kind() {
        ErrorKind::Timeout => (),
        _ => panic!("incorrect type: {}", error.to_string()),
    }
}

#[test]
fn io_error_other_than_timeout_is_wrapped() {
    let error = Error::from(io::Error::new(io::ErrorKind::NotFound, "missing"));
    match error.kind() {
        ErrorKind::Io(e) => assert_eq!(e.kind(), io::ErrorKind::NotFound),
        _ => panic!("expected an io error"),
    }
    assert_eq!(error.kind().to_string(), "io error");
}

#[test]
fn proto_timeout_becomes_timeout() {
    let error = Error::from(ProtoError::from(ProtoErrorKind::Timeout));
    assert!(matches!(error.kind(), ErrorKind::Timeout));
    assert_eq!(error.kind().to_string(), "request timed out");
}

#[test]
fn proto_error_other_than_timeout_is_wrapped() {
    let error = Error::from(ProtoError::from(ProtoErrorKind::Busy));
    assert!(matches!(error.kind(), ErrorKind::Protocol(_)));
    assert_eq!(error.kind().to_string(), "proto error");
}

#[test]
fn security_timeout_becomes_timeout() {
    let error = Error::from(DnsSecError::from(DnsSecErrorKind::Timeout));
    assert!(matches!(error.kind(), ErrorKind::Timeout));
}

#[test]
fn security_error_other_than_timeout_is_wrapped() {
    let error = Error::from(DnsSecError::from("bad signature"));
    assert!(matches!(error.kind(), ErrorKind::Security(_)));
    assert_eq!(error.kind().to_string(), "security error");
}

#[test]
fn nested_timeout_is_not_unwrapped() {
    let timed_out = io::Error::new(io::ErrorKind::TimedOut, "deep");
    let error = Error::from(ProtoError::from(ProtoErrorKind::Io(timed_out)));
    assert!(matches!(error.kind(), ErrorKind::Protocol(_)));
}

#[test]
fn messages_are_never_timeouts() {
    let error = Error::from("timeout");
    assert!(matches!(error.kind(), ErrorKind::Message("timeout")));
    assert_eq!(error.kind().to_string(), "timeout");
    let error = Error::from(String::from("timeout"));
    match error.kind() {
        ErrorKind::Msg(m) => assert_eq!(m, "timeout"),
        _ => panic!("expected an owned message"),
    }
}

#[test]
fn send_error_is_wrapped_and_displayed() {
    let error = Error::from(full_send_error());
    assert!(matches!(error.kind(), ErrorKind::SendError(_)));
    assert_eq!(
        error.kind().to_string(),
        "error sending to queue: send failed because channel is full"
    );
    let error = Error::from(disconnected_send_error());
    assert_eq!(
        error.kind().to_string(),
        "error sending to queue: send failed because receiver is gone"
    );
}

#[test]
fn kind_converts_as_it_is() {
    let error = Error::from(ErrorKind::Msg("built".to_string()));
    assert!(error.to_string().starts_with("built"));
}

#[test]
fn timeout_round_trips_as_timed_out() {
    let error = Error::from(io::Error::new(io::ErrorKind::TimedOut, "late"));
    let io_error = error.into_io_error();
    assert_eq!(io_error.kind(), io::ErrorKind::TimedOut);
    assert!(io_error.to_string().starts_with("request timed out"));
    assert!(io_error.get_ref().is_some());
    let back = Error::from(io_error);
    assert!(matches!(back.kind(), ErrorKind::Timeout));
}

#[test]
fn other_kinds_round_trip_as_other() {
    let cases = vec![
        Error::from("fixed"),
        Error::from(String::from("owned")),
        Error::from(io::Error::new(io::ErrorKind::NotFound, "missing")),
        Error::from(ProtoError::from("bad")),
        Error::from(DnsSecError::from("bad")),
        Error::from(full_send_error()),
    ];
    for error in cases {
        let text = error.to_string();
        let io_error: io::Error = io::Error::from(error);
        assert_eq!(io_error.kind(), io::ErrorKind::Other);
        assert!(io_error.get_ref().is_some());
        assert_eq!(io_error.to_string(), text);
    }
}

#[test]
fn clone_of_io_keeps_only_the_kind() {
    let error = Error::from(io::Error::new(io::ErrorKind::NotFound, "some detail"));
    let copy = error.clone();
    match copy.kind() {
        ErrorKind::Io(e) => {
            assert_eq!(e.kind(), io::ErrorKind::NotFound);
            assert!(e.get_ref().is_none());
            assert!(!e.to_string().contains("some detail"));
        }
        _ => panic!("expected an io error"),
    }
}

#[test]
fn cloning_twice_keeps_display() {
    let cases = vec![
        Error::from("fixed"),
        Error::from(String::from("owned")),
        Error::from(ErrorKind::Timeout),
        Error::from(io::Error::new(io::ErrorKind::NotFound, "missing")),
        Error::from(ProtoError::from("bad")),
        Error::from(DnsSecError::from("bad")),
        Error::from(disconnected_send_error()),
    ];
    for error in cases {
        let once = error.clone();
        let twice = once.clone();
        assert_eq!(once.kind().to_string(), error.kind().to_string());
        assert_eq!(twice.kind().to_string(), error.kind().to_string());
    }
}

#[test]
fn display_is_not_empty() {
    let cases = vec![
        Error::from("x"),
        Error::from(ErrorKind::Timeout),
        Error::from(io::Error::new(io::ErrorKind::NotFound, "")),
        Error::from(ProtoError::from("")),
        Error::from(DnsSecError::from("")),
        Error::from(full_send_error()),
    ];
    for error in cases {
        assert!(!error.to_string().is_empty());
    }
}

#[test]
fn empty_message_displays_verbatim() {
    let error = Error::from("");
    assert_eq!(error.kind().to_string(), "");
}

#[test]
fn timeout_detail_is_the_error_text() {
    let error = Error::from(ErrorKind::Timeout);
    let text = error.to_string();
    let io_error: io::Error = io::Error::from(error);
    assert_eq!(io_error.kind(), io::ErrorKind::TimedOut);
    assert_eq!(io_error.get_ref().map(|d| d.to_string()), Some(text));
}

#[test]
fn clone_of_clone_keeps_io_kind() {
    let kind = ErrorKind::Io(io::Error::new(io::ErrorKind::NotFound, "missing file"));
    let once = kind.clone();
    let twice = once.clone();
    for k in [&once, &twice] {
        match k {
            ErrorKind::Io(y) => {
                assert_eq!(y.kind(), io::ErrorKind::NotFound);
                assert!(y.get_ref().is_none());
                assert!(!y.to_string().contains("missing file"));
            }
            _ => panic!("expected an io error"),
        }
    }
}
