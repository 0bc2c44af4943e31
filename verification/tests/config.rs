use sockfw::conf::FwConf;
use sockfw::num::{parse_decimal, parse_u64, parse_usize};
use sockfw::proto::common::{ready_or_none, span, StreamConf};
use sockfw::proto::tcp::TcpErr;
use sockfw::proto::unix::{UnixConnector, UnixErr};
use sockfw::{FwConfError, FwError};
use std::io::{Error as IoError, ErrorKind};
use std::time::Duration;

fn fault(r: Result<FwConf, FwConfError>) -> String {
    match r {
        Err(FwConfError::Str(text)) => text,
        Err(other) => panic!("{:?}", other),
        Ok(_) => panic!("no fault"),
    }
}

#[test]
fn decimal_reads_digits() {
    assert_eq!(parse_u64("0"), Some(0));
    assert_eq!(parse_u64("5000"), Some(5000));
    assert_eq!(parse_u64("007"), Some(7));
    assert_eq!(parse_u64("18446744073709551615"), Some(u64::MAX));
    assert_eq!(parse_usize("8192"), Some(8192));
    assert_eq!(parse_usize(&usize::MAX.to_string()), Some(usize::MAX));
}

#[test]
fn decimal_takes_one_plus_sign() {
    assert_eq!(parse_u64("+12"), Some(12));
    assert_eq!(parse_u64("++12"), None);
    assert_eq!(parse_u64("+"), None);
    assert_eq!(parse_u64("1+2"), None);
}

#[test]
fn decimal_refuses_what_is_no_number() {
    for text in ["", " ", "-1", "-0", "12a", "a12", "1 2", " 12", "12 ", "0x10", "1.5", "١٢"] {
        assert_eq!(parse_u64(text), None, "{:?}", text);
        assert_eq!(parse_usize(text), None, "{:?}", text);
    }
}

#[test]
fn decimal_refuses_what_does_not_fit() {
    assert_eq!(parse_u64("18446744073709551616"), None);
    assert_eq!(parse_u64("99999999999999999999999999"), None);
    assert_eq!(parse_decimal(b"255", 255), Some(255));
    assert_eq!(parse_decimal(b"256", 255), None);
    assert_eq!(parse_decimal(b"7", 5), None);
    assert_eq!(parse_decimal(b"5", 5), Some(5));
    assert_eq!(parse_decimal(b"0", 0), Some(0));
    assert_eq!(parse_decimal(b"1", 0), None);
}

#[test]
fn decimal_agrees_with_std() {
    for text in ["0", "1", "+1", "-1", "", "+", "65536", "00000000000000000000001", "18446744073709551615", "18446744073709551616", "12x"] {
        assert_eq!(parse_u64(text), text.parse::<u64>().ok(), "{:?}", text);
        assert_eq!(parse_usize(text), text.parse::<usize>().ok(), "{:?}", text);
    }
}

#[test]
fn conf_of_the_defaults() {
    let conf = FwConf::parse(Some("2048"), Some("8192"), Some("2048")).ok().expect("a configuration");
    assert_eq!(conf.event_buffer_size(), 2048);
    assert_eq!(conf.client_buffer_size(), 8192);
    assert_eq!(conf.capacity(), 2048);
}

#[test]
fn conf_keeps_each_size_in_its_place() {
    let conf = FwConf::parse(Some("1"), Some("2"), Some("3")).ok().expect("a configuration");
    assert_eq!(conf.event_buffer_size(), 1);
    assert_eq!(conf.client_buffer_size(), 2);
    assert_eq!(conf.capacity(), 3);
    let conf = FwConf::new(3, 1, 2);
    assert_eq!(conf.event_buffer_size(), 1);
    assert_eq!(conf.client_buffer_size(), 2);
    assert_eq!(conf.capacity(), 3);
}

#[test]
fn conf_names_the_missing_option() {
    assert_eq!(fault(FwConf::parse(None, Some("2"), Some("3"))), "event_buffer_size");
    assert_eq!(fault(FwConf::parse(Some("1"), None, Some("3"))), "client_buffer_size");
    assert_eq!(fault(FwConf::parse(Some("1"), Some("2"), None)), "capacity");
    assert_eq!(fault(FwConf::parse(None, None, None)), "event_buffer_size");
    assert_eq!(fault(FwConf::parse(Some("1"), None, None)), "client_buffer_size");
}

#[test]
fn conf_names_the_option_that_is_no_number() {
    assert_eq!(fault(FwConf::parse(Some("x"), Some("2"), Some("3"))), "event_buffer_size");
    assert_eq!(fault(FwConf::parse(Some("1"), Some("-2"), Some("3"))), "client_buffer_size");
    assert_eq!(fault(FwConf::parse(Some("1"), Some("2"), Some(""))), "capacity");
    assert_eq!(fault(FwConf::parse(Some("x"), Some("y"), Some("z"))), "event_buffer_size");
}

#[test]
fn conf_looks_for_missing_options_first() {
    assert_eq!(fault(FwConf::parse(Some("x"), Some("2"), None)), "capacity");
    assert_eq!(fault(FwConf::parse(Some("x"), None, Some("z"))), "client_buffer_size");
}

#[test]
fn stream_conf_of_the_defaults() {
    let conf = StreamConf::parse(Some("5000"), Some("2000")).expect("settings");
    assert_eq!(conf.keepalive, Some(Duration::from_millis(5000)));
    assert_eq!(conf.linger, Some(Duration::from_millis(2000)));
}

#[test]
fn stream_conf_zero_disables() {
    let conf = StreamConf::parse(Some("0"), Some("250")).expect("settings");
    assert_eq!(conf.keepalive, None);
    assert_eq!(conf.linger, Some(Duration::from_millis(250)));
    let conf = StreamConf::parse(Some("1"), Some("0")).expect("settings");
    assert_eq!(conf.keepalive, Some(Duration::from_millis(1)));
    assert_eq!(conf.linger, None);
    let conf = StreamConf::parse(Some("000"), Some("+0")).expect("settings");
    assert_eq!(conf.keepalive, None);
    assert_eq!(conf.linger, None);
}

#[test]
fn stream_conf_says_what_is_wrong() {
    assert_eq!(StreamConf::parse(None, Some("1")).err(), Some("keepalive not found"));
    assert_eq!(StreamConf::parse(Some("x"), Some("1")).err(), Some("keepalive not int"));
    assert_eq!(StreamConf::parse(Some("1"), None).err(), Some("linger not found"));
    assert_eq!(StreamConf::parse(Some("1"), Some("-1")).err(), Some("linger not int"));
    assert_eq!(StreamConf::parse(None, None).err(), Some("keepalive not found"));
    assert_eq!(StreamConf::parse(Some("x"), None).err(), Some("keepalive not int"));
    assert_eq!(
        StreamConf::parse(Some("1"), Some("18446744073709551616")).err(),
        Some("linger not int")
    );
}

#[test]
fn span_is_none_for_zero() {
    assert_eq!(span(0), None);
    assert_eq!(span(1), Some(Duration::from_millis(1)));
    assert_eq!(span(5000), Some(Duration::from_secs(5)));
    assert_eq!(span(u64::MAX), Some(Duration::from_millis(u64::MAX)));
}

#[test]
fn would_block_is_nothing_now() {
    let r: Result<Option<usize>, IoError> = ready_or_none(Ok(5));
    assert!(matches!(r, Ok(Some(5))));
    let r: Result<Option<usize>, IoError> = ready_or_none(Ok(0));
    assert!(matches!(r, Ok(Some(0))));
    let r: Result<Option<usize>, IoError> =
        ready_or_none(Err(IoError::new(ErrorKind::WouldBlock, "later")));
    assert!(matches!(r, Ok(None)));
    let r: Result<Option<usize>, IoError> =
        ready_or_none(Err(IoError::new(ErrorKind::ConnectionReset, "reset")));
    match r {
        Err(e) => assert_eq!(e.kind(), ErrorKind::ConnectionReset),
        other => panic!("{:?}", other),
    }
    let r: Result<Option<usize>, IoError> =
        ready_or_none(Err(IoError::new(ErrorKind::Interrupted, "signal")));
    assert!(r.is_err());
}

#[test]
fn unix_connector_keeps_its_path() {
    let c = UnixConnector::new("/tmp/echo.sock");
    assert_eq!(c.addr(), "/tmp/echo.sock");
    assert_eq!(UnixConnector::new("").addr(), "");
}

#[test]
fn unix_connector_needs_an_address() {
    let c = UnixConnector::parse(Some("/run/app.sock")).ok().expect("a connector");
    assert_eq!(c.addr(), "/run/app.sock");
    match UnixConnector::parse(None) {
        Err(FwError::Io(UnixErr::Str(text))) => assert_eq!(text, "address not found"),
        _ => panic!("no refusal"),
    }
}

#[test]
fn io_errors_convert_into_transport_errors() {
    let e = TcpErr::from(IoError::new(ErrorKind::BrokenPipe, "pipe"));
    assert!(matches!(e, TcpErr::Io(ref x) if x.kind() == ErrorKind::BrokenPipe));
    let e: FwError<TcpErr> = FwError::from(IoError::new(ErrorKind::BrokenPipe, "pipe"));
    assert!(matches!(e, FwError::Io(TcpErr::Io(ref x)) if x.kind() == ErrorKind::BrokenPipe));
    let e = UnixErr::from(IoError::new(ErrorKind::NotFound, "gone"));
    assert!(matches!(e, UnixErr::Io(ref x) if x.kind() == ErrorKind::NotFound));
    let e: FwError<UnixErr> = FwError::from(IoError::new(ErrorKind::NotFound, "gone"));
    assert!(matches!(e, FwError::Io(UnixErr::Io(ref x)) if x.kind() == ErrorKind::NotFound));
}
