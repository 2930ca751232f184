use ddc_brightness::{luminance_code, transport_result, Backend, Error, ErrorKind, Monitor, LUMINANCE};

#[test]
fn luminance_is_the_mccs_code() {
    assert_eq!(LUMINANCE, 0x10);
}

#[test]
fn missing_luminance_is_unsupported() {
    let m = Monitor::with_handle((), Backend::WinApi, None);
    let err = luminance_code(&m).unwrap_err();
    assert_eq!(err.kind(), ErrorKind::Unsupported);
    assert_eq!(err.to_string(), "This display doesn't support brightness operations");
}

#[test]
fn present_luminance_gives_its_code() {
    let m = Monitor::with_handle((), Backend::Nvapi, Some(LUMINANCE));
    assert_eq!(luminance_code(&m).unwrap(), 0x10);
}

#[test]
fn with_handle_keeps_its_parts() {
    let m = Monitor::with_handle(7u8, Backend::MacOS, Some(0x10));
    assert_eq!(m.display, 7);
    assert_eq!(m.backend, Backend::MacOS);
    assert_eq!(m.luminance, Some(0x10));
}

#[test]
fn transport_failure_is_timed_out() {
    let r: Result<u16, Error> = transport_result(Err(String::from("no answer from the display")));
    let err = r.unwrap_err();
    assert_eq!(err.kind, ErrorKind::TimedOut);
    assert_eq!(err.message, "no answer from the display");
}

#[test]
fn transport_success_is_passed_through() {
    let r = transport_result::<u16>(Ok(40));
    assert_eq!(r.unwrap(), 40);
    let unit = transport_result::<()>(Ok(()));
    assert!(unit.is_ok());
}

#[test]
fn error_new_keeps_kind_and_message() {
    let e = Error::new(ErrorKind::TimedOut, String::from("late"));
    assert_eq!(e.kind(), ErrorKind::TimedOut);
    assert_eq!(e.to_string(), "late");
}
