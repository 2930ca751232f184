use ddc_brightness::{pick_display, pick_from, retain_displays, Backend, Error, ErrorKind, Monitor};

fn monitors(backends: &[Backend]) -> Vec<Monitor<u32>> {
    backends
        .iter()
        .enumerate()
        .map(|(i, b)| Monitor::with_handle(i as u32, *b, None))
        .collect()
}

fn labels(displays: &[Monitor<u32>]) -> Vec<u32> {
    displays.iter().map(|m| m.display).collect()
}

#[test]
fn pick_returns_display_at_each_valid_position() {
    let backends = [Backend::I2cDevice, Backend::WinApi, Backend::MacOS];
    for id in 0..backends.len() {
        let m = pick_display(monitors(&backends), id).unwrap();
        assert_eq!(m.display, id as u32);
        assert_eq!(m.backend, backends[id]);
    }
}

#[test]
fn pick_past_the_end_is_unsupported() {
    let err = match pick_display(monitors(&[Backend::WinApi, Backend::WinApi]), 2) {
        Ok(_) => panic!("expected an error"),
        Err(e) => e,
    };
    assert_eq!(err.kind(), ErrorKind::Unsupported);
    assert_eq!(err.to_string(), "There is no display with id: 2");
}

#[test]
fn pick_far_past_the_end_is_unsupported() {
    let err = match pick_display(monitors(&[Backend::Nvapi]), usize::MAX) {
        Ok(_) => panic!("expected an error"),
        Err(e) => e,
    };
    assert_eq!(err.kind, ErrorKind::Unsupported);
}

#[test]
fn pick_from_no_displays_is_unsupported() {
    let err = match pick_display(monitors(&[]), 0) {
        Ok(_) => panic!("expected an error"),
        Err(e) => e,
    };
    assert_eq!(err.kind, ErrorKind::Unsupported);
    assert_eq!(err.message, "There is no display with id: 0");
}

#[test]
fn without_nvapi_all_displays_are_kept_in_order() {
    let kept = retain_displays(monitors(&[
        Backend::WinApi,
        Backend::I2cDevice,
        Backend::WinApi,
        Backend::MacOS,
    ]));
    assert_eq!(labels(&kept), vec![0, 1, 2, 3]);
}

#[test]
fn with_nvapi_winapi_displays_are_dropped() {
    let kept = retain_displays(monitors(&[Backend::WinApi, Backend::Nvapi]));
    assert_eq!(labels(&kept), vec![1]);
    assert_eq!(kept[0].backend, Backend::Nvapi);
}

#[test]
fn with_nvapi_other_displays_stay_in_order() {
    let kept = retain_displays(monitors(&[
        Backend::I2cDevice,
        Backend::WinApi,
        Backend::Nvapi,
        Backend::WinApi,
        Backend::MacOS,
        Backend::Nvapi,
    ]));
    assert_eq!(labels(&kept), vec![0, 2, 4, 5]);
    assert!(kept.iter().all(|m| m.backend != Backend::WinApi));
}

#[test]
fn retaining_no_displays_gives_none() {
    assert!(retain_displays(monitors(&[])).is_empty());
}

#[test]
fn only_winapi_displays_are_all_kept() {
    let kept = retain_displays(monitors(&[Backend::WinApi, Backend::WinApi]));
    assert_eq!(labels(&kept), vec![0, 1]);
}

#[test]
fn retained_then_picked_skips_winapi_positions() {
    let kept = retain_displays(monitors(&[Backend::WinApi, Backend::Nvapi, Backend::Nvapi]));
    let m = pick_display(kept, 1).unwrap();
    assert_eq!(m.display, 2);
}

#[test]
fn listing_error_is_passed_on_unchanged() {
    let listing: Result<Vec<Monitor<u32>>, Error> =
        Err(Error::new(ErrorKind::TimedOut, String::from("capabilities did not arrive")));
    let err = match pick_from(listing, 0) {
        Ok(_) => panic!("expected an error"),
        Err(e) => e,
    };
    assert_eq!(err.kind, ErrorKind::TimedOut);
    assert_eq!(err.message, "capabilities did not arrive");
}

#[test]
fn listing_success_picks_by_position() {
    let m = pick_from(Ok(monitors(&[Backend::Nvapi, Backend::I2cDevice])), 1).unwrap();
    assert_eq!(m.display, 1);
    assert_eq!(m.backend, Backend::I2cDevice);
}

#[test]
fn listing_success_past_the_end_is_unsupported() {
    let err = match pick_from(Ok(monitors(&[Backend::Nvapi])), 1) {
        Ok(_) => panic!("expected an error"),
        Err(e) => e,
    };
    assert_eq!(err.kind, ErrorKind::Unsupported);
}
