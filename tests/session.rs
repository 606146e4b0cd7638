use gpu_throughput::probe::{Measurement, ProbeError};
use gpu_throughput::session::{DeviceInfo, ProbeRequest, Session};

fn two_devices() -> Session {
    Session::new(vec![
        DeviceInfo::new(7, "gfx1030".to_string()),
        DeviceInfo::new(9, "gfx90a".to_string()),
    ])
}

#[test]
fn new_session_defaults() {
    let s = two_devices();
    assert_eq!(s.data_size_mb, 1024);
    assert_eq!(s.elements(), 268_435_456);
    assert_eq!(s.selected, None);
    assert!(!s.in_flight);
    assert_eq!(s.measurement, Measurement::zeroed());
    assert_eq!(s.link_speed().key, 1);
}

#[test]
fn devices_compare_by_identifier() {
    let a = DeviceInfo::new(3, "a".to_string());
    let b = DeviceInfo::new(3, "b".to_string());
    let c = DeviceInfo::new(4, "a".to_string());
    assert!(a == b);
    assert!(a != c);
    assert_eq!(b.name(), "b");
}

#[test]
fn selecting_devices() {
    let mut s = two_devices();
    s.select(&DeviceInfo::new(9, String::new()));
    assert_eq!(s.selected, Some(1));
    s.select(&DeviceInfo::new(42, String::new()));
    assert_eq!(s.selected, Some(1));
    s.select(&DeviceInfo::new(7, String::new()));
    assert_eq!(s.selected, Some(0));
}

#[test]
fn data_size_is_held_to_range() {
    let mut s = two_devices();
    s.set_data_size(0);
    assert_eq!(s.data_size_mb, 1);
    assert_eq!(s.elements(), 262_144);
    s.set_data_size(20_000);
    assert_eq!(s.data_size_mb, 10_000);
    s.set_data_size(512);
    assert_eq!(s.data_size_mb, 512);
}

#[test]
fn no_probe_without_a_device() {
    let mut s = two_devices();
    assert_eq!(s.request_measure(), None);
    assert!(!s.in_flight);
    let mut empty = Session::new(Vec::new());
    empty.select(&DeviceInfo::new(7, String::new()));
    assert_eq!(empty.request_measure(), None);
}

#[test]
fn second_request_while_in_flight_is_ignored() {
    let mut s = two_devices();
    s.select(&DeviceInfo::new(9, String::new()));
    s.set_data_size(1);
    assert_eq!(s.request_measure(), Some(ProbeRequest { device: 1, elements: 262_144 }));
    assert!(s.in_flight);
    assert_eq!(s.request_measure(), None);
    assert!(s.in_flight);
    let m = Measurement { bytes: 1_048_576, h2d_nanos: 100_000, d2h_nanos: 200_000 };
    s.complete(Ok(m));
    assert!(!s.in_flight);
    assert_eq!(s.measurement, m);
    assert_eq!(s.error, None);
    // a stray second completion changes nothing
    s.complete(Ok(Measurement { bytes: 1, h2d_nanos: 1, d2h_nanos: 1 }));
    assert_eq!(s.measurement, m);
}

#[test]
fn failed_probe_keeps_last_measurement() {
    let mut s = two_devices();
    s.select(&DeviceInfo::new(7, String::new()));
    s.request_measure().unwrap();
    let m = Measurement { bytes: 400, h2d_nanos: 100, d2h_nanos: 100 };
    s.complete(Ok(m));
    s.request_measure().unwrap();
    s.complete(Err(ProbeError::ContextCreation(-6)));
    assert_eq!(s.measurement, m);
    assert_eq!(s.error, Some(ProbeError::ContextCreation(-6)));
    assert!(!s.in_flight);
    // a new request clears the error
    s.request_measure().unwrap();
    assert_eq!(s.error, None);
}
