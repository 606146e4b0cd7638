use gpu_throughput::probe::{Measurement, Probe, ProbeError, Stage, MAX_ELEMENTS};

fn run(elements: u64, outcomes: &[Result<u64, i32>]) -> Probe {
    let mut p = Probe::new(elements).unwrap();
    for o in outcomes {
        p.advance(*o);
    }
    p
}

#[test]
fn sizes_out_of_range_are_refused() {
    assert_eq!(Probe::new(0).unwrap_err(), ProbeError::InvalidSize);
    assert_eq!(Probe::new(MAX_ELEMENTS + 1).unwrap_err(), ProbeError::InvalidSize);
    let p = Probe::new(MAX_ELEMENTS).unwrap();
    assert_eq!(p.stage, Stage::Opening);
    assert_eq!(p.bytes(), u64::MAX - 3);
}

#[test]
fn successful_probe_measures_both_directions() {
    let n = 268_435_456u64; // 1 GiB of floats
    let p = run(n, &[Ok(5), Ok(7), Ok(500_000_000), Ok(250_000_000)]);
    let m = p.result().unwrap().unwrap();
    assert_eq!(m, Measurement { bytes: 1_073_741_824, h2d_nanos: 500_000_000, d2h_nanos: 250_000_000 });
    assert_eq!(m.h2d_mbps(), 2147);
    assert_eq!(m.d2h_mbps(), 4294);
    // (2.147 + 4.295) / 2 = 3.22 GB/s
    assert_eq!(m.average_gbps_rounded(), 3);
    // 3 is as near to 2 as to 4: the lower key wins
    assert_eq!(m.link_speed().key, 2);
}

#[test]
fn instant_steps_are_recorded_as_measured() {
    let m = run(1, &[Ok(0), Ok(0), Ok(0), Ok(3)]).result().unwrap().unwrap();
    assert_eq!(m, Measurement { bytes: 4, h2d_nanos: 0, d2h_nanos: 3 });
    assert_eq!(m.h2d_mbps(), 0);
    assert_eq!(m.d2h_mbps(), 1333);
    // (0 + 4/3) / 2 = 0.67 GB/s
    assert_eq!(m.average_gbps_rounded(), 1);
}

#[test]
fn context_failure_is_reported() {
    let p = run(16, &[Err(-6), Ok(1), Ok(1), Ok(1)]);
    assert_eq!(p.stage, Stage::Failed(ProbeError::ContextCreation(-6)));
    assert_eq!(p.result(), Some(Err(ProbeError::ContextCreation(-6))));
}

#[test]
fn transfer_failures_are_reported() {
    assert_eq!(run(16, &[Ok(1), Err(-4)]).result(), Some(Err(ProbeError::Transfer(-4))));
    assert_eq!(run(16, &[Ok(1), Ok(1), Err(-5)]).result(), Some(Err(ProbeError::Transfer(-5))));
    assert_eq!(run(16, &[Ok(1), Ok(1), Ok(9), Err(-36)]).result(), Some(Err(ProbeError::Transfer(-36))));
}

#[test]
fn unfinished_probe_has_no_result() {
    let p = run(16, &[Ok(1), Ok(1), Ok(40)]);
    assert_eq!(p.stage, Stage::Reading { h2d_nanos: 40 });
    assert_eq!(p.result(), None);
}

#[test]
fn ended_probe_stays_ended() {
    let p = run(2, &[Ok(1), Ok(1), Ok(10), Ok(20), Err(-5), Ok(3)]);
    assert_eq!(p.result(), Some(Ok(Measurement { bytes: 8, h2d_nanos: 10, d2h_nanos: 20 })));
}

#[test]
fn zeroed_measurement() {
    let m = Measurement::zeroed();
    assert_eq!(m.h2d_mbps(), 0);
    assert_eq!(m.d2h_mbps(), 0);
    assert_eq!(m.average_gbps_rounded(), 0);
    assert_eq!(m.link_speed().key, 1);
}

#[test]
fn error_messages() {
    assert_eq!(ProbeError::Transfer(-4).message(), "CL_MEM_OBJECT_ALLOCATION_FAILURE");
    assert_eq!(ProbeError::ContextCreation(-6).message(), "CL_OUT_OF_HOST_MEMORY");
    assert_eq!(ProbeError::InvalidSize.message(), "invalid buffer size");
    assert_eq!(ProbeError::DeviceEnumeration.message(), "no GPU device found");
}
