//! The state of an interactive session: the devices on offer, the chosen
//! device and data size, the last completed measurement, and whether a
//! probe is in flight.
//!
//! The front end reports what the user does and what a probe returned; the
//! session decides whether a probe starts and what is shown. At most one
//! probe is in flight, and a measurement is only ever replaced whole.
use crate::link_speed::{entry, is_nearest_key, LinkSpeed};
use crate::probe::{lemma_context_failure, run_stages, Measurement, ProbeError, Stage};
use vstd::prelude::*;

verus! {

/// Smallest data size, in MB, that a session offers.
pub const MIN_DATA_SIZE_MB: u64 = 1;

/// Largest data size, in MB, that a session offers.
pub const MAX_DATA_SIZE_MB: u64 = 10000;

/// Data size, in MB, of a new session.
pub const DEFAULT_DATA_SIZE_MB: u64 = 1024;

/// 32-bit floats in one MB (2^20 bytes).
pub const ELEMENTS_PER_MB: u64 = 262144;

/// A compute device as the session knows it: the runtime's identifier and
/// a display name. Two descriptors are the same device when their
/// identifiers are equal.
#[derive(Clone, Debug)]
pub struct DeviceInfo {
    pub id: u64,
    pub name: String,
}

impl PartialEq for DeviceInfo {
    fn eq(&self, other: &DeviceInfo) -> (r: bool)
        ensures
            r == (self.id == other.id),
    {
        self.id == other.id
    }
}

impl vstd::std_specs::cmp::PartialEqSpecImpl for DeviceInfo {
    open spec fn obeys_eq_spec() -> bool {
        true
    }

    open spec fn eq_spec(&self, other: &DeviceInfo) -> bool {
        self.id == other.id
    }
}

impl DeviceInfo {
    pub fn new(id: u64, name: String) -> (r: DeviceInfo)
        ensures
            r.id == id,
            r.name@ == name@,
    {
        DeviceInfo { id, name }
    }

    pub fn name(&self) -> (r: &str)
        ensures
            r@ == self.name@,
    {
        self.name.as_str()
    }
}

/// What the front end is to run: a probe of `elements` floats on the
/// device at index `device` of the session's list.
#[derive(Clone, Copy, Debug, PartialEq, Eq, Structural)]
pub struct ProbeRequest {
    pub device: usize,
    pub elements: u64,
}

pub struct Session {
    pub devices: Vec<DeviceInfo>,
    pub selected: Option<usize>,
    pub data_size_mb: u64,
    pub measurement: Measurement,
    pub in_flight: bool,
    pub error: Option<ProbeError>,
}

/// `mb` held to the range that a session offers.
pub open spec fn clamp_mb(mb: u64) -> u64 {
    if mb < MIN_DATA_SIZE_MB {
        MIN_DATA_SIZE_MB
    } else if mb > MAX_DATA_SIZE_MB {
        MAX_DATA_SIZE_MB
    } else {
        mb
    }
}

/// The index of the first of `devices` that is the same device as `device`.
fn position_of(devices: &Vec<DeviceInfo>, device: &DeviceInfo) -> (r: Option<usize>)
    ensures
        match r {
            Some(i) => {
                &&& i < devices.len()
                &&& devices@[i as int].id == device.id
                &&& forall|j: int| 0 <= j < i ==> #[trigger] devices@[j].id != device.id
            },
            None => forall|j: int| 0 <= j < devices.len() ==> #[trigger] devices@[j].id != device.id,
        },
{
    let mut i: usize = 0;
    while i < devices.len()
        invariant
            i <= devices.len(),
            forall|j: int| 0 <= j < i ==> #[trigger] devices@[j].id != device.id,
        decreases devices.len() - i,
    {
        if devices[i].eq(device) {
            return Some(i);
        }
        i += 1;
    }
    None
}

impl Session {
    pub open spec fn wf(self) -> bool {
        &&& MIN_DATA_SIZE_MB <= self.data_size_mb <= MAX_DATA_SIZE_MB
        &&& self.selected matches Some(i) ==> i < self.devices.len()
    }

    /// Buffer size, in floats, of the chosen data size.
    pub open spec fn elements_spec(self) -> u64 {
        (self.data_size_mb * ELEMENTS_PER_MB) as u64
    }

    /// The session after the user asks for a measurement, and the probe to
    /// run, if any. Nothing happens while a probe is in flight or when no
    /// device is chosen.
    pub open spec fn after_request(self) -> (Session, Option<ProbeRequest>) {
        if self.in_flight {
            (self, None)
        } else {
            match self.selected {
                None => (self, None),
                Some(i) => (
                    Session { in_flight: true, error: None, ..self },
                    Some(ProbeRequest { device: i, elements: self.elements_spec() }),
                ),
            }
        }
    }

    /// The session after the probe in flight returned `result`. A result
    /// with no probe in flight is ignored. A measurement replaces the last
    /// one whole; an error leaves it untouched.
    pub open spec fn after_completion(self, result: Result<Measurement, ProbeError>) -> Session {
        if !self.in_flight {
            self
        } else {
            match result {
                Ok(m) => Session { in_flight: false, measurement: m, error: None, ..self },
                Err(e) => Session { in_flight: false, error: Some(e), ..self },
            }
        }
    }

    /// A session over `devices`, with no device chosen, the default data
    /// size and nothing measured.
    pub fn new(devices: Vec<DeviceInfo>) -> (r: Session)
        ensures
            r.wf(),
            r.devices == devices,
            r.selected is None,
            r.data_size_mb == DEFAULT_DATA_SIZE_MB,
            r.measurement == (Measurement { bytes: 0, h2d_nanos: 0, d2h_nanos: 0 }),
            !r.in_flight,
            r.error is None,
    {
        Session {
            devices,
            selected: None,
            data_size_mb: DEFAULT_DATA_SIZE_MB,
            measurement: Measurement::zeroed(),
            in_flight: false,
            error: None,
        }
    }

    /// Sets the data size, held to the offered range.
    pub fn set_data_size(&mut self, mb: u64)
        requires
            old(self).wf(),
        ensures
            final(self).wf(),
            *final(self) == (Session { data_size_mb: clamp_mb(mb), ..*old(self) }),
    {
        self.data_size_mb = if mb < MIN_DATA_SIZE_MB {
            MIN_DATA_SIZE_MB
        } else if mb > MAX_DATA_SIZE_MB {
            MAX_DATA_SIZE_MB
        } else {
            mb
        };
    }

    /// Chooses the first listed device that is the same device as
    /// `device`; a device not in the list leaves the choice as it was.
    pub fn select(&mut self, device: &DeviceInfo)
        requires
            old(self).wf(),
        ensures
            final(self).wf(),
            final(self).devices == old(self).devices,
            final(self).data_size_mb == old(self).data_size_mb,
            final(self).measurement == old(self).measurement,
            final(self).in_flight == old(self).in_flight,
            final(self).error == old(self).error,
            (exists|j: int| 0 <= j < old(self).devices.len() && #[trigger] old(self).devices@[j].id
                == device.id) ==> {
                &&& final(self).selected is Some
                &&& old(self).devices@[final(self).selected->Some_0 as int].id == device.id
                &&& forall|j: int|
                    0 <= j < final(self).selected->Some_0 ==> #[trigger] old(self).devices@[j].id
                        != device.id
            },
            (forall|j: int| 0 <= j < old(self).devices.len() ==> #[trigger] old(self).devices@[j].id
                != device.id) ==> final(self).selected == old(self).selected,
    {
        if let Some(i) = position_of(&self.devices, device) {
            self.selected = Some(i);
        }
    }

    /// Buffer size, in floats, of the chosen data size.
    pub fn elements(&self) -> (r: u64)
        requires
            self.wf(),
        ensures
            r == self.elements_spec(),
            r == self.data_size_mb * ELEMENTS_PER_MB,
    {
        self.data_size_mb * ELEMENTS_PER_MB
    }

    /// The user asks for a measurement: starts a probe of the chosen
    /// device and size unless one is in flight or no device is chosen.
    pub fn request_measure(&mut self) -> (r: Option<ProbeRequest>)
        requires
            old(self).wf(),
        ensures
            final(self).wf(),
            (*final(self), r) == old(self).after_request(),
    {
        if self.in_flight {
            return None;
        }
        match self.selected {
            None => None,
            Some(i) => {
                let elements = self.elements();
                self.in_flight = true;
                self.error = None;
                Some(ProbeRequest { device: i, elements })
            },
        }
    }

    /// The probe in flight returned `result`.
    pub fn complete(&mut self, result: Result<Measurement, ProbeError>)
        requires
            old(self).wf(),
        ensures
            final(self).wf(),
            *final(self) == old(self).after_completion(result),
    {
        if !self.in_flight {
            return;
        }
        self.in_flight = false;
        match result {
            Ok(m) => {
                self.measurement = m;
                self.error = None;
            },
            Err(e) => {
                self.error = Some(e);
            },
        }
    }

    /// The PCIe link that the last measurement suggests.
    pub fn link_speed(&self) -> (r: LinkSpeed)
        ensures
            is_nearest_key(r.key as int, self.measurement.average_gbps()),
            r.configs@ == entry(r.key as int),
    {
        self.measurement.link_speed()
    }
}

/// While a probe is in flight, a second request starts no probe and
/// changes nothing. When the probe returns a measurement, that measurement
/// replaces the last one whole, and a new request can start a probe.
pub proof fn lemma_one_probe_in_flight(s: Session, m: Measurement)
    requires
        s.in_flight,
    ensures
        s.after_request() == (s, None::<ProbeRequest>),
        s.after_request().0.after_completion(Ok(m)).measurement == m,
        !s.after_completion(Ok(m)).in_flight,
{
}

/// A probe on a device whose context cannot be created ends in that error;
/// the session then shows the error and keeps its last measurement as it
/// was.
pub proof fn lemma_context_failure_keeps_measurement(
    s: Session,
    n: u64,
    code: i32,
    later: Seq<Result<u64, i32>>,
)
    requires
        s.in_flight,
    ensures
        ({
            let ended = run_stages(n, Stage::Opening, seq![Err::<u64, i32>(code)] + later);
            &&& ended == Stage::Failed(ProbeError::ContextCreation(code))
            &&& s.after_completion(Err(ProbeError::ContextCreation(code))).measurement
                == s.measurement
            &&& s.after_completion(Err(ProbeError::ContextCreation(code))).error == Some(
                ProbeError::ContextCreation(code),
            )
        }),
{
    lemma_context_failure(n, code, later);
}

} // verus!
