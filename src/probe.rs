//! One throughput probe: its result, its errors, and the steps that drive it.
//!
//! A probe opens a context and queue on a device, allocates a device buffer,
//! times one blocking host-to-device write and one blocking device-to-host
//! read. The caller performs each step on the compute runtime and reports
//! its outcome to `Probe::advance`, which decides what comes next.
use crate::link_speed::{entry, is_nearest_key, lookup, LinkSpeed};
use crate::ratio::{round_mean, rounded_mean};
use vstd::prelude::*;

verus! {

/// Bytes in one buffer element (a 32-bit float).
pub const ELEMENT_BYTES: u64 = 4;

/// The largest buffer, in elements, whose size in bytes fits in 64 bits.
pub const MAX_ELEMENTS: u64 = 0x3fff_ffff_ffff_ffff;

/// The result of one probe: bytes moved each way and the time each
/// direction took, in nanoseconds. Throughputs are derived from these.
#[derive(Clone, Copy, Debug, PartialEq, Eq, Structural)]
pub struct Measurement {
    pub bytes: u64,
    pub h2d_nanos: u64,
    pub d2h_nanos: u64,
}

/// `bytes` moved in `nanos` nanoseconds, in MB/s, rounded down; zero when no
/// time was recorded.
pub open spec fn mbps(bytes: int, nanos: int) -> int {
    if nanos == 0 {
        0
    } else {
        bytes * 1000 / nanos
    }
}

/// Numerator and denominator of a throughput in GB/s (bytes per
/// nanosecond); zero when no time was recorded.
pub open spec fn gbps_ratio(bytes: int, nanos: int) -> (int, int) {
    if nanos == 0 {
        (0, 1)
    } else {
        (bytes, nanos)
    }
}

impl Measurement {
    /// The mean of the two throughputs in GB/s, rounded to whole GB/s.
    pub open spec fn average_gbps(self) -> int {
        let (n1, d1) = gbps_ratio(self.bytes as int, self.h2d_nanos as int);
        let (n2, d2) = gbps_ratio(self.bytes as int, self.d2h_nanos as int);
        rounded_mean(n1, d1, n2, d2)
    }

    /// A measurement with nothing recorded yet.
    pub fn zeroed() -> (r: Measurement)
        ensures
            r == (Measurement { bytes: 0, h2d_nanos: 0, d2h_nanos: 0 }),
    {
        Measurement { bytes: 0, h2d_nanos: 0, d2h_nanos: 0 }
    }

    /// Host-to-device throughput in MB/s, rounded down.
    pub fn h2d_mbps(&self) -> (r: u128)
        ensures
            r as int == mbps(self.bytes as int, self.h2d_nanos as int),
    {
        if self.h2d_nanos == 0 {
            0
        } else {
            (self.bytes as u128) * 1000 / (self.h2d_nanos as u128)
        }
    }

    /// Device-to-host throughput in MB/s, rounded down.
    pub fn d2h_mbps(&self) -> (r: u128)
        ensures
            r as int == mbps(self.bytes as int, self.d2h_nanos as int),
    {
        if self.d2h_nanos == 0 {
            0
        } else {
            (self.bytes as u128) * 1000 / (self.d2h_nanos as u128)
        }
    }

    /// The mean of the two throughputs, rounded to whole GB/s (halves up).
    pub fn average_gbps_rounded(&self) -> (r: u128)
        ensures
            r as int == self.average_gbps(),
    {
        let (n1, d1) = if self.h2d_nanos == 0 {
            (0u64, 1u64)
        } else {
            (self.bytes, self.h2d_nanos)
        };
        let (n2, d2) = if self.d2h_nanos == 0 {
            (0u64, 1u64)
        } else {
            (self.bytes, self.d2h_nanos)
        };
        round_mean(n1, d1, n2, d2)
    }

    /// The PCIe link that the measured throughput suggests.
    pub fn link_speed(&self) -> (r: LinkSpeed)
        ensures
            is_nearest_key(r.key as int, self.average_gbps()),
            r.configs@ == entry(r.key as int),
    {
        lookup(self.average_gbps_rounded())
    }
}

/// Text that the compute runtime gives for one of its error codes.
pub uninterp spec fn cl_error_text(code: i32) -> Seq<char>;

/// Relies on opencl3::error_codes::error_text: the name of an OpenCL error
/// code, a function of the code alone.
#[verifier::external_body]
fn error_text(code: i32) -> (r: &'static str)
    ensures
        r@ == cl_error_text(code),
{
    opencl3::error_codes::error_text(code)
}

/// Why a probe did not produce a measurement.
#[derive(Clone, Copy, Debug, PartialEq, Eq, Structural)]
pub enum ProbeError {
    /// The buffer would hold no element, or more bytes than 64 bits count.
    InvalidSize,
    /// No compute device is available.
    DeviceEnumeration,
    /// The context or command queue could not be created (runtime code).
    ContextCreation(i32),
    /// Allocating the buffer or a transfer failed (runtime code).
    Transfer(i32),
}

pub open spec fn invalid_size_text() -> Seq<char> {
    "invalid buffer size"@
}

pub open spec fn no_device_text() -> Seq<char> {
    "no GPU device found"@
}

impl ProbeError {
    /// The diagnostic text of the error; for runtime failures, the
    /// runtime's own name of its error code.
    pub fn message(&self) -> (r: &'static str)
        ensures
            r@ == match *self {
                ProbeError::InvalidSize => invalid_size_text(),
                ProbeError::DeviceEnumeration => no_device_text(),
                ProbeError::ContextCreation(code) => cl_error_text(code),
                ProbeError::Transfer(code) => cl_error_text(code),
            },
    {
        match *self {
            ProbeError::InvalidSize => "invalid buffer size",
            ProbeError::DeviceEnumeration => "no GPU device found",
            ProbeError::ContextCreation(code) => error_text(code),
            ProbeError::Transfer(code) => error_text(code),
        }
    }
}

/// Where a probe stands. The four steps come in this order; a probe ends
/// either `Finished` or `Failed`.
#[derive(Clone, Copy, Debug, PartialEq, Eq, Structural)]
pub enum Stage {
    /// Next: create the context and command queue.
    Opening,
    /// Next: allocate the device buffer.
    Allocating,
    /// Next: the timed host-to-device write.
    Writing,
    /// Next: the timed device-to-host read; the write took `h2d_nanos`.
    Reading { h2d_nanos: u64 },
    Finished(Measurement),
    Failed(ProbeError),
}

/// A probe of a buffer of `elements` 32-bit floats.
#[derive(Clone, Copy, Debug)]
pub struct Probe {
    pub elements: u64,
    pub stage: Stage,
}

/// The stage after `stage` when its step reports `outcome`: `Ok` with the
/// nanoseconds the step took, or `Err` with the runtime's error code.
pub open spec fn next_stage(elements: u64, stage: Stage, outcome: Result<u64, i32>) -> Stage {
    match (stage, outcome) {
        (Stage::Opening, Ok(_)) => Stage::Allocating,
        (Stage::Opening, Err(code)) => Stage::Failed(ProbeError::ContextCreation(code)),
        (Stage::Allocating, Ok(_)) => Stage::Writing,
        (Stage::Writing, Ok(t)) => Stage::Reading { h2d_nanos: t },
        (Stage::Reading { h2d_nanos }, Ok(t)) => Stage::Finished(
            Measurement {
                bytes: (elements * ELEMENT_BYTES) as u64,
                h2d_nanos,
                d2h_nanos: t,
            },
        ),
        (Stage::Allocating, Err(code)) => Stage::Failed(ProbeError::Transfer(code)),
        (Stage::Writing, Err(code)) => Stage::Failed(ProbeError::Transfer(code)),
        (Stage::Reading { .. }, Err(code)) => Stage::Failed(ProbeError::Transfer(code)),
        _ => stage,
    }
}

/// The stage reached from `stage` when its steps report `outcomes` in turn.
pub open spec fn run_stages(elements: u64, stage: Stage, outcomes: Seq<Result<u64, i32>>) -> Stage
    decreases outcomes.len(),
{
    if outcomes.len() == 0 {
        stage
    } else {
        run_stages(elements, next_stage(elements, stage, outcomes[0]), outcomes.drop_first())
    }
}

impl Probe {
    pub open spec fn wf(self) -> bool {
        1 <= self.elements <= MAX_ELEMENTS
    }

    /// Starts a probe of `elements` floats. A buffer of no element, or of
    /// more bytes than 64 bits count, is refused.
    pub fn new(elements: u64) -> (r: Result<Probe, ProbeError>)
        ensures
            (elements == 0 || elements > MAX_ELEMENTS) ==> r == Err::<Probe, ProbeError>(
                ProbeError::InvalidSize,
            ),
            (1 <= elements <= MAX_ELEMENTS) ==> r is Ok && r->Ok_0.elements == elements
                && r->Ok_0.stage == Stage::Opening,
    {
        if elements == 0 || elements > MAX_ELEMENTS {
            Err(ProbeError::InvalidSize)
        } else {
            Ok(Probe { elements, stage: Stage::Opening })
        }
    }

    /// Size of the buffer in bytes.
    pub fn bytes(&self) -> (r: u64)
        requires
            self.wf(),
        ensures
            r == self.elements * ELEMENT_BYTES,
    {
        self.elements * ELEMENT_BYTES
    }

    /// Records the outcome of the current step and moves to the next stage.
    /// A probe that has ended stays as it is.
    pub fn advance(&mut self, outcome: Result<u64, i32>)
        requires
            old(self).wf(),
        ensures
            final(self).elements == old(self).elements,
            final(self).stage == next_stage(old(self).elements, old(self).stage, outcome),
    {
        let next = match (self.stage, outcome) {
            (Stage::Opening, Ok(_)) => Stage::Allocating,
            (Stage::Opening, Err(code)) => Stage::Failed(ProbeError::ContextCreation(code)),
            (Stage::Allocating, Ok(_)) => Stage::Writing,
            (Stage::Writing, Ok(t)) => Stage::Reading { h2d_nanos: t },
            (Stage::Reading { h2d_nanos }, Ok(t)) => Stage::Finished(
                Measurement { bytes: self.bytes(), h2d_nanos, d2h_nanos: t },
            ),
            (Stage::Allocating, Err(code)) => Stage::Failed(ProbeError::Transfer(code)),
            (Stage::Writing, Err(code)) => Stage::Failed(ProbeError::Transfer(code)),
            (Stage::Reading { .. }, Err(code)) => Stage::Failed(ProbeError::Transfer(code)),
            (stage, _) => stage,
        };
        self.stage = next;
    }

    /// The probe's result once it has ended.
    pub fn result(&self) -> (r: Option<Result<Measurement, ProbeError>>)
        ensures
            r == match self.stage {
                Stage::Finished(m) => Some(Ok::<Measurement, ProbeError>(m)),
                Stage::Failed(e) => Some(Err::<Measurement, ProbeError>(e)),
                _ => None::<Result<Measurement, ProbeError>>,
            },
    {
        match self.stage {
            Stage::Finished(m) => Some(Ok(m)),
            Stage::Failed(e) => Some(Err(e)),
            _ => None,
        }
    }
}

proof fn lemma_ended_stays(elements: u64, stage: Stage, outcomes: Seq<Result<u64, i32>>)
    requires
        stage is Finished || stage is Failed,
    ensures
        run_stages(elements, stage, outcomes) == stage,
    decreases outcomes.len(),
{
    if outcomes.len() > 0 {
        lemma_ended_stays(elements, stage, outcomes.drop_first());
    }
}

/// A probe of a positive number `n` of elements has ended after its four
/// steps, whatever they report. If every step succeeded it holds a
/// measurement of `4 * n` bytes whose durations are exactly those that the
/// write and the read reported, so each throughput is the size over its
/// duration (zero for a step that the clock timed at zero). Otherwise it
/// failed with a context-creation error or a transfer error.
pub proof fn lemma_probe_ends(n: u64, outcomes: Seq<Result<u64, i32>>)
    requires
        1 <= n <= MAX_ELEMENTS,
        outcomes.len() == 4,
    ensures
        match run_stages(n, Stage::Opening, outcomes) {
            Stage::Finished(m) => {
                &&& forall|i: int| 0 <= i < 4 ==> #[trigger] outcomes[i] is Ok
                &&& m.bytes == n * 4
                &&& m.h2d_nanos == outcomes[2]->Ok_0
                &&& m.d2h_nanos == outcomes[3]->Ok_0
                &&& m.h2d_nanos > 0 ==> mbps(m.bytes as int, m.h2d_nanos as int) == (n * 4) * 1000
                    / (m.h2d_nanos as int)
                &&& m.d2h_nanos > 0 ==> mbps(m.bytes as int, m.d2h_nanos as int) == (n * 4) * 1000
                    / (m.d2h_nanos as int)
            },
            Stage::Failed(e) => {
                &&& e is ContextCreation || e is Transfer
                &&& exists|i: int| 0 <= i < 4 && #[trigger] outcomes[i] is Err
            },
            _ => false,
        },
{
    reveal_with_fuel(run_stages, 5);
    let s1 = next_stage(n, Stage::Opening, outcomes[0]);
    let r1 = outcomes.drop_first();
    let s2 = next_stage(n, s1, r1[0]);
    let r2 = r1.drop_first();
    let s3 = next_stage(n, s2, r2[0]);
    let r3 = r2.drop_first();
    let s4 = next_stage(n, s3, r3[0]);
    assert(r1[0] == outcomes[1] && r2[0] == outcomes[2] && r3[0] == outcomes[3]);
    assert(run_stages(n, Stage::Opening, outcomes) == s4);
    if outcomes[0] is Err {
        lemma_ended_stays(n, s1, r1);
    } else if outcomes[1] is Err {
        lemma_ended_stays(n, s2, r2);
    } else if outcomes[2] is Err {
        lemma_ended_stays(n, s3, r3);
    }
}

/// A probe whose context cannot be created fails with that error, and with
/// no measurement, whatever the later steps would report.
pub proof fn lemma_context_failure(n: u64, code: i32, later: Seq<Result<u64, i32>>)
    ensures
        run_stages(n, Stage::Opening, seq![Err::<u64, i32>(code)] + later) == Stage::Failed(
            ProbeError::ContextCreation(code),
        ),
{
    let outcomes = seq![Err::<u64, i32>(code)] + later;
    assert(outcomes.drop_first() =~= later);
    lemma_ended_stays(n, Stage::Failed(ProbeError::ContextCreation(code)), later);
}

} // verus!
