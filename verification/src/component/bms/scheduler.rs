//! The polling scheduler: what to write to the bus, phase by phase.
//!
//! A polling cycle has three phases. In the first every pack is asked for
//! its measurements, in the second for its status; in the third the
//! serial-number query goes out if the search interval has passed, and the
//! registry is held against its size at the cycle before. After each phase
//! the caller sleeps for the time that the phase gives. The scheduler never
//! waits and never sends: it says what to send and how long to wait.

use crate::can::{data_frame, frame_id_number, frame_payload};
use crate::component::bms::codec::{encode, spec_request_identifier, spec_request_payload};
use crate::component::bms::discovery::{Discovery, DiscoveryState};
use crate::component::bms::error::BmsError;
use crate::component::bms::registry::{
    spec_close_cycle, spec_observation, spec_observe, DeviceRegistry, EvictionPolicy, Observation,
    RegistryEntry,
};
use crate::component::bms::request::PollRequest;
use crate::component::bms::structs::{BatteryPack, BmsIndividualRequestFunction};
use socketcan::CanFrame;
use vstd::pervasive::unreached;
use vstd::prelude::*;

verus! {

/// The number of request classes, and so of the slices that the request
/// interval is cut into.
pub const REQUEST_CLASSES: u64 = 2;

/// The phases of a polling cycle, in their order.
#[derive(Clone, Copy, Debug, PartialEq, Eq, Structural)]
pub enum Phase {
    /// Every pack is asked for all its measurements.
    Measurements,
    /// Every pack is asked for its internal status.
    Status,
    /// The bus is searched for packs, if it is time, and the addresses are
    /// renewed, if the registry has changed in size.
    Discovery,
}

/// The intervals of the scheduler and its policy on packs that fall silent.
#[derive(Clone, Copy, Debug, PartialEq, Eq, Structural)]
pub struct SchedulerConfig {
    /// The length of one polling cycle, in milliseconds.
    pub request_interval_ms: u64,
    /// How long to wait between two serial-number queries, in milliseconds.
    pub search_interval_ms: u64,
    pub eviction: EvictionPolicy,
}

/// The scheduler with the registry that it polls.
#[derive(Debug)]
pub struct PollingScheduler {
    pub registry: DeviceRegistry,
    pub discovery: Discovery,
    pub config: SchedulerConfig,
    /// The phase that the next step runs.
    pub phase: Phase,
    /// When the last serial-number query went out, in milliseconds since the
    /// Unix epoch; zero before the first.
    pub last_search_ms: u64,
}

/// What one phase asks of the caller.
#[derive(Debug)]
pub struct StepOutput {
    /// The requests to send, in this order. One that the bus does not take
    /// is skipped; the others are still sent.
    pub requests: Vec<PollRequest>,
    /// How long to sleep before the next step, in milliseconds.
    pub sleep_ms: u64,
    /// A warning for the operator.
    pub warning: Option<BmsError>,
    /// How many packs were forgotten in this phase.
    pub evicted: usize,
}

/// The phase after `phase`.
pub open spec fn spec_next_phase(phase: Phase) -> Phase {
    match phase {
        Phase::Measurements => Phase::Status,
        Phase::Status => Phase::Discovery,
        Phase::Discovery => Phase::Measurements,
    }
}

/// The sleep after one of the two request phases: the request interval
/// divided by the number of request classes.
pub open spec fn spec_phase_slice(request_interval_ms: u64) -> u64 {
    request_interval_ms / REQUEST_CLASSES
}

/// The sleep after `phase`: one slice after each request phase, and after
/// the discovery phase what is left of the request interval.
pub open spec fn spec_phase_sleep(phase: Phase, request_interval_ms: u64) -> u64 {
    match phase {
        Phase::Measurements => spec_phase_slice(request_interval_ms),
        Phase::Status => spec_phase_slice(request_interval_ms),
        Phase::Discovery => (request_interval_ms - REQUEST_CLASSES * spec_phase_slice(
            request_interval_ms,
        )) as u64,
    }
}

/// The time from `last_ms` to `now_ms`; nothing if the clock has gone back.
pub open spec fn spec_elapsed(last_ms: u64, now_ms: u64) -> u64 {
    if now_ms >= last_ms {
        (now_ms - last_ms) as u64
    } else {
        0
    }
}

/// Whether a serial-number query is due at `now_ms`: more than the search
/// interval has passed since the last one.
pub open spec fn spec_search_due(last_search_ms: u64, search_interval_ms: u64, now_ms: u64) -> bool {
    spec_elapsed(last_search_ms, now_ms) > search_interval_ms
}

/// One request for `function` to each pack of `entries`, in their order.
pub open spec fn spec_poll_requests(
    entries: Seq<RegistryEntry>,
    function: BmsIndividualRequestFunction,
) -> Seq<PollRequest> {
    Seq::new(
        entries.len(),
        |i: int| PollRequest::Individual { serial_number: entries[i].pack.serial_number, function },
    )
}

/// The phase after `phase`.
#[verifier::when_used_as_spec(spec_next_phase)]
pub fn next_phase(phase: Phase) -> (next: Phase)
    ensures
        next == spec_next_phase(phase),
{
    match phase {
        Phase::Measurements => Phase::Status,
        Phase::Status => Phase::Discovery,
        Phase::Discovery => Phase::Measurements,
    }
}

/// The sleep after `phase`.
#[verifier::when_used_as_spec(spec_phase_sleep)]
pub fn phase_sleep(phase: Phase, request_interval_ms: u64) -> (sleep_ms: u64)
    ensures
        sleep_ms == spec_phase_sleep(phase, request_interval_ms),
{
    let slice = request_interval_ms / REQUEST_CLASSES;
    match phase {
        Phase::Measurements => slice,
        Phase::Status => slice,
        Phase::Discovery => request_interval_ms - REQUEST_CLASSES * slice,
    }
}

/// Whether a serial-number query is due at `now_ms`.
#[verifier::when_used_as_spec(spec_search_due)]
pub fn search_due(last_search_ms: u64, search_interval_ms: u64, now_ms: u64) -> (due: bool)
    ensures
        due == spec_search_due(last_search_ms, search_interval_ms, now_ms),
{
    let elapsed = if now_ms >= last_search_ms {
        now_ms - last_search_ms
    } else {
        0
    };
    elapsed > search_interval_ms
}

/// One request for `function` to each pack of the registry, in ascending
/// order of the serial numbers.
pub fn poll_requests(registry: &DeviceRegistry, function: BmsIndividualRequestFunction) -> (requests:
    Vec<PollRequest>)
    ensures
        requests@ == spec_poll_requests(registry@, function),
{
    let mut requests: Vec<PollRequest> = Vec::new();
    let count = registry.len();
    let mut i: usize = 0;
    while i < count
        invariant
            i <= count,
            count == registry@.len(),
            requests@.len() == i,
            forall|j: int|
                0 <= j < i ==> requests@[j] == #[trigger] spec_poll_requests(registry@, function)[j],
        decreases count - i,
    {
        match registry.entry(i) {
            Some(entry) => {
                requests.push(
                    PollRequest::Individual { serial_number: entry.pack.serial_number, function },
                );
            },
            None => {},
        }
        i += 1;
    }
    requests
}

/// The frame that carries a request.
///
/// The request is encoded and handed to the `socketcan` crate, which always
/// takes it: the identifier is a standard one and the payload has eight
/// bytes.
pub fn request_frame(request: PollRequest) -> (frame: CanFrame)
    ensures
        frame_id_number(frame) == spec_request_identifier(request),
        frame_payload(frame) == spec_request_payload(request),
{
    let encoded = encode(request);
    match data_frame(encoded.identifier, encoded.payload.as_slice()) {
        Some(frame) => frame,
        None => unreached(),
    }
}

/// The frames that carry `requests`, in the same order.
pub fn request_frames(requests: &Vec<PollRequest>) -> (frames: Vec<CanFrame>)
    ensures
        frames@.len() == requests@.len(),
        forall|i: int|
            0 <= i < requests@.len() ==> frame_id_number(#[trigger] frames@[i])
                == spec_request_identifier(requests@[i]) && frame_payload(frames@[i])
                == spec_request_payload(requests@[i]),
{
    let mut frames: Vec<CanFrame> = Vec::new();
    let mut i: usize = 0;
    while i < requests.len()
        invariant
            i <= requests@.len(),
            frames@.len() == i,
            forall|j: int|
                0 <= j < i ==> frame_id_number(#[trigger] frames@[j]) == spec_request_identifier(
                    requests@[j],
                ) && frame_payload(frames@[j]) == spec_request_payload(requests@[j]),
        decreases requests@.len() - i,
    {
        frames.push(request_frame(requests[i]));
        i += 1;
    }
    frames
}

/// The frames that ask every pack of the registry for `function`, in
/// ascending order of the serial numbers. An empty registry gives no frame.
pub fn request_all_packs(registry: &DeviceRegistry, function: BmsIndividualRequestFunction) -> (frames:
    Vec<CanFrame>)
    ensures
        frames@.len() == registry@.len(),
        forall|i: int|
            0 <= i < registry@.len() ==> frame_id_number(#[trigger] frames@[i])
                == spec_request_identifier(spec_poll_requests(registry@, function)[i])
                && frame_payload(frames@[i]) == spec_request_payload(
                spec_poll_requests(registry@, function)[i],
            ),
{
    let requests = poll_requests(registry, function);
    request_frames(&requests)
}

/// The frame of the serial-number query.
pub fn serial_number_query_frame() -> (frame: CanFrame)
    ensures
        frame_id_number(frame) == spec_request_identifier(PollRequest::SerialNumberQuery),
        frame_payload(frame) == spec_request_payload(PollRequest::SerialNumberQuery),
{
    request_frame(PollRequest::SerialNumberQuery)
}

impl PollingScheduler {
    /// Whether the scheduler's registry is in order.
    pub open spec fn wf(&self) -> bool {
        self.registry.wf()
    }

    /// Whether the serial-number query goes out in a discovery phase that
    /// runs at `now_ms`.
    pub open spec fn spec_due(&self, now_ms: u64) -> bool {
        spec_search_due(self.last_search_ms, self.config.search_interval_ms, now_ms)
    }

    /// The registry's contents in a discovery phase at `now_ms`, before the
    /// sizes are compared: one cycle older and thinned out if the query is
    /// due, else as they are.
    pub open spec fn spec_searched(&self, now_ms: u64) -> Seq<RegistryEntry> {
        if self.spec_due(now_ms) {
            spec_close_cycle(self.registry@, self.config.eviction)
        } else {
            self.registry@
        }
    }

    /// The registry's contents after a step at `now_ms`.
    pub open spec fn spec_entries_after(&self, now_ms: u64) -> Seq<RegistryEntry> {
        match self.phase {
            Phase::Discovery => self.discovery.spec_entries_after(self.spec_searched(now_ms)),
            _ => self.registry@,
        }
    }

    /// What the discovery protocol remembers after a step at `now_ms`.
    pub open spec fn spec_discovery_after(&self, now_ms: u64) -> Discovery {
        match self.phase {
            Phase::Measurements => Discovery {
                state: DiscoveryState::Idle,
                ..self.discovery
            },
            Phase::Status => self.discovery,
            Phase::Discovery => self.discovery.spec_compared(self.spec_searched(now_ms).len() as usize),
        }
    }

    /// When the last query went out, after a step at `now_ms`.
    pub open spec fn spec_last_search_after(&self, now_ms: u64) -> u64 {
        if self.phase == Phase::Discovery && self.spec_due(now_ms) {
            now_ms
        } else {
            self.last_search_ms
        }
    }

    /// The requests that a step at `now_ms` asks for.
    pub open spec fn spec_requests(&self, now_ms: u64) -> Seq<PollRequest> {
        match self.phase {
            Phase::Measurements => spec_poll_requests(
                self.registry@,
                BmsIndividualRequestFunction::AllMeasurements,
            ),
            Phase::Status => spec_poll_requests(
                self.registry@,
                BmsIndividualRequestFunction::InternalStatus1,
            ),
            Phase::Discovery => (if self.spec_due(now_ms) {
                seq![PollRequest::SerialNumberQuery]
            } else {
                Seq::empty()
            }) + self.discovery.spec_commands(self.spec_searched(now_ms)),
        }
    }

    /// The warning that a step at `now_ms` gives.
    pub open spec fn spec_warning(&self, now_ms: u64) -> Option<BmsError> {
        match self.phase {
            Phase::Discovery => self.discovery.spec_warning(self.spec_searched(now_ms).len() as usize),
            _ => None,
        }
    }

    /// How many packs a step at `now_ms` forgets.
    pub open spec fn spec_evicted(&self, now_ms: u64) -> int {
        match self.phase {
            Phase::Discovery => self.registry@.len() - self.spec_searched(now_ms).len(),
            _ => 0,
        }
    }

    /// A scheduler at the start of its first cycle, with an empty registry.
    pub fn new(config: SchedulerConfig) -> (scheduler: PollingScheduler)
        ensures
            scheduler.wf(),
            scheduler.registry@ == Seq::<RegistryEntry>::empty(),
            scheduler.discovery == (Discovery {
                state: DiscoveryState::Idle,
                previous_count: 0,
                reconfigurations: 0,
            }),
            scheduler.config == config,
            scheduler.phase == Phase::Measurements,
            scheduler.last_search_ms == 0,
    {
        PollingScheduler {
            registry: DeviceRegistry::new(),
            discovery: Discovery::new(),
            config,
            phase: Phase::Measurements,
            last_search_ms: 0,
        }
    }

    /// Hands a pack that has answered the serial-number query to the
    /// registry. The address that the pack carries is not looked at.
    pub fn pack_answered(&mut self, pack: BatteryPack) -> (seen: Observation)
        requires
            old(self).wf(),
        ensures
            final(self).wf(),
            final(self).registry@ == spec_observe(
                old(self).registry@,
                pack.serial_number,
                pack.part_number,
            ),
            seen == spec_observation(old(self).registry@, pack.serial_number),
            final(self).discovery == old(self).discovery,
            final(self).config == old(self).config,
            final(self).phase == old(self).phase,
            final(self).last_search_ms == old(self).last_search_ms,
    {
        self.registry.observe(pack.serial_number, pack.part_number)
    }

    /// Runs the next phase at `now_ms`, in milliseconds since the Unix
    /// epoch, and says what to send and how long to sleep.
    ///
    /// The measurement phase and the status phase ask every pack in the
    /// registry for their function and change nothing. The discovery phase
    /// sends the serial-number query if more than the search interval has
    /// passed since the last one, and ends the discovery cycle with it; it
    /// then holds the registry against its size at the cycle before and, if
    /// the size has changed, renews the addresses and asks for the commands
    /// that tell the packs.
    pub fn step(&mut self, now_ms: u64) -> (output: StepOutput)
        requires
            old(self).wf(),
        ensures
            final(self).wf(),
            final(self).config == old(self).config,
            final(self).phase == spec_next_phase(old(self).phase),
            final(self).registry@ == old(self).spec_entries_after(now_ms),
            final(self).discovery == old(self).spec_discovery_after(now_ms),
            final(self).last_search_ms == old(self).spec_last_search_after(now_ms),
            output.requests@ == old(self).spec_requests(now_ms),
            output.sleep_ms == spec_phase_sleep(old(self).phase, old(self).config.request_interval_ms),
            output.warning == old(self).spec_warning(now_ms),
            output.evicted == old(self).spec_evicted(now_ms),
    {
        let phase = self.phase;
        let sleep_ms = phase_sleep(phase, self.config.request_interval_ms);
        self.phase = next_phase(phase);
        match phase {
            Phase::Measurements => {
                self.discovery.settle();
                let requests = poll_requests(
                    &self.registry,
                    BmsIndividualRequestFunction::AllMeasurements,
                );
                StepOutput { requests, sleep_ms, warning: None, evicted: 0 }
            },
            Phase::Status => {
                let requests = poll_requests(
                    &self.registry,
                    BmsIndividualRequestFunction::InternalStatus1,
                );
                StepOutput { requests, sleep_ms, warning: None, evicted: 0 }
            },
            Phase::Discovery => {
                let mut requests: Vec<PollRequest> = Vec::new();
                let mut evicted: usize = 0;
                if search_due(self.last_search_ms, self.config.search_interval_ms, now_ms) {
                    evicted = self.registry.close_cycle(self.config.eviction);
                    requests.push(PollRequest::SerialNumberQuery);
                    self.last_search_ms = now_ms;
                }
                let mut asked = self.discovery.compare(&mut self.registry);
                requests.append(&mut asked.commands);
                StepOutput { requests, sleep_ms, warning: asked.warning, evicted }
            },
        }
    }
}

/// The three sleeps of a cycle add up to the request interval.
pub proof fn lemma_cycle_takes_request_interval(request_interval_ms: u64)
    ensures
        spec_phase_sleep(Phase::Measurements, request_interval_ms) + spec_phase_sleep(
            Phase::Status,
            request_interval_ms,
        ) + spec_phase_sleep(Phase::Discovery, request_interval_ms) == request_interval_ms,
{
}

/// Three phases make a cycle: the phase after the third is the first again.
pub proof fn lemma_phases_cycle(phase: Phase)
    ensures
        spec_next_phase(spec_next_phase(spec_next_phase(phase))) == phase,
{
}

/// With no pack in the registry the request phases ask for nothing, and
/// the discovery phase still sends the serial-number query when it is due,
/// as its first request.
pub proof fn lemma_empty_registry_still_searches(scheduler: PollingScheduler, now_ms: u64)
    requires
        scheduler.registry@.len() == 0,
    ensures
        scheduler.phase != Phase::Discovery ==> scheduler.spec_requests(now_ms).len() == 0,
        scheduler.phase == Phase::Discovery && scheduler.spec_due(now_ms) ==> scheduler.spec_requests(
            now_ms,
        ).len() >= 1 && scheduler.spec_requests(now_ms)[0] == PollRequest::SerialNumberQuery,
        scheduler.phase == Phase::Discovery && !scheduler.spec_due(now_ms)
            && scheduler.discovery.previous_count == 0 ==> scheduler.spec_requests(now_ms).len() == 0,
{
}

} // verus!
