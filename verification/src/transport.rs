//! The USB side of a print job, as a state machine.
//!
//! The machine owns every decision of the transport: which device to open,
//! whether the kernel driver has to be detached, which endpoint to write to,
//! whether the write counts as complete, and what has to be handed back
//! before the job may end. It performs no I/O itself. The caller performs
//! each `Action` the machine asks for and reports the result as an `Event`.

use vstd::prelude::*;
use crate::error::PrintError;
use crate::usb::{
    find_bulk_out_endpoint, find_device, first_bulk_out, first_device, first_device_is_first,
    interfaces_endpoints, Configuration, DeviceId,
};

verus! {

/// The interface of the printer that a job claims.
pub const PRINTER_INTERFACE: u8 = 0;

/// How long the bulk write may take, in seconds.
pub const WRITE_TIMEOUT_SECS: u64 = 5;

/// The coarse phases of a job, in the order in which a successful job passes
/// through them. A job that is not over yet can fail in any of them.
#[derive(Clone, Copy, Debug, PartialEq, Eq, Structural)]
pub enum Phase {
    Idle,
    Discovering,
    Opened,
    InterfaceClaimed,
    EndpointResolved,
    Writing,
    Released,
    Failed,
}

/// Where a job stands: the operation whose result it is waiting for, and
/// what it has to undo before it ends.
#[derive(Clone, Copy, Debug, PartialEq, Eq)]
pub enum Stage {
    /// Nothing has been asked for yet.
    Idle,
    /// Waiting for the list of attached devices.
    Discovering,
    /// Waiting for the matched device to be opened.
    Opening,
    /// Waiting to learn whether a kernel driver holds the interface.
    QueryingDriver,
    /// Waiting for the kernel driver to be detached.
    DetachingDriver,
    /// Waiting for the interface to be claimed.
    Claiming { detached: bool },
    /// Waiting for the active configuration descriptor.
    ResolvingEndpoint { detached: bool },
    /// Waiting for the bulk write to return.
    Writing { detached: bool },
    /// Waiting for the interface to be released. `failure` is what went
    /// wrong earlier, if anything did.
    Releasing { detached: bool, failure: Option<PrintError> },
    /// Waiting for the kernel driver to be attached again.
    Reattaching { failure: Option<PrintError> },
    /// The job succeeded and holds nothing.
    Released,
    /// The job failed and holds nothing.
    Failed(PrintError),
}

/// What the caller reports back after performing an action.
#[derive(Debug, PartialEq, Eq)]
pub enum Event {
    /// The caller is ready to run the job.
    Started,
    /// The ids of all attached devices, in enumeration order.
    Devices(Vec<DeviceId>),
    /// The requested operation succeeded.
    Done,
    /// Whether a kernel driver is active on the interface.
    DriverActive(bool),
    /// The active configuration of the opened device.
    Config(Configuration),
    /// The bulk write returned after transferring this many bytes.
    Written(usize),
    /// The requested operation failed or timed out.
    Failed,
}

/// What the caller has to do next.
#[derive(Clone, Copy, Debug, PartialEq, Eq)]
pub enum Action {
    /// Enumerate the attached devices and report `Event::Devices`.
    Enumerate,
    /// Open the device at this position of the reported list.
    Open { index: usize },
    /// Ask whether a kernel driver is active and report `Event::DriverActive`.
    QueryKernelDriver { interface: u8 },
    /// Detach the kernel driver from the interface.
    DetachKernelDriver { interface: u8 },
    /// Claim the interface.
    ClaimInterface { interface: u8 },
    /// Read the active configuration and report `Event::Config`.
    ReadActiveConfig,
    /// Write the whole payload to the endpoint and report `Event::Written`.
    Write { endpoint: u8, timeout_secs: u64 },
    /// Release the interface.
    ReleaseInterface { interface: u8 },
    /// Attach the kernel driver to the interface again.
    AttachKernelDriver { interface: u8 },
    /// Close the device, if it is open, and report this outcome. The job is
    /// over.
    Finish(Result<(), PrintError>),
}

impl Stage {
    /// The phase this stage belongs to. While a job hands back what it
    /// holds, it already counts as released or failed.
    pub open spec fn phase(self) -> Phase {
        match self {
            Stage::Idle => Phase::Idle,
            Stage::Discovering => Phase::Discovering,
            Stage::Opening => Phase::Opened,
            Stage::QueryingDriver | Stage::DetachingDriver | Stage::Claiming { .. } =>
                Phase::InterfaceClaimed,
            Stage::ResolvingEndpoint { .. } => Phase::EndpointResolved,
            Stage::Writing { .. } => Phase::Writing,
            Stage::Releasing { failure, .. } | Stage::Reattaching { failure } => if failure is None {
                Phase::Released
            } else {
                Phase::Failed
            },
            Stage::Released => Phase::Released,
            Stage::Failed(_) => Phase::Failed,
        }
    }

    /// Whether the job is over.
    pub open spec fn is_terminal(self) -> bool {
        self is Released || self is Failed
    }

    /// Whether the job holds the claim on the printer's interface.
    pub open spec fn holds_interface(self) -> bool {
        self is ResolvingEndpoint || self is Writing || self is Releasing
    }

    /// Whether the job has taken the kernel driver off the interface and not
    /// yet put it back.
    pub open spec fn driver_detached(self) -> bool {
        match self {
            Stage::Claiming { detached } => detached,
            Stage::ResolvingEndpoint { detached } => detached,
            Stage::Writing { detached } => detached,
            Stage::Releasing { detached, .. } => detached,
            Stage::Reattaching { .. } => true,
            _ => false,
        }
    }

    /// An upper bound on the number of events the job still consumes.
    pub open spec fn remaining(self) -> nat {
        match self {
            Stage::Idle => 10,
            Stage::Discovering => 9,
            Stage::Opening => 8,
            Stage::QueryingDriver => 7,
            Stage::DetachingDriver => 6,
            Stage::Claiming { .. } => 5,
            Stage::ResolvingEndpoint { .. } => 4,
            Stage::Writing { .. } => 3,
            Stage::Releasing { .. } => 2,
            Stage::Reattaching { .. } => 1,
            Stage::Released => 0,
            Stage::Failed(_) => 0,
        }
    }
}

impl Phase {
    /// The phase that follows this one in a successful job.
    pub open spec fn following(self) -> Phase {
        match self {
            Phase::Idle => Phase::Discovering,
            Phase::Discovering => Phase::Opened,
            Phase::Opened => Phase::InterfaceClaimed,
            Phase::InterfaceClaimed => Phase::EndpointResolved,
            Phase::EndpointResolved => Phase::Writing,
            Phase::Writing => Phase::Released,
            Phase::Released => Phase::Released,
            Phase::Failed => Phase::Failed,
        }
    }
}

/// The end of a job: success if nothing failed, else the failure.
pub open spec fn finished(failure: Option<PrintError>) -> (Stage, Action) {
    match failure {
        None => (Stage::Released, Action::Finish(Ok(()))),
        Some(e) => (Stage::Failed(e), Action::Finish(Err(e))),
    }
}

/// What follows once the interface is no longer claimed: the kernel driver
/// goes back first if the job took it off.
pub open spec fn after_release(detached: bool, failure: Option<PrintError>) -> (Stage, Action) {
    if detached {
        (Stage::Reattaching { failure }, Action::AttachKernelDriver { interface: PRINTER_INTERFACE })
    } else {
        finished(failure)
    }
}

/// The failure to report when cleaning up itself goes wrong: an earlier
/// failure stays, otherwise the interface is to blame.
pub open spec fn or_interface_failure(failure: Option<PrintError>) -> Option<PrintError> {
    match failure {
        Some(e) => Some(e),
        None => Some(PrintError::InterfaceClaimError),
    }
}

/// What happens when the operation awaited at `stage` does not succeed.
/// The job fails with the error of that operation, after handing back what
/// it holds.
pub open spec fn fail_from(stage: Stage) -> (Stage, Action) {
    match stage {
        Stage::Idle | Stage::Discovering => finished(Some(PrintError::DeviceNotFoundError)),
        Stage::Opening => finished(Some(PrintError::DeviceOpenError)),
        Stage::QueryingDriver | Stage::DetachingDriver => finished(
            Some(PrintError::InterfaceClaimError),
        ),
        Stage::Claiming { detached } => after_release(
            detached,
            Some(PrintError::InterfaceClaimError),
        ),
        Stage::ResolvingEndpoint { detached } => (
            Stage::Releasing { detached, failure: Some(PrintError::NoEndpointError) },
            Action::ReleaseInterface { interface: PRINTER_INTERFACE },
        ),
        Stage::Writing { detached } => (
            Stage::Releasing { detached, failure: Some(PrintError::WriteError) },
            Action::ReleaseInterface { interface: PRINTER_INTERFACE },
        ),
        Stage::Releasing { detached, failure } => after_release(
            detached,
            or_interface_failure(failure),
        ),
        Stage::Reattaching { failure } => finished(or_interface_failure(failure)),
        Stage::Released => finished(None),
        Stage::Failed(e) => finished(Some(e)),
    }
}

/// The transition function of the transport: the stage a job moves to and
/// the action it asks for, when `event` arrives at `stage`. `target` is the
/// requested device and `payload_len` the number of bytes to write.
///
/// Each stage awaits one kind of event. Any other event counts as the
/// failure of the awaited operation.
pub open spec fn next(stage: Stage, target: DeviceId, payload_len: usize, event: Event) -> (
    Stage,
    Action,
) {
    match (stage, event) {
        (Stage::Idle, Event::Started) => (Stage::Discovering, Action::Enumerate),
        (Stage::Discovering, Event::Devices(devices)) => match first_device(devices@, target) {
            Some(i) => (Stage::Opening, Action::Open { index: i as usize }),
            None => fail_from(stage),
        },
        (Stage::Opening, Event::Done) => (
            Stage::QueryingDriver,
            Action::QueryKernelDriver { interface: PRINTER_INTERFACE },
        ),
        (Stage::QueryingDriver, Event::DriverActive(active)) => if active {
            (Stage::DetachingDriver, Action::DetachKernelDriver { interface: PRINTER_INTERFACE })
        } else {
            (
                Stage::Claiming { detached: false },
                Action::ClaimInterface { interface: PRINTER_INTERFACE },
            )
        },
        (Stage::DetachingDriver, Event::Done) => (
            Stage::Claiming { detached: true },
            Action::ClaimInterface { interface: PRINTER_INTERFACE },
        ),
        (Stage::Claiming { detached }, Event::Done) => (
            Stage::ResolvingEndpoint { detached },
            Action::ReadActiveConfig,
        ),
        (Stage::ResolvingEndpoint { detached }, Event::Config(config)) => match first_bulk_out(
            interfaces_endpoints(config.interfaces@),
        ) {
            Some(endpoint) => (
                Stage::Writing { detached },
                Action::Write { endpoint, timeout_secs: WRITE_TIMEOUT_SECS },
            ),
            None => fail_from(stage),
        },
        (Stage::Writing { detached }, Event::Written(count)) => if count == payload_len {
            (
                Stage::Releasing { detached, failure: None },
                Action::ReleaseInterface { interface: PRINTER_INTERFACE },
            )
        } else {
            fail_from(stage)
        },
        (Stage::Releasing { detached, failure }, Event::Done) => after_release(detached, failure),
        (Stage::Reattaching { failure }, Event::Done) => finished(failure),
        _ => fail_from(stage),
    }
}

/// A job moves through the phases in order: an event leaves it in its phase,
/// takes it to the following one, or makes it fail.
pub proof fn phases_advance_in_order(
    stage: Stage,
    target: DeviceId,
    payload_len: usize,
    event: Event,
)
    ensures
        ({
            let after = next(stage, target, payload_len, event).0;
            ||| after.phase() == stage.phase()
            ||| after.phase() == stage.phase().following()
            ||| after.phase() == Phase::Failed
        }),
        stage.phase() == Phase::Failed ==> next(stage, target, payload_len, event).0.phase()
            == Phase::Failed,
{
}

/// Every event brings a running job closer to its end, so a job is over
/// after at most ten events. A job that is over stays as it is.
pub proof fn every_event_makes_progress(
    stage: Stage,
    target: DeviceId,
    payload_len: usize,
    event: Event,
)
    ensures
        !stage.is_terminal() ==> next(stage, target, payload_len, event).0.remaining()
            < stage.remaining(),
        stage.is_terminal() ==> next(stage, target, payload_len, event).0 == stage,
        stage.remaining() <= 10,
        stage.is_terminal() <==> stage.remaining() == 0,
{
}

/// Failure can be reached from every stage of a running job: when each
/// awaited operation fails, the job has failed after at most three events,
/// the last two of which hand back what it held.
pub proof fn failure_is_reachable(stage: Stage, target: DeviceId, payload_len: usize)
    requires
        !stage.is_terminal(),
    ensures
        ({
            let first = next(stage, target, payload_len, Event::Failed).0;
            let second = next(first, target, payload_len, Event::Failed).0;
            let third = next(second, target, payload_len, Event::Failed).0;
            third is Failed
        }),
{
}

/// A job ends only after it has handed back what it acquired.
///
/// It gains the interface only when its claim succeeds and gives it up only
/// in answer to a release it asked for. It takes the kernel driver off only
/// when its detach succeeds and counts it as back only in answer to an
/// attach it asked for. A job that is over holds neither, and the action
/// that ends it carries its outcome.
pub proof fn resources_are_handed_back(
    stage: Stage,
    target: DeviceId,
    payload_len: usize,
    event: Event,
)
    ensures
        ({
            let (after, action) = next(stage, target, payload_len, event);
            &&& after.holds_interface() && !stage.holds_interface() ==> stage is Claiming
                && event is Done
            &&& stage.holds_interface() && !after.holds_interface() ==> stage is Releasing
            &&& after is Releasing ==> action == (Action::ReleaseInterface {
                interface: PRINTER_INTERFACE,
            })
            &&& after.driver_detached() && !stage.driver_detached() ==> stage is DetachingDriver
                && event is Done
            &&& stage.driver_detached() && !after.driver_detached() ==> stage is Reattaching
            &&& after is Reattaching ==> action == (Action::AttachKernelDriver {
                interface: PRINTER_INTERFACE,
            })
            &&& after.is_terminal() ==> !after.holds_interface() && !after.driver_detached()
            &&& after is Released ==> action == Action::Finish(Ok(()))
            &&& after matches Stage::Failed(e) ==> action == Action::Finish(Err(e))
        }),
{
}

/// While discovering, a job fails with `DeviceNotFoundError` exactly when no
/// enumerated device carries the requested ids. Otherwise it asks to open
/// the first device that does.
pub proof fn device_not_found_iff_no_match(
    devices: Vec<DeviceId>,
    target: DeviceId,
    payload_len: usize,
)
    ensures
        ({
            let (after, action) = next(
                Stage::Discovering,
                target,
                payload_len,
                Event::Devices(devices),
            );
            &&& after == Stage::Failed(PrintError::DeviceNotFoundError) <==> (forall|i: int|
                0 <= i < devices@.len() ==> devices@[i] != target)
            &&& after != Stage::Failed(PrintError::DeviceNotFoundError) ==> after == Stage::Opening
                && exists|i: int|
                {
                    &&& 0 <= i < devices@.len()
                    &&& #[trigger] devices@[i] == target
                    &&& action == (Action::Open { index: i as usize })
                    &&& forall|j: int| 0 <= j < i ==> devices@[j] != target
                }
        }),
{
    first_device_is_first(devices@, target);
}

/// While resolving the endpoint, a job moves on to writing exactly when the
/// configuration has a bulk OUT endpoint, and then writes to the first one
/// with the fixed timeout. Otherwise it releases the interface and will fail
/// with `NoEndpointError`.
pub proof fn endpoint_resolution(
    detached: bool,
    config: Configuration,
    target: DeviceId,
    payload_len: usize,
)
    ensures
        ({
            let (after, action) = next(
                Stage::ResolvingEndpoint { detached },
                target,
                payload_len,
                Event::Config(config),
            );
            match first_bulk_out(interfaces_endpoints(config.interfaces@)) {
                Some(endpoint) => after == (Stage::Writing { detached }) && action == (
                    Action::Write { endpoint, timeout_secs: 5 }
                ),
                None => after == (Stage::Releasing {
                    detached,
                    failure: Some(PrintError::NoEndpointError),
                }) && action == (Action::ReleaseInterface { interface: 0 }),
            }
        }),
{
}

/// A job succeeds only through a write that transferred the whole payload:
/// a short write or a failed one leads to `WriteError`, and only a complete
/// one starts the release that ends in `Released`.
pub proof fn success_needs_full_write(
    stage: Stage,
    target: DeviceId,
    payload_len: usize,
    event: Event,
)
    ensures
        ({
            let after = next(stage, target, payload_len, event).0;
            &&& after.phase() == Phase::Released && stage.phase() != Phase::Released ==> stage
                is Writing && event == Event::Written(payload_len)
            &&& stage is Writing && event != Event::Written(payload_len) ==> after
                matches Stage::Releasing { failure: Some(PrintError::WriteError), .. }
        }),
{
}

fn finish(failure: Option<PrintError>) -> (res: (Stage, Action))
    ensures
        res == finished(failure),
{
    match failure {
        None => (Stage::Released, Action::Finish(Ok(()))),
        Some(e) => (Stage::Failed(e), Action::Finish(Err(e))),
    }
}

fn release_done(detached: bool, failure: Option<PrintError>) -> (res: (Stage, Action))
    ensures
        res == after_release(detached, failure),
{
    if detached {
        (Stage::Reattaching { failure }, Action::AttachKernelDriver { interface: PRINTER_INTERFACE })
    } else {
        finish(failure)
    }
}

fn keep_or_blame_interface(failure: Option<PrintError>) -> (res: Option<PrintError>)
    ensures
        res == or_interface_failure(failure),
{
    match failure {
        Some(e) => Some(e),
        None => Some(PrintError::InterfaceClaimError),
    }
}

fn fail(stage: Stage) -> (res: (Stage, Action))
    ensures
        res == fail_from(stage),
{
    match stage {
        Stage::Idle | Stage::Discovering => finish(Some(PrintError::DeviceNotFoundError)),
        Stage::Opening => finish(Some(PrintError::DeviceOpenError)),
        Stage::QueryingDriver | Stage::DetachingDriver => finish(
            Some(PrintError::InterfaceClaimError),
        ),
        Stage::Claiming { detached } => release_done(
            detached,
            Some(PrintError::InterfaceClaimError),
        ),
        Stage::ResolvingEndpoint { detached } => (
            Stage::Releasing { detached, failure: Some(PrintError::NoEndpointError) },
            Action::ReleaseInterface { interface: PRINTER_INTERFACE },
        ),
        Stage::Writing { detached } => (
            Stage::Releasing { detached, failure: Some(PrintError::WriteError) },
            Action::ReleaseInterface { interface: PRINTER_INTERFACE },
        ),
        Stage::Releasing { detached, failure } => release_done(
            detached,
            keep_or_blame_interface(failure),
        ),
        Stage::Reattaching { failure } => finish(keep_or_blame_interface(failure)),
        Stage::Released => finish(None),
        Stage::Failed(e) => finish(Some(e)),
    }
}

/// The transport of one print job.
#[derive(Clone, Copy, Debug)]
pub struct Transport {
    stage: Stage,
    target: DeviceId,
    payload_len: usize,
}

impl Transport {
    /// The stage the job is in.
    pub closed spec fn spec_stage(&self) -> Stage {
        self.stage
    }

    /// The device the job prints to.
    pub closed spec fn spec_target(&self) -> DeviceId {
        self.target
    }

    /// The number of bytes the job has to write.
    pub closed spec fn spec_payload_len(&self) -> usize {
        self.payload_len
    }

    /// A job for the printer `vid:pid` that has `payload_len` bytes to send.
    /// It starts idle.
    pub fn new(vid: u16, pid: u16, payload_len: usize) -> (transport: Transport)
        ensures
            transport.spec_stage() == Stage::Idle,
            transport.spec_target() == (DeviceId { vid, pid }),
            transport.spec_payload_len() == payload_len,
    {
        Transport { stage: Stage::Idle, target: DeviceId { vid, pid }, payload_len }
    }

    /// The stage the job is in.
    #[verifier::when_used_as_spec(spec_stage)]
    pub fn stage(&self) -> (stage: Stage)
        ensures
            stage == self.spec_stage(),
    {
        self.stage
    }

    /// The device the job prints to.
    #[verifier::when_used_as_spec(spec_target)]
    pub fn target(&self) -> (target: DeviceId)
        ensures
            target == self.spec_target(),
    {
        self.target
    }

    /// The number of bytes the job has to write.
    #[verifier::when_used_as_spec(spec_payload_len)]
    pub fn payload_len(&self) -> (len: usize)
        ensures
            len == self.spec_payload_len(),
    {
        self.payload_len
    }

    /// The phase the job is in.
    pub fn phase(&self) -> (phase: Phase)
        ensures
            phase == self.stage().phase(),
    {
        match self.stage {
            Stage::Idle => Phase::Idle,
            Stage::Discovering => Phase::Discovering,
            Stage::Opening => Phase::Opened,
            Stage::QueryingDriver | Stage::DetachingDriver | Stage::Claiming { .. } =>
                Phase::InterfaceClaimed,
            Stage::ResolvingEndpoint { .. } => Phase::EndpointResolved,
            Stage::Writing { .. } => Phase::Writing,
            Stage::Releasing { failure, .. } | Stage::Reattaching { failure } => match failure {
                None => Phase::Released,
                Some(_) => Phase::Failed,
            },
            Stage::Released => Phase::Released,
            Stage::Failed(_) => Phase::Failed,
        }
    }

    /// How the job ended, or `None` while it is still running.
    pub fn outcome(&self) -> (outcome: Option<Result<(), PrintError>>)
        ensures
            outcome == match self.stage() {
                Stage::Released => Some(Ok::<(), PrintError>(())),
                Stage::Failed(e) => Some(Err::<(), PrintError>(e)),
                _ => None,
            },
    {
        match self.stage {
            Stage::Released => Some(Ok(())),
            Stage::Failed(e) => Some(Err(e)),
            _ => None,
        }
    }

    /// Takes the result of the last action, moves the job on, and says what
    /// to do next. The device and the payload length never change.
    pub fn step(&mut self, event: Event) -> (action: Action)
        ensures
            (final(self).stage(), action) == next(
                old(self).stage(),
                old(self).target(),
                old(self).payload_len(),
                event,
            ),
            final(self).target() == old(self).target(),
            final(self).payload_len() == old(self).payload_len(),
    {
        let stage = self.stage;
        let (stage_after, action) = match stage {
            Stage::Idle => match event {
                Event::Started => (Stage::Discovering, Action::Enumerate),
                _ => fail(stage),
            },
            Stage::Discovering => match event {
                Event::Devices(devices) => match find_device(
                    &devices,
                    self.target.vid,
                    self.target.pid,
                ) {
                    Some(index) => (Stage::Opening, Action::Open { index }),
                    None => fail(stage),
                },
                _ => fail(stage),
            },
            Stage::Opening => match event {
                Event::Done => (
                    Stage::QueryingDriver,
                    Action::QueryKernelDriver { interface: PRINTER_INTERFACE },
                ),
                _ => fail(stage),
            },
            Stage::QueryingDriver => match event {
                Event::DriverActive(true) => (
                    Stage::DetachingDriver,
                    Action::DetachKernelDriver { interface: PRINTER_INTERFACE },
                ),
                Event::DriverActive(false) => (
                    Stage::Claiming { detached: false },
                    Action::ClaimInterface { interface: PRINTER_INTERFACE },
                ),
                _ => fail(stage),
            },
            Stage::DetachingDriver => match event {
                Event::Done => (
                    Stage::Claiming { detached: true },
                    Action::ClaimInterface { interface: PRINTER_INTERFACE },
                ),
                _ => fail(stage),
            },
            Stage::Claiming { detached } => match event {
                Event::Done => (Stage::ResolvingEndpoint { detached }, Action::ReadActiveConfig),
                _ => fail(stage),
            },
            Stage::ResolvingEndpoint { detached } => match event {
                Event::Config(config) => match find_bulk_out_endpoint(&config) {
                    Some(endpoint) => (
                        Stage::Writing { detached },
                        Action::Write { endpoint, timeout_secs: WRITE_TIMEOUT_SECS },
                    ),
                    None => fail(stage),
                },
                _ => fail(stage),
            },
            Stage::Writing { detached } => match event {
                Event::Written(count) => if count == self.payload_len {
                    (
                        Stage::Releasing { detached, failure: None },
                        Action::ReleaseInterface { interface: PRINTER_INTERFACE },
                    )
                } else {
                    fail(stage)
                },
                _ => fail(stage),
            },
            Stage::Releasing { detached, failure } => match event {
                Event::Done => release_done(detached, failure),
                _ => fail(stage),
            },
            Stage::Reattaching { failure } => match event {
                Event::Done => finish(failure),
                _ => fail(stage),
            },
            Stage::Released | Stage::Failed(_) => fail(stage),
        };
        self.stage = stage_after;
        action
    }
}

} // verus!
