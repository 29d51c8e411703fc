//! One print job from request to result.
//!
//! A job first composes its bytes. Only if that succeeds does it get a
//! transport, so a payload that cannot be encoded fails the job before any
//! device is touched.

use vstd::prelude::*;
use vstd::string::StringExecFns;
use crate::error::PrintError;
use crate::escpos::{all_encodable, compose_print_data, receipt};
use crate::request::PrintInfo;
use crate::transport::{next, Action, Event, Stage, Transport};
use crate::usb::DeviceId;

verus! {

/// A job whose bytes are composed and whose transport is ready to run.
#[derive(Debug)]
pub struct PrintJob {
    payload: Vec<u8>,
    transport: Transport,
}

impl PrintJob {
    #[verifier::type_invariant]
    spec fn writes_whole_payload(&self) -> bool {
        self.transport.payload_len() == self.payload@.len()
    }

    /// The bytes to send to the printer.
    pub closed spec fn spec_payload(&self) -> Seq<u8> {
        self.payload@
    }

    /// The stage of the job's transport.
    pub closed spec fn spec_stage(&self) -> Stage {
        self.transport.stage()
    }

    /// The printer the job is for.
    pub closed spec fn spec_target(&self) -> DeviceId {
        self.transport.target()
    }

    /// Prepares the job that `info` describes. Fails with `EncodingError`
    /// exactly where a QR payload cannot be encoded; otherwise the job holds
    /// the receipt's bytes and an idle transport for the requested printer.
    pub fn new(info: PrintInfo) -> (res: Result<PrintJob, PrintError>)
        ensures
            match res {
                Ok(job) => {
                    &&& all_encodable(info.lines.deep_view())
                    &&& job.spec_payload() == receipt(info.lines.deep_view())
                    &&& job.spec_stage() == Stage::Idle
                    &&& job.spec_target() == (DeviceId { vid: info.vid, pid: info.pid })
                },
                Err(e) => e == PrintError::EncodingError && !all_encodable(
                    info.lines.deep_view(),
                ),
            },
    {
        let PrintInfo { name: _, pid, vid, lines } = info;
        match compose_print_data(lines) {
            Ok(payload) => {
                let transport = Transport::new(vid, pid, payload.len());
                Ok(PrintJob { payload, transport })
            },
            Err(e) => Err(e),
        }
    }

    /// The bytes to send to the printer.
    pub fn payload(&self) -> (payload: &Vec<u8>)
        ensures
            payload@ == self.spec_payload(),
    {
        &self.payload
    }

    /// The stage of the job's transport.
    #[verifier::when_used_as_spec(spec_stage)]
    pub fn stage(&self) -> (stage: Stage)
        ensures
            stage == self.spec_stage(),
    {
        self.transport.stage()
    }

    /// The printer the job is for.
    #[verifier::when_used_as_spec(spec_target)]
    pub fn target(&self) -> (target: DeviceId)
        ensures
            target == self.spec_target(),
    {
        self.transport.target()
    }

    /// How the job ended, or `None` while it is still running.
    pub fn outcome(&self) -> (outcome: Option<Result<(), PrintError>>)
        ensures
            outcome == match self.spec_stage() {
                Stage::Released => Some(Ok::<(), PrintError>(())),
                Stage::Failed(e) => Some(Err::<(), PrintError>(e)),
                _ => None,
            },
    {
        self.transport.outcome()
    }

    /// Takes the result of the last action and says what to do next, as the
    /// transport decides it for this job's printer and payload. The payload
    /// and the printer stay as they are.
    pub fn step(&mut self, event: Event) -> (action: Action)
        ensures
            (final(self).spec_stage(), action) == next(
                old(self).spec_stage(),
                old(self).spec_target(),
                old(self).spec_payload().len() as usize,
                event,
            ),
            final(self).spec_payload() == old(self).spec_payload(),
            final(self).spec_target() == old(self).spec_target(),
    {
        proof {
            use_type_invariant(&*self);
        }
        let mut transport = self.transport;
        let action = transport.step(event);
        self.transport = transport;
        action
    }
}

/// The line that tells the caller whose job was handled. It is the same
/// whether the job succeeded or failed.
pub fn status_line(name: &str) -> (line: String)
    ensures
        line@ == "User: "@ + name@,
{
    String::from_str("User: ").concat(name)
}

} // verus!
