//! IR/RF remotes: their commands, and the learning procedure.

use vstd::prelude::*;

use crate::constants::INITIAL_KEY;
use crate::device_info::DeviceInfo;
use crate::error::{bytes_result, Error};
use crate::models::{remote_model, remote_model_spec};
use crate::network::util::{reverse_mac, reversed_mac};
use crate::network::{
    frame_of, opened, remote_body, remote_frame, DiscoveryResponse, RemoteDataCommand,
    RemoteDataMessage, MAX_REMOTE_BODY,
};

verus! {

/// A device that transmits IR / RF codes.
#[derive(Clone, Debug)]
pub struct RemoteDevice {
    /// Base information about the remote.
    pub info: DeviceInfo,
}

/// The friendly model of a remote with model code `code`.
pub open spec fn remote_friendly_model(code: u16) -> Seq<char> {
    match remote_model_spec(code) {
        Some(m) => m@,
        None => "Unknown"@,
    }
}

impl RemoteDevice {
    /// Creates a remote named `name` at `addr` from its discovery reply; it is
    /// not yet authenticated.
    pub fn new(name: &str, addr: [u8; 4], response: DiscoveryResponse) -> (r: RemoteDevice)
        ensures
            r.info.address == addr,
            r.info.mac@ == reversed_mac(response.mac@),
            r.info.model_code == response.model_code,
            r.info.friendly_type@ == "Remote"@,
            r.info.friendly_model@ == remote_friendly_model(response.model_code),
            r.info.name@ == name@,
            r.info.is_locked == response.is_locked,
            r.info.unauthenticated(),
    {
        let friendly_model = match remote_model(response.model_code) {
            Some(m) => m,
            None => "Unknown",
        };
        RemoteDevice {
            info: DeviceInfo {
                address: addr,
                mac: reverse_mac(response.mac),
                model_code: response.model_code,
                friendly_model: friendly_model.to_owned(),
                friendly_type: "Remote".to_owned(),
                name: name.to_owned(),
                is_locked: response.is_locked,
                auth_id: 0,
                key: INITIAL_KEY,
            },
        }
    }

    /// The frame that asks the remote to perform `command` with `payload`,
    /// sent with message count `count`.
    pub fn command_frame_with_count(&self, count: u16, payload: &[u8], command: RemoteDataCommand) -> (r: Result<Vec<u8>, Error>)
        ensures
            payload@.len() <= MAX_REMOTE_BODY ==> bytes_result(r) == Ok::<Seq<u8>, Error>(
                frame_of(
                    self.info.model_code,
                    0x006A,
                    count | 0x8000,
                    reversed_mac(self.info.mac@),
                    self.info.auth_id,
                    remote_frame(command, payload@),
                    self.info.key@,
                ),
            ),
            payload@.len() > MAX_REMOTE_BODY ==> r is Err,
    {
        let packed = RemoteDataMessage::new(command).pack_with_payload(payload)?;
        self.info.command_frame_with_count::<RemoteDataMessage>(count, packed.as_slice())
    }

    /// The frame that asks the remote to perform `command` with `payload`,
    /// sent with a random message count.
    pub fn command_frame(&self, payload: &[u8], command: RemoteDataCommand) -> (r: Result<Vec<u8>, Error>)
        ensures
            payload@.len() <= MAX_REMOTE_BODY ==> (r matches Ok(f) && exists|count: u16|
                0x8000 <= count <= 0xFFFF && #[trigger] f@ == frame_of(
                    self.info.model_code,
                    0x006A,
                    count,
                    reversed_mac(self.info.mac@),
                    self.info.auth_id,
                    remote_frame(command, payload@),
                    self.info.key@,
                )),
            payload@.len() > MAX_REMOTE_BODY ==> r is Err,
    {
        let packed = RemoteDataMessage::new(command).pack_with_payload(payload)?;
        self.info.command_frame::<RemoteDataMessage>(packed.as_slice())
    }

    /// The body of the remote's reply `frame`.
    pub fn read_reply(&self, frame: Vec<u8>) -> (r: Result<Vec<u8>, Error>)
        ensures
            bytes_result(r) == (match opened(frame@, self.info.key@) {
                Ok(p) => remote_body(p),
                Err(e) => Err(e),
            }),
    {
        let payload = self.info.open_reply(frame)?;
        RemoteDataMessage::unpack_with_payload(payload.as_slice())
    }
}

/// The number of polls before a learning stage gives up.
pub const LEARN_ATTEMPTS: u32 = 10;

/// The seconds to wait before each poll.
pub const LEARN_INTERVAL_SECS: u64 = 3;

/// Where a learning procedure stands: which command was sent last.
#[derive(Clone, Copy, Debug, PartialEq, Eq, Structural)]
pub enum LearnStage {
    /// `StartLearningIR` was sent.
    EnteringIr,
    /// `SweepRfFrequencies` was sent.
    Sweeping,
    /// `CheckFrequency` was sent.
    CheckingFrequency,
    /// `StartLearningRF` was sent.
    EnteringRf,
    /// `GetCode` was sent.
    PollingCode,
    /// `StopRfSweep` was sent; the procedure then fails with this error.
    Stopping(Error),
    /// The procedure is over.
    Finished,
}

/// What the caller does next in a learning procedure.
#[derive(Clone, Copy, Debug, PartialEq, Eq, Structural)]
pub enum LearnStep {
    /// Send this command now and hand its reply back.
    Send(RemoteDataCommand),
    /// Wait the poll interval, send this command and hand its reply back.
    Poll(RemoteDataCommand),
    /// The reply just handed in is the learned code.
    Learned,
    /// The procedure failed.
    Failed(Error),
}

/// The state of a procedure that learns an IR or RF code.
///
/// IR: `StartLearningIR`, then up to ten polls of `GetCode`; the first
/// non-empty reply is the code. RF: `SweepRfFrequencies`, then up to ten polls
/// of `CheckFrequency` until byte 0 of the reply is 1, else `StopRfSweep` and
/// `FrequencyNotFound`; then `StartLearningRF` and up to ten polls of
/// `GetCode`, else `StopRfSweep` and `LearnTimeout`.
#[derive(Clone, Copy, Debug, PartialEq, Eq, Structural)]
pub struct LearnSession {
    /// Whether an RF code is learned (else an IR code).
    pub rf: bool,
    /// The last command sent.
    pub stage: LearnStage,
    /// The polls made in the current stage.
    pub polls: u32,
}

/// The reply to `CheckFrequency` says that a frequency was found.
pub open spec fn frequency_locked(reply: Seq<u8>) -> bool {
    reply.len() > 0 && reply[0] == 1
}

/// An upper bound on the replies that a session still takes.
pub open spec fn steps_left(s: LearnSession) -> nat {
    let p = if s.polls <= LEARN_ATTEMPTS {
        (LEARN_ATTEMPTS - s.polls) as nat
    } else {
        0
    };
    match s.stage {
        LearnStage::EnteringIr => 12,
        LearnStage::Sweeping => 24,
        LearnStage::CheckingFrequency => p + 14,
        LearnStage::EnteringRf => 13,
        LearnStage::PollingCode => p + 2,
        LearnStage::Stopping(_) => 1,
        LearnStage::Finished => 0,
    }
}

/// The session and the step that follow `reply` in session `s`.
pub open spec fn learn_next(s: LearnSession, reply: Seq<u8>) -> (LearnSession, LearnStep) {
    match s.stage {
        LearnStage::EnteringIr | LearnStage::EnteringRf => (
            LearnSession { stage: LearnStage::PollingCode, polls: 1, ..s },
            LearnStep::Poll(RemoteDataCommand::GetCode),
        ),
        LearnStage::Sweeping => (
            LearnSession { stage: LearnStage::CheckingFrequency, polls: 1, ..s },
            LearnStep::Poll(RemoteDataCommand::CheckFrequency),
        ),
        LearnStage::CheckingFrequency => if frequency_locked(reply) {
            (
                LearnSession { stage: LearnStage::EnteringRf, polls: 0, ..s },
                LearnStep::Send(RemoteDataCommand::StartLearningRF),
            )
        } else if s.polls < LEARN_ATTEMPTS {
            (
                LearnSession { polls: (s.polls + 1) as u32, ..s },
                LearnStep::Poll(RemoteDataCommand::CheckFrequency),
            )
        } else {
            (
                LearnSession { stage: LearnStage::Stopping(Error::FrequencyNotFound), ..s },
                LearnStep::Send(RemoteDataCommand::StopRfSweep),
            )
        },
        LearnStage::PollingCode => if reply.len() > 0 {
            (LearnSession { stage: LearnStage::Finished, ..s }, LearnStep::Learned)
        } else if s.polls < LEARN_ATTEMPTS {
            (
                LearnSession { polls: (s.polls + 1) as u32, ..s },
                LearnStep::Poll(RemoteDataCommand::GetCode),
            )
        } else if s.rf {
            (
                LearnSession { stage: LearnStage::Stopping(Error::LearnTimeout), ..s },
                LearnStep::Send(RemoteDataCommand::StopRfSweep),
            )
        } else {
            (
                LearnSession { stage: LearnStage::Finished, ..s },
                LearnStep::Failed(Error::LearnTimeout),
            )
        },
        LearnStage::Stopping(e) => (
            LearnSession { stage: LearnStage::Finished, ..s },
            LearnStep::Failed(e),
        ),
        LearnStage::Finished => (s, LearnStep::Failed(Error::Timeout)),
    }
}

impl LearnSession {
    /// Starts learning an IR code: send the returned command.
    pub fn learn_ir() -> (r: (LearnSession, RemoteDataCommand))
        ensures
            r.0 == (LearnSession { rf: false, stage: LearnStage::EnteringIr, polls: 0 }),
            r.1 == RemoteDataCommand::StartLearningIR,
    {
        (LearnSession { rf: false, stage: LearnStage::EnteringIr, polls: 0 }, RemoteDataCommand::StartLearningIR)
    }

    /// Starts learning an RF code: send the returned command.
    pub fn learn_rf() -> (r: (LearnSession, RemoteDataCommand))
        ensures
            r.0 == (LearnSession { rf: true, stage: LearnStage::Sweeping, polls: 0 }),
            r.1 == RemoteDataCommand::SweepRfFrequencies,
    {
        (LearnSession { rf: true, stage: LearnStage::Sweeping, polls: 0 }, RemoteDataCommand::SweepRfFrequencies)
    }

    /// Takes the body of the reply to the last command sent and says what to
    /// do next; `Learned` means that this reply is the code.
    pub fn advance(&mut self, reply: &[u8]) -> (r: LearnStep)
        requires
            old(self).stage != LearnStage::Finished,
            old(self).polls <= LEARN_ATTEMPTS,
        ensures
            (*final(self), r) == learn_next(*old(self), reply@),
            final(self).polls <= LEARN_ATTEMPTS,
            steps_left(*final(self)) < steps_left(*old(self)),
    {
        match self.stage {
            LearnStage::EnteringIr | LearnStage::EnteringRf => {
                self.stage = LearnStage::PollingCode;
                self.polls = 1;
                LearnStep::Poll(RemoteDataCommand::GetCode)
            },
            LearnStage::Sweeping => {
                self.stage = LearnStage::CheckingFrequency;
                self.polls = 1;
                LearnStep::Poll(RemoteDataCommand::CheckFrequency)
            },
            LearnStage::CheckingFrequency => {
                if reply.len() > 0 && reply[0] == 1 {
                    self.stage = LearnStage::EnteringRf;
                    self.polls = 0;
                    LearnStep::Send(RemoteDataCommand::StartLearningRF)
                } else if self.polls < LEARN_ATTEMPTS {
                    self.polls = self.polls + 1;
                    LearnStep::Poll(RemoteDataCommand::CheckFrequency)
                } else {
                    self.stage = LearnStage::Stopping(Error::FrequencyNotFound);
                    LearnStep::Send(RemoteDataCommand::StopRfSweep)
                }
            },
            LearnStage::PollingCode => {
                if reply.len() > 0 {
                    self.stage = LearnStage::Finished;
                    LearnStep::Learned
                } else if self.polls < LEARN_ATTEMPTS {
                    self.polls = self.polls + 1;
                    LearnStep::Poll(RemoteDataCommand::GetCode)
                } else if self.rf {
                    self.stage = LearnStage::Stopping(Error::LearnTimeout);
                    LearnStep::Send(RemoteDataCommand::StopRfSweep)
                } else {
                    self.stage = LearnStage::Finished;
                    LearnStep::Failed(Error::LearnTimeout)
                }
            },
            LearnStage::Stopping(e) => {
                self.stage = LearnStage::Finished;
                LearnStep::Failed(e)
            },
            LearnStage::Finished => LearnStep::Failed(Error::Timeout),
        }
    }

    /// Whether the procedure is over.
    pub fn is_finished(&self) -> (r: bool)
        ensures
            r == (self.stage == LearnStage::Finished),
    {
        match self.stage {
            LearnStage::Finished => true,
            _ => false,
        }
    }
}

} // verus!
