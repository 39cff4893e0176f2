//! The inner payload of commands to IR/RF remotes.

use vstd::prelude::*;

use crate::error::{bytes_result, Error, Field};
use crate::network::util::{le16, read_le16, u16_from_le, u16_le};
use crate::traits::CommandTrait;

verus! {

/// The command carried by a remote's data message.
#[derive(Clone, Copy, Debug, PartialEq, Eq, Structural)]
pub enum RemoteDataCommand {
    /// Send the attached IR/RF code.
    SendCode,
    /// Start learning an IR code.
    StartLearningIR,
    /// Start learning an RF code.
    StartLearningRF,
    /// Return the code learned; the reply is empty while none has been learned.
    GetCode,
    /// Start sweeping for RF frequencies.
    SweepRfFrequencies,
    /// Stop sweeping for RF frequencies.
    StopRfSweep,
    /// Ask whether the sweep has locked on a frequency.
    CheckFrequency,
}

impl RemoteDataCommand {
    /// The byte of this command on the wire.
    pub open spec fn spec_code(self) -> u8 {
        match self {
            RemoteDataCommand::SendCode => 0x02,
            RemoteDataCommand::StartLearningIR => 0x03,
            RemoteDataCommand::StartLearningRF => 0x1B,
            RemoteDataCommand::GetCode => 0x04,
            RemoteDataCommand::SweepRfFrequencies => 0x19,
            RemoteDataCommand::StopRfSweep => 0x1E,
            RemoteDataCommand::CheckFrequency => 0x1A,
        }
    }

    /// The byte of this command on the wire.
    pub fn code(self) -> (r: u8)
        ensures
            r == self.spec_code(),
    {
        match self {
            RemoteDataCommand::SendCode => 0x02,
            RemoteDataCommand::StartLearningIR => 0x03,
            RemoteDataCommand::StartLearningRF => 0x1B,
            RemoteDataCommand::GetCode => 0x04,
            RemoteDataCommand::SweepRfFrequencies => 0x19,
            RemoteDataCommand::StopRfSweep => 0x1E,
            RemoteDataCommand::CheckFrequency => 0x1A,
        }
    }
}

/// The header of a remote's data message: 6 bytes before the body.
#[derive(Clone, Copy, Debug)]
pub struct RemoteDataMessage {
    /// Body length plus the 4-byte stop tail.
    payload_length: u16,
    /// What the device is asked to do.
    command: RemoteDataCommand,
}

/// The largest body whose length, with the stop tail, fits the length field.
pub const MAX_REMOTE_BODY: usize = 0xFFFB;

/// The packed form of a remote data message carrying body `p`.
pub open spec fn remote_frame(command: RemoteDataCommand, p: Seq<u8>) -> Seq<u8> {
    le16((p.len() + 4) as u16) + seq![command.spec_code(), 0u8, 0u8, 0u8] + p
}

/// The body that a remote's reply carries: nothing for a short acknowledgement,
/// else the `payload_length - 4` bytes after the header.
pub open spec fn remote_body(b: Seq<u8>) -> Result<Seq<u8>, Error> {
    if b.len() < 6 {
        Ok(Seq::empty())
    } else {
        let n = read_le16(b[0], b[1]) as int;
        if n < 4 || 6 + n - 4 > b.len() {
            Err(Error::DecodeError(Field::PayloadLength))
        } else {
            Ok(b.subrange(6, 6 + n - 4))
        }
    }
}

impl RemoteDataMessage {
    pub closed spec fn spec_command(self) -> RemoteDataCommand {
        self.command
    }

    /// Creates a message for `command_type`, with no body yet.
    pub fn new(command_type: RemoteDataCommand) -> (r: RemoteDataMessage)
        ensures
            r.spec_command() == command_type,
    {
        RemoteDataMessage { payload_length: 0, command: command_type }
    }

    /// Packs the header followed by `payload`. The 4-byte stop tail is counted
    /// in the length field but not written: the cipher's zero padding supplies it.
    pub fn pack_with_payload(self, payload: &[u8]) -> (r: Result<Vec<u8>, Error>)
        ensures
            payload@.len() <= MAX_REMOTE_BODY ==> bytes_result(r) == Ok::<Seq<u8>, Error>(
                remote_frame(self.spec_command(), payload@),
            ),
            payload@.len() > MAX_REMOTE_BODY ==> r == Err::<Vec<u8>, Error>(
                Error::FieldTooLong { field: Field::Payload, limit: MAX_REMOTE_BODY },
            ),
    {
        if payload.len() > MAX_REMOTE_BODY {
            return Err(Error::FieldTooLong { field: Field::Payload, limit: MAX_REMOTE_BODY });
        }
        let mut msg = self;
        msg.payload_length = payload.len() as u16 + 4;
        let len = u16_le(msg.payload_length);
        let mut result: Vec<u8> = Vec::new();
        result.push(len[0]);
        result.push(len[1]);
        result.push(msg.command.code());
        result.push(0);
        result.push(0);
        result.push(0);
        result.extend_from_slice(payload);
        assert(result@ =~= remote_frame(self.spec_command(), payload@));
        Ok(result)
    }

    /// Unpacks a remote's reply and returns its body.
    ///
    /// A reply shorter than the header is an acknowledgement without data and
    /// gives an empty body. The command byte is not checked: devices may echo
    /// another one.
    pub fn unpack_with_payload(bytes: &[u8]) -> (r: Result<Vec<u8>, Error>)
        ensures
            bytes_result(r) == remote_body(bytes@),
    {
        if bytes.len() < 6 {
            return Ok(Vec::new());
        }
        let n = u16_from_le(bytes[0], bytes[1]) as usize;
        if n < 4 || bytes.len() - 6 < n - 4 {
            return Err(Error::DecodeError(Field::PayloadLength));
        }
        let mut body: Vec<u8> = Vec::new();
        let end: usize = 6 + (n - 4);
        let mut i: usize = 6;
        while i < end
            invariant
                end == 6 + n - 4 <= bytes@.len(),
                6 <= i <= end,
                body@ =~= bytes@.subrange(6, i as int),
            decreases end - i,
        {
            body.push(bytes[i]);
            i = i + 1;
        }
        Ok(body)
    }
}

/// Unpacking a packed remote message gives back its body.
pub proof fn lemma_remote_round_trip(command: RemoteDataCommand, p: Seq<u8>)
    requires
        p.len() <= MAX_REMOTE_BODY,
    ensures
        remote_body(remote_frame(command, p)) == Ok::<Seq<u8>, Error>(p),
{
    let f = remote_frame(command, p);
    assert(f[0] == le16((p.len() + 4) as u16)[0]);
    assert(f[1] == le16((p.len() + 4) as u16)[1]);
    assert(f.subrange(6, 6 + p.len() as int) =~= p);
}

impl CommandTrait for RemoteDataMessage {
    open spec fn spec_packet_type() -> u16 {
        0x006A
    }

    fn packet_type() -> (r: u16) {
        0x006A
    }
}

} // verus!
