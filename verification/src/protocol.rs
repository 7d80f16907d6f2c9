//! The host-command protocol of the embedded controller: which bytes a
//! command puts on the wire, how long the answer to it must be, and what an
//! exchange with the controller amounts to once the transport has returned.
//!
//! An exchange is one request and one answer; nothing here retries.

use vstd::prelude::*;
use crate::command::{Command, KeyboardBacklightState};

verus! {

/// The status with which the controller reports success.
pub const STATUS_SUCCESS: u32 = 0;

/// Why a command did not yield a response.
#[derive(Clone, Copy, Debug, PartialEq, Eq, Structural)]
pub enum CommandError {
    /// The transport call itself failed, with this OS error.
    Transport { errno: i32 },
    /// The controller answered with a status other than success.
    Status { code: u32 },
    /// The controller reported success, but its answer does not have the
    /// length that the command's response has.
    Protocol { expected: usize, actual: usize },
}

/// What the transport brought back for one request.
#[derive(Debug, PartialEq, Eq)]
pub enum Reply {
    /// The transport call failed.
    Failed { errno: i32 },
    /// The controller answered.
    Answered { status: u32, payload: Vec<u8> },
}

/// The decoded response to a command.
#[derive(Clone, Copy, Debug, PartialEq, Eq, Structural)]
pub enum Response {
    /// The answer to `GetKeyboardBacklight`.
    KeyboardBacklight(KeyboardBacklightState),
    /// The answer to a command that only sets something.
    Done,
}

impl KeyboardBacklightState {
    /// The state as the controller puts it on the wire: the percentage, then
    /// the enabled flag.
    pub open spec fn wire(self) -> Seq<u8> {
        seq![self.percent, if self.enabled { 1u8 } else { 0u8 }]
    }

    /// The state that two bytes from the controller stand for. Any nonzero
    /// flag byte means enabled.
    pub open spec fn from_wire(bytes: Seq<u8>) -> KeyboardBacklightState {
        KeyboardBacklightState { enabled: bytes[1] != 0, percent: bytes[0] }
    }
}

impl Command {
    /// The number of the command.
    pub open spec fn wire_opcode(self) -> u16 {
        match self {
            Command::GetKeyboardBacklight => 0x22,
            Command::SetKeyboardBacklight { .. } => 0x23,
            Command::SetLed(_) => 0x29,
        }
    }

    /// The version of the command whose layouts are used.
    pub open spec fn wire_version(self) -> u8 {
        match self {
            Command::GetKeyboardBacklight => 0,
            Command::SetKeyboardBacklight { .. } => 0,
            Command::SetLed(_) => 1,
        }
    }

    /// The request's payload: nothing for a read, the percentage for the
    /// backlight, and for an LED its identifier, its flags and one byte per
    /// colour channel.
    pub open spec fn wire_payload(self) -> Seq<u8> {
        match self {
            Command::GetKeyboardBacklight => Seq::empty(),
            Command::SetKeyboardBacklight { percent } => seq![percent],
            Command::SetLed(led) => seq![led.id.wire(), led.mode.wire()] + led.brightness.wire(),
        }
    }

    /// The length of the response's payload.
    pub open spec fn wire_response_len(self) -> nat {
        match self {
            Command::GetKeyboardBacklight => 2,
            Command::SetKeyboardBacklight { .. } => 0,
            Command::SetLed(_) => 6,
        }
    }

    /// The response that a payload of the right length stands for.
    pub open spec fn decoded(self, payload: Seq<u8>) -> Response {
        match self {
            Command::GetKeyboardBacklight => Response::KeyboardBacklight(
                KeyboardBacklightState::from_wire(payload),
            ),
            _ => Response::Done,
        }
    }

    /// What an exchange amounts to. A failed transport call is reported
    /// first; then a status other than success, whatever came with it; then
    /// an answer of the wrong length. Only an answer that passes all three
    /// is decoded.
    pub open spec fn outcome(self, reply: Reply) -> Result<Response, CommandError> {
        match reply {
            Reply::Failed { errno } => Err(CommandError::Transport { errno }),
            Reply::Answered { status, payload } => {
                if status != STATUS_SUCCESS {
                    Err(CommandError::Status { code: status })
                } else if payload@.len() != self.wire_response_len() {
                    Err(
                        CommandError::Protocol {
                            expected: self.wire_response_len() as usize,
                            actual: payload@.len() as usize,
                        },
                    )
                } else {
                    Ok(self.decoded(payload@))
                }
            },
        }
    }

    pub fn opcode(&self) -> (op: u16)
        ensures
            op == self.wire_opcode(),
    {
        match self {
            Command::GetKeyboardBacklight => 0x22,
            Command::SetKeyboardBacklight { .. } => 0x23,
            Command::SetLed(_) => 0x29,
        }
    }

    pub fn version(&self) -> (v: u8)
        ensures
            v == self.wire_version(),
    {
        match self {
            Command::GetKeyboardBacklight => 0,
            Command::SetKeyboardBacklight { .. } => 0,
            Command::SetLed(_) => 1,
        }
    }

    /// Encodes the request's payload.
    pub fn request_payload(&self) -> (bytes: Vec<u8>)
        ensures
            bytes@ == self.wire_payload(),
    {
        let mut bytes: Vec<u8> = Vec::new();
        match self {
            Command::GetKeyboardBacklight => {},
            Command::SetKeyboardBacklight { percent } => {
                bytes.push(*percent);
            },
            Command::SetLed(led) => {
                bytes.push(led.id.code());
                bytes.push(led.mode.flags());
                bytes.push(led.brightness.red);
                bytes.push(led.brightness.green);
                bytes.push(led.brightness.blue);
                bytes.push(led.brightness.yellow);
                bytes.push(led.brightness.white);
                bytes.push(led.brightness.amber);
            },
        }
        assert(bytes@ =~= self.wire_payload());
        bytes
    }

    pub fn response_len(&self) -> (len: usize)
        ensures
            len == self.wire_response_len(),
    {
        match self {
            Command::GetKeyboardBacklight => 2,
            Command::SetKeyboardBacklight { .. } => 0,
            Command::SetLed(_) => 6,
        }
    }

    /// Turns what the transport brought back for this command into the
    /// command's response or the error that the exchange ended in.
    pub fn complete(&self, reply: &Reply) -> (result: Result<Response, CommandError>)
        ensures
            result == self.outcome(*reply),
    {
        match reply {
            Reply::Failed { errno } => Err(CommandError::Transport { errno: *errno }),
            Reply::Answered { status, payload } => {
                let expected = self.response_len();
                if *status != STATUS_SUCCESS {
                    Err(CommandError::Status { code: *status })
                } else if payload.len() != expected {
                    Err(CommandError::Protocol { expected, actual: payload.len() })
                } else {
                    match self {
                        Command::GetKeyboardBacklight => Ok(
                            Response::KeyboardBacklight(
                                KeyboardBacklightState {
                                    enabled: payload[1] != 0,
                                    percent: payload[0],
                                },
                            ),
                        ),
                        _ => Ok(Response::Done),
                    }
                }
            },
        }
    }
}

/// The payload of every request has the length that belongs to its
/// operation, whatever values it carries.
pub proof fn lemma_request_length_is_fixed(command: Command)
    ensures
        command.wire_payload().len() == match command {
            Command::GetKeyboardBacklight => 0nat,
            Command::SetKeyboardBacklight { .. } => 1nat,
            Command::SetLed(_) => 8nat,
        },
{
}

/// A response is decoded exactly when the transport succeeded, the
/// controller reported success and the answer has the length that the
/// command's response has.
pub proof fn lemma_decoded_only_at_declared_length(command: Command, reply: Reply)
    ensures
        command.outcome(reply) is Ok <==> (reply matches Reply::Answered { status, payload }
            && status == STATUS_SUCCESS && payload@.len() == command.wire_response_len()),
{
}

/// Decoding the backlight state inverts the controller's encoding of it.
pub proof fn lemma_backlight_state_round_trip(state: KeyboardBacklightState)
    ensures
        state.wire().len() == (Command::GetKeyboardBacklight).wire_response_len(),
        KeyboardBacklightState::from_wire(state.wire()) == state,
{
}

} // verus!
