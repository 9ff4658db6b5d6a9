//! The generic `{op, d}` envelope and the fixed operation vocabulary.

use vstd::prelude::*;

verus! {

/// The operations of the gateway protocol.
#[derive(Clone, Copy, Debug, PartialEq, Eq, Structural)]
pub enum OpCode {
    Dispatch,
    Hello,
    Identify,
    Heartbeat,
    HeartbeatAck,
}

/// The number that stands for an operation on the wire.
pub open spec fn spec_code(op: OpCode) -> u64 {
    match op {
        OpCode::Dispatch => 0,
        OpCode::Hello => 1,
        OpCode::Identify => 2,
        OpCode::Heartbeat => 3,
        OpCode::HeartbeatAck => 4,
    }
}

/// The operation that a wire number stands for, if it is one of the vocabulary.
pub open spec fn spec_op_of(code: u64) -> Option<OpCode> {
    if code == 0 {
        Some(OpCode::Dispatch)
    } else if code == 1 {
        Some(OpCode::Hello)
    } else if code == 2 {
        Some(OpCode::Identify)
    } else if code == 3 {
        Some(OpCode::Heartbeat)
    } else if code == 4 {
        Some(OpCode::HeartbeatAck)
    } else {
        None
    }
}

impl OpCode {
    pub fn code(self) -> (r: u64)
        ensures
            r == spec_code(self),
    {
        match self {
            OpCode::Dispatch => 0,
            OpCode::Hello => 1,
            OpCode::Identify => 2,
            OpCode::Heartbeat => 3,
            OpCode::HeartbeatAck => 4,
        }
    }

    pub fn from_code(code: u64) -> (r: Option<OpCode>)
        ensures
            r == spec_op_of(code),
    {
        if code == 0 {
            Some(OpCode::Dispatch)
        } else if code == 1 {
            Some(OpCode::Hello)
        } else if code == 2 {
            Some(OpCode::Identify)
        } else if code == 3 {
            Some(OpCode::Heartbeat)
        } else if code == 4 {
            Some(OpCode::HeartbeatAck)
        } else {
            None
        }
    }
}

/// Every operation reads back from its own wire number.
pub proof fn lemma_code_round_trip(op: OpCode)
    ensures
        spec_op_of(spec_code(op)) == Some(op),
{
}

/// An envelope as it travels: the operation's wire number and, when present,
/// the JSON text of its payload.
pub struct Envelope {
    pub code: u64,
    pub payload: Option<String>,
}

/// What an envelope holds, as mathematical values.
pub struct EnvelopeView {
    pub code: u64,
    pub payload: Option<Seq<char>>,
}

pub open spec fn opt_string_view(s: Option<String>) -> Option<Seq<char>> {
    match s {
        Some(t) => Some(t@),
        None => None,
    }
}

impl View for Envelope {
    type V = EnvelopeView;

    open spec fn view(&self) -> EnvelopeView {
        EnvelopeView { code: self.code, payload: opt_string_view(self.payload) }
    }
}

impl Envelope {
    /// The operation of the envelope; `None` for a number outside the vocabulary.
    pub fn operation(&self) -> (r: Option<OpCode>)
        ensures
            r == spec_op_of(self.code),
    {
        OpCode::from_code(self.code)
    }
}

} // verus!
