//! Catalogue of command opcodes used on the wire.

use vstd::prelude::*;

verus! {

/// A command opcode.  Every package carries one; opcodes outside the
/// catalogue are retained verbatim in `Unknown` and round-trip.
#[derive(Copy, Clone, Debug)]
pub enum Cmd {
    HeartbeatRequest,
    HeartbeatResponse,
    IdentifyClient,
    ClientIdentified,
    Authenticate,
    Authenticated,
    NotAuthenticated,
    WriteEvents,
    WriteEventsCompleted,
    ReadEvent,
    ReadEventCompleted,
    TransactionStart,
    TransactionStartCompleted,
    TransactionWrite,
    TransactionWriteCompleted,
    TransactionCommit,
    TransactionCommitCompleted,
    Unknown(u8),
}

impl Cmd {
    /// The opcode byte of a command.
    pub open spec fn spec_to_u8(self) -> u8 {
        match self {
            Cmd::HeartbeatRequest => 0x01,
            Cmd::HeartbeatResponse => 0x02,
            Cmd::IdentifyClient => 0xF5,
            Cmd::ClientIdentified => 0xF6,
            Cmd::Authenticate => 0xF2,
            Cmd::Authenticated => 0xF3,
            Cmd::NotAuthenticated => 0xF4,
            Cmd::WriteEvents => 0x82,
            Cmd::WriteEventsCompleted => 0x83,
            Cmd::ReadEvent => 0xB0,
            Cmd::ReadEventCompleted => 0xB1,
            Cmd::TransactionStart => 0x84,
            Cmd::TransactionStartCompleted => 0x85,
            Cmd::TransactionWrite => 0x86,
            Cmd::TransactionWriteCompleted => 0x87,
            Cmd::TransactionCommit => 0x88,
            Cmd::TransactionCommitCompleted => 0x89,
            Cmd::Unknown(cmd) => cmd,
        }
    }

    /// The command named by an opcode byte; bytes outside the catalogue
    /// are kept verbatim.
    pub open spec fn spec_from_u8(cmd: u8) -> Cmd {
        if cmd == 0x01 {
            Cmd::HeartbeatRequest
        } else if cmd == 0x02 {
            Cmd::HeartbeatResponse
        } else if cmd == 0xF5 {
            Cmd::IdentifyClient
        } else if cmd == 0xF6 {
            Cmd::ClientIdentified
        } else if cmd == 0xF2 {
            Cmd::Authenticate
        } else if cmd == 0xF3 {
            Cmd::Authenticated
        } else if cmd == 0xF4 {
            Cmd::NotAuthenticated
        } else if cmd == 0x82 {
            Cmd::WriteEvents
        } else if cmd == 0x83 {
            Cmd::WriteEventsCompleted
        } else if cmd == 0xB0 {
            Cmd::ReadEvent
        } else if cmd == 0xB1 {
            Cmd::ReadEventCompleted
        } else if cmd == 0x84 {
            Cmd::TransactionStart
        } else if cmd == 0x85 {
            Cmd::TransactionStartCompleted
        } else if cmd == 0x86 {
            Cmd::TransactionWrite
        } else if cmd == 0x87 {
            Cmd::TransactionWriteCompleted
        } else if cmd == 0x88 {
            Cmd::TransactionCommit
        } else if cmd == 0x89 {
            Cmd::TransactionCommitCompleted
        } else {
            Cmd::Unknown(cmd)
        }
    }

    pub fn to_u8(&self) -> (r: u8)
        ensures
            r == self.spec_to_u8(),
    {
        match *self {
            Cmd::HeartbeatRequest => 0x01,
            Cmd::HeartbeatResponse => 0x02,
            Cmd::IdentifyClient => 0xF5,
            Cmd::ClientIdentified => 0xF6,
            Cmd::Authenticate => 0xF2,
            Cmd::Authenticated => 0xF3,
            Cmd::NotAuthenticated => 0xF4,
            Cmd::WriteEvents => 0x82,
            Cmd::WriteEventsCompleted => 0x83,
            Cmd::ReadEvent => 0xB0,
            Cmd::ReadEventCompleted => 0xB1,
            Cmd::TransactionStart => 0x84,
            Cmd::TransactionStartCompleted => 0x85,
            Cmd::TransactionWrite => 0x86,
            Cmd::TransactionWriteCompleted => 0x87,
            Cmd::TransactionCommit => 0x88,
            Cmd::TransactionCommitCompleted => 0x89,
            Cmd::Unknown(cmd) => cmd,
        }
    }

    pub fn from_u8(cmd: u8) -> (r: Cmd)
        ensures
            r == Cmd::spec_from_u8(cmd),
    {
        match cmd {
            0x01 => Cmd::HeartbeatRequest,
            0x02 => Cmd::HeartbeatResponse,
            0xF5 => Cmd::IdentifyClient,
            0xF6 => Cmd::ClientIdentified,
            0xF2 => Cmd::Authenticate,
            0xF3 => Cmd::Authenticated,
            0xF4 => Cmd::NotAuthenticated,
            0x82 => Cmd::WriteEvents,
            0x83 => Cmd::WriteEventsCompleted,
            0xB0 => Cmd::ReadEvent,
            0xB1 => Cmd::ReadEventCompleted,
            0x84 => Cmd::TransactionStart,
            0x85 => Cmd::TransactionStartCompleted,
            0x86 => Cmd::TransactionWrite,
            0x87 => Cmd::TransactionWriteCompleted,
            0x88 => Cmd::TransactionCommit,
            0x89 => Cmd::TransactionCommitCompleted,
            _ => Cmd::Unknown(cmd),
        }
    }
}

/// Two commands are equal exactly when their opcode bytes are equal,
/// so `Unknown` never aliases a catalogued command under a distinct byte.
impl PartialEq for Cmd {
    fn eq(&self, other: &Cmd) -> (r: bool) {
        self.to_u8() == other.to_u8()
    }
}

impl Eq for Cmd {
}

impl vstd::std_specs::cmp::PartialEqSpecImpl for Cmd {
    open spec fn obeys_eq_spec() -> bool {
        true
    }

    open spec fn eq_spec(&self, other: &Cmd) -> bool {
        self.spec_to_u8() == other.spec_to_u8()
    }
}

/// Every opcode byte round-trips through the catalogue: decoding a byte
/// and re-encoding it yields the byte itself, catalogued or not.
pub proof fn lemma_opcode_round_trip(cmd: u8)
    ensures
        Cmd::spec_from_u8(cmd).spec_to_u8() == cmd,
{
}

/// Whether a byte names a catalogued command.
pub open spec fn catalogued(cmd: u8) -> bool {
    !(Cmd::spec_from_u8(cmd) matches Cmd::Unknown(_))
}

/// A byte outside the catalogue is retained verbatim.
pub proof fn lemma_unknown_verbatim(cmd: u8)
    requires
        !catalogued(cmd),
    ensures
        Cmd::spec_from_u8(cmd) == Cmd::Unknown(cmd),
{
}

} // verus!
