use vstd::prelude::*;

verus! {

/// Lifecycle state of a test session, as reported by the remote controller.
///
/// The five-way success path is `Offline -> Online -> InProgress -> {Pass | Fail}`;
/// the `E*` variants are controller-reported device or communication errors, and
/// `EUnknown` is the catch-all for responses that cannot be understood.
#[derive(Clone, Copy, Debug, PartialEq, Eq, Structural)]
pub enum State {
    Offline,
    Online,
    InProgress,
    Pass,
    Fail,
    ENoFirmware,
    ENoRead,
    ENoWrite,
    EOpen,
    EUnknown,
}

impl State {
    /// Integer wire code of each state, stable across a session.
    pub open spec fn spec_code(self) -> int {
        match self {
            State::Offline => 0,
            State::Online => 1,
            State::InProgress => 2,
            State::Pass => 3,
            State::Fail => 4,
            State::ENoFirmware => -1,
            State::ENoRead => -2,
            State::ENoWrite => -3,
            State::EOpen => -4,
            State::EUnknown => -6,
        }
    }

    /// Encode this state as its integer wire code.
    pub fn code(&self) -> (c: i32)
        ensures
            c == self.spec_code(),
    {
        match self {
            State::Offline => 0,
            State::Online => 1,
            State::InProgress => 2,
            State::Pass => 3,
            State::Fail => 4,
            State::ENoFirmware => -1,
            State::ENoRead => -2,
            State::ENoWrite => -3,
            State::EOpen => -4,
            State::EUnknown => -6,
        }
    }

    /// True exactly for the integer codes that stand for a state in the wire table.
    pub open spec fn is_wire_code(code: int) -> bool {
        ||| code == 0
        ||| code == 1
        ||| code == 2
        ||| code == 3
        ||| code == 4
        ||| code == -1
        ||| code == -2
        ||| code == -3
        ||| code == -4
        ||| code == -6
    }

    /// The state a wire code stands for; any integer outside the table is `EUnknown`.
    pub open spec fn spec_from_code(code: int) -> State {
        if code == 0 {
            State::Offline
        } else if code == 1 {
            State::Online
        } else if code == 2 {
            State::InProgress
        } else if code == 3 {
            State::Pass
        } else if code == 4 {
            State::Fail
        } else if code == -1 {
            State::ENoFirmware
        } else if code == -2 {
            State::ENoRead
        } else if code == -3 {
            State::ENoWrite
        } else if code == -4 {
            State::EOpen
        } else {
            State::EUnknown
        }
    }

    /// Decode an integer wire code; undefined codes map to `EUnknown` rather than failing.
    pub fn from_code(code: i32) -> (s: State)
        ensures
            s == State::spec_from_code(code as int),
    {
        if code == 0 {
            State::Offline
        } else if code == 1 {
            State::Online
        } else if code == 2 {
            State::InProgress
        } else if code == 3 {
            State::Pass
        } else if code == 4 {
            State::Fail
        } else if code == -1 {
            State::ENoFirmware
        } else if code == -2 {
            State::ENoRead
        } else if code == -3 {
            State::ENoWrite
        } else if code == -4 {
            State::EOpen
        } else {
            State::EUnknown
        }
    }

    /// The fixed human-readable message displayed for each state.
    pub open spec fn spec_message(self) -> Seq<char> {
        match self {
            State::Offline => "Trying to connect to server..."@,
            State::Online => "Server is up. Waiting for test to begin."@,
            State::InProgress => "Microcontroller has began testing"@,
            State::Pass => "The test inidicates the device passes"@,
            State::Fail => "The test indicates the device fails"@,
            State::ENoFirmware => "No Firmware was found for the selected device"@,
            State::ENoRead => "There was an error reading data from the microcontroller"@,
            State::ENoWrite => "There was an error writing data to the microcontroller"@,
            State::EOpen => "There was an error trying to communicate to the microcontroller"@,
            State::EUnknown => "Something bad went wrong, check browser console"@,
        }
    }

    /// Human-readable message for this state.
    pub fn message(&self) -> (m: &str)
        ensures
            m@ == self.spec_message(),
    {
        match self {
            State::Offline => "Trying to connect to server...",
            State::Online => "Server is up. Waiting for test to begin.",
            State::InProgress => "Microcontroller has began testing",
            State::Pass => "The test inidicates the device passes",
            State::Fail => "The test indicates the device fails",
            State::ENoFirmware => "No Firmware was found for the selected device",
            State::ENoRead => "There was an error reading data from the microcontroller",
            State::ENoWrite => "There was an error writing data to the microcontroller",
            State::EOpen => "There was an error trying to communicate to the microcontroller",
            State::EUnknown => "Something bad went wrong, check browser console",
        }
    }
}

/// Law: encoding a state to its wire code and decoding that code reproduces the
/// same state, for every state.
pub proof fn lemma_code_round_trip(s: State)
    ensures
        State::spec_from_code(s.spec_code()) == s,
{
}

/// Law: decoding any integer outside the wire-code table yields `EUnknown`.
pub proof fn lemma_unlisted_code_is_unknown(code: int)
    requires
        !State::is_wire_code(code),
    ensures
        State::spec_from_code(code) == State::EUnknown,
{
}

} // verus!
