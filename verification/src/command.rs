use vstd::prelude::*;
use vstd::std_specs::convert::FromSpecImpl;

verus! {

/// A command of the wireless configuration protocol, as carried in the
/// first byte of a generic message.
#[derive(Clone, Copy, Debug, PartialEq, Eq, Structural)]
pub enum Command {
    Unspecified,
    /// Asks for the wireless interfaces.
    GetInterface,
    /// Describes one wireless interface.
    NewInterface,
    /// Asks for the results of the last scan.
    GetScan,
    /// Starts a scan, or tells that one has started.
    TriggerScan,
    /// Carries one scan result, or tells that results are ready.
    NewScanResults,
    Disconnect,
    /// Asks for the channel survey.
    GetSurvey,
    /// Carries one survey record.
    NewSurveyResults,
    /// Carries a management frame.
    Frame,
    /// Starts a scan that repeats.
    StartScheduledScan,
    /// Stops a scan that repeats.
    StopScheduledScan,
    /// A code that this table does not list, kept as it came.
    Unknown(u8),
}

impl Command {
    /// The entry that a code stands for.
    pub open spec fn of_code(code: u8) -> Command {
        match code {
            0 => Command::Unspecified,
            5 => Command::GetInterface,
            7 => Command::NewInterface,
            32 => Command::GetScan,
            33 => Command::TriggerScan,
            34 => Command::NewScanResults,
            48 => Command::Disconnect,
            50 => Command::GetSurvey,
            51 => Command::NewSurveyResults,
            59 => Command::Frame,
            75 => Command::StartScheduledScan,
            76 => Command::StopScheduledScan,
            _ => Command::Unknown(code),
        }
    }

    /// The code that stands for an entry.
    pub open spec fn code_of(self) -> u8 {
        match self {
            Command::Unspecified => 0,
            Command::GetInterface => 5,
            Command::NewInterface => 7,
            Command::GetScan => 32,
            Command::TriggerScan => 33,
            Command::NewScanResults => 34,
            Command::Disconnect => 48,
            Command::GetSurvey => 50,
            Command::NewSurveyResults => 51,
            Command::Frame => 59,
            Command::StartScheduledScan => 75,
            Command::StopScheduledScan => 76,
            Command::Unknown(code) => code,
        }
    }

    /// No code is lost: the entry made from a code gives that code back.
    pub proof fn lemma_code_round_trip(code: u8)
        ensures
            Command::of_code(code).code_of() == code,
    {
    }
}

impl From<u8> for Command {
    fn from(code: u8) -> (r: Command) {
        match code {
            0 => Command::Unspecified,
            5 => Command::GetInterface,
            7 => Command::NewInterface,
            32 => Command::GetScan,
            33 => Command::TriggerScan,
            34 => Command::NewScanResults,
            48 => Command::Disconnect,
            50 => Command::GetSurvey,
            51 => Command::NewSurveyResults,
            59 => Command::Frame,
            75 => Command::StartScheduledScan,
            76 => Command::StopScheduledScan,
            _ => Command::Unknown(code),
        }
    }
}

impl FromSpecImpl<u8> for Command {
    open spec fn obeys_from_spec() -> bool {
        true
    }

    open spec fn from_spec(code: u8) -> Command {
        Command::of_code(code)
    }
}

impl From<Command> for u8 {
    fn from(entry: Command) -> (r: u8) {
        match entry {
            Command::Unspecified => 0,
            Command::GetInterface => 5,
            Command::NewInterface => 7,
            Command::GetScan => 32,
            Command::TriggerScan => 33,
            Command::NewScanResults => 34,
            Command::Disconnect => 48,
            Command::GetSurvey => 50,
            Command::NewSurveyResults => 51,
            Command::Frame => 59,
            Command::StartScheduledScan => 75,
            Command::StopScheduledScan => 76,
            Command::Unknown(code) => code,
        }
    }
}

impl FromSpecImpl<Command> for u8 {
    open spec fn obeys_from_spec() -> bool {
        true
    }

    open spec fn from_spec(entry: Command) -> u8 {
        entry.code_of()
    }
}
} // verus!
