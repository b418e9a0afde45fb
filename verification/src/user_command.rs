use vstd::prelude::*;

verus! {

/// What the user asked the tool to do.
#[derive(Clone, Copy, Debug, PartialEq, Eq, Structural)]
pub enum UserCommand {
    Scan,
    ScheduleScan,
    ScanResults,
    Survey,
    Disconnect,
    Monitor,
}

/// Whether a command changes what the radio does, and so is kept for the
/// administrator: all but the three that only read.
pub open spec fn privileged(command: UserCommand) -> bool {
    !(command == UserCommand::ScanResults || command == UserCommand::Survey || command
        == UserCommand::Monitor)
}

impl UserCommand {
    /// Whether the command is kept for the administrator.
    pub fn requires_root(&self) -> (r: bool)
        ensures
            r == privileged(*self),
    {
        match *self {
            UserCommand::Scan => true,
            UserCommand::ScheduleScan => true,
            UserCommand::ScanResults => false,
            UserCommand::Survey => false,
            UserCommand::Disconnect => true,
            UserCommand::Monitor => false,
        }
    }
}

} // verus!
