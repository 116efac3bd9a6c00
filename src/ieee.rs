//! The IEEE 488.2 common commands: identification and device reset.
use vstd::prelude::*;
use vstd::string::*;
use crate::driver::{Access, Device};
use crate::protocol::{response_view, same_text, Response};

verus! {

/// The commands of the identification family. `Unknown` stands for any other
/// name.
#[derive(Clone, Copy, Debug, PartialEq, Eq, Structural)]
pub enum Command {
    Identify,
    Reset,
    Unknown,
}

/// The command that a name selects. Names are matched case-sensitively.
pub open spec fn command_of(name: Seq<char>) -> Command {
    if name == "*IDN?"@ {
        Command::Identify
    } else if name == "*RST"@ {
        Command::Reset
    } else {
        Command::Unknown
    }
}

/// Whether the identification family owns a command name.
pub open spec fn accepts(name: Seq<char>) -> bool {
    !(command_of(name) is Unknown)
}

impl Command {
    /// The command that a name selects, `Unknown` for a name of no command.
    pub fn parse(name: &str) -> (r: Command)
        ensures
            r == command_of(name@),
    {
        if same_text(name, "*IDN?") {
            Command::Identify
        } else if same_text(name, "*RST") {
            Command::Reset
        } else {
            Command::Unknown
        }
    }
}

impl From<String> for Command {
    fn from(s: String) -> Command {
        Command::parse(s.as_str())
    }
}

impl vstd::std_specs::convert::FromSpecImpl<String> for Command {
    open spec fn obeys_from_spec() -> bool {
        true
    }

    open spec fn from_spec(s: String) -> Command {
        command_of(s@)
    }
}

/// Whether the identification family owns a command name.
pub fn accept(name: &str) -> (r: bool)
    ensures
        r == accepts(name@),
{
    !matches!(Command::parse(name), Command::Unknown)
}

/// What executing `c` may do. The identification query asks the driver for
/// its version and answers with it; the reset returns the board to its
/// defaults and answers nothing, or the driver's reason. Arguments are
/// ignored.
pub open spec fn executes(
    c: Command,
    before: Seq<Access>,
    after: Seq<Access>,
    r: Result<Option<Seq<char>>, Seq<char>>,
) -> bool {
    match c {
        Command::Identify => after == before.push(Access::Identify) && r is Ok && r->Ok_0 is Some,
        Command::Reset => after == before.push(Access::BoardReset) && (r is Ok ==> r->Ok_0 is None),
        Command::Unknown => r == Err::<Option<Seq<char>>, Seq<char>>("Unknown command"@) && after
            == before,
    }
}

/// Executes an identification-family command.
pub fn execute(device: &mut Device, command: Command, args: Vec<String>) -> (r: Response)
    ensures
        executes(command, old(device).history(), final(device).history(), response_view(r)),
{
    match command {
        Command::Identify => Ok(Some(device.version())),
        Command::Reset => match device.reset_board() {
            Ok(()) => Ok(None),
            Err(m) => Err(m),
        },
        Command::Unknown => Err(String::from_str("Unknown command")),
    }
}

} // verus!
