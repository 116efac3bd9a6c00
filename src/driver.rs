//! The board's driver, reached through one handle that records every request
//! it passes on.
use vstd::prelude::*;
use vstd::string::*;

verus! {

#[verifier::external_type_specification]
#[verifier::external_body]
pub struct ExBoardError(redpitaya::Error);

/// The level of a digital pin.
#[derive(Clone, Copy, Debug, PartialEq, Eq, Structural)]
pub enum State {
    Low,
    High,
}

/// Whether a digital pin reads or drives its line.
#[derive(Clone, Copy, Debug, PartialEq, Eq, Structural)]
pub enum Direction {
    In,
    Out,
}

/// The names of the board's digital pins: `LED0` to `LED7`, `DIO0_P` to
/// `DIO7_P` and `DIO0_N` to `DIO7_N`.
pub open spec fn is_pin_name(s: Seq<char>) -> bool {
    ||| (s.len() == 4 && s.subrange(0, 3) == seq!['L', 'E', 'D'] && '0' <= s[3] && s[3] <= '7')
    ||| (s.len() == 6 && s.subrange(0, 3) == seq!['D', 'I', 'O'] && '0' <= s[3] && s[3] <= '7'
        && s[4] == '_' && (s[5] == 'P' || s[5] == 'N'))
}

/// Whether `s` names a digital pin of the board.
pub fn pin_name(s: &str) -> (r: bool)
    ensures
        r == is_pin_name(s@),
{
    let n = s.unicode_len();
    if n == 4 {
        let c = s.get_char(3);
        let r = s.get_char(0) == 'L' && s.get_char(1) == 'E' && s.get_char(2) == 'D' && '0' <= c
            && c <= '7';
        assert(r ==> s@.subrange(0, 3) == seq!['L', 'E', 'D']);
        assert(s@.subrange(0, 3) == seq!['L', 'E', 'D'] ==> s@.subrange(0, 3)[0] == 'L'
            && s@.subrange(0, 3)[1] == 'E' && s@.subrange(0, 3)[2] == 'D');
        r
    } else if n == 6 {
        let c = s.get_char(3);
        let last = s.get_char(5);
        let r = s.get_char(0) == 'D' && s.get_char(1) == 'I' && s.get_char(2) == 'O' && '0' <= c
            && c <= '7' && s.get_char(4) == '_' && (last == 'P' || last == 'N');
        assert(r ==> s@.subrange(0, 3) == seq!['D', 'I', 'O']);
        assert(s@.subrange(0, 3) == seq!['D', 'I', 'O'] ==> s@.subrange(0, 3)[0] == 'D'
            && s@.subrange(0, 3)[1] == 'I' && s@.subrange(0, 3)[2] == 'O');
        r
    } else {
        false
    }
}

/// A request to the driver, as recorded by a [`Device`].
pub enum Access {
    Identify,
    BoardReset,
    DigitalReset,
    SetState(Seq<char>, State),
    GetState(Seq<char>),
    SetDirection(Seq<char>, Direction),
    GetDirection(Seq<char>),
}

/// A request to the driver.
pub enum Request {
    DigitalReset,
    SetState(String, State),
    GetState(String),
    SetDirection(String, Direction),
    GetDirection(String),
}

impl Request {
    pub open spec fn view(&self) -> Access {
        match self {
            Request::DigitalReset => Access::DigitalReset,
            Request::SetState(p, l) => Access::SetState(p@, *l),
            Request::GetState(p) => Access::GetState(p@),
            Request::SetDirection(p, d) => Access::SetDirection(p@, *d),
            Request::GetDirection(p) => Access::GetDirection(p@),
        }
    }

    /// Every pin that the request names is a pin of the board.
    pub open spec fn well_formed(&self) -> bool {
        match self {
            Request::DigitalReset => true,
            Request::SetState(p, _) => is_pin_name(p@),
            Request::GetState(p) => is_pin_name(p@),
            Request::SetDirection(p, _) => is_pin_name(p@),
            Request::GetDirection(p) => is_pin_name(p@),
        }
    }
}

/// What the driver answers to a request that succeeded.
#[derive(Clone, Copy, Debug, PartialEq, Eq, Structural)]
pub enum Reply {
    Done,
    Level(State),
    Heading(Direction),
}

/// The reply that fits a request: setters and resets answer `Done`, a state
/// query a level and a direction query a direction.
pub open spec fn fits(a: Access, reply: Reply) -> bool {
    match a {
        Access::GetState(_) => reply is Level,
        Access::GetDirection(_) => reply is Heading,
        _ => reply is Done,
    }
}

/// The handle through which every call into the board's driver goes.
pub struct Device {
    log: Ghost<Seq<Access>>,
}

impl Device {
    /// The requests passed on to the driver through this handle, oldest first.
    pub closed spec fn history(&self) -> Seq<Access> {
        self.log@
    }

    /// Initializes the board and resets it to its default state.
    pub fn open() -> (r: Result<Device, String>)
        ensures
            r matches Ok(d) ==> d.history() == Seq::<Access>::empty(),
    {
        if let Err(e) = board_init() {
            return Err(error_text(e));
        }
        if let Err(e) = board_reset() {
            return Err(error_text(e));
        }
        Ok(Device { log: Ghost(Seq::empty()) })
    }

    /// Asks the driver for the version of the board's library.
    pub fn version(&mut self) -> (r: String)
        ensures
            final(self).history() == old(self).history().push(Access::Identify),
    {
        self.log = Ghost(self.log@.push(Access::Identify));
        board_version()
    }

    /// Returns the whole board to its default state. A failure carries the
    /// driver's own reason.
    pub fn reset_board(&mut self) -> (r: Result<(), String>)
        ensures
            final(self).history() == old(self).history().push(Access::BoardReset),
    {
        self.log = Ghost(self.log@.push(Access::BoardReset));
        match board_reset() {
            Ok(()) => Ok(()),
            Err(e) => Err(error_text(e)),
        }
    }

    /// Passes one request on to the driver. A failure carries the driver's
    /// own reason.
    pub fn perform(&mut self, req: Request) -> (r: Result<Reply, String>)
        requires
            req.well_formed(),
        ensures
            final(self).history() == old(self).history().push(req.view()),
            r matches Ok(reply) ==> fits(req.view(), reply),
    {
        let ghost a = req.view();
        self.log = Ghost(self.log@.push(a));
        match req {
            Request::DigitalReset => match digital_reset() {
                Ok(()) => Ok(Reply::Done),
                Err(e) => Err(error_text(e)),
            },
            Request::SetState(p, l) => match set_state(&p, l) {
                Ok(()) => Ok(Reply::Done),
                Err(e) => Err(error_text(e)),
            },
            Request::GetState(p) => match get_state(&p) {
                Ok(l) => Ok(Reply::Level(l)),
                Err(e) => Err(error_text(e)),
            },
            Request::SetDirection(p, d) => match set_direction(&p, d) {
                Ok(()) => Ok(Reply::Done),
                Err(e) => Err(error_text(e)),
            },
            Request::GetDirection(p) => match get_direction(&p) {
                Ok(d) => Ok(Reply::Heading(d)),
                Err(e) => Err(error_text(e)),
            },
        }
    }
}

/// Relies on `redpitaya::init`, which opens the board's library.
#[verifier::external_body]
fn board_init() -> (r: Result<(), redpitaya::Error>) {
    redpitaya::init()
}

/// Relies on `redpitaya::reset`, which resets all of the board's modules.
#[verifier::external_body]
fn board_reset() -> (r: Result<(), redpitaya::Error>) {
    redpitaya::reset()
}

/// Relies on `redpitaya::version`, which reports the board library's version.
#[verifier::external_body]
fn board_version() -> (r: String) {
    redpitaya::version()
}

/// Relies on the `Display` impl of `redpitaya::Error` for its message.
#[verifier::external_body]
fn error_text(e: redpitaya::Error) -> (r: String) {
    e.to_string()
}

/// Relies on `redpitaya::pin::digital::reset`, which sets the digital pins to
/// their defaults.
#[verifier::external_body]
fn digital_reset() -> (r: Result<(), redpitaya::Error>) {
    redpitaya::pin::digital::reset()
}

/// Relies on `redpitaya::pin::digital::set_state`, and on the conversion of a
/// pin name into `redpitaya::pin::digital::Pin`, which panics on any other name.
#[verifier::external_body]
fn set_state(pin: &String, level: State) -> (r: Result<(), redpitaya::Error>)
    requires
        is_pin_name(pin@),
{
    let level = match level {
        State::Low => redpitaya::pin::State::RP_LOW,
        State::High => redpitaya::pin::State::RP_HIGH,
    };
    redpitaya::pin::digital::set_state(redpitaya::pin::digital::Pin::from(pin.clone()), level)
}

/// Relies on `redpitaya::pin::digital::state`, and on the conversion of a pin
/// name into `redpitaya::pin::digital::Pin`, which panics on any other name.
#[verifier::external_body]
fn get_state(pin: &String) -> (r: Result<State, redpitaya::Error>)
    requires
        is_pin_name(pin@),
{
    match redpitaya::pin::digital::state(redpitaya::pin::digital::Pin::from(pin.clone())) {
        Ok(redpitaya::pin::State::RP_LOW) => Ok(State::Low),
        Ok(redpitaya::pin::State::RP_HIGH) => Ok(State::High),
        Err(e) => Err(e),
    }
}

/// Relies on `redpitaya::pin::digital::set_direction`, and on the conversion
/// of a pin name into `redpitaya::pin::digital::Pin`, which panics on any
/// other name.
#[verifier::external_body]
fn set_direction(pin: &String, direction: Direction) -> (r: Result<(), redpitaya::Error>)
    requires
        is_pin_name(pin@),
{
    let direction = match direction {
        Direction::In => redpitaya::pin::Direction::RP_IN,
        Direction::Out => redpitaya::pin::Direction::RP_OUT,
    };
    redpitaya::pin::digital::set_direction(redpitaya::pin::digital::Pin::from(pin.clone()), direction)
}

/// Relies on `redpitaya::pin::digital::direction`, and on the conversion of a
/// pin name into `redpitaya::pin::digital::Pin`, which panics on any other name.
#[verifier::external_body]
fn get_direction(pin: &String) -> (r: Result<Direction, redpitaya::Error>)
    requires
        is_pin_name(pin@),
{
    match redpitaya::pin::digital::direction(redpitaya::pin::digital::Pin::from(pin.clone())) {
        Ok(redpitaya::pin::Direction::RP_IN) => Ok(Direction::In),
        Ok(redpitaya::pin::Direction::RP_OUT) => Ok(Direction::Out),
        Err(e) => Err(e),
    }
}

} // verus!
