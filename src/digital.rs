//! The digital input/output command family: pin levels and directions.
use vstd::prelude::*;
use vstd::string::*;
use crate::driver::{fits, is_pin_name, pin_name, Access, Device, Direction, Reply, Request, State};
use crate::protocol::{reply_line, response_view, same_text, views, Response};

verus! {

/// The commands of the digital family. `Unknown` stands for any other name.
#[derive(Clone, Copy, Debug, PartialEq, Eq, Structural)]
pub enum Command {
    Reset,
    PinState,
    PinStateQuery,
    PinDirection,
    PinDirectionQuery,
    Unknown,
}

/// The command that a name selects. Names are matched case-sensitively.
pub open spec fn command_of(name: Seq<char>) -> Command {
    if name == "DIG:RST"@ {
        Command::Reset
    } else if name == "DIG:PIN"@ {
        Command::PinState
    } else if name == "DIG:PIN?"@ {
        Command::PinStateQuery
    } else if name == "DIG:PIN:DIR"@ {
        Command::PinDirection
    } else if name == "DIG:PIN:DIR?"@ {
        Command::PinDirectionQuery
    } else {
        Command::Unknown
    }
}

/// Whether the digital family owns a command name.
pub open spec fn accepts(name: Seq<char>) -> bool {
    !(command_of(name) is Unknown)
}

impl Command {
    /// The command that a name selects, `Unknown` for a name of no command.
    pub fn parse(name: &str) -> (r: Command)
        ensures
            r == command_of(name@),
    {
        if same_text(name, "DIG:RST") {
            Command::Reset
        } else if same_text(name, "DIG:PIN") {
            Command::PinState
        } else if same_text(name, "DIG:PIN?") {
            Command::PinStateQuery
        } else if same_text(name, "DIG:PIN:DIR") {
            Command::PinDirection
        } else if same_text(name, "DIG:PIN:DIR?") {
            Command::PinDirectionQuery
        } else {
            Command::Unknown
        }
    }
}

impl From<String> for Command {
    fn from(s: String) -> Command {
        Command::parse(s.as_str())
    }
}

impl vstd::std_specs::convert::FromSpecImpl<String> for Command {
    open spec fn obeys_from_spec() -> bool {
        true
    }

    open spec fn from_spec(s: String) -> Command {
        command_of(s@)
    }
}

/// Whether the digital family owns a command name.
pub fn accept(name: &str) -> (r: bool)
    ensures
        r == accepts(name@),
{
    !matches!(Command::parse(name), Command::Unknown)
}

pub open spec fn is_digit(c: char) -> bool {
    '0' <= c && c <= '9'
}

/// The number that a sequence of decimal digits writes.
pub open spec fn digits_value(d: Seq<char>) -> nat
    decreases d.len(),
{
    if d.len() == 0 {
        0
    } else {
        digits_value(d.drop_last()) * 10 + (d.last() as int - '0' as int) as nat
    }
}

/// The digits of an unsigned decimal integer, after an optional `+`.
pub open spec fn unsigned_digits(s: Seq<char>) -> Seq<char> {
    if s.len() > 0 && s[0] == '+' {
        s.drop_first()
    } else {
        s
    }
}

/// Whether `d` is a non-empty sequence of decimal digits.
pub open spec fn all_digits(d: Seq<char>) -> bool {
    d.len() > 0 && forall|i: int| 0 <= i < d.len() ==> is_digit(#[trigger] d[i])
}

/// Whether `s` writes an unsigned decimal integer.
pub open spec fn is_unsigned(s: Seq<char>) -> bool {
    all_digits(unsigned_digits(s))
}

/// The level that an argument selects: an integer that is 0 for low or 1 for
/// high.
pub open spec fn level_of(s: Seq<char>) -> Option<State> {
    if is_unsigned(s) && digits_value(unsigned_digits(s)) == 0 {
        Some(State::Low)
    } else if is_unsigned(s) && digits_value(unsigned_digits(s)) == 1 {
        Some(State::High)
    } else {
        None
    }
}

/// The text of a level on the wire.
pub open spec fn level_text(l: State) -> Seq<char> {
    match l {
        State::Low => "0"@,
        State::High => "1"@,
    }
}

/// The direction that an argument names.
pub open spec fn direction_of(s: Seq<char>) -> Option<Direction> {
    if s == "IN"@ {
        Some(Direction::In)
    } else if s == "OUT"@ {
        Some(Direction::Out)
    } else {
        None
    }
}

/// The text of a direction on the wire.
pub open spec fn direction_text(d: Direction) -> Seq<char> {
    match d {
        Direction::In => "IN"@,
        Direction::Out => "OUT"@,
    }
}

/// Reads a level argument.
pub fn parse_level(s: &str) -> (r: Option<State>)
    ensures
        r == level_of(s@),
{
    let n = s.unicode_len();
    let mut i: usize = 0;
    if n > 0 && s.get_char(0) == '+' {
        i = 1;
    }
    let first = i;
    let ghost d = unsigned_digits(s@);
    assert(d == s@.subrange(first as int, n as int));
    if first == n {
        return None;
    }
    // The value of the digits read so far, or 2 once it is 2 or more.
    let mut v: u8 = 0;
    while i < n
        invariant
            n == s@.len(),
            first <= i <= n,
            d == s@.subrange(first as int, n as int),
            d == unsigned_digits(s@),
            forall|k: int| first <= k < i ==> is_digit(#[trigger] s@[k]),
            v <= 2,
            v == (if digits_value(s@.subrange(first as int, i as int)) < 2 {
                digits_value(s@.subrange(first as int, i as int))
            } else {
                2
            }),
        decreases n - i,
    {
        let c = s.get_char(i);
        if !('0' <= c && c <= '9') {
            proof {
                let k = i - first;
                assert(d[k] == s@[i as int]);
                assert(!is_digit(d[k]));
                assert(!all_digits(d));
            }
            return None;
        }
        let ghost prev = s@.subrange(first as int, i as int);
        let ghost next = s@.subrange(first as int, i + 1);
        assert(next.drop_last() == prev);
        assert(next.last() == c);
        let digit = (c as u32 - '0' as u32) as u8;
        let w = v * 10 + digit;
        v = if w >= 2 {
            2
        } else {
            w
        };
        i = i + 1;
    }
    assert(s@.subrange(first as int, n as int) == d);
    assert forall|k: int| 0 <= k < d.len() implies is_digit(#[trigger] d[k]) by {
        assert(d[k] == s@[first + k]);
    }
    if v == 0 {
        Some(State::Low)
    } else if v == 1 {
        Some(State::High)
    } else {
        None
    }
}

/// Reads a direction argument.
pub fn parse_direction(s: &str) -> (r: Option<Direction>)
    ensures
        r == direction_of(s@),
{
    if same_text(s, "IN") {
        Some(Direction::In)
    } else if same_text(s, "OUT") {
        Some(Direction::Out)
    } else {
        None
    }
}

/// The request that a command and its arguments make of the driver, or why
/// they make none. The number of arguments is tested first, then each
/// argument in order; arguments beyond those a command reads are ignored.
pub open spec fn request_of(c: Command, args: Seq<Seq<char>>) -> Result<Access, Seq<char>> {
    match c {
        Command::Reset => Ok(Access::DigitalReset),
        Command::PinState => if args.len() < 2 {
            Err("Missing parameter"@)
        } else if !is_pin_name(args[0]) {
            Err("Invalid pin"@)
        } else {
            match level_of(args[1]) {
                Some(l) => Ok(Access::SetState(args[0], l)),
                None => Err("Invalid state"@),
            }
        },
        Command::PinStateQuery => if args.len() < 1 {
            Err("Missing parameter"@)
        } else if !is_pin_name(args[0]) {
            Err("Invalid pin"@)
        } else {
            Ok(Access::GetState(args[0]))
        },
        Command::PinDirection => if args.len() < 2 {
            Err("Missing parameter"@)
        } else if !is_pin_name(args[0]) {
            Err("Invalid pin"@)
        } else {
            match direction_of(args[1]) {
                Some(d) => Ok(Access::SetDirection(args[0], d)),
                None => Err("Invalid direction"@),
            }
        },
        Command::PinDirectionQuery => if args.len() < 1 {
            Err("Missing parameter"@)
        } else if !is_pin_name(args[0]) {
            Err("Invalid pin"@)
        } else {
            Ok(Access::GetDirection(args[0]))
        },
        Command::Unknown => Err("Unknown command"@),
    }
}

/// Validates a command's arguments and builds its request to the driver.
pub fn plan(command: Command, args: &Vec<String>) -> (r: Result<Request, String>)
    ensures
        match r {
            Ok(req) => req.well_formed() && request_of(command, views(args@)) == Ok::<Access, Seq<char>>(req.view()),
            Err(m) => request_of(command, views(args@)) == Err::<Access, Seq<char>>(m@),
        },
{
    let ghost a = views(args@);
    let n = args.len();
    match command {
        Command::Reset => Ok(Request::DigitalReset),
        Command::PinState => {
            if n < 2 {
                return Err(String::from_str("Missing parameter"));
            }
            if !pin_name(args[0].as_str()) {
                return Err(String::from_str("Invalid pin"));
            }
            match parse_level(args[1].as_str()) {
                Some(l) => Ok(Request::SetState(args[0].clone(), l)),
                None => Err(String::from_str("Invalid state")),
            }
        },
        Command::PinStateQuery => {
            if n < 1 {
                return Err(String::from_str("Missing parameter"));
            }
            if !pin_name(args[0].as_str()) {
                return Err(String::from_str("Invalid pin"));
            }
            Ok(Request::GetState(args[0].clone()))
        },
        Command::PinDirection => {
            if n < 2 {
                return Err(String::from_str("Missing parameter"));
            }
            if !pin_name(args[0].as_str()) {
                return Err(String::from_str("Invalid pin"));
            }
            match parse_direction(args[1].as_str()) {
                Some(d) => Ok(Request::SetDirection(args[0].clone(), d)),
                None => Err(String::from_str("Invalid direction")),
            }
        },
        Command::PinDirectionQuery => {
            if n < 1 {
                return Err(String::from_str("Missing parameter"));
            }
            if !pin_name(args[0].as_str()) {
                return Err(String::from_str("Invalid pin"));
            }
            Ok(Request::GetDirection(args[0].clone()))
        },
        Command::Unknown => Err(String::from_str("Unknown command")),
    }
}

/// The characters carried by what the driver answered.
pub open spec fn outcome_view(o: Result<Reply, String>) -> Result<Reply, Seq<char>> {
    match o {
        Ok(reply) => Ok(reply),
        Err(m) => Err(m@),
    }
}

/// The response to what the driver answered: a void success for `Done`, the
/// wire text of a level or a direction, and the driver's reason unchanged for
/// a failure.
pub open spec fn answer_of(o: Result<Reply, Seq<char>>) -> Result<Option<Seq<char>>, Seq<char>> {
    match o {
        Ok(Reply::Done) => Ok(None),
        Ok(Reply::Level(l)) => Ok(Some(level_text(l))),
        Ok(Reply::Heading(d)) => Ok(Some(direction_text(d))),
        Err(m) => Err(m),
    }
}

/// Turns what the driver answered into a response.
pub fn answer(o: Result<Reply, String>) -> (r: Response)
    ensures
        response_view(r) == answer_of(outcome_view(o)),
{
    match o {
        Ok(Reply::Done) => Ok(None),
        Ok(Reply::Level(State::Low)) => Ok(Some(String::from_str("0"))),
        Ok(Reply::Level(State::High)) => Ok(Some(String::from_str("1"))),
        Ok(Reply::Heading(Direction::In)) => Ok(Some(String::from_str("IN"))),
        Ok(Reply::Heading(Direction::Out)) => Ok(Some(String::from_str("OUT"))),
        Err(m) => Err(m),
    }
}

/// What executing `c` on `args` may do: with arguments that are refused it
/// fails with the reason and leaves the driver alone; otherwise it passes on
/// exactly its one request and answers from some reply that fits it.
pub open spec fn executes(
    c: Command,
    args: Seq<Seq<char>>,
    before: Seq<Access>,
    after: Seq<Access>,
    r: Result<Option<Seq<char>>, Seq<char>>,
) -> bool {
    match request_of(c, args) {
        Err(m) => r == Err::<Option<Seq<char>>, Seq<char>>(m) && after == before,
        Ok(a) => {
            &&& after == before.push(a)
            &&& exists|o: Result<Reply, Seq<char>>|
                (o matches Ok(reply) ==> fits(a, reply)) && #[trigger] answer_of(o) == r
        },
    }
}

/// Executes a digital command. Arguments are validated before the driver is
/// reached.
pub fn execute(device: &mut Device, command: Command, args: Vec<String>) -> (r: Response)
    ensures
        executes(
            command,
            views(args@),
            old(device).history(),
            final(device).history(),
            response_view(r),
        ),
{
    match plan(command, &args) {
        Err(m) => Err(m),
        Ok(req) => {
            let o = device.perform(req);
            let r = answer(o);
            assert(answer_of(outcome_view(o)) == response_view(r));
            r
        },
    }
}

/// A level set with `0` or `1` is answered with the same text by a later
/// query of that pin, whenever the driver reports the level that was set.
pub proof fn level_round_trip(pin: Seq<char>, t: Seq<char>)
    requires
        is_pin_name(pin),
        t == "0"@ || t == "1"@,
    ensures
        level_of(t) is Some,
        request_of(Command::PinState, seq![pin, t]) == Ok::<Access, Seq<char>>(
            Access::SetState(pin, level_of(t)->0),
        ),
        request_of(Command::PinStateQuery, seq![pin]) == Ok::<Access, Seq<char>>(
            Access::GetState(pin),
        ),
        answer_of(Ok(Reply::Level(level_of(t)->0))) == Ok::<Option<Seq<char>>, Seq<char>>(Some(t)),
{
    reveal_strlit("0");
    reveal_strlit("1");
    assert(t.drop_last() =~= Seq::<char>::empty());
    assert(digits_value(Seq::<char>::empty()) == 0);
    assert(unsigned_digits(t) == t);
    assert(all_digits(t));
    if t == "0"@ {
        assert(digits_value(t) == 0);
    } else {
        assert(digits_value(t) == 1);
    }
}

/// A direction set with `IN` or `OUT` is answered with the same text by a
/// later query of that pin, whenever the driver reports the direction that
/// was set.
pub proof fn direction_round_trip(pin: Seq<char>, t: Seq<char>)
    requires
        is_pin_name(pin),
        t == "IN"@ || t == "OUT"@,
    ensures
        direction_of(t) is Some,
        request_of(Command::PinDirection, seq![pin, t]) == Ok::<Access, Seq<char>>(
            Access::SetDirection(pin, direction_of(t)->0),
        ),
        request_of(Command::PinDirectionQuery, seq![pin]) == Ok::<Access, Seq<char>>(
            Access::GetDirection(pin),
        ),
        answer_of(Ok(Reply::Heading(direction_of(t)->0))) == Ok::<Option<Seq<char>>, Seq<char>>(
            Some(t),
        ),
{
    reveal_strlit("IN");
    reveal_strlit("OUT");
}

/// Setting a level with fewer than two arguments fails, is answered with
/// the failure marker, and never reaches the driver.
pub proof fn level_setter_needs_two_arguments(
    args: Seq<Seq<char>>,
    before: Seq<Access>,
    after: Seq<Access>,
    r: Result<Option<Seq<char>>, Seq<char>>,
)
    requires
        args.len() < 2,
        executes(Command::PinState, args, before, after, r),
    ensures
        r == Err::<Option<Seq<char>>, Seq<char>>("Missing parameter"@),
        after == before,
        reply_line(r) == Some("ERR!"@),
{
}

/// Setting a direction with a token that names no direction fails, is
/// answered with the failure marker, and never reaches the driver.
pub proof fn direction_setter_refuses_unknown_tokens(
    args: Seq<Seq<char>>,
    before: Seq<Access>,
    after: Seq<Access>,
    r: Result<Option<Seq<char>>, Seq<char>>,
)
    requires
        args.len() >= 2,
        direction_of(args[1]) is None,
        executes(Command::PinDirection, args, before, after, r),
    ensures
        r is Err,
        after == before,
        reply_line(r) == Some("ERR!"@),
{
}

/// A digital reset passes one reset on to the driver; it is answered with no
/// line when it succeeds and with the failure marker when the driver fails.
pub proof fn reset_answers_nothing_on_success(
    args: Seq<Seq<char>>,
    before: Seq<Access>,
    after: Seq<Access>,
    r: Result<Option<Seq<char>>, Seq<char>>,
)
    requires
        executes(Command::Reset, args, before, after, r),
    ensures
        after == before.push(Access::DigitalReset),
        r is Ok ==> r == Ok::<Option<Seq<char>>, Seq<char>>(None) && reply_line(r) is None,
        r is Err ==> reply_line(r) == Some("ERR!"@),
{
    let o = choose|o: Result<Reply, Seq<char>>|
        (o matches Ok(reply) ==> fits(Access::DigitalReset, reply)) && #[trigger] answer_of(o) == r;
    assert(answer_of(o) == r);
}

} // verus!
