//! Routing a request line to the command family that owns its first token.
use vstd::prelude::*;
use vstd::string::*;
use crate::digital;
use crate::ieee;
use crate::driver::{Access, Device};
use crate::protocol::{is_space, reply_line, response_view, split_tokens, tokens, views, Response};

verus! {

/// A routed command: one of a family's commands, or a failure found while
/// routing.
pub enum Command {
    Ieee(ieee::Command),
    Digital(digital::Command),
    Error(String),
}

/// A routed command, with its message as characters.
pub enum Route {
    Ieee(ieee::Command),
    Digital(digital::Command),
    Error(Seq<char>),
}

impl Command {
    pub open spec fn view(&self) -> Route {
        match self {
            Command::Ieee(c) => Route::Ieee(*c),
            Command::Digital(c) => Route::Digital(*c),
            Command::Error(m) => Route::Error(m@),
        }
    }
}

/// Where a command name is routed. The families are probed in a fixed order
/// and the first that accepts the name takes it; no family accepting it is a
/// failure that names it.
pub open spec fn route_of(name: Seq<char>) -> Route {
    if ieee::accepts(name) {
        Route::Ieee(ieee::command_of(name))
    } else if digital::accepts(name) {
        Route::Digital(digital::command_of(name))
    } else {
        Route::Error("Unknown command "@ + name)
    }
}

/// The routed command and the arguments of a request line.
pub open spec fn routed(line: Seq<char>) -> (Route, Seq<Seq<char>>) {
    let t = tokens(line);
    if t.len() == 0 {
        (Route::Error("Empty command"@), Seq::empty())
    } else {
        (route_of(t[0]), t.drop_first())
    }
}

/// Splits a request line into its routed command and its arguments.
pub fn route(line: &str) -> (r: (Command, Vec<String>))
    ensures
        r.0.view() == routed(line@).0,
        views(r.1@) == routed(line@).1,
{
    let mut toks = split_tokens(line);
    if toks.len() == 0 {
        return (Command::Error(String::from_str("Empty command")), Vec::new());
    }
    let ghost all = toks@;
    let name = toks.remove(0);
    assert(views(toks@) =~= views(all).drop_first());
    if ieee::accept(name.as_str()) {
        (Command::Ieee(ieee::Command::parse(name.as_str())), toks)
    } else if digital::accept(name.as_str()) {
        (Command::Digital(digital::Command::parse(name.as_str())), toks)
    } else {
        (Command::Error(String::from_str("Unknown command ").concat(name.as_str())), toks)
    }
}

/// What executing a routed command may do: a routing failure fails with its
/// message and leaves the driver alone; a family's command is executed by
/// that family.
pub open spec fn dispatches(
    c: Route,
    args: Seq<Seq<char>>,
    before: Seq<Access>,
    after: Seq<Access>,
    r: Result<Option<Seq<char>>, Seq<char>>,
) -> bool {
    match c {
        Route::Error(m) => r == Err::<Option<Seq<char>>, Seq<char>>(m) && after == before,
        Route::Ieee(c) => ieee::executes(c, before, after, r),
        Route::Digital(d) => digital::executes(d, args, before, after, r),
    }
}

/// Hands a routed command to the family that owns it.
pub fn dispatch(device: &mut Device, command: Command, args: Vec<String>) -> (r: Response)
    ensures
        dispatches(
            command.view(),
            views(args@),
            old(device).history(),
            final(device).history(),
            response_view(r),
        ),
{
    match command {
        Command::Ieee(c) => ieee::execute(device, c, args),
        Command::Digital(c) => digital::execute(device, c, args),
        Command::Error(m) => Err(m),
    }
}

/// Routes and executes one request line.
pub fn process(device: &mut Device, line: &str) -> (r: Response)
    ensures
        dispatches(
            routed(line@).0,
            routed(line@).1,
            old(device).history(),
            final(device).history(),
            response_view(r),
        ),
{
    let (command, args) = route(line);
    dispatch(device, command, args)
}

/// The families own disjoint sets of command names.
pub proof fn families_are_disjoint(name: Seq<char>)
    ensures
        !(ieee::accepts(name) && digital::accepts(name)),
{
    reveal_strlit("*IDN?");
    reveal_strlit("*RST");
    reveal_strlit("DIG:RST");
    reveal_strlit("DIG:PIN");
    reveal_strlit("DIG:PIN?");
    reveal_strlit("DIG:PIN:DIR");
    reveal_strlit("DIG:PIN:DIR?");
    if ieee::accepts(name) && digital::accepts(name) {
        assert(name[0] == '*');
        assert(name[0] == 'D');
    }
}

/// A registered command name is routed to the one family whose `accept`
/// takes it, as that family's own command for the name.
pub proof fn registered_names_reach_their_family(name: Seq<char>)
    requires
        ieee::accepts(name) || digital::accepts(name),
    ensures
        ieee::accepts(name) ==> !digital::accepts(name) && route_of(name) == Route::Ieee(
            ieee::command_of(name),
        ),
        digital::accepts(name) ==> !ieee::accepts(name) && route_of(name) == Route::Digital(
            digital::command_of(name),
        ),
{
    families_are_disjoint(name);
}

/// A name that no family accepts is routed to a failure whose message ends
/// with the name itself.
pub proof fn unregistered_names_are_reported(name: Seq<char>)
    requires
        !ieee::accepts(name),
        !digital::accepts(name),
    ensures
        route_of(name) is Error,
        (route_of(name)->Error_0).len() >= name.len(),
        (route_of(name)->Error_0).subrange(
            (route_of(name)->Error_0).len() - name.len(),
            (route_of(name)->Error_0).len() as int,
        ) == name,
{
    let m = "Unknown command "@ + name;
    assert(m.subrange(m.len() - name.len(), m.len() as int) =~= name);
}

/// A text made of white space alone has no tokens.
pub proof fn blank_has_no_tokens(line: Seq<char>)
    requires
        forall|i: int| 0 <= i < line.len() ==> is_space(#[trigger] line[i]),
    ensures
        tokens(line).len() == 0,
    decreases line.len(),
{
    if line.len() > 0 {
        let init = line.drop_last();
        assert(is_space(line[line.len() - 1]));
        assert forall|i: int| 0 <= i < init.len() implies is_space(#[trigger] init[i]) by {
            assert(init[i] == line[i]);
        }
        blank_has_no_tokens(init);
    }
}

/// A line of white space alone, such as a bare line break, fails, is
/// answered with the failure marker, and never reaches the driver.
pub proof fn blank_lines_are_refused(
    line: Seq<char>,
    before: Seq<Access>,
    after: Seq<Access>,
    r: Result<Option<Seq<char>>, Seq<char>>,
)
    requires
        forall|i: int| 0 <= i < line.len() ==> is_space(#[trigger] line[i]),
        dispatches(routed(line).0, routed(line).1, before, after, r),
    ensures
        r == Err::<Option<Seq<char>>, Seq<char>>("Empty command"@),
        after == before,
        reply_line(r) == Some("ERR!"@),
{
    blank_has_no_tokens(line);
}

} // verus!
