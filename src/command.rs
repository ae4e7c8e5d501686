use vstd::prelude::*;

verus! {

/// The tasks the program can be asked for.
#[derive(Clone, Copy, Debug, PartialEq, Eq, Structural)]
pub enum Command {
    /// Approximate pi by the area of the unit circle and merge the results
    /// into the pi table.
    Pi,
    /// Areas under a parabola, of ellipses and under a sine.
    Areas,
    /// Arc lengths of a circle, of ellipses and of a sine.
    Arcs,
    /// Convergence tables of the three rules on known integrals.
    Compare,
}

/// What a command line asks for.
#[derive(Clone, Copy, Debug, PartialEq, Eq, Structural)]
pub enum Invocation {
    /// No single argument was given: there is nothing to do.
    Nothing,
    /// A recognised command.
    Run(Command),
    /// One argument that names no command.
    Unrecognised,
}

/// The command named `s`, if any.
pub open spec fn command_named(s: Seq<char>) -> Option<Command> {
    if s == "pi"@ {
        Some(Command::Pi)
    } else if s == "areas"@ {
        Some(Command::Areas)
    } else if s == "arcs"@ {
        Some(Command::Arcs)
    } else if s == "compare"@ {
        Some(Command::Compare)
    } else {
        None
    }
}

/// The command named `name`, if any.
pub fn parse_command(name: &String) -> (r: Option<Command>)
    ensures
        r == command_named(name@),
{
    if *name == "pi".to_owned() {
        Some(Command::Pi)
    } else if *name == "areas".to_owned() {
        Some(Command::Areas)
    } else if *name == "arcs".to_owned() {
        Some(Command::Arcs)
    } else if *name == "compare".to_owned() {
        Some(Command::Compare)
    } else {
        None
    }
}

/// Reads the program's arguments, the program's own name first: exactly one
/// argument after it selects a command.
pub fn parse_invocation(args: &Vec<String>) -> (r: Invocation)
    ensures
        args@.len() != 2 ==> r == Invocation::Nothing,
        args@.len() == 2 ==> r == match command_named(args@[1]@) {
            Some(c) => Invocation::Run(c),
            None => Invocation::Unrecognised,
        },
{
    if args.len() != 2 {
        return Invocation::Nothing;
    }
    match parse_command(&args[1]) {
        Some(c) => Invocation::Run(c),
        None => Invocation::Unrecognised,
    }
}

} // verus!
