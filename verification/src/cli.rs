//! The command line of the supervisor: a profile path, an executable, and
//! the arguments of the executable.

use crate::text::concat3;
use vstd::prelude::*;

verus! {

/// What the command line asks for.
#[derive(Clone, Debug, PartialEq, Eq)]
pub struct CommandLine {
    /// Where to read the profile from.
    pub profile_path: String,
    /// The executable to run inside the sandbox.
    pub executable: String,
    /// The arguments handed to the executable, in order.
    pub args: Vec<String>,
}

/// The mathematical view of a [`CommandLine`].
pub struct CommandLineView {
    pub profile_path: Seq<char>,
    pub executable: Seq<char>,
    pub args: Seq<Seq<char>>,
}

impl View for CommandLine {
    type V = CommandLineView;

    open spec fn view(&self) -> CommandLineView {
        CommandLineView {
            profile_path: self.profile_path@,
            executable: self.executable@,
            args: self.args.deep_view(),
        }
    }
}

/// What an argument vector asks for: after the program name come the
/// profile path and the executable, and whatever follows goes to the
/// executable. With fewer than two arguments after the program name it asks
/// for nothing.
pub open spec fn parsed_arguments(argv: Seq<Seq<char>>) -> Option<CommandLineView> {
    if argv.len() < 3 {
        None
    } else {
        Some(CommandLineView { profile_path: argv[1], executable: argv[2], args: argv.skip(3) })
    }
}

/// The usage line for a program name.
pub open spec fn usage_text(program: Seq<char>) -> Seq<char> {
    "Usage: "@ + program + " (profile) (executable) [args...]"@
}

/// Reads the argument vector of the process, program name first. Returns
/// `None` when the profile path or the executable is missing; the caller
/// then prints the usage line and ends without error.
pub fn parse_arguments(argv: &Vec<String>) -> (parsed: Option<CommandLine>)
    ensures
        match parsed {
            Some(line) => Some(line@),
            None => None,
        } == parsed_arguments(argv.deep_view()),
{
    if argv.len() < 3 {
        return None;
    }
    let ghost all = argv.deep_view();
    let mut args: Vec<String> = Vec::new();
    let mut i: usize = 3;
    assert(args.deep_view() =~= all.subrange(3, 3));
    while i < argv.len()
        invariant
            3 <= i <= argv.len(),
            all == argv.deep_view(),
            args.deep_view() == all.subrange(3, i as int),
        decreases argv.len() - i,
    {
        let ghost before = args.deep_view();
        let item = argv[i].clone();
        assert(item@ == all[i as int]);
        args.push(item);
        assert(args.deep_view() =~= before.push(all[i as int]));
        assert(args.deep_view() =~= all.subrange(3, i + 1));
        i += 1;
    }
    assert(all.subrange(3, i as int) =~= all.skip(3));
    Some(CommandLine { profile_path: argv[1].clone(), executable: argv[2].clone(), args })
}

/// The usage line for a program name.
pub fn usage(program: &str) -> (line: String)
    ensures
        line@ == usage_text(program@),
{
    concat3("Usage: ", program, " (profile) (executable) [args...]")
}

} // verus!
