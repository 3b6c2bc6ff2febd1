//! The command line: two arguments, a path and a user name, and the exit
//! code that a run ends with.

use vstd::prelude::*;
use vstd::string::StringExecFns;
use crate::reconciler::ShareRequest;

verus! {

/// The exit code of a run that opened the path.
pub const EXIT_SUCCESS: i32 = 0;

/// The exit code of every other run.
pub const EXIT_FAILURE: i32 = 1;

/// The name that the usage line gives the program when the command line
/// holds none.
pub open spec fn default_program_name() -> Seq<char> {
    "open-share"@
}

/// The name under which the program was called.
pub open spec fn program_name_of(args: Seq<String>) -> Seq<char> {
    if args.len() > 0 {
        args[0]@
    } else {
        default_program_name()
    }
}

/// The line that tells how the program named `program` is called.
pub open spec fn usage_of(program: Seq<char>) -> Seq<char> {
    "Usage: "@ + program + " PATH USERNAME"@
}

/// Reads the command line: the program's name, a path and a user name, no
/// more and no less. Any other command line is refused with the usage line.
pub fn parse_arguments(args: &Vec<String>) -> (parsed: Result<ShareRequest, String>)
    ensures
        match parsed {
            Ok(request) => {
                &&& args@.len() == 3
                &&& request.path@ == args@[1]@
                &&& request.username@ == args@[2]@
            },
            Err(usage) => {
                &&& args@.len() != 3
                &&& usage@ == usage_of(program_name_of(args@))
            },
        },
{
    if args.len() != 3 {
        let program = if args.len() > 0 {
            args[0].as_str()
        } else {
            "open-share"
        };
        return Err(usage_line(program));
    }
    Ok(ShareRequest { path: args[1].clone(), username: args[2].clone() })
}

/// The line that tells how the program named `program` is called.
pub fn usage_line(program: &str) -> (line: String)
    ensures
        line@ == usage_of(program@),
{
    String::from_str("Usage: ").concat(program).concat(" PATH USERNAME")
}

/// The exit code of a run: success only where the path was opened.
pub fn exit_code(success: bool) -> (code: i32)
    ensures
        code == (if success {
            EXIT_SUCCESS
        } else {
            EXIT_FAILURE
        }),
{
    if success {
        EXIT_SUCCESS
    } else {
        EXIT_FAILURE
    }
}

/// Whether the program waits for a line of input before it exits with
/// `code`: it does after every failure, so that its messages can be read.
pub fn pauses_before_exit(code: i32) -> (pauses: bool)
    ensures
        pauses == (code != EXIT_SUCCESS),
{
    code != EXIT_SUCCESS
}

} // verus!
