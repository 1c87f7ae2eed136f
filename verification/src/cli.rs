//! Command-line decisions and the user-visible lines.
//!
//! The program accepts exactly one form of invocation,
//! `<program> --filename <path>`; anything else gets the usage
//! message and a failing exit. The decision and the texts are
//! verified here; reading the arguments, printing and exiting stay
//! with the driver.

use vstd::prelude::*;
use vstd::string::StringExecFns;

use crate::yaml::str_eq;

verus! {

/// What an invocation asks for: a run over a configuration file, or
/// the usage message (with a failing exit).
pub enum CliAction {
    Run(String),
    Usage,
}

/// Decides what the given command-line arguments ask for: a run
/// exactly when there are three arguments and the second is
/// `--filename`, with the third as the configuration file name.
pub fn parse_args(args: &Vec<String>) -> (r: CliAction)
    ensures
        if args@.len() == 3 && args@[1]@ == "--filename"@ {
            r matches CliAction::Run(f) && f@ == args@[2]@
        } else {
            r is Usage
        },
{
    if args.len() == 3 && str_eq(args[1].as_str(), "--filename") {
        CliAction::Run(args[2].clone())
    } else {
        CliAction::Usage
    }
}

/// The usage line printed on a malformed invocation, with the
/// program's own name filled in.
pub fn usage_message(prog: &str) -> (r: String)
    ensures
        r@ == "Usage: "@ + prog@ + " --filename <file_name>"@,
{
    let s: String = "Usage: ".to_owned();
    let s = s.concat(prog);
    s.concat(" --filename <file_name>")
}

/// The confirmation line printed after one mirror is updated.
pub fn updated_message(from: &str, to: &str) -> (r: String)
    ensures
        r@ == "Updated "@ + from@ + " -> "@ + to@,
{
    let s: String = "Updated ".to_owned();
    let s = s.concat(from);
    let s = s.concat(" -> ");
    s.concat(to)
}

} // verus!
