use vstd::prelude::*;

pub mod date;
pub mod label;
pub mod entry_path;
pub mod inputs;
pub mod command;

verus! {

/// Whether the command line asks for the help text: exactly one argument, `-h` or `--help`.
pub fn wants_help(args: &Vec<String>) -> (r: bool)
    ensures
        r == (args@.len() == 2 && (args@[1]@ == "-h"@ || args@[1]@ == "--help"@)),
{
    if args.len() == 2 {
        let short = String::from_str("-h");
        let long = String::from_str("--help");
        args[1] == short || args[1] == long
    } else {
        false
    }
}

} // verus!
