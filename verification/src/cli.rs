//! The command line.

use vstd::prelude::*;

verus! {

/// The help text, behind the program's name and version.
pub const USAGE: &'static str =
    "\n\nUSAGE:\n  ghdesk\n  ghdesk --help\n  ghdesk --version\n\nOPTIONS:\n  -h, --help       Show this help\n  -V, --version    Show version";

/// What a command line comes to: without an argument the workbench runs, for a
/// known one a text is printed, and any other is an error.
pub open spec fn cli_outcome(arg: Option<Seq<char>>, version: Seq<char>) -> Result<
    Option<Seq<char>>,
    Seq<char>,
> {
    match arg {
        None => Ok(None),
        Some(word) => if word == "--version"@ || word == "-V"@ {
            Ok(Some("ghdesk "@ + version))
        } else if word == "--help"@ || word == "-h"@ {
            Ok(Some("ghdesk "@ + version + USAGE@))
        } else {
            Err("unknown argument: "@ + word)
        },
    }
}

/// The content of what a command line comes to.
pub open spec fn cli_view(outcome: Result<Option<String>, String>) -> Result<
    Option<Seq<char>>,
    Seq<char>,
> {
    match outcome {
        Ok(Some(text)) => Ok(Some(text@)),
        Ok(None) => Ok(None),
        Err(message) => Err(message@),
    }
}

/// What the first argument asks for: nothing but to run, a text to print, or
/// an error.
pub fn handle_cli_args(arg: Option<String>, version: &str) -> (r: Result<Option<String>, String>)
    ensures
        cli_view(r) == cli_outcome(
            match arg {
                Some(word) => Some(word@),
                None => None,
            },
            version@,
        ),
{
    match arg {
        None => Ok(None),
        Some(word) => {
            if word == "--version".to_string() || word == "-V".to_string() {
                Ok(Some("ghdesk ".to_string().concat(version)))
            } else if word == "--help".to_string() || word == "-h".to_string() {
                Ok(Some("ghdesk ".to_string().concat(version).concat(USAGE)))
            } else {
                Err("unknown argument: ".to_string().concat(word.as_str()))
            }
        },
    }
}

} // verus!
