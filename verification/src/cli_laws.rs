//! Laws of the command line.

use vstd::prelude::*;

use crate::cli::{cli_outcome, USAGE};

verus! {

/// Without an argument the workbench runs; for the version and for help, in
/// either spelling, a text with the version is printed; any other word is an
/// error that names it.
pub proof fn law_arguments(word: Seq<char>, version: Seq<char>)
    ensures
        cli_outcome(None, version) == Ok::<Option<Seq<char>>, Seq<char>>(None),
        cli_outcome(Some("--version"@), version) == Ok::<Option<Seq<char>>, Seq<char>>(
            Some("ghdesk "@ + version),
        ),
        cli_outcome(Some("-V"@), version) == cli_outcome(Some("--version"@), version),
        cli_outcome(Some("--help"@), version) == Ok::<Option<Seq<char>>, Seq<char>>(
            Some("ghdesk "@ + version + USAGE@),
        ),
        cli_outcome(Some("-h"@), version) == cli_outcome(Some("--help"@), version),
        word != "--version"@ && word != "-V"@ && word != "--help"@ && word != "-h"@ ==> cli_outcome(
            Some(word),
            version,
        ) == Err::<Option<Seq<char>>, Seq<char>>("unknown argument: "@ + word),
{
    reveal_strlit("--version");
    reveal_strlit("-V");
    reveal_strlit("--help");
    reveal_strlit("-h");
    assert("--help"@.len() == 6 && "--version"@.len() == 9 && "-V"@.len() == 2 && "-h"@.len() == 2);
    assert("-V"@[1] != "-h"@[1]);
}

/// The help names every argument.
pub proof fn law_usage()
    ensures
        USAGE@
            == "\n\nUSAGE:\n  ghdesk\n  ghdesk --help\n  ghdesk --version\n\nOPTIONS:\n  -h, --help       Show this help\n  -V, --version    Show version"@,
{
}

} // verus!
