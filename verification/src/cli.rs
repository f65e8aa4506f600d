//! The `cargo simd` command line: which subcommand runs, on which arguments.
use vstd::prelude::*;

use crate::text::{owned, str_eq, views};

verus! {

/// A `cargo simd` subcommand.
#[derive(Debug, PartialEq, Eq)]
pub enum Command {
    Doctor,
    Verify,
    Build,
    Test,
    Help,
    Version,
    /// A word that names no subcommand.
    Unknown(String),
}

/// The subcommand a word names.
pub open spec fn command_named(word: Seq<char>) -> Option<Command> {
    if word == "doctor"@ {
        Some(Command::Doctor)
    } else if word == "verify"@ {
        Some(Command::Verify)
    } else if word == "build"@ {
        Some(Command::Build)
    } else if word == "test"@ {
        Some(Command::Test)
    } else if word == "help"@ || word == "--help"@ || word == "-h"@ {
        Some(Command::Help)
    } else if word == "version"@ || word == "--version"@ || word == "-V"@ {
        Some(Command::Version)
    } else {
        None
    }
}

/// Where the subcommand's word stands: after a leading `simd` (as Cargo
/// passes it to a custom subcommand), otherwise first.
pub open spec fn command_index(args: Seq<Seq<char>>) -> int {
    if args.len() > 0 && args[0] == "simd"@ {
        1
    } else {
        0
    }
}

/// Chooses the subcommand for the program's arguments (without the program
/// name), and the index at which the subcommand's own arguments begin.
pub fn select_command(args: &[String]) -> (selected: (Command, usize))
    ensures
        ({
            let all = views(args@);
            let at = command_index(all);
            if at >= all.len() {
                selected.0 == Command::Help && selected.1 == all.len()
            } else {
                &&& selected.1 == at + 1
                &&& match command_named(all[at]) {
                    Some(command) => selected.0 == command,
                    None => selected.0 matches Command::Unknown(word) && word@ == all[at],
                }
            }
        }),
        selected.1 <= args@.len(),
{
    let ghost all = views(args@);
    let at: usize = if args.len() > 0 && str_eq(args[0].as_str(), "simd") {
        1
    } else {
        0
    };
    if at >= args.len() {
        return (Command::Help, args.len());
    }
    let word = args[at].as_str();
    assert(all[at as int] == word@);
    let command = if str_eq(word, "doctor") {
        Command::Doctor
    } else if str_eq(word, "verify") {
        Command::Verify
    } else if str_eq(word, "build") {
        Command::Build
    } else if str_eq(word, "test") {
        Command::Test
    } else if str_eq(word, "help") || str_eq(word, "--help") || str_eq(word, "-h") {
        Command::Help
    } else if str_eq(word, "version") || str_eq(word, "--version") || str_eq(word, "-V") {
        Command::Version
    } else {
        Command::Unknown(owned(word))
    };
    (command, at + 1)
}

/// The words that name each subcommand: `doctor`, `verify`, `build` and
/// `test` their own; `help`, `--help` and `-h` the help; `version`,
/// `--version` and `-V` the version. Every other word names none.
pub proof fn lemma_subcommand_words(word: Seq<char>)
    ensures
        (command_named(word) == Some(Command::Doctor)) <==> word == "doctor"@,
        (command_named(word) == Some(Command::Verify)) <==> word == "verify"@,
        (command_named(word) == Some(Command::Build)) <==> word == "build"@,
        (command_named(word) == Some(Command::Test)) <==> word == "test"@,
        (command_named(word) == Some(Command::Help)) <==> (word == "help"@ || word == "--help"@ || word
            == "-h"@),
        (command_named(word) == Some(Command::Version)) <==> (word == "version"@ || word
            == "--version"@ || word == "-V"@),
        (command_named(word) is None) <==> !(word == "doctor"@ || word == "verify"@ || word
            == "build"@ || word == "test"@ || word == "help"@ || word == "--help"@ || word == "-h"@
            || word == "version"@ || word == "--version"@ || word == "-V"@),
{
    reveal_strlit("doctor");
    reveal_strlit("verify");
    reveal_strlit("build");
    reveal_strlit("test");
    reveal_strlit("help");
    reveal_strlit("--help");
    reveal_strlit("-h");
    reveal_strlit("version");
    reveal_strlit("--version");
    reveal_strlit("-V");
    assert("verify"@[0] != "doctor"@[0]);
    assert("--help"@[0] != "doctor"@[0] && "--help"@[0] != "verify"@[0]);
    assert("help"@[0] != "test"@[0]);
    assert("-h"@[1] != "-V"@[1]);
    assert("build"@.len() != "doctor"@.len() && "build"@.len() != "verify"@.len());
    assert("version"@.len() != "doctor"@.len() || "version"@[0] != "doctor"@[0] || "version"@[1] != "doctor"@[1]);
    assert("version"@.len() != "verify"@.len() || "version"@[0] != "verify"@[0] || "version"@[1] != "verify"@[1]);
    assert("version"@.len() != "build"@.len() || "version"@[0] != "build"@[0] || "version"@[1] != "build"@[1]);
    assert("version"@.len() != "test"@.len() || "version"@[0] != "test"@[0] || "version"@[1] != "test"@[1]);
    assert("version"@.len() != "help"@.len() || "version"@[0] != "help"@[0] || "version"@[1] != "help"@[1]);
    assert("version"@.len() != "--help"@.len() || "version"@[0] != "--help"@[0] || "version"@[1] != "--help"@[1]);
    assert("version"@.len() != "-h"@.len() || "version"@[0] != "-h"@[0] || "version"@[1] != "-h"@[1]);
    assert("--version"@.len() != "doctor"@.len() || "--version"@[0] != "doctor"@[0] || "--version"@[1] != "doctor"@[1]);
    assert("--version"@.len() != "verify"@.len() || "--version"@[0] != "verify"@[0] || "--version"@[1] != "verify"@[1]);
    assert("--version"@.len() != "build"@.len() || "--version"@[0] != "build"@[0] || "--version"@[1] != "build"@[1]);
    assert("--version"@.len() != "test"@.len() || "--version"@[0] != "test"@[0] || "--version"@[1] != "test"@[1]);
    assert("--version"@.len() != "help"@.len() || "--version"@[0] != "help"@[0] || "--version"@[1] != "help"@[1]);
    assert("--version"@.len() != "--help"@.len() || "--version"@[0] != "--help"@[0] || "--version"@[1] != "--help"@[1]);
    assert("--version"@.len() != "-h"@.len() || "--version"@[0] != "-h"@[0] || "--version"@[1] != "-h"@[1]);
    assert("-V"@.len() != "doctor"@.len() || "-V"@[0] != "doctor"@[0] || "-V"@[1] != "doctor"@[1]);
    assert("-V"@.len() != "verify"@.len() || "-V"@[0] != "verify"@[0] || "-V"@[1] != "verify"@[1]);
    assert("-V"@.len() != "build"@.len() || "-V"@[0] != "build"@[0] || "-V"@[1] != "build"@[1]);
    assert("-V"@.len() != "test"@.len() || "-V"@[0] != "test"@[0] || "-V"@[1] != "test"@[1]);
    assert("-V"@.len() != "help"@.len() || "-V"@[0] != "help"@[0] || "-V"@[1] != "help"@[1]);
    assert("-V"@.len() != "--help"@.len() || "-V"@[0] != "--help"@[0] || "-V"@[1] != "--help"@[1]);
    assert("-V"@.len() != "-h"@.len() || "-V"@[0] != "-h"@[0] || "-V"@[1] != "-h"@[1]);
}

/// `cargo simd help`, `cargo simd --help` and `cargo simd -h`, like a bare
/// `cargo simd`, select the help.
pub proof fn lemma_help_selected(args: Seq<Seq<char>>)
    requires
        args.len() >= 2,
        args[0] == "simd"@,
        args[1] == "help"@ || args[1] == "--help"@ || args[1] == "-h"@,
    ensures
        command_index(args) == 1,
        command_named(args[1]) == Some(Command::Help),
{
    lemma_subcommand_words(args[1]);
}

} // verus!
