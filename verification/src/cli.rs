//! The command-line surface: a help flag, a version flag, or the menu.

use vstd::prelude::*;

verus! {

/// What an invocation asks for, decided by the first argument alone.
#[derive(Clone, Copy, Debug, PartialEq, Eq, Structural)]
pub enum CliMode {
    /// Print the usage text and exit.
    Help,
    /// Print the version and exit.
    Version,
    /// Launch the menu.
    Run,
}

/// The mode an argument list selects: a help or version flag in the first
/// argument wins; anything else launches the menu.
pub open spec fn cli_mode_spec(args: Seq<Seq<char>>) -> CliMode {
    if args.len() > 1 && (args[1] == "--help"@ || args[1] == "-h"@) {
        CliMode::Help
    } else if args.len() > 1 && (args[1] == "--version"@ || args[1] == "-V"@) {
        CliMode::Version
    } else {
        CliMode::Run
    }
}

/// Character-by-character string comparison.
fn str_eq(a: &str, b: &str) -> (r: bool)
    ensures
        r == (a@ == b@),
{
    let a_len: usize = a.unicode_len();
    let b_len: usize = b.unicode_len();
    if a_len != b_len {
        return false;
    }
    let mut i: usize = 0;
    while i < a_len
        invariant
            i <= a_len,
            a_len == a@.len(),
            b_len == b@.len(),
            a_len == b_len,
            forall|j: int| 0 <= j < i ==> a@[j] == b@[j],
        decreases a_len - i,
    {
        if a.get_char(i) != b.get_char(i) {
            return false;
        }
        i += 1;
    }
    proof {
        assert(a@ =~= b@);
    }
    true
}

/// Decides what an argument list asks for, as the resolved mode.
pub fn parse_cli(args: &Vec<String>) -> (m: CliMode)
    ensures
        m == cli_mode_spec(args.deep_view()),
{
    if args.len() > 1 {
        let first = args[1].as_str();
        if str_eq(first, "--help") || str_eq(first, "-h") {
            return CliMode::Help;
        }
        if str_eq(first, "--version") || str_eq(first, "-V") {
            return CliMode::Version;
        }
    }
    CliMode::Run
}

} // verus!
