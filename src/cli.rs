//! What a command line asks for: help, the version, or a roll.
use vstd::prelude::*;

use crate::text::chars_of;

verus! {

/// The action that command-line arguments select.
#[derive(Clone, Debug, PartialEq)]
pub enum CliAction {
    /// Print the version and the usage text.
    Help,
    /// Print the version.
    Version,
    /// Roll the given expression.
    Roll(String),
}

pub open spec fn help_flag(s: Seq<char>) -> bool {
    s == seq!['-', 'h'] || s == seq!['-', '-', 'h', 'e', 'l', 'p']
}

pub open spec fn version_flag(s: Seq<char>) -> bool {
    s == seq!['-', 'V'] || s == seq!['-', '-', 'v', 'e', 'r', 's', 'i', 'o', 'n']
}

pub open spec fn asks_help(args: Seq<String>) -> bool {
    exists|i: int| 0 <= i < args.len() && help_flag(#[trigger] args[i]@)
}

pub open spec fn asks_version(args: Seq<String>) -> bool {
    exists|i: int| 0 <= i < args.len() && version_flag(#[trigger] args[i]@)
}

fn is_help_flag(s: &String) -> (r: bool)
    ensures
        r == help_flag(s@),
{
    let v = chars_of(s.as_str());
    let short = v.len() == 2 && v[0] == '-' && v[1] == 'h';
    let long = v.len() == 6 && v[0] == '-' && v[1] == '-' && v[2] == 'h' && v[3] == 'e' && v[4]
        == 'l' && v[5] == 'p';
    proof {
        if short {
            assert(v@ =~= seq!['-', 'h']);
        }
        if long {
            assert(v@ =~= seq!['-', '-', 'h', 'e', 'l', 'p']);
        }
    }
    short || long
}

fn is_version_flag(s: &String) -> (r: bool)
    ensures
        r == version_flag(s@),
{
    let v = chars_of(s.as_str());
    let short = v.len() == 2 && v[0] == '-' && v[1] == 'V';
    let long = v.len() == 9 && v[0] == '-' && v[1] == '-' && v[2] == 'v' && v[3] == 'e' && v[4]
        == 'r' && v[5] == 's' && v[6] == 'i' && v[7] == 'o' && v[8] == 'n';
    proof {
        if short {
            assert(v@ =~= seq!['-', 'V']);
        }
        if long {
            assert(v@ =~= seq!['-', '-', 'v', 'e', 'r', 's', 'i', 'o', 'n']);
        }
    }
    short || long
}

/// Decides what the arguments (the program name first) ask for: help when any
/// argument is `-h` or `--help`, else the version when any is `-V` or
/// `--version`, else a roll of the first argument after the program name.
pub fn cli_action(args: &Vec<String>) -> (r: CliAction)
    requires
        args@.len() > 1,
    ensures
        asks_help(args@) ==> r == CliAction::Help,
        !asks_help(args@) && asks_version(args@) ==> r == CliAction::Version,
        !asks_help(args@) && !asks_version(args@) ==> (r matches CliAction::Roll(e) && e@
            == args@[1]@),
{
    let mut help = false;
    let mut version = false;
    let mut i: usize = 0;
    while i < args.len()
        invariant
            i <= args@.len(),
            help == (exists|j: int| 0 <= j < i && help_flag(#[trigger] args@[j]@)),
            version == (exists|j: int| 0 <= j < i && version_flag(#[trigger] args@[j]@)),
        decreases args@.len() - i,
    {
        if is_help_flag(&args[i]) {
            help = true;
        }
        if is_version_flag(&args[i]) {
            version = true;
        }
        i = i + 1;
    }
    if help {
        CliAction::Help
    } else if version {
        CliAction::Version
    } else {
        CliAction::Roll(args[1].clone())
    }
}

} // verus!
