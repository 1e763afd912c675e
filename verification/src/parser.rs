//! The parts of the command line interface that decide something: whether a
//! help flag among the raw arguments asks for help before any parsing, and the
//! help text of `--user-agent`.

use vstd::prelude::*;

verus! {

/// Which help a run of the program asks for, judged from its raw arguments.
#[derive(PartialEq, Eq, Structural, Debug, Clone, Copy)]
pub enum HelpRequest {
    /// No argument is `--help` or `-h`.
    NotRequested,
    /// The long help (`--help`), printed in full.
    Long,
    /// The short help (`-h`).
    Short,
}

/// The help asked for by `args[from..]`: the first argument that is `--help`
/// or `-h` decides, whatever stands before or after it.
pub open spec fn help_request_from(args: Seq<String>, from: int) -> HelpRequest
    decreases args.len() - from,
{
    if from < 0 || from >= args.len() {
        HelpRequest::NotRequested
    } else if args[from]@ == "--help"@ {
        HelpRequest::Long
    } else if args[from]@ == "-h"@ {
        HelpRequest::Short
    } else {
        help_request_from(args, from + 1)
    }
}


/// Whether `arg` is one of the help flags.
pub open spec fn is_help_flag(arg: String) -> bool {
    arg@ == "--help"@ || arg@ == "-h"@
}

proof fn lemma_first_flag_from(args: Seq<String>, from: int, k: int)
    requires
        0 <= from <= k < args.len(),
        is_help_flag(args[k]),
        forall|j: int| from <= j < k ==> !is_help_flag(#[trigger] args[j]),
    ensures
        help_request_from(args, from) == (if args[k]@ == "--help"@ {
            HelpRequest::Long
        } else {
            HelpRequest::Short
        }),
    decreases k - from,
{
    if from < k {
        assert(!is_help_flag(args[from]));
        lemma_first_flag_from(args, from + 1, k);
    }
}

proof fn lemma_no_flag_from(args: Seq<String>, from: int)
    requires
        0 <= from <= args.len(),
        forall|j: int| from <= j < args.len() ==> !is_help_flag(#[trigger] args[j]),
    ensures
        help_request_from(args, from) == HelpRequest::NotRequested,
    decreases args.len() - from,
{
    if from < args.len() {
        assert(!is_help_flag(args[from]));
        lemma_no_flag_from(args, from + 1);
    }
}

/// The first help flag among the arguments decides, wherever it stands and
/// whatever stands before it: `--help` asks for the long help, `-h` for the
/// short one.
pub proof fn lemma_first_help_flag_decides(args: Seq<String>, k: int)
    requires
        0 <= k < args.len(),
        is_help_flag(args[k]),
        forall|j: int| 0 <= j < k ==> !is_help_flag(#[trigger] args[j]),
    ensures
        args[k]@ == "--help"@ ==> help_request_from(args, 0) == HelpRequest::Long,
        args[k]@ != "--help"@ ==> help_request_from(args, 0) == HelpRequest::Short,
{
    lemma_first_flag_from(args, 0, k);
}

/// Help is not asked for exactly when no argument is a help flag.
pub proof fn lemma_no_help_flag(args: Seq<String>)
    ensures
        (help_request_from(args, 0) == HelpRequest::NotRequested) <==> (forall|j: int|
            0 <= j < args.len() ==> !is_help_flag(#[trigger] args[j])),
{
    if forall|j: int| 0 <= j < args.len() ==> !is_help_flag(#[trigger] args[j]) {
        lemma_no_flag_from(args, 0);
    } else {
        let k = choose|k: int| 0 <= k < args.len() && is_help_flag(#[trigger] args[k]);
        lemma_first_exists(args, k);
    }
}

proof fn lemma_first_exists(args: Seq<String>, k: int)
    requires
        0 <= k < args.len(),
        is_help_flag(args[k]),
    ensures
        help_request_from(args, 0) != HelpRequest::NotRequested,
    decreases k,
{
    if exists|j: int| 0 <= j < k && is_help_flag(#[trigger] args[j]) {
        let j = choose|j: int| 0 <= j < k && is_help_flag(#[trigger] args[j]);
        lemma_first_exists(args, j);
    } else {
        lemma_first_flag_from(args, 0, k);
    }
}

/// Scans the raw arguments for a help flag. A bad flag elsewhere on the line
/// must not hide the help, so this is decided before the arguments are parsed.
pub fn help_request(args: &Vec<String>) -> (req: HelpRequest)
    ensures
        req == help_request_from(args@, 0),
{
    let long = String::from_str("--help");
    let short = String::from_str("-h");
    let mut i: usize = 0;
    while i < args.len()
        invariant
            i <= args.len(),
            long@ == "--help"@,
            short@ == "-h"@,
            help_request_from(args@, 0) == help_request_from(args@, i as int),
        decreases args.len() - i,
    {
        if args[i] == long {
            return HelpRequest::Long;
        } else if args[i] == short {
            return HelpRequest::Short;
        }
        i = i + 1;
    }
    HelpRequest::NotRequested
}

pub open spec fn user_agent_help_text(version: Seq<char>) -> Seq<char> {
    "Sets the User-Agent (default: feroxbuster/"@ + version + ")"@
}

/// The help text of `--user-agent`, which names the default agent of the
/// given program version.
pub fn user_agent_help(version: &str) -> (text: String)
    ensures
        text@ == user_agent_help_text(version@),
{
    let text = String::from_str("Sets the User-Agent (default: feroxbuster/");
    let text = text.concat(version);
    text.concat(")")
}

} // verus!
