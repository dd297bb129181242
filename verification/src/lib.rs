//! Startup-argument reporting for an application launched with a file path.
//!
//! When the operating system starts an application with a file path on the
//! command line (an "open with" launch), that path stands at position 1 of
//! the argument vector; position 0 holds the program's own path. The
//! reporter answers which file, if any, the launch named. Absence of a
//! startup argument is a normal empty result, never a failure, and presence,
//! not content, decides: an empty string at position 1 is still reported.

use vstd::prelude::*;

verus! {

/// The startup file of an argument vector: the text at position 1 when the
/// vector holds more than one element, and no value otherwise.
pub open spec fn startup_file(args: Seq<Seq<char>>) -> Option<Seq<char>> {
    if args.len() > 1 {
        Some(args[1])
    } else {
        None
    }
}

/// The argument vector as the sequences of characters its entries hold.
pub open spec fn arg_views(args: Seq<String>) -> Seq<Seq<char>> {
    args.map_values(|a: String| a@)
}

/// The reported value as the sequence of characters it holds, if any.
pub open spec fn report_view(r: Option<String>) -> Option<Seq<char>> {
    match r {
        Some(s) => Some(s@),
        None => None,
    }
}

/// Reports the startup file of the given argument vector: the argument at
/// position 1, cloned into an owned value, when the vector holds more than
/// one element, and no value otherwise. The caller resolves the vector once
/// at process entry and passes it in, so the report depends on nothing but
/// the vector itself.
pub fn get_startup_file(args: &Vec<String>) -> (r: Option<String>)
    ensures
        report_view(r) == startup_file(arg_views(args@)),
{
    if args.len() > 1 {
        Some(args[1].clone())
    } else {
        None
    }
}

/// Law: a vector of at most one element (the program's own path, or nothing
/// at all) has no startup file.
pub proof fn lemma_short_vector_reports_no_value(args: Seq<Seq<char>>)
    requires
        args.len() <= 1,
    ensures
        startup_file(args) is None,
{
}

/// Law: a vector of at least two elements has the text at position 1 as its
/// startup file, exactly, whatever that text holds and whatever elements
/// follow it.
pub proof fn lemma_long_vector_reports_position_one(args: Seq<Seq<char>>)
    requires
        args.len() >= 2,
    ensures
        startup_file(args) == Some(args[1]),
{
}

/// Law: the report is deterministic and idempotent. It is a function of the
/// argument vector alone, and the vector is fixed for the life of the
/// process, so any two reports taken in one run agree.
pub proof fn lemma_report_deterministic(
    args: Seq<Seq<char>>,
    r1: Option<Seq<char>>,
    r2: Option<Seq<char>>,
)
    requires
        r1 == startup_file(args),
        r2 == startup_file(args),
    ensures
        r1 == r2,
{
}

} // verus!
