//! Coordinator decisions: what a command line asks for, the full target
//! prefix, and how many workers to spawn.

use vstd::prelude::*;
use crate::alphabet::{all_alphabet, hrp_prefix, is_alphabet_char, first_invalid_char};
use crate::host;

verus! {

/// Iterations a worker buffers locally before flushing to the shared counter
/// and checking the stop flag.
pub const BATCH_SIZE: u64 = 10000;

/// Iterations between two progress prints by the reporter; a multiple of the
/// batch size.
pub const REPORT_INTERVAL: u64 = 100000;

/// The full target prefix for `suffix`: the fixed leading segment followed
/// by the suffix, unmodified.
pub open spec fn target_prefix(suffix: Seq<char>) -> Seq<char> {
    hrp_prefix() + suffix
}

/// Builds the full target prefix for `suffix`.
pub fn build_prefix(suffix: &str) -> (p: String)
    ensures
        p@ == target_prefix(suffix@),
{
    proof {
        reveal_strlit("bc1q");
    }
    let mut p = String::from_str("bc1q");
    p.append(suffix);
    proof {
        assert(p@ =~= target_prefix(suffix@));
    }
    p
}

/// What the Coordinator decides to do for one command line.
pub enum Plan {
    /// No suffix was given: print the usage message and do no work.
    Usage,
    /// The suffix holds a character outside the alphabet — the first such
    /// character — so no worker is spawned.
    InvalidChar(char),
    /// Search for the carried full target prefix.
    Run(String),
}

/// Decides what to do for the command line `args` (program name first): the
/// usage message when no suffix was given; rejection naming the first
/// character of the suffix outside the alphabet, when there is one, before
/// any search starts; otherwise the full target prefix to search for,
/// accepted exactly when every character of the suffix is alphabet-valid.
pub fn plan_from_args(args: &Vec<String>) -> (r: Plan)
    ensures
        args@.len() < 2 ==> r == Plan::Usage,
        args@.len() >= 2 ==> match r {
            Plan::Usage => false,
            Plan::InvalidChar(c) => exists|i: int|
                0 <= i < args@[1]@.len() && !is_alphabet_char(#[trigger] args@[1]@[i])
                && c == args@[1]@[i]
                && (forall|j: int| 0 <= j < i ==> is_alphabet_char(#[trigger] args@[1]@[j])),
            Plan::Run(p) => all_alphabet(args@[1]@) && p@ == target_prefix(args@[1]@),
        },
{
    if args.len() < 2 {
        return Plan::Usage;
    }
    let suffix: &String = &args[1];
    match first_invalid_char(suffix.as_str()) {
        Some(c) => Plan::InvalidChar(c),
        None => Plan::Run(build_prefix(suffix.as_str())),
    }
}

/// The configured fraction of `cpus` that searches: half of them, floored
/// at one worker.
pub fn half_at_least_one(cpus: usize) -> (n: usize)
    ensures
        n == (if cpus / 2 == 0 { 1usize } else { cpus / 2 }),
{
    let half = cpus / 2;
    if half == 0 {
        1
    } else {
        half
    }
}

/// The number of workers to spawn: half the available hardware parallelism,
/// and at least one. The CPU reading is the machine's, so only the floor
/// holds of every outcome.
pub fn worker_count() -> (n: usize)
    ensures
        n >= 1,
{
    half_at_least_one(host::available_cpus())
}

} // verus!
