//! Termination: deciding the outcome of one termination attempt.
//!
//! The OS side of an attempt — opening a terminate-capable handle,
//! querying the exit code, issuing the terminate call — happens outside
//! the library and hands its results in as plain values. The decisions
//! are made here: whether the kill may be attempted at all, what exit
//! code to use, whether the intent is reported, and what the recorded
//! outcome is. An attempt is made at most once; a failed one is reported
//! and never retried.

use vstd::prelude::*;

use crate::arguments::Arguments;

verus! {

/// The record of one termination attempt: the process it aimed at, the
/// exit code handed to the terminate call, and whether the call was made
/// and succeeded.
pub struct TerminationOutcome {
    pub pid: u32,
    pub name: String,
    pub exit_code_used: u32,
    pub succeeded: bool,
}

/// The exit code a kill uses: the queried code, or zero when the query
/// failed — a failed query does not abort the attempt.
pub open spec fn spec_exit_code_used(code_query: Option<u32>) -> u32 {
    match code_query {
        Option::Some(c) => c,
        Option::None => 0u32,
    }
}

/// The terminate call is made only when a terminate-capable handle was
/// obtained and termination is not disabled (the dry-run switch).
pub open spec fn spec_should_attempt(dry_run: bool, handle_ok: bool) -> bool {
    handle_ok && !dry_run
}

/// The kill intent is reported when verbose output is on and a handle
/// was obtained — whether or not the kill is then actually attempted.
pub open spec fn spec_report_intent(verbose: bool, handle_ok: bool) -> bool {
    verbose && handle_ok
}

/// An attempt succeeded exactly when the kill was attempted — handle
/// obtained, dry run off — and the terminate call reported success.
pub open spec fn spec_termination_succeeded(dry_run: bool, handle_ok: bool, kill_ok: bool) -> bool {
    handle_ok && !dry_run && kill_ok
}

/// Decides whether the terminate call may be made under the given flags.
pub fn should_attempt_termination(args: &Arguments, handle_ok: bool) -> (r: bool)
    ensures
        r == spec_should_attempt(args.disable_proc_termination, handle_ok),
{
    handle_ok && !args.disable_proc_termination
}

/// Decides whether the kill intent is reported. The dry-run switch plays
/// no part: a dry run still reports every match when verbose is on.
pub fn should_report_intent(args: &Arguments, handle_ok: bool) -> (r: bool)
    ensures
        r == spec_report_intent(args.verbose, handle_ok),
{
    args.verbose && handle_ok
}

/// The exit code to hand to the terminate call for the given query
/// result.
pub fn exit_code_for_kill(code_query: &Option<u32>) -> (c: u32)
    ensures
        c == spec_exit_code_used(*code_query),
{
    match code_query {
        Option::Some(c) => *c,
        Option::None => 0,
    }
}

/// Builds the outcome of one termination attempt on `pid`/`name`.
/// `handle_ok` is whether a terminate-capable handle was obtained,
/// `code_query` the result of the exit-code query, and `kill_ok` what
/// the terminate call returned — its value is irrelevant unless the kill
/// was actually attempted.
pub fn terminate_decision(
    pid: u32,
    name: String,
    dry_run: bool,
    handle_ok: bool,
    code_query: Option<u32>,
    kill_ok: bool,
) -> (o: TerminationOutcome)
    ensures
        o.pid == pid,
        o.name@ == name@,
        o.succeeded == spec_termination_succeeded(dry_run, handle_ok, kill_ok),
        o.exit_code_used == (if spec_should_attempt(dry_run, handle_ok) {
            spec_exit_code_used(code_query)
        } else {
            0u32
        }),
        dry_run ==> !o.succeeded,
{
    let attempted = handle_ok && !dry_run;
    let code: u32 = if attempted {
        exit_code_for_kill(&code_query)
    } else {
        0
    };
    TerminationOutcome { pid, name, exit_code_used: code, succeeded: attempted && kill_ok }
}

/// Dry-run invariant: with termination disabled no outcome reports
/// success, whatever the handle acquisition and the terminate call
/// returned — while the kill-intent report, which reads only verbosity
/// and handle acquisition, is unchanged by the switch.
pub proof fn lemma_dry_run_never_succeeds(handle_ok: bool, kill_ok: bool)
    ensures
        !spec_termination_succeeded(true, handle_ok, kill_ok),
        !spec_should_attempt(true, handle_ok),
{
}

} // verus!
