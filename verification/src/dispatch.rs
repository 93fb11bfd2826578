//! Dispatch decisions: which command a state transition calls for, and whether
//! it is to be executed or merely announced (dry run).
//!
//! The monitor never runs a command itself; it hands the caller a `Dispatch`
//! plan that says exactly what to do. In dry-run mode the plan is always a
//! `WouldRun` notice, never an execution.

use vstd::prelude::*;
use crate::state::AggregateState;

verus! {

/// What the caller must do for one state transition: run the command through a
/// shell, or only report that it would have been run.
#[derive(Clone, Debug)]
pub enum DispatchAction {
    Execute { command: String },
    WouldRun { command: String },
}

/// A dispatch plan: the aggregate state being announced and the action that
/// goes with it.
#[derive(Clone, Debug)]
pub struct Dispatch {
    pub new_state: AggregateState,
    pub action: DispatchAction,
}

/// Whether `d` is the correct plan for announcing `state` with the given
/// command text under the given dry-run setting: the command is carried
/// verbatim, and it is executed exactly when dry run is off.
pub open spec fn plan_matches(
    d: Dispatch,
    state: AggregateState,
    command: Seq<char>,
    dry_run: bool,
) -> bool {
    &&& d.new_state == state
    &&& match d.action {
        DispatchAction::Execute { command: c } => !dry_run && c@ == command,
        DispatchAction::WouldRun { command: c } => dry_run && c@ == command,
    }
}

impl Dispatch {
    /// Whether this plan actually executes a command (as opposed to a dry-run
    /// notice).
    pub fn is_execution(&self) -> (r: bool)
        ensures
            r == (self.action matches DispatchAction::Execute { .. }),
    {
        match &self.action {
            DispatchAction::Execute { .. } => true,
            DispatchAction::WouldRun { .. } => false,
        }
    }

    /// The literal command text carried by this plan.
    pub fn command_text(&self) -> (r: &String)
        ensures
            match self.action {
                DispatchAction::Execute { command: c } => r@ == c@,
                DispatchAction::WouldRun { command: c } => r@ == c@,
            },
    {
        match &self.action {
            DispatchAction::Execute { command } => command,
            DispatchAction::WouldRun { command } => command,
        }
    }
}

/// The plan for the all-mounted transition: announce `AllMounted` and execute
/// `cmd` unless `dry_run` is set, in which case only a notice is produced.
pub fn all_mounted(cmd: &String, dry_run: bool) -> (d: Dispatch)
    ensures
        plan_matches(d, AggregateState::AllMounted, cmd@, dry_run),
{
    Dispatch {
        new_state: AggregateState::AllMounted,
        action: if dry_run {
            DispatchAction::WouldRun { command: cmd.clone() }
        } else {
            DispatchAction::Execute { command: cmd.clone() }
        },
    }
}

/// The plan for the not-all-mounted transition: announce `NotAllMounted` and
/// execute `cmd` unless `dry_run` is set, in which case only a notice is
/// produced.
pub fn any_unmounted(cmd: &String, dry_run: bool) -> (d: Dispatch)
    ensures
        plan_matches(d, AggregateState::NotAllMounted, cmd@, dry_run),
{
    Dispatch {
        new_state: AggregateState::NotAllMounted,
        action: if dry_run {
            DispatchAction::WouldRun { command: cmd.clone() }
        } else {
            DispatchAction::Execute { command: cmd.clone() }
        },
    }
}

/// Dry-run mode never yields an executing action, under any state and command.
pub proof fn lemma_dry_run_never_executes(d: Dispatch, state: AggregateState, command: Seq<char>)
    requires
        plan_matches(d, state, command, true),
    ensures
        !(d.action matches DispatchAction::Execute { .. }),
{
}

/// How a dispatched command's fate is classified.
#[derive(Clone, Copy, Debug, PartialEq, Eq, Structural)]
pub enum CommandError {
    /// The command process could not be spawned at all.
    SpawnFailure,
    /// The command ran but exited with a non-zero status.
    CommandFailed,
}

/// Classifies the outcome of running a dispatched command: success exactly
/// when the process was spawned and exited with status zero; each failure mode
/// is reported, never swallowed.
pub fn command_outcome(spawned: bool, exit_success: bool) -> (r: Result<(), CommandError>)
    ensures
        r is Ok <==> spawned && exit_success,
        !spawned ==> r == Result::<(), CommandError>::Err(CommandError::SpawnFailure),
        spawned && !exit_success ==> r == Result::<(), CommandError>::Err(
            CommandError::CommandFailed,
        ),
{
    if !spawned {
        Err(CommandError::SpawnFailure)
    } else if !exit_success {
        Err(CommandError::CommandFailed)
    } else {
        Ok(())
    }
}

} // verus!
