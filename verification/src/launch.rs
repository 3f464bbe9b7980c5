//! The process that launches the wrapped command: which step comes next, and
//! with which status a process ends. The caller performs each step (it
//! duplicates descriptors, creates the pseudo-terminals, runs the channel
//! session, waits, replaces the process image) and reports what came of it.

use vstd::prelude::*;

verus! {

/// The two output channels of the wrapped command.
#[derive(Clone, Copy, Debug, PartialEq, Eq, Structural)]
pub enum Channel {
    /// Standard output.
    Output,
    /// Standard error.
    Errors,
}

/// Where a process of the launch stands.
#[derive(Clone, Copy, Debug, PartialEq, Eq, Structural)]
pub enum Stage {
    /// Nothing has been done yet.
    Start,
    /// The pseudo-terminal pair of a channel is to be created.
    Forking(Channel),
    /// This process is the parent of a fork and forwards the channel.
    Intercepting(Channel),
    /// The channel has ended; the child is waited for.
    Waiting(Channel),
    /// This process is the child of the first fork and saves its output.
    SavingOutput,
    /// This process is the child of both forks and restores its descriptors.
    Restoring,
    /// The command line names no command; this is to be said.
    NoCommand,
    /// The process image is to be replaced by the command.
    Launching,
    /// The process has become the command.
    ImageReplaced,
    /// The process has ended with this status.
    Exited(i32),
}

/// What came of a step.
#[derive(Clone, Copy, Debug, PartialEq, Eq, Structural)]
pub enum Event {
    /// The step succeeded.
    Done,
    /// The fork succeeded and this process is the parent.
    ForkedParent,
    /// The fork succeeded and this process is the child.
    ForkedChild,
    /// The channel session left its loop.
    StreamEnded,
    /// The child was waited for.
    WaitSucceeded,
    /// Waiting for the child failed.
    WaitFailed,
    /// The step failed.
    Failed,
}

/// What the caller does in a stage.
#[derive(Clone, Copy, Debug, PartialEq, Eq, Structural)]
pub enum Step {
    /// Duplicate standard input and standard error.
    SaveInputAndErrors,
    /// Create a pseudo-terminal pair of 24 rows and 80 columns and fork.
    CreateTerminal(Channel),
    /// Run a channel session from the pair's master to the real destination.
    Intercept(Channel),
    /// Wait for the forked child.
    WaitForChild,
    /// Duplicate standard output.
    SaveOutput,
    /// Put the saved standard input and standard output back in place.
    RestoreInputAndOutput,
    /// Say on standard error that there is no command.
    ReportNoCommand,
    /// Replace the process image with the command and its arguments.
    ReplaceImage,
    /// Exit with this status.
    Exit(i32),
    /// Nothing: this process runs the command now.
    Nothing,
}

/// The rows of the pseudo-terminals' window.
pub const TERMINAL_ROWS: u16 = 24;

/// The columns of the pseudo-terminals' window.
pub const TERMINAL_COLUMNS: u16 = 80;

/// The status with which an intercepting process ends: 0 where waiting for
/// its child succeeded, 1 otherwise.
pub open spec fn status_after_wait(wait_succeeded: bool) -> i32 {
    if wait_succeeded { 0i32 } else { 1i32 }
}

/// The stage after an event. A failed step ends the process with status 1,
/// and so does an empty command line, once that has been said and before any
/// attempt to run a command. An event that a stage does not expect changes
/// nothing.
pub open spec fn successor(stage: Stage, event: Event, have_command: bool) -> Stage {
    match (stage, event) {
        (Stage::Start, Event::Done) => Stage::Forking(Channel::Output),
        (Stage::Forking(c), Event::ForkedParent) => Stage::Intercepting(c),
        (Stage::Forking(Channel::Output), Event::ForkedChild) => Stage::SavingOutput,
        (Stage::Forking(Channel::Errors), Event::ForkedChild) => Stage::Restoring,
        (Stage::SavingOutput, Event::Done) => Stage::Forking(Channel::Errors),
        (Stage::Intercepting(c), Event::StreamEnded) => Stage::Waiting(c),
        (Stage::Waiting(_), Event::WaitSucceeded) => Stage::Exited(status_after_wait(true)),
        (Stage::Waiting(_), Event::WaitFailed) => Stage::Exited(status_after_wait(false)),
        (Stage::Restoring, Event::Done) => if have_command {
            Stage::Launching
        } else {
            Stage::NoCommand
        },
        (Stage::NoCommand, Event::Done) => Stage::Exited(1),
        (Stage::NoCommand, Event::Failed) => Stage::Exited(1),
        (Stage::Launching, Event::Done) => Stage::ImageReplaced,
        (Stage::Start, Event::Failed) => Stage::Exited(1),
        (Stage::Forking(_), Event::Failed) => Stage::Exited(1),
        (Stage::SavingOutput, Event::Failed) => Stage::Exited(1),
        (Stage::Restoring, Event::Failed) => Stage::Exited(1),
        (Stage::Launching, Event::Failed) => Stage::Exited(1),
        _ => stage,
    }
}

/// The step of a stage.
pub open spec fn step_of(stage: Stage) -> Step {
    match stage {
        Stage::Start => Step::SaveInputAndErrors,
        Stage::Forking(c) => Step::CreateTerminal(c),
        Stage::Intercepting(c) => Step::Intercept(c),
        Stage::Waiting(_) => Step::WaitForChild,
        Stage::SavingOutput => Step::SaveOutput,
        Stage::Restoring => Step::RestoreInputAndOutput,
        Stage::NoCommand => Step::ReportNoCommand,
        Stage::Launching => Step::ReplaceImage,
        Stage::ImageReplaced => Step::Nothing,
        Stage::Exited(status) => Step::Exit(status),
    }
}

/// Whether a stage is final.
pub open spec fn is_final(stage: Stage) -> bool {
    stage is ImageReplaced || stage is Exited
}

/// How far a stage is along the launch.
pub open spec fn progress(stage: Stage) -> nat {
    match stage {
        Stage::Start => 0,
        Stage::Forking(Channel::Output) => 1,
        Stage::SavingOutput => 2,
        Stage::Forking(Channel::Errors) => 3,
        Stage::Restoring => 4,
        Stage::Launching => 5,
        Stage::NoCommand => 5,
        Stage::Intercepting(_) => 6,
        Stage::Waiting(_) => 7,
        Stage::ImageReplaced => 8,
        Stage::Exited(_) => 8,
    }
}

/// The status with which an intercepting process ends.
pub fn exit_status(wait_succeeded: bool) -> (status: i32)
    ensures
        status == status_after_wait(wait_succeeded),
{
    if wait_succeeded { 0 } else { 1 }
}

/// Whether there is a command to run: the command line names one.
pub fn has_command(args: &Vec<String>) -> (b: bool)
    ensures
        b == (args@.len() > 0),
{
    args.len() > 0
}

/// The stage after an event.
pub fn advance(stage: Stage, event: Event, have_command: bool) -> (next: Stage)
    ensures
        next == successor(stage, event, have_command),
{
    match stage {
        Stage::Start => match event {
            Event::Done => Stage::Forking(Channel::Output),
            Event::Failed => Stage::Exited(1),
            _ => stage,
        },
        Stage::Forking(channel) => match event {
            Event::ForkedParent => Stage::Intercepting(channel),
            Event::ForkedChild => match channel {
                Channel::Output => Stage::SavingOutput,
                Channel::Errors => Stage::Restoring,
            },
            Event::Failed => Stage::Exited(1),
            _ => stage,
        },
        Stage::SavingOutput => match event {
            Event::Done => Stage::Forking(Channel::Errors),
            Event::Failed => Stage::Exited(1),
            _ => stage,
        },
        Stage::Intercepting(channel) => match event {
            Event::StreamEnded => Stage::Waiting(channel),
            _ => stage,
        },
        Stage::Waiting(_) => match event {
            Event::WaitSucceeded => Stage::Exited(exit_status(true)),
            Event::WaitFailed => Stage::Exited(exit_status(false)),
            _ => stage,
        },
        Stage::Restoring => match event {
            Event::Done => if have_command {
                Stage::Launching
            } else {
                Stage::NoCommand
            },
            Event::Failed => Stage::Exited(1),
            _ => stage,
        },
        Stage::NoCommand => match event {
            Event::Done => Stage::Exited(1),
            Event::Failed => Stage::Exited(1),
            _ => stage,
        },
        Stage::Launching => match event {
            Event::Done => Stage::ImageReplaced,
            Event::Failed => Stage::Exited(1),
            _ => stage,
        },
        Stage::ImageReplaced => stage,
        Stage::Exited(_) => stage,
    }
}

/// The step that the caller performs in a stage.
pub fn next_step(stage: Stage) -> (step: Step)
    ensures
        step == step_of(stage),
{
    match stage {
        Stage::Start => Step::SaveInputAndErrors,
        Stage::Forking(channel) => Step::CreateTerminal(channel),
        Stage::Intercepting(channel) => Step::Intercept(channel),
        Stage::Waiting(_) => Step::WaitForChild,
        Stage::SavingOutput => Step::SaveOutput,
        Stage::Restoring => Step::RestoreInputAndOutput,
        Stage::NoCommand => Step::ReportNoCommand,
        Stage::Launching => Step::ReplaceImage,
        Stage::ImageReplaced => Step::Nothing,
        Stage::Exited(status) => Step::Exit(status),
    }
}

/// A final stage stays: once the process has ended or has become the
/// command, no event changes that.
pub proof fn law_final_stages_stay(stage: Stage, event: Event, have_command: bool)
    requires
        is_final(stage),
    ensures
        successor(stage, event, have_command) == stage,
{
}

/// The launch never goes back: an event leaves the stage as it is or leads
/// to one that is further along.
pub proof fn law_launch_moves_forward(stage: Stage, event: Event, have_command: bool)
    ensures
        successor(stage, event, have_command) == stage || progress(
            successor(stage, event, have_command),
        ) > progress(stage),
{
}

/// The process image is replaced only for a command line that names a
/// command, and only from the stage that has restored the descriptors.
pub proof fn law_launch_needs_command(stage: Stage, event: Event, have_command: bool)
    requires
        successor(stage, event, have_command) == Stage::Launching,
        stage != Stage::Launching,
    ensures
        have_command,
        stage == Stage::Restoring,
        event == Event::Done,
{
}

/// An empty command line is said exactly where the descriptors have been
/// restored and no command is named, and the process then ends with status 1
/// whether or not saying it succeeded.
pub proof fn law_no_command_is_said(stage: Stage, event: Event, have_command: bool)
    ensures
        (stage != Stage::NoCommand && successor(stage, event, have_command) == Stage::NoCommand) <==> (stage
            == Stage::Restoring && event == Event::Done && !have_command),
        stage == Stage::NoCommand && (event == Event::Done || event == Event::Failed) ==> successor(
            stage,
            event,
            have_command,
        ) == Stage::Exited(1),
{
}

/// A process ends with status 0 only after it has waited for its child with
/// success; every other end has status 1.
pub proof fn law_exit_status(stage: Stage, event: Event, have_command: bool)
    requires
        !is_final(stage),
        successor(stage, event, have_command) is Exited,
    ensures
        successor(stage, event, have_command) == Stage::Exited(0) <==> (stage is Waiting && event
            == Event::WaitSucceeded),
        successor(stage, event, have_command) != Stage::Exited(0) ==> successor(
            stage,
            event,
            have_command,
        ) == Stage::Exited(1),
{
}

/// Only the parent of a fork forwards a channel, and it forwards the channel
/// that the fork was made for.
pub proof fn law_parent_intercepts(stage: Stage, event: Event, have_command: bool, channel: Channel)
    requires
        successor(stage, event, have_command) == Stage::Intercepting(channel),
        stage != Stage::Intercepting(channel),
    ensures
        stage == Stage::Forking(channel),
        event == Event::ForkedParent,
{
}

} // verus!
