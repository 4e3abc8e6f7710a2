//! The loop that forwards commands to the Amplifier API: each command is
//! sent from a background task, and the loop reports what the tasks
//! return. These are its decisions; the polling itself is asynchronous.
use vstd::prelude::*;

verus! {

/// What polling the command receiver gave.
#[derive(Debug, Clone, Copy, PartialEq, Eq)]
pub enum CommandPoll {
    /// A command arrived.
    Command,
    /// Nothing yet.
    Pending,
    /// The channel is closed.
    Closed,
}

/// What the loop does after polling the receiver.
#[derive(Debug, Clone, Copy, PartialEq, Eq)]
pub enum ReceiverAction {
    /// Start a background task sending the command, make sure to be polled
    /// again, and yield the outcome of starting it.
    SpawnAndYield,
    /// Abort every background task, then look at finished tasks.
    AbortAllThenPollTasks,
    /// Look at finished tasks.
    PollTasks,
}

/// What polling the set of background tasks gave.
#[derive(Debug, Clone, Copy, PartialEq, Eq)]
pub enum TaskPoll {
    /// A task finished.
    Finished,
    /// Tasks are running, none has finished.
    Pending,
    /// No task is left.
    Empty,
}

/// What the stream of task outcomes does.
#[derive(Debug, Clone, Copy, PartialEq, Eq)]
pub enum StreamStep {
    /// Yield the finished task's outcome.
    Yield,
    /// Wait to be polled again.
    Pending,
    /// The stream ends.
    End,
}

/// The decision after polling the receiver: a command is sent at once; a
/// closed channel aborts every running task.
pub fn on_command_poll(poll: CommandPoll) -> (r: ReceiverAction)
    ensures
        r == match poll {
            CommandPoll::Command => ReceiverAction::SpawnAndYield,
            CommandPoll::Pending => ReceiverAction::PollTasks,
            CommandPoll::Closed => ReceiverAction::AbortAllThenPollTasks,
        },
{
    match poll {
        CommandPoll::Command => ReceiverAction::SpawnAndYield,
        CommandPoll::Pending => ReceiverAction::PollTasks,
        CommandPoll::Closed => ReceiverAction::AbortAllThenPollTasks,
    }
}

/// The step of the stream after polling the tasks.
pub open spec fn spec_task_step(poll: TaskPoll, receiver_terminated: bool) -> StreamStep {
    match poll {
        TaskPoll::Finished => StreamStep::Yield,
        TaskPoll::Pending => StreamStep::Pending,
        TaskPoll::Empty => if receiver_terminated { StreamStep::End } else { StreamStep::Pending },
    }
}

/// The decision after polling the tasks: a finished task's outcome is
/// yielded; with no task left the stream ends once the receiver is done,
/// and waits otherwise.
pub fn on_task_poll(poll: TaskPoll, receiver_terminated: bool) -> (r: StreamStep)
    ensures
        r == spec_task_step(poll, receiver_terminated),
        r == StreamStep::Yield <==> poll == TaskPoll::Finished,
        r == StreamStep::End <==> poll == TaskPoll::Empty && receiver_terminated,
{
    match poll {
        TaskPoll::Finished => StreamStep::Yield,
        TaskPoll::Pending => StreamStep::Pending,
        TaskPoll::Empty => {
            if receiver_terminated {
                StreamStep::End
            } else {
                StreamStep::Pending
            }
        },
    }
}

/// How a background task ended.
#[derive(Debug, Clone, Copy, PartialEq, Eq)]
pub enum TaskOutcome {
    /// The command was sent.
    Sent,
    /// Sending failed.
    Failed,
    /// The task panicked or was aborted.
    Panicked,
}

/// Whether a task outcome is reported as an error.
pub fn is_reported(outcome: TaskOutcome) -> (r: bool)
    ensures
        r <==> outcome != TaskOutcome::Sent,
{
    match outcome {
        TaskOutcome::Sent => false,
        _ => true,
    }
}

/// Every finished task's outcome is yielded, whether or not the receiver is
/// still open, and only a finished task gives an outcome to yield.
pub proof fn law_finished_task_is_yielded(poll: TaskPoll, receiver_terminated: bool)
    ensures
        spec_task_step(TaskPoll::Finished, receiver_terminated) == StreamStep::Yield,
        spec_task_step(poll, receiver_terminated) == StreamStep::Yield ==> poll == TaskPoll::Finished,
{
}

/// The stream of task outcomes ends only when the receiver is done and no
/// task is left; until then a poll either yields an outcome or waits.
pub proof fn lemma_stream_ends_only_when_drained(poll: TaskPoll, receiver_terminated: bool)
    ensures
        (spec_task_step(poll, receiver_terminated) == StreamStep::End) <==> (poll == TaskPoll::Empty
            && receiver_terminated),
{
}

} // verus!
