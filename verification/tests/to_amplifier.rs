use amplifier_relayer::to_amplifier::{
    is_reported, on_command_poll, on_task_poll, CommandPoll, ReceiverAction, StreamStep, TaskOutcome, TaskPoll,
};

#[test]
fn commands_are_sent_at_once() {
    assert_eq!(on_command_poll(CommandPoll::Command), ReceiverAction::SpawnAndYield);
    assert_eq!(on_command_poll(CommandPoll::Pending), ReceiverAction::PollTasks);
    assert_eq!(on_command_poll(CommandPoll::Closed), ReceiverAction::AbortAllThenPollTasks);
}

#[test]
fn stream_ends_when_drained() {
    assert_eq!(on_task_poll(TaskPoll::Finished, true), StreamStep::Yield);
    assert_eq!(on_task_poll(TaskPoll::Pending, true), StreamStep::Pending);
    assert_eq!(on_task_poll(TaskPoll::Empty, false), StreamStep::Pending);
    assert_eq!(on_task_poll(TaskPoll::Empty, true), StreamStep::End);
}

#[test]
fn failures_and_panics_are_reported() {
    assert!(!is_reported(TaskOutcome::Sent));
    assert!(is_reported(TaskOutcome::Failed));
    assert!(is_reported(TaskOutcome::Panicked));
}
