use solhat_ui::taskstatus::{
    set_task_completed, set_task_status, ChannelClosed, Indicator, ProgressChannel, TaskStatus,
    TaskStatusContainer,
};

fn working(name: &str, total: usize, completed: usize) -> TaskStatusContainer {
    TaskStatusContainer {
        status: Some(TaskStatus::TaskPercentage(name.to_string(), total, completed)),
    }
}

#[test]
fn default_message_is_idle() {
    assert_eq!(TaskStatusContainer::default(), TaskStatusContainer { status: None });
    assert_eq!(TaskStatusContainer::idle(), TaskStatusContainer { status: None });
}

#[test]
fn working_message_holds_name_total_and_count() {
    let message = TaskStatusContainer::working("Stacking", 12, 5);
    assert_eq!(message, working("Stacking", 12, 5));
}

#[test]
fn new_channel_is_open_and_empty() {
    let mut channel = ProgressChannel::open();
    assert!(channel.is_open());
    assert_eq!(channel.pending_len(), 0);
    assert_eq!(channel.poll(), None);
}

#[test]
fn messages_arrive_in_the_order_sent() {
    let mut channel = ProgressChannel::open();
    assert_eq!(set_task_status(&mut channel, "Stacking", 3, 0), Ok(()));
    assert_eq!(set_task_status(&mut channel, "Stacking", 3, 1), Ok(()));
    assert_eq!(channel.send(working("Stacking", 3, 2)), Ok(()));
    assert_eq!(set_task_completed(&mut channel), Ok(()));
    assert_eq!(channel.pending_len(), 4);
    assert_eq!(channel.poll(), Some(working("Stacking", 3, 0)));
    assert_eq!(channel.poll(), Some(working("Stacking", 3, 1)));
    assert_eq!(channel.poll(), Some(working("Stacking", 3, 2)));
    assert_eq!(channel.poll(), Some(TaskStatusContainer { status: None }));
    assert_eq!(channel.poll(), None);
    assert_eq!(channel.pending_len(), 0);
}

#[test]
fn each_message_is_taken_once() {
    let mut channel = ProgressChannel::open();
    set_task_status(&mut channel, "Saving", 0, 0).unwrap();
    assert_eq!(channel.poll(), Some(working("Saving", 0, 0)));
    assert_eq!(channel.poll(), None);
    set_task_completed(&mut channel).unwrap();
    assert_eq!(channel.poll(), Some(TaskStatusContainer { status: None }));
    assert_eq!(channel.poll(), None);
}

#[test]
fn send_fails_once_the_monitor_is_gone() {
    let mut channel = ProgressChannel::open();
    set_task_status(&mut channel, "Stacking", 3, 1).unwrap();
    channel.close();
    assert!(!channel.is_open());
    assert_eq!(set_task_status(&mut channel, "Stacking", 3, 2), Err(ChannelClosed));
    assert_eq!(set_task_completed(&mut channel), Err(ChannelClosed));
    assert_eq!(channel.send(working("Stacking", 3, 3)), Err(ChannelClosed));
    assert_eq!(channel.pending_len(), 1);
    assert_eq!(channel.poll(), Some(working("Stacking", 3, 1)));
    assert_eq!(channel.poll(), None);
}

#[test]
fn the_monitor_shows_a_ratio_only_for_a_known_length() {
    assert_eq!(TaskStatusContainer::idle().indicator(), Indicator::Ready);
    assert_eq!(working("Saving", 0, 0).indicator(), Indicator::Indeterminate);
    assert_eq!(working("Merging Stack Buffers", 0, 3).indicator(), Indicator::Indeterminate);
    assert_eq!(
        working("Stacking", 8, 2).indicator(),
        Indicator::Ratio { completed: 2, total: 8 }
    );
    assert_eq!(working("Done", 1, 1).indicator(), Indicator::Ratio { completed: 1, total: 1 });
}
