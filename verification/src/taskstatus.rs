//! Progress messages and the channel that carries them from the pipeline to
//! its monitor.
//!
//! A message either reports work on a stage or says that nothing is running.
//! The channel keeps what was sent, oldest first, until the monitor takes it.

use vstd::prelude::*;

verus! {

/// A report of work in progress.
#[derive(Debug, Clone, PartialEq, Eq)]
pub enum TaskStatus {
    /// The stage's name, the number of its parts, and how many are done. No
    /// parts (0) tells the monitor that the stage's length is unknown.
    TaskPercentage(String, usize, usize),
}

/// One message on the progress channel: work in progress, or idle when
/// `status` is `None`.
#[derive(Debug, Clone, PartialEq, Eq)]
pub struct TaskStatusContainer {
    pub status: Option<TaskStatus>,
}

/// What a message says.
pub enum ProgressMessage {
    /// `completed` of `total` parts of the stage are done.
    Working { stage_name: Seq<char>, total: nat, completed: nat },
    /// No stage is executing.
    Idle,
}

impl ProgressMessage {
    /// A message of a stage of known length never reports more parts done
    /// than the stage has.
    pub open spec fn within_total(self) -> bool {
        match self {
            ProgressMessage::Working { total, completed, .. } => total > 0 ==> completed <= total,
            ProgressMessage::Idle => true,
        }
    }
}

impl View for TaskStatusContainer {
    type V = ProgressMessage;

    open spec fn view(&self) -> ProgressMessage {
        match self.status {
            Some(TaskStatus::TaskPercentage(name, total, completed)) => ProgressMessage::Working {
                stage_name: name@,
                total: total as nat,
                completed: completed as nat,
            },
            None => ProgressMessage::Idle,
        }
    }
}

impl Default for TaskStatusContainer {
    fn default() -> (message: Self)
        ensures
            message@ == ProgressMessage::Idle,
    {
        TaskStatusContainer { status: None }
    }
}

impl TaskStatusContainer {
    /// The message that `progress` of `num_parts` parts of `task_name` are done.
    pub fn working(task_name: &str, num_parts: usize, progress: usize) -> (message: Self)
        ensures
            message@ == (ProgressMessage::Working {
                stage_name: task_name@,
                total: num_parts as nat,
                completed: progress as nat,
            }),
    {
        TaskStatusContainer {
            status: Some(TaskStatus::TaskPercentage(task_name.to_owned(), num_parts, progress)),
        }
    }

    /// The message that nothing is running.
    pub fn idle() -> (message: Self)
        ensures
            message@ == ProgressMessage::Idle,
    {
        TaskStatusContainer { status: None }
    }
}

/// What the monitor shows for a message.
#[derive(Debug, Clone, Copy, PartialEq, Eq, Structural)]
pub enum Indicator {
    /// Nothing is running: the monitor is ready for the next run.
    Ready,
    /// A stage of unknown length is at work: no ratio can be shown.
    Indeterminate,
    /// `completed` of `total` parts are done, and `total` is not 0.
    Ratio { completed: usize, total: usize },
}

impl ProgressMessage {
    /// What the monitor shows for this message: a ratio only where the
    /// stage's length is known.
    pub open spec fn shown(self) -> Indicator {
        match self {
            ProgressMessage::Idle => Indicator::Ready,
            ProgressMessage::Working { total, completed, .. } => if total == 0 {
                Indicator::Indeterminate
            } else {
                Indicator::Ratio { completed: completed as usize, total: total as usize }
            },
        }
    }
}

impl TaskStatusContainer {
    /// What the monitor shows for this message.
    pub fn indicator(&self) -> (indicator: Indicator)
        ensures
            indicator == self@.shown(),
    {
        match &self.status {
            None => Indicator::Ready,
            Some(TaskStatus::TaskPercentage(_, total, completed)) => {
                if *total == 0 {
                    Indicator::Indeterminate
                } else {
                    Indicator::Ratio { completed: *completed, total: *total }
                }
            },
        }
    }
}

/// What a sequence of messages says, message by message.
pub open spec fn messages_of(queue: Seq<TaskStatusContainer>) -> Seq<ProgressMessage> {
    queue.map_values(|message: TaskStatusContainer| message@)
}

/// The monitor is gone: nothing can be delivered any more.
#[derive(Debug, Clone, Copy, PartialEq, Eq, Structural)]
pub struct ChannelClosed;

/// What a progress channel holds.
pub struct ChannelState {
    /// The messages sent and not yet taken, oldest first.
    pub pending: Seq<ProgressMessage>,
    /// Whether the monitor still listens.
    pub open: bool,
}

/// The progress channel: the pipeline sends, the monitor polls.
pub struct ProgressChannel {
    queue: Vec<TaskStatusContainer>,
    open: bool,
}

impl View for ProgressChannel {
    type V = ChannelState;

    closed spec fn view(&self) -> ChannelState {
        ChannelState { pending: messages_of(self.queue@), open: self.open }
    }
}

impl ProgressChannel {
    /// An empty channel with a listening monitor.
    pub fn open() -> (channel: Self)
        ensures
            channel@.pending == Seq::<ProgressMessage>::empty(),
            channel@.open,
    {
        let channel = ProgressChannel { queue: Vec::new(), open: true };
        assert(messages_of(channel.queue@) =~= Seq::<ProgressMessage>::empty());
        channel
    }

    /// Queues `message` behind everything sent before, or fails and changes
    /// nothing when the monitor is gone.
    pub fn send(&mut self, message: TaskStatusContainer) -> (sent: Result<(), ChannelClosed>)
        ensures
            sent is Ok <==> old(self)@.open,
            final(self)@.open == old(self)@.open,
            final(self)@.pending == if old(self)@.open {
                old(self)@.pending.push(message@)
            } else {
                old(self)@.pending
            },
    {
        if self.open {
            let ghost before = self.queue@;
            self.queue.push(message);
            assert(messages_of(self.queue@) =~= messages_of(before).push(message@));
            Ok(())
        } else {
            Err(ChannelClosed)
        }
    }

    /// Takes the oldest message that was sent and not yet taken.
    pub fn poll(&mut self) -> (message: Option<TaskStatusContainer>)
        ensures
            final(self)@.open == old(self)@.open,
            old(self)@.pending.len() == 0 ==> message is None && final(self)@ == old(self)@,
            old(self)@.pending.len() > 0 ==> message is Some && message.unwrap()@ == old(
                self,
            )@.pending[0] && final(self)@.pending == old(self)@.pending.subrange(
                1,
                old(self)@.pending.len() as int,
            ),
    {
        if self.queue.len() == 0 {
            None
        } else {
            let ghost before = self.queue@;
            let message = self.queue.remove(0);
            assert(messages_of(self.queue@) =~= messages_of(before).subrange(
                1,
                before.len() as int,
            ));
            Some(message)
        }
    }

    /// Records that the monitor is gone. What was not yet taken stays queued.
    pub fn close(&mut self)
        ensures
            !final(self)@.open,
            final(self)@.pending == old(self)@.pending,
    {
        self.open = false;
    }

    /// Whether the monitor still listens.
    pub fn is_open(&self) -> (open: bool)
        ensures
            open == self@.open,
    {
        self.open
    }

    /// How many messages wait for the monitor.
    pub fn pending_len(&self) -> (len: usize)
        ensures
            len == self@.pending.len(),
    {
        self.queue.len()
    }
}

/// Sends the message that `progress` of `num_parts` parts of `task_name` are
/// done.
pub fn set_task_status(
    sender: &mut ProgressChannel,
    task_name: &str,
    num_parts: usize,
    progress: usize,
) -> (sent: Result<(), ChannelClosed>)
    ensures
        sent is Ok <==> old(sender)@.open,
        final(sender)@.open == old(sender)@.open,
        final(sender)@.pending == if old(sender)@.open {
            old(sender)@.pending.push(
                ProgressMessage::Working {
                    stage_name: task_name@,
                    total: num_parts as nat,
                    completed: progress as nat,
                },
            )
        } else {
            old(sender)@.pending
        },
{
    sender.send(TaskStatusContainer::working(task_name, num_parts, progress))
}

/// Sends the message that nothing is running any more.
pub fn set_task_completed(sender: &mut ProgressChannel) -> (sent: Result<(), ChannelClosed>)
    ensures
        sent is Ok <==> old(sender)@.open,
        final(sender)@.open == old(sender)@.open,
        final(sender)@.pending == if old(sender)@.open {
            old(sender)@.pending.push(ProgressMessage::Idle)
        } else {
            old(sender)@.pending
        },
{
    sender.send(TaskStatusContainer::idle())
}

} // verus!
