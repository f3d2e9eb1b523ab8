//! The command channel: commands wait here, in the order they were sent,
//! until the background task takes them.

use std::collections::VecDeque;
use vstd::prelude::*;
use crate::command::ActuatorCommand;
use crate::error::ChannelClosed;

verus! {

/// What a channel is, to its callers: the commands sent and not yet taken,
/// oldest first, and whether the receiving side is gone.
pub struct ChannelModel {
    pub pending: Seq<ActuatorCommand>,
    pub closed: bool,
}

/// A first-in, first-out queue of commands without a bound.
///
/// Sending never waits for the receiver. Once closed, a channel holds nothing
/// and takes nothing.
pub struct CommandChannel {
    queue: VecDeque<ActuatorCommand>,
    closed: bool,
}

impl View for CommandChannel {
    type V = ChannelModel;

    closed spec fn view(&self) -> ChannelModel {
        ChannelModel { pending: self.queue@, closed: self.closed }
    }
}

impl CommandChannel {
    /// An open channel with nothing in it.
    pub fn new() -> (channel: CommandChannel)
        ensures
            channel@ == (ChannelModel { pending: Seq::empty(), closed: false }),
    {
        CommandChannel { queue: VecDeque::new(), closed: false }
    }

    /// Puts `command` behind everything already waiting.
    ///
    /// Fails, and changes nothing, exactly when the channel is closed.
    pub fn send(&mut self, command: ActuatorCommand) -> (sent: Result<(), ChannelClosed>)
        ensures
            old(self)@.closed ==> sent == Err::<(), ChannelClosed>(ChannelClosed) && final(self)@
                == old(self)@,
            !old(self)@.closed ==> sent == Ok::<(), ChannelClosed>(()) && final(self)@ == (
                ChannelModel { pending: old(self)@.pending.push(command), closed: false }
            ),
    {
        if self.closed {
            Err(ChannelClosed)
        } else {
            self.queue.push_back(command);
            Ok(())
        }
    }

    /// Takes the oldest waiting command, if there is one. Never waits.
    pub fn try_recv(&mut self) -> (taken: Option<ActuatorCommand>)
        ensures
            final(self)@.closed == old(self)@.closed,
            old(self)@.pending.len() == 0 ==> taken == None::<ActuatorCommand> && final(self)@
                == old(self)@,
            old(self)@.pending.len() > 0 ==> taken == Some(old(self)@.pending[0])
                && final(self)@.pending == old(self)@.pending.drop_first(),
    {
        let taken = self.queue.pop_front();
        proof {
            if old(self)@.pending.len() > 0 {
                assert(self.queue@ =~= old(self).queue@.drop_first());
            }
        }
        taken
    }

    /// Closes the channel for good and drops whatever was still waiting.
    pub fn close(&mut self)
        ensures
            final(self)@ == (ChannelModel { pending: Seq::empty(), closed: true }),
    {
        self.queue.clear();
        self.closed = true;
    }

    /// Whether the channel has been closed.
    pub fn is_closed(&self) -> (closed: bool)
        ensures
            closed == self@.closed,
    {
        self.closed
    }

    /// How many commands are waiting.
    pub fn len(&self) -> (count: usize)
        ensures
            count == self@.pending.len(),
    {
        self.queue.len()
    }
}

/// The channel after `commands` are sent into the channel `before`, one
/// after the other.
pub open spec fn after_sends(before: ChannelModel, commands: Seq<ActuatorCommand>) -> ChannelModel {
    if before.closed {
        before
    } else {
        ChannelModel { pending: before.pending + commands, closed: false }
    }
}

/// Commands leave an open channel in the order they went in: what is sent
/// waits behind everything that was already there, in the order of sending;
/// nothing is lost and nothing is invented.
pub proof fn lemma_channel_is_fifo(
    before: ChannelModel,
    earlier: Seq<ActuatorCommand>,
    later: Seq<ActuatorCommand>,
    command: ActuatorCommand,
)
    requires
        !before.closed,
    ensures
        after_sends(before, seq![command]).pending == before.pending.push(command),
        after_sends(after_sends(before, earlier), later) == after_sends(before, earlier + later),
        after_sends(before, earlier).pending.len() == before.pending.len() + earlier.len(),
        forall|index: int|
            0 <= index < earlier.len() ==> after_sends(before, earlier).pending[before.pending.len()
                + index] == #[trigger] earlier[index],
        forall|index: int|
            0 <= index < before.pending.len() ==> after_sends(before, earlier).pending[index]
                == #[trigger] before.pending[index],
{
    assert(before.pending + seq![command] =~= before.pending.push(command));
    assert((before.pending + earlier) + later =~= before.pending + (earlier + later));
}

} // verus!
