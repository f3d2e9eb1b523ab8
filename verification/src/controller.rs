//! The actuator controller: the one place where request handlers and the
//! background task meet.
//!
//! Handlers call [`ActuatorController::submit`] and
//! [`ActuatorController::status`]; the task calls
//! [`ActuatorController::service`] between two actions. The controller is
//! meant to sit behind one lock that each of these calls holds for its own
//! duration only, so none of them ever waits for an animation step.

use vstd::prelude::*;
use crate::animator::{
    state_fits, transition, AnimatorAction, AnimatorEvent, AnimatorState, FadeAnimator, FadeConfig,
};
use crate::channel::CommandChannel;
use crate::command::ActuatorCommand;
use crate::error::ChannelClosed;
use crate::fade::FadeDirection;

verus! {

/// What the controller knows of the background task.
#[derive(Clone, Copy, Debug, PartialEq, Eq, Structural)]
pub enum TaskStatus {
    /// No task was ever asked for.
    NotSpawned,
    /// A task was asked for and has not given up.
    Alive,
    /// The task has exited for good.
    Exited,
}

/// The actuator as the outside sees it.
#[derive(Clone, Copy, Debug, PartialEq, Eq, Structural)]
pub enum ActuatorState {
    /// Dark.
    Stopped,
    /// Fading, at the moment in the given direction.
    Running(FadeDirection),
}

/// The answer to an accepted command.
#[derive(Clone, Copy, Debug, PartialEq, Eq, Structural)]
pub struct Ack {
    /// The command that was accepted.
    pub command: ActuatorCommand,
    /// Whether the caller must now start the background task. This is set
    /// for one command at most in a controller's life.
    pub spawn_task: bool,
}

/// What a controller is, to its callers.
pub struct ControllerModel {
    /// Commands accepted and not yet taken by the task, oldest first.
    pub pending: Seq<ActuatorCommand>,
    /// The life of the background task.
    pub task: TaskStatus,
    /// The state last reported by the task.
    pub state: ActuatorState,
}

/// How an animator's state shows to the outside. During the pause between
/// two cycles the animator has already turned around, so it counts as
/// running upwards.
pub open spec fn status_of(state: AnimatorState) -> ActuatorState {
    match state {
        AnimatorState::Idle => ActuatorState::Stopped,
        AnimatorState::Halted => ActuatorState::Stopped,
        AnimatorState::Fading { direction, step } => ActuatorState::Running(direction),
        AnimatorState::Resting { remaining_ms } => ActuatorState::Running(FadeDirection::Ascending),
    }
}

/// What submitting `command` does to a controller, and what it answers.
///
/// * Once the task has exited every command is refused and nothing changes.
/// * Before any task exists, `TurnOn` asks for the task and waits for it in
///   the channel; `TurnOff` is acknowledged and changes nothing, since the
///   actuator is dark already.
/// * While the task is alive the command joins the channel.
pub open spec fn submit_outcome(before: ControllerModel, command: ActuatorCommand) -> (
    ControllerModel,
    Result<Ack, ChannelClosed>,
) {
    match before.task {
        TaskStatus::Exited => (before, Err(ChannelClosed)),
        TaskStatus::Alive => (
            ControllerModel { pending: before.pending.push(command), ..before },
            Ok(Ack { command, spawn_task: false }),
        ),
        TaskStatus::NotSpawned => match command {
            ActuatorCommand::TurnOn => (
                ControllerModel {
                    pending: before.pending.push(command),
                    task: TaskStatus::Alive,
                    state: before.state,
                },
                Ok(Ack { command, spawn_task: true }),
            ),
            ActuatorCommand::TurnOff => (before, Ok(Ack { command, spawn_task: false })),
        },
    }
}

/// The event the task finds when it comes back from an action.
///
/// A failed write, or a controller that has already written the task off,
/// is a fault. Otherwise it is the oldest waiting command, or quiet.
pub open spec fn next_event(before: ControllerModel, write_failed: bool) -> AnimatorEvent {
    if write_failed || before.task == TaskStatus::Exited {
        AnimatorEvent::DriverFault
    } else if before.pending.len() > 0 {
        AnimatorEvent::Command(before.pending[0])
    } else {
        AnimatorEvent::Quiet
    }
}

/// A controller whose task is gone: nothing waits, nothing will be taken,
/// and the actuator shows as stopped.
pub open spec fn written_off() -> ControllerModel {
    ControllerModel { pending: Seq::empty(), task: TaskStatus::Exited, state: ActuatorState::Stopped }
}

/// The controller after the task has serviced it and the animator has moved
/// to `reached`.
///
/// A halted animator closes the channel for good. Otherwise the event's
/// command, if there was one, has left the channel, the task counts as
/// alive, and the state shown outside is that of the animator.
pub open spec fn after_service(
    before: ControllerModel,
    write_failed: bool,
    reached: AnimatorState,
) -> ControllerModel {
    if reached is Halted {
        written_off()
    } else {
        ControllerModel {
            pending: if next_event(before, write_failed) is Command {
                before.pending.drop_first()
            } else {
                before.pending
            },
            task: TaskStatus::Alive,
            state: status_of(reached),
        }
    }
}

/// Where controller and animator stand once the task has served, turn by
/// turn and with no failed write, every command that was waiting.
pub open spec fn after_backlog(
    config: FadeConfig,
    before: ControllerModel,
    state: AnimatorState,
) -> (ControllerModel, AnimatorState)
    decreases before.pending.len(),
{
    if before.pending.len() == 0 || before.task == TaskStatus::Exited {
        (before, state)
    } else {
        let reached = transition(config, state, next_event(before, false)).0;
        after_backlog(config, after_service(before, false, reached), reached)
    }
}

/// The controller of one actuator.
pub struct ActuatorController {
    channel: CommandChannel,
    spawned: bool,
    state: ActuatorState,
}

impl View for ActuatorController {
    type V = ControllerModel;

    closed spec fn view(&self) -> ControllerModel {
        ControllerModel {
            pending: self.channel@.pending,
            task: if self.channel@.closed {
                TaskStatus::Exited
            } else if self.spawned {
                TaskStatus::Alive
            } else {
                TaskStatus::NotSpawned
            },
            state: self.state,
        }
    }
}

impl ActuatorController {
    /// A controller with no task, no commands and a dark actuator.
    pub fn new() -> (controller: ActuatorController)
        ensures
            controller@ == (ControllerModel {
                pending: Seq::empty(),
                task: TaskStatus::NotSpawned,
                state: ActuatorState::Stopped,
            }),
    {
        ActuatorController {
            channel: CommandChannel::new(),
            spawned: false,
            state: ActuatorState::Stopped,
        }
    }

    /// Accepts a command for the actuator, or refuses it because the task is
    /// gone, as [`submit_outcome`] says. Does not wait for the animation.
    pub fn submit(&mut self, command: ActuatorCommand) -> (answer: Result<Ack, ChannelClosed>)
        ensures
            (final(self)@, answer) == submit_outcome(old(self)@, command),
    {
        if self.channel.is_closed() {
            return Err(ChannelClosed);
        }
        if self.spawned {
            let _ = self.channel.send(command);
            Ok(Ack { command, spawn_task: false })
        } else {
            match command {
                ActuatorCommand::TurnOn => {
                    self.spawned = true;
                    let _ = self.channel.send(command);
                    Ok(Ack { command, spawn_task: true })
                },
                ActuatorCommand::TurnOff => Ok(Ack { command, spawn_task: false }),
            }
        }
    }

    /// The state the task reported last. It may lag behind the animator by
    /// one step.
    pub fn status(&self) -> (state: ActuatorState)
        ensures
            state == self@.state,
    {
        self.state
    }

    /// What the controller knows of the task.
    pub fn task(&self) -> (task: TaskStatus)
        ensures
            task == self@.task,
    {
        if self.channel.is_closed() {
            TaskStatus::Exited
        } else if self.spawned {
            TaskStatus::Alive
        } else {
            TaskStatus::NotSpawned
        }
    }

    /// How many accepted commands the task has not taken yet.
    pub fn backlog(&self) -> (count: usize)
        ensures
            count == self@.pending.len(),
    {
        self.channel.len()
    }

    /// Records that the task has exited for good, whether or not it ever
    /// got to drive the actuator. Whatever was waiting is dropped, and every
    /// later command is refused.
    pub fn task_exited(&mut self)
        ensures
            final(self)@ == written_off(),
    {
        self.channel.close();
        self.state = ActuatorState::Stopped;
    }

    /// The task's turn between two actions.
    ///
    /// `write_failed` says whether the driver refused the duty of the last
    /// action. The controller picks the event as [`next_event`] says, lets
    /// the animator take its step, records the outcome as [`after_service`]
    /// says and hands the animator's action to the task.
    pub fn service(
        &mut self,
        animator: &mut FadeAnimator,
        write_failed: bool,
    ) -> (action: AnimatorAction)
        ensures
            final(animator)@.config == old(animator)@.config,
            (final(animator)@.state, action) == transition(
                old(animator)@.config,
                old(animator)@.state,
                next_event(old(self)@, write_failed),
            ),
            final(self)@ == after_service(old(self)@, write_failed, final(animator)@.state),
            old(animator)@.config.valid(),
            state_fits(old(animator)@.config, old(animator)@.state),
    {
        let event: AnimatorEvent = if write_failed || self.channel.is_closed() {
            AnimatorEvent::DriverFault
        } else {
            match self.channel.try_recv() {
                Some(command) => AnimatorEvent::Command(command),
                None => AnimatorEvent::Quiet,
            }
        };
        let action: AnimatorAction = animator.step(event);
        match animator.state() {
            AnimatorState::Halted => {
                self.task_exited();
            },
            AnimatorState::Idle => {
                self.spawned = true;
                self.state = ActuatorState::Stopped;
            },
            AnimatorState::Fading { direction, step } => {
                self.spawned = true;
                self.state = ActuatorState::Running(direction);
            },
            AnimatorState::Resting { remaining_ms } => {
                self.spawned = true;
                self.state = ActuatorState::Running(FadeDirection::Ascending);
            },
        }
        action
    }
}

/// Enabling twice is enabling once: while the task is alive, `TurnOn` asks
/// for no second task, leaves the task alive and leaves the shown state as
/// it was. All it does is wait in the channel.
pub proof fn lemma_turn_on_is_idempotent(before: ControllerModel)
    requires
        before.task == TaskStatus::Alive,
    ensures
        submit_outcome(before, ActuatorCommand::TurnOn) == (
            ControllerModel { pending: before.pending.push(ActuatorCommand::TurnOn), ..before },
            Ok::<Ack, ChannelClosed>(
                Ack { command: ActuatorCommand::TurnOn, spawn_task: false },
            ),
        ),
{
}

/// A task is asked for at most once: only the first `TurnOn` of a
/// controller without a task asks for one, and from then on the controller
/// never counts as without a task again, whatever is submitted or serviced.
pub proof fn lemma_single_spawn(
    before: ControllerModel,
    command: ActuatorCommand,
    write_failed: bool,
    reached: AnimatorState,
)
    ensures
        (submit_outcome(before, command).1 matches Ok(ack) && ack.spawn_task) <==> (before.task
            == TaskStatus::NotSpawned && command == ActuatorCommand::TurnOn),
        (submit_outcome(before, command).1 matches Ok(ack) && ack.spawn_task) ==> submit_outcome(
            before,
            command,
        ).0.task == TaskStatus::Alive,
        before.task != TaskStatus::NotSpawned ==> submit_outcome(before, command).0.task
            == before.task,
        after_service(before, write_failed, reached).task != TaskStatus::NotSpawned,
{
}

/// A command is refused exactly when the task has exited, and then for
/// good: nothing that is submitted changes the controller any more.
pub proof fn lemma_closed_is_final(before: ControllerModel, command: ActuatorCommand)
    ensures
        submit_outcome(before, command).1 is Err <==> before.task == TaskStatus::Exited,
        before.task == TaskStatus::Exited ==> submit_outcome(before, command) == (
            before,
            Err::<Ack, ChannelClosed>(ChannelClosed),
        ),
{
}

/// A failed duty write ends the task whatever the animator was doing: the
/// animator halts, the action is `Halt`, the channel is closed and empty,
/// the actuator shows as stopped, and every later command is refused.
pub proof fn lemma_fault_closes_the_channel(
    before: ControllerModel,
    config: FadeConfig,
    state: AnimatorState,
    command: ActuatorCommand,
)
    ensures
        transition(config, state, next_event(before, true)) == (
            AnimatorState::Halted,
            AnimatorAction::Halt,
        ),
        after_service(before, true, AnimatorState::Halted) == written_off(),
        submit_outcome(written_off(), command) == (
            written_off(),
            Err::<Ack, ChannelClosed>(ChannelClosed),
        ),
{
}

/// `TurnOff` at the head of the channel stops a running actuator at the
/// task's next turn: the animator drives duty 0 and is idle, the command has
/// left the channel, and the actuator shows as stopped.
pub proof fn lemma_turn_off_is_served(
    before: ControllerModel,
    config: FadeConfig,
    state: AnimatorState,
)
    requires
        before.task != TaskStatus::Exited,
        before.pending.len() > 0,
        before.pending[0] == ActuatorCommand::TurnOff,
        state is Fading || state is Resting,
    ensures
        transition(config, state, next_event(before, false)) == (
            AnimatorState::Idle,
            AnimatorAction::Drive { duty: 0, hold_ms: 0 },
        ),
        after_service(before, false, AnimatorState::Idle) == (ControllerModel {
            pending: before.pending.drop_first(),
            task: TaskStatus::Alive,
            state: ActuatorState::Stopped,
        }),
{
}

/// However many commands were submitted before it and wherever the
/// animator stands, once the task has served a backlog that ends in
/// `TurnOff` the animator is idle, the channel is empty and the actuator
/// shows as stopped. Each of these turns costs no time, as
/// [`crate::animator::lemma_poll_within_step_period`] says, so a `TurnOff`
/// takes effect within one step period of being submitted.
pub proof fn lemma_turn_off_wins(config: FadeConfig, before: ControllerModel, state: AnimatorState)
    requires
        before.task != TaskStatus::Exited,
        !(state is Halted),
        before.pending.len() > 0,
        before.pending.last() == ActuatorCommand::TurnOff,
    ensures
        after_backlog(config, before, state) == (
            ControllerModel {
                pending: Seq::empty(),
                task: TaskStatus::Alive,
                state: ActuatorState::Stopped,
            },
            AnimatorState::Idle,
        ),
    decreases before.pending.len(),
{
    let reached = transition(config, state, next_event(before, false)).0;
    let served = after_service(before, false, reached);
    if before.pending.len() == 1 {
        assert(served.pending =~= Seq::<ActuatorCommand>::empty());
        assert(after_backlog(config, served, reached) == (served, reached));
    } else {
        assert(served.pending.last() == before.pending.last());
        lemma_turn_off_wins(config, served, reached);
    }
}

/// `TurnOn` at the head of the channel changes nothing for an actuator that
/// is already running: the animator stays where it is and drives nothing,
/// and the shown state is the one it had.
pub proof fn lemma_turn_on_is_served_as_no_op(
    before: ControllerModel,
    config: FadeConfig,
    state: AnimatorState,
)
    requires
        before.task != TaskStatus::Exited,
        before.pending.len() > 0,
        before.pending[0] == ActuatorCommand::TurnOn,
        state is Fading || state is Resting,
    ensures
        transition(config, state, next_event(before, false)) == (state, AnimatorAction::Continue),
        after_service(before, false, state).state == status_of(state),
        after_service(before, false, state).task == TaskStatus::Alive,
{
}

} // verus!
