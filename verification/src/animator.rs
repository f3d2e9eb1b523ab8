//! The fade animator: the state machine that the background task runs.
//!
//! The task owns the actuator. It hands each event to [`FadeAnimator::step`]
//! and carries out the action that comes back; the animator itself touches no
//! hardware and never sleeps.

use vstd::prelude::*;
use crate::command::ActuatorCommand;
use crate::fade::{
    duty_at, duty_level, half_cycle, step_period_for, FadeDirection, DEFAULT_PAUSE_MS,
    DEFAULT_STEP_COUNT, DEFAULT_STEP_PERIOD_MS,
};

verus! {

/// The shape of a fade: how bright, how many steps, how fast, how long dark.
#[derive(Clone, Copy, Debug, PartialEq, Eq, Structural)]
pub struct FadeConfig {
    /// The duty that stands for full brightness.
    pub max_duty: u32,
    /// A half-cycle drives `step_count + 1` duties.
    pub step_count: u32,
    /// Milliseconds each duty is held before the next poll.
    pub step_period_ms: u32,
    /// Milliseconds of darkness after a descending half-cycle.
    pub pause_ms: u32,
}

impl FadeConfig {
    /// A fade needs at least one step beyond the first and a step period
    /// that lets time pass.
    pub open spec fn valid(self) -> bool {
        self.step_count > 0 && self.step_period_ms > 0
    }

    /// Tells whether an animator can run this fade.
    pub fn is_valid(&self) -> (ok: bool)
        ensures
            ok == self.valid(),
    {
        self.step_count > 0 && self.step_period_ms > 0
    }

    /// A fade whose half-cycle of `step_count + 1` steps takes about
    /// `half_cycle_ms` milliseconds: each step is held for the whole
    /// milliseconds of `half_cycle_ms / step_count`.
    ///
    /// There is no such fade, and the answer is `None`, exactly when
    /// `step_count` is 0 or the half-cycle is too short to give each step a
    /// millisecond.
    pub fn spanning(
        max_duty: u32,
        step_count: u32,
        half_cycle_ms: u32,
        pause_ms: u32,
    ) -> (made: Option<FadeConfig>)
        ensures
            made is Some <==> 0 < step_count <= half_cycle_ms,
            made matches Some(config) ==> config.valid() && config == (FadeConfig {
                max_duty,
                step_count,
                step_period_ms: (half_cycle_ms as int / step_count as int) as u32,
                pause_ms,
            }),
    {
        if step_count == 0 || half_cycle_ms < step_count {
            return None;
        }
        let step_period_ms: u32 = step_period_for(half_cycle_ms, step_count);
        assert(step_period_ms > 0) by (nonlinear_arith)
            requires
                0 < step_count <= half_cycle_ms,
                step_period_ms == half_cycle_ms as int / step_count as int,
        ;
        Some(FadeConfig { max_duty, step_count, step_period_ms, pause_ms })
    }

    /// The usual fade for an actuator whose full brightness is `max_duty`.
    pub fn with_defaults(max_duty: u32) -> (config: FadeConfig)
        ensures
            config == (FadeConfig {
                max_duty,
                step_count: DEFAULT_STEP_COUNT,
                step_period_ms: DEFAULT_STEP_PERIOD_MS,
                pause_ms: DEFAULT_PAUSE_MS,
            }),
            config.valid(),
    {
        FadeConfig {
            max_duty,
            step_count: DEFAULT_STEP_COUNT,
            step_period_ms: DEFAULT_STEP_PERIOD_MS,
            pause_ms: DEFAULT_PAUSE_MS,
        }
    }
}

/// Where the animator stands between two events.
#[derive(Clone, Copy, Debug, PartialEq, Eq, Structural)]
pub enum AnimatorState {
    /// Dark, waiting for a command.
    Idle,
    /// Within a half-cycle; `step` is the next step to drive.
    Fading { direction: FadeDirection, step: u32 },
    /// Dark between two cycles, with `remaining_ms` of the pause still to go.
    Resting { remaining_ms: u32 },
    /// A duty write failed; the task is over.
    Halted,
}

/// What the task reports to the animator.
#[derive(Clone, Copy, Debug, PartialEq, Eq, Structural)]
pub enum AnimatorEvent {
    /// The last action is done and no command is waiting.
    Quiet,
    /// The last action is done and this command was next in line.
    Command(ActuatorCommand),
    /// The driver refused the last duty write.
    DriverFault,
}

/// What the animator asks the task to do next.
#[derive(Clone, Copy, Debug, PartialEq, Eq, Structural)]
pub enum AnimatorAction {
    /// Block until a command arrives.
    Wait,
    /// Nothing to drive: poll for the next command at once.
    Continue,
    /// Write `duty`, hold it for `hold_ms`, then poll.
    Drive { duty: u32, hold_ms: u32 },
    /// Leave the duty alone for `hold_ms`, then poll.
    Rest { hold_ms: u32 },
    /// Stop for good.
    Halt,
}

/// Whether `state` is one that a fade of this shape can be in.
pub open spec fn state_fits(config: FadeConfig, state: AnimatorState) -> bool {
    match state {
        AnimatorState::Fading { direction, step } => step <= config.step_count,
        AnimatorState::Resting { remaining_ms } => 0 < remaining_ms <= config.pause_ms,
        _ => true,
    }
}

/// Where the animator stands once step `step` of a half-cycle is driven.
///
/// Within a half-cycle the next step follows. After the last ascending step
/// the descending half-cycle begins; after the last descending step the pause
/// begins, or the next cycle at once if there is no pause.
pub open spec fn after_step(config: FadeConfig, direction: FadeDirection, step: u32) -> AnimatorState {
    if step < config.step_count {
        AnimatorState::Fading { direction, step: (step + 1) as u32 }
    } else if direction == FadeDirection::Ascending {
        AnimatorState::Fading { direction: FadeDirection::Descending, step: 0 }
    } else if config.pause_ms > 0 {
        AnimatorState::Resting { remaining_ms: config.pause_ms }
    } else {
        AnimatorState::Fading { direction: FadeDirection::Ascending, step: 0 }
    }
}

/// The part of the pause slept in one go: a step period, or what is left.
pub open spec fn rest_chunk(config: FadeConfig, remaining_ms: u32) -> u32 {
    if remaining_ms <= config.step_period_ms {
        remaining_ms
    } else {
        config.step_period_ms
    }
}

/// Where the animator stands once a chunk of the pause is slept.
pub open spec fn after_rest(config: FadeConfig, remaining_ms: u32) -> AnimatorState {
    if remaining_ms <= config.step_period_ms {
        AnimatorState::Fading { direction: FadeDirection::Ascending, step: 0 }
    } else {
        AnimatorState::Resting { remaining_ms: (remaining_ms - config.step_period_ms) as u32 }
    }
}

/// The animator's whole behaviour: the state it moves to and the action it
/// asks for, given the state it is in and the event that arrived.
///
/// * Once halted it stays halted, and a driver fault halts it from anywhere.
/// * Idle, it waits; `TurnOn` starts an ascending half-cycle at step 0.
/// * Fading or resting, `TurnOn` changes nothing and `TurnOff` drives duty 0
///   and returns to idle.
/// * A command never costs time: the next poll follows at once.
/// * With no command waiting, a fading animator drives the next duty and
///   holds it for one step period; a resting one sleeps at most that long.
pub open spec fn transition(config: FadeConfig, state: AnimatorState, event: AnimatorEvent) -> (
    AnimatorState,
    AnimatorAction,
) {
    match state {
        AnimatorState::Halted => (AnimatorState::Halted, AnimatorAction::Halt),
        AnimatorState::Idle => match event {
            AnimatorEvent::DriverFault => (AnimatorState::Halted, AnimatorAction::Halt),
            AnimatorEvent::Quiet => (AnimatorState::Idle, AnimatorAction::Wait),
            AnimatorEvent::Command(ActuatorCommand::TurnOn) => (
                AnimatorState::Fading { direction: FadeDirection::Ascending, step: 0 },
                AnimatorAction::Continue,
            ),
            AnimatorEvent::Command(ActuatorCommand::TurnOff) => (
                AnimatorState::Idle,
                AnimatorAction::Continue,
            ),
        },
        AnimatorState::Fading { direction, step } => match event {
            AnimatorEvent::DriverFault => (AnimatorState::Halted, AnimatorAction::Halt),
            AnimatorEvent::Quiet => (
                after_step(config, direction, step),
                AnimatorAction::Drive {
                    duty: duty_level(
                        config.max_duty as int,
                        config.step_count as int,
                        step as int,
                        direction,
                    ) as u32,
                    hold_ms: config.step_period_ms,
                },
            ),
            AnimatorEvent::Command(ActuatorCommand::TurnOn) => (state, AnimatorAction::Continue),
            AnimatorEvent::Command(ActuatorCommand::TurnOff) => (
                AnimatorState::Idle,
                AnimatorAction::Drive { duty: 0, hold_ms: 0 },
            ),
        },
        AnimatorState::Resting { remaining_ms } => match event {
            AnimatorEvent::DriverFault => (AnimatorState::Halted, AnimatorAction::Halt),
            AnimatorEvent::Quiet => (
                after_rest(config, remaining_ms),
                AnimatorAction::Rest { hold_ms: rest_chunk(config, remaining_ms) },
            ),
            AnimatorEvent::Command(ActuatorCommand::TurnOn) => (state, AnimatorAction::Continue),
            AnimatorEvent::Command(ActuatorCommand::TurnOff) => (
                AnimatorState::Idle,
                AnimatorAction::Drive { duty: 0, hold_ms: 0 },
            ),
        },
    }
}

/// The time an action keeps the task away from its next poll. Waiting
/// counts as none: a waiting task wakes the moment a command arrives.
pub open spec fn hold_of(action: AnimatorAction) -> int {
    match action {
        AnimatorAction::Drive { duty, hold_ms } => hold_ms as int,
        AnimatorAction::Rest { hold_ms } => hold_ms as int,
        _ => 0,
    }
}

/// The state after a backlog of commands is taken in, oldest first.
pub open spec fn absorb(
    config: FadeConfig,
    state: AnimatorState,
    commands: Seq<ActuatorCommand>,
) -> AnimatorState
    decreases commands.len(),
{
    if commands.len() == 0 {
        state
    } else {
        absorb(
            config,
            transition(config, state, AnimatorEvent::Command(commands[0])).0,
            commands.drop_first(),
        )
    }
}

/// The state after `count` polls in a row that found no command.
pub open spec fn quiet_run(config: FadeConfig, state: AnimatorState, count: nat) -> AnimatorState
    decreases count,
{
    if count == 0 {
        state
    } else {
        transition(config, quiet_run(config, state, (count - 1) as nat), AnimatorEvent::Quiet).0
    }
}

/// Every state the animator moves to fits its fade.
pub proof fn lemma_transition_fits(config: FadeConfig, state: AnimatorState, event: AnimatorEvent)
    requires
        config.valid(),
        state_fits(config, state),
    ensures
        state_fits(config, transition(config, state, event).0),
{
}

/// `TurnOff` takes effect at the poll that finds it: from anywhere in a
/// cycle the animator drives duty 0, without holding it, and is idle.
pub proof fn lemma_turn_off_goes_dark(config: FadeConfig, state: AnimatorState)
    requires
        state is Fading || state is Resting,
    ensures
        transition(config, state, AnimatorEvent::Command(ActuatorCommand::TurnOff)) == (
            AnimatorState::Idle,
            AnimatorAction::Drive { duty: 0, hold_ms: 0 },
        ),
{
}

/// No action keeps the task from polling for longer than one step period,
/// and taking in a command costs no time at all. A command sent at any
/// moment is therefore found within one step period.
pub proof fn lemma_poll_within_step_period(
    config: FadeConfig,
    state: AnimatorState,
    event: AnimatorEvent,
)
    requires
        config.valid(),
        state_fits(config, state),
    ensures
        0 <= hold_of(transition(config, state, event).1) <= config.step_period_ms,
        event is Command ==> hold_of(transition(config, state, event).1) == 0,
{
}

/// Whatever commands are waiting and wherever the animator stands, once a
/// backlog that ends in `TurnOff` is taken in, the animator is idle.
pub proof fn lemma_backlog_ending_in_turn_off(
    config: FadeConfig,
    state: AnimatorState,
    commands: Seq<ActuatorCommand>,
)
    requires
        !(state is Halted),
        commands.len() > 0,
        commands.last() == ActuatorCommand::TurnOff,
    ensures
        absorb(config, state, commands) == AnimatorState::Idle,
    decreases commands.len(),
{
    let next = transition(config, state, AnimatorEvent::Command(commands[0])).0;
    if commands.len() == 1 {
        assert(commands.drop_first().len() == 0);
        assert(absorb(config, next, commands.drop_first()) == next);
    } else {
        let rest = commands.drop_first();
        assert(rest.last() == commands.last());
        lemma_backlog_ending_in_turn_off(config, next, rest);
    }
}

/// `TurnOn` is idempotent: an animator that is already running a cycle
/// stays exactly where it is and drives nothing.
pub proof fn lemma_turn_on_while_running(config: FadeConfig, state: AnimatorState)
    requires
        state is Fading || state is Resting,
    ensures
        transition(config, state, AnimatorEvent::Command(ActuatorCommand::TurnOn)) == (
            state,
            AnimatorAction::Continue,
        ),
{
}

/// An enabled animator always starts over: `TurnOn` takes an idle animator
/// to step 0 of an ascending half-cycle, whose duty is 0.
pub proof fn lemma_turn_on_restarts(config: FadeConfig)
    requires
        config.valid(),
    ensures
        transition(
            config,
            AnimatorState::Idle,
            AnimatorEvent::Command(ActuatorCommand::TurnOn),
        ).0 == (AnimatorState::Fading { direction: FadeDirection::Ascending, step: 0 }),
        transition(
            config,
            AnimatorState::Fading { direction: FadeDirection::Ascending, step: 0 },
            AnimatorEvent::Quiet,
        ).1 == (AnimatorAction::Drive { duty: 0, hold_ms: config.step_period_ms }),
{
    assert(config.max_duty as int * 0 == 0);
    assert(0int / (config.step_count as int) == 0);
}

/// A driver fault ends the task from any state, and a halted animator
/// answers every later event with `Halt`.
pub proof fn lemma_fault_is_final(config: FadeConfig, state: AnimatorState, event: AnimatorEvent)
    ensures
        transition(config, state, AnimatorEvent::DriverFault) == (
            AnimatorState::Halted,
            AnimatorAction::Halt,
        ),
        transition(config, AnimatorState::Halted, event) == (
            AnimatorState::Halted,
            AnimatorAction::Halt,
        ),
{
}

/// Left alone, the animator walks a half-cycle step by step: after `index`
/// quiet polls it stands at step `index`, and the next quiet poll drives the
/// duty that [`half_cycle`] has at that place and holds it for one step
/// period.
pub proof fn lemma_quiet_polls_walk_half_cycle(
    config: FadeConfig,
    direction: FadeDirection,
    index: nat,
)
    requires
        config.valid(),
        index <= config.step_count,
    ensures
        quiet_run(config, AnimatorState::Fading { direction, step: 0 }, index) == (
            AnimatorState::Fading { direction, step: index as u32 }
        ),
        transition(
            config,
            AnimatorState::Fading { direction, step: index as u32 },
            AnimatorEvent::Quiet,
        ).1 matches AnimatorAction::Drive { duty, hold_ms } && duty as int == half_cycle(
            config.max_duty as int,
            config.step_count as int,
            direction,
        )[index as int] && hold_ms == config.step_period_ms,
    decreases index,
{
    crate::fade::lemma_half_cycle_is_monotone(
        config.max_duty as int,
        config.step_count as int,
        direction,
    );
    if index > 0 {
        lemma_quiet_polls_walk_half_cycle(config, direction, (index - 1) as nat);
    }
}

/// A whole half-cycle takes `step_count + 1` quiet polls; then the animator
/// has turned around, or gone to rest after descending.
pub proof fn lemma_half_cycle_ends(config: FadeConfig, direction: FadeDirection)
    requires
        config.valid(),
    ensures
        quiet_run(
            config,
            AnimatorState::Fading { direction, step: 0 },
            (config.step_count + 1) as nat,
        ) == after_step(config, direction, config.step_count),
{
    lemma_quiet_polls_walk_half_cycle(config, direction, config.step_count as nat);
}

/// What an animator is, to its callers: a fade and a place in it.
pub struct AnimatorModel {
    pub config: FadeConfig,
    pub state: AnimatorState,
}

/// The animator of one actuator.
///
/// It always holds a valid fade and a state that fits it.
pub struct FadeAnimator {
    config: FadeConfig,
    state: AnimatorState,
}

impl View for FadeAnimator {
    type V = AnimatorModel;

    closed spec fn view(&self) -> AnimatorModel {
        AnimatorModel { config: self.config, state: self.state }
    }
}

impl FadeAnimator {
    #[verifier::type_invariant]
    spec fn well_formed(self) -> bool {
        self.config.valid() && state_fits(self.config, self.state)
    }

    /// An idle animator for the given fade, or `None` if the fade is not
    /// valid.
    pub fn new(config: FadeConfig) -> (made: Option<FadeAnimator>)
        ensures
            made is Some <==> config.valid(),
            made matches Some(animator) ==> animator@ == (AnimatorModel {
                config,
                state: AnimatorState::Idle,
            }),
    {
        if config.is_valid() {
            Some(FadeAnimator { config, state: AnimatorState::Idle })
        } else {
            None
        }
    }

    /// The fade this animator runs.
    pub fn config(&self) -> (config: FadeConfig)
        ensures
            config == self@.config,
            config.valid(),
    {
        proof {
            use_type_invariant(self);
        }
        self.config
    }

    /// Where the animator stands.
    pub fn state(&self) -> (state: AnimatorState)
        ensures
            state == self@.state,
            state_fits(self@.config, state),
    {
        proof {
            use_type_invariant(self);
        }
        self.state
    }

    /// Takes one event and answers with the next action, moving to the next
    /// state as [`transition`] says.
    pub fn step(&mut self, event: AnimatorEvent) -> (action: AnimatorAction)
        ensures
            final(self)@.config == old(self)@.config,
            (final(self)@.state, action) == transition(old(self)@.config, old(self)@.state, event),
            old(self)@.config.valid(),
            state_fits(old(self)@.config, old(self)@.state),
            state_fits(final(self)@.config, final(self)@.state),
    {
        proof {
            use_type_invariant(&*self);
        }
        let config: FadeConfig = self.config;
        match self.state {
            AnimatorState::Halted => AnimatorAction::Halt,
            AnimatorState::Idle => match event {
                AnimatorEvent::DriverFault => {
                    self.state = AnimatorState::Halted;
                    AnimatorAction::Halt
                },
                AnimatorEvent::Quiet => AnimatorAction::Wait,
                AnimatorEvent::Command(ActuatorCommand::TurnOn) => {
                    self.state = AnimatorState::Fading {
                        direction: FadeDirection::Ascending,
                        step: 0,
                    };
                    AnimatorAction::Continue
                },
                AnimatorEvent::Command(ActuatorCommand::TurnOff) => AnimatorAction::Continue,
            },
            AnimatorState::Fading { direction, step } => match event {
                AnimatorEvent::DriverFault => {
                    self.state = AnimatorState::Halted;
                    AnimatorAction::Halt
                },
                AnimatorEvent::Quiet => {
                    let duty: u32 = duty_at(config.max_duty, config.step_count, step, direction);
                    self.state = Self::next_after_step(config, direction, step);
                    AnimatorAction::Drive { duty, hold_ms: config.step_period_ms }
                },
                AnimatorEvent::Command(ActuatorCommand::TurnOn) => AnimatorAction::Continue,
                AnimatorEvent::Command(ActuatorCommand::TurnOff) => {
                    self.state = AnimatorState::Idle;
                    AnimatorAction::Drive { duty: 0, hold_ms: 0 }
                },
            },
            AnimatorState::Resting { remaining_ms } => match event {
                AnimatorEvent::DriverFault => {
                    self.state = AnimatorState::Halted;
                    AnimatorAction::Halt
                },
                AnimatorEvent::Quiet => {
                    if remaining_ms <= config.step_period_ms {
                        self.state = AnimatorState::Fading {
                            direction: FadeDirection::Ascending,
                            step: 0,
                        };
                        AnimatorAction::Rest { hold_ms: remaining_ms }
                    } else {
                        self.state = AnimatorState::Resting {
                            remaining_ms: remaining_ms - config.step_period_ms,
                        };
                        AnimatorAction::Rest { hold_ms: config.step_period_ms }
                    }
                },
                AnimatorEvent::Command(ActuatorCommand::TurnOn) => AnimatorAction::Continue,
                AnimatorEvent::Command(ActuatorCommand::TurnOff) => {
                    self.state = AnimatorState::Idle;
                    AnimatorAction::Drive { duty: 0, hold_ms: 0 }
                },
            },
        }
    }

    fn next_after_step(
        config: FadeConfig,
        direction: FadeDirection,
        step: u32,
    ) -> (next: AnimatorState)
        requires
            config.valid(),
            step <= config.step_count,
        ensures
            next == after_step(config, direction, step),
            state_fits(config, next),
    {
        if step < config.step_count {
            AnimatorState::Fading { direction, step: step + 1 }
        } else {
            match direction {
                FadeDirection::Ascending => AnimatorState::Fading {
                    direction: FadeDirection::Descending,
                    step: 0,
                },
                FadeDirection::Descending => if config.pause_ms > 0 {
                    AnimatorState::Resting { remaining_ms: config.pause_ms }
                } else {
                    AnimatorState::Fading { direction: FadeDirection::Ascending, step: 0 }
                },
            }
        }
    }
}

} // verus!
