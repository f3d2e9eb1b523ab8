use smartonoff::animator::{AnimatorAction, AnimatorState, FadeAnimator, FadeConfig};
use smartonoff::command::ActuatorCommand;
use smartonoff::controller::{Ack, ActuatorController, ActuatorState, TaskStatus};
use smartonoff::error::ChannelClosed;
use smartonoff::fade::FadeDirection;

fn animator() -> FadeAnimator {
    FadeAnimator::new(FadeConfig { max_duty: 100, step_count: 4, step_period_ms: 20, pause_ms: 40 })
        .expect("a valid fade")
}

#[test]
fn new_controller_has_no_task_and_a_dark_actuator() {
    let controller = ActuatorController::new();
    assert_eq!(controller.status(), ActuatorState::Stopped);
    assert_eq!(controller.task(), TaskStatus::NotSpawned);
    assert_eq!(controller.backlog(), 0);
}

#[test]
fn turn_off_before_any_turn_on_is_acknowledged() {
    let mut controller = ActuatorController::new();
    assert_eq!(
        controller.submit(ActuatorCommand::TurnOff),
        Ok(Ack { command: ActuatorCommand::TurnOff, spawn_task: false })
    );
    assert_eq!(controller.status(), ActuatorState::Stopped);
    assert_eq!(controller.task(), TaskStatus::NotSpawned);
    assert_eq!(controller.backlog(), 0);
}

#[test]
fn first_turn_on_asks_for_the_task() {
    let mut controller = ActuatorController::new();
    assert_eq!(
        controller.submit(ActuatorCommand::TurnOn),
        Ok(Ack { command: ActuatorCommand::TurnOn, spawn_task: true })
    );
    assert_eq!(controller.task(), TaskStatus::Alive);
    assert_eq!(controller.backlog(), 1);
    assert_eq!(controller.status(), ActuatorState::Stopped);
}

#[test]
fn second_turn_on_asks_for_no_second_task() {
    let mut controller = ActuatorController::new();
    let mut animator = animator();
    controller.submit(ActuatorCommand::TurnOn).unwrap();
    assert_eq!(controller.service(&mut animator, false), AnimatorAction::Continue);
    assert_eq!(controller.service(&mut animator, false), AnimatorAction::Drive { duty: 0, hold_ms: 20 });
    let shown = controller.status();
    assert_eq!(shown, ActuatorState::Running(FadeDirection::Ascending));
    assert_eq!(
        controller.submit(ActuatorCommand::TurnOn),
        Ok(Ack { command: ActuatorCommand::TurnOn, spawn_task: false })
    );
    assert_eq!(controller.status(), shown);
    assert_eq!(controller.task(), TaskStatus::Alive);
    let place = animator.state();
    assert_eq!(controller.service(&mut animator, false), AnimatorAction::Continue);
    assert_eq!(animator.state(), place);
    assert_eq!(controller.status(), shown);
}

#[test]
fn only_one_submit_ever_asks_for_the_task() {
    let mut controller = ActuatorController::new();
    let mut animator = animator();
    let mut asked = 0;
    let script = [
        ActuatorCommand::TurnOff,
        ActuatorCommand::TurnOn,
        ActuatorCommand::TurnOn,
        ActuatorCommand::TurnOff,
        ActuatorCommand::TurnOn,
        ActuatorCommand::TurnOff,
    ];
    for command in script {
        if controller.submit(command).unwrap().spawn_task {
            asked += 1;
        }
        if controller.task() == TaskStatus::Alive {
            controller.service(&mut animator, false);
            controller.service(&mut animator, false);
        }
    }
    assert_eq!(asked, 1);
    assert_eq!(controller.task(), TaskStatus::Alive);
}

#[test]
fn commands_are_served_in_the_order_submitted() {
    let mut controller = ActuatorController::new();
    let mut animator = animator();
    controller.submit(ActuatorCommand::TurnOn).unwrap();
    controller.submit(ActuatorCommand::TurnOff).unwrap();
    controller.submit(ActuatorCommand::TurnOn).unwrap();
    assert_eq!(controller.backlog(), 3);
    assert_eq!(controller.service(&mut animator, false), AnimatorAction::Continue);
    assert_eq!(controller.status(), ActuatorState::Running(FadeDirection::Ascending));
    assert_eq!(controller.service(&mut animator, false), AnimatorAction::Drive { duty: 0, hold_ms: 0 });
    assert_eq!(controller.status(), ActuatorState::Stopped);
    assert_eq!(controller.service(&mut animator, false), AnimatorAction::Continue);
    assert_eq!(controller.status(), ActuatorState::Running(FadeDirection::Ascending));
    assert_eq!(controller.backlog(), 0);
    assert_eq!(controller.service(&mut animator, false), AnimatorAction::Drive { duty: 0, hold_ms: 20 });
    assert_eq!(controller.service(&mut animator, false), AnimatorAction::Drive { duty: 25, hold_ms: 20 });
}

#[test]
fn status_follows_the_animator() {
    let mut controller = ActuatorController::new();
    let mut animator = animator();
    controller.submit(ActuatorCommand::TurnOn).unwrap();
    controller.service(&mut animator, false);
    for _ in 0..4 {
        controller.service(&mut animator, false);
        assert_eq!(controller.status(), ActuatorState::Running(FadeDirection::Ascending));
    }
    controller.service(&mut animator, false);
    assert_eq!(controller.status(), ActuatorState::Running(FadeDirection::Descending));
    for _ in 0..4 {
        controller.service(&mut animator, false);
        assert_eq!(controller.status(), ActuatorState::Running(FadeDirection::Descending));
    }
    assert_eq!(controller.service(&mut animator, false), AnimatorAction::Drive { duty: 0, hold_ms: 20 });
    assert_eq!(animator.state(), AnimatorState::Resting { remaining_ms: 40 });
    assert_eq!(controller.status(), ActuatorState::Running(FadeDirection::Ascending));
    assert_eq!(controller.service(&mut animator, false), AnimatorAction::Rest { hold_ms: 20 });
    assert_eq!(controller.service(&mut animator, false), AnimatorAction::Rest { hold_ms: 20 });
    assert_eq!(controller.service(&mut animator, false), AnimatorAction::Drive { duty: 0, hold_ms: 20 });
}

#[test]
fn turn_off_is_served_at_the_next_turn_of_the_task() {
    let mut controller = ActuatorController::new();
    let mut animator = animator();
    controller.submit(ActuatorCommand::TurnOn).unwrap();
    for _ in 0..4 {
        controller.service(&mut animator, false);
    }
    assert_eq!(controller.status(), ActuatorState::Running(FadeDirection::Ascending));
    assert_eq!(
        controller.submit(ActuatorCommand::TurnOff),
        Ok(Ack { command: ActuatorCommand::TurnOff, spawn_task: false })
    );
    assert_eq!(controller.service(&mut animator, false), AnimatorAction::Drive { duty: 0, hold_ms: 0 });
    assert_eq!(animator.state(), AnimatorState::Idle);
    assert_eq!(controller.status(), ActuatorState::Stopped);
    assert_eq!(controller.backlog(), 0);
    assert_eq!(controller.service(&mut animator, false), AnimatorAction::Wait);
    assert_eq!(controller.task(), TaskStatus::Alive);
}

#[test]
fn failed_write_closes_the_controller() {
    let mut controller = ActuatorController::new();
    let mut animator = animator();
    controller.submit(ActuatorCommand::TurnOn).unwrap();
    controller.service(&mut animator, false);
    assert!(matches!(controller.service(&mut animator, false), AnimatorAction::Drive { .. }));
    controller.submit(ActuatorCommand::TurnOff).unwrap();
    assert_eq!(controller.service(&mut animator, true), AnimatorAction::Halt);
    assert_eq!(animator.state(), AnimatorState::Halted);
    assert_eq!(controller.task(), TaskStatus::Exited);
    assert_eq!(controller.status(), ActuatorState::Stopped);
    assert_eq!(controller.backlog(), 0);
    assert_eq!(controller.submit(ActuatorCommand::TurnOn), Err(ChannelClosed));
    assert_eq!(controller.submit(ActuatorCommand::TurnOff), Err(ChannelClosed));
    assert_eq!(controller.task(), TaskStatus::Exited);
    assert_eq!(controller.backlog(), 0);
}

#[test]
fn a_task_that_was_written_off_is_told_to_halt() {
    let mut controller = ActuatorController::new();
    let mut first = animator();
    controller.submit(ActuatorCommand::TurnOn).unwrap();
    controller.service(&mut first, true);
    let mut second = animator();
    assert_eq!(controller.service(&mut second, false), AnimatorAction::Halt);
    assert_eq!(second.state(), AnimatorState::Halted);
    assert_eq!(controller.task(), TaskStatus::Exited);
}

#[test]
fn a_task_that_runs_unasked_counts_as_alive() {
    let mut controller = ActuatorController::new();
    let mut animator = animator();
    assert_eq!(controller.service(&mut animator, false), AnimatorAction::Wait);
    assert_eq!(controller.task(), TaskStatus::Alive);
    assert_eq!(
        controller.submit(ActuatorCommand::TurnOn),
        Ok(Ack { command: ActuatorCommand::TurnOn, spawn_task: false })
    );
}

#[test]
fn submit_does_not_wait_for_the_task() {
    let mut controller = ActuatorController::new();
    for round in 0..10_000 {
        let command = if round % 2 == 0 { ActuatorCommand::TurnOn } else { ActuatorCommand::TurnOff };
        let answer = controller.submit(command).expect("an open channel");
        assert_eq!(answer.command, command);
        assert_eq!(answer.spawn_task, round == 0);
    }
    assert_eq!(controller.backlog(), 10_000);
    assert_eq!(controller.status(), ActuatorState::Stopped);
}

#[test]
fn a_task_that_never_got_going_closes_the_controller() {
    let mut controller = ActuatorController::new();
    controller.submit(ActuatorCommand::TurnOn).unwrap();
    controller.task_exited();
    assert_eq!(controller.task(), TaskStatus::Exited);
    assert_eq!(controller.backlog(), 0);
    assert_eq!(controller.status(), ActuatorState::Stopped);
    assert_eq!(controller.submit(ActuatorCommand::TurnOn), Err(ChannelClosed));
}

#[test]
fn a_backlog_ending_in_turn_off_stops_the_actuator() {
    let mut controller = ActuatorController::new();
    let mut animator = animator();
    controller.submit(ActuatorCommand::TurnOn).unwrap();
    for _ in 0..7 {
        controller.service(&mut animator, false);
    }
    assert_eq!(controller.status(), ActuatorState::Running(FadeDirection::Descending));
    for command in [
        ActuatorCommand::TurnOn,
        ActuatorCommand::TurnOff,
        ActuatorCommand::TurnOn,
        ActuatorCommand::TurnOff,
    ] {
        controller.submit(command).unwrap();
    }
    let mut held = 0;
    while controller.backlog() > 0 {
        match controller.service(&mut animator, false) {
            AnimatorAction::Continue => {}
            AnimatorAction::Drive { duty, hold_ms } => {
                assert_eq!(duty, 0);
                held += hold_ms;
            }
            other => panic!("a command must not cost time, got {:?}", other),
        }
    }
    assert_eq!(held, 0);
    assert_eq!(animator.state(), AnimatorState::Idle);
    assert_eq!(controller.status(), ActuatorState::Stopped);
    assert_eq!(controller.task(), TaskStatus::Alive);
}
