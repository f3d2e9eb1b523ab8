use smartonoff::channel::CommandChannel;
use smartonoff::command::ActuatorCommand;
use smartonoff::error::ChannelClosed;

#[test]
fn new_channel_is_open_and_empty() {
    let mut channel = CommandChannel::new();
    assert!(!channel.is_closed());
    assert_eq!(channel.len(), 0);
    assert_eq!(channel.try_recv(), None);
}

#[test]
fn commands_come_out_in_the_order_sent() {
    let mut channel = CommandChannel::new();
    assert_eq!(channel.send(ActuatorCommand::TurnOn), Ok(()));
    assert_eq!(channel.send(ActuatorCommand::TurnOff), Ok(()));
    assert_eq!(channel.send(ActuatorCommand::TurnOff), Ok(()));
    assert_eq!(channel.send(ActuatorCommand::TurnOn), Ok(()));
    assert_eq!(channel.len(), 4);
    assert_eq!(channel.try_recv(), Some(ActuatorCommand::TurnOn));
    assert_eq!(channel.try_recv(), Some(ActuatorCommand::TurnOff));
    assert_eq!(channel.try_recv(), Some(ActuatorCommand::TurnOff));
    assert_eq!(channel.try_recv(), Some(ActuatorCommand::TurnOn));
    assert_eq!(channel.try_recv(), None);
    assert_eq!(channel.len(), 0);
}

#[test]
fn a_late_command_is_not_lost() {
    let mut channel = CommandChannel::new();
    assert_eq!(channel.send(ActuatorCommand::TurnOn), Ok(()));
    assert_eq!(channel.try_recv(), Some(ActuatorCommand::TurnOn));
    assert_eq!(channel.send(ActuatorCommand::TurnOff), Ok(()));
    assert_eq!(channel.len(), 1);
    assert_eq!(channel.try_recv(), Some(ActuatorCommand::TurnOff));
}

#[test]
fn channel_takes_many_commands() {
    let mut channel = CommandChannel::new();
    for round in 0..1000 {
        let command = if round % 3 == 0 { ActuatorCommand::TurnOff } else { ActuatorCommand::TurnOn };
        assert_eq!(channel.send(command), Ok(()));
    }
    assert_eq!(channel.len(), 1000);
    for round in 0..1000 {
        let command = if round % 3 == 0 { ActuatorCommand::TurnOff } else { ActuatorCommand::TurnOn };
        assert_eq!(channel.try_recv(), Some(command));
    }
    assert_eq!(channel.try_recv(), None);
}

#[test]
fn closing_drops_what_was_waiting() {
    let mut channel = CommandChannel::new();
    assert_eq!(channel.send(ActuatorCommand::TurnOn), Ok(()));
    assert_eq!(channel.send(ActuatorCommand::TurnOff), Ok(()));
    channel.close();
    assert!(channel.is_closed());
    assert_eq!(channel.len(), 0);
    assert_eq!(channel.try_recv(), None);
}

#[test]
fn closed_channel_refuses_every_command() {
    let mut channel = CommandChannel::new();
    channel.close();
    assert_eq!(channel.send(ActuatorCommand::TurnOn), Err(ChannelClosed));
    assert_eq!(channel.send(ActuatorCommand::TurnOff), Err(ChannelClosed));
    assert_eq!(channel.len(), 0);
    assert!(channel.is_closed());
}
