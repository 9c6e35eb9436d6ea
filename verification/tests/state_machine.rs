use embedded_usb_pd::ucsi;
use embedded_usb_pd::ucsi::lpm;
use embedded_usb_pd::ucsi::ppm;
use embedded_usb_pd::ucsi::ppm::state_machine::GlobalStateMachine;
use embedded_usb_pd::ucsi::ppm::state_machine::Input;
use embedded_usb_pd::ucsi::ppm::state_machine::InvalidTransition;
use embedded_usb_pd::ucsi::ppm::state_machine::LocalStateMachine;
use embedded_usb_pd::ucsi::ppm::state_machine::Output;
use embedded_usb_pd::ucsi::ppm::state_machine::State;
use embedded_usb_pd::ucsi::Command;
use embedded_usb_pd::GlobalPortId;
use embedded_usb_pd::LocalPortId;

#[test]
fn test_reset_all() {
    // Test reset from all states
    let mut sm = GlobalStateMachine::in_state(State::Idle(false));
    let res = sm.consume(Input::Command(&Command::PpmCommand(ppm::Command::PpmReset)));
    assert_eq!(res, Ok(Some(Output::ResetComplete)));
    assert_eq!(sm.state(), State::Idle(false));

    // Test reset from Idle(true)
    let mut sm = GlobalStateMachine::in_state(State::Idle(true));
    let res = sm.consume(Input::Command(&Command::PpmCommand(ppm::Command::PpmReset)));
    assert_eq!(res, Ok(Some(Output::ResetComplete)));
    assert_eq!(sm.state(), State::Idle(false));

    // Test reset from Busy(false)
    let mut sm = GlobalStateMachine::in_state(State::Busy(false));
    let res = sm.consume(Input::Command(&Command::PpmCommand(ppm::Command::PpmReset)));
    assert_eq!(res, Ok(Some(Output::ResetComplete)));
    assert_eq!(sm.state(), State::Idle(false));

    // Test reset from Busy(true)
    let mut sm = GlobalStateMachine::in_state(State::Busy(true));
    let res = sm.consume(Input::Command(&Command::PpmCommand(ppm::Command::PpmReset)));
    assert_eq!(res, Ok(Some(Output::ResetComplete)));
    assert_eq!(sm.state(), State::Idle(false));

    // Test reset from ProcessingCommand
    let mut sm = GlobalStateMachine::in_state(State::ProcessingCommand);
    let res = sm.consume(Input::Command(&Command::PpmCommand(ppm::Command::PpmReset)));
    assert_eq!(res, Ok(Some(Output::ResetComplete)));
    assert_eq!(sm.state(), State::Idle(false));

    // Test reset from WaitForCommandCompleteAck
    let mut sm = GlobalStateMachine::in_state(State::WaitForCommandCompleteAck);
    let res = sm.consume(Input::Command(&Command::PpmCommand(ppm::Command::PpmReset)));
    assert_eq!(res, Ok(Some(Output::ResetComplete)));
    assert_eq!(sm.state(), State::Idle(false));
}

/// Test that only SET_NOTIFICATION_ENABLE works from Idle(false)
#[test]
fn test_idle_false_commands() {
    let mut sm = GlobalStateMachine::in_state(State::Idle(false));

    // Valid command
    let cmd = Command::PpmCommand(ppm::Command::SetNotificationEnable(
        ucsi::ppm::set_notification_enable::Args::default(),
    ));
    let res = sm.consume(Input::Command(&cmd));
    assert_eq!(res, Ok(Some(Output::ExecuteCommand(&cmd))));
    assert_eq!(sm.state(), State::ProcessingCommand);

    // Invalid PPM command
    let mut sm = GlobalStateMachine::in_state(State::Idle(false));
    let cmd = Command::PpmCommand(ppm::Command::AckCcCi(ucsi::ppm::ack_cc_ci::Args::default()));
    let res = sm.consume(Input::Command(&cmd));
    assert_eq!(
        res,
        Err(InvalidTransition {
            state: State::Idle(false),
            input: Input::Command(&cmd)
        })
    );
    assert_eq!(sm.state(), State::Idle(false));

    // Invalid LPM command
    let mut sm = GlobalStateMachine::in_state(State::Idle(false));
    let cmd = Command::LpmCommand(ucsi::lpm::Command::new(
        GlobalPortId(0),
        lpm::CommandData::GetPdos(lpm::get_pdos::Args::default()),
    ));
    let res = sm.consume(Input::Command(&cmd));
    assert_eq!(
        res,
        Err(InvalidTransition {
            state: State::Idle(false),
            input: Input::Command(&cmd)
        })
    );
    assert_eq!(sm.state(), State::Idle(false));
}

/// Test that cancel works while processing a command, but no other commands are accepted
#[test]
fn test_processing_commands() {
    let mut sm = GlobalStateMachine::in_state(State::ProcessingCommand);

    // State machine is already in processing command state, should fail
    let cmd = Command::LpmCommand(lpm::Command::new(
        GlobalPortId(0),
        lpm::CommandData::GetPdos(lpm::get_pdos::Args::default()),
    ));
    let res = sm.consume(Input::Command(&cmd));
    assert_eq!(
        res,
        Err(InvalidTransition {
            state: State::ProcessingCommand,
            input: Input::Command(&cmd)
        })
    );
    assert_eq!(sm.state(), State::ProcessingCommand);

    let res = sm.consume(Input::Command(&Command::PpmCommand(ppm::Command::Cancel)));
    assert_eq!(res, Ok(Some(Output::OpmNotifyCommandComplete)));
    assert_eq!(sm.state(), State::WaitForCommandCompleteAck)
}

/// Test idle true command transitions
#[test]
fn test_idle_true_commands() {
    let mut sm = GlobalStateMachine::in_state(State::Idle(true));

    // Test simple command execution
    let cmd = Command::LpmCommand(lpm::Command::new(
        GlobalPortId(0),
        lpm::CommandData::GetPdos(lpm::get_pdos::Args::default()),
    ));
    let res = sm.consume(Input::Command(&cmd));
    assert_eq!(res, Ok(Some(Output::ExecuteCommand(&cmd))));
    assert_eq!(sm.state(), State::ProcessingCommand);

    // Test rejection of command completion ACK
    let mut sm = GlobalStateMachine::in_state(State::Idle(true));
    let cmd = Command::PpmCommand(ppm::Command::AckCcCi(ppm::ack_cc_ci::Args {
        ack: *ppm::ack_cc_ci::Ack::default().set_command_complete(true),
    }));
    let res = sm.consume(Input::Command(&cmd));
    assert_eq!(
        res,
        Err(InvalidTransition {
            state: State::Idle(true),
            input: Input::Command(&cmd)
        })
    );
    assert_eq!(sm.state(), State::Idle(true));

    // Test acceptance of connector change ACK
    let mut sm = GlobalStateMachine::in_state(State::Idle(true));
    let cmd = Command::PpmCommand(ppm::Command::AckCcCi(ppm::ack_cc_ci::Args {
        ack: *ppm::ack_cc_ci::Ack::default().set_connector_change(true),
    }));
    let res = sm.consume(Input::Command(&cmd));
    assert_eq!(res, Ok(Some(Output::ExecuteCommand(&cmd))));
    assert_eq!(sm.state(), State::ProcessingCommand);
}

/// Test wait for command complete command transitions
#[test]
fn test_wait_for_command_complete_ack_commands() {
    let mut sm = GlobalStateMachine::in_state(State::WaitForCommandCompleteAck);

    // Command complete ACK should succeed
    let ack = *ppm::ack_cc_ci::Ack::default().set_command_complete(true);
    let cmd = Command::PpmCommand(ppm::Command::AckCcCi(ppm::ack_cc_ci::Args { ack }));
    let res = sm.consume(Input::Command(&cmd));
    assert_eq!(res, Ok(Some(Output::AckComplete(ack))));
    assert_eq!(sm.state(), State::Idle(true));

    // Connector change ACK only should fail
    let mut sm = GlobalStateMachine::in_state(State::WaitForCommandCompleteAck);
    let cmd = Command::PpmCommand(ppm::Command::AckCcCi(ppm::ack_cc_ci::Args {
        ack: *ppm::ack_cc_ci::Ack::default().set_connector_change(true),
    }));
    let res = sm.consume(Input::Command(&cmd));
    assert_eq!(
        res,
        Err(InvalidTransition {
            state: State::WaitForCommandCompleteAck,
            input: Input::Command(&cmd)
        })
    );
    assert_eq!(sm.state(), State::WaitForCommandCompleteAck);

    // All other commands should fail as well
    let mut sm = GlobalStateMachine::in_state(State::WaitForCommandCompleteAck);
    let cmd = Command::LpmCommand(lpm::Command::new(
        GlobalPortId(0),
        lpm::CommandData::GetPdos(lpm::get_pdos::Args::default()),
    ));
    let res = sm.consume(Input::Command(&cmd));
    assert_eq!(
        res,
        Err(InvalidTransition {
            state: State::WaitForCommandCompleteAck,
            input: Input::Command(&cmd)
        })
    );
    assert_eq!(sm.state(), State::WaitForCommandCompleteAck);
}

fn states() -> [State; 6] {
    [
        State::Idle(false),
        State::Idle(true),
        State::Busy(false),
        State::Busy(true),
        State::ProcessingCommand,
        State::WaitForCommandCompleteAck,
    ]
}

fn commands() -> Vec<Command<LocalPortId>> {
    let ack_complete = *ppm::ack_cc_ci::Ack::default().set_command_complete(true);
    let ack_both = *ppm::ack_cc_ci::Ack::default().set_command_complete(true).set_connector_change(true);
    let ack_change = *ppm::ack_cc_ci::Ack::default().set_connector_change(true);
    vec![
        Command::PpmCommand(ppm::Command::PpmReset),
        Command::PpmCommand(ppm::Command::Cancel),
        Command::PpmCommand(ppm::Command::AckCcCi(ppm::ack_cc_ci::Args { ack: ack_complete })),
        Command::PpmCommand(ppm::Command::AckCcCi(ppm::ack_cc_ci::Args { ack: ack_both })),
        Command::PpmCommand(ppm::Command::AckCcCi(ppm::ack_cc_ci::Args { ack: ack_change })),
        Command::PpmCommand(ppm::Command::AckCcCi(ppm::ack_cc_ci::Args::default())),
        Command::PpmCommand(ppm::Command::SetNotificationEnable(Default::default())),
        Command::PpmCommand(ppm::Command::GetCapability),
        Command::LpmCommand(lpm::Command::new(LocalPortId(1), lpm::CommandData::GetConnectorStatus)),
        Command::LpmCommand(lpm::Command::new(LocalPortId(2), lpm::CommandData::ConnectorReset)),
    ]
}

/// What the table of transitions gives for a state and an input.
fn table(state: State, input: &Input<LocalPortId>) -> Option<State> {
    let reset = matches!(input, Input::Command(Command::PpmCommand(ppm::Command::PpmReset)));
    let cancel = matches!(input, Input::Command(Command::PpmCommand(ppm::Command::Cancel)));
    let enable = matches!(
        input,
        Input::Command(Command::PpmCommand(ppm::Command::SetNotificationEnable(_)))
    );
    let ack_complete = match input {
        Input::Command(Command::PpmCommand(ppm::Command::AckCcCi(args))) => args.ack.command_complete(),
        _ => false,
    };
    let command = matches!(input, Input::Command(_));
    let complete = matches!(input, Input::CommandComplete);
    let busy = matches!(input, Input::BusyChanged);
    if reset {
        return Some(State::Idle(false));
    }
    match state {
        State::Idle(false) if enable => Some(State::ProcessingCommand),
        State::Idle(false) if busy => Some(State::Busy(false)),
        State::Busy(n) if busy => Some(State::Idle(n)),
        State::Busy(n) if complete => Some(State::Busy(n)),
        State::Idle(true) if busy => Some(State::Busy(true)),
        State::Idle(true) if command && !ack_complete => Some(State::ProcessingCommand),
        State::ProcessingCommand if complete || cancel => Some(State::WaitForCommandCompleteAck),
        State::WaitForCommandCompleteAck if ack_complete => Some(State::Idle(true)),
        _ => None,
    }
}

#[test]
fn every_pair_follows_the_table_and_rejections_change_nothing() {
    let commands = commands();
    let mut inputs: Vec<Input<LocalPortId>> = commands.iter().map(Input::Command).collect();
    inputs.push(Input::CommandComplete);
    inputs.push(Input::BusyChanged);
    let mut accepted = 0;
    let mut rejected = 0;
    for state in states() {
        for input in &inputs {
            let mut sm = LocalStateMachine::in_state(state);
            let result = sm.consume(*input);
            match table(state, input) {
                Some(next) => {
                    accepted += 1;
                    assert!(result.is_ok(), "{:?} {:?}", state, input);
                    assert_eq!(sm.state(), next);
                }
                None => {
                    rejected += 1;
                    assert_eq!(result, Err(InvalidTransition { state, input: *input }));
                    assert_eq!(sm.state(), state);
                }
            }
        }
    }
    assert_eq!(accepted + rejected, 6 * 12);
    assert_eq!(accepted, 24);
}

#[test]
fn outputs_of_the_table() {
    let mut sm = LocalStateMachine::new();
    assert_eq!(sm.state(), State::Idle(false));
    assert_eq!(LocalStateMachine::default().state(), State::Idle(false));
    assert_eq!(sm.consume(Input::BusyChanged), Ok(None));
    assert_eq!(sm.state(), State::Busy(false));
    assert_eq!(sm.consume(Input::CommandComplete), Ok(None));
    assert_eq!(sm.state(), State::Busy(false));
    assert_eq!(sm.consume(Input::BusyChanged), Ok(None));
    assert_eq!(sm.state(), State::Idle(false));

    let enable = Command::PpmCommand(ppm::Command::SetNotificationEnable(Default::default()));
    assert_eq!(sm.consume(Input::Command(&enable)), Ok(Some(Output::ExecuteCommand(&enable))));
    assert_eq!(sm.consume(Input::CommandComplete), Ok(Some(Output::OpmNotifyCommandComplete)));
    let ack = *ppm::ack_cc_ci::Ack::default().set_command_complete(true);
    let ack_cmd = Command::PpmCommand(ppm::Command::AckCcCi(ppm::ack_cc_ci::Args { ack }));
    assert_eq!(sm.consume(Input::Command(&ack_cmd)), Ok(Some(Output::AckComplete(ack))));
    assert_eq!(sm.state(), State::Idle(true));

    assert_eq!(sm.consume(Input::BusyChanged), Ok(None));
    assert_eq!(sm.state(), State::Busy(true));
    assert_eq!(sm.consume(Input::CommandComplete), Ok(Some(Output::OpmNotifyBusy)));
    assert_eq!(sm.state(), State::Busy(true));
    assert_eq!(sm.consume(Input::BusyChanged), Ok(None));
    assert_eq!(sm.state(), State::Idle(true));
}

#[test]
fn idle_false_takes_only_enable_busy_and_reset() {
    let commands = commands();
    for command in &commands {
        let mut sm = LocalStateMachine::in_state(State::Idle(false));
        let result = sm.consume(Input::Command(command));
        let taken = matches!(
            command,
            Command::PpmCommand(ppm::Command::SetNotificationEnable(_))
                | Command::PpmCommand(ppm::Command::PpmReset)
        );
        assert_eq!(result.is_ok(), taken);
    }
    let mut sm = LocalStateMachine::in_state(State::Idle(false));
    assert!(sm.consume(Input::CommandComplete).is_err());
    assert!(sm.consume(Input::BusyChanged).is_ok());
}

#[test]
fn completion_ack_is_taken_only_while_waiting_for_it() {
    let ack = *ppm::ack_cc_ci::Ack::default().set_command_complete(true);
    let cmd: Command<GlobalPortId> = Command::PpmCommand(ppm::Command::AckCcCi(ppm::ack_cc_ci::Args { ack }));
    for state in states() {
        let mut sm = GlobalStateMachine::in_state(state);
        let result = sm.consume(Input::Command(&cmd));
        assert_eq!(result.is_ok(), state == State::WaitForCommandCompleteAck);
    }
}
