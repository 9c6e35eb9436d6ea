//! The PPM state machine of UCSI spec 6.1.
//!
//! The spec draws states and, between them, actions that the implementation
//! is to perform. Here the machine decides and does nothing else: it takes
//! an [`Input`], moves to the next state, and says in an [`Output`] what the
//! host is to do. Waiting, for the hardware or for the OPM, is the host's.
use crate::ucsi;
use crate::ucsi::ppm;
use crate::ucsi::ppm::ack_cc_ci;
use crate::GlobalPortId;
use crate::LocalPortId;
use crate::PortId;
use vstd::prelude::*;

verus! {

/// PPM states
///
/// The spec does not tell Busy(false) from Busy(true). They are told apart
/// here, because otherwise the machine could go from Idle(false) to
/// Idle(true) without notifications having been enabled.
#[derive(Copy, Clone, Debug, PartialEq, Eq)]
pub enum State {
    /// Idle(notification enabled)
    Idle(bool),
    /// Busy(notification enabled)
    Busy(bool),
    /// Processing Command,
    ProcessingCommand,
    /// Waiting for command complete ack
    WaitForCommandCompleteAck,
}

/// Inputs to the PPM state machine
#[derive(Copy, Clone, Debug, PartialEq, Eq)]
pub enum Input<'a, T: PortId> {
    /// UCSI command
    Command(&'a ucsi::Command<T>),
    /// Command completed,
    CommandComplete,
    /// External busy status changed
    BusyChanged,
}

/// An input whose commands are for ports of all controllers.
pub type GlobalInput<'a> = Input<'a, GlobalPortId>;

/// An input whose commands are for ports of one controller.
pub type LocalInput<'a> = Input<'a, LocalPortId>;

/// Outputs from the PPM state machine
#[derive(Copy, Clone, Debug, PartialEq, Eq)]
pub enum Output<'a, T: PortId> {
    /// Execute the command
    ExecuteCommand(&'a ucsi::Command<T>),
    /// Notify OPM that command completed
    OpmNotifyCommandComplete,
    /// Ack completed
    AckComplete(ack_cc_ci::Ack),
    /// PPM reset complete
    ResetComplete,
    /// Notify OPM that PPM is busy
    OpmNotifyBusy,
}

/// An output whose commands are for ports of all controllers.
pub type GlobalOutput<'a> = Output<'a, GlobalPortId>;

/// An output whose commands are for ports of one controller.
pub type LocalOutput<'a> = Output<'a, LocalPortId>;

/// Attempted transition that is not allowed by the state machine
#[derive(Copy, Clone, Debug, PartialEq, Eq)]
pub struct InvalidTransition<'a, T: PortId> {
    /// The current state of the state machine
    pub state: State,
    /// The input that was attempted
    pub input: Input<'a, T>,
}

/// What an input is, as far as the machine tells inputs apart.
pub enum InputKind {
    /// A PPM_RESET command
    Reset,
    /// A CANCEL command
    Cancel,
    /// An ACK_CC_CI command that acknowledges the completion of a command
    AckCommandComplete,
    /// An ACK_CC_CI command that acknowledges no completion of a command
    AckOther,
    /// A SET_NOTIFICATION_ENABLE command
    SetNotificationEnable,
    /// Any other command
    OtherCommand,
    /// The completion of the command
    CommandComplete,
    /// A change of the external busy status
    BusyChanged,
}

impl<'a, T: PortId> Input<'a, T> {
    /// What the input is, as far as the machine tells inputs apart.
    pub open spec fn kind(self) -> InputKind {
        match self {
            Input::Command(command) => match *command {
                ucsi::Command::PpmCommand(ppm::Command::PpmReset) => InputKind::Reset,
                ucsi::Command::PpmCommand(ppm::Command::Cancel) => InputKind::Cancel,
                ucsi::Command::PpmCommand(ppm::Command::AckCcCi(args)) => if args.ack.acks_command_complete() {
                    InputKind::AckCommandComplete
                } else {
                    InputKind::AckOther
                },
                ucsi::Command::PpmCommand(
                    ppm::Command::SetNotificationEnable(_),
                ) => InputKind::SetNotificationEnable,
                _ => InputKind::OtherCommand,
            },
            Input::CommandComplete => InputKind::CommandComplete,
            Input::BusyChanged => InputKind::BusyChanged,
        }
    }

    /// The acknowledgement flags of an ACK_CC_CI command.
    pub open spec fn ack(self) -> ack_cc_ci::Ack {
        match self {
            Input::Command(command) => match *command {
                ucsi::Command::PpmCommand(ppm::Command::AckCcCi(args)) => args.ack,
                _ => ack_cc_ci::Ack(0),
            },
            _ => ack_cc_ci::Ack(0),
        }
    }

    /// The command of an input that is a command.
    pub open spec fn command(self) -> &'a ucsi::Command<T> {
        self->Command_0
    }
}

/// The state that the table of transitions gives for a state and an input,
/// or `None` where the table has no row.
///
/// A reset leads from every state to Idle(false). Before notifications are
/// enabled, the idle machine takes only the command that enables them; once
/// they are, it takes every command but the acknowledgement of a
/// completion, which belongs to the state that waits for it. A change of
/// the busy status moves between idle and busy and keeps what the state
/// remembers of notifications.
pub open spec fn next_state(state: State, input: InputKind) -> Option<State> {
    match (state, input) {
        (_, InputKind::Reset) => Some(State::Idle(false)),
        (State::Idle(false), InputKind::SetNotificationEnable) => Some(State::ProcessingCommand),
        (State::Idle(false), InputKind::BusyChanged) => Some(State::Busy(false)),
        (State::Busy(enabled), InputKind::BusyChanged) => Some(State::Idle(enabled)),
        (State::Busy(enabled), InputKind::CommandComplete) => Some(State::Busy(enabled)),
        (State::Idle(true), InputKind::BusyChanged) => Some(State::Busy(true)),
        (State::Idle(true), InputKind::Cancel) => Some(State::ProcessingCommand),
        (State::Idle(true), InputKind::AckOther) => Some(State::ProcessingCommand),
        (State::Idle(true), InputKind::SetNotificationEnable) => Some(State::ProcessingCommand),
        (State::Idle(true), InputKind::OtherCommand) => Some(State::ProcessingCommand),
        (State::ProcessingCommand, InputKind::CommandComplete) => Some(
            State::WaitForCommandCompleteAck,
        ),
        (State::ProcessingCommand, InputKind::Cancel) => Some(State::WaitForCommandCompleteAck),
        (State::WaitForCommandCompleteAck, InputKind::AckCommandComplete) => Some(
            State::Idle(true),
        ),
        _ => None,
    }
}

/// What the machine tells the host on a transition that the table has a row
/// for: to execute the command when it begins to process one, that the
/// command completed when processing ends, that the acknowledgement or the
/// reset is complete, and, while busy with notifications enabled, that it
/// is busy.
pub open spec fn output_of<'a, T: PortId>(state: State, input: Input<'a, T>) -> Option<
    Output<'a, T>,
> {
    match (state, input.kind()) {
        (_, InputKind::Reset) => Some(Output::ResetComplete),
        (State::Busy(true), InputKind::CommandComplete) => Some(Output::OpmNotifyBusy),
        (State::ProcessingCommand, _) => Some(Output::OpmNotifyCommandComplete),
        (State::WaitForCommandCompleteAck, _) => Some(Output::AckComplete(input.ack())),
        (State::Idle(_), InputKind::BusyChanged) => None,
        (State::Idle(_), _) => Some(Output::ExecuteCommand(input.command())),
        _ => None,
    }
}

/// Whether the table of transitions has a row for a state and an input,
/// row by row.
pub open spec fn in_table(state: State, input: InputKind) -> bool {
    ||| input is Reset
    ||| state == State::Idle(false) && input is SetNotificationEnable
    ||| state == State::Idle(false) && input is BusyChanged
    ||| state is Busy && input is BusyChanged
    ||| state is Busy && input is CommandComplete
    ||| state == State::Idle(true) && input is BusyChanged
    ||| state == State::Idle(true) && !(input is AckCommandComplete) && !(input is CommandComplete)
    ||| state is ProcessingCommand && (input is CommandComplete || input is Cancel)
    ||| state is WaitForCommandCompleteAck && input is AckCommandComplete
}

/// The machine takes an input exactly where the table has a row for it:
/// every other pair of a state and an input is an invalid transition.
pub proof fn taken_where_in_table(state: State, input: InputKind)
    ensures
        next_state(state, input) is Some <==> in_table(state, input),
{
}

/// A reset is taken in every state: it leads to Idle(false), and the
/// machine reports that the reset is complete.
pub proof fn reset_from_every_state<'a, T: PortId>(state: State, input: Input<'a, T>)
    requires
        input.kind() is Reset,
    ensures
        next_state(state, input.kind()) == Some(State::Idle(false)),
        output_of(state, input) == Some(Output::<T>::ResetComplete),
{
}

/// Before notifications are enabled, the idle machine takes, besides a
/// reset, only the command that enables them and a change of the busy
/// status.
pub proof fn gated_until_notifications_enabled(input: InputKind)
    requires
        !(input is Reset),
    ensures
        next_state(State::Idle(false), input) is Some <==> input is SetNotificationEnable
            || input is BusyChanged,
{
}

/// Notifications are never found enabled without a command having been
/// processed: no input leads from Idle(false) or Busy(false) to a state
/// that remembers them as enabled.
pub proof fn no_direct_way_to_notifications(state: State, input: InputKind)
    requires
        state == State::Idle(false) || state == State::Busy(false),
    ensures
        next_state(state, input) != Some(State::Idle(true)),
        next_state(state, input) != Some(State::Busy(true)),
{
}

/// The acknowledgement of a completion is taken only by the state that
/// waits for it; an acknowledgement of a connector change alone is taken by
/// the idle machine with notifications enabled, as a command to execute.
pub proof fn acknowledgements<'a, T: PortId>(state: State, input: Input<'a, T>)
    ensures
        input.kind() is AckCommandComplete ==> (next_state(state, input.kind()) is Some <==> state
            == State::WaitForCommandCompleteAck),
        input.kind() is AckOther ==> next_state(State::Idle(true), input.kind()) == Some(
            State::ProcessingCommand,
        ) && output_of(State::Idle(true), input) == Some(Output::ExecuteCommand(input.command())),
{
}

/// The PPM state machine: one for the whole PPM, whatever the number of ports.
#[derive(Copy, Debug, PartialEq, Eq)]
pub struct StateMachine<T: PortId> {
    state: State,
    _marker: core::marker::PhantomData<T>,
}

impl<T: PortId> Clone for StateMachine<T> {
    fn clone(&self) -> (copy: Self)
        ensures
            copy == *self,
    {
        *self
    }
}

impl<T: PortId> View for StateMachine<T> {
    type V = State;

    /// The state that the machine is in.
    closed spec fn view(&self) -> State {
        self.state
    }
}

impl<T: PortId> StateMachine<T> {
    /// Create a new state machine in the Idle(false) state
    pub fn new() -> (machine: Self)
        ensures
            machine@ == State::Idle(false),
    {
        StateMachine { state: State::Idle(false), _marker: core::marker::PhantomData }
    }

    /// Create a state machine in the given state
    pub fn in_state(state: State) -> (machine: Self)
        ensures
            machine@ == state,
    {
        StateMachine { state, _marker: core::marker::PhantomData }
    }

    /// Returns the current state
    pub fn state(&self) -> (state: State)
        ensures
            state == self@,
    {
        self.state
    }

    /// Transition the state machine based on the input and return the output to the OPM if any.
    ///
    /// Where the table of transitions has a row for the state and the
    /// input, the machine moves to the row's state and returns the row's
    /// output. Where it has none, the machine stays in its state and returns
    /// the state and the input as an invalid transition.
    pub fn consume<'a>(&mut self, input: Input<'a, T>) -> (result: Result<
        Option<Output<'a, T>>,
        InvalidTransition<'a, T>,
    >)
        ensures
            match next_state(old(self)@, input.kind()) {
                Some(next) => final(self)@ == next && result == Ok::<
                    Option<Output<'a, T>>,
                    InvalidTransition<'a, T>,
                >(output_of(old(self)@, input)),
                None => final(self)@ == old(self)@ && result == Err::<
                    Option<Output<'a, T>>,
                    InvalidTransition<'a, T>,
                >(InvalidTransition { state: old(self)@, input }),
            },
    {
        let state = self.state;
        let (next_state, output) = match (state, input) {
            // Reset transitions
            (_, Input::Command(ucsi::Command::PpmCommand(ppm::Command::PpmReset))) => (
                State::Idle(false),
                Some(Output::ResetComplete),
            ),
            // Idle(false) transitions
            (
                State::Idle(false),
                Input::Command(
                    cmd @ ucsi::Command::PpmCommand(ppm::Command::SetNotificationEnable(_)),
                ),
            ) => (State::ProcessingCommand, Some(Output::ExecuteCommand(cmd))),
            (State::Idle(false), Input::BusyChanged) => (State::Busy(false), None),
            // Busy transitions
            (State::Busy(notification_enabled), Input::BusyChanged) => (
                State::Idle(notification_enabled),
                None,
            ),
            (State::Busy(false), Input::CommandComplete) => (State::Busy(false), None),
            (State::Busy(true), Input::CommandComplete) => (
                State::Busy(true),
                Some(Output::OpmNotifyBusy),
            ),
            // Idle(true) successful transitions
            (State::Idle(true), Input::BusyChanged) => (State::Busy(true), None),
            (
                State::Idle(true),
                Input::Command(cmd @ ucsi::Command::PpmCommand(ppm::Command::AckCcCi(args))),
            ) => {
                if args.ack.command_complete() {
                    // This should only happen in WaitForCommandCompleteAck
                    return Err(InvalidTransition { state, input });
                } else {
                    (State::ProcessingCommand, Some(Output::ExecuteCommand(cmd)))
                }
            },
            (State::Idle(true), Input::Command(cmd)) => (
                State::ProcessingCommand,
                Some(Output::ExecuteCommand(cmd)),
            ),
            // ProcessingCommand transitions
            (State::ProcessingCommand, Input::CommandComplete) => (
                State::WaitForCommandCompleteAck,
                Some(Output::OpmNotifyCommandComplete),
            ),
            (
                State::ProcessingCommand,
                Input::Command(ucsi::Command::PpmCommand(ppm::Command::Cancel)),
            ) => (State::WaitForCommandCompleteAck, Some(Output::OpmNotifyCommandComplete)),
            // WaitForCommandCompleteAck transitions
            (
                State::WaitForCommandCompleteAck,
                Input::Command(ucsi::Command::PpmCommand(ppm::Command::AckCcCi(args))),
            ) => {
                if args.ack.command_complete() {
                    (State::Idle(true), Some(Output::AckComplete(args.ack)))
                } else {
                    return Err(InvalidTransition { state, input });
                }
            },
            // Invalid transition
            _ => {
                return Err(InvalidTransition { state, input });
            },
        };
        self.state = next_state;
        Ok(output)
    }
}

impl<T: PortId> Default for StateMachine<T> {
    fn default() -> (machine: Self)
        ensures
            machine@ == State::Idle(false),
    {
        Self::new()
    }
}

/// A state machine whose commands are for ports of all controllers.
pub type GlobalStateMachine = StateMachine<GlobalPortId>;

/// A state machine whose commands are for ports of one controller.
pub type LocalStateMachine = StateMachine<LocalPortId>;

} // verus!
