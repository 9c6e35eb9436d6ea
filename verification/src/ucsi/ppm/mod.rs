//! Commands that the PPM handles itself, without an LPM.
use crate::ucsi::cci;
use crate::ucsi::CommandHeader;
use crate::ucsi::CommandType;
use crate::ucsi::COMMAND_LEN;
use crate::ucsi::HEADER_LEN;
use crate::wire;
use crate::wire::Allowed;
use crate::wire::DecodeError;
use crate::GlobalPortId;
use crate::LocalPortId;
use crate::PortId;
use vstd::prelude::*;

pub mod ack_cc_ci;
pub mod cancel;
pub mod get_capability;
pub mod ppm_reset;
pub mod set_notification_enable;
pub mod state_machine;

verus! {

/// Commands that only affect the PPM level and don't need to be sent to an LPM
#[derive(Copy, Clone, Debug, PartialEq, Eq)]
pub enum Command {
    /// PPM_RESET
    PpmReset,
    /// CANCEL
    Cancel,
    /// ACK_CC_CI
    AckCcCi(ack_cc_ci::Args),
    /// SET_NOTIFICATION_ENABLE
    SetNotificationEnable(set_notification_enable::Args),
    /// GET_CAPABILITY
    GetCapability,
}

impl Command {
    /// The type of the command.
    pub open spec fn kind(self) -> CommandType {
        match self {
            Command::PpmReset => CommandType::PpmReset,
            Command::Cancel => CommandType::Cancel,
            Command::AckCcCi(_) => CommandType::AckCcCi,
            Command::SetNotificationEnable(_) => CommandType::SetNotificationEnable,
            Command::GetCapability => CommandType::GetCapability,
        }
    }

    /// What follows the header of the command on the wire: its arguments,
    /// or padding in their place.
    pub open spec fn encoding(self) -> Seq<u8> {
        match self {
            Command::PpmReset => ppm_reset::Args.encoding(),
            Command::Cancel => cancel::Args.encoding(),
            Command::AckCcCi(args) => args.encoding(),
            Command::SetNotificationEnable(args) => args.encoding(),
            Command::GetCapability => get_capability::Args.encoding(),
        }
    }

    /// What decoding what follows the header from the head of `bytes`
    /// yields, for a header that names `kind`.
    pub open spec fn decoding_with(kind: CommandType, bytes: Seq<u8>) -> Result<
        (Command, usize),
        DecodeError,
    > {
        match kind {
            CommandType::PpmReset => match ppm_reset::Args::decoding(bytes) {
                Ok((_, taken)) => Ok((Command::PpmReset, taken)),
                Err(error) => Err(error),
            },
            CommandType::Cancel => match cancel::Args::decoding(bytes) {
                Ok((_, taken)) => Ok((Command::Cancel, taken)),
                Err(error) => Err(error),
            },
            CommandType::AckCcCi => match ack_cc_ci::Args::decoding(bytes) {
                Ok((args, taken)) => Ok((Command::AckCcCi(args), taken)),
                Err(error) => Err(error),
            },
            CommandType::SetNotificationEnable => match set_notification_enable::Args::decoding(
                bytes,
            ) {
                Ok((args, taken)) => Ok((Command::SetNotificationEnable(args), taken)),
                Err(error) => Err(error),
            },
            CommandType::GetCapability => match get_capability::Args::decoding(bytes) {
                Ok((_, taken)) => Ok((Command::GetCapability, taken)),
                Err(error) => Err(error),
            },
            _ => Err(
                DecodeError::UnexpectedVariant {
                    allowed: Allowed::PpmCommand,
                    found: kind.opcode() as u32,
                },
            ),
        }
    }

    /// What decoding a command, header first, from the head of `bytes` yields.
    pub open spec fn decoding(bytes: Seq<u8>) -> Result<(Command, usize), DecodeError> {
        match CommandHeader::decoding(bytes) {
            Err(error) => Err(error),
            Ok((header, taken)) => match Command::decoding_with(
                header.command,
                bytes.skip(taken as int),
            ) {
                Err(error) => Err(error),
                Ok((command, more)) => Ok((command, (taken + more) as usize)),
            },
        }
    }

    /// Returns the command type for this command
    pub fn command_type(&self) -> (kind: CommandType)
        ensures
            kind == self.kind(),
    {
        match self {
            Command::PpmReset => CommandType::PpmReset,
            Command::Cancel => CommandType::Cancel,
            Command::AckCcCi(_) => CommandType::AckCcCi,
            Command::SetNotificationEnable(_) => CommandType::SetNotificationEnable,
            Command::GetCapability => CommandType::GetCapability,
        }
    }

    /// Appends what follows the header of the command: six bytes.
    pub fn encode(&self, out: &mut Vec<u8>)
        ensures
            final(out)@ == old(out)@ + self.encoding(),
    {
        match self {
            Command::PpmReset => ppm_reset::Args.encode(out),
            Command::Cancel => cancel::Args.encode(out),
            Command::AckCcCi(args) => args.encode(out),
            Command::SetNotificationEnable(args) => args.encode(out),
            Command::GetCapability => get_capability::Args.encode(out),
        }
    }

    /// Decodes what follows the header of a command, given the header.
    ///
    /// Fails with `UnexpectedVariant` if the header names a command that
    /// the PPM does not handle itself; with `UnexpectedEnd` if bytes are
    /// missing.
    pub fn decode_with(header: CommandHeader, bytes: &[u8]) -> (decoded: Result<
        (Self, usize),
        DecodeError,
    >)
        ensures
            decoded == Command::decoding_with(header.command, bytes@),
    {
        let kind = header.command();
        match kind {
            CommandType::PpmReset => {
                let (_, taken) = ppm_reset::Args::decode(bytes)?;
                Ok((Command::PpmReset, taken))
            },
            CommandType::Cancel => {
                let (_, taken) = cancel::Args::decode(bytes)?;
                Ok((Command::Cancel, taken))
            },
            CommandType::AckCcCi => {
                let (args, taken) = ack_cc_ci::Args::decode(bytes)?;
                Ok((Command::AckCcCi(args), taken))
            },
            CommandType::SetNotificationEnable => {
                let (args, taken) = set_notification_enable::Args::decode(bytes)?;
                Ok((Command::SetNotificationEnable(args), taken))
            },
            CommandType::GetCapability => {
                let (_, taken) = get_capability::Args::decode(bytes)?;
                Ok((Command::GetCapability, taken))
            },
            _ => Err(
                DecodeError::UnexpectedVariant {
                    allowed: Allowed::PpmCommand,
                    found: u8::from(kind) as u32,
                },
            ),
        }
    }

    /// Decodes a command, header first.
    pub fn decode(bytes: &[u8]) -> (decoded: Result<(Self, usize), DecodeError>)
        ensures
            decoded == Command::decoding(bytes@),
    {
        let (header, taken) = CommandHeader::decode(bytes)?;
        let (command, more) = Command::decode_with(header, wire::rest(bytes, taken))?;
        Ok((command, taken + more))
    }

    /// What follows the header of a command decodes to the command,
    /// whatever follows it, when the decoder is told the command's type.
    pub proof fn decoding_of_encoding(command: Command, tail: Seq<u8>)
        ensures
            Command::decoding_with(command.kind(), command.encoding() + tail) == Ok::<
                (Command, usize),
                DecodeError,
            >((command, (COMMAND_LEN - HEADER_LEN) as usize)),
            command.encoding().len() == COMMAND_LEN - HEADER_LEN,
    {
        match command {
            Command::PpmReset => {
                ppm_reset::Args::decoding_of_encoding(ppm_reset::Args, tail);
            },
            Command::Cancel => {
                cancel::Args::decoding_of_encoding(cancel::Args, tail);
            },
            Command::AckCcCi(args) => {
                ack_cc_ci::Args::decoding_of_encoding(args, tail);
            },
            Command::SetNotificationEnable(args) => {
                set_notification_enable::Args::decoding_of_encoding(args, tail);
            },
            Command::GetCapability => {
                get_capability::Args::decoding_of_encoding(get_capability::Args, tail);
            },
        }
    }
}

/// PPM command response data
#[derive(Copy, Clone, Debug, PartialEq, Eq)]
pub enum ResponseData {
    /// Response data of GET_CAPABILITY
    GetCapability(get_capability::ResponseData),
}

impl ResponseData {
    /// The type of the command that the data responds to.
    pub open spec fn kind(self) -> CommandType {
        match self {
            ResponseData::GetCapability(_) => CommandType::GetCapability,
        }
    }

    /// The response data on the wire.
    pub open spec fn encoding(self) -> Seq<u8> {
        match self {
            ResponseData::GetCapability(data) => data.encoding(),
        }
    }

    /// What decoding the data that responds to a command of type `kind`
    /// from the head of `bytes` yields.
    pub open spec fn decoding_with(kind: CommandType, bytes: Seq<u8>) -> Result<
        (ResponseData, usize),
        DecodeError,
    > {
        match kind {
            CommandType::GetCapability => match get_capability::ResponseData::decoding(bytes) {
                Ok((data, taken)) => Ok((ResponseData::GetCapability(data), taken)),
                Err(error) => Err(error),
            },
            _ => Err(
                DecodeError::UnexpectedVariant {
                    allowed: Allowed::PpmResponse,
                    found: kind.opcode() as u32,
                },
            ),
        }
    }

    /// Whether the data keeps its values on the wire.
    pub open spec fn fits(self) -> bool {
        match self {
            ResponseData::GetCapability(data) => data.optional_features.0
                >> get_capability::OPTIONAL_FEATURES_BITS == 0,
        }
    }

    /// Returns the type of the command that the data responds to
    pub fn command_type(&self) -> (kind: CommandType)
        ensures
            kind == self.kind(),
    {
        match self {
            ResponseData::GetCapability(_) => CommandType::GetCapability,
        }
    }

    /// Appends the response data.
    pub fn encode(&self, out: &mut Vec<u8>)
        ensures
            final(out)@ == old(out)@ + self.encoding(),
    {
        match self {
            ResponseData::GetCapability(data) => data.encode(out),
        }
    }

    /// Decodes the data that responds to a command of type `command_type`.
    ///
    /// Fails with `UnexpectedVariant` if no PPM command of that type has
    /// response data.
    pub fn decode_with(command_type: CommandType, bytes: &[u8]) -> (decoded: Result<
        (Self, usize),
        DecodeError,
    >)
        ensures
            decoded == ResponseData::decoding_with(command_type, bytes@),
    {
        match command_type {
            CommandType::GetCapability => {
                let (data, taken) = get_capability::ResponseData::decode(bytes)?;
                Ok((ResponseData::GetCapability(data), taken))
            },
            _ => Err(
                DecodeError::UnexpectedVariant {
                    allowed: Allowed::PpmResponse,
                    found: u8::from(command_type) as u32,
                },
            ),
        }
    }

    /// Response data that fits decodes from its encoding, whatever follows
    /// it, when the decoder is told the type of the command.
    pub proof fn decoding_of_encoding(response: ResponseData, tail: Seq<u8>)
        requires
            response.fits(),
        ensures
            ResponseData::decoding_with(response.kind(), response.encoding() + tail) == Ok::<
                (ResponseData, usize),
                DecodeError,
            >((response, response.encoding().len() as usize)),
            response.encoding().len() <= 16,
    {
        match response {
            ResponseData::GetCapability(data) => {
                get_capability::ResponseData::decoding_of_encoding(data, tail);
                assert(data.encoding().len() == 16);
            },
        }
    }
}

/// PPM command response
#[derive(Copy, Clone, Debug)]
pub struct Response<T: PortId> {
    /// CCI is produced by every command
    pub cci: cci::Cci<T>,
    /// Response data for the command
    pub data: Option<ResponseData>,
}

/// A PPM response that reports ports of all controllers.
pub type GlobalResponse = Response<GlobalPortId>;

/// A PPM response that reports ports of one controller.
pub type LocalResponse = Response<LocalPortId>;

} // verus!
