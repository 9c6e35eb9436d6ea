//! Types for the SET_NOTIFICATION_ENABLE command.
use crate::bits;
use crate::ucsi::COMMAND_LEN;
use crate::ucsi::HEADER_LEN;
use crate::wire;
use crate::wire::DecodeError;
use vstd::prelude::*;
use vstd::std_specs::convert::FromSpecImpl;

verus! {

/// Data length for the SET_NOTIFICATION_ENABLE command response
pub const RESPONSE_DATA_LEN: u8 = 0;

/// Zero bytes that follow the notification word
pub const COMMAND_PADDING: usize = COMMAND_LEN - HEADER_LEN - 4;

/// Bit of the notification word that holds `cmd_complete`.
pub const CMD_COMPLETE_BIT: u32 = 0;

/// Bit of the notification word that holds `external_supply_change`.
pub const EXTERNAL_SUPPLY_CHANGE_BIT: u32 = 1;

/// Bit of the notification word that holds `power_op_mode_change`.
pub const POWER_OP_MODE_CHANGE_BIT: u32 = 2;

/// Bit of the notification word that holds `attention`.
pub const ATTENTION_BIT: u32 = 3;

/// Bit of the notification word that holds `fw_update_req`.
pub const FW_UPDATE_REQ_BIT: u32 = 4;

/// Bit of the notification word that holds `provider_caps_change`.
pub const PROVIDER_CAPS_CHANGE_BIT: u32 = 5;

/// Bit of the notification word that holds `power_lvl_change`.
pub const POWER_LVL_CHANGE_BIT: u32 = 6;

/// Bit of the notification word that holds `pd_reset_complete`.
pub const PD_RESET_COMPLETE_BIT: u32 = 7;

/// Bit of the notification word that holds `cam_change`.
pub const CAM_CHANGE_BIT: u32 = 8;

/// Bit of the notification word that holds `battery_charge_change`.
pub const BATTERY_CHARGE_CHANGE_BIT: u32 = 9;

/// Bit of the notification word that holds `security_req`.
pub const SECURITY_REQ_BIT: u32 = 10;

/// Bit of the notification word that holds `connector_partner_change`.
pub const CONNECTOR_PARTNER_CHANGE_BIT: u32 = 11;

/// Bit of the notification word that holds `power_dir_change`.
pub const POWER_DIR_CHANGE_BIT: u32 = 12;

/// Bit of the notification word that holds `set_retimer_mode`.
pub const SET_RETIMER_MODE_BIT: u32 = 13;

/// Bit of the notification word that holds `connect_change`.
pub const CONNECT_CHANGE_BIT: u32 = 14;

/// Bit of the notification word that holds `error`.
pub const ERROR_BIT: u32 = 15;

/// Bit of the notification word that holds `sink_path_change`.
pub const SINK_PATH_CHANGE_BIT: u32 = 16;

/// Notifications that SET_NOTIFICATION_ENABLE switches on, see UCSI spec 6.5.5
#[derive(Copy, Clone, Debug, PartialEq, Eq)]
pub struct NotificationEnable(pub u32);

impl NotificationEnable {
    /// Returns whether command completion notifies
    pub fn cmd_complete(&self) -> (on: bool)
        ensures
            on == bits::flag(self.0, CMD_COMPLETE_BIT),
    {
        bits::get_flag(self.0, CMD_COMPLETE_BIT)
    }

    /// Sets whether command completion notifies
    pub fn set_cmd_complete(&mut self, value: bool) -> (this: &mut Self)
        ensures
            this.0 == bits::with_flag(old(self).0, CMD_COMPLETE_BIT, value),
            *final(this) == *final(self),
    {
        self.0 = bits::set_flag(self.0, CMD_COMPLETE_BIT, value);
        self
    }

    /// Returns whether a change of the external supply notifies
    pub fn external_supply_change(&self) -> (on: bool)
        ensures
            on == bits::flag(self.0, EXTERNAL_SUPPLY_CHANGE_BIT),
    {
        bits::get_flag(self.0, EXTERNAL_SUPPLY_CHANGE_BIT)
    }

    /// Sets whether a change of the external supply notifies
    pub fn set_external_supply_change(&mut self, value: bool) -> (this: &mut Self)
        ensures
            this.0 == bits::with_flag(old(self).0, EXTERNAL_SUPPLY_CHANGE_BIT, value),
            *final(this) == *final(self),
    {
        self.0 = bits::set_flag(self.0, EXTERNAL_SUPPLY_CHANGE_BIT, value);
        self
    }

    /// Returns whether a change of the power operation mode notifies
    pub fn power_op_mode_change(&self) -> (on: bool)
        ensures
            on == bits::flag(self.0, POWER_OP_MODE_CHANGE_BIT),
    {
        bits::get_flag(self.0, POWER_OP_MODE_CHANGE_BIT)
    }

    /// Sets whether a change of the power operation mode notifies
    pub fn set_power_op_mode_change(&mut self, value: bool) -> (this: &mut Self)
        ensures
            this.0 == bits::with_flag(old(self).0, POWER_OP_MODE_CHANGE_BIT, value),
            *final(this) == *final(self),
    {
        self.0 = bits::set_flag(self.0, POWER_OP_MODE_CHANGE_BIT, value);
        self
    }

    /// Returns whether an attention message notifies
    pub fn attention(&self) -> (on: bool)
        ensures
            on == bits::flag(self.0, ATTENTION_BIT),
    {
        bits::get_flag(self.0, ATTENTION_BIT)
    }

    /// Sets whether an attention message notifies
    pub fn set_attention(&mut self, value: bool) -> (this: &mut Self)
        ensures
            this.0 == bits::with_flag(old(self).0, ATTENTION_BIT, value),
            *final(this) == *final(self),
    {
        self.0 = bits::set_flag(self.0, ATTENTION_BIT, value);
        self
    }

    /// Returns whether a firmware update request notifies
    pub fn fw_update_req(&self) -> (on: bool)
        ensures
            on == bits::flag(self.0, FW_UPDATE_REQ_BIT),
    {
        bits::get_flag(self.0, FW_UPDATE_REQ_BIT)
    }

    /// Sets whether a firmware update request notifies
    pub fn set_fw_update_req(&mut self, value: bool) -> (this: &mut Self)
        ensures
            this.0 == bits::with_flag(old(self).0, FW_UPDATE_REQ_BIT, value),
            *final(this) == *final(self),
    {
        self.0 = bits::set_flag(self.0, FW_UPDATE_REQ_BIT, value);
        self
    }

    /// Returns whether a change of the provider capabilities notifies
    pub fn provider_caps_change(&self) -> (on: bool)
        ensures
            on == bits::flag(self.0, PROVIDER_CAPS_CHANGE_BIT),
    {
        bits::get_flag(self.0, PROVIDER_CAPS_CHANGE_BIT)
    }

    /// Sets whether a change of the provider capabilities notifies
    pub fn set_provider_caps_change(&mut self, value: bool) -> (this: &mut Self)
        ensures
            this.0 == bits::with_flag(old(self).0, PROVIDER_CAPS_CHANGE_BIT, value),
            *final(this) == *final(self),
    {
        self.0 = bits::set_flag(self.0, PROVIDER_CAPS_CHANGE_BIT, value);
        self
    }

    /// Returns whether a change of the negotiated power level notifies
    pub fn power_lvl_change(&self) -> (on: bool)
        ensures
            on == bits::flag(self.0, POWER_LVL_CHANGE_BIT),
    {
        bits::get_flag(self.0, POWER_LVL_CHANGE_BIT)
    }

    /// Sets whether a change of the negotiated power level notifies
    pub fn set_power_lvl_change(&mut self, value: bool) -> (this: &mut Self)
        ensures
            this.0 == bits::with_flag(old(self).0, POWER_LVL_CHANGE_BIT, value),
            *final(this) == *final(self),
    {
        self.0 = bits::set_flag(self.0, POWER_LVL_CHANGE_BIT, value);
        self
    }

    /// Returns whether the completion of a PD reset notifies
    pub fn pd_reset_complete(&self) -> (on: bool)
        ensures
            on == bits::flag(self.0, PD_RESET_COMPLETE_BIT),
    {
        bits::get_flag(self.0, PD_RESET_COMPLETE_BIT)
    }

    /// Sets whether the completion of a PD reset notifies
    pub fn set_pd_reset_complete(&mut self, value: bool) -> (this: &mut Self)
        ensures
            this.0 == bits::with_flag(old(self).0, PD_RESET_COMPLETE_BIT, value),
            *final(this) == *final(self),
    {
        self.0 = bits::set_flag(self.0, PD_RESET_COMPLETE_BIT, value);
        self
    }

    /// Returns whether a change of the supported alternate modes notifies
    pub fn cam_change(&self) -> (on: bool)
        ensures
            on == bits::flag(self.0, CAM_CHANGE_BIT),
    {
        bits::get_flag(self.0, CAM_CHANGE_BIT)
    }

    /// Sets whether a change of the supported alternate modes notifies
    pub fn set_cam_change(&mut self, value: bool) -> (this: &mut Self)
        ensures
            this.0 == bits::with_flag(old(self).0, CAM_CHANGE_BIT, value),
            *final(this) == *final(self),
    {
        self.0 = bits::set_flag(self.0, CAM_CHANGE_BIT, value);
        self
    }

    /// Returns whether a change of the battery charging status notifies
    pub fn battery_charge_change(&self) -> (on: bool)
        ensures
            on == bits::flag(self.0, BATTERY_CHARGE_CHANGE_BIT),
    {
        bits::get_flag(self.0, BATTERY_CHARGE_CHANGE_BIT)
    }

    /// Sets whether a change of the battery charging status notifies
    pub fn set_battery_charge_change(&mut self, value: bool) -> (this: &mut Self)
        ensures
            this.0 == bits::with_flag(old(self).0, BATTERY_CHARGE_CHANGE_BIT, value),
            *final(this) == *final(self),
    {
        self.0 = bits::set_flag(self.0, BATTERY_CHARGE_CHANGE_BIT, value);
        self
    }

    /// Returns whether a security request notifies
    pub fn security_req(&self) -> (on: bool)
        ensures
            on == bits::flag(self.0, SECURITY_REQ_BIT),
    {
        bits::get_flag(self.0, SECURITY_REQ_BIT)
    }

    /// Sets whether a security request notifies
    pub fn set_security_req(&mut self, value: bool) -> (this: &mut Self)
        ensures
            this.0 == bits::with_flag(old(self).0, SECURITY_REQ_BIT, value),
            *final(this) == *final(self),
    {
        self.0 = bits::set_flag(self.0, SECURITY_REQ_BIT, value);
        self
    }

    /// Returns whether a change of the connector partner notifies
    pub fn connector_partner_change(&self) -> (on: bool)
        ensures
            on == bits::flag(self.0, CONNECTOR_PARTNER_CHANGE_BIT),
    {
        bits::get_flag(self.0, CONNECTOR_PARTNER_CHANGE_BIT)
    }

    /// Sets whether a change of the connector partner notifies
    pub fn set_connector_partner_change(&mut self, value: bool) -> (this: &mut Self)
        ensures
            this.0 == bits::with_flag(old(self).0, CONNECTOR_PARTNER_CHANGE_BIT, value),
            *final(this) == *final(self),
    {
        self.0 = bits::set_flag(self.0, CONNECTOR_PARTNER_CHANGE_BIT, value);
        self
    }

    /// Returns whether a change of the power direction notifies
    pub fn power_dir_change(&self) -> (on: bool)
        ensures
            on == bits::flag(self.0, POWER_DIR_CHANGE_BIT),
    {
        bits::get_flag(self.0, POWER_DIR_CHANGE_BIT)
    }

    /// Sets whether a change of the power direction notifies
    pub fn set_power_dir_change(&mut self, value: bool) -> (this: &mut Self)
        ensures
            this.0 == bits::with_flag(old(self).0, POWER_DIR_CHANGE_BIT, value),
            *final(this) == *final(self),
    {
        self.0 = bits::set_flag(self.0, POWER_DIR_CHANGE_BIT, value);
        self
    }

    /// Returns whether a change of the retimer mode notifies
    pub fn set_retimer_mode(&self) -> (on: bool)
        ensures
            on == bits::flag(self.0, SET_RETIMER_MODE_BIT),
    {
        bits::get_flag(self.0, SET_RETIMER_MODE_BIT)
    }

    /// Sets whether a change of the retimer mode notifies
    pub fn set_set_retimer_mode(&mut self, value: bool) -> (this: &mut Self)
        ensures
            this.0 == bits::with_flag(old(self).0, SET_RETIMER_MODE_BIT, value),
            *final(this) == *final(self),
    {
        self.0 = bits::set_flag(self.0, SET_RETIMER_MODE_BIT, value);
        self
    }

    /// Returns whether a connect or disconnect notifies
    pub fn connect_change(&self) -> (on: bool)
        ensures
            on == bits::flag(self.0, CONNECT_CHANGE_BIT),
    {
        bits::get_flag(self.0, CONNECT_CHANGE_BIT)
    }

    /// Sets whether a connect or disconnect notifies
    pub fn set_connect_change(&mut self, value: bool) -> (this: &mut Self)
        ensures
            this.0 == bits::with_flag(old(self).0, CONNECT_CHANGE_BIT, value),
            *final(this) == *final(self),
    {
        self.0 = bits::set_flag(self.0, CONNECT_CHANGE_BIT, value);
        self
    }

    /// Returns whether an error notifies
    pub fn error(&self) -> (on: bool)
        ensures
            on == bits::flag(self.0, ERROR_BIT),
    {
        bits::get_flag(self.0, ERROR_BIT)
    }

    /// Sets whether an error notifies
    pub fn set_error(&mut self, value: bool) -> (this: &mut Self)
        ensures
            this.0 == bits::with_flag(old(self).0, ERROR_BIT, value),
            *final(this) == *final(self),
    {
        self.0 = bits::set_flag(self.0, ERROR_BIT, value);
        self
    }

    /// Returns whether a change of the sink path notifies
    pub fn sink_path_change(&self) -> (on: bool)
        ensures
            on == bits::flag(self.0, SINK_PATH_CHANGE_BIT),
    {
        bits::get_flag(self.0, SINK_PATH_CHANGE_BIT)
    }

    /// Sets whether a change of the sink path notifies
    pub fn set_sink_path_change(&mut self, value: bool) -> (this: &mut Self)
        ensures
            this.0 == bits::with_flag(old(self).0, SINK_PATH_CHANGE_BIT, value),
            *final(this) == *final(self),
    {
        self.0 = bits::set_flag(self.0, SINK_PATH_CHANGE_BIT, value);
        self
    }

    /// Returns true if no notification is enabled
    pub fn is_empty(&self) -> (empty: bool)
        ensures
            empty == (self.0 == 0),
    {
        self.0 == 0
    }

    /// Returns the union of two notification enable sets
    pub fn union(&self, other: &Self) -> (both: Self)
        ensures
            both.0 == self.0 | other.0,
    {
        NotificationEnable(self.0 | other.0)
    }

    /// Returns the intersection of two notification enable sets
    pub fn intersection(&self, other: &Self) -> (common: Self)
        ensures
            common.0 == self.0 & other.0,
    {
        NotificationEnable(self.0 & other.0)
    }
}

impl From<u32> for NotificationEnable {
    fn from(raw: u32) -> (value: Self) {
        NotificationEnable(raw)
    }
}

impl FromSpecImpl<u32> for NotificationEnable {
    open spec fn obeys_from_spec() -> bool {
        true
    }

    open spec fn from_spec(raw: u32) -> Self {
        NotificationEnable(raw)
    }
}

impl From<NotificationEnable> for u32 {
    fn from(value: NotificationEnable) -> (raw: u32) {
        value.0
    }
}

impl FromSpecImpl<NotificationEnable> for u32 {
    open spec fn obeys_from_spec() -> bool {
        true
    }

    open spec fn from_spec(value: NotificationEnable) -> u32 {
        value.0
    }
}

impl Default for NotificationEnable {
    fn default() -> (value: Self)
        ensures
            value.0 == 0,
    {
        NotificationEnable(0)
    }
}

impl NotificationEnable {
    /// The notification word on the wire: its 4 bytes, low byte first.
    pub open spec fn encoding(self) -> Seq<u8> {
        wire::bytes_of_u32(self.0)
    }

    /// What decoding the notification word from the head of `bytes` yields.
    pub open spec fn decoding(bytes: Seq<u8>) -> Result<(NotificationEnable, usize), DecodeError> {
        match wire::reading_u32(bytes) {
            Err(error) => Err(error),
            Ok((raw, taken)) => Ok((NotificationEnable(raw), taken)),
        }
    }

    /// Appends the notification word.
    pub fn encode(&self, out: &mut Vec<u8>)
        ensures
            final(out)@ == old(out)@ + self.encoding(),
    {
        wire::write_u32(out, self.0);
    }

    /// Decodes the notification word.
    pub fn decode(bytes: &[u8]) -> (decoded: Result<(Self, usize), DecodeError>)
        ensures
            decoded == NotificationEnable::decoding(bytes@),
    {
        let (raw, taken) = wire::read_u32(bytes)?;
        Ok((NotificationEnable(raw), taken))
    }
}

/// Set notification enable command
#[derive(Debug, Clone, Copy, Default, PartialEq, Eq)]
pub struct Args {
    /// Notification enable flags
    pub notification_enable: NotificationEnable,
}

impl Args {
    /// The arguments on the wire: the notification word, then padding.
    pub open spec fn encoding(self) -> Seq<u8> {
        self.notification_enable.encoding() + wire::zeros(COMMAND_PADDING as nat)
    }

    /// What decoding the arguments from the head of `bytes` yields.
    pub open spec fn decoding(bytes: Seq<u8>) -> Result<(Args, usize), DecodeError> {
        match NotificationEnable::decoding(bytes) {
            Err(error) => Err(error),
            Ok((notification_enable, taken)) => match wire::reading_bytes(
                bytes.skip(taken as int),
                COMMAND_PADDING,
            ) {
                Err(error) => Err(error),
                Ok((_, padding)) => Ok((Args { notification_enable }, (taken + padding) as usize)),
            },
        }
    }

    /// Appends the arguments: the notification word, then padding.
    pub fn encode(&self, out: &mut Vec<u8>)
        ensures
            final(out)@ == old(out)@ + self.encoding(),
    {
        self.notification_enable.encode(out);
        wire::write_padding(out, COMMAND_PADDING);
        assert(out@ =~= old(out)@ + self.encoding());
    }

    /// Decodes the arguments: the notification word, then padding that is read over.
    pub fn decode(bytes: &[u8]) -> (decoded: Result<(Self, usize), DecodeError>)
        ensures
            decoded == Args::decoding(bytes@),
    {
        let (notification_enable, taken) = NotificationEnable::decode(bytes)?;
        let padding = wire::read_padding(wire::rest(bytes, taken), COMMAND_PADDING)?;
        Ok((Args { notification_enable }, taken + padding))
    }

    /// The encoded arguments decode to the arguments, whatever follows them.
    pub proof fn decoding_of_encoding(args: Args, tail: Seq<u8>)
        ensures
            Args::decoding(args.encoding() + tail) == Ok::<(Args, usize), DecodeError>(
                (args, (COMMAND_LEN - HEADER_LEN) as usize),
            ),
            (args.encoding() + tail).skip(COMMAND_LEN - HEADER_LEN) == tail,
    {
        let bytes = args.encoding() + tail;
        let after = wire::zeros(COMMAND_PADDING as nat) + tail;
        assert(bytes =~= wire::bytes_of_u32(args.notification_enable.0) + after);
        wire::u32_of_its_bytes(args.notification_enable.0, after);
        assert(bytes.skip(COMMAND_LEN - HEADER_LEN) =~= tail);
    }
}

} // verus!
