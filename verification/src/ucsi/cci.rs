//! The CCI register: command status and connector change indicator,
//! see UCSI spec 4.2.
//!
//! The register reports; it does not check. Any combination of flags can be
//! set, and which combinations are sent is up to the code that reports.
use crate::bits;
use crate::PortId;
use vstd::prelude::*;
use vstd::std_specs::convert::FromSpec;
use vstd::std_specs::convert::FromSpecImpl;
use vstd::std_specs::convert::IntoSpec;

verus! {

/// Bit of the CCI register that holds `eom`.
pub const EOM_BIT: u32 = 0;

/// Lowest bit of `connector_change` in the CCI register.
pub const CONNECTOR_CHANGE_LSB: u32 = 1;

/// Width in bits of `connector_change`.
pub const CONNECTOR_CHANGE_WIDTH: u32 = 7;

/// Lowest bit of `data_len` in the CCI register.
pub const DATA_LEN_LSB: u32 = 8;

/// Width in bits of `data_len`.
pub const DATA_LEN_WIDTH: u32 = 8;

/// Bit of the CCI register that holds `vendor_message`.
pub const VENDOR_MESSAGE_BIT: u32 = 16;

/// Bit of the CCI register that holds `security_req`.
pub const SECURITY_REQ_BIT: u32 = 23;

/// Bit of the CCI register that holds `fw_update_req`.
pub const FW_UPDATE_REQ_BIT: u32 = 24;

/// Bit of the CCI register that holds `not_supported`.
pub const NOT_SUPPORTED_BIT: u32 = 25;

/// Bit of the CCI register that holds `cancel_complete`.
pub const CANCEL_COMPLETE_BIT: u32 = 26;

/// Bit of the CCI register that holds `reset_complete`.
pub const RESET_COMPLETE_BIT: u32 = 27;

/// Bit of the CCI register that holds `busy`.
pub const BUSY_BIT: u32 = 28;

/// Bit of the CCI register that holds `ack_command`.
pub const ACK_COMMAND_BIT: u32 = 29;

/// Bit of the CCI register that holds `error`.
pub const ERROR_BIT: u32 = 30;

/// Bit of the CCI register that holds `cmd_complete`.
pub const CMD_COMPLETE_BIT: u32 = 31;

/// The CCI register, over the kind of port identifier that it reports
/// connector changes with.
#[derive(Copy, Debug, PartialEq, Eq)]
pub struct Cci<T: PortId> {
    raw: u32,
    _marker: core::marker::PhantomData<T>,
}

impl<T: PortId> Clone for Cci<T> {
    fn clone(&self) -> (copy: Self)
        ensures
            copy == *self,
    {
        *self
    }
}

impl<T: PortId> View for Cci<T> {
    type V = u32;

    /// The register's 32 bits.
    closed spec fn view(&self) -> u32 {
        self.raw
    }
}

impl<T: PortId> Cci<T> {
    /// Returns EOM status
    pub fn eom(&self) -> (on: bool)
        ensures
            on == bits::flag(self@, EOM_BIT),
    {
        bits::get_flag(self.raw, EOM_BIT)
    }

    /// Set EOM status
    pub fn set_eom(&mut self, eom: bool) -> (this: &mut Self)
        ensures
            this@ == bits::with_flag(old(self)@, EOM_BIT, eom),
            *final(this) == *final(self),
    {
        self.raw = bits::set_flag(self.raw, EOM_BIT, eom);
        self
    }

    /// Returns connector change port
    pub fn connector_change(&self) -> (port: T)
        ensures
            port == T::from_spec(
                bits::field(self@, CONNECTOR_CHANGE_LSB, CONNECTOR_CHANGE_WIDTH) as u8,
            ),
    {
        proof {
            T::conversions_agree();
        }
        T::from(bits::get_field_u8(self.raw, CONNECTOR_CHANGE_LSB, CONNECTOR_CHANGE_WIDTH))
    }

    /// Set connector change port; only the low seven bits of its number are kept
    pub fn set_connector_change(&mut self, port: T) -> (this: &mut Self)
        ensures
            this@ == bits::with_field(
                old(self)@,
                CONNECTOR_CHANGE_LSB,
                CONNECTOR_CHANGE_WIDTH,
                port.into_spec() as u32,
            ),
            *final(this) == *final(self),
    {
        proof {
            T::conversions_agree();
        }
        let number: u8 = port.into();
        self.raw = bits::set_field(
            self.raw,
            CONNECTOR_CHANGE_LSB,
            CONNECTOR_CHANGE_WIDTH,
            number as u32,
        );
        self
    }

    /// Returns data length
    pub fn data_len(&self) -> (len: usize)
        ensures
            len == bits::field(self@, DATA_LEN_LSB, DATA_LEN_WIDTH),
    {
        bits::get_field_u8(self.raw, DATA_LEN_LSB, DATA_LEN_WIDTH) as usize
    }

    /// Set data length; only its low eight bits are kept
    pub fn set_data_len(&mut self, len: usize) -> (this: &mut Self)
        ensures
            this@ == bits::with_field(old(self)@, DATA_LEN_LSB, DATA_LEN_WIDTH, (len % 256) as u32),
            *final(this) == *final(self),
    {
        self.raw = bits::set_field(self.raw, DATA_LEN_LSB, DATA_LEN_WIDTH, (len % 256) as u32);
        self
    }

    /// Returns vendor message status
    pub fn vendor_message(&self) -> (on: bool)
        ensures
            on == bits::flag(self@, VENDOR_MESSAGE_BIT),
    {
        bits::get_flag(self.raw, VENDOR_MESSAGE_BIT)
    }

    /// Set vendor message status
    pub fn set_vendor_message(&mut self, vendor_message: bool) -> (this: &mut Self)
        ensures
            this@ == bits::with_flag(old(self)@, VENDOR_MESSAGE_BIT, vendor_message),
            *final(this) == *final(self),
    {
        self.raw = bits::set_flag(self.raw, VENDOR_MESSAGE_BIT, vendor_message);
        self
    }

    /// Returns security request status
    pub fn security_req(&self) -> (on: bool)
        ensures
            on == bits::flag(self@, SECURITY_REQ_BIT),
    {
        bits::get_flag(self.raw, SECURITY_REQ_BIT)
    }

    /// Set security request status
    pub fn set_security_req(&mut self, security_req: bool) -> (this: &mut Self)
        ensures
            this@ == bits::with_flag(old(self)@, SECURITY_REQ_BIT, security_req),
            *final(this) == *final(self),
    {
        self.raw = bits::set_flag(self.raw, SECURITY_REQ_BIT, security_req);
        self
    }

    /// Returns firmware update request status
    pub fn fw_update_req(&self) -> (on: bool)
        ensures
            on == bits::flag(self@, FW_UPDATE_REQ_BIT),
    {
        bits::get_flag(self.raw, FW_UPDATE_REQ_BIT)
    }

    /// Set firmware update request status
    pub fn set_fw_update_req(&mut self, fw_update_req: bool) -> (this: &mut Self)
        ensures
            this@ == bits::with_flag(old(self)@, FW_UPDATE_REQ_BIT, fw_update_req),
            *final(this) == *final(self),
    {
        self.raw = bits::set_flag(self.raw, FW_UPDATE_REQ_BIT, fw_update_req);
        self
    }

    /// Returns command not supported status
    pub fn not_supported(&self) -> (on: bool)
        ensures
            on == bits::flag(self@, NOT_SUPPORTED_BIT),
    {
        bits::get_flag(self.raw, NOT_SUPPORTED_BIT)
    }

    /// Set command not supported status
    pub fn set_not_supported(&mut self, not_supported: bool) -> (this: &mut Self)
        ensures
            this@ == bits::with_flag(old(self)@, NOT_SUPPORTED_BIT, not_supported),
            *final(this) == *final(self),
    {
        self.raw = bits::set_flag(self.raw, NOT_SUPPORTED_BIT, not_supported);
        self
    }

    /// Returns cancel complete status
    pub fn cancel_complete(&self) -> (on: bool)
        ensures
            on == bits::flag(self@, CANCEL_COMPLETE_BIT),
    {
        bits::get_flag(self.raw, CANCEL_COMPLETE_BIT)
    }

    /// Set cancel complete status
    pub fn set_cancel_complete(&mut self, cancel_complete: bool) -> (this: &mut Self)
        ensures
            this@ == bits::with_flag(old(self)@, CANCEL_COMPLETE_BIT, cancel_complete),
            *final(this) == *final(self),
    {
        self.raw = bits::set_flag(self.raw, CANCEL_COMPLETE_BIT, cancel_complete);
        self
    }

    /// Returns PPM reset complete status
    pub fn reset_complete(&self) -> (on: bool)
        ensures
            on == bits::flag(self@, RESET_COMPLETE_BIT),
    {
        bits::get_flag(self.raw, RESET_COMPLETE_BIT)
    }

    /// Set PPM reset complete status
    pub fn set_reset_complete(&mut self, reset_complete: bool) -> (this: &mut Self)
        ensures
            this@ == bits::with_flag(old(self)@, RESET_COMPLETE_BIT, reset_complete),
            *final(this) == *final(self),
    {
        self.raw = bits::set_flag(self.raw, RESET_COMPLETE_BIT, reset_complete);
        self
    }

    /// Returns busy status
    pub fn busy(&self) -> (on: bool)
        ensures
            on == bits::flag(self@, BUSY_BIT),
    {
        bits::get_flag(self.raw, BUSY_BIT)
    }

    /// Set busy status
    pub fn set_busy(&mut self, busy: bool) -> (this: &mut Self)
        ensures
            this@ == bits::with_flag(old(self)@, BUSY_BIT, busy),
            *final(this) == *final(self),
    {
        self.raw = bits::set_flag(self.raw, BUSY_BIT, busy);
        self
    }

    /// Returns acknowledgment command status
    pub fn ack_command(&self) -> (on: bool)
        ensures
            on == bits::flag(self@, ACK_COMMAND_BIT),
    {
        bits::get_flag(self.raw, ACK_COMMAND_BIT)
    }

    /// Set acknowledgment command status
    pub fn set_ack_command(&mut self, ack_command: bool) -> (this: &mut Self)
        ensures
            this@ == bits::with_flag(old(self)@, ACK_COMMAND_BIT, ack_command),
            *final(this) == *final(self),
    {
        self.raw = bits::set_flag(self.raw, ACK_COMMAND_BIT, ack_command);
        self
    }

    /// Returns command error status
    pub fn error(&self) -> (on: bool)
        ensures
            on == bits::flag(self@, ERROR_BIT),
    {
        bits::get_flag(self.raw, ERROR_BIT)
    }

    /// Set command error status
    pub fn set_error(&mut self, error: bool) -> (this: &mut Self)
        ensures
            this@ == bits::with_flag(old(self)@, ERROR_BIT, error),
            *final(this) == *final(self),
    {
        self.raw = bits::set_flag(self.raw, ERROR_BIT, error);
        self
    }

    /// Returns command complete status
    pub fn cmd_complete(&self) -> (on: bool)
        ensures
            on == bits::flag(self@, CMD_COMPLETE_BIT),
    {
        bits::get_flag(self.raw, CMD_COMPLETE_BIT)
    }

    /// Set command complete status
    pub fn set_cmd_complete(&mut self, cmd_complete: bool) -> (this: &mut Self)
        ensures
            this@ == bits::with_flag(old(self)@, CMD_COMPLETE_BIT, cmd_complete),
            *final(this) == *final(self),
    {
        self.raw = bits::set_flag(self.raw, CMD_COMPLETE_BIT, cmd_complete);
        self
    }

    /// Create a new CCI with command complete set
    pub fn new_cmd_complete() -> (cci: Self)
        ensures
            cci@ == bits::with_flag(0, CMD_COMPLETE_BIT, true),
    {
        Cci { raw: bits::set_flag(0, CMD_COMPLETE_BIT, true), _marker: core::marker::PhantomData }
    }

    /// Create a new CCI with busy set
    pub fn new_busy() -> (cci: Self)
        ensures
            cci@ == bits::with_flag(0, BUSY_BIT, true),
    {
        Cci { raw: bits::set_flag(0, BUSY_BIT, true), _marker: core::marker::PhantomData }
    }

    /// Create a new CCI with reset complete set
    pub fn new_reset_complete() -> (cci: Self)
        ensures
            cci@ == bits::with_flag(0, RESET_COMPLETE_BIT, true),
    {
        Cci { raw: bits::set_flag(0, RESET_COMPLETE_BIT, true), _marker: core::marker::PhantomData }
    }

    /// Create a new CCI with error set
    pub fn new_error() -> (cci: Self)
        ensures
            cci@ == bits::with_flag(0, ERROR_BIT, true),
    {
        Cci { raw: bits::set_flag(0, ERROR_BIT, true), _marker: core::marker::PhantomData }
    }

    /// The register made from 32 bits holds those bits.
    pub proof fn view_of_from(raw: u32)
        ensures
            <Cci<T> as FromSpec<u32>>::from_spec(raw)@ == raw,
    {
    }
}

impl<T: PortId> From<u32> for Cci<T> {
    fn from(raw: u32) -> (cci: Self)
        ensures
            cci@ == raw,
    {
        Cci { raw, _marker: core::marker::PhantomData }
    }
}

impl<T: PortId> FromSpecImpl<u32> for Cci<T> {
    open spec fn obeys_from_spec() -> bool {
        true
    }

    closed spec fn from_spec(raw: u32) -> Self {
        Cci { raw, _marker: core::marker::PhantomData }
    }
}

impl<T: PortId> From<Cci<T>> for u32 {
    fn from(cci: Cci<T>) -> (raw: u32) {
        cci.raw
    }
}

impl<T: PortId> FromSpecImpl<Cci<T>> for u32 {
    open spec fn obeys_from_spec() -> bool {
        true
    }

    open spec fn from_spec(cci: Cci<T>) -> u32 {
        cci@
    }
}

impl<T: PortId> Default for Cci<T> {
    fn default() -> (cci: Self)
        ensures
            cci@ == 0,
    {
        Cci { raw: 0, _marker: core::marker::PhantomData }
    }
}

} // verus!
