//! Types for the `pdinfo` command, which asks the PD controller about the
//! current port and its status.
use vstd::prelude::*;

verus! {

/// The status for the switches on the power path.
#[derive(Clone, Copy, Debug, PartialEq, Eq)]
pub struct PowerPathStatus {
    ext_vbus_sw_en: bool,
    int_vbus_sw_en: bool,
}

impl View for PowerPathStatus {
    type V = (bool, bool);

    /// Whether the external and the internal VBUS switch are enabled.
    closed spec fn view(&self) -> (bool, bool) {
        (self.ext_vbus_sw_en, self.int_vbus_sw_en)
    }
}

impl PowerPathStatus {
    /// Creates a new [`PowerPathStatus`] instance with the given status bits.
    pub fn new(ext_vbus_sw_en: bool, int_vbus_sw_en: bool) -> (status: Self)
        ensures
            status@ == (ext_vbus_sw_en, int_vbus_sw_en),
    {
        PowerPathStatus { ext_vbus_sw_en, int_vbus_sw_en }
    }

    /// Creates a new [`PowerPathStatus`] instance with no switches enabled
    pub fn none() -> (status: Self)
        ensures
            status@ == (false, false),
    {
        PowerPathStatus { ext_vbus_sw_en: false, int_vbus_sw_en: false }
    }

    /// Returns true if the external VBUS switch is enabled.
    pub fn ext_vbus_sw_en(&self) -> (enabled: bool)
        ensures
            enabled == self@.0,
    {
        self.ext_vbus_sw_en
    }

    /// Returns true if the internal VBUS switch is enabled.
    pub fn int_vbus_sw_en(&self) -> (enabled: bool)
        ensures
            enabled == self@.1,
    {
        self.int_vbus_sw_en
    }
}

/// The alternate modes that are active, in the order of [`AltMode::new`].
pub struct ActiveModes {
    /// User-defined alternate mode 0
    pub user0: bool,
    /// User-defined alternate mode 1
    pub user1: bool,
    /// User-defined alternate mode 2
    pub user2: bool,
    /// User-defined alternate mode 3
    pub user3: bool,
    /// DisplayPort alternate mode
    pub display_port: bool,
    /// Thunderbolt alternate mode
    pub thunderbolt: bool,
    /// USB4 alternate mode
    pub usb4: bool,
}

/// The Alternate Mode the controller is in.
///
/// Alternate Modes are vendor-defined, so what the `userX` getters, such as
/// [`AltMode::user0()`], mean is up to the driver. The common alternate
/// modes have getters of their own, for the drivers that support them.
#[derive(Clone, Copy, Debug, PartialEq, Eq)]
pub struct AltMode {
    user0: bool,
    user1: bool,
    user2: bool,
    user3: bool,
    display_port: bool,
    thunderbolt: bool,
    usb4: bool,
}

impl View for AltMode {
    type V = ActiveModes;

    /// The alternate modes that are active.
    closed spec fn view(&self) -> ActiveModes {
        ActiveModes {
            user0: self.user0,
            user1: self.user1,
            user2: self.user2,
            user3: self.user3,
            display_port: self.display_port,
            thunderbolt: self.thunderbolt,
            usb4: self.usb4,
        }
    }
}

impl AltMode {
    /// Creates a new [`AltMode`] instance with the given status bits.
    pub fn new(
        user0: bool,
        user1: bool,
        user2: bool,
        user3: bool,
        display_port: bool,
        thunderbolt: bool,
        usb4: bool,
    ) -> (mode: Self)
        ensures
            mode@ == (ActiveModes {
                user0,
                user1,
                user2,
                user3,
                display_port,
                thunderbolt,
                usb4,
            }),
    {
        AltMode { user0, user1, user2, user3, display_port, thunderbolt, usb4 }
    }

    /// Creates a new [`AltMode`] instance with no alternate mode active.
    pub fn none() -> (mode: Self)
        ensures
            mode@ == (ActiveModes {
                user0: false,
                user1: false,
                user2: false,
                user3: false,
                display_port: false,
                thunderbolt: false,
                usb4: false,
            }),
    {
        AltMode {
            user0: false,
            user1: false,
            user2: false,
            user3: false,
            display_port: false,
            thunderbolt: false,
            usb4: false,
        }
    }

    /// User-defined alternate mode 0 is active.
    pub fn user0(&self) -> (active: bool)
        ensures
            active == self@.user0,
    {
        self.user0
    }

    /// User-defined alternate mode 1 is active.
    pub fn user1(&self) -> (active: bool)
        ensures
            active == self@.user1,
    {
        self.user1
    }

    /// User-defined alternate mode 2 is active.
    pub fn user2(&self) -> (active: bool)
        ensures
            active == self@.user2,
    {
        self.user2
    }

    /// User-defined alternate mode 3 is active.
    pub fn user3(&self) -> (active: bool)
        ensures
            active == self@.user3,
    {
        self.user3
    }

    /// DisplayPort alternate mode is active.
    pub fn display_port(&self) -> (active: bool)
        ensures
            active == self@.display_port,
    {
        self.display_port
    }

    /// Thunderbolt alternate mode is active.
    pub fn thunderbolt(&self) -> (active: bool)
        ensures
            active == self@.thunderbolt,
    {
        self.thunderbolt
    }

    /// USB4 alternate mode is active.
    pub fn usb4(&self) -> (active: bool)
        ensures
            active == self@.usb4,
    {
        self.usb4
    }
}

} // verus!
