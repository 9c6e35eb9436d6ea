//! Type-C currents and connection states.
use vstd::prelude::*;

verus! {

/// Type-C current
#[derive(Debug, Clone, Copy, Default, PartialEq, Eq)]
pub enum Current {
    /// Default USB current
    #[default]
    UsbDefault,
    /// 1.5A
    Current1A5,
    /// 3A0
    Current3A0,
}

impl Current {
    /// The current in mA; the default USB current depends on the USB version.
    pub open spec fn milliamps(self, is_usb2: bool) -> u16 {
        match self {
            Current::UsbDefault => if is_usb2 {
                500
            } else {
                900
            },
            Current::Current1A5 => 1500,
            Current::Current3A0 => 3000,
        }
    }

    /// Returns the current in mA
    pub fn to_ma(self, is_usb2: bool) -> (ma: u16)
        ensures
            ma == self.milliamps(is_usb2),
    {
        match self {
            Current::UsbDefault => {
                if is_usb2 {
                    500
                } else {
                    900
                }
            },
            Current::Current1A5 => 1500,
            Current::Current3A0 => 3000,
        }
    }
}

/// The current state of a Type-C port.
#[derive(Clone, Copy, Debug)]
pub enum ConnectionState {
    /// The port is connected to an USB Type-C Digital Audio (TCDA) accessory.
    AudioAccessory,
    /// The port is in Debug Accessory Mode (DAM).
    DebugAccessory,
    /// A port that is attached to another device, either PD-capable or not.
    ///
    /// An attached port is mechanically joined with a cable to another port;
    /// a connected port has exchanged a message and a GoodCRC response, so
    /// that both partners know that each is PD capable.
    Attached,
}

} // verus!
