//! Constants of the USB Power Delivery protocol.
use vstd::prelude::*;

pub mod wrappers;

use wrappers::Maximum;
use wrappers::Minimum;
use wrappers::Nominal;
use wrappers::Range;

verus! {

/// Shortest source transition request time in milliseconds for SPR mode
pub const T_PS_TRANSITION_SPR_MIN_MS: u16 = 450;

/// Nominal source transition request time in milliseconds for SPR mode
pub const T_PS_TRANSITION_SPR_NOM_MS: u16 = 500;

/// Longest source transition request time in milliseconds for SPR mode
pub const T_PS_TRANSITION_SPR_MAX_MS: u16 = 550;

/// Shortest source transition request time in milliseconds for EPR mode
pub const T_PS_TRANSITION_EPR_MIN_MS: u16 = 830;

/// Nominal source transition request time in milliseconds for EPR mode
pub const T_PS_TRANSITION_EPR_NOM_MS: u16 = 925;

/// Longest source transition request time in milliseconds for EPR mode
pub const T_PS_TRANSITION_EPR_MAX_MS: u16 = 1020;

/// Source transition request time in milliseconds for SPR mode.
///
/// This is `tPSTransition` for SPR mode in the PD spec.
pub fn t_ps_transition_spr_ms() -> (range: Range<u16>)
    ensures
        range == (Range {
            minimum: Minimum(T_PS_TRANSITION_SPR_MIN_MS),
            nominal: Nominal(T_PS_TRANSITION_SPR_NOM_MS),
            maximum: Maximum(T_PS_TRANSITION_SPR_MAX_MS),
        }),
{
    Range {
        minimum: Minimum(T_PS_TRANSITION_SPR_MIN_MS),
        nominal: Nominal(T_PS_TRANSITION_SPR_NOM_MS),
        maximum: Maximum(T_PS_TRANSITION_SPR_MAX_MS),
    }
}

/// Source transition request time in milliseconds for EPR mode.
///
/// This is `tPSTransition` for EPR mode in the PD spec.
pub fn t_ps_transition_epr_ms() -> (range: Range<u16>)
    ensures
        range == (Range {
            minimum: Minimum(T_PS_TRANSITION_EPR_MIN_MS),
            nominal: Nominal(T_PS_TRANSITION_EPR_NOM_MS),
            maximum: Maximum(T_PS_TRANSITION_EPR_MAX_MS),
        }),
{
    Range {
        minimum: Minimum(T_PS_TRANSITION_EPR_MIN_MS),
        nominal: Nominal(T_PS_TRANSITION_EPR_NOM_MS),
        maximum: Maximum(T_PS_TRANSITION_EPR_MAX_MS),
    }
}

} // verus!
