//! Two-byte VCP (Virtual Control Panel) value codec.
//!
//! DDC/CI reports a non-table feature value as four raw bytes: high/low byte
//! pairs for the current and for the maximum setting. A pair encodes the
//! 16-bit quantity `high * 256 + low`.

use vstd::prelude::*;

verus! {

/// A raw non-table VCP feature value, as the native display-control library
/// returns it: high/low byte pairs for the current and the maximum setting.
#[allow(non_camel_case_types)]
#[derive(Clone, Copy, Debug)]
pub struct DDCA_Non_Table_Vcp_Value {
    /// High byte of the current setting.
    pub sh: u8,
    /// Low byte of the current setting.
    pub sl: u8,
    /// High byte of the maximum setting.
    pub mh: u8,
    /// Low byte of the maximum setting.
    pub ml: u8,
}

/// The 16-bit quantity a high/low byte pair encodes.
pub open spec fn vcp_decode(high: u8, low: u8) -> u16 {
    (high * 256 + low) as u16
}

/// Narrowing of a decoded 16-bit value into the 8-bit brightness domain:
/// values above 255 saturate.
pub open spec fn clamp_byte(v: u16) -> u8 {
    if v > 255 {
        255u8
    } else {
        v as u8
    }
}

impl DDCA_Non_Table_Vcp_Value {
    /// The decoded current setting. For every high/low byte pair the result
    /// is exactly `high * 256 + low`.
    pub fn current_value(&self) -> (r: u16)
        ensures
            r == vcp_decode(self.sh, self.sl),
            r == self.sh * 256 + self.sl,
    {
        (self.sh as u16) * 256 + (self.sl as u16)
    }

    /// The decoded maximum setting. For every high/low byte pair the result
    /// is exactly `high * 256 + low`.
    pub fn maximum_value(&self) -> (r: u16)
        ensures
            r == vcp_decode(self.mh, self.ml),
            r == self.mh * 256 + self.ml,
    {
        (self.mh as u16) * 256 + (self.ml as u16)
    }
}

/// Clamp a decoded 16-bit value into `[0, 255]` and narrow it to one byte.
pub fn clamp_to_byte(v: u16) -> (b: u8)
    ensures
        b == clamp_byte(v),
{
    if v > 255 {
        255
    } else {
        v as u8
    }
}

} // verus!
