//! Verified core of a telemetry decoder for the ZKETECH EBD-USB family of
//! electronic-load instruments.
//!
//! The instruments speak a fixed 19-byte framed protocol over a serial link.
//! This crate holds the protocol logic: frame and checksum validation, the
//! integer decode transforms for voltage and current, the per-variant
//! calibration profiles, and the monitoring state machine that decides, for
//! each read outcome, whether the session continues and what is reported.
//!
//! Opening and reading the serial port itself is left to the caller; the
//! library works on plain byte frames and read outcomes handed in by the
//! surrounding program.

use vstd::prelude::*;

/// Errors raised while validating and decoding frames.
pub mod error;
/// Frame validation, decoding, and the monitoring state machine.
pub mod device;
/// Calibration profiles for the known hardware variants.
pub mod devices;

verus! {

/// Every frame begins with this marker byte.
pub const EBD_START_BYTE: u8 = 0xFA;

/// Every frame ends with this marker byte.
pub const EBD_STOP_BYTE: u8 = 0xF8;

/// All known hardware variants use frames of this many bytes.
pub const FRAME_SIZE: usize = 19;

/// Capabilities of one hardware variant: immutable calibration data that
/// parameterizes decoding. The four known variants implement this; they
/// differ only in these numbers, never in behaviour.
pub trait EbdDevice {
    /// The divider as seen by specifications.
    spec fn spec_current_divider() -> u16;

    /// The advisory current bound as seen by specifications.
    spec fn spec_max_current() -> u32;

    /// The advisory power bound as seen by specifications.
    spec fn spec_max_power() -> u32;

    /// The display label as seen by specifications.
    spec fn spec_device_name() -> Seq<char>;

    /// Scale factor applied when decoding current; always positive.
    fn current_divider() -> (r: u16)
        ensures
            r == Self::spec_current_divider(),
            r > 0,
    ;

    /// Advisory maximum current for this variant; informational only.
    fn max_current() -> (r: u32)
        ensures
            r == Self::spec_max_current(),
    ;

    /// Advisory maximum power for this variant; informational only.
    fn max_power() -> (r: u32)
        ensures
            r == Self::spec_max_power(),
    ;

    /// Display label for this variant.
    fn device_name() -> (r: &'static str)
        ensures
            r@ == Self::spec_device_name(),
    ;
}

} // verus!
