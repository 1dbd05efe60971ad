use vstd::prelude::*;
use crate::EbdDevice;

verus! {

/// The EBD-USB V1 variant.
pub struct EbdUsbV1;

impl EbdDevice for EbdUsbV1 {
    open spec fn spec_current_divider() -> u16 {
        1000
    }

    open spec fn spec_max_current() -> u32 {
        3000
    }

    open spec fn spec_max_power() -> u32 {
        24000
    }

    open spec fn spec_device_name() -> Seq<char> {
        "EDB-USB V1"@
    }

    fn current_divider() -> u16 {
        1000
    }

    fn max_current() -> u32 {
        3000
    }

    fn max_power() -> u32 {
        24000
    }

    fn device_name() -> &'static str {
        "EDB-USB V1"
    }
}

/// The EBD-USB V2 variant.
pub struct EbdUsbV2;

impl EbdDevice for EbdUsbV2 {
    open spec fn spec_current_divider() -> u16 {
        1000
    }

    open spec fn spec_max_current() -> u32 {
        3000
    }

    open spec fn spec_max_power() -> u32 {
        24000
    }

    open spec fn spec_device_name() -> Seq<char> {
        "EDB-USB V2"@
    }

    fn current_divider() -> u16 {
        1000
    }

    fn max_current() -> u32 {
        3000
    }

    fn max_power() -> u32 {
        24000
    }

    fn device_name() -> &'static str {
        "EDB-USB V2"
    }
}

/// The EBD-USB Plus variant.
pub struct EbdUsbPlus;

impl EbdDevice for EbdUsbPlus {
    open spec fn spec_current_divider() -> u16 {
        10000
    }

    open spec fn spec_max_current() -> u32 {
        5000
    }

    open spec fn spec_max_power() -> u32 {
        50000
    }

    open spec fn spec_device_name() -> Seq<char> {
        "EDB-USB Plus"@
    }

    fn current_divider() -> u16 {
        10000
    }

    fn max_current() -> u32 {
        5000
    }

    fn max_power() -> u32 {
        50000
    }

    fn device_name() -> &'static str {
        "EDB-USB Plus"
    }
}

/// The EBD-USB Plus+ variant.
pub struct EbdUsbPlusPlus;

impl EbdDevice for EbdUsbPlusPlus {
    open spec fn spec_current_divider() -> u16 {
        5000
    }

    open spec fn spec_max_current() -> u32 {
        5000
    }

    open spec fn spec_max_power() -> u32 {
        50000
    }

    open spec fn spec_device_name() -> Seq<char> {
        "EDB-USB Plus+"@
    }

    fn current_divider() -> u16 {
        5000
    }

    fn max_current() -> u32 {
        5000
    }

    fn max_power() -> u32 {
        50000
    }

    fn device_name() -> &'static str {
        "EDB-USB Plus+"
    }
}

} // verus!
