//! The peripheral register bundle: single ownership of the three USB OTG FS
//! register blocks, grouped into one movable value.
//!
//! Construction consumes the three externally issued, individually unique
//! block tokens, so at most one bundle ever exists; the bundle may then be
//! relocated to any single later-executing context. Its state is the
//! hardware registers themselves, and it is not internally synchronized:
//! concurrent access from two contexts needs exclusion above this layer.
use vstd::prelude::*;
use stm32f4xx_hal::stm32::{OTG_FS_DEVICE, OTG_FS_GLOBAL, OTG_FS_PWRCLK};

verus! {

/// stm32f4's unique ownership token for the OTG FS global register block.
#[verifier::external_type_specification]
#[verifier::external_body]
pub struct ExOtgFsGlobal(OTG_FS_GLOBAL);

/// stm32f4's unique ownership token for the OTG FS device register block.
#[verifier::external_type_specification]
#[verifier::external_body]
pub struct ExOtgFsDevice(OTG_FS_DEVICE);

/// stm32f4's unique ownership token for the OTG FS power-and-clock register
/// block.
#[verifier::external_type_specification]
#[verifier::external_body]
pub struct ExOtgFsPwrclk(OTG_FS_PWRCLK);

/// Wrapper around the device-specific peripheral blocks that provides one
/// unified register interface.
pub struct UsbRegisters {
    /// The global control register block.
    pub global: OTG_FS_GLOBAL,
    /// The device and endpoint control register block.
    pub device: OTG_FS_DEVICE,
    /// The power-and-clock control register block.
    pub pwrclk: OTG_FS_PWRCLK,
}

impl UsbRegisters {
    /// Consumes the three unique block tokens and returns the one bundle
    /// that owns them; uniqueness of the bundle follows from uniqueness of
    /// the tokens, by construction rather than by runtime locking.
    pub fn new(global: OTG_FS_GLOBAL, device: OTG_FS_DEVICE, pwrclk: OTG_FS_PWRCLK) -> (r: Self)
        ensures
            r.global == global,
            r.device == device,
            r.pwrclk == pwrclk,
    {
        UsbRegisters { global, device, pwrclk }
    }
}

} // verus!
