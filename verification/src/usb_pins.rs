//! The one pin pairing valid for USB OTG FS signaling.
//!
//! The data lines live on pins PA11 and PA12 in alternate function 10; the
//! `UsbPins` marker is implemented for that pairing alone, so any other
//! pairing is rejected by the caller's type system before the program runs.
use vstd::prelude::*;
use stm32f4xx_hal::gpio::{AF10, Alternate};
use stm32f4xx_hal::gpio::gpioa::{PA11, PA12};
use crate::UsbPins;

verus! {

/// stm32f4xx-hal's type-state pin PA11.
#[verifier::external_type_specification]
#[verifier::external_body]
#[verifier::reject_recursive_types(MODE)]
pub struct ExPa11<MODE>(PA11<MODE>);

/// stm32f4xx-hal's type-state pin PA12.
#[verifier::external_type_specification]
#[verifier::external_body]
#[verifier::reject_recursive_types(MODE)]
pub struct ExPa12<MODE>(PA12<MODE>);

/// stm32f4xx-hal's alternate-function pin mode.
#[verifier::external_type_specification]
#[verifier::external_body]
#[verifier::reject_recursive_types(MODE)]
pub struct ExAlternate<MODE>(Alternate<MODE>);

/// stm32f4xx-hal's alternate function 10, the USB OTG FS function.
#[verifier::external_type_specification]
#[verifier::external_body]
pub struct ExAf10(AF10);

/// The declared USB pin pairing: PA11 and PA12, both in alternate function
/// 10.
pub type UsbPinsType = (PA11<Alternate<AF10>>, PA12<Alternate<AF10>>);

impl UsbPins for UsbPinsType {

}

} // verus!
