//! The clock-enable update for the USB OTG FS peripheral.
//!
//! Enabling is one read-modify-write of the AHB2 clock-enable register:
//! the peripheral's enable bit is set and nothing else changes. The caller
//! performs the register read and write inside a critical section; the
//! modify step itself is the verified function here.
use vstd::prelude::*;

verus! {

/// The OTG FS clock-enable bit of the AHB2 clock-enable register (bit 7).
pub const AHB2ENR_OTGFSEN: u32 = 0x80;

/// The AHB2 clock-enable register value with the USB OTG FS enable bit set.
pub open spec fn spec_usb_enabled(ahb2enr: u32) -> u32 {
    ahb2enr | AHB2ENR_OTGFSEN
}

/// The modify step of the USB clock enable: sets the OTG FS enable bit in a
/// read AHB2 clock-enable register value and performs no other change.
pub fn ahb2enr_usb_enabled(ahb2enr: u32) -> (r: u32)
    ensures
        r == spec_usb_enabled(ahb2enr),
{
    ahb2enr | AHB2ENR_OTGFSEN
}

/// Law: the update sets the enable bit and leaves every other bit as it was.
pub proof fn lemma_usb_enable_sets_only_enable_bit(ahb2enr: u32)
    ensures
        spec_usb_enabled(ahb2enr) & AHB2ENR_OTGFSEN == AHB2ENR_OTGFSEN,
        spec_usb_enabled(ahb2enr) & !AHB2ENR_OTGFSEN == ahb2enr & !AHB2ENR_OTGFSEN,
{
    assert((ahb2enr | 0x80u32) & 0x80u32 == 0x80u32) by (bit_vector);
    assert((ahb2enr | 0x80u32) & !0x80u32 == ahb2enr & !0x80u32) by (bit_vector);
}

/// Law: enabling the USB clock is idempotent — a second application leaves
/// the register, the enable bit included, exactly as one application does.
pub proof fn lemma_usb_enable_idempotent(ahb2enr: u32)
    ensures
        spec_usb_enabled(spec_usb_enabled(ahb2enr)) == spec_usb_enabled(ahb2enr),
{
    assert((ahb2enr | 0x80u32) | 0x80u32 == ahb2enr | 0x80u32) by (bit_vector);
}

} // verus!
