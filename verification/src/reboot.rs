//! The reboot capability and the selection among its divergent operations.

use vstd::prelude::*;

verus! {

/// The platform's reboot capability.
///
/// Each operation unconditionally transfers control away from the current
/// process: an implementation must not return control to its caller. The
/// dispatcher is written generically against this capability, so it stays
/// portable across devices that supply different mechanisms.
pub trait Reboot {
    /// Reboots the device.
    fn reboot();

    /// Reboots the device into its firmware-update mode of operation
    /// (for instance, a bootloader).
    fn reboot_to_firmware_update();

    /// Reboots the device into the firmware-update mode by the destructive
    /// but more reliable mechanism, where the device has one.
    fn reboot_to_firmware_update_destructive();
}

/// Which of the three divergent reboot operations a dispatch decision selects.
#[derive(Clone, Copy, Debug, PartialEq, Eq, Structural)]
pub enum RebootKind {
    /// An ordinary reboot.
    Normal,
    /// The graceful reboot into the firmware-update mode.
    FirmwareUpdate,
    /// The destructive reboot into the firmware-update mode.
    FirmwareUpdateDestructive,
}

/// Invoke the reboot operation that `kind` selects.
///
/// Every `Reboot` operation diverges, so a call of this function never
/// returns control; no dispatcher state survives it.
pub fn perform_reboot<R: Reboot>(kind: RebootKind) {
    match kind {
        RebootKind::Normal => R::reboot(),
        RebootKind::FirmwareUpdate => R::reboot_to_firmware_update(),
        RebootKind::FirmwareUpdateDestructive => R::reboot_to_firmware_update_destructive(),
    }
}

} // verus!
