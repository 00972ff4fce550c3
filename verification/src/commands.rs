//! The shared vendor command table and the fixed protocol parameters.

use vstd::prelude::*;

verus! {

/// Vendor command code: reboot into the firmware-update mode.
pub const CMD_UPDATE: u8 = 0x51;

/// Vendor command code: reboot the device.
pub const CMD_REBOOT: u8 = 0x53;

/// Vendor command code: request random bytes.
pub const CMD_RNG: u8 = 0x60;

/// Vendor command code: read the firmware version.
pub const CMD_VERSION: u8 = 0x61;

/// Vendor command code: read the device identifier.
pub const CMD_UUID: u8 = 0x62;

/// Packet-transport command code of the transport-native wink command.
pub const HID_COMMAND_WINK: u8 = 0x08;

/// Number of random bytes served by one RNG exchange: fills one packet.
pub const RNG_REPLY_LEN: usize = 57;

/// Timeout, in milliseconds, of the user-presence confirmation request.
pub const PRESENCE_TIMEOUT_MS: u32 = 15000;

/// Duration, in seconds, of the wink signal.
pub const WINK_DURATION_SECS: u64 = 10;

/// The one command table that both transports serve.
#[derive(Clone, Copy, Debug, PartialEq, Eq, Structural)]
pub enum AdminCommand {
    /// Reboot into the firmware-update mode, gated by user presence.
    Update,
    /// Reboot the device.
    Reboot,
    /// Serve random bytes.
    Rng,
    /// Serve the firmware version.
    Version,
    /// Serve the device identifier.
    Uuid,
}

/// Which administrative command, if any, a vendor command code names.
pub open spec fn vendor_command_spec(code: u8) -> Option<AdminCommand> {
    if code == CMD_UPDATE {
        Some(AdminCommand::Update)
    } else if code == CMD_REBOOT {
        Some(AdminCommand::Reboot)
    } else if code == CMD_RNG {
        Some(AdminCommand::Rng)
    } else if code == CMD_VERSION {
        Some(AdminCommand::Version)
    } else if code == CMD_UUID {
        Some(AdminCommand::Uuid)
    } else {
        None
    }
}

/// Look a vendor command code up in the shared command table.
pub fn vendor_command(code: u8) -> (r: Option<AdminCommand>)
    ensures
        r == vendor_command_spec(code),
{
    if code == CMD_UPDATE {
        Some(AdminCommand::Update)
    } else if code == CMD_REBOOT {
        Some(AdminCommand::Reboot)
    } else if code == CMD_RNG {
        Some(AdminCommand::Rng)
    } else if code == CMD_VERSION {
        Some(AdminCommand::Version)
    } else if code == CMD_UUID {
        Some(AdminCommand::Uuid)
    } else {
        None
    }
}

/// The big-endian encoding of the 32-bit firmware version.
pub open spec fn version_be_spec(version: u32) -> Seq<u8> {
    seq![
        ((version >> 24) & 0xff) as u8,
        ((version >> 16) & 0xff) as u8,
        ((version >> 8) & 0xff) as u8,
        (version & 0xff) as u8,
    ]
}

/// Law: the four bytes of [`version_be_spec`] are the big-endian encoding
/// of the version: read by place value, most significant byte first, they
/// recompose to exactly the encoded 32-bit value.
pub proof fn lemma_version_encoding_faithful(version: u32)
    ensures
        version_be_spec(version).len() == 4,
        version == (version_be_spec(version)[0] as int) * 0x1000000 + (version_be_spec(version)[1]
            as int) * 0x10000 + (version_be_spec(version)[2] as int) * 0x100 + (version_be_spec(
            version,
        )[3] as int),
{
    assert(((version >> 24) & 0xff) < 0x100 && ((version >> 16) & 0xff) < 0x100 && ((version >> 8)
        & 0xff) < 0x100 && (version & 0xff) < 0x100) by (bit_vector);
    assert(version == ((version >> 24) & 0xff) * 0x1000000 + ((version >> 16) & 0xff) * 0x10000 + (
    (version >> 8) & 0xff) * 0x100 + (version & 0xff)) by (bit_vector);
}

/// Encode the 32-bit firmware version as four big-endian bytes.
pub fn version_be_bytes(version: u32) -> (r: Vec<u8>)
    ensures
        r@ == version_be_spec(version),
{
    let mut r: Vec<u8> = Vec::new();
    r.push(((version >> 24) & 0xff) as u8);
    r.push(((version >> 16) & 0xff) as u8);
    r.push(((version >> 8) & 0xff) as u8);
    r.push((version & 0xff) as u8);
    proof {
        assert(r@ =~= version_be_spec(version));
    }
    r
}

} // verus!
