use admin_app::admin::{App, CardError, CardStep, HidError, HidStep, Interface, append_rng_reply};
use admin_app::commands::{
    AdminCommand, vendor_command, version_be_bytes, CMD_REBOOT, CMD_RNG, CMD_UPDATE, CMD_UUID,
    CMD_VERSION, HID_COMMAND_WINK, PRESENCE_TIMEOUT_MS, RNG_REPLY_LEN, WINK_DURATION_SECS,
};
use admin_app::reboot::{Reboot, RebootKind};

struct NoReboot;

impl Reboot for NoReboot {
    fn reboot() {}
    fn reboot_to_firmware_update() {}
    fn reboot_to_firmware_update_destructive() {}
}

const UUID: [u8; 16] = [
    0x00, 0x11, 0x22, 0x33, 0x44, 0x55, 0x66, 0x77, 0x88, 0x99, 0xAA, 0xBB, 0xCC, 0xDD, 0xEE, 0xFF,
];

fn app() -> App<NoReboot> {
    App::new(UUID, 0x01020300)
}

#[test]
fn command_table() {
    assert_eq!(vendor_command(CMD_UPDATE), Some(AdminCommand::Update));
    assert_eq!(vendor_command(CMD_REBOOT), Some(AdminCommand::Reboot));
    assert_eq!(vendor_command(CMD_RNG), Some(AdminCommand::Rng));
    assert_eq!(vendor_command(CMD_VERSION), Some(AdminCommand::Version));
    assert_eq!(vendor_command(CMD_UUID), Some(AdminCommand::Uuid));
    assert_eq!(vendor_command(0x70), None);
    assert_eq!(vendor_command(0x08), None);
}

#[test]
fn advertised_commands() {
    let a = app();
    assert_eq!(a.commands(), vec![0x08, 0x51, 0x53, 0x60, 0x61, 0x62]);
}

#[test]
fn aid_bytes() {
    let a = app();
    assert_eq!(
        a.aid(),
        vec![0xA0, 0x00, 0x00, 0x08, 0x47, 0x00, 0x00, 0x00, 0x01]
    );
}

#[test]
fn version_encoding_example() {
    assert_eq!(version_be_bytes(0x01020300), vec![0x01, 0x02, 0x03, 0x00]);
    assert_eq!(version_be_bytes(0x00000000), vec![0x00, 0x00, 0x00, 0x00]);
    assert_eq!(version_be_bytes(0xFFFFFFFF), vec![0xFF, 0xFF, 0xFF, 0xFF]);
}

#[test]
fn hid_version_reply() {
    let a = app();
    let mut response: Vec<u8> = Vec::new();
    let step = a.hid_call(CMD_VERSION, &mut response);
    assert_eq!(step, HidStep::Respond);
    assert_eq!(response, vec![0x01, 0x02, 0x03, 0x00]);
}

#[test]
fn hid_uuid_reply() {
    let a = app();
    let mut response: Vec<u8> = Vec::new();
    let step = a.hid_call(CMD_UUID, &mut response);
    assert_eq!(step, HidStep::Respond);
    assert_eq!(response, UUID.to_vec());
}

#[test]
fn transports_agree_on_identity_payloads() {
    let a = app();
    for code in [CMD_UUID, CMD_VERSION] {
        let mut hid_response: Vec<u8> = Vec::new();
        let mut card_response: Vec<u8> = Vec::new();
        let hid_step = a.hid_call(code, &mut hid_response);
        let card_step = a.apdu_call(Interface::Contact, code, &mut card_response);
        assert_eq!(hid_step, HidStep::Respond);
        assert_eq!(card_step, CardStep::Respond);
        assert_eq!(hid_response, card_response);
    }
}

#[test]
fn transports_agree_on_rng_payload() {
    let a = app();
    let mut hid_response: Vec<u8> = Vec::new();
    let mut card_response: Vec<u8> = Vec::new();
    assert_eq!(
        a.hid_call(CMD_RNG, &mut hid_response),
        HidStep::NeedRandom { count: RNG_REPLY_LEN }
    );
    assert_eq!(
        a.apdu_call(Interface::Contactless, CMD_RNG, &mut card_response),
        CardStep::NeedRandom { count: RNG_REPLY_LEN }
    );
    let random: Vec<u8> = (0..57).map(|i| i as u8).collect();
    append_rng_reply(&random, &mut hid_response);
    append_rng_reply(&random, &mut card_response);
    assert_eq!(hid_response, card_response);
    assert_eq!(hid_response, random);
}

#[test]
fn rng_reply_is_57_bytes() {
    let a = app();
    let mut response: Vec<u8> = Vec::new();
    let step = a.hid_call(CMD_RNG, &mut response);
    assert_eq!(step, HidStep::NeedRandom { count: 57 });
    assert!(response.is_empty());
    let random: Vec<u8> = vec![0xAB; 57];
    append_rng_reply(&random, &mut response);
    assert_eq!(response.len(), 57);
    assert_eq!(response, random);
}

#[test]
fn hid_update_denied_fails_with_invalid_length() {
    let a = app();
    let mut response: Vec<u8> = Vec::new();
    let step = a.hid_call(CMD_UPDATE, &mut response);
    assert_eq!(step, HidStep::NeedPresence { timeout_ms: PRESENCE_TIMEOUT_MS });
    assert!(response.is_empty());
    assert_eq!(a.hid_update_result(&[0x01], false), Err(HidError::InvalidLength));
    assert_eq!(a.hid_update_result(&[], false), Err(HidError::InvalidLength));
}

#[test]
fn hid_update_granted_selects_reboot_variant() {
    let a = app();
    assert_eq!(
        a.hid_update_result(&[0x01, 0x77], true),
        Ok(RebootKind::FirmwareUpdateDestructive)
    );
    assert_eq!(a.hid_update_result(&[], true), Ok(RebootKind::FirmwareUpdate));
    assert_eq!(
        a.hid_update_result(&[0x00, 0x01], true),
        Ok(RebootKind::FirmwareUpdate)
    );
}

#[test]
fn card_update_contactless_refused() {
    let a = app();
    let mut response: Vec<u8> = Vec::new();
    let step = a.apdu_call(Interface::Contactless, CMD_UPDATE, &mut response);
    assert_eq!(
        step,
        CardStep::Fail { error: CardError::ConditionsOfUseNotSatisfied }
    );
    assert!(response.is_empty());
}

#[test]
fn card_update_contact_asks_presence() {
    let a = app();
    let mut response: Vec<u8> = Vec::new();
    let step = a.apdu_call(Interface::Contact, CMD_UPDATE, &mut response);
    assert_eq!(step, CardStep::NeedPresence { timeout_ms: 15000 });
    assert_eq!(
        a.apdu_update_result(0x01, true),
        Ok(RebootKind::FirmwareUpdateDestructive)
    );
    assert_eq!(a.apdu_update_result(0x00, true), Ok(RebootKind::FirmwareUpdate));
    assert_eq!(
        a.apdu_update_result(0x01, false),
        Err(CardError::ConditionsOfUseNotSatisfied)
    );
}

#[test]
fn unknown_codes_refused() {
    let a = app();
    let mut response: Vec<u8> = Vec::new();
    assert_eq!(
        a.hid_call(0x70, &mut response),
        HidStep::Fail { error: HidError::InvalidCommand }
    );
    assert_eq!(
        a.apdu_call(Interface::Contact, 0x70, &mut response),
        CardStep::Fail { error: CardError::InstructionNotSupportedOrInvalid }
    );
    assert_eq!(
        a.apdu_call(Interface::Contact, 0x20, &mut response),
        CardStep::Fail { error: CardError::InstructionNotSupportedOrInvalid }
    );
    // The wink code names no card instruction.
    assert_eq!(
        a.apdu_call(Interface::Contact, HID_COMMAND_WINK, &mut response),
        CardStep::Fail { error: CardError::InstructionNotSupportedOrInvalid }
    );
    assert!(response.is_empty());
}

#[test]
fn reboot_dispatched_on_both_transports() {
    let a = app();
    let mut response: Vec<u8> = Vec::new();
    assert_eq!(
        a.hid_call(CMD_REBOOT, &mut response),
        HidStep::InvokeReboot { kind: RebootKind::Normal }
    );
    assert_eq!(
        a.apdu_call(Interface::Contactless, CMD_REBOOT, &mut response),
        CardStep::InvokeReboot { kind: RebootKind::Normal }
    );
    assert!(response.is_empty());
}

#[test]
fn select_succeeds_empty_and_deselect_is_noop() {
    let mut a = app();
    let mut reply: Vec<u8> = Vec::new();
    assert_eq!(a.select(&mut reply), Ok(()));
    assert!(reply.is_empty());
    a.deselect();
    let mut response: Vec<u8> = Vec::new();
    let step = a.hid_call(CMD_UUID, &mut response);
    assert_eq!(step, HidStep::Respond);
    assert_eq!(response, UUID.to_vec());
}

#[test]
fn wink_appends_nothing_and_never_fails() {
    let a = app();
    let mut response: Vec<u8> = Vec::new();
    let step = a.hid_call(HID_COMMAND_WINK, &mut response);
    assert_eq!(
        step,
        HidStep::SignalWink { duration_secs: WINK_DURATION_SECS }
    );
    assert!(response.is_empty());
}

#[test]
fn rng_reply_appends_after_existing_bytes() {
    let mut response: Vec<u8> = vec![0x10, 0x20];
    let random: Vec<u8> = vec![0x42; 57];
    append_rng_reply(&random, &mut response);
    assert_eq!(response.len(), 59);
    assert_eq!(&response[..2], &[0x10, 0x20]);
    assert_eq!(&response[2..], &random[..]);
}
