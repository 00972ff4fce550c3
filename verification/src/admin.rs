//! The administrative application: device identity and the dual-transport
//! command dispatcher.

use vstd::prelude::*;
use core::marker::PhantomData;

use crate::commands::{
    AdminCommand, vendor_command, vendor_command_spec, version_be_spec, version_be_bytes,
    CMD_RNG, CMD_UUID, CMD_VERSION, HID_COMMAND_WINK, CMD_UPDATE, CMD_REBOOT,
    PRESENCE_TIMEOUT_MS, RNG_REPLY_LEN, WINK_DURATION_SECS,
};
use crate::reboot::{Reboot, RebootKind};

verus! {

/// Packet-transport errors, in the packet transport's own vocabulary.
#[derive(Clone, Copy, Debug, PartialEq, Eq, Structural)]
pub enum HidError {
    /// The command code is not in the advertised set.
    InvalidCommand,
    /// Reported when user presence was denied or timed out on UPDATE: the
    /// packet transport has no dedicated presence error code, so the
    /// precondition failure travels under this generic length error.
    InvalidLength,
}

/// Card-transport status words, in the card transport's own vocabulary.
#[derive(Clone, Copy, Debug, PartialEq, Eq, Structural)]
pub enum CardError {
    /// The instruction byte names no vendor instruction of this application.
    InstructionNotSupportedOrInvalid,
    /// UPDATE was requested over a disallowed physical interface, or user
    /// presence was denied.
    ConditionsOfUseNotSatisfied,
}

/// The physical interface a card-transport request arrived over.
#[derive(Clone, Copy, Debug, PartialEq, Eq, Structural)]
pub enum Interface {
    /// The wired (contact) interface.
    Contact,
    /// The wireless (contactless) interface.
    Contactless,
}

/// What one packet-transport dispatch decided: either the reply bytes are
/// already in the response buffer, or the caller owes one outside step.
#[derive(Clone, Copy, Debug, PartialEq, Eq, Structural)]
pub enum HidStep {
    /// The reply is in the response buffer; report success.
    Respond,
    /// Emit the wink signal for this many seconds, then report success with
    /// an empty reply.
    SignalWink { duration_secs: u64 },
    /// Fetch this many random bytes from the trusted service, then append
    /// them with [`append_rng_reply`].
    NeedRandom { count: usize },
    /// Ask the trusted service for user-presence confirmation bounded by
    /// this timeout, then finish with [`App::hid_update_result`].
    NeedPresence { timeout_ms: u32 },
    /// Invoke the selected reboot operation; control never comes back.
    InvokeReboot { kind: RebootKind },
    /// Report this error; the response buffer is untouched.
    Fail { error: HidError },
}

/// What one card-transport dispatch decided; the card analogue of
/// [`HidStep`].
#[derive(Clone, Copy, Debug, PartialEq, Eq, Structural)]
pub enum CardStep {
    /// The reply is in the response buffer; report success.
    Respond,
    /// Fetch this many random bytes from the trusted service, then append
    /// them with [`append_rng_reply`].
    NeedRandom { count: usize },
    /// Ask the trusted service for user-presence confirmation bounded by
    /// this timeout, then finish with [`App::apdu_update_result`].
    NeedPresence { timeout_ms: u32 },
    /// Invoke the selected reboot operation; control never comes back.
    InvokeReboot { kind: RebootKind },
    /// Report this status; the response buffer is untouched.
    Fail { error: CardError },
}

/// The administrative application: immutable device identity plus the
/// type-level binding to the platform's reboot capability.
pub struct App<R: Reboot> {
    uuid: [u8; 16],
    version: u32,
    boot_interface: PhantomData<R>,
}

impl<R: Reboot> App<R> {
    /// The stored 16-byte device identifier.
    pub closed spec fn uuid_spec(&self) -> Seq<u8> {
        self.uuid@
    }

    /// The stored 32-bit firmware version.
    pub closed spec fn version_spec(&self) -> u32 {
        self.version
    }

    /// Construct the application around the identity baked in by the
    /// surrounding firmware. The identity never changes afterwards.
    pub fn new(uuid: [u8; 16], version: u32) -> (app: Self)
        ensures
            app.uuid_spec() == uuid@,
            app.version_spec() == version,
    {
        Self { uuid, version, boot_interface: PhantomData }
    }

    /// The fixed command set the application advertises on the packet
    /// transport: wink plus the five vendor commands.
    pub fn commands(&self) -> (r: Vec<u8>)
        ensures
            r@ == commands_spec(),
    {
        let mut r: Vec<u8> = Vec::new();
        r.push(HID_COMMAND_WINK);
        r.push(CMD_UPDATE);
        r.push(CMD_REBOOT);
        r.push(CMD_RNG);
        r.push(CMD_VERSION);
        r.push(CMD_UUID);
        proof {
            assert(r@ =~= commands_spec());
        }
        r
    }

    /// The fixed 9-byte application identifier advertised on the card
    /// transport.
    pub fn aid(&self) -> (r: Vec<u8>)
        ensures
            r@ == aid_spec(),
    {
        let mut r: Vec<u8> = Vec::new();
        r.push(0xA0);
        r.push(0x00);
        r.push(0x00);
        r.push(0x08);
        r.push(0x47);
        r.push(0x00);
        r.push(0x00);
        r.push(0x00);
        r.push(0x01);
        proof {
            assert(r@ =~= aid_spec());
        }
        r
    }

    /// Card-transport application select: always succeeds, with an empty
    /// reply and no state change.
    pub fn select(&mut self, reply: &mut Vec<u8>) -> (r: Result<(), CardError>)
        ensures
            r == Ok::<(), CardError>(()),
            final(reply)@ == old(reply)@,
            *final(self) == *old(self),
    {
        Ok(())
    }

    /// Card-transport application deselect: a no-op.
    pub fn deselect(&mut self)
        ensures
            *final(self) == *old(self),
    {
    }

    /// Dispatch one packet-transport command.
    ///
    /// Replies to UUID and VERSION directly; for every other command the
    /// returned step names what the caller must do, and the response buffer
    /// is left untouched.
    pub fn hid_call(&self, command: u8, response: &mut Vec<u8>) -> (step: HidStep)
        ensures
            step == hid_step_spec(command),
            final(response)@ == old(response)@ + immediate_reply_spec(
                self.uuid_spec(),
                self.version_spec(),
                command,
            ),
    {
        proof {
            assert(old(response)@ + Seq::<u8>::empty() =~= old(response)@);
        }
        if command == HID_COMMAND_WINK {
            return HidStep::SignalWink { duration_secs: WINK_DURATION_SECS };
        }
        match vendor_command(command) {
            Some(AdminCommand::Reboot) => HidStep::InvokeReboot { kind: RebootKind::Normal },
            Some(AdminCommand::Rng) => HidStep::NeedRandom { count: RNG_REPLY_LEN },
            Some(AdminCommand::Update) => HidStep::NeedPresence {
                timeout_ms: PRESENCE_TIMEOUT_MS,
            },
            Some(AdminCommand::Uuid) => {
                self.append_uuid(response);
                HidStep::Respond
            },
            Some(AdminCommand::Version) => {
                self.append_version(response);
                HidStep::Respond
            },
            None => HidStep::Fail { error: HidError::InvalidCommand },
        }
    }

    /// Finish a packet-transport UPDATE once the presence outcome is known.
    ///
    /// With presence confirmed, the first input byte selects the reboot
    /// variant the caller must now invoke; with presence denied or timed
    /// out, the precondition failure is reported and no reboot happens.
    pub fn hid_update_result(&self, input: &[u8], presence: bool) -> (r: Result<
        RebootKind,
        HidError,
    >)
        ensures
            r == hid_update_spec(input@, presence),
    {
        if presence {
            if input.len() > 0 && input[0] == 0x01 {
                Ok(RebootKind::FirmwareUpdateDestructive)
            } else {
                Ok(RebootKind::FirmwareUpdate)
            }
        } else {
            Err(HidError::InvalidLength)
        }
    }

    /// Dispatch one card-transport command.
    ///
    /// Replies to UUID and VERSION directly; for every other instruction the
    /// returned step names what the caller must do, and the response buffer
    /// is left untouched. UPDATE over the contactless interface is refused
    /// outright: presence is never even requested there.
    pub fn apdu_call(&self, interface: Interface, instruction: u8, response: &mut Vec<u8>) -> (step:
        CardStep)
        ensures
            step == card_step_spec(interface, instruction),
            final(response)@ == old(response)@ + immediate_reply_spec(
                self.uuid_spec(),
                self.version_spec(),
                instruction,
            ),
    {
        proof {
            assert(old(response)@ + Seq::<u8>::empty() =~= old(response)@);
        }
        match vendor_command(instruction) {
            Some(AdminCommand::Reboot) => CardStep::InvokeReboot { kind: RebootKind::Normal },
            Some(AdminCommand::Rng) => CardStep::NeedRandom { count: RNG_REPLY_LEN },
            Some(AdminCommand::Update) => {
                match interface {
                    Interface::Contact => CardStep::NeedPresence {
                        timeout_ms: PRESENCE_TIMEOUT_MS,
                    },
                    Interface::Contactless => CardStep::Fail {
                        error: CardError::ConditionsOfUseNotSatisfied,
                    },
                }
            },
            Some(AdminCommand::Uuid) => {
                self.append_uuid(response);
                CardStep::Respond
            },
            Some(AdminCommand::Version) => {
                self.append_version(response);
                CardStep::Respond
            },
            None => CardStep::Fail { error: CardError::InstructionNotSupportedOrInvalid },
        }
    }

    /// Finish a card-transport UPDATE once the presence outcome is known.
    ///
    /// With presence confirmed, the request parameter byte selects the
    /// reboot variant the caller must now invoke; with presence denied, the
    /// conditions-not-satisfied status is reported and no reboot happens.
    pub fn apdu_update_result(&self, p1: u8, presence: bool) -> (r: Result<RebootKind, CardError>)
        ensures
            r == apdu_update_spec(p1, presence),
    {
        if presence {
            if p1 == 0x01 {
                Ok(RebootKind::FirmwareUpdateDestructive)
            } else {
                Ok(RebootKind::FirmwareUpdate)
            }
        } else {
            Err(CardError::ConditionsOfUseNotSatisfied)
        }
    }

    /// Append the stored device identifier to the response buffer.
    fn append_uuid(&self, response: &mut Vec<u8>)
        ensures
            final(response)@ == old(response)@ + self.uuid_spec(),
    {
        let mut i: usize = 0;
        while i < 16
            invariant
                i <= 16,
                response@ == old(response)@ + self.uuid_spec().take(i as int),
            decreases 16 - i,
        {
            response.push(self.uuid[i]);
            proof {
                assert(response@ =~= old(response)@ + self.uuid_spec().take(i + 1));
            }
            i = i + 1;
        }
        proof {
            assert(self.uuid_spec().take(16) =~= self.uuid_spec());
        }
    }

    /// Append the big-endian encoding of the stored version to the response
    /// buffer.
    fn append_version(&self, response: &mut Vec<u8>)
        ensures
            final(response)@ == old(response)@ + version_be_spec(self.version_spec()),
    {
        let bytes = version_be_bytes(self.version);
        append_bytes(&bytes, response);
    }
}

/// The command set advertised on the packet transport, in advertised order.
pub open spec fn commands_spec() -> Seq<u8> {
    seq![HID_COMMAND_WINK, CMD_UPDATE, CMD_REBOOT, CMD_RNG, CMD_VERSION, CMD_UUID]
}

/// The fixed card-transport application identifier.
pub open spec fn aid_spec() -> Seq<u8> {
    seq![0xA0u8, 0x00, 0x00, 0x08, 0x47, 0x00, 0x00, 0x00, 0x01]
}

/// The reply bytes a dispatch writes before it returns: UUID and VERSION
/// answer from the stored identity; every other command writes nothing
/// directly.
pub open spec fn immediate_reply_spec(uuid: Seq<u8>, version: u32, code: u8) -> Seq<u8> {
    match vendor_command_spec(code) {
        Some(AdminCommand::Uuid) => uuid,
        Some(AdminCommand::Version) => version_be_spec(version),
        _ => Seq::empty(),
    }
}

/// The step one packet-transport command decides on.
pub open spec fn hid_step_spec(command: u8) -> HidStep {
    if command == HID_COMMAND_WINK {
        HidStep::SignalWink { duration_secs: WINK_DURATION_SECS }
    } else {
        match vendor_command_spec(command) {
            Some(AdminCommand::Reboot) => HidStep::InvokeReboot { kind: RebootKind::Normal },
            Some(AdminCommand::Rng) => HidStep::NeedRandom { count: RNG_REPLY_LEN },
            Some(AdminCommand::Update) => HidStep::NeedPresence {
                timeout_ms: PRESENCE_TIMEOUT_MS,
            },
            Some(AdminCommand::Uuid) => HidStep::Respond,
            Some(AdminCommand::Version) => HidStep::Respond,
            None => HidStep::Fail { error: HidError::InvalidCommand },
        }
    }
}

/// The step one card-transport instruction decides on.
pub open spec fn card_step_spec(interface: Interface, instruction: u8) -> CardStep {
    match vendor_command_spec(instruction) {
        Some(AdminCommand::Reboot) => CardStep::InvokeReboot { kind: RebootKind::Normal },
        Some(AdminCommand::Rng) => CardStep::NeedRandom { count: RNG_REPLY_LEN },
        Some(AdminCommand::Update) => if interface == Interface::Contact {
            CardStep::NeedPresence { timeout_ms: PRESENCE_TIMEOUT_MS }
        } else {
            CardStep::Fail { error: CardError::ConditionsOfUseNotSatisfied }
        },
        Some(AdminCommand::Uuid) => CardStep::Respond,
        Some(AdminCommand::Version) => CardStep::Respond,
        None => CardStep::Fail { error: CardError::InstructionNotSupportedOrInvalid },
    }
}

/// Which update reboot the selector byte picks: `0x01` picks the
/// destructive variant, anything else the graceful one.
pub open spec fn reboot_target(selector: u8) -> RebootKind {
    if selector == 0x01 {
        RebootKind::FirmwareUpdateDestructive
    } else {
        RebootKind::FirmwareUpdate
    }
}

/// The packet-transport UPDATE outcome: the first input byte (or the
/// graceful default on empty input) selects the reboot variant once
/// presence is confirmed; a denial reports the precondition failure.
pub open spec fn hid_update_spec(input: Seq<u8>, presence: bool) -> Result<RebootKind, HidError> {
    if presence {
        Ok(reboot_target(if input.len() > 0 { input[0] } else { 0 }))
    } else {
        Err(HidError::InvalidLength)
    }
}

/// The card-transport UPDATE outcome, from the request parameter byte and
/// the presence outcome.
pub open spec fn apdu_update_spec(p1: u8, presence: bool) -> Result<RebootKind, CardError> {
    if presence {
        Ok(reboot_target(p1))
    } else {
        Err(CardError::ConditionsOfUseNotSatisfied)
    }
}

/// Append `bytes` to the response buffer.
fn append_bytes(bytes: &Vec<u8>, response: &mut Vec<u8>)
    ensures
        final(response)@ == old(response)@ + bytes@,
{
    let mut i: usize = 0;
    while i < bytes.len()
        invariant
            i <= bytes@.len(),
            response@ == old(response)@ + bytes@.take(i as int),
        decreases bytes@.len() - i,
    {
        response.push(bytes[i]);
        proof {
            assert(response@ =~= old(response)@ + bytes@.take(i + 1));
        }
        i = i + 1;
    }
    proof {
        assert(bytes@.take(bytes@.len() as int) =~= bytes@);
    }
}

/// The whole reply payload of one completed, non-diverging packet-transport
/// exchange: what the dispatch wrote directly, plus the random bytes the
/// service returned where the decided step asked for them.
pub open spec fn hid_exchange_payload(
    uuid: Seq<u8>,
    version: u32,
    command: u8,
    random: Seq<u8>,
) -> Seq<u8> {
    match hid_step_spec(command) {
        HidStep::NeedRandom { .. } => random,
        HidStep::Respond => immediate_reply_spec(uuid, version, command),
        _ => Seq::empty(),
    }
}

/// The whole reply payload of one completed, non-diverging card-transport
/// exchange; the card analogue of [`hid_exchange_payload`].
pub open spec fn card_exchange_payload(
    uuid: Seq<u8>,
    version: u32,
    interface: Interface,
    instruction: u8,
    random: Seq<u8>,
) -> Seq<u8> {
    match card_step_spec(interface, instruction) {
        CardStep::NeedRandom { .. } => random,
        CardStep::Respond => immediate_reply_spec(uuid, version, instruction),
        _ => Seq::empty(),
    }
}

/// Law: for the same device state and the same random bytes from the
/// service, the RNG, VERSION and UUID commands yield byte-identical reply
/// payloads over either transport, whatever physical interface carried the
/// card request.
pub proof fn lemma_transport_payload_agreement(
    uuid: Seq<u8>,
    version: u32,
    interface: Interface,
    code: u8,
    random: Seq<u8>,
)
    requires
        code == CMD_RNG || code == CMD_VERSION || code == CMD_UUID,
    ensures
        hid_exchange_payload(uuid, version, code, random) == card_exchange_payload(
            uuid,
            version,
            interface,
            code,
            random,
        ),
{
}

/// Law: an RNG exchange always yields exactly [`RNG_REPLY_LEN`] payload
/// bytes, on either transport, given the service returned the count the
/// decided step asked for.
pub proof fn lemma_rng_reply_length(
    uuid: Seq<u8>,
    version: u32,
    interface: Interface,
    random: Seq<u8>,
)
    requires
        random.len() == RNG_REPLY_LEN,
    ensures
        hid_exchange_payload(uuid, version, CMD_RNG, random).len() == RNG_REPLY_LEN,
        card_exchange_payload(uuid, version, interface, CMD_RNG, random).len() == RNG_REPLY_LEN,
{
}

/// Law: a packet-transport UPDATE with presence denied or timed out reports
/// the precondition failure, and selects no reboot, whatever the input was.
pub proof fn lemma_hid_update_denied_no_reboot(input: Seq<u8>)
    ensures
        hid_update_spec(input, false) == Err::<RebootKind, HidError>(HidError::InvalidLength),
{
}

/// Law: a card-transport UPDATE over the contactless interface is refused
/// with conditions-not-satisfied; neither presence confirmation nor a
/// reboot is ever requested there.
pub proof fn lemma_contactless_update_refused()
    ensures
        card_step_spec(Interface::Contactless, CMD_UPDATE) == (CardStep::Fail {
            error: CardError::ConditionsOfUseNotSatisfied,
        }),
{
}

/// Law: a packet-transport UPDATE with presence granted selects the
/// destructive reboot exactly when the first input byte is `0x01`, and the
/// graceful one on empty input or any other first byte.
pub proof fn lemma_hid_update_granted_target(input: Seq<u8>)
    ensures
        input.len() > 0 && input[0] == 0x01 ==> hid_update_spec(input, true) == Ok::<
            RebootKind,
            HidError,
        >(RebootKind::FirmwareUpdateDestructive),
        input.len() == 0 || input[0] != 0x01 ==> hid_update_spec(input, true) == Ok::<
            RebootKind,
            HidError,
        >(RebootKind::FirmwareUpdate),
{
}

/// Law: a command code outside the shared table is refused in each
/// transport's own vocabulary, and no action is taken: the decided step is
/// the error itself.
pub proof fn lemma_unknown_command_refused(interface: Interface, code: u8)
    requires
        vendor_command_spec(code) is None,
    ensures
        code != HID_COMMAND_WINK ==> hid_step_spec(code) == (HidStep::Fail {
            error: HidError::InvalidCommand,
        }),
        card_step_spec(interface, code) == (CardStep::Fail {
            error: CardError::InstructionNotSupportedOrInvalid,
        }),
{
}

/// Law: the packet-transport wink never fails and never contributes reply
/// bytes: its step is the wink signal itself, and its exchange payload is
/// empty.
pub proof fn lemma_wink_no_reply(uuid: Seq<u8>, version: u32, random: Seq<u8>)
    ensures
        hid_step_spec(HID_COMMAND_WINK) == (HidStep::SignalWink {
            duration_secs: WINK_DURATION_SECS,
        }),
        hid_exchange_payload(uuid, version, HID_COMMAND_WINK, random) == Seq::<u8>::empty(),
{
}

/// Append the random bytes the trusted service returned for one RNG
/// exchange; the reply grows by exactly the requested count.
pub fn append_rng_reply(random: &Vec<u8>, response: &mut Vec<u8>)
    requires
        random@.len() == RNG_REPLY_LEN,
    ensures
        final(response)@ == old(response)@ + random@,
        final(response)@.len() == old(response)@.len() + RNG_REPLY_LEN,
{
    append_bytes(random, response);
}

} // verus!

