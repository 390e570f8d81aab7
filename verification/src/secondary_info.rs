//! What is known of a secondary ECU.

use crate::ecu_serial::EcuSerial;
use crate::hardware_identifier::HardwareIdentifier;
use crate::crypto::DIGEST_INPUT_LIMIT;
use crate::public_key::{absent_key, key_id_of, PublicKey, PublicKeyView};
use crate::text::{indented, text_lines};
use vstd::utf8::*;
use vstd::prelude::*;
use vstd::string::*;

verus! {

/// A secondary ECU: its identifiers, its kind, its public key and what else
/// was recorded of it.
#[derive(Debug)]
pub struct SecondaryInfo {
    pub serial: EcuSerial,
    pub hw_id: HardwareIdentifier,
    pub kind: String,
    pub pub_key: PublicKey,
    pub extra: String,
}

/// What a secondary ECU is, as contracts speak of it.
pub struct SecondaryInfoView {
    pub serial: Seq<char>,
    pub hw_id: Seq<char>,
    pub kind: Seq<char>,
    pub pub_key: PublicKeyView,
    pub extra: Seq<char>,
}

/// The secondary ECU of which nothing is known.
pub open spec fn unknown_secondary() -> SecondaryInfoView {
    SecondaryInfoView {
        serial: "Unknown"@,
        hw_id: "Unknown"@,
        kind: Seq::<char>::empty(),
        pub_key: absent_key(),
        extra: Seq::<char>::empty(),
    }
}

/// The text that shows a secondary ECU: its identifiers, the identifier of
/// its key, and the key itself.
pub open spec fn secondary_text(info: SecondaryInfoView) -> Seq<char> {
    "   serial ID: "@ + info.serial + "\n"@ + "   hardware ID: "@ + info.hw_id + "\n"@
        + "   no details about installed nor pending images\n"@ + "   public key ID: "@
        + key_id_of(info.pub_key.value) + "\n"@ + "   public key:\n"@ + indented(
        text_lines(info.pub_key.value),
    ) + "\n"@
}

impl View for SecondaryInfo {
    type V = SecondaryInfoView;

    open spec fn view(&self) -> SecondaryInfoView {
        SecondaryInfoView {
            serial: self.serial@,
            hw_id: self.hw_id@,
            kind: self.kind@,
            pub_key: self.pub_key@,
            extra: self.extra@,
        }
    }
}

impl Clone for SecondaryInfo {
    fn clone(&self) -> (info: Self)
        ensures
            info@ == self@,
    {
        SecondaryInfo {
            serial: self.serial.clone(),
            hw_id: self.hw_id.clone(),
            kind: self.kind.clone(),
            pub_key: self.pub_key.clone(),
            extra: self.extra.clone(),
        }
    }
}

impl SecondaryInfo {
    /// The secondary ECU with the given parts.
    pub fn new(
        serial: EcuSerial,
        hw_id: HardwareIdentifier,
        kind: String,
        pub_key: PublicKey,
        extra: String,
    ) -> (info: SecondaryInfo)
        ensures
            info.serial == serial,
            info.hw_id == hw_id,
            info.kind == kind,
            info.pub_key == pub_key,
            info.extra == extra,
    {
        SecondaryInfo { serial, hw_id, kind, pub_key, extra }
    }

    /// The text that shows the secondary ECU.
    pub fn to_string(&self) -> (text: String)
        requires
            encode_utf8(self@.pub_key.value).len() < DIGEST_INPUT_LIMIT,
        ensures
            text@ == secondary_text(self@),
    {
        let mut text = String::from_str("   serial ID: ");
        text.append(self.serial.as_str());
        text.append("\n");
        text.append("   hardware ID: ");
        text.append(self.hw_id.to_string());
        text.append("\n");
        text.append("   no details about installed nor pending images\n");
        text.append("   public key ID: ");
        text.append(self.pub_key.key_id().as_str());
        text.append("\n");
        text.append("   public key:\n");
        text.append(self.pub_key.to_string().as_str());
        text.append("\n");
        text
    }

    /// The secondary ECU of which nothing is known: identifiers that stand for
    /// unknown ones, the key of which no record exists, and nothing else.
    pub fn default() -> (info: SecondaryInfo)
        ensures
            info@ == unknown_secondary(),
    {
        SecondaryInfo {
            serial: EcuSerial::unknown(),
            hw_id: HardwareIdentifier::unknown(),
            kind: String::new(),
            pub_key: PublicKey::default(),
            extra: String::new(),
        }
    }
}

} // verus!
