//! Hardware identifiers of ECUs.

use crate::text::{str_eq, str_less, text_less};
use crate::validation::{validated, ValidationError};
use std::cmp::Ordering;
use vstd::prelude::*;
use vstd::std_specs::cmp::{PartialEqSpecImpl, PartialOrdSpecImpl};
use vstd::string::*;

verus! {

/// The greatest number of characters of a hardware identifier.
pub const HWID_MAX_LENGTH: usize = 200;

/// The hardware identifier of an ECU: a text of at most 200 characters, which
/// may be empty. Hardware identifiers are equal when their texts are, and are
/// ordered as their texts are.
#[derive(Debug, Eq, Hash, Ord)]
pub struct HardwareIdentifier(String);

/// The refusal of a text as a hardware identifier. There is one reason for
/// it: the text is too long.
#[derive(Debug, Clone, Copy, PartialEq, Eq, Structural)]
pub struct HardwareIdentifierError;

impl View for HardwareIdentifier {
    type V = Seq<char>;

    closed spec fn view(&self) -> Seq<char> {
        self.0@
    }
}

impl Clone for HardwareIdentifier {
    fn clone(&self) -> (hwid: Self)
        ensures
            hwid@ == self@,
    {
        proof {
            use_type_invariant(self);
        }
        HardwareIdentifier(self.0.clone())
    }
}

impl HardwareIdentifier {
    #[verifier::type_invariant]
    spec fn within_bounds(self) -> bool {
        self.0@.len() <= HWID_MAX_LENGTH
    }

    /// The hardware identifier with the text `hwid`, which has to hold at
    /// most 200 characters. The empty text is accepted; a text of more than
    /// 200 characters is refused as too long.
    pub fn new(hwid: &str) -> (res: Result<HardwareIdentifier, HardwareIdentifierError>)
        ensures
            match validated(hwid@, 0, HWID_MAX_LENGTH as int) {
                Ok(text) => res matches Ok(h) && h@ == text,
                Err(_) => res is Err,
            },
    {
        if hwid.unicode_len() > HWID_MAX_LENGTH {
            return Err(HardwareIdentifierError);
        }
        Ok(HardwareIdentifier(String::from_str(hwid)))
    }

    /// The hardware identifier that stands for one that is not known. It is a
    /// hardware identifier like any other, with the text `Unknown`.
    pub fn unknown() -> (hwid: HardwareIdentifier)
        ensures
            hwid@ == "Unknown"@,
    {
        proof {
            reveal_strlit("Unknown");
        }
        HardwareIdentifier(String::from_str("Unknown"))
    }

    /// The text of the hardware identifier, which holds at most 200
    /// characters.
    pub fn to_string(&self) -> (text: &str)
        ensures
            text@ == self@,
            text@.len() <= HWID_MAX_LENGTH,
    {
        proof {
            use_type_invariant(self);
        }
        self.0.as_str()
    }
}

impl HardwareIdentifierError {
    /// The bound that the refused text breaks: the upper one.
    pub fn kind(&self) -> (kind: ValidationError)
        ensures
            kind == ValidationError::TooLong,
    {
        ValidationError::TooLong
    }

    /// What the error says: the bound that the text breaks.
    pub fn to_string(&self) -> (message: String)
        ensures
            message@
                == "HardwareIdentifier Error: Hardware Identifier is too long (max 200 characters)"@,
    {
        String::from_str(
            "HardwareIdentifier Error: Hardware Identifier is too long (max 200 characters)",
        )
    }
}

/// A text of at most 200 characters, the empty text among them, is accepted as
/// a hardware identifier as it is. A text of more than 200 characters is
/// refused as too long, and no text is refused as too short.
pub proof fn lemma_hardware_identifier_bounds(text: Seq<char>)
    ensures
        text.len() <= 200 ==> validated(text, 0, HWID_MAX_LENGTH as int) == Ok::<
            Seq<char>,
            ValidationError,
        >(text),
        text.len() > 200 ==> validated(text, 0, HWID_MAX_LENGTH as int) == Err::<
            Seq<char>,
            ValidationError,
        >(ValidationError::TooLong),
{
}

impl PartialEq for HardwareIdentifier {
    fn eq(&self, other: &Self) -> (same: bool) {
        str_eq(self.0.as_str(), other.0.as_str())
    }
}

impl PartialEqSpecImpl for HardwareIdentifier {
    open spec fn obeys_eq_spec() -> bool {
        true
    }

    open spec fn eq_spec(&self, other: &Self) -> bool {
        self@ == other@
    }
}

impl PartialOrd for HardwareIdentifier {
    fn partial_cmp(&self, other: &Self) -> (o: Option<Ordering>) {
        if str_eq(self.0.as_str(), other.0.as_str()) {
            Some(Ordering::Equal)
        } else if str_less(self.0.as_str(), other.0.as_str()) {
            Some(Ordering::Less)
        } else {
            Some(Ordering::Greater)
        }
    }
}

impl PartialOrdSpecImpl for HardwareIdentifier {
    open spec fn obeys_partial_cmp_spec() -> bool {
        true
    }

    open spec fn partial_cmp_spec(&self, other: &Self) -> Option<Ordering> {
        if self@ == other@ {
            Some(Ordering::Equal)
        } else if text_less(self@, other@) {
            Some(Ordering::Less)
        } else {
            Some(Ordering::Greater)
        }
    }
}

} // verus!
