//! Serial numbers of ECUs.

use crate::text::{str_eq, str_less, text_less};
use crate::validation::{validated, ValidationError};
use std::cmp::Ordering;
use vstd::prelude::*;
use vstd::std_specs::cmp::{PartialEqSpecImpl, PartialOrdSpecImpl};
use vstd::string::*;

verus! {

/// The least number of characters of a serial number.
pub const ECU_SERIAL_MIN_LENGTH: usize = 1;

/// The greatest number of characters of a serial number.
pub const ECU_SERIAL_MAX_LENGTH: usize = 64;

/// The serial number of an ECU: a text of 1 to 64 characters. Serial numbers
/// are equal when their texts are, and are ordered as their texts are.
#[derive(Debug, Eq, Hash, Ord)]
pub struct EcuSerial(String);

/// The refusal of a text as a serial number, for the bound that it breaks.
#[derive(Debug, Clone, Copy, PartialEq, Eq, Structural)]
pub struct EcuSerialError(pub ValidationError);

impl View for EcuSerial {
    type V = Seq<char>;

    closed spec fn view(&self) -> Seq<char> {
        self.0@
    }
}

impl Clone for EcuSerial {
    fn clone(&self) -> (serial: Self)
        ensures
            serial@ == self@,
    {
        proof {
            use_type_invariant(self);
        }
        EcuSerial(self.0.clone())
    }
}

impl EcuSerial {
    #[verifier::type_invariant]
    spec fn within_bounds(self) -> bool {
        ECU_SERIAL_MIN_LENGTH <= self.0@.len() <= ECU_SERIAL_MAX_LENGTH
    }

    /// The serial number with the text `serial`, which has to hold 1 to 64
    /// characters. An empty text is refused as too short, one of more than 64
    /// characters as too long.
    pub fn new(serial: &str) -> (res: Result<EcuSerial, EcuSerialError>)
        ensures
            match validated(
                serial@,
                ECU_SERIAL_MIN_LENGTH as int,
                ECU_SERIAL_MAX_LENGTH as int,
            ) {
                Ok(text) => res matches Ok(s) && s@ == text,
                Err(e) => res matches Err(f) && f.0 == e,
            },
    {
        let length = serial.unicode_len();
        if length < ECU_SERIAL_MIN_LENGTH {
            return Err(EcuSerialError(ValidationError::TooShort));
        }
        if length > ECU_SERIAL_MAX_LENGTH {
            return Err(EcuSerialError(ValidationError::TooLong));
        }
        Ok(EcuSerial(String::from_str(serial)))
    }

    /// The serial number that stands for one that is not known. It is a
    /// serial number like any other, with the text `Unknown`.
    pub fn unknown() -> (serial: EcuSerial)
        ensures
            serial@ == "Unknown"@,
    {
        proof {
            reveal_strlit("Unknown");
        }
        EcuSerial(String::from_str("Unknown"))
    }

    /// The text of the serial number, which holds 1 to 64 characters.
    pub fn as_str(&self) -> (text: &str)
        ensures
            text@ == self@,
            ECU_SERIAL_MIN_LENGTH <= text@.len() <= ECU_SERIAL_MAX_LENGTH,
    {
        proof {
            use_type_invariant(self);
        }
        self.0.as_str()
    }

    /// The text of the serial number, as it is shown.
    pub fn to_string(&self) -> (text: String)
        ensures
            text@ == self@,
            ECU_SERIAL_MIN_LENGTH <= text@.len() <= ECU_SERIAL_MAX_LENGTH,
    {
        proof {
            use_type_invariant(self);
        }
        self.0.clone()
    }
}

impl EcuSerialError {
    /// The bound that the refused text breaks.
    pub fn kind(&self) -> (kind: ValidationError)
        ensures
            kind == self.0,
    {
        self.0
    }

    /// What the error says: which bound the text breaks, and the bound.
    pub fn to_string(&self) -> (message: String)
        ensures
            message@ == match self.0 {
                ValidationError::TooShort =>
                    "EcuSerial Error: ECU serial identifier is too short (min 1 characters)"@,
                ValidationError::TooLong =>
                    "EcuSerial Error: ECU serial identifier is too long (max 64 characters)"@,
            },
    {
        match self.0 {
            ValidationError::TooShort => String::from_str(
                "EcuSerial Error: ECU serial identifier is too short (min 1 characters)",
            ),
            ValidationError::TooLong => String::from_str(
                "EcuSerial Error: ECU serial identifier is too long (max 64 characters)",
            ),
        }
    }
}

/// A text of 1 to 64 characters is accepted as a serial number as it is, so
/// that the serial number shows the text it was made of. The empty text is
/// refused as too short, a text of more than 64 characters as too long.
pub proof fn lemma_ecu_serial_bounds(text: Seq<char>)
    ensures
        1 <= text.len() <= 64 ==> validated(
            text,
            ECU_SERIAL_MIN_LENGTH as int,
            ECU_SERIAL_MAX_LENGTH as int,
        ) == Ok::<Seq<char>, ValidationError>(text),
        text.len() == 0 ==> validated(
            text,
            ECU_SERIAL_MIN_LENGTH as int,
            ECU_SERIAL_MAX_LENGTH as int,
        ) == Err::<Seq<char>, ValidationError>(ValidationError::TooShort),
        text.len() > 64 ==> validated(
            text,
            ECU_SERIAL_MIN_LENGTH as int,
            ECU_SERIAL_MAX_LENGTH as int,
        ) == Err::<Seq<char>, ValidationError>(ValidationError::TooLong),
{
}

impl PartialEq for EcuSerial {
    fn eq(&self, other: &Self) -> (same: bool) {
        str_eq(self.0.as_str(), other.0.as_str())
    }
}

impl PartialEqSpecImpl for EcuSerial {
    open spec fn obeys_eq_spec() -> bool {
        true
    }

    open spec fn eq_spec(&self, other: &Self) -> bool {
        self@ == other@
    }
}

impl PartialOrd for EcuSerial {
    fn partial_cmp(&self, other: &Self) -> (o: Option<Ordering>) {
        if str_eq(self.0.as_str(), other.0.as_str()) {
            Some(Ordering::Equal)
        } else if str_less(self.0.as_str(), other.0.as_str()) {
            Some(Ordering::Less)
        } else {
            Some(Ordering::Greater)
        }
    }
}

impl PartialOrdSpecImpl for EcuSerial {
    open spec fn obeys_partial_cmp_spec() -> bool {
        true
    }

    open spec fn partial_cmp_spec(&self, other: &Self) -> Option<Ordering> {
        if self@ == other@ {
            Some(Ordering::Equal)
        } else if text_less(self@, other@) {
            Some(Ordering::Less)
        } else {
            Some(Ordering::Greater)
        }
    }
}

} // verus!
