//! An ECU as the device database lists it.

use crate::ecu_serial::EcuSerial;
use crate::hardware_identifier::HardwareIdentifier;
use vstd::prelude::*;

verus! {

/// An ECU of the device: the number of its row, its identifiers, and whether
/// it is the primary ECU.
#[derive(Debug)]
pub struct Ecu {
    pub id: i32,
    pub serial: EcuSerial,
    pub hardware_id: HardwareIdentifier,
    pub is_primary: bool,
}

/// What an ECU is, as contracts speak of it.
pub struct EcuView {
    pub id: int,
    pub serial: Seq<char>,
    pub hardware_id: Seq<char>,
    pub is_primary: bool,
}

impl View for Ecu {
    type V = EcuView;

    open spec fn view(&self) -> EcuView {
        EcuView {
            id: self.id as int,
            serial: self.serial@,
            hardware_id: self.hardware_id@,
            is_primary: self.is_primary,
        }
    }
}

} // verus!
