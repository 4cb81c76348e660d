//! The catalogue of supported chips: for each variant its capacity, the
//! addressing family the programmer firmware has to be switched to, and a
//! name to show.

use vstd::prelude::*;

verus! {

/// Number of bytes in one page, the unit of every transfer.
pub const PAGE_SIZE: usize = 256;

/// Number of pages that a one-byte page index can address.
pub const MAX_PAGES: usize = 256;

/// The addressing family of a chip, as the programmer firmware knows it.
#[allow(non_camel_case_types)]
#[derive(Clone, Copy, Debug, PartialEq, Eq, Structural)]
pub enum EepromType {
    Atmel_AT28C64,
    Microchip_24LCxx,
}

impl EepromType {
    /// The byte that selects this family in a select-device frame.
    pub open spec fn id(self) -> u8 {
        match self {
            EepromType::Atmel_AT28C64 => 0,
            EepromType::Microchip_24LCxx => 1,
        }
    }

    /// The name of the family.
    pub open spec fn name(self) -> Seq<char> {
        match self {
            EepromType::Atmel_AT28C64 => "Atmel AT28C64"@,
            EepromType::Microchip_24LCxx => "Microchip 24LCxx series"@,
        }
    }

    /// The byte that selects this family in a select-device frame.
    pub fn get_id(&self) -> (id: u8)
        ensures
            id == self.id(),
    {
        match *self {
            EepromType::Atmel_AT28C64 => 0,
            EepromType::Microchip_24LCxx => 1,
        }
    }

    /// The name of the family, for display.
    pub fn display_name(&self) -> (name: &'static str)
        ensures
            name@ == self.name(),
    {
        match *self {
            EepromType::Atmel_AT28C64 => "Atmel AT28C64",
            EepromType::Microchip_24LCxx => "Microchip 24LCxx series",
        }
    }
}

/// A chip model that the programmer supports.
#[allow(non_camel_case_types)]
#[derive(Clone, Copy, Debug, PartialEq, Eq, Structural)]
pub enum EepromVariant {
    Atmel_AT28C64,
    Microchip_24LC32,
}

impl EepromVariant {
    /// The addressing family of the chip.
    pub open spec fn family(self) -> EepromType {
        match self {
            EepromVariant::Atmel_AT28C64 => EepromType::Atmel_AT28C64,
            EepromVariant::Microchip_24LC32 => EepromType::Microchip_24LCxx,
        }
    }

    /// The number of bytes the chip holds.
    pub open spec fn capacity(self) -> nat {
        match self {
            EepromVariant::Atmel_AT28C64 => 8192,
            EepromVariant::Microchip_24LC32 => 4096,
        }
    }

    /// The name of the chip.
    pub open spec fn name(self) -> Seq<char> {
        match self {
            EepromVariant::Atmel_AT28C64 => "Atmel AT28C64"@,
            EepromVariant::Microchip_24LC32 => "Microchip 24LC32"@,
        }
    }

    /// Every chip of the catalogue holds a whole number of pages, at least
    /// one and no more than a one-byte page index can address.
    pub proof fn lemma_capacity_in_whole_pages(self)
        ensures
            self.capacity() > 0,
            self.capacity() % 256 == 0,
            self.capacity() / 256 <= 256,
            self.capacity() <= 65536,
    {
    }

    /// The addressing family of the chip.
    pub fn get_type(&self) -> (family: EepromType)
        ensures
            family == self.family(),
    {
        match *self {
            EepromVariant::Atmel_AT28C64 => EepromType::Atmel_AT28C64,
            EepromVariant::Microchip_24LC32 => EepromType::Microchip_24LCxx,
        }
    }

    /// The number of bytes the chip holds: a whole number of pages, at
    /// least one and at most `MAX_PAGES`.
    pub fn get_capacity(&self) -> (bytes: usize)
        ensures
            bytes == self.capacity(),
            bytes > 0,
            bytes % PAGE_SIZE == 0,
            bytes / PAGE_SIZE <= MAX_PAGES,
    {
        match *self {
            EepromVariant::Atmel_AT28C64 => 8192,
            EepromVariant::Microchip_24LC32 => 4096,
        }
    }

    /// The name of the chip, for display.
    pub fn display_name(&self) -> (name: &'static str)
        ensures
            name@ == self.name(),
    {
        match *self {
            EepromVariant::Atmel_AT28C64 => "Atmel AT28C64",
            EepromVariant::Microchip_24LC32 => "Microchip 24LC32",
        }
    }
}

} // verus!
