use eeprom_programmer::error::Error;
use eeprom_programmer::variant::{EepromType, EepromVariant, MAX_PAGES, PAGE_SIZE};

const ALL: [EepromVariant; 2] = [EepromVariant::Atmel_AT28C64, EepromVariant::Microchip_24LC32];

#[test]
fn capacities_are_those_of_the_chips() {
    assert_eq!(EepromVariant::Atmel_AT28C64.get_capacity(), 8192);
    assert_eq!(EepromVariant::Microchip_24LC32.get_capacity(), 4096);
}

#[test]
fn every_capacity_is_a_whole_number_of_pages() {
    for variant in ALL {
        let capacity = variant.get_capacity();
        assert!(capacity > 0);
        assert_eq!(capacity % 256, 0);
        assert!(capacity / 256 <= 256);
    }
}

#[test]
fn page_constants() {
    assert_eq!(PAGE_SIZE, 256);
    assert_eq!(MAX_PAGES, 256);
    assert_eq!(PAGE_SIZE * MAX_PAGES, 65536);
}

#[test]
fn each_variant_has_its_family() {
    assert_eq!(EepromVariant::Atmel_AT28C64.get_type(), EepromType::Atmel_AT28C64);
    assert_eq!(EepromVariant::Microchip_24LC32.get_type(), EepromType::Microchip_24LCxx);
}

#[test]
fn family_ids() {
    assert_eq!(EepromType::Atmel_AT28C64.get_id(), 0);
    assert_eq!(EepromType::Microchip_24LCxx.get_id(), 1);
    assert_eq!(EepromVariant::Atmel_AT28C64.get_type().get_id(), 0);
    assert_eq!(EepromVariant::Microchip_24LC32.get_type().get_id(), 1);
}

#[test]
fn display_names() {
    assert_eq!(EepromType::Atmel_AT28C64.display_name(), "Atmel AT28C64");
    assert_eq!(EepromType::Microchip_24LCxx.display_name(), "Microchip 24LCxx series");
    assert_eq!(EepromVariant::Atmel_AT28C64.display_name(), "Atmel AT28C64");
    assert_eq!(EepromVariant::Microchip_24LC32.display_name(), "Microchip 24LC32");
}

#[test]
fn variants_are_copied_and_compared() {
    let a = EepromVariant::Microchip_24LC32;
    let b = a;
    assert_eq!(a, b);
    assert_ne!(a, EepromVariant::Atmel_AT28C64);
}

#[test]
fn error_messages() {
    assert_eq!(Error::RomTooBig.message(), "ROM file too large to fit on EEPROM");
    assert_eq!(Error::NoWriteAck.message(), "programmer did not acknowledge write");
    assert_eq!(Error::VerifyFailed.message(), "verification failed");
    assert_eq!(Error::Transport.message(), "serial transport failed");
}
