use uefi_hello_world::address::{config_address, PciAddress, CONFIG_ADDRESS_PORT, CONFIG_DATA_PORT};

#[test]
fn address_word_layout() {
    assert_eq!(config_address(0, 0, 0, 0), 0x8000_0000);
    assert_eq!(config_address(0, 2, 0, 0), 0x8000_1000);
    assert_eq!(config_address(0, 1, 3, 0x0C), 0x8000_0B0C);
    assert_eq!(config_address(0xFF, 31, 7, 0xFC), 0x80FF_FFFC);
    assert_eq!(config_address(0x12, 0, 0, 8), 0x8012_0008);
}

#[test]
fn address_ports() {
    assert_eq!(CONFIG_ADDRESS_PORT, 0xCF8);
    assert_eq!(CONFIG_DATA_PORT, 0xCFC);
}

#[test]
fn address_round_trip_every_field_value() {
    for bus in 0..=255u8 {
        for slot in 0..=31u8 {
            for function in 0..=7u8 {
                for offset in (0..=252u8).step_by(4) {
                    let a = PciAddress { bus, slot, function, offset };
                    let w = a.to_word();
                    assert_eq!(w & 0x8000_0000, 0x8000_0000);
                    assert_eq!(PciAddress::from_word(w), a);
                }
            }
        }
    }
}

#[test]
fn address_from_word_ignores_reserved_bits() {
    let a = PciAddress::from_word(0xFF00_1234);
    assert_eq!(a, PciAddress { bus: 0, slot: 2, function: 2, offset: 0x34 });
}
