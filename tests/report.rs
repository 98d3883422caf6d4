use uefi_hello_world::scan::{PciFunctionRecord, PciScanner};

fn text(chars: Vec<char>) -> String {
    chars.into_iter().collect()
}

fn record(bus: u8, slot: u8, function: u8, vendor: u16, device: u16, class: u32) -> PciFunctionRecord {
    PciFunctionRecord {
        bus,
        slot,
        function,
        vendor,
        device,
        class: (class >> 24) as u8,
        subclass: (class >> 16) as u8,
        prog_if: (class >> 8) as u8,
        revision: class as u8,
        header_type: 0,
    }
}

#[test]
fn report_lines_of_vga_device() {
    let r = record(0, 2, 0, 0x1234, 0x1111, 0x0300_0002);
    assert_eq!(text(r.device_line()), "0x00  0x02  0x00  0x1234  0x1111  QEMU/Bochs VGA");
    assert_eq!(text(r.class_line()), "0x03  0x00  0x00  0x02            VGA Controller");
}

#[test]
fn report_lines_use_lower_case_hex() {
    let r = record(0xAB, 0x1F, 7, 0x8086, 0x100E, 0x02FF_EE03);
    assert_eq!(text(r.device_line()), "0xab  0x1f  0x07  0x8086  0x100e  Intel 82540EM Gigabit Ethernet Controller");
    assert_eq!(text(r.class_line()), "0x02  0xff  0xee  0x03            Network Controller (Unknown Subclass)");
}

#[test]
fn report_lines_of_unknown_device() {
    let r = record(0xFF, 0, 0, 0xABCD, 0x0001, 0x2000_0000);
    assert_eq!(text(r.device_line()), "0xff  0x00  0x00  0xabcd  0x0001  ???");
    assert_eq!(text(r.class_line()), "0x20  0x00  0x00  0x00            Reserved Class");
}

/// The functions QEMU's default i440FX machine exposes, with the lines the
/// diagnostics print for them.
#[test]
fn report_of_qemu_i440fx_machine() {
    let machine: [(u8, u8, u8, u32, u32, u32); 6] = [
        (0, 0, 0, 0x1237_8086, 0x0600_0002, 0x0000_0000),
        (0, 1, 0, 0x7000_8086, 0x0601_0000, 0x0080_0000),
        (0, 1, 1, 0x7010_8086, 0x0101_8000, 0x0000_0000),
        (0, 1, 3, 0x7113_8086, 0x0680_0003, 0x0000_0000),
        (0, 2, 0, 0x1111_1234, 0x0300_0002, 0x0000_0000),
        (0, 3, 0, 0x100E_8086, 0x0200_0003, 0x0000_0000),
    ];
    let mut scanner = PciScanner::new();
    let mut lines = Vec::new();
    while let Some(word) = scanner.next_read() {
        let a = uefi_hello_world::address::PciAddress::from_word(word);
        let value = machine
            .iter()
            .find(|m| m.0 == a.bus && m.1 == a.slot && m.2 == a.function)
            .map(|m| match a.offset {
                0x0 => m.3,
                0x8 => m.4,
                _ => m.5,
            })
            .unwrap_or(0xFFFF_FFFF);
        if let Some(r) = scanner.feed(value) {
            lines.push(text(r.device_line()));
            lines.push(text(r.class_line()));
        }
    }
    assert_eq!(
        lines,
        vec![
            "0x00  0x00  0x00  0x8086  0x1237  Intel 440FX - 82441FX PMC [Natoma]",
            "0x06  0x00  0x00  0x02            Host Bridge",
            "0x00  0x01  0x00  0x8086  0x7000  Intel 82371SB PIIX3 ISA [Natoma/Triton II]",
            "0x06  0x01  0x00  0x00            ISA Bridge",
            "0x00  0x01  0x01  0x8086  0x7010  Intel ???",
            "0x01  0x01  0x80  0x00            IDE Controller (ISA Compatibility mode-only controller, supports bus mastering)",
            "0x00  0x01  0x03  0x8086  0x7113  Intel ???",
            "0x06  0x80  0x00  0x03            Bridge (Other)",
            "0x00  0x02  0x00  0x1234  0x1111  QEMU/Bochs VGA",
            "0x03  0x00  0x00  0x02            VGA Controller",
            "0x00  0x03  0x00  0x8086  0x100e  Intel 82540EM Gigabit Ethernet Controller",
            "0x02  0x00  0x00  0x03            Ethernet Controller",
        ]
    );
}
