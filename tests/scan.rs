use uefi_hello_world::address::PciAddress;
use uefi_hello_world::names::{describe_class, describe_device};
use uefi_hello_world::scan::{PciFunctionRecord, PciScanner};

struct Function {
    bus: u8,
    slot: u8,
    function: u8,
    identity: u32,
    class: u32,
    header: u32,
}

fn function(bus: u8, slot: u8, function: u8, identity: u32, class: u32, header: u32) -> Function {
    Function { bus, slot, function, identity, class, header }
}

/// Runs a whole scan over a simulated bus; returns the records and every
/// address read, in order.
fn run(bus: &[Function]) -> (Vec<PciFunctionRecord>, Vec<PciAddress>) {
    let mut scanner = PciScanner::new();
    let mut records = Vec::new();
    let mut reads = Vec::new();
    while let Some(word) = scanner.next_read() {
        let a = PciAddress::from_word(word);
        reads.push(a);
        let value = bus
            .iter()
            .find(|f| f.bus == a.bus && f.slot == a.slot && f.function == a.function)
            .map(|f| match a.offset {
                0x0 => f.identity,
                0x8 => f.class,
                0xC => f.header,
                _ => 0,
            })
            .unwrap_or(0xFFFF_FFFF);
        if let Some(r) = scanner.feed(value) {
            records.push(r);
        }
    }
    assert!(scanner.is_finished());
    (records, reads)
}

fn probed(reads: &[PciAddress], bus: u8, slot: u8, function: u8) -> bool {
    reads.iter().any(|a| a.bus == bus && a.slot == slot && a.function == function)
}

#[test]
fn scan_empty_bus_reads_function_zero_of_every_slot() {
    let (records, reads) = run(&[]);
    assert!(records.is_empty());
    assert_eq!(reads.len(), 256 * 32);
    assert!(reads.iter().all(|a| a.function == 0 && a.offset == 0));
    assert_eq!(reads[0], PciAddress { bus: 0, slot: 0, function: 0, offset: 0 });
    assert_eq!(reads[33], PciAddress { bus: 1, slot: 1, function: 0, offset: 0 });
    assert_eq!(reads[reads.len() - 1], PciAddress { bus: 255, slot: 31, function: 0, offset: 0 });
}

#[test]
fn scan_absent_function_zero_skips_slot() {
    let mut bus = Vec::new();
    for f in 1..=7u8 {
        bus.push(function(0, 5, f, 0x7010_8086, 0x0101_8000, 0x0080_0000));
    }
    let (records, reads) = run(&bus);
    assert!(records.is_empty());
    for f in 1..=7u8 {
        assert!(!probed(&reads, 0, 5, f));
    }
}

#[test]
fn scan_single_function_slot_skips_rest() {
    let bus = [
        function(0, 3, 0, 0x100E_8086, 0x0200_0003, 0x0000_0000),
        function(0, 3, 1, 0x7010_8086, 0x0101_8000, 0x0000_0000),
    ];
    let (records, reads) = run(&bus);
    assert_eq!(records.len(), 1);
    assert_eq!(records[0].function, 0);
    for f in 1..=7u8 {
        assert!(!probed(&reads, 0, 3, f));
    }
}

#[test]
fn scan_multifunction_slot_probes_all_functions() {
    let bus = [
        function(0, 1, 0, 0x7000_8086, 0x0601_0000, 0x0080_0000),
        function(0, 1, 1, 0x7010_8086, 0x0101_8000, 0x0000_0000),
        function(0, 1, 3, 0x7113_8086, 0x0680_0003, 0x0000_0000),
    ];
    let (records, reads) = run(&bus);
    for f in 0..=7u8 {
        assert!(probed(&reads, 0, 1, f));
    }
    let functions: Vec<u8> = records.iter().map(|r| r.function).collect();
    assert_eq!(functions, vec![0, 1, 3]);
    assert_eq!(reads.len(), 256 * 32 + 7 + 3 * 2);
}

#[test]
fn scan_single_device_end_to_end() {
    let bus = [function(0, 2, 0, 0x1111_1234, 0x0300_0002, 0x0000_0000)];
    let (records, reads) = run(&bus);
    assert_eq!(
        records,
        vec![PciFunctionRecord {
            bus: 0,
            slot: 2,
            function: 0,
            vendor: 0x1234,
            device: 0x1111,
            class: 0x03,
            subclass: 0x00,
            prog_if: 0x00,
            revision: 0x02,
            header_type: 0x00,
        }]
    );
    let r = records[0];
    assert_eq!(describe_device(r.vendor, r.device), "QEMU/Bochs VGA");
    assert_eq!(describe_class(r.class, r.subclass, r.prog_if), "VGA Controller");
    // every slot of every bus is still visited through function 0
    for b in 0..=255u8 {
        for s in 0..=31u8 {
            assert!(probed(&reads, b, s, 0));
        }
    }
    assert_eq!(reads.len(), 256 * 32 + 2);
}

#[test]
fn scan_reads_three_dwords_of_present_function() {
    let bus = [function(0, 0, 0, 0x1237_8086, 0x0600_0002, 0x0000_0000)];
    let (_, reads) = run(&bus);
    assert_eq!(reads[0], PciAddress { bus: 0, slot: 0, function: 0, offset: 0x0 });
    assert_eq!(reads[1], PciAddress { bus: 0, slot: 0, function: 0, offset: 0x8 });
    assert_eq!(reads[2], PciAddress { bus: 0, slot: 0, function: 0, offset: 0xC });
    assert_eq!(reads[3], PciAddress { bus: 0, slot: 1, function: 0, offset: 0x0 });
}

#[test]
fn scan_multifunction_on_last_slot_of_last_bus() {
    let bus = [
        function(255, 31, 0, 0x1000_1AF4, 0x0200_0000, 0x0080_0000),
        function(255, 31, 7, 0x1001_1AF4, 0x0100_0000, 0x0000_0000),
    ];
    let (records, _) = run(&bus);
    let found: Vec<(u8, u8, u8)> = records.iter().map(|r| (r.bus, r.slot, r.function)).collect();
    assert_eq!(found, vec![(255, 31, 0), (255, 31, 7)]);
}

#[test]
fn scanner_state_after_new() {
    let s = PciScanner::new();
    assert!(!s.is_finished());
    assert_eq!(s.next_read(), Some(0x8000_0000));
    let st = s.state();
    assert_eq!((st.bus, st.slot, st.function, st.finished), (0, 0, 0, false));
}
