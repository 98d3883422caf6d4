use uefi_hello_world::names::{describe_class, describe_device};

#[test]
fn device_exact_match() {
    assert_eq!(describe_device(0x1234, 0x1111), "QEMU/Bochs VGA");
    assert_eq!(describe_device(0x8086, 0x1237), "Intel 440FX - 82441FX PMC [Natoma]");
    assert_eq!(describe_device(0x1014, 0xFFFF), "IBM OpenPic2");
    assert_eq!(describe_device(0x1B36, 0x0100), "Red Hat QXL");
}

#[test]
fn device_vendor_fallback() {
    assert_eq!(describe_device(0x1234, 0x0001), "QEMU/Bochs ???");
    assert_eq!(describe_device(0x8086, 0x7010), "Intel ???");
    assert_eq!(describe_device(0x106B, 0x0000), "Apple ???");
}

#[test]
fn device_global_fallback() {
    assert_eq!(describe_device(0x9999, 0x0000), "???");
    assert_eq!(describe_device(0xFFFF, 0xFFFF), "???");
}

#[test]
fn class_exact_match() {
    assert_eq!(describe_class(0x01, 0x06, 0x01), "SATA Controller (AHCI 1.0)");
    assert_eq!(describe_class(0x03, 0x00, 0x00), "VGA Controller");
    assert_eq!(
        describe_class(0x01, 0x01, 0x80),
        "IDE Controller (ISA Compatibility mode-only controller, supports bus mastering)"
    );
}

#[test]
fn class_subclass_fallback() {
    assert_eq!(describe_class(0x01, 0x06, 0x7F), "SATA Controller (Unknown Prog IF)");
    assert_eq!(describe_class(0x03, 0x00, 0x05), "VGA Compatible Controller");
    assert_eq!(describe_class(0x06, 0x00, 0x00), "Host Bridge");
    assert_eq!(describe_class(0x06, 0x80, 0x00), "Bridge (Other)");
}

#[test]
fn class_class_fallback() {
    assert_eq!(describe_class(0x01, 0x42, 0x00), "Mass Storage Controller (Unknown Subclass)");
    assert_eq!(describe_class(0x0C, 0x03, 0x30), "Serial Bus Controller");
    assert_eq!(describe_class(0xFF, 0x00, 0x00), "Unassigned Class (Vendor Specific)");
}

#[test]
fn class_global_fallback() {
    assert_eq!(describe_class(0x14, 0x00, 0x00), "Reserved Class");
    assert_eq!(describe_class(0x80, 0x01, 0x02), "Reserved Class");
}
