//! Human-readable names for vendor/device ids and class codes.
//!
//! Each lookup is stated as layers of partial tables, the most specific
//! first; the executable tables are single matches whose arm order has to
//! agree with that layering.
use vstd::prelude::*;

verus! {

/// Names of individual (vendor, device) pairs.
pub open spec fn device_name(vendor: u16, device: u16) -> Option<&'static str> {
    if vendor == 0x1014 {
        if device == 0x027F { Some("IBM 440GX") }
        else if device == 0xFFFF { Some("IBM OpenPic2") }
        else { None }
    } else if vendor == 0x1054 {
        if device == 0x350E { Some("Hitachi SH7751R") } else { None }
    } else if vendor == 0x1234 {
        if device == 0x1111 { Some("QEMU/Bochs VGA") }
        else if device == 0x1112 { Some("QEMU/Bochs IPMI") }
        else { None }
    } else if vendor == 0x15AD {
        if device == 0x0405 { Some("VMWare SVGA2") }
        else if device == 0x0710 { Some("VMWare SVGA") }
        else if device == 0x0720 { Some("VMWare Net") }
        else if device == 0x0730 { Some("VMWare SCSI") }
        else if device == 0x07B0 { Some("VMWare VMXNET3") }
        else if device == 0x07C0 { Some("VMWare PVSCSI") }
        else if device == 0x1729 { Some("VMWare IDE") }
        else { None }
    } else if vendor == 0x1AF4 {
        if device == 0x1000 { Some("Red Hat / Qumranet VirtIO Net") }
        else if device == 0x1001 { Some("Red Hat / Qumranet VirtIO Block") }
        else if device == 0x1002 { Some("Red Hat / Qumranet VirtIO Balloon") }
        else if device == 0x1003 { Some("Red Hat / Qumranet VirtIO Console") }
        else if device == 0x1004 { Some("Red Hat / Qumranet VirtIO SCSI") }
        else if device == 0x1005 { Some("Red Hat / Qumranet VirtIO RNG") }
        else if device == 0x1009 { Some("Red Hat / Qumranet VirtIO 9P") }
        else if device == 0x1012 { Some("Red Hat / Qumranet VirtIO VSock") }
        else if device == 0x1013 { Some("Red Hat / Qumranet VirtIO PMem") }
        else if device == 0x1014 { Some("Red Hat / Qumranet VirtIO IOMMU") }
        else if device == 0x1015 { Some("Red Hat / Qumranet VirtIO Mem") }
        else { None }
    } else if vendor == 0x1B36 {
        if device == 0x0001 { Some("Red Hat Bridge") }
        else if device == 0x0002 { Some("Red Hat Serial") }
        else if device == 0x0003 { Some("Red Hat Serial 2") }
        else if device == 0x0004 { Some("Red Hat Serial 4") }
        else if device == 0x0005 { Some("Red Hat Test") }
        else if device == 0x0006 { Some("Red Hat Rocker") }
        else if device == 0x0007 { Some("Red Hat SDHCI") }
        else if device == 0x0008 { Some("Red Hat PCIE Host") }
        else if device == 0x0009 { Some("Red Hat PXB") }
        else if device == 0x000A { Some("Red Hat Bridge Seat") }
        else if device == 0x000B { Some("Red Hat PXB PCIE") }
        else if device == 0x000C { Some("Red Hat PCIE RP") }
        else if device == 0x000D { Some("Red Hat XHCI") }
        else if device == 0x000E { Some("Red Hat PCIE Bridge") }
        else if device == 0x000F { Some("Red Hat MDPY") }
        else if device == 0x0010 { Some("Red Hat NVME") }
        else if device == 0x0011 { Some("Red Hat PVPANIC") }
        else if device == 0x0100 { Some("Red Hat QXL") }
        else { None }
    } else if vendor == 0x8086 {
        if device == 0x100E { Some("Intel 82540EM Gigabit Ethernet Controller") }
        else if device == 0x1209 { Some("Intel 82551IT") }
        else if device == 0x1229 { Some("Intel 82557") }
        else if device == 0x1237 { Some("Intel 440FX - 82441FX PMC [Natoma]") }
        else if device == 0x2922 { Some("Intel 82801IR") }
        else if device == 0x7000 { Some("Intel 82371SB PIIX3 ISA [Natoma/Triton II]") }
        else { None }
    } else {
        None
    }
}

/// Names for any other device of a known vendor.
pub open spec fn vendor_name(vendor: u16) -> Option<&'static str> {
    if vendor == 0x1014 { Some("IBM ???") }
    else if vendor == 0x1054 { Some("Hitachi ???") }
    else if vendor == 0x106B { Some("Apple ???") }
    else if vendor == 0x10EC { Some("Realtek ???") }
    else if vendor == 0x10EE { Some("Xilinx ???") }
    else if vendor == 0x11AB { Some("Marvell ???") }
    else if vendor == 0x1234 { Some("QEMU/Bochs ???") }
    else if vendor == 0x15AD { Some("VMWare ???") }
    else if vendor == 0x1AF4 { Some("Red Hat / Qumranet ???") }
    else if vendor == 0x1B36 { Some("Red Hat ???") }
    else if vendor == 0x8086 { Some("Intel ???") }
    else { None }
}

/// The device name if the pair is known, else the vendor's name, else `???`.
pub open spec fn spec_describe_device(vendor: u16, device: u16) -> &'static str {
    match device_name(vendor, device) {
        Some(s) => s,
        None => match vendor_name(vendor) {
            Some(s) => s,
            None => "???",
        },
    }
}

/// Describes a (vendor, device) pair.
pub fn describe_device(vendor: u16, device: u16) -> (r: &'static str)
    ensures
        r == spec_describe_device(vendor, device),
{
    match (vendor, device) {
        (0x1014, 0x027F) => "IBM 440GX",
        (0x1014, 0xFFFF) => "IBM OpenPic2",
        (0x1014, _) => "IBM ???",
        (0x1054, 0x350E) => "Hitachi SH7751R",
        (0x1054, _) => "Hitachi ???",
        (0x106B, _) => "Apple ???",
        (0x10EC, _) => "Realtek ???",
        (0x10EE, _) => "Xilinx ???",
        (0x11AB, _) => "Marvell ???",
        (0x1234, 0x1111) => "QEMU/Bochs VGA",
        (0x1234, 0x1112) => "QEMU/Bochs IPMI",
        (0x1234, _) => "QEMU/Bochs ???",
        (0x15AD, 0x0405) => "VMWare SVGA2",
        (0x15AD, 0x0710) => "VMWare SVGA",
        (0x15AD, 0x0720) => "VMWare Net",
        (0x15AD, 0x0730) => "VMWare SCSI",
        (0x15AD, 0x07B0) => "VMWare VMXNET3",
        (0x15AD, 0x07C0) => "VMWare PVSCSI",
        (0x15AD, 0x1729) => "VMWare IDE",
        (0x15AD, _) => "VMWare ???",
        (0x1AF4, 0x1000) => "Red Hat / Qumranet VirtIO Net",
        (0x1AF4, 0x1001) => "Red Hat / Qumranet VirtIO Block",
        (0x1AF4, 0x1002) => "Red Hat / Qumranet VirtIO Balloon",
        (0x1AF4, 0x1003) => "Red Hat / Qumranet VirtIO Console",
        (0x1AF4, 0x1004) => "Red Hat / Qumranet VirtIO SCSI",
        (0x1AF4, 0x1005) => "Red Hat / Qumranet VirtIO RNG",
        (0x1AF4, 0x1009) => "Red Hat / Qumranet VirtIO 9P",
        (0x1AF4, 0x1012) => "Red Hat / Qumranet VirtIO VSock",
        (0x1AF4, 0x1013) => "Red Hat / Qumranet VirtIO PMem",
        (0x1AF4, 0x1014) => "Red Hat / Qumranet VirtIO IOMMU",
        (0x1AF4, 0x1015) => "Red Hat / Qumranet VirtIO Mem",
        (0x1AF4, _) => "Red Hat / Qumranet ???",
        (0x1B36, 0x0001) => "Red Hat Bridge",
        (0x1B36, 0x0002) => "Red Hat Serial",
        (0x1B36, 0x0003) => "Red Hat Serial 2",
        (0x1B36, 0x0004) => "Red Hat Serial 4",
        (0x1B36, 0x0005) => "Red Hat Test",
        (0x1B36, 0x0006) => "Red Hat Rocker",
        (0x1B36, 0x0007) => "Red Hat SDHCI",
        (0x1B36, 0x0008) => "Red Hat PCIE Host",
        (0x1B36, 0x0009) => "Red Hat PXB",
        (0x1B36, 0x000A) => "Red Hat Bridge Seat",
        (0x1B36, 0x000B) => "Red Hat PXB PCIE",
        (0x1B36, 0x000C) => "Red Hat PCIE RP",
        (0x1B36, 0x000D) => "Red Hat XHCI",
        (0x1B36, 0x000E) => "Red Hat PCIE Bridge",
        (0x1B36, 0x000F) => "Red Hat MDPY",
        (0x1B36, 0x0010) => "Red Hat NVME",
        (0x1B36, 0x0011) => "Red Hat PVPANIC",
        (0x1B36, 0x0100) => "Red Hat QXL",
        (0x1B36, _) => "Red Hat ???",
        (0x8086, 0x100E) => "Intel 82540EM Gigabit Ethernet Controller",
        (0x8086, 0x1209) => "Intel 82551IT",
        (0x8086, 0x1229) => "Intel 82557",
        (0x8086, 0x1237) => "Intel 440FX - 82441FX PMC [Natoma]",
        (0x8086, 0x2922) => "Intel 82801IR",
        (0x8086, 0x7000) => "Intel 82371SB PIIX3 ISA [Natoma/Triton II]",
        (0x8086, _) => "Intel ???",
        _ => "???",
    }
}

/// Names of individual (class, subclass, programming interface) triples.
pub open spec fn prog_if_name(class: u8, subclass: u8, prog_if: u8) -> Option<&'static str> {
    if class == 0x01 && subclass == 0x01 && prog_if == 0x00 {
        Some("IDE Controller (ISA Compatibility mode only)")
    } else if class == 0x01 && subclass == 0x01 && prog_if == 0x05 {
        Some("IDE Controller (PCI native mode only)")
    } else if class == 0x01 && subclass == 0x01 && prog_if == 0x0A {
        Some("IDE Controller (ISA Compatibility mode controller, supports both channels switched to PCI native mode)")
    } else if class == 0x01 && subclass == 0x01 && prog_if == 0x0F {
        Some("IDE Controller (PCI native mode controller, supports both channels switched to ISA compatibility mode)")
    } else if class == 0x01 && subclass == 0x01 && prog_if == 0x80 {
        Some("IDE Controller (ISA Compatibility mode-only controller, supports bus mastering)")
    } else if class == 0x01 && subclass == 0x01 && prog_if == 0x85 {
        Some("IDE Controller (PCI native mode-only controller, supports bus mastering)")
    } else if class == 0x01 && subclass == 0x01 && prog_if == 0x8A {
        Some("IDE Controller (ISA Compatibility mode controller, supports both channels switched to PCI native mode, supports bus mastering)")
    } else if class == 0x01 && subclass == 0x01 && prog_if == 0x8F {
        Some("IDE Controller (PCI native mode controller, supports both channels switched to ISA compatibility mode, supports bus mastering)")
    } else if class == 0x01 && subclass == 0x05 && prog_if == 0x20 {
        Some("ATA Controller (Single DMA)")
    } else if class == 0x01 && subclass == 0x05 && prog_if == 0x30 {
        Some("ATA Controller (Chained DMA)")
    } else if class == 0x01 && subclass == 0x06 && prog_if == 0x00 {
        Some("SATA Controller (Vendor Specific Interface)")
    } else if class == 0x01 && subclass == 0x06 && prog_if == 0x01 {
        Some("SATA Controller (AHCI 1.0)")
    } else if class == 0x01 && subclass == 0x06 && prog_if == 0x02 {
        Some("SATA Controller (Serial Storage Bus)")
    } else if class == 0x01 && subclass == 0x07 && prog_if == 0x00 {
        Some("SAS Controller (SAS)")
    } else if class == 0x01 && subclass == 0x07 && prog_if == 0x01 {
        Some("SAS Controller (Serial Storage Bus)")
    } else if class == 0x01 && subclass == 0x08 && prog_if == 0x01 {
        Some("NVMHCI Controller")
    } else if class == 0x01 && subclass == 0x08 && prog_if == 0x02 {
        Some("NVM Express Controller")
    } else if class == 0x03 && subclass == 0x00 && prog_if == 0x00 {
        Some("VGA Controller")
    } else if class == 0x03 && subclass == 0x00 && prog_if == 0x01 {
        Some("8514/VGA-Compatible Controller")
    } else if class == 0x06 && subclass == 0x04 && prog_if == 0x00 {
        Some("PCI-to-PCI Bridge (Normal Decode)")
    } else if class == 0x06 && subclass == 0x04 && prog_if == 0x01 {
        Some("PCI-to-PCI Bridge (Subtractive Decode)")
    } else if class == 0x06 && subclass == 0x08 && prog_if == 0x00 {
        Some("RACEway Bridge (Transparent Mode)")
    } else if class == 0x06 && subclass == 0x08 && prog_if == 0x01 {
        Some("RACEway Bridge (Endpoint Mode)")
    } else if class == 0x06 && subclass == 0x09 && prog_if == 0x40 {
        Some("PCI-to-PCI Bridge (Semi-Transparent, Primary bus towards host CPU)")
    } else if class == 0x06 && subclass == 0x09 && prog_if == 0x80 {
        Some("PCI-to-PCI Bridge (Semi-Transparent, Secondary bus towards host CPU)")
    } else {
        None
    }
}

/// Names of a subclass, whatever its programming interface.
pub open spec fn subclass_name(class: u8, subclass: u8) -> Option<&'static str> {
    if class == 0x00 && subclass == 0x00 {
        Some("Non-VGA-Compatible Unclassified Device")
    } else if class == 0x00 && subclass == 0x01 {
        Some("VGA-Compatible Unclassified Device")
    } else if class == 0x01 && subclass == 0x00 {
        Some("SCSI Bus Controller")
    } else if class == 0x01 && subclass == 0x01 {
        Some("IDE Controller (Unknown Prog IF)")
    } else if class == 0x01 && subclass == 0x02 {
        Some("Floppy Disk Controller")
    } else if class == 0x01 && subclass == 0x03 {
        Some("IPI Bus Controller")
    } else if class == 0x01 && subclass == 0x04 {
        Some("RAID Controller")
    } else if class == 0x01 && subclass == 0x05 {
        Some("ATA Controller (Unknown Prog IF)")
    } else if class == 0x01 && subclass == 0x06 {
        Some("SATA Controller (Unknown Prog IF)")
    } else if class == 0x01 && subclass == 0x07 {
        Some("SAS Controller (Unknown Prog IF)")
    } else if class == 0x01 && subclass == 0x08 {
        Some("Non-Volatile Memory Controller")
    } else if class == 0x01 && subclass == 0x80 {
        Some("Mass Storage Controller (Other)")
    } else if class == 0x02 && subclass == 0x00 {
        Some("Ethernet Controller")
    } else if class == 0x02 && subclass == 0x01 {
        Some("Token Ring Controller")
    } else if class == 0x02 && subclass == 0x02 {
        Some("FDDI Controller")
    } else if class == 0x02 && subclass == 0x03 {
        Some("ATM Controller")
    } else if class == 0x02 && subclass == 0x04 {
        Some("ISDN Controller")
    } else if class == 0x02 && subclass == 0x05 {
        Some("WorldFip Controller")
    } else if class == 0x02 && subclass == 0x06 {
        Some("PICMG 2.14 Multi Computing Controller")
    } else if class == 0x02 && subclass == 0x07 {
        Some("Infiniband Controller")
    } else if class == 0x02 && subclass == 0x08 {
        Some("Fabric Controller")
    } else if class == 0x02 && subclass == 0x80 {
        Some("Network Controller (Other)")
    } else if class == 0x03 && subclass == 0x00 {
        Some("VGA Compatible Controller")
    } else if class == 0x03 && subclass == 0x01 {
        Some("XGA Controller")
    } else if class == 0x03 && subclass == 0x02 {
        Some("3D Controller (Not VGA-Compatible)")
    } else if class == 0x03 && subclass == 0x80 {
        Some("Display Controller (Other)")
    } else if class == 0x04 && subclass == 0x00 {
        Some("Multimedia Video Controller")
    } else if class == 0x04 && subclass == 0x01 {
        Some("Multimedia Audio Controller")
    } else if class == 0x04 && subclass == 0x02 {
        Some("Computer Telephony Device")
    } else if class == 0x04 && subclass == 0x03 {
        Some("Audio Device")
    } else if class == 0x04 && subclass == 0x80 {
        Some("Multimedia Controller (Other)")
    } else if class == 0x05 && subclass == 0x00 {
        Some("RAM Controller")
    } else if class == 0x05 && subclass == 0x01 {
        Some("Flash Controller")
    } else if class == 0x05 && subclass == 0x80 {
        Some("Memory Controller (Other)")
    } else if class == 0x06 && subclass == 0x00 {
        Some("Host Bridge")
    } else if class == 0x06 && subclass == 0x01 {
        Some("ISA Bridge")
    } else if class == 0x06 && subclass == 0x02 {
        Some("EISA Bridge")
    } else if class == 0x06 && subclass == 0x03 {
        Some("MCA Bridge")
    } else if class == 0x06 && subclass == 0x04 {
        Some("PCI-to-PCI Bridge (Unknown Prog IF)")
    } else if class == 0x06 && subclass == 0x05 {
        Some("PCMCIA Bridge")
    } else if class == 0x06 && subclass == 0x06 {
        Some("NuBus Bridge")
    } else if class == 0x06 && subclass == 0x07 {
        Some("CardBus Bridge")
    } else if class == 0x06 && subclass == 0x08 {
        Some("RACEway Bridge (Unknown Prog IF)")
    } else if class == 0x06 && subclass == 0x09 {
        Some("PCI-to-PCI Bridge (Unknown Prog IF)")
    } else if class == 0x06 && subclass == 0x0A {
        Some("InfiniBand-to-PCI Host Bridge")
    } else if class == 0x06 && subclass == 0x80 {
        Some("Bridge (Other)")
    } else {
        None
    }
}

/// Names of a class, whatever its subclass.
pub open spec fn class_name(class: u8) -> Option<&'static str> {
    if class == 0x00 {
        Some("Unclassified Device")
    } else if class == 0x01 {
        Some("Mass Storage Controller (Unknown Subclass)")
    } else if class == 0x02 {
        Some("Network Controller (Unknown Subclass)")
    } else if class == 0x03 {
        Some("Display Controller (Unknown Subclass)")
    } else if class == 0x04 {
        Some("Multimedia Controller (Unknown Subclass)")
    } else if class == 0x05 {
        Some("Memory Controller (Unknown Subclass)")
    } else if class == 0x06 {
        Some("Bridge (Unknown Subclass)")
    } else if class == 0x07 {
        Some("Simple Communication Controller")
    } else if class == 0x08 {
        Some("Base System Peripheral")
    } else if class == 0x09 {
        Some("Input Device Controller")
    } else if class == 0x0A {
        Some("Docking Station")
    } else if class == 0x0B {
        Some("Processor")
    } else if class == 0x0C {
        Some("Serial Bus Controller")
    } else if class == 0x0D {
        Some("Wireless Controller")
    } else if class == 0x0E {
        Some("Intelligent Controller")
    } else if class == 0x0F {
        Some("Satellite Communication Controller")
    } else if class == 0x10 {
        Some("Encryption Controller")
    } else if class == 0x11 {
        Some("Signal Processing Controller")
    } else if class == 0x12 {
        Some("Processing Accelerator")
    } else if class == 0x13 {
        Some("Non-Essential Instrumentation")
    } else if class == 0x40 {
        Some("Co-Processor")
    } else if class == 0xFF {
        Some("Unassigned Class (Vendor Specific)")
    } else {
        None
    }
}

/// The most specific name known for a class code; a class that no table
/// lists is reserved.
pub open spec fn spec_describe_class(class: u8, subclass: u8, prog_if: u8) -> &'static str {
    match prog_if_name(class, subclass, prog_if) {
        Some(s) => s,
        None => match subclass_name(class, subclass) {
            Some(s) => s,
            None => match class_name(class) {
                Some(s) => s,
                None => "Reserved Class",
            },
        },
    }
}

/// Describes a class code.
pub fn describe_class(class: u8, subclass: u8, prog_if: u8) -> (r: &'static str)
    ensures
        r == spec_describe_class(class, subclass, prog_if),
{
    match (class, subclass, prog_if) {
        (0x00, 0x00, _) => "Non-VGA-Compatible Unclassified Device",
        (0x00, 0x01, _) => "VGA-Compatible Unclassified Device",
        (0x00, _, _) => "Unclassified Device",
        (0x01, 0x00, _) => "SCSI Bus Controller",
        (0x01, 0x01, 0x00) => "IDE Controller (ISA Compatibility mode only)",
        (0x01, 0x01, 0x05) => "IDE Controller (PCI native mode only)",
        (0x01, 0x01, 0x0A) => "IDE Controller (ISA Compatibility mode controller, supports both channels switched to PCI native mode)",
        (0x01, 0x01, 0x0F) => "IDE Controller (PCI native mode controller, supports both channels switched to ISA compatibility mode)",
        (0x01, 0x01, 0x80) => "IDE Controller (ISA Compatibility mode-only controller, supports bus mastering)",
        (0x01, 0x01, 0x85) => "IDE Controller (PCI native mode-only controller, supports bus mastering)",
        (0x01, 0x01, 0x8A) => "IDE Controller (ISA Compatibility mode controller, supports both channels switched to PCI native mode, supports bus mastering)",
        (0x01, 0x01, 0x8F) => "IDE Controller (PCI native mode controller, supports both channels switched to ISA compatibility mode, supports bus mastering)",
        (0x01, 0x01, _) => "IDE Controller (Unknown Prog IF)",
        (0x01, 0x02, _) => "Floppy Disk Controller",
        (0x01, 0x03, _) => "IPI Bus Controller",
        (0x01, 0x04, _) => "RAID Controller",
        (0x01, 0x05, 0x20) => "ATA Controller (Single DMA)",
        (0x01, 0x05, 0x30) => "ATA Controller (Chained DMA)",
        (0x01, 0x05, _) => "ATA Controller (Unknown Prog IF)",
        (0x01, 0x06, 0x00) => "SATA Controller (Vendor Specific Interface)",
        (0x01, 0x06, 0x01) => "SATA Controller (AHCI 1.0)",
        (0x01, 0x06, 0x02) => "SATA Controller (Serial Storage Bus)",
        (0x01, 0x06, _) => "SATA Controller (Unknown Prog IF)",
        (0x01, 0x07, 0x00) => "SAS Controller (SAS)",
        (0x01, 0x07, 0x01) => "SAS Controller (Serial Storage Bus)",
        (0x01, 0x07, _) => "SAS Controller (Unknown Prog IF)",
        (0x01, 0x08, 0x01) => "NVMHCI Controller",
        (0x01, 0x08, 0x02) => "NVM Express Controller",
        (0x01, 0x08, _) => "Non-Volatile Memory Controller",
        (0x01, 0x80, _) => "Mass Storage Controller (Other)",
        (0x01, _, _) => "Mass Storage Controller (Unknown Subclass)",
        (0x02, 0x00, _) => "Ethernet Controller",
        (0x02, 0x01, _) => "Token Ring Controller",
        (0x02, 0x02, _) => "FDDI Controller",
        (0x02, 0x03, _) => "ATM Controller",
        (0x02, 0x04, _) => "ISDN Controller",
        (0x02, 0x05, _) => "WorldFip Controller",
        (0x02, 0x06, _) => "PICMG 2.14 Multi Computing Controller",
        (0x02, 0x07, _) => "Infiniband Controller",
        (0x02, 0x08, _) => "Fabric Controller",
        (0x02, 0x80, _) => "Network Controller (Other)",
        (0x02, _, _) => "Network Controller (Unknown Subclass)",
        (0x03, 0x00, 0x00) => "VGA Controller",
        (0x03, 0x00, 0x01) => "8514/VGA-Compatible Controller",
        (0x03, 0x00, _) => "VGA Compatible Controller",
        (0x03, 0x01, _) => "XGA Controller",
        (0x03, 0x02, _) => "3D Controller (Not VGA-Compatible)",
        (0x03, 0x80, _) => "Display Controller (Other)",
        (0x03, _, _) => "Display Controller (Unknown Subclass)",
        (0x04, 0x00, _) => "Multimedia Video Controller",
        (0x04, 0x01, _) => "Multimedia Audio Controller",
        (0x04, 0x02, _) => "Computer Telephony Device",
        (0x04, 0x03, _) => "Audio Device",
        (0x04, 0x80, _) => "Multimedia Controller (Other)",
        (0x04, _, _) => "Multimedia Controller (Unknown Subclass)",
        (0x05, 0x00, _) => "RAM Controller",
        (0x05, 0x01, _) => "Flash Controller",
        (0x05, 0x80, _) => "Memory Controller (Other)",
        (0x05, _, _) => "Memory Controller (Unknown Subclass)",
        (0x06, 0x00, _) => "Host Bridge",
        (0x06, 0x01, _) => "ISA Bridge",
        (0x06, 0x02, _) => "EISA Bridge",
        (0x06, 0x03, _) => "MCA Bridge",
        (0x06, 0x04, 0x00) => "PCI-to-PCI Bridge (Normal Decode)",
        (0x06, 0x04, 0x01) => "PCI-to-PCI Bridge (Subtractive Decode)",
        (0x06, 0x04, _) => "PCI-to-PCI Bridge (Unknown Prog IF)",
        (0x06, 0x05, _) => "PCMCIA Bridge",
        (0x06, 0x06, _) => "NuBus Bridge",
        (0x06, 0x07, _) => "CardBus Bridge",
        (0x06, 0x08, 0x00) => "RACEway Bridge (Transparent Mode)",
        (0x06, 0x08, 0x01) => "RACEway Bridge (Endpoint Mode)",
        (0x06, 0x08, _) => "RACEway Bridge (Unknown Prog IF)",
        (0x06, 0x09, 0x40) => "PCI-to-PCI Bridge (Semi-Transparent, Primary bus towards host CPU)",
        (0x06, 0x09, 0x80) => "PCI-to-PCI Bridge (Semi-Transparent, Secondary bus towards host CPU)",
        (0x06, 0x09, _) => "PCI-to-PCI Bridge (Unknown Prog IF)",
        (0x06, 0x0A, _) => "InfiniBand-to-PCI Host Bridge",
        (0x06, 0x80, _) => "Bridge (Other)",
        (0x06, _, _) => "Bridge (Unknown Subclass)",
        (0x07, _, _) => "Simple Communication Controller",
        (0x08, _, _) => "Base System Peripheral",
        (0x09, _, _) => "Input Device Controller",
        (0x0A, _, _) => "Docking Station",
        (0x0B, _, _) => "Processor",
        (0x0C, _, _) => "Serial Bus Controller",
        (0x0D, _, _) => "Wireless Controller",
        (0x0E, _, _) => "Intelligent Controller",
        (0x0F, _, _) => "Satellite Communication Controller",
        (0x10, _, _) => "Encryption Controller",
        (0x11, _, _) => "Signal Processing Controller",
        (0x12, _, _) => "Processing Accelerator",
        (0x13, _, _) => "Non-Essential Instrumentation",
        (0x40, _, _) => "Co-Processor",
        (0xFF, _, _) => "Unassigned Class (Vendor Specific)",
        _ => "Reserved Class",
    }
}

} // verus!
