use neshdr::console::Console;
use neshdr::mirroring::Mirroring;
use neshdr::same_text;
use neshdr::timing::Timing;
use neshdr::vs_system::{VsSystemHardware, VsSystemPPU};

#[test]
fn console_names_and_codes() {
    assert_eq!(Console::from_name("Vs System"), Some(Console::VsSystem));
    assert_eq!(Console::from_name("Famicom Network System"), Some(Console::FamicomNetworkSystem));
    assert_eq!(Console::from_name("NES "), None);
    assert_eq!(Console::NesWithEPSM.name(), "NES With EPSM");
    assert_eq!(Console::UM6539.code(), 0x0B);
    assert_eq!(Console::from_code(0x0C), Some(Console::FamicomNetworkSystem));
    assert_eq!(Console::from_code(0x10), None);
    for code in 0..16u8 {
        let c = Console::from_code(code).unwrap();
        assert_eq!(c.code(), code);
        assert_eq!(Console::from_name(&c.name()), Some(c));
    }
}

#[test]
fn vs_system_names_and_codes() {
    assert_eq!(VsSystemPPU::RP2C04_0001.name(), "RP2C04-0001");
    assert_eq!(VsSystemPPU::from_name("RC2C05-04"), Some(VsSystemPPU::RC2C05_04));
    assert_eq!(VsSystemPPU::from_code(0x0A), Some(VsSystemPPU::RC2C05_03));
    assert_eq!(VsSystemHardware::from_name("Default"), Some(VsSystemHardware::UnisystemNormal));
    assert_eq!(
        VsSystemHardware::DualSystemRaidOnBungelingBay.name(),
        "Raid on Bungeling Bay"
    );
    assert_eq!(VsSystemHardware::from_code(6), Some(VsSystemHardware::DualSystemRaidOnBungelingBay));
    assert_eq!(VsSystemHardware::from_code(7), None);
    for code in 0..16u8 {
        let p = VsSystemPPU::from_code(code).unwrap();
        assert_eq!(VsSystemPPU::from_name(&p.name()), Some(p));
    }
}

#[test]
fn mirroring_and_timing_names() {
    assert_eq!(Mirroring::from_name("FourScreens"), Some(Mirroring::FourScreens));
    assert_eq!(Mirroring::Horizontal.code(), 1);
    assert_eq!(Mirroring::from_name("horizontal"), None);
    assert_eq!(Timing::from_name("UA6538"), Some(Timing::UA6538));
    assert_eq!(Timing::Multiple.name(), "Multiple");
    assert_eq!(Timing::from_code(1), Some(Timing::RP2C07));
    assert_eq!(Timing::from_code(4), None);
}

#[test]
fn text_comparison() {
    assert!(same_text("VT01", "VT01"));
    assert!(!same_text("VT01", "VT02"));
    assert!(!same_text("", "a"));
}
