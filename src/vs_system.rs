//! The two extra fields of a Vs. System cartridge.

use crate::same_text;
use vstd::prelude::*;

verus! {

/// PPU of a Vs. System cartridge.
#[derive(Debug, Clone, Copy, PartialEq, Eq, Structural)]
pub enum VsSystemPPU {
    Any,
    Reserved01,
    RP2C04_0001,
    RP2C04_0002,
    RP2C04_0003,
    RP2C04_0004,
    Reserved06,
    Reserved07,
    RC2C05_01,
    RC2C05_02,
    RC2C05_03,
    RC2C05_04,
    Reserved0C,
    Reserved0D,
    Reserved0E,
    Reserved0F,
}

impl VsSystemPPU {
    /// The number that stands for this variant in the header.
    pub open spec fn spec_code(self) -> u8 {
        match self {
            VsSystemPPU::Any => 0,
            VsSystemPPU::Reserved01 => 1,
            VsSystemPPU::RP2C04_0001 => 2,
            VsSystemPPU::RP2C04_0002 => 3,
            VsSystemPPU::RP2C04_0003 => 4,
            VsSystemPPU::RP2C04_0004 => 5,
            VsSystemPPU::Reserved06 => 6,
            VsSystemPPU::Reserved07 => 7,
            VsSystemPPU::RC2C05_01 => 8,
            VsSystemPPU::RC2C05_02 => 9,
            VsSystemPPU::RC2C05_03 => 10,
            VsSystemPPU::RC2C05_04 => 11,
            VsSystemPPU::Reserved0C => 12,
            VsSystemPPU::Reserved0D => 13,
            VsSystemPPU::Reserved0E => 14,
            VsSystemPPU::Reserved0F => 15,
        }
    }

    pub open spec fn spec_from_code(code: u8) -> Option<VsSystemPPU> {
        match code {
            0 => Some(VsSystemPPU::Any),
            1 => Some(VsSystemPPU::Reserved01),
            2 => Some(VsSystemPPU::RP2C04_0001),
            3 => Some(VsSystemPPU::RP2C04_0002),
            4 => Some(VsSystemPPU::RP2C04_0003),
            5 => Some(VsSystemPPU::RP2C04_0004),
            6 => Some(VsSystemPPU::Reserved06),
            7 => Some(VsSystemPPU::Reserved07),
            8 => Some(VsSystemPPU::RC2C05_01),
            9 => Some(VsSystemPPU::RC2C05_02),
            10 => Some(VsSystemPPU::RC2C05_03),
            11 => Some(VsSystemPPU::RC2C05_04),
            12 => Some(VsSystemPPU::Reserved0C),
            13 => Some(VsSystemPPU::Reserved0D),
            14 => Some(VsSystemPPU::Reserved0E),
            15 => Some(VsSystemPPU::Reserved0F),
            _ => None,
        }
    }

    /// The canonical name of this variant in the textual description.
    pub open spec fn spec_name(self) -> Seq<char> {
        match self {
            VsSystemPPU::Any => "Any"@,
            VsSystemPPU::Reserved01 => "Reserved01"@,
            VsSystemPPU::RP2C04_0001 => "RP2C04-0001"@,
            VsSystemPPU::RP2C04_0002 => "RP2C04-0002"@,
            VsSystemPPU::RP2C04_0003 => "RP2C04-0003"@,
            VsSystemPPU::RP2C04_0004 => "RP2C04-0004"@,
            VsSystemPPU::Reserved06 => "Reserved06"@,
            VsSystemPPU::Reserved07 => "Reserved07"@,
            VsSystemPPU::RC2C05_01 => "RC2C05-01"@,
            VsSystemPPU::RC2C05_02 => "RC2C05-02"@,
            VsSystemPPU::RC2C05_03 => "RC2C05-03"@,
            VsSystemPPU::RC2C05_04 => "RC2C05-04"@,
            VsSystemPPU::Reserved0C => "Reserved0C"@,
            VsSystemPPU::Reserved0D => "Reserved0D"@,
            VsSystemPPU::Reserved0E => "Reserved0E"@,
            VsSystemPPU::Reserved0F => "Reserved0F"@,
        }
    }

    pub open spec fn spec_from_name(text: Seq<char>) -> Option<VsSystemPPU> {
        if text == "Any"@ {
            Some(VsSystemPPU::Any)
        } else if text == "Reserved01"@ {
            Some(VsSystemPPU::Reserved01)
        } else if text == "RP2C04-0001"@ {
            Some(VsSystemPPU::RP2C04_0001)
        } else if text == "RP2C04-0002"@ {
            Some(VsSystemPPU::RP2C04_0002)
        } else if text == "RP2C04-0003"@ {
            Some(VsSystemPPU::RP2C04_0003)
        } else if text == "RP2C04-0004"@ {
            Some(VsSystemPPU::RP2C04_0004)
        } else if text == "Reserved06"@ {
            Some(VsSystemPPU::Reserved06)
        } else if text == "Reserved07"@ {
            Some(VsSystemPPU::Reserved07)
        } else if text == "RC2C05-01"@ {
            Some(VsSystemPPU::RC2C05_01)
        } else if text == "RC2C05-02"@ {
            Some(VsSystemPPU::RC2C05_02)
        } else if text == "RC2C05-03"@ {
            Some(VsSystemPPU::RC2C05_03)
        } else if text == "RC2C05-04"@ {
            Some(VsSystemPPU::RC2C05_04)
        } else if text == "Reserved0C"@ {
            Some(VsSystemPPU::Reserved0C)
        } else if text == "Reserved0D"@ {
            Some(VsSystemPPU::Reserved0D)
        } else if text == "Reserved0E"@ {
            Some(VsSystemPPU::Reserved0E)
        } else if text == "Reserved0F"@ {
            Some(VsSystemPPU::Reserved0F)
        } else {
            None
        }
    }

    pub fn code(&self) -> (r: u8)
        ensures
            r == self.spec_code(),
    {
        match self {
            VsSystemPPU::Any => 0,
            VsSystemPPU::Reserved01 => 1,
            VsSystemPPU::RP2C04_0001 => 2,
            VsSystemPPU::RP2C04_0002 => 3,
            VsSystemPPU::RP2C04_0003 => 4,
            VsSystemPPU::RP2C04_0004 => 5,
            VsSystemPPU::Reserved06 => 6,
            VsSystemPPU::Reserved07 => 7,
            VsSystemPPU::RC2C05_01 => 8,
            VsSystemPPU::RC2C05_02 => 9,
            VsSystemPPU::RC2C05_03 => 10,
            VsSystemPPU::RC2C05_04 => 11,
            VsSystemPPU::Reserved0C => 12,
            VsSystemPPU::Reserved0D => 13,
            VsSystemPPU::Reserved0E => 14,
            VsSystemPPU::Reserved0F => 15,
        }
    }

    /// The variant with the given number, if there is one.
    pub fn from_code(code: u8) -> (r: Option<VsSystemPPU>)
        ensures
            r == VsSystemPPU::spec_from_code(code),
    {
        match code {
            0 => Some(VsSystemPPU::Any),
            1 => Some(VsSystemPPU::Reserved01),
            2 => Some(VsSystemPPU::RP2C04_0001),
            3 => Some(VsSystemPPU::RP2C04_0002),
            4 => Some(VsSystemPPU::RP2C04_0003),
            5 => Some(VsSystemPPU::RP2C04_0004),
            6 => Some(VsSystemPPU::Reserved06),
            7 => Some(VsSystemPPU::Reserved07),
            8 => Some(VsSystemPPU::RC2C05_01),
            9 => Some(VsSystemPPU::RC2C05_02),
            10 => Some(VsSystemPPU::RC2C05_03),
            11 => Some(VsSystemPPU::RC2C05_04),
            12 => Some(VsSystemPPU::Reserved0C),
            13 => Some(VsSystemPPU::Reserved0D),
            14 => Some(VsSystemPPU::Reserved0E),
            15 => Some(VsSystemPPU::Reserved0F),
            _ => None,
        }
    }

    pub fn name(&self) -> (r: String)
        ensures
            r@ == self.spec_name(),
    {
        match self {
            VsSystemPPU::Any => "Any".to_owned(),
            VsSystemPPU::Reserved01 => "Reserved01".to_owned(),
            VsSystemPPU::RP2C04_0001 => "RP2C04-0001".to_owned(),
            VsSystemPPU::RP2C04_0002 => "RP2C04-0002".to_owned(),
            VsSystemPPU::RP2C04_0003 => "RP2C04-0003".to_owned(),
            VsSystemPPU::RP2C04_0004 => "RP2C04-0004".to_owned(),
            VsSystemPPU::Reserved06 => "Reserved06".to_owned(),
            VsSystemPPU::Reserved07 => "Reserved07".to_owned(),
            VsSystemPPU::RC2C05_01 => "RC2C05-01".to_owned(),
            VsSystemPPU::RC2C05_02 => "RC2C05-02".to_owned(),
            VsSystemPPU::RC2C05_03 => "RC2C05-03".to_owned(),
            VsSystemPPU::RC2C05_04 => "RC2C05-04".to_owned(),
            VsSystemPPU::Reserved0C => "Reserved0C".to_owned(),
            VsSystemPPU::Reserved0D => "Reserved0D".to_owned(),
            VsSystemPPU::Reserved0E => "Reserved0E".to_owned(),
            VsSystemPPU::Reserved0F => "Reserved0F".to_owned(),
        }
    }

    /// The PPU with the given name, if any.
    pub fn from_name(text: &str) -> (r: Option<VsSystemPPU>)
        ensures
            r == VsSystemPPU::spec_from_name(text@),
    {
        if same_text(text, "Any") {
            Some(VsSystemPPU::Any)
        } else if same_text(text, "Reserved01") {
            Some(VsSystemPPU::Reserved01)
        } else if same_text(text, "RP2C04-0001") {
            Some(VsSystemPPU::RP2C04_0001)
        } else if same_text(text, "RP2C04-0002") {
            Some(VsSystemPPU::RP2C04_0002)
        } else if same_text(text, "RP2C04-0003") {
            Some(VsSystemPPU::RP2C04_0003)
        } else if same_text(text, "RP2C04-0004") {
            Some(VsSystemPPU::RP2C04_0004)
        } else if same_text(text, "Reserved06") {
            Some(VsSystemPPU::Reserved06)
        } else if same_text(text, "Reserved07") {
            Some(VsSystemPPU::Reserved07)
        } else if same_text(text, "RC2C05-01") {
            Some(VsSystemPPU::RC2C05_01)
        } else if same_text(text, "RC2C05-02") {
            Some(VsSystemPPU::RC2C05_02)
        } else if same_text(text, "RC2C05-03") {
            Some(VsSystemPPU::RC2C05_03)
        } else if same_text(text, "RC2C05-04") {
            Some(VsSystemPPU::RC2C05_04)
        } else if same_text(text, "Reserved0C") {
            Some(VsSystemPPU::Reserved0C)
        } else if same_text(text, "Reserved0D") {
            Some(VsSystemPPU::Reserved0D)
        } else if same_text(text, "Reserved0E") {
            Some(VsSystemPPU::Reserved0E)
        } else if same_text(text, "Reserved0F") {
            Some(VsSystemPPU::Reserved0F)
        } else {
            None
        }
    }

    /// The name of a variant reads back as that variant.
    pub proof fn lemma_name_round_trip(self)
        ensures
            VsSystemPPU::spec_from_name(self.spec_name()) == Some(self),
    {
        reveal_strlit("Any");
        reveal_strlit("Reserved01");
        reveal_strlit("RP2C04-0001");
        reveal_strlit("RP2C04-0002");
        reveal_strlit("RP2C04-0003");
        reveal_strlit("RP2C04-0004");
        reveal_strlit("Reserved06");
        reveal_strlit("Reserved07");
        reveal_strlit("RC2C05-01");
        reveal_strlit("RC2C05-02");
        reveal_strlit("RC2C05-03");
        reveal_strlit("RC2C05-04");
        reveal_strlit("Reserved0C");
        reveal_strlit("Reserved0D");
        reveal_strlit("Reserved0E");
        reveal_strlit("Reserved0F");
        match self {
            VsSystemPPU::Any => {},
            VsSystemPPU::Reserved01 => {
                assert("Reserved01"@.len() != "Any"@.len());
            },
            VsSystemPPU::RP2C04_0001 => {
                assert("RP2C04-0001"@.len() != "Any"@.len());
                assert("RP2C04-0001"@.len() != "Reserved01"@.len());
            },
            VsSystemPPU::RP2C04_0002 => {
                assert("RP2C04-0002"@.len() != "Any"@.len());
                assert("RP2C04-0002"@.len() != "Reserved01"@.len());
                assert("RP2C04-0002"@[10] != "RP2C04-0001"@[10]);
            },
            VsSystemPPU::RP2C04_0003 => {
                assert("RP2C04-0003"@.len() != "Any"@.len());
                assert("RP2C04-0003"@.len() != "Reserved01"@.len());
                assert("RP2C04-0003"@[10] != "RP2C04-0001"@[10]);
                assert("RP2C04-0003"@[10] != "RP2C04-0002"@[10]);
            },
            VsSystemPPU::RP2C04_0004 => {
                assert("RP2C04-0004"@.len() != "Any"@.len());
                assert("RP2C04-0004"@.len() != "Reserved01"@.len());
                assert("RP2C04-0004"@[10] != "RP2C04-0001"@[10]);
                assert("RP2C04-0004"@[10] != "RP2C04-0002"@[10]);
                assert("RP2C04-0004"@[10] != "RP2C04-0003"@[10]);
            },
            VsSystemPPU::Reserved06 => {
                assert("Reserved06"@.len() != "Any"@.len());
                assert("Reserved06"@[9] != "Reserved01"@[9]);
                assert("Reserved06"@.len() != "RP2C04-0001"@.len());
                assert("Reserved06"@.len() != "RP2C04-0002"@.len());
                assert("Reserved06"@.len() != "RP2C04-0003"@.len());
                assert("Reserved06"@.len() != "RP2C04-0004"@.len());
            },
            VsSystemPPU::Reserved07 => {
                assert("Reserved07"@.len() != "Any"@.len());
                assert("Reserved07"@[9] != "Reserved01"@[9]);
                assert("Reserved07"@.len() != "RP2C04-0001"@.len());
                assert("Reserved07"@.len() != "RP2C04-0002"@.len());
                assert("Reserved07"@.len() != "RP2C04-0003"@.len());
                assert("Reserved07"@.len() != "RP2C04-0004"@.len());
                assert("Reserved07"@[9] != "Reserved06"@[9]);
            },
            VsSystemPPU::RC2C05_01 => {
                assert("RC2C05-01"@.len() != "Any"@.len());
                assert("RC2C05-01"@.len() != "Reserved01"@.len());
                assert("RC2C05-01"@.len() != "RP2C04-0001"@.len());
                assert("RC2C05-01"@.len() != "RP2C04-0002"@.len());
                assert("RC2C05-01"@.len() != "RP2C04-0003"@.len());
                assert("RC2C05-01"@.len() != "RP2C04-0004"@.len());
                assert("RC2C05-01"@.len() != "Reserved06"@.len());
                assert("RC2C05-01"@.len() != "Reserved07"@.len());
            },
            VsSystemPPU::RC2C05_02 => {
                assert("RC2C05-02"@.len() != "Any"@.len());
                assert("RC2C05-02"@.len() != "Reserved01"@.len());
                assert("RC2C05-02"@.len() != "RP2C04-0001"@.len());
                assert("RC2C05-02"@.len() != "RP2C04-0002"@.len());
                assert("RC2C05-02"@.len() != "RP2C04-0003"@.len());
                assert("RC2C05-02"@.len() != "RP2C04-0004"@.len());
                assert("RC2C05-02"@.len() != "Reserved06"@.len());
                assert("RC2C05-02"@.len() != "Reserved07"@.len());
                assert("RC2C05-02"@[8] != "RC2C05-01"@[8]);
            },
            VsSystemPPU::RC2C05_03 => {
                assert("RC2C05-03"@.len() != "Any"@.len());
                assert("RC2C05-03"@.len() != "Reserved01"@.len());
                assert("RC2C05-03"@.len() != "RP2C04-0001"@.len());
                assert("RC2C05-03"@.len() != "RP2C04-0002"@.len());
                assert("RC2C05-03"@.len() != "RP2C04-0003"@.len());
                assert("RC2C05-03"@.len() != "RP2C04-0004"@.len());
                assert("RC2C05-03"@.len() != "Reserved06"@.len());
                assert("RC2C05-03"@.len() != "Reserved07"@.len());
                assert("RC2C05-03"@[8] != "RC2C05-01"@[8]);
                assert("RC2C05-03"@[8] != "RC2C05-02"@[8]);
            },
            VsSystemPPU::RC2C05_04 => {
                assert("RC2C05-04"@.len() != "Any"@.len());
                assert("RC2C05-04"@.len() != "Reserved01"@.len());
                assert("RC2C05-04"@.len() != "RP2C04-0001"@.len());
                assert("RC2C05-04"@.len() != "RP2C04-0002"@.len());
                assert("RC2C05-04"@.len() != "RP2C04-0003"@.len());
                assert("RC2C05-04"@.len() != "RP2C04-0004"@.len());
                assert("RC2C05-04"@.len() != "Reserved06"@.len());
                assert("RC2C05-04"@.len() != "Reserved07"@.len());
                assert("RC2C05-04"@[8] != "RC2C05-01"@[8]);
                assert("RC2C05-04"@[8] != "RC2C05-02"@[8]);
                assert("RC2C05-04"@[8] != "RC2C05-03"@[8]);
            },
            VsSystemPPU::Reserved0C => {
                assert("Reserved0C"@.len() != "Any"@.len());
                assert("Reserved0C"@[9] != "Reserved01"@[9]);
                assert("Reserved0C"@.len() != "RP2C04-0001"@.len());
                assert("Reserved0C"@.len() != "RP2C04-0002"@.len());
                assert("Reserved0C"@.len() != "RP2C04-0003"@.len());
                assert("Reserved0C"@.len() != "RP2C04-0004"@.len());
                assert("Reserved0C"@[9] != "Reserved06"@[9]);
                assert("Reserved0C"@[9] != "Reserved07"@[9]);
                assert("Reserved0C"@.len() != "RC2C05-01"@.len());
                assert("Reserved0C"@.len() != "RC2C05-02"@.len());
                assert("Reserved0C"@.len() != "RC2C05-03"@.len());
                assert("Reserved0C"@.len() != "RC2C05-04"@.len());
            },
            VsSystemPPU::Reserved0D => {
                assert("Reserved0D"@.len() != "Any"@.len());
                assert("Reserved0D"@[9] != "Reserved01"@[9]);
                assert("Reserved0D"@.len() != "RP2C04-0001"@.len());
                assert("Reserved0D"@.len() != "RP2C04-0002"@.len());
                assert("Reserved0D"@.len() != "RP2C04-0003"@.len());
                assert("Reserved0D"@.len() != "RP2C04-0004"@.len());
                assert("Reserved0D"@[9] != "Reserved06"@[9]);
                assert("Reserved0D"@[9] != "Reserved07"@[9]);
                assert("Reserved0D"@.len() != "RC2C05-01"@.len());
                assert("Reserved0D"@.len() != "RC2C05-02"@.len());
                assert("Reserved0D"@.len() != "RC2C05-03"@.len());
                assert("Reserved0D"@.len() != "RC2C05-04"@.len());
                assert("Reserved0D"@[9] != "Reserved0C"@[9]);
            },
            VsSystemPPU::Reserved0E => {
                assert("Reserved0E"@.len() != "Any"@.len());
                assert("Reserved0E"@[9] != "Reserved01"@[9]);
                assert("Reserved0E"@.len() != "RP2C04-0001"@.len());
                assert("Reserved0E"@.len() != "RP2C04-0002"@.len());
                assert("Reserved0E"@.len() != "RP2C04-0003"@.len());
                assert("Reserved0E"@.len() != "RP2C04-0004"@.len());
                assert("Reserved0E"@[9] != "Reserved06"@[9]);
                assert("Reserved0E"@[9] != "Reserved07"@[9]);
                assert("Reserved0E"@.len() != "RC2C05-01"@.len());
                assert("Reserved0E"@.len() != "RC2C05-02"@.len());
                assert("Reserved0E"@.len() != "RC2C05-03"@.len());
                assert("Reserved0E"@.len() != "RC2C05-04"@.len());
                assert("Reserved0E"@[9] != "Reserved0C"@[9]);
                assert("Reserved0E"@[9] != "Reserved0D"@[9]);
            },
            VsSystemPPU::Reserved0F => {
                assert("Reserved0F"@.len() != "Any"@.len());
                assert("Reserved0F"@[9] != "Reserved01"@[9]);
                assert("Reserved0F"@.len() != "RP2C04-0001"@.len());
                assert("Reserved0F"@.len() != "RP2C04-0002"@.len());
                assert("Reserved0F"@.len() != "RP2C04-0003"@.len());
                assert("Reserved0F"@.len() != "RP2C04-0004"@.len());
                assert("Reserved0F"@[9] != "Reserved06"@[9]);
                assert("Reserved0F"@[9] != "Reserved07"@[9]);
                assert("Reserved0F"@.len() != "RC2C05-01"@.len());
                assert("Reserved0F"@.len() != "RC2C05-02"@.len());
                assert("Reserved0F"@.len() != "RC2C05-03"@.len());
                assert("Reserved0F"@.len() != "RC2C05-04"@.len());
                assert("Reserved0F"@[9] != "Reserved0C"@[9]);
                assert("Reserved0F"@[9] != "Reserved0D"@[9]);
                assert("Reserved0F"@[9] != "Reserved0E"@[9]);
            },
        }
    }

    /// The code of a variant reads back as that variant.
    pub proof fn lemma_code_round_trip(self)
        ensures
            VsSystemPPU::spec_from_code(self.spec_code()) == Some(self),
            self.spec_code() < 16,
    {
        match self {
            VsSystemPPU::Any => {},
            VsSystemPPU::Reserved01 => {},
            VsSystemPPU::RP2C04_0001 => {},
            VsSystemPPU::RP2C04_0002 => {},
            VsSystemPPU::RP2C04_0003 => {},
            VsSystemPPU::RP2C04_0004 => {},
            VsSystemPPU::Reserved06 => {},
            VsSystemPPU::Reserved07 => {},
            VsSystemPPU::RC2C05_01 => {},
            VsSystemPPU::RC2C05_02 => {},
            VsSystemPPU::RC2C05_03 => {},
            VsSystemPPU::RC2C05_04 => {},
            VsSystemPPU::Reserved0C => {},
            VsSystemPPU::Reserved0D => {},
            VsSystemPPU::Reserved0E => {},
            VsSystemPPU::Reserved0F => {},
        }
    }
}

/// Hardware type of a Vs. System cartridge.
#[derive(Debug, Clone, Copy, PartialEq, Eq, Structural)]
pub enum VsSystemHardware {
    UnisystemNormal,
    UnisystemRBIBaseball,
    UnisystemTKOBoxing,
    UnisystemSuperXevious,
    UnisystemIceClimberJapan,
    DualSystemNormal,
    DualSystemRaidOnBungelingBay,
}

impl VsSystemHardware {
    /// The number that stands for this variant in the header.
    pub open spec fn spec_code(self) -> u8 {
        match self {
            VsSystemHardware::UnisystemNormal => 0,
            VsSystemHardware::UnisystemRBIBaseball => 1,
            VsSystemHardware::UnisystemTKOBoxing => 2,
            VsSystemHardware::UnisystemSuperXevious => 3,
            VsSystemHardware::UnisystemIceClimberJapan => 4,
            VsSystemHardware::DualSystemNormal => 5,
            VsSystemHardware::DualSystemRaidOnBungelingBay => 6,
        }
    }

    pub open spec fn spec_from_code(code: u8) -> Option<VsSystemHardware> {
        match code {
            0 => Some(VsSystemHardware::UnisystemNormal),
            1 => Some(VsSystemHardware::UnisystemRBIBaseball),
            2 => Some(VsSystemHardware::UnisystemTKOBoxing),
            3 => Some(VsSystemHardware::UnisystemSuperXevious),
            4 => Some(VsSystemHardware::UnisystemIceClimberJapan),
            5 => Some(VsSystemHardware::DualSystemNormal),
            6 => Some(VsSystemHardware::DualSystemRaidOnBungelingBay),
            _ => None,
        }
    }

    /// The canonical name of this variant in the textual description.
    pub open spec fn spec_name(self) -> Seq<char> {
        match self {
            VsSystemHardware::UnisystemNormal => "Default"@,
            VsSystemHardware::UnisystemRBIBaseball => "RBI Baseball"@,
            VsSystemHardware::UnisystemTKOBoxing => "TKO Boxing"@,
            VsSystemHardware::UnisystemSuperXevious => "Super Xevious"@,
            VsSystemHardware::UnisystemIceClimberJapan => "Ice Climber Japan"@,
            VsSystemHardware::DualSystemNormal => "Dual System"@,
            VsSystemHardware::DualSystemRaidOnBungelingBay => "Raid on Bungeling Bay"@,
        }
    }

    pub open spec fn spec_from_name(text: Seq<char>) -> Option<VsSystemHardware> {
        if text == "Default"@ {
            Some(VsSystemHardware::UnisystemNormal)
        } else if text == "RBI Baseball"@ {
            Some(VsSystemHardware::UnisystemRBIBaseball)
        } else if text == "TKO Boxing"@ {
            Some(VsSystemHardware::UnisystemTKOBoxing)
        } else if text == "Super Xevious"@ {
            Some(VsSystemHardware::UnisystemSuperXevious)
        } else if text == "Ice Climber Japan"@ {
            Some(VsSystemHardware::UnisystemIceClimberJapan)
        } else if text == "Dual System"@ {
            Some(VsSystemHardware::DualSystemNormal)
        } else if text == "Raid on Bungeling Bay"@ {
            Some(VsSystemHardware::DualSystemRaidOnBungelingBay)
        } else {
            None
        }
    }

    pub fn code(&self) -> (r: u8)
        ensures
            r == self.spec_code(),
    {
        match self {
            VsSystemHardware::UnisystemNormal => 0,
            VsSystemHardware::UnisystemRBIBaseball => 1,
            VsSystemHardware::UnisystemTKOBoxing => 2,
            VsSystemHardware::UnisystemSuperXevious => 3,
            VsSystemHardware::UnisystemIceClimberJapan => 4,
            VsSystemHardware::DualSystemNormal => 5,
            VsSystemHardware::DualSystemRaidOnBungelingBay => 6,
        }
    }

    /// The variant with the given number, if there is one.
    pub fn from_code(code: u8) -> (r: Option<VsSystemHardware>)
        ensures
            r == VsSystemHardware::spec_from_code(code),
    {
        match code {
            0 => Some(VsSystemHardware::UnisystemNormal),
            1 => Some(VsSystemHardware::UnisystemRBIBaseball),
            2 => Some(VsSystemHardware::UnisystemTKOBoxing),
            3 => Some(VsSystemHardware::UnisystemSuperXevious),
            4 => Some(VsSystemHardware::UnisystemIceClimberJapan),
            5 => Some(VsSystemHardware::DualSystemNormal),
            6 => Some(VsSystemHardware::DualSystemRaidOnBungelingBay),
            _ => None,
        }
    }

    pub fn name(&self) -> (r: String)
        ensures
            r@ == self.spec_name(),
    {
        match self {
            VsSystemHardware::UnisystemNormal => "Default".to_owned(),
            VsSystemHardware::UnisystemRBIBaseball => "RBI Baseball".to_owned(),
            VsSystemHardware::UnisystemTKOBoxing => "TKO Boxing".to_owned(),
            VsSystemHardware::UnisystemSuperXevious => "Super Xevious".to_owned(),
            VsSystemHardware::UnisystemIceClimberJapan => "Ice Climber Japan".to_owned(),
            VsSystemHardware::DualSystemNormal => "Dual System".to_owned(),
            VsSystemHardware::DualSystemRaidOnBungelingBay => "Raid on Bungeling Bay".to_owned(),
        }
    }

    /// The hardware type with the given name, if any.
    pub fn from_name(text: &str) -> (r: Option<VsSystemHardware>)
        ensures
            r == VsSystemHardware::spec_from_name(text@),
    {
        if same_text(text, "Default") {
            Some(VsSystemHardware::UnisystemNormal)
        } else if same_text(text, "RBI Baseball") {
            Some(VsSystemHardware::UnisystemRBIBaseball)
        } else if same_text(text, "TKO Boxing") {
            Some(VsSystemHardware::UnisystemTKOBoxing)
        } else if same_text(text, "Super Xevious") {
            Some(VsSystemHardware::UnisystemSuperXevious)
        } else if same_text(text, "Ice Climber Japan") {
            Some(VsSystemHardware::UnisystemIceClimberJapan)
        } else if same_text(text, "Dual System") {
            Some(VsSystemHardware::DualSystemNormal)
        } else if same_text(text, "Raid on Bungeling Bay") {
            Some(VsSystemHardware::DualSystemRaidOnBungelingBay)
        } else {
            None
        }
    }

    /// The name of a variant reads back as that variant.
    pub proof fn lemma_name_round_trip(self)
        ensures
            VsSystemHardware::spec_from_name(self.spec_name()) == Some(self),
    {
        reveal_strlit("Default");
        reveal_strlit("RBI Baseball");
        reveal_strlit("TKO Boxing");
        reveal_strlit("Super Xevious");
        reveal_strlit("Ice Climber Japan");
        reveal_strlit("Dual System");
        reveal_strlit("Raid on Bungeling Bay");
        match self {
            VsSystemHardware::UnisystemNormal => {},
            VsSystemHardware::UnisystemRBIBaseball => {
                assert("RBI Baseball"@.len() != "Default"@.len());
            },
            VsSystemHardware::UnisystemTKOBoxing => {
                assert("TKO Boxing"@.len() != "Default"@.len());
                assert("TKO Boxing"@.len() != "RBI Baseball"@.len());
            },
            VsSystemHardware::UnisystemSuperXevious => {
                assert("Super Xevious"@.len() != "Default"@.len());
                assert("Super Xevious"@.len() != "RBI Baseball"@.len());
                assert("Super Xevious"@.len() != "TKO Boxing"@.len());
            },
            VsSystemHardware::UnisystemIceClimberJapan => {
                assert("Ice Climber Japan"@.len() != "Default"@.len());
                assert("Ice Climber Japan"@.len() != "RBI Baseball"@.len());
                assert("Ice Climber Japan"@.len() != "TKO Boxing"@.len());
                assert("Ice Climber Japan"@.len() != "Super Xevious"@.len());
            },
            VsSystemHardware::DualSystemNormal => {
                assert("Dual System"@.len() != "Default"@.len());
                assert("Dual System"@.len() != "RBI Baseball"@.len());
                assert("Dual System"@.len() != "TKO Boxing"@.len());
                assert("Dual System"@.len() != "Super Xevious"@.len());
                assert("Dual System"@.len() != "Ice Climber Japan"@.len());
            },
            VsSystemHardware::DualSystemRaidOnBungelingBay => {
                assert("Raid on Bungeling Bay"@.len() != "Default"@.len());
                assert("Raid on Bungeling Bay"@.len() != "RBI Baseball"@.len());
                assert("Raid on Bungeling Bay"@.len() != "TKO Boxing"@.len());
                assert("Raid on Bungeling Bay"@.len() != "Super Xevious"@.len());
                assert("Raid on Bungeling Bay"@.len() != "Ice Climber Japan"@.len());
                assert("Raid on Bungeling Bay"@.len() != "Dual System"@.len());
            },
        }
    }

    /// The code of a variant reads back as that variant.
    pub proof fn lemma_code_round_trip(self)
        ensures
            VsSystemHardware::spec_from_code(self.spec_code()) == Some(self),
            self.spec_code() < 7,
    {
        match self {
            VsSystemHardware::UnisystemNormal => {},
            VsSystemHardware::UnisystemRBIBaseball => {},
            VsSystemHardware::UnisystemTKOBoxing => {},
            VsSystemHardware::UnisystemSuperXevious => {},
            VsSystemHardware::UnisystemIceClimberJapan => {},
            VsSystemHardware::DualSystemNormal => {},
            VsSystemHardware::DualSystemRaidOnBungelingBay => {},
        }
    }
}

} // verus!
