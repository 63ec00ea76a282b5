//! Console types.

use crate::same_text;
use vstd::prelude::*;

verus! {

/// The console or console-like hardware a cartridge is made for.
#[derive(Debug, Clone, Copy, PartialEq, Eq, Structural)]
pub enum Console {
    Nes,
    VsSystem,
    Playchoice10,
    NesWithDecimal,
    NesWithEPSM,
    VT01,
    VT02,
    VT03,
    VT09,
    VT32,
    VT369,
    UM6539,
    FamicomNetworkSystem,
    Reserved0D,
    Reserved0E,
    Reserved0F,
}

impl Console {
    /// The number that stands for this variant in the header.
    pub open spec fn spec_code(self) -> u8 {
        match self {
            Console::Nes => 0,
            Console::VsSystem => 1,
            Console::Playchoice10 => 2,
            Console::NesWithDecimal => 3,
            Console::NesWithEPSM => 4,
            Console::VT01 => 5,
            Console::VT02 => 6,
            Console::VT03 => 7,
            Console::VT09 => 8,
            Console::VT32 => 9,
            Console::VT369 => 10,
            Console::UM6539 => 11,
            Console::FamicomNetworkSystem => 12,
            Console::Reserved0D => 13,
            Console::Reserved0E => 14,
            Console::Reserved0F => 15,
        }
    }

    pub open spec fn spec_from_code(code: u8) -> Option<Console> {
        match code {
            0 => Some(Console::Nes),
            1 => Some(Console::VsSystem),
            2 => Some(Console::Playchoice10),
            3 => Some(Console::NesWithDecimal),
            4 => Some(Console::NesWithEPSM),
            5 => Some(Console::VT01),
            6 => Some(Console::VT02),
            7 => Some(Console::VT03),
            8 => Some(Console::VT09),
            9 => Some(Console::VT32),
            10 => Some(Console::VT369),
            11 => Some(Console::UM6539),
            12 => Some(Console::FamicomNetworkSystem),
            13 => Some(Console::Reserved0D),
            14 => Some(Console::Reserved0E),
            15 => Some(Console::Reserved0F),
            _ => None,
        }
    }

    /// The canonical name of this variant in the textual description.
    pub open spec fn spec_name(self) -> Seq<char> {
        match self {
            Console::Nes => "NES"@,
            Console::VsSystem => "Vs System"@,
            Console::Playchoice10 => "Playchoice 10"@,
            Console::NesWithDecimal => "NES With Decimal"@,
            Console::NesWithEPSM => "NES With EPSM"@,
            Console::VT01 => "VT01"@,
            Console::VT02 => "VT02"@,
            Console::VT03 => "VT03"@,
            Console::VT09 => "VT09"@,
            Console::VT32 => "VT32"@,
            Console::VT369 => "VT369"@,
            Console::UM6539 => "UM6539"@,
            Console::FamicomNetworkSystem => "Famicom Network System"@,
            Console::Reserved0D => "Reserved0D"@,
            Console::Reserved0E => "Reserved0E"@,
            Console::Reserved0F => "Reserved0F"@,
        }
    }

    pub open spec fn spec_from_name(text: Seq<char>) -> Option<Console> {
        if text == "NES"@ {
            Some(Console::Nes)
        } else if text == "Vs System"@ {
            Some(Console::VsSystem)
        } else if text == "Playchoice 10"@ {
            Some(Console::Playchoice10)
        } else if text == "NES With Decimal"@ {
            Some(Console::NesWithDecimal)
        } else if text == "NES With EPSM"@ {
            Some(Console::NesWithEPSM)
        } else if text == "VT01"@ {
            Some(Console::VT01)
        } else if text == "VT02"@ {
            Some(Console::VT02)
        } else if text == "VT03"@ {
            Some(Console::VT03)
        } else if text == "VT09"@ {
            Some(Console::VT09)
        } else if text == "VT32"@ {
            Some(Console::VT32)
        } else if text == "VT369"@ {
            Some(Console::VT369)
        } else if text == "UM6539"@ {
            Some(Console::UM6539)
        } else if text == "Famicom Network System"@ {
            Some(Console::FamicomNetworkSystem)
        } else if text == "Reserved0D"@ {
            Some(Console::Reserved0D)
        } else if text == "Reserved0E"@ {
            Some(Console::Reserved0E)
        } else if text == "Reserved0F"@ {
            Some(Console::Reserved0F)
        } else {
            None
        }
    }

    pub fn code(&self) -> (r: u8)
        ensures
            r == self.spec_code(),
    {
        match self {
            Console::Nes => 0,
            Console::VsSystem => 1,
            Console::Playchoice10 => 2,
            Console::NesWithDecimal => 3,
            Console::NesWithEPSM => 4,
            Console::VT01 => 5,
            Console::VT02 => 6,
            Console::VT03 => 7,
            Console::VT09 => 8,
            Console::VT32 => 9,
            Console::VT369 => 10,
            Console::UM6539 => 11,
            Console::FamicomNetworkSystem => 12,
            Console::Reserved0D => 13,
            Console::Reserved0E => 14,
            Console::Reserved0F => 15,
        }
    }

    /// The variant with the given number, if there is one.
    pub fn from_code(code: u8) -> (r: Option<Console>)
        ensures
            r == Console::spec_from_code(code),
    {
        match code {
            0 => Some(Console::Nes),
            1 => Some(Console::VsSystem),
            2 => Some(Console::Playchoice10),
            3 => Some(Console::NesWithDecimal),
            4 => Some(Console::NesWithEPSM),
            5 => Some(Console::VT01),
            6 => Some(Console::VT02),
            7 => Some(Console::VT03),
            8 => Some(Console::VT09),
            9 => Some(Console::VT32),
            10 => Some(Console::VT369),
            11 => Some(Console::UM6539),
            12 => Some(Console::FamicomNetworkSystem),
            13 => Some(Console::Reserved0D),
            14 => Some(Console::Reserved0E),
            15 => Some(Console::Reserved0F),
            _ => None,
        }
    }

    pub fn name(&self) -> (r: String)
        ensures
            r@ == self.spec_name(),
    {
        match self {
            Console::Nes => "NES".to_owned(),
            Console::VsSystem => "Vs System".to_owned(),
            Console::Playchoice10 => "Playchoice 10".to_owned(),
            Console::NesWithDecimal => "NES With Decimal".to_owned(),
            Console::NesWithEPSM => "NES With EPSM".to_owned(),
            Console::VT01 => "VT01".to_owned(),
            Console::VT02 => "VT02".to_owned(),
            Console::VT03 => "VT03".to_owned(),
            Console::VT09 => "VT09".to_owned(),
            Console::VT32 => "VT32".to_owned(),
            Console::VT369 => "VT369".to_owned(),
            Console::UM6539 => "UM6539".to_owned(),
            Console::FamicomNetworkSystem => "Famicom Network System".to_owned(),
            Console::Reserved0D => "Reserved0D".to_owned(),
            Console::Reserved0E => "Reserved0E".to_owned(),
            Console::Reserved0F => "Reserved0F".to_owned(),
        }
    }

    /// The console with the given name, if any.
    pub fn from_name(text: &str) -> (r: Option<Console>)
        ensures
            r == Console::spec_from_name(text@),
    {
        if same_text(text, "NES") {
            Some(Console::Nes)
        } else if same_text(text, "Vs System") {
            Some(Console::VsSystem)
        } else if same_text(text, "Playchoice 10") {
            Some(Console::Playchoice10)
        } else if same_text(text, "NES With Decimal") {
            Some(Console::NesWithDecimal)
        } else if same_text(text, "NES With EPSM") {
            Some(Console::NesWithEPSM)
        } else if same_text(text, "VT01") {
            Some(Console::VT01)
        } else if same_text(text, "VT02") {
            Some(Console::VT02)
        } else if same_text(text, "VT03") {
            Some(Console::VT03)
        } else if same_text(text, "VT09") {
            Some(Console::VT09)
        } else if same_text(text, "VT32") {
            Some(Console::VT32)
        } else if same_text(text, "VT369") {
            Some(Console::VT369)
        } else if same_text(text, "UM6539") {
            Some(Console::UM6539)
        } else if same_text(text, "Famicom Network System") {
            Some(Console::FamicomNetworkSystem)
        } else if same_text(text, "Reserved0D") {
            Some(Console::Reserved0D)
        } else if same_text(text, "Reserved0E") {
            Some(Console::Reserved0E)
        } else if same_text(text, "Reserved0F") {
            Some(Console::Reserved0F)
        } else {
            None
        }
    }

    /// The name of a variant reads back as that variant.
    pub proof fn lemma_name_round_trip(self)
        ensures
            Console::spec_from_name(self.spec_name()) == Some(self),
    {
        reveal_strlit("NES");
        reveal_strlit("Vs System");
        reveal_strlit("Playchoice 10");
        reveal_strlit("NES With Decimal");
        reveal_strlit("NES With EPSM");
        reveal_strlit("VT01");
        reveal_strlit("VT02");
        reveal_strlit("VT03");
        reveal_strlit("VT09");
        reveal_strlit("VT32");
        reveal_strlit("VT369");
        reveal_strlit("UM6539");
        reveal_strlit("Famicom Network System");
        reveal_strlit("Reserved0D");
        reveal_strlit("Reserved0E");
        reveal_strlit("Reserved0F");
        match self {
            Console::Nes => {},
            Console::VsSystem => {
                assert("Vs System"@.len() != "NES"@.len());
            },
            Console::Playchoice10 => {
                assert("Playchoice 10"@.len() != "NES"@.len());
                assert("Playchoice 10"@.len() != "Vs System"@.len());
            },
            Console::NesWithDecimal => {
                assert("NES With Decimal"@.len() != "NES"@.len());
                assert("NES With Decimal"@.len() != "Vs System"@.len());
                assert("NES With Decimal"@.len() != "Playchoice 10"@.len());
            },
            Console::NesWithEPSM => {
                assert("NES With EPSM"@.len() != "NES"@.len());
                assert("NES With EPSM"@.len() != "Vs System"@.len());
                assert("NES With EPSM"@[0] != "Playchoice 10"@[0]);
                assert("NES With EPSM"@.len() != "NES With Decimal"@.len());
            },
            Console::VT01 => {
                assert("VT01"@.len() != "NES"@.len());
                assert("VT01"@.len() != "Vs System"@.len());
                assert("VT01"@.len() != "Playchoice 10"@.len());
                assert("VT01"@.len() != "NES With Decimal"@.len());
                assert("VT01"@.len() != "NES With EPSM"@.len());
            },
            Console::VT02 => {
                assert("VT02"@.len() != "NES"@.len());
                assert("VT02"@.len() != "Vs System"@.len());
                assert("VT02"@.len() != "Playchoice 10"@.len());
                assert("VT02"@.len() != "NES With Decimal"@.len());
                assert("VT02"@.len() != "NES With EPSM"@.len());
                assert("VT02"@[3] != "VT01"@[3]);
            },
            Console::VT03 => {
                assert("VT03"@.len() != "NES"@.len());
                assert("VT03"@.len() != "Vs System"@.len());
                assert("VT03"@.len() != "Playchoice 10"@.len());
                assert("VT03"@.len() != "NES With Decimal"@.len());
                assert("VT03"@.len() != "NES With EPSM"@.len());
                assert("VT03"@[3] != "VT01"@[3]);
                assert("VT03"@[3] != "VT02"@[3]);
            },
            Console::VT09 => {
                assert("VT09"@.len() != "NES"@.len());
                assert("VT09"@.len() != "Vs System"@.len());
                assert("VT09"@.len() != "Playchoice 10"@.len());
                assert("VT09"@.len() != "NES With Decimal"@.len());
                assert("VT09"@.len() != "NES With EPSM"@.len());
                assert("VT09"@[3] != "VT01"@[3]);
                assert("VT09"@[3] != "VT02"@[3]);
                assert("VT09"@[3] != "VT03"@[3]);
            },
            Console::VT32 => {
                assert("VT32"@.len() != "NES"@.len());
                assert("VT32"@.len() != "Vs System"@.len());
                assert("VT32"@.len() != "Playchoice 10"@.len());
                assert("VT32"@.len() != "NES With Decimal"@.len());
                assert("VT32"@.len() != "NES With EPSM"@.len());
                assert("VT32"@[2] != "VT01"@[2]);
                assert("VT32"@[2] != "VT02"@[2]);
                assert("VT32"@[2] != "VT03"@[2]);
                assert("VT32"@[2] != "VT09"@[2]);
            },
            Console::VT369 => {
                assert("VT369"@.len() != "NES"@.len());
                assert("VT369"@.len() != "Vs System"@.len());
                assert("VT369"@.len() != "Playchoice 10"@.len());
                assert("VT369"@.len() != "NES With Decimal"@.len());
                assert("VT369"@.len() != "NES With EPSM"@.len());
                assert("VT369"@.len() != "VT01"@.len());
                assert("VT369"@.len() != "VT02"@.len());
                assert("VT369"@.len() != "VT03"@.len());
                assert("VT369"@.len() != "VT09"@.len());
                assert("VT369"@.len() != "VT32"@.len());
            },
            Console::UM6539 => {
                assert("UM6539"@.len() != "NES"@.len());
                assert("UM6539"@.len() != "Vs System"@.len());
                assert("UM6539"@.len() != "Playchoice 10"@.len());
                assert("UM6539"@.len() != "NES With Decimal"@.len());
                assert("UM6539"@.len() != "NES With EPSM"@.len());
                assert("UM6539"@.len() != "VT01"@.len());
                assert("UM6539"@.len() != "VT02"@.len());
                assert("UM6539"@.len() != "VT03"@.len());
                assert("UM6539"@.len() != "VT09"@.len());
                assert("UM6539"@.len() != "VT32"@.len());
                assert("UM6539"@.len() != "VT369"@.len());
            },
            Console::FamicomNetworkSystem => {
                assert("Famicom Network System"@.len() != "NES"@.len());
                assert("Famicom Network System"@.len() != "Vs System"@.len());
                assert("Famicom Network System"@.len() != "Playchoice 10"@.len());
                assert("Famicom Network System"@.len() != "NES With Decimal"@.len());
                assert("Famicom Network System"@.len() != "NES With EPSM"@.len());
                assert("Famicom Network System"@.len() != "VT01"@.len());
                assert("Famicom Network System"@.len() != "VT02"@.len());
                assert("Famicom Network System"@.len() != "VT03"@.len());
                assert("Famicom Network System"@.len() != "VT09"@.len());
                assert("Famicom Network System"@.len() != "VT32"@.len());
                assert("Famicom Network System"@.len() != "VT369"@.len());
                assert("Famicom Network System"@.len() != "UM6539"@.len());
            },
            Console::Reserved0D => {
                assert("Reserved0D"@.len() != "NES"@.len());
                assert("Reserved0D"@.len() != "Vs System"@.len());
                assert("Reserved0D"@.len() != "Playchoice 10"@.len());
                assert("Reserved0D"@.len() != "NES With Decimal"@.len());
                assert("Reserved0D"@.len() != "NES With EPSM"@.len());
                assert("Reserved0D"@.len() != "VT01"@.len());
                assert("Reserved0D"@.len() != "VT02"@.len());
                assert("Reserved0D"@.len() != "VT03"@.len());
                assert("Reserved0D"@.len() != "VT09"@.len());
                assert("Reserved0D"@.len() != "VT32"@.len());
                assert("Reserved0D"@.len() != "VT369"@.len());
                assert("Reserved0D"@.len() != "UM6539"@.len());
                assert("Reserved0D"@.len() != "Famicom Network System"@.len());
            },
            Console::Reserved0E => {
                assert("Reserved0E"@.len() != "NES"@.len());
                assert("Reserved0E"@.len() != "Vs System"@.len());
                assert("Reserved0E"@.len() != "Playchoice 10"@.len());
                assert("Reserved0E"@.len() != "NES With Decimal"@.len());
                assert("Reserved0E"@.len() != "NES With EPSM"@.len());
                assert("Reserved0E"@.len() != "VT01"@.len());
                assert("Reserved0E"@.len() != "VT02"@.len());
                assert("Reserved0E"@.len() != "VT03"@.len());
                assert("Reserved0E"@.len() != "VT09"@.len());
                assert("Reserved0E"@.len() != "VT32"@.len());
                assert("Reserved0E"@.len() != "VT369"@.len());
                assert("Reserved0E"@.len() != "UM6539"@.len());
                assert("Reserved0E"@.len() != "Famicom Network System"@.len());
                assert("Reserved0E"@[9] != "Reserved0D"@[9]);
            },
            Console::Reserved0F => {
                assert("Reserved0F"@.len() != "NES"@.len());
                assert("Reserved0F"@.len() != "Vs System"@.len());
                assert("Reserved0F"@.len() != "Playchoice 10"@.len());
                assert("Reserved0F"@.len() != "NES With Decimal"@.len());
                assert("Reserved0F"@.len() != "NES With EPSM"@.len());
                assert("Reserved0F"@.len() != "VT01"@.len());
                assert("Reserved0F"@.len() != "VT02"@.len());
                assert("Reserved0F"@.len() != "VT03"@.len());
                assert("Reserved0F"@.len() != "VT09"@.len());
                assert("Reserved0F"@.len() != "VT32"@.len());
                assert("Reserved0F"@.len() != "VT369"@.len());
                assert("Reserved0F"@.len() != "UM6539"@.len());
                assert("Reserved0F"@.len() != "Famicom Network System"@.len());
                assert("Reserved0F"@[9] != "Reserved0D"@[9]);
                assert("Reserved0F"@[9] != "Reserved0E"@[9]);
            },
        }
    }

    /// The code of a variant reads back as that variant.
    pub proof fn lemma_code_round_trip(self)
        ensures
            Console::spec_from_code(self.spec_code()) == Some(self),
            self.spec_code() < 16,
    {
        match self {
            Console::Nes => {},
            Console::VsSystem => {},
            Console::Playchoice10 => {},
            Console::NesWithDecimal => {},
            Console::NesWithEPSM => {},
            Console::VT01 => {},
            Console::VT02 => {},
            Console::VT03 => {},
            Console::VT09 => {},
            Console::VT32 => {},
            Console::VT369 => {},
            Console::UM6539 => {},
            Console::FamicomNetworkSystem => {},
            Console::Reserved0D => {},
            Console::Reserved0E => {},
            Console::Reserved0F => {},
        }
    }
}

} // verus!
