//! CPU/PPU timing.

use crate::same_text;
use vstd::prelude::*;

verus! {

/// CPU/PPU timing mode.
#[derive(Debug, Clone, Copy, PartialEq, Eq, Structural)]
pub enum Timing {
    RP2C02,
    RP2C07,
    Multiple,
    UA6538,
}

impl Timing {
    /// The number that stands for this variant in the header.
    pub open spec fn spec_code(self) -> u8 {
        match self {
            Timing::RP2C02 => 0,
            Timing::RP2C07 => 1,
            Timing::Multiple => 2,
            Timing::UA6538 => 3,
        }
    }

    pub open spec fn spec_from_code(code: u8) -> Option<Timing> {
        match code {
            0 => Some(Timing::RP2C02),
            1 => Some(Timing::RP2C07),
            2 => Some(Timing::Multiple),
            3 => Some(Timing::UA6538),
            _ => None,
        }
    }

    /// The canonical name of this variant in the textual description.
    pub open spec fn spec_name(self) -> Seq<char> {
        match self {
            Timing::RP2C02 => "RP2C02"@,
            Timing::RP2C07 => "RP2C07"@,
            Timing::Multiple => "Multiple"@,
            Timing::UA6538 => "UA6538"@,
        }
    }

    pub open spec fn spec_from_name(text: Seq<char>) -> Option<Timing> {
        if text == "RP2C02"@ {
            Some(Timing::RP2C02)
        } else if text == "RP2C07"@ {
            Some(Timing::RP2C07)
        } else if text == "Multiple"@ {
            Some(Timing::Multiple)
        } else if text == "UA6538"@ {
            Some(Timing::UA6538)
        } else {
            None
        }
    }

    pub fn code(&self) -> (r: u8)
        ensures
            r == self.spec_code(),
    {
        match self {
            Timing::RP2C02 => 0,
            Timing::RP2C07 => 1,
            Timing::Multiple => 2,
            Timing::UA6538 => 3,
        }
    }

    /// The variant with the given number, if there is one.
    pub fn from_code(code: u8) -> (r: Option<Timing>)
        ensures
            r == Timing::spec_from_code(code),
    {
        match code {
            0 => Some(Timing::RP2C02),
            1 => Some(Timing::RP2C07),
            2 => Some(Timing::Multiple),
            3 => Some(Timing::UA6538),
            _ => None,
        }
    }

    pub fn name(&self) -> (r: String)
        ensures
            r@ == self.spec_name(),
    {
        match self {
            Timing::RP2C02 => "RP2C02".to_owned(),
            Timing::RP2C07 => "RP2C07".to_owned(),
            Timing::Multiple => "Multiple".to_owned(),
            Timing::UA6538 => "UA6538".to_owned(),
        }
    }

    /// The timing with the given name, if any.
    pub fn from_name(text: &str) -> (r: Option<Timing>)
        ensures
            r == Timing::spec_from_name(text@),
    {
        if same_text(text, "RP2C02") {
            Some(Timing::RP2C02)
        } else if same_text(text, "RP2C07") {
            Some(Timing::RP2C07)
        } else if same_text(text, "Multiple") {
            Some(Timing::Multiple)
        } else if same_text(text, "UA6538") {
            Some(Timing::UA6538)
        } else {
            None
        }
    }

    /// The name of a variant reads back as that variant.
    pub proof fn lemma_name_round_trip(self)
        ensures
            Timing::spec_from_name(self.spec_name()) == Some(self),
    {
        reveal_strlit("RP2C02");
        reveal_strlit("RP2C07");
        reveal_strlit("Multiple");
        reveal_strlit("UA6538");
        match self {
            Timing::RP2C02 => {},
            Timing::RP2C07 => {
                assert("RP2C07"@[5] != "RP2C02"@[5]);
            },
            Timing::Multiple => {
                assert("Multiple"@.len() != "RP2C02"@.len());
                assert("Multiple"@.len() != "RP2C07"@.len());
            },
            Timing::UA6538 => {
                assert("UA6538"@[0] != "RP2C02"@[0]);
                assert("UA6538"@[0] != "RP2C07"@[0]);
                assert("UA6538"@.len() != "Multiple"@.len());
            },
        }
    }

    /// The code of a variant reads back as that variant.
    pub proof fn lemma_code_round_trip(self)
        ensures
            Timing::spec_from_code(self.spec_code()) == Some(self),
            self.spec_code() < 4,
    {
        match self {
            Timing::RP2C02 => {},
            Timing::RP2C07 => {},
            Timing::Multiple => {},
            Timing::UA6538 => {},
        }
    }
}

} // verus!
