//! Nametable mirroring.

use crate::same_text;
use vstd::prelude::*;

verus! {

/// Nametable mirroring of the cartridge; its code is the bit pattern in byte 6.
#[derive(Debug, Clone, Copy, PartialEq, Eq, Structural)]
pub enum Mirroring {
    Horizontal,
    Vertical,
    FourScreens,
}

impl Mirroring {
    /// The number that stands for this variant in the header.
    pub open spec fn spec_code(self) -> u8 {
        match self {
            Mirroring::Horizontal => 1,
            Mirroring::Vertical => 0,
            Mirroring::FourScreens => 8,
        }
    }

    pub open spec fn spec_from_code(code: u8) -> Option<Mirroring> {
        match code {
            1 => Some(Mirroring::Horizontal),
            0 => Some(Mirroring::Vertical),
            8 => Some(Mirroring::FourScreens),
            _ => None,
        }
    }

    /// The canonical name of this variant in the textual description.
    pub open spec fn spec_name(self) -> Seq<char> {
        match self {
            Mirroring::Horizontal => "Horizontal"@,
            Mirroring::Vertical => "Vertical"@,
            Mirroring::FourScreens => "FourScreens"@,
        }
    }

    pub open spec fn spec_from_name(text: Seq<char>) -> Option<Mirroring> {
        if text == "Horizontal"@ {
            Some(Mirroring::Horizontal)
        } else if text == "Vertical"@ {
            Some(Mirroring::Vertical)
        } else if text == "FourScreens"@ {
            Some(Mirroring::FourScreens)
        } else {
            None
        }
    }

    pub fn code(&self) -> (r: u8)
        ensures
            r == self.spec_code(),
    {
        match self {
            Mirroring::Horizontal => 1,
            Mirroring::Vertical => 0,
            Mirroring::FourScreens => 8,
        }
    }

    /// The variant with the given number, if there is one.
    pub fn from_code(code: u8) -> (r: Option<Mirroring>)
        ensures
            r == Mirroring::spec_from_code(code),
    {
        match code {
            1 => Some(Mirroring::Horizontal),
            0 => Some(Mirroring::Vertical),
            8 => Some(Mirroring::FourScreens),
            _ => None,
        }
    }

    pub fn name(&self) -> (r: String)
        ensures
            r@ == self.spec_name(),
    {
        match self {
            Mirroring::Horizontal => "Horizontal".to_owned(),
            Mirroring::Vertical => "Vertical".to_owned(),
            Mirroring::FourScreens => "FourScreens".to_owned(),
        }
    }

    /// The mirroring with the given name, if any.
    pub fn from_name(text: &str) -> (r: Option<Mirroring>)
        ensures
            r == Mirroring::spec_from_name(text@),
    {
        if same_text(text, "Horizontal") {
            Some(Mirroring::Horizontal)
        } else if same_text(text, "Vertical") {
            Some(Mirroring::Vertical)
        } else if same_text(text, "FourScreens") {
            Some(Mirroring::FourScreens)
        } else {
            None
        }
    }

    /// The name of a variant reads back as that variant.
    pub proof fn lemma_name_round_trip(self)
        ensures
            Mirroring::spec_from_name(self.spec_name()) == Some(self),
    {
        reveal_strlit("Horizontal");
        reveal_strlit("Vertical");
        reveal_strlit("FourScreens");
        match self {
            Mirroring::Horizontal => {},
            Mirroring::Vertical => {
                assert("Vertical"@.len() != "Horizontal"@.len());
            },
            Mirroring::FourScreens => {
                assert("FourScreens"@.len() != "Horizontal"@.len());
                assert("FourScreens"@.len() != "Vertical"@.len());
            },
        }
    }

    /// The code of a variant reads back as that variant.
    pub proof fn lemma_code_round_trip(self)
        ensures
            Mirroring::spec_from_code(self.spec_code()) == Some(self),
            self.spec_code() < 9,
    {
        match self {
            Mirroring::Horizontal => {},
            Mirroring::Vertical => {},
            Mirroring::FourScreens => {},
        }
    }
}

} // verus!
