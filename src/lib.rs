//! Codec between an editable description of an NES 2.0 cartridge header and
//! its 16-byte binary form.

pub mod console;
pub mod decoder;
pub mod encoder;
pub mod header;
pub mod laws;
pub mod mirroring;
pub mod size;
pub mod timing;
pub mod vs_system;

pub use console::Console;
pub use decoder::Decoder;
pub use encoder::Encoder;
pub use header::{Header, HeaderError, SizeField, VariantField};
pub use mirroring::Mirroring;
pub use size::SizeError;
pub use timing::Timing;
pub use vs_system::{VsSystemHardware, VsSystemPPU};

use vstd::prelude::*;

verus! {

/// Whether two strings hold the same characters.
pub fn same_text(a: &str, b: &str) -> (r: bool)
    ensures
        r == (a@ == b@),
{
    a.to_owned() == b.to_owned()
}

} // verus!
