//! NES nametable mirroring (header byte 6, bit 0).

use vstd::prelude::*;

verus! {

#[derive(Clone, Copy, Debug, PartialEq, Eq, Structural)]
pub enum MirrorType {
    HorizontalOrMapperControlled,
    Vertical,
}

pub open spec fn spec_mirror_type(flags: u8) -> MirrorType {
    if flags % 2 == 0 {
        MirrorType::HorizontalOrMapperControlled
    } else {
        MirrorType::Vertical
    }
}

impl MirrorType {
    /// The mirroring bit 0 of `flags` selects.
    pub fn from_byte(flags: u8) -> (r: MirrorType)
        ensures
            r == spec_mirror_type(flags),
    {
        if flags % 2 == 0 {
            MirrorType::HorizontalOrMapperControlled
        } else {
            MirrorType::Vertical
        }
    }

    /// Display name of the mirroring.
    /// Display name, as the report writes it.
    pub open spec fn name_text(self) -> Seq<char> {
        match self {
            MirrorType::HorizontalOrMapperControlled => "horizontal or mapper controlled"@,
            MirrorType::Vertical => "vertical"@,
        }
    }

    pub fn name(&self) -> (r: &'static str)
        ensures
            r@ == self.name_text(),
    {
        match self {
            MirrorType::HorizontalOrMapperControlled => "horizontal or mapper controlled",
            MirrorType::Vertical => "vertical",
        }
    }
}

} // verus!
