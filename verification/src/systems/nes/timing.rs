//! NES CPU/PPU timing (header byte 12, low two bits).

use vstd::prelude::*;

verus! {

#[derive(Clone, Copy, Debug, PartialEq, Eq, Structural)]
pub enum Timing {
    NTSC,
    PAL,
    MultiRegion,
    Dendy,
}

pub open spec fn spec_timing(v: u8) -> Timing {
    if v % 4 == 0 {
        Timing::NTSC
    } else if v % 4 == 1 {
        Timing::PAL
    } else if v % 4 == 2 {
        Timing::MultiRegion
    } else {
        Timing::Dendy
    }
}

impl Timing {
    /// The timing the low two bits of `v` select.
    pub fn from_byte(v: u8) -> (r: Timing)
        ensures
            r == spec_timing(v),
    {
        match v % 4 {
            0 => Timing::NTSC,
            1 => Timing::PAL,
            2 => Timing::MultiRegion,
            _ => Timing::Dendy,
        }
    }

    /// Display name of the timing.
    /// Display name, as the report writes it.
    pub open spec fn name_text(self) -> Seq<char> {
        match self {
            Timing::NTSC => "NTSC NES"@,
            Timing::PAL => "Licensed PAL NES"@,
            Timing::MultiRegion => "Multiple-region"@,
            Timing::Dendy => "Dendy"@,
        }
    }

    pub fn name(&self) -> (r: &'static str)
        ensures
            r@ == self.name_text(),
    {
        match self {
            Timing::NTSC => "NTSC NES",
            Timing::PAL => "Licensed PAL NES",
            Timing::MultiRegion => "Multiple-region",
            Timing::Dendy => "Dendy",
        }
    }
}

} // verus!
