//! NES console type (header byte 7, low two bits).

use vstd::prelude::*;

verus! {

#[derive(Clone, Copy, Debug, PartialEq, Eq, Structural)]
pub enum ConsoleType {
    NES,
    VsSystem,
    Playchoice,
    ExtendedConsoleType,
}

pub open spec fn spec_console_type(v: u8) -> ConsoleType {
    if v % 4 == 0 {
        ConsoleType::NES
    } else if v % 4 == 1 {
        ConsoleType::VsSystem
    } else if v % 4 == 2 {
        ConsoleType::Playchoice
    } else {
        ConsoleType::ExtendedConsoleType
    }
}

impl ConsoleType {
    /// The console type the low two bits of `v` select.
    pub fn from_byte(v: u8) -> (r: ConsoleType)
        ensures
            r == spec_console_type(v),
    {
        match v % 4 {
            0 => ConsoleType::NES,
            1 => ConsoleType::VsSystem,
            2 => ConsoleType::Playchoice,
            _ => ConsoleType::ExtendedConsoleType,
        }
    }

    /// Display name of the console type.
    /// Display name, as the report writes it.
    pub open spec fn name_text(self) -> Seq<char> {
        match self {
            ConsoleType::NES => "NES"@,
            ConsoleType::VsSystem => "Vs. System"@,
            ConsoleType::Playchoice => "PlayChoice 10"@,
            ConsoleType::ExtendedConsoleType => "Extended Console Type"@,
        }
    }

    pub fn name(&self) -> (r: &'static str)
        ensures
            r@ == self.name_text(),
    {
        match self {
            ConsoleType::NES => "NES",
            ConsoleType::VsSystem => "Vs. System",
            ConsoleType::Playchoice => "PlayChoice 10",
            ConsoleType::ExtendedConsoleType => "Extended Console Type",
        }
    }
}

} // verus!
