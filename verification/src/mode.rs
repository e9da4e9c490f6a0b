//! The LED modes and their codes on the wire.

use vstd::prelude::*;

verus! {

/// What the LEDs do.
#[derive(Clone, Copy, Debug, PartialEq, Eq, Structural)]
pub enum Mode {
    Off,
    Auto,
    Rainbow,
    Breathing,
    ColourCycle,
}

impl Mode {
    /// The byte that stands for this mode in a frame.
    pub open spec fn wire_code(self) -> u8 {
        match self {
            Mode::Rainbow => 0x01,
            Mode::Breathing => 0x02,
            Mode::ColourCycle => 0x03,
            Mode::Off => 0x04,
            Mode::Auto => 0x05,
        }
    }

    /// The characters of this mode's name.
    pub open spec fn spec_name(self) -> Seq<char> {
        match self {
            Mode::Off => "off"@,
            Mode::Auto => "auto"@,
            Mode::Rainbow => "rainbow"@,
            Mode::Breathing => "breathing"@,
            Mode::ColourCycle => "colourcycle"@,
        }
    }

    /// The name of this mode, in lower case and without spaces.
    pub fn name(&self) -> (name: &'static str)
        ensures
            name@ == self.spec_name(),
    {
        match self {
            Mode::Off => "off",
            Mode::Auto => "auto",
            Mode::Rainbow => "rainbow",
            Mode::Breathing => "breathing",
            Mode::ColourCycle => "colourcycle",
        }
    }
}

impl From<&Mode> for u8 {
    /// Looks the mode up in the table of wire codes.
    fn from(value: &Mode) -> (code: u8) {
        match value {
            Mode::Off => 0x04,
            Mode::Auto => 0x05,
            Mode::Rainbow => 0x01,
            Mode::Breathing => 0x02,
            Mode::ColourCycle => 0x03,
        }
    }
}

impl vstd::std_specs::convert::FromSpecImpl<&Mode> for u8 {
    open spec fn obeys_from_spec() -> bool {
        true
    }

    open spec fn from_spec(value: &Mode) -> u8 {
        value.wire_code()
    }
}

/// The table of wire codes fills `0x01..=0x05` and gives no code twice: every
/// mode has a code in that range, two modes share a code only if they are the
/// same mode, and every code in the range belongs to a mode.
pub proof fn lemma_wire_codes_are_a_closed_table(a: Mode, b: Mode, code: u8)
    ensures
        0x01 <= a.wire_code() <= 0x05,
        a.wire_code() == b.wire_code() <==> a == b,
        0x01 <= code <= 0x05 ==> exists|mode: Mode| mode.wire_code() == code,
{
    if 0x01 <= code <= 0x05 {
        let mode = if code == 0x01 {
            Mode::Rainbow
        } else if code == 0x02 {
            Mode::Breathing
        } else if code == 0x03 {
            Mode::ColourCycle
        } else if code == 0x04 {
            Mode::Off
        } else {
            Mode::Auto
        };
        assert(mode.wire_code() == code);
    }
}

} // verus!
