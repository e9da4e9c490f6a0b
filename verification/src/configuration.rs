//! The settings a frame carries, and the scale their levels are on.

use crate::decimal::{append_decimal, decimal};
use crate::mode::Mode;
use vstd::prelude::*;
use vstd::string::StringExecFns;

verus! {

/// The lowest brightness or speed level.
pub const MIN_LEVEL: u8 = 1;

/// The highest brightness or speed level.
pub const MAX_LEVEL: u8 = 5;

/// The baud rate the controller listens at unless told otherwise.
pub const DEFAULT_BAUD_RATE: u32 = 9600;

/// Whether `level` is a brightness or speed the controller knows.
pub open spec fn is_level(level: u8) -> bool {
    MIN_LEVEL <= level <= MAX_LEVEL
}

/// The same level on the scale that runs the other way.
///
/// A user counts from 1 (dimmest, slowest) to 5 (brightest, fastest); the
/// controller's firmware counts from 5 down to 1.
pub open spec fn inverted_level(level: int) -> int {
    6 - level
}

/// Turns a level from the user's scale onto the controller's, or back.
pub fn invert_level(level: u8) -> (inverted: u8)
    requires
        is_level(level),
    ensures
        inverted == inverted_level(level as int),
        is_level(inverted),
{
    6 - level
}

/// Inversion keeps a level a level, and doing it twice gives the level back.
pub proof fn lemma_inversion_is_an_involution(level: u8)
    requires
        is_level(level),
    ensures
        inverted_level(level as int) == 6 - level,
        MIN_LEVEL <= inverted_level(level as int) <= MAX_LEVEL,
        inverted_level(inverted_level(level as int)) == level,
{
}

/// Inversion turns the order of two levels round: the lowest becomes the
/// highest.
pub proof fn lemma_inversion_reverses_order(lower: u8, higher: u8)
    requires
        is_level(lower),
        is_level(higher),
    ensures
        lower < higher <==> inverted_level(lower as int) > inverted_level(higher as int),
        inverted_level(MIN_LEVEL as int) == MAX_LEVEL,
        inverted_level(MAX_LEVEL as int) == MIN_LEVEL,
{
}

/// The serial port the controller most often sits on: `\\.\COM3` on
/// Windows, `/dev/ttyUSB0` everywhere else.
pub open spec fn default_port(windows: bool) -> Seq<char> {
    if windows {
        "\\\\.\\COM3"@
    } else {
        "/dev/ttyUSB0"@
    }
}

/// Names the serial port to try when the user gives none. The caller says
/// whether the program runs on Windows.
pub fn get_default_port(windows: bool) -> (port: String)
    ensures
        port@ == default_port(windows),
{
    if windows {
        String::from_str("\\\\.\\COM3")
    } else {
        String::from_str("/dev/ttyUSB0")
    }
}

/// One setting of the LEDs, and the serial line it goes out on.
///
/// Brightness and speed are levels from 1 to 5. They come in on the user's
/// scale, where 1 is dimmest and slowest; `invert` turns them onto the
/// controller's scale, where 1 is brightest and fastest.
#[derive(Clone, Debug)]
pub struct Configuration {
    /// The device the data is written to.
    pub device: String,
    /// The LED mode.
    pub mode: Mode,
    /// The brightness of the LEDs.
    pub brightness: u8,
    /// The speed of the animations.
    pub speed: u8,
    /// The baud rate of the serial line.
    pub baud_rate: u32,
}

/// Why a configuration cannot be sent.
#[derive(Clone, Copy, Debug, PartialEq, Eq, Structural)]
pub enum ConfigError {
    /// The brightness, which is not a level.
    Brightness(u8),
    /// The speed, which is not a level.
    Speed(u8),
}

impl Configuration {
    /// Whether brightness and speed are both levels.
    pub open spec fn levels_in_range(self) -> bool {
        is_level(self.brightness) && is_level(self.speed)
    }

    /// What `validate` answers: the brightness is looked at first.
    pub open spec fn validity(self) -> Result<(), ConfigError> {
        if !is_level(self.brightness) {
            Err(ConfigError::Brightness(self.brightness))
        } else if !is_level(self.speed) {
            Err(ConfigError::Speed(self.speed))
        } else {
            Ok(())
        }
    }

    /// This configuration with brightness and speed on the other scale.
    pub open spec fn inverted(self) -> Configuration {
        Configuration {
            brightness: inverted_level(self.brightness as int) as u8,
            speed: inverted_level(self.speed as int) as u8,
            ..self
        }
    }

    /// What `describe` writes.
    pub open spec fn description(self) -> Seq<char> {
        "Mode: "@ + self.mode.spec_name() + " Brightness: "@ + decimal(self.brightness as nat)
            + " Speed: "@ + decimal(self.speed as nat)
    }

    /// Writes mode, brightness and speed out in one line, the numbers as they
    /// stand in the fields.
    pub fn describe(&self) -> (text: String)
        ensures
            text@ == self.description(),
    {
        let mut text = String::from_str("Mode: ");
        text.append(self.mode.name());
        text.append(" Brightness: ");
        append_decimal(&mut text, self.brightness);
        text.append(" Speed: ");
        append_decimal(&mut text, self.speed);
        text
    }

    /// Checks that brightness and speed are levels, and names the first that
    /// is not.
    pub fn validate(&self) -> (checked: Result<(), ConfigError>)
        ensures
            checked == self.validity(),
            checked.is_ok() <==> self.levels_in_range(),
    {
        if self.brightness < MIN_LEVEL || self.brightness > MAX_LEVEL {
            Err(ConfigError::Brightness(self.brightness))
        } else if self.speed < MIN_LEVEL || self.speed > MAX_LEVEL {
            Err(ConfigError::Speed(self.speed))
        } else {
            Ok(())
        }
    }

    /// Turns brightness and speed onto the other scale, in place. Nothing
    /// else changes.
    pub fn invert(&mut self)
        requires
            old(self).levels_in_range(),
        ensures
            *final(self) == old(self).inverted(),
            final(self).levels_in_range(),
    {
        self.speed = invert_level(self.speed);
        self.brightness = invert_level(self.brightness);
    }
}

/// Inverting a configuration keeps its levels in range and touches nothing
/// but brightness and speed; inverting it twice gives it back.
pub proof fn lemma_inverted_twice_is_unchanged(config: Configuration)
    requires
        config.levels_in_range(),
    ensures
        config.inverted().levels_in_range(),
        config.inverted().brightness == 6 - config.brightness,
        config.inverted().speed == 6 - config.speed,
        config.inverted().mode == config.mode,
        config.inverted().device == config.device,
        config.inverted().baud_rate == config.baud_rate,
        config.inverted().inverted() == config,
{
}

} // verus!
