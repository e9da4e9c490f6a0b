//! The five bytes that go on the wire.

use crate::configuration::{invert_level, ConfigError, Configuration};
use vstd::prelude::*;

verus! {

/// The byte every frame starts with.
pub const START_MARKER: u8 = 0xFA;

/// The number of bytes in a frame.
pub const FRAME_LEN: usize = 5;

/// The start marker and a configuration's mode code, brightness and speed as
/// they stand in its fields, added up.
pub open spec fn byte_sum(config: Configuration) -> int {
    START_MARKER + config.mode.wire_code() + config.brightness + config.speed
}

/// The checksum over a configuration's fields as they stand: of the sum of
/// the four bytes, the low eight bits.
pub open spec fn checksum(config: Configuration) -> int {
    byte_sum(config) % 256
}

/// The frame for a configuration whose levels are on the user's scale: start
/// marker, mode code, brightness and speed on the controller's scale, and the
/// checksum over those.
pub open spec fn frame_bytes(config: Configuration) -> Seq<u8> {
    let wire = config.inverted();
    seq![
        START_MARKER,
        wire.mode.wire_code(),
        wire.brightness,
        wire.speed,
        checksum(wire) as u8,
    ]
}

/// Sums the start marker and the three bytes that follow it in sixteen bits,
/// where the sum cannot overflow, and keeps the low eight.
fn checksum_byte(mode_code: u8, brightness: u8, speed: u8) -> (sum: u8)
    ensures
        sum == (START_MARKER + mode_code + brightness + speed) % 256,
{
    let sum: u16 = mode_code as u16 + brightness as u16 + speed as u16;
    let sum: u16 = sum + 0x00fa;
    assert(sum & 0x00ff == sum % 256) by (bit_vector);
    (sum & 0x00ff) as u8
}

/// Computes the checksum over a configuration's fields as they stand. For the
/// checksum of a frame, brightness and speed are on the controller's scale.
pub fn create_checksum(config: &Configuration) -> (sum: u8)
    ensures
        sum == checksum(*config),
{
    checksum_byte(u8::from(&config.mode), config.brightness, config.speed)
}

/// Builds the frame for a configuration whose levels are on the user's scale:
/// inverts brightness and speed, looks up the mode's code, and closes the
/// frame with the checksum. The levels must be in range; `try_encode` checks
/// them first.
pub fn encode(config: &Configuration) -> (frame: [u8; 5])
    requires
        config.levels_in_range(),
    ensures
        frame@ == frame_bytes(*config),
        frame@.len() == FRAME_LEN,
        frame[0] == START_MARKER,
{
    let mode_code: u8 = u8::from(&config.mode);
    let brightness: u8 = invert_level(config.brightness);
    let speed: u8 = invert_level(config.speed);
    [START_MARKER, mode_code, brightness, speed, checksum_byte(mode_code, brightness, speed)]
}

/// Builds the frame for a configuration if its levels are in range, and says
/// which is not if one is not.
pub fn try_encode(config: &Configuration) -> (encoded: Result<[u8; 5], ConfigError>)
    ensures
        encoded is Ok <==> config.levels_in_range(),
        encoded matches Ok(frame) ==> frame@ == frame_bytes(*config),
        encoded matches Err(error) ==> config.validity() == Err::<(), ConfigError>(error),
{
    match config.validate() {
        Ok(()) => Ok(encode(config)),
        Err(error) => Err(error),
    }
}

/// The frame is a function of mode, brightness and speed alone: two
/// configurations that agree on these three give the same frame, whatever
/// device and baud rate they name.
pub proof fn lemma_frame_is_determined_by_settings(a: Configuration, b: Configuration)
    requires
        a.levels_in_range(),
        a.mode == b.mode,
        a.brightness == b.brightness,
        a.speed == b.speed,
    ensures
        frame_bytes(a) == frame_bytes(b),
{
}

/// The checksum is a byte, and it wraps rather than saturates: where the sum
/// of the four bytes fits in eight bits the checksum is that sum, and where
/// it does not the checksum is what lies beyond 256.
pub proof fn lemma_checksum_wraps(config: Configuration)
    requires
        config.levels_in_range(),
    ensures
        0 <= checksum(config) <= 0xFF,
        byte_sum(config) <= 0xFF ==> checksum(config) == byte_sum(config),
        byte_sum(config) > 0xFF ==> checksum(config) == byte_sum(config) - 0x100,
{
}

/// A frame has five bytes. The first is the start marker, the second the
/// mode's code, the third and fourth are brightness and speed counted down
/// from 6, and the last is the sum of the four before it modulo 256.
pub proof fn lemma_frame_layout(config: Configuration)
    requires
        config.levels_in_range(),
    ensures
        frame_bytes(config).len() == FRAME_LEN,
        frame_bytes(config)[0] == START_MARKER,
        frame_bytes(config)[1] == config.mode.wire_code(),
        frame_bytes(config)[2] == 6 - config.brightness,
        frame_bytes(config)[3] == 6 - config.speed,
        frame_bytes(config)[4] == checksum(config.inverted()),
        frame_bytes(config)[4] == (frame_bytes(config)[0] + frame_bytes(config)[1]
            + frame_bytes(config)[2] + frame_bytes(config)[3]) % 256,
{
}

} // verus!
