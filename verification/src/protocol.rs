//! ESC pulse-protocol encoders.
//!
//! The analog family (OneShot125, OneShot42) sends one variable-length
//! high pulse per motor per cycle whose duration is a linear function of
//! throttle. The digital family (DShot300) packs an 11-bit throttle and
//! a telemetry bit into a 16-bit word with a 4-bit checksum and sends it
//! most-significant bit first as high/low pulse pairs of bit-dependent
//! widths, closed by an end marker.
//!
//! Durations are in ticks of the protocol's clock rate.

use vstd::prelude::*;

verus! {

/// One RMT pulse entry: a high duration followed by a low duration, in
/// protocol clock ticks. An all-zero entry is the end marker.
#[derive(Debug, Clone, Copy, PartialEq, Eq, Structural)]
pub struct Pulse {
    /// Ticks the line is held high.
    pub high: u16,
    /// Ticks the line is held low.
    pub low: u16,
}

impl Pulse {
    /// The entry that terminates a pulse train.
    pub fn end_marker() -> (r: Pulse)
        ensures
            r == (Pulse { high: 0, low: 0 }),
    {
        Pulse { high: 0, low: 0 }
    }
}

/// Marker for the analog pulse-width protocols, which share the arming
/// script driven by plain throttle pulses.
pub trait Analog {

}

/// Clock rate of the DShot300 encoder, megahertz.
pub const DSHOT_RATE_MHZ: u32 = 80;

/// Tick counts of a `1` bit: high then low.
pub const DSHOT_ONE_HIGH: u16 = 200;

/// Low ticks of a `1` bit.
pub const DSHOT_ONE_LOW: u16 = 66;

/// High ticks of a `0` bit.
pub const DSHOT_ZERO_HIGH: u16 = 100;

/// Low ticks of a `0` bit.
pub const DSHOT_ZERO_LOW: u16 = 166;

/// Whether bit `i` of `x` is set.
pub open spec fn bit16(x: u16, i: u16) -> bool {
    (x >> i) & 1 == 1
}

/// The DShot checksum nibble of a positioned payload: the xor of its
/// three higher nibbles.
pub open spec fn dshot_checksum_spec(payload: u16) -> u16 {
    (payload ^ (payload >> 4) ^ (payload >> 8)) & 0xf
}

/// The 16-bit wire word of an 11-bit value: the value shifted into
/// position with its checksum nibble alongside.
pub open spec fn dshot_word(value: u16) -> u16 {
    (value << 5) | dshot_checksum_spec(value << 5)
}

/// The raw 11-bit DShot value of a throttle: `0..=1000` maps to
/// `48..=2047`, the range below `48` being reserved for commands.
pub open spec fn dshot_raw_throttle(throttle: int) -> int {
    if 2 * throttle + 48 < 2047 {
        2 * throttle + 48
    } else {
        2047
    }
}

/// The digital frame protocol at 300 kbit/s.
pub struct DShot300;

impl DShot300 {
    /// The checksum nibble of a positioned payload.
    pub fn checksum(payload: u16) -> (r: u16)
        ensures
            r == dshot_checksum_spec(payload),
            r == ((payload ^ (payload >> 4) ^ (payload >> 8)) & 0xf),
            r < 16,
    {
        let r = (payload ^ (payload >> 4) ^ (payload >> 8)) & 0xf;
        assert(r < 16) by (bit_vector)
            requires
                r == (payload ^ (payload >> 4) ^ (payload >> 8)) & 0xf,
        ;
        r
    }

    /// Encode a 16-bit wire word for `value`: one pulse pair per bit,
    /// most significant bit first, then the end marker.
    pub fn encode_frame(value: u16) -> (pulses: [Pulse; 17])
        ensures
            forall|i: int|
                0 <= i < 16 ==> #[trigger] pulses[i] == (if bit16(
                    dshot_word(value),
                    (15 - i) as u16,
                ) {
                    Pulse { high: DSHOT_ONE_HIGH, low: DSHOT_ONE_LOW }
                } else {
                    Pulse { high: DSHOT_ZERO_HIGH, low: DSHOT_ZERO_LOW }
                }),
            pulses[16] == (Pulse { high: 0, low: 0 }),
    {
        let payload = value << 5u16;
        let crc = Self::checksum(payload);
        let word = payload | crc;
        assert(word == dshot_word(value));

        let mut pulses = [Pulse { high: 0, low: 0 }; 17];
        let mut i: usize = 0;
        while i < 16
            invariant
                i <= 16,
                forall|m: int|
                    0 <= m < i ==> #[trigger] pulses[m] == (if bit16(word, (15 - m) as u16) {
                        Pulse { high: DSHOT_ONE_HIGH, low: DSHOT_ONE_LOW }
                    } else {
                        Pulse { high: DSHOT_ZERO_HIGH, low: DSHOT_ZERO_LOW }
                    }),
                forall|m: int| i <= m < 17 ==> #[trigger] pulses[m] == (Pulse { high: 0, low: 0 }),
                word == dshot_word(value),
            decreases 16 - i,
        {
            let shift = (15 - i) as u16;
            let bit = (word >> shift) & 1 == 1;
            if bit {
                pulses[i] = Pulse { high: DSHOT_ONE_HIGH, low: DSHOT_ONE_LOW };
            } else {
                pulses[i] = Pulse { high: DSHOT_ZERO_HIGH, low: DSHOT_ZERO_LOW };
            }
            i = i + 1;
        }
        pulses
    }

    /// Clamp a `0..=1000` throttle into the valid telemetry range and
    /// encode its frame.
    pub fn encode_throttle(throttle: u16) -> (r: ([Pulse; 17], usize))
        ensures
            r.1 == 17,
            ({
                let raw = dshot_raw_throttle(throttle as int);
                forall|i: int|
                    0 <= i < 16 ==> #[trigger] r.0[i] == (if bit16(
                        dshot_word(raw as u16),
                        (15 - i) as u16,
                    ) {
                        Pulse { high: DSHOT_ONE_HIGH, low: DSHOT_ONE_LOW }
                    } else {
                        Pulse { high: DSHOT_ZERO_HIGH, low: DSHOT_ZERO_LOW }
                    })
            }),
            r.0[16] == (Pulse { high: 0, low: 0 }),
    {
        let wide = 2 * (throttle as u32) + 48;
        let raw: u16 = if wide < 2047 {
            wide as u16
        } else {
            2047
        };
        assert(raw == dshot_raw_throttle(throttle as int));
        (Self::encode_frame(raw), 17)
    }

    /// Read a pulse train back into the wire word: bit `15 - i` of the
    /// result is set exactly when pulse `i` has the high duration of a
    /// `1` bit.
    pub fn decode_frame(pulses: &[Pulse; 17]) -> (word: u16)
        ensures
            forall|i: u16| i < 16 ==> bit16(word, i) == (pulses[15 - i] == (Pulse {
                high: DSHOT_ONE_HIGH,
                low: DSHOT_ONE_LOW,
            })),
    {
        let mut word: u16 = 0;
        assert(forall|k: u16| k < 16 ==> !bit16(0u16, k)) by (bit_vector);
        let mut i: usize = 0;
        while i < 16
            invariant
                i <= 16,
                forall|k: u16|
                    k < 16 && 16 - (i as u16) <= k ==> bit16(word, k) == (pulses[15 - k] == (
                    Pulse { high: DSHOT_ONE_HIGH, low: DSHOT_ONE_LOW })),
                forall|k: u16| k < 16 - (i as u16) ==> !bit16(word, k),
            decreases 16 - i,
        {
            let shift = (15 - i) as u16;
            let one = pulses[i].high == DSHOT_ONE_HIGH && pulses[i].low == DSHOT_ONE_LOW;
            if one {
                let updated = word | (1u16 << shift);
                assert forall|k: u16| k < 16 implies bit16(updated, k) == (if k == shift {
                    true
                } else {
                    bit16(word, k)
                }) by {
                    assert(forall|k: u16, s: u16, w: u16|
                        k < 16 && s < 16 ==> ((w | (1u16 << s)) >> k) & 1 == (if k == s {
                            1u16
                        } else {
                            (w >> k) & 1
                        })) by (bit_vector);
                }
                word = updated;
            }
            i = i + 1;
        }
        word
    }
}

/// With every bit of a word recovered, the word itself is recovered:
/// the pulse train is invertible, and the wire word splits back into
/// the 11-bit value and the checksum of its positioned payload.
pub proof fn lemma_dshot_roundtrip(value: u16, word: u16)
    requires
        value < 2048,
        forall|i: u16| i < 16 ==> bit16(word, i) == bit16(dshot_word(value), i),
    ensures
        word == dshot_word(value),
        word >> 5 == value,
        word & 0xf == dshot_checksum_spec(value << 5),
        (word >> 4) & 1 == 0,
{
    assert(bit16(word, 0) == bit16(dshot_word(value), 0));
    assert(bit16(word, 1) == bit16(dshot_word(value), 1));
    assert(bit16(word, 2) == bit16(dshot_word(value), 2));
    assert(bit16(word, 3) == bit16(dshot_word(value), 3));
    assert(bit16(word, 4) == bit16(dshot_word(value), 4));
    assert(bit16(word, 5) == bit16(dshot_word(value), 5));
    assert(bit16(word, 6) == bit16(dshot_word(value), 6));
    assert(bit16(word, 7) == bit16(dshot_word(value), 7));
    assert(bit16(word, 8) == bit16(dshot_word(value), 8));
    assert(bit16(word, 9) == bit16(dshot_word(value), 9));
    assert(bit16(word, 10) == bit16(dshot_word(value), 10));
    assert(bit16(word, 11) == bit16(dshot_word(value), 11));
    assert(bit16(word, 12) == bit16(dshot_word(value), 12));
    assert(bit16(word, 13) == bit16(dshot_word(value), 13));
    assert(bit16(word, 14) == bit16(dshot_word(value), 14));
    assert(bit16(word, 15) == bit16(dshot_word(value), 15));
    assert(word == dshot_word(value)) by (bit_vector)
        requires
            bit16(word, 0) == bit16(dshot_word(value), 0),
            bit16(word, 1) == bit16(dshot_word(value), 1),
            bit16(word, 2) == bit16(dshot_word(value), 2),
            bit16(word, 3) == bit16(dshot_word(value), 3),
            bit16(word, 4) == bit16(dshot_word(value), 4),
            bit16(word, 5) == bit16(dshot_word(value), 5),
            bit16(word, 6) == bit16(dshot_word(value), 6),
            bit16(word, 7) == bit16(dshot_word(value), 7),
            bit16(word, 8) == bit16(dshot_word(value), 8),
            bit16(word, 9) == bit16(dshot_word(value), 9),
            bit16(word, 10) == bit16(dshot_word(value), 10),
            bit16(word, 11) == bit16(dshot_word(value), 11),
            bit16(word, 12) == bit16(dshot_word(value), 12),
            bit16(word, 13) == bit16(dshot_word(value), 13),
            bit16(word, 14) == bit16(dshot_word(value), 14),
            bit16(word, 15) == bit16(dshot_word(value), 15),
    ;
    assert(dshot_word(value) >> 5 == value && dshot_word(value) & 0xf == dshot_checksum_spec(
        value << 5,
    ) && (dshot_word(value) >> 4) & 1 == 0) by (bit_vector)
        requires
            value < 2048,
    ;
}

/// Any twelve-bit prefix — eleven throttle bits and the telemetry flag
/// — placed above its checksum nibble splits back into exactly that
/// prefix and the checksum of its positioned payload; the wire word
/// loses nothing. The frames this crate sends are the special case with
/// the telemetry flag clear: `dshot_word(v)` is the word of prefix
/// `v << 1`.
pub proof fn lemma_dshot_word_invertible(prefix: u16, value: u16)
    requires
        prefix < 4096,
        value < 2048,
    ensures
        ((prefix << 4) | dshot_checksum_spec(prefix << 4)) >> 4 == prefix,
        ((prefix << 4) | dshot_checksum_spec(prefix << 4)) & 0xf == dshot_checksum_spec(
            prefix << 4,
        ),
        dshot_word(value) == ((value << 1) << 4) | dshot_checksum_spec((value << 1) << 4),
{
    assert(((prefix << 4) | dshot_checksum_spec(prefix << 4)) >> 4 == prefix && ((prefix << 4)
        | dshot_checksum_spec(prefix << 4)) & 0xf == dshot_checksum_spec(prefix << 4))
        by (bit_vector)
        requires
            prefix < 4096,
    ;
    assert(dshot_word(value) == ((value << 1) << 4) | dshot_checksum_spec((value << 1) << 4))
        by (bit_vector);
}

/// OneShot125: 8 MHz clock, one high pulse of `1000 + throttle` ticks.
pub struct OneShot125;

/// OneShot42: 24 MHz clock, one high pulse of `1000 + throttle` ticks.
pub struct OneShot42;

impl Analog for OneShot125 {

}

impl Analog for OneShot42 {

}

/// Clock rate of OneShot125, megahertz.
pub const ONESHOT125_RATE_MHZ: u32 = 8;

/// Clock rate of OneShot42, megahertz.
pub const ONESHOT42_RATE_MHZ: u32 = 24;

/// The analog pulse width of a clamped throttle: `min(t, 1000) + 1000`
/// ticks.
pub open spec fn oneshot_raw_throttle(throttle: int) -> int {
    if throttle < 1000 {
        throttle + 1000
    } else {
        2000
    }
}

/// The `0..=2000` throttle domain halved into the analog `1000..=2000`
/// pulse range.
pub open spec fn oneshot_transform(throttle: int) -> int {
    if throttle / 2 < 1000 {
        throttle / 2 + 1000
    } else {
        2000
    }
}

/// Encode one analog throttle pulse: the high duration carries the
/// value, the low duration is zero because the line is multiplexed away
/// between motors.
fn encode_oneshot(throttle: u16) -> (r: ([Pulse; 17], usize))
    ensures
        r.1 == 2,
        r.0[0] == (Pulse { high: oneshot_raw_throttle(throttle as int) as u16, low: 0 }),
        r.0[1] == (Pulse { high: 0, low: 0 }),
{
    let raw: u16 = if throttle < 1000 {
        throttle + 1000
    } else {
        2000
    };
    let mut pulses = [Pulse { high: 0, low: 0 }; 17];
    pulses[0] = Pulse { high: raw, low: 0 };
    pulses[1] = Pulse::end_marker();
    (pulses, 2)
}

/// Halve a `0..=2000` throttle into the shared analog pulse range.
fn oneshot_halved(throttle: u16) -> (r: u16)
    ensures
        r == oneshot_transform(throttle as int),
        1000 <= r <= 2000,
{
    let half = throttle / 2;
    if half < 1000 {
        half + 1000
    } else {
        2000
    }
}

impl OneShot125 {
    /// Map a `0..=2000` throttle into the analog pulse range.
    pub fn throttle_transform(throttle: u16) -> (r: u16)
        ensures
            r == oneshot_transform(throttle as int),
    {
        oneshot_halved(throttle)
    }

    /// Encode one throttle pulse.
    pub fn encode_throttle(throttle: u16) -> (r: ([Pulse; 17], usize))
        ensures
            r.1 == 2,
            r.0[0] == (Pulse { high: oneshot_raw_throttle(throttle as int) as u16, low: 0 }),
            r.0[1] == (Pulse { high: 0, low: 0 }),
    {
        encode_oneshot(throttle)
    }
}

impl OneShot42 {
    /// Map a `0..=2000` throttle into the analog pulse range.
    pub fn throttle_transform(throttle: u16) -> (r: u16)
        ensures
            r == oneshot_transform(throttle as int),
    {
        oneshot_halved(throttle)
    }

    /// Encode one throttle pulse.
    pub fn encode_throttle(throttle: u16) -> (r: ([Pulse; 17], usize))
        ensures
            r.1 == 2,
            r.0[0] == (Pulse { high: oneshot_raw_throttle(throttle as int) as u16, low: 0 }),
            r.0[1] == (Pulse { high: 0, low: 0 }),
    {
        encode_oneshot(throttle)
    }
}

} // verus!
