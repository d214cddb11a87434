use vstd::prelude::*;

verus! {

/// The lowest bitrate, in bits per second, that the encoder is ever configured with.
pub const MIN_BITRATE: i32 = 16_000;

/// The highest bitrate, in bits per second, that the encoder is ever configured with.
pub const MAX_BITRATE: i32 = 512_000;

/// The highest encoder complexity.
pub const MAX_COMPLEXITY: i32 = 10;

/// `x` clamped into `[lo, hi]`.
pub open spec fn clamp(x: int, lo: int, hi: int) -> int {
    if x < lo { lo } else if x > hi { hi } else { x }
}

/// Validates an audio configuration requested by a client: the bitrate is
/// limited to 16 kbps ..= 512 kbps and the complexity to 0 ..= 10.
pub fn validate_config(bitrate: i32, complexity: i32) -> (res: (i32, i32))
    ensures
        res.0 == clamp(bitrate as int, MIN_BITRATE as int, MAX_BITRATE as int),
        res.1 == clamp(complexity as int, 0, MAX_COMPLEXITY as int),
{
    let valid_bitrate = if bitrate < MIN_BITRATE {
        MIN_BITRATE
    } else if bitrate > MAX_BITRATE {
        MAX_BITRATE
    } else {
        bitrate
    };
    let valid_complexity = if complexity < 0 {
        0
    } else if complexity > MAX_COMPLEXITY {
        MAX_COMPLEXITY
    } else {
        complexity
    };
    (valid_bitrate, valid_complexity)
}

/// The sample rate, in hertz, of the stream the encoder receives.
pub const STREAM_SAMPLE_RATE: u32 = 48_000;

/// The number of interleaved channels of the stream the encoder receives.
pub const STREAM_CHANNELS: u16 = 2;

/// The bitrate an Opus encoder is told to use.
#[derive(Clone, Copy, Debug, PartialEq, Eq)]
pub enum BitrateSetting {
    /// Let the encoder choose.
    Auto,
    /// A fixed number of bits per second.
    BitsPerSecond(i32),
}

/// What `configure_encoder` hands to the encoder for a requested configuration.
#[derive(Clone, Copy, Debug, PartialEq, Eq)]
pub struct EncoderSettings {
    pub bitrate: BitrateSetting,
    pub complexity: u8,
}

/// The settings for a requested bitrate and complexity: both are first
/// validated; a validated bitrate that is not positive would leave the
/// choice to the encoder.
pub open spec fn settings_for(bitrate: i32, complexity: i32) -> EncoderSettings {
    let valid_bitrate = clamp(bitrate as int, MIN_BITRATE as int, MAX_BITRATE as int);
    let valid_complexity = clamp(complexity as int, 0, MAX_COMPLEXITY as int);
    EncoderSettings {
        bitrate: if valid_bitrate <= 0 {
            BitrateSetting::Auto
        } else {
            BitrateSetting::BitsPerSecond(valid_bitrate as i32)
        },
        complexity: valid_complexity as u8,
    }
}

/// The encoder settings for a requested configuration (the music signal
/// type goes with every configuration).
pub fn encoder_settings(bitrate: i32, complexity: i32) -> (res: EncoderSettings)
    ensures
        res == settings_for(bitrate, complexity),
        res.bitrate matches BitrateSetting::BitsPerSecond(b) && MIN_BITRATE <= b <= MAX_BITRATE,
        res.complexity <= MAX_COMPLEXITY,
{
    let (valid_bitrate, valid_complexity) = validate_config(bitrate, complexity);
    let bitrate_setting = if valid_bitrate <= 0 {
        BitrateSetting::Auto
    } else {
        BitrateSetting::BitsPerSecond(valid_bitrate)
    };
    let clamped_complexity = if valid_complexity < 0 {
        0
    } else if valid_complexity > MAX_COMPLEXITY {
        MAX_COMPLEXITY
    } else {
        valid_complexity
    };
    EncoderSettings { bitrate: bitrate_setting, complexity: clamped_complexity as u8 }
}

/// Validation keeps a configuration that is already valid as it is, so
/// validating twice changes nothing more than validating once.
pub proof fn lemma_validation_is_idempotent(bitrate: i32, complexity: i32)
    ensures
        MIN_BITRATE <= bitrate <= MAX_BITRATE ==> clamp(bitrate as int, MIN_BITRATE as int, MAX_BITRATE as int) == bitrate,
        0 <= complexity <= MAX_COMPLEXITY ==> clamp(complexity as int, 0, MAX_COMPLEXITY as int) == complexity,
        clamp(clamp(bitrate as int, MIN_BITRATE as int, MAX_BITRATE as int), MIN_BITRATE as int, MAX_BITRATE as int)
            == clamp(bitrate as int, MIN_BITRATE as int, MAX_BITRATE as int),
        clamp(clamp(complexity as int, 0, MAX_COMPLEXITY as int), 0, MAX_COMPLEXITY as int)
            == clamp(complexity as int, 0, MAX_COMPLEXITY as int),
{
}

/// Validation is monotone: a higher request never yields a lower bitrate or complexity.
pub proof fn lemma_validation_is_monotone(b1: i32, b2: i32, c1: i32, c2: i32)
    requires
        b1 <= b2,
        c1 <= c2,
    ensures
        clamp(b1 as int, MIN_BITRATE as int, MAX_BITRATE as int) <= clamp(b2 as int, MIN_BITRATE as int, MAX_BITRATE as int),
        clamp(c1 as int, 0, MAX_COMPLEXITY as int) <= clamp(c2 as int, 0, MAX_COMPLEXITY as int),
{
}

/// A requested bitrate is kept within 16 000 ..= 512 000 bits per second and
/// a complexity within 0 ..= 10: a value inside the range is kept as it is,
/// one below it becomes the lower bound, one above it the upper bound.
pub proof fn lemma_validation_clamps(bitrate: i32, complexity: i32)
    ensures
        16_000 <= bitrate <= 512_000 ==> clamp(bitrate as int, MIN_BITRATE as int, MAX_BITRATE as int) == bitrate,
        bitrate < 16_000 ==> clamp(bitrate as int, MIN_BITRATE as int, MAX_BITRATE as int) == 16_000,
        bitrate > 512_000 ==> clamp(bitrate as int, MIN_BITRATE as int, MAX_BITRATE as int) == 512_000,
        0 <= complexity <= 10 ==> clamp(complexity as int, 0, MAX_COMPLEXITY as int) == complexity,
        complexity < 0 ==> clamp(complexity as int, 0, MAX_COMPLEXITY as int) == 0,
        complexity > 10 ==> clamp(complexity as int, 0, MAX_COMPLEXITY as int) == 10,
{
}

/// The encoder is told to use the validated request: a fixed bitrate equal
/// to the requested one when it lies in 16 000 ..= 512 000 (the nearest
/// bound otherwise), and the requested complexity when it lies in 0 ..= 10
/// (the nearest bound otherwise).
pub proof fn lemma_settings_follow_the_request(bitrate: i32, complexity: i32)
    ensures
        16_000 <= bitrate <= 512_000 ==> settings_for(bitrate, complexity).bitrate == BitrateSetting::BitsPerSecond(bitrate),
        bitrate < 16_000 ==> settings_for(bitrate, complexity).bitrate == BitrateSetting::BitsPerSecond(16_000),
        bitrate > 512_000 ==> settings_for(bitrate, complexity).bitrate == BitrateSetting::BitsPerSecond(512_000),
        0 <= complexity <= 10 ==> settings_for(bitrate, complexity).complexity == complexity,
        complexity < 0 ==> settings_for(bitrate, complexity).complexity == 0,
        complexity > 10 ==> settings_for(bitrate, complexity).complexity == 10,
{
}

} // verus!
