//! Assembly of the configuration word that starts a single-ended conversion.

use crate::registers::{
    Ads1115CQConfig, Ads1115Channel, Ads1115ModeConfig, Ads1115MuxConfig, Ads1115OsConfig,
    Ads1115PgaConfig, Ads1115SampleRateConfig, RegisterWord,
};
use vstd::prelude::*;

verus! {

/// The configuration word for one conversion of `channel` at `gain`.
///
/// First byte: start bit, multiplexer field of the channel, gain field, and the
/// mode field left at its continuous pattern. Second byte: 250 samples per
/// second with the comparator disabled.
pub open spec fn spec_config_word(gain: Ads1115PgaConfig, channel: Ads1115Channel) -> RegisterWord {
    RegisterWord {
        msb: Ads1115OsConfig::Ads1115RegConfigOsSingle.bits() | gain.bits()
            | Ads1115ModeConfig::Ads1115RegConfigModeContin.bits() | channel.mux().bits(),
        lsb: Ads1115SampleRateConfig::Ads1115RegConfigDr250sps.bits()
            | Ads1115CQConfig::Ads1115RegConfigCqueNone.bits(),
    }
}

/// Builds the configuration word for one conversion of `channel` at `gain`.
#[verifier::when_used_as_spec(spec_config_word)]
pub fn config_word(gain: Ads1115PgaConfig, channel: Ads1115Channel) -> (word: RegisterWord)
    ensures
        word == spec_config_word(gain, channel),
{
    let msb: u8 = Ads1115OsConfig::Ads1115RegConfigOsSingle.bits() | gain.bits()
        | Ads1115ModeConfig::Ads1115RegConfigModeContin.bits() | channel.mux().bits();
    let lsb: u8 = Ads1115SampleRateConfig::Ads1115RegConfigDr250sps.bits()
        | Ads1115CQConfig::Ads1115RegConfigCqueNone.bits();
    RegisterWord { msb, lsb }
}

/// The fields of a configuration word do not overlap: masking a field's
/// position gives back exactly the code that was put there, so the device reads
/// the start bit, the channel, the gain, the mode, the data rate and the
/// comparator queue that the word was built from, and every other bit is zero.
pub proof fn lemma_config_word_fields(gain: Ads1115PgaConfig, channel: Ads1115Channel)
    ensures
        config_word(gain, channel).msb & 0x80 == 0x80,
        config_word(gain, channel).msb & 0x70 == channel.mux().bits(),
        config_word(gain, channel).msb & 0x0E == gain.bits(),
        config_word(gain, channel).msb & 0x01 == 0x00,
        config_word(gain, channel).lsb & 0xE0 == 0xA0,
        config_word(gain, channel).lsb & 0x1C == 0x00,
        config_word(gain, channel).lsb & 0x03 == 0x03,
{
    let g: u8 = gain.bits();
    let m: u8 = channel.mux().bits();
    assert(g & 0x0E == g) by {
        lemma_gain_bits_in_field(gain);
    }
    assert(m & 0x70 == m) by {
        lemma_mux_bits_in_field(channel.mux());
    }
    assert({
        let msb = 0x80u8 | g | 0x00u8 | m;
        &&& msb & 0x80 == 0x80
        &&& msb & 0x70 == m
        &&& msb & 0x0E == g
        &&& msb & 0x01 == 0x00
    }) by (bit_vector)
        requires
            g & 0x0E == g,
            m & 0x70 == m,
    ;
    assert({
        let lsb = 0xA0u8 | 0x03u8;
        &&& lsb & 0xE0 == 0xA0
        &&& lsb & 0x1C == 0x00
        &&& lsb & 0x03 == 0x03
    }) by (bit_vector);
}

/// The configuration word as plain numbers: the first byte is 192 plus sixteen
/// times the channel number plus the gain code, the second byte is always 0xA3.
pub proof fn lemma_config_word_value(gain: Ads1115PgaConfig, channel: Ads1115Channel)
    ensures
        config_word(gain, channel).msb == 192 + 16 * channel.index() + gain.bits(),
        config_word(gain, channel).lsb == 0xA3,
{
    let g: u8 = gain.bits();
    let c: u8 = channel.index();
    let m: u8 = channel.mux().bits();
    assert(m == 64 + 16 * c);
    assert(g & 0x0E == g) by {
        lemma_gain_bits_in_field(gain);
    }
    assert((0x80u8 | g | 0x00u8 | m) == 192 + 16 * c + g) by (bit_vector)
        requires
            g & 0x0E == g,
            c < 4,
            m == 64 + 16 * c,
    ;
    assert(0xA0u8 | 0x03u8 == 0xA3u8) by (bit_vector);
}

/// Two configuration words are equal only if they were built for the same gain
/// and the same channel.
pub proof fn lemma_config_word_injective(
    gain_a: Ads1115PgaConfig,
    channel_a: Ads1115Channel,
    gain_b: Ads1115PgaConfig,
    channel_b: Ads1115Channel,
)
    requires
        config_word(gain_a, channel_a) == config_word(gain_b, channel_b),
    ensures
        gain_a == gain_b,
        channel_a == channel_b,
{
    lemma_config_word_fields(gain_a, channel_a);
    lemma_config_word_fields(gain_b, channel_b);
}

/// Every gain code lies inside bits 3 to 1.
pub proof fn lemma_gain_bits_in_field(gain: Ads1115PgaConfig)
    ensures
        gain.bits() & 0x0E == gain.bits(),
{
    assert(0x00u8 & 0x0E == 0x00u8) by (bit_vector);
    assert(0x02u8 & 0x0E == 0x02u8) by (bit_vector);
    assert(0x04u8 & 0x0E == 0x04u8) by (bit_vector);
    assert(0x06u8 & 0x0E == 0x06u8) by (bit_vector);
    assert(0x08u8 & 0x0E == 0x08u8) by (bit_vector);
    assert(0x0Au8 & 0x0E == 0x0Au8) by (bit_vector);
}

/// Every multiplexer code lies inside bits 6 to 4.
pub proof fn lemma_mux_bits_in_field(mux: Ads1115MuxConfig)
    ensures
        mux.bits() & 0x70 == mux.bits(),
{
    assert(0x00u8 & 0x70 == 0x00u8) by (bit_vector);
    assert(0x10u8 & 0x70 == 0x10u8) by (bit_vector);
    assert(0x20u8 & 0x70 == 0x20u8) by (bit_vector);
    assert(0x30u8 & 0x70 == 0x30u8) by (bit_vector);
    assert(0x40u8 & 0x70 == 0x40u8) by (bit_vector);
    assert(0x50u8 & 0x70 == 0x50u8) by (bit_vector);
    assert(0x60u8 & 0x70 == 0x60u8) by (bit_vector);
    assert(0x70u8 & 0x70 == 0x70u8) by (bit_vector);
}

} // verus!
