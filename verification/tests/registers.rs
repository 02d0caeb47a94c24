use ads1115::{
    Ads1115Address, Ads1115CQConfig, Ads1115Channel, Ads1115ComparatorModeConfig,
    Ads1115ModeConfig, Ads1115MuxConfig, Ads1115OsConfig, Ads1115PgaConfig, Ads1115RegisterMap,
    Ads1115SampleRateConfig, RegisterWord,
};

#[test]
fn register_pointers_follow_the_register_map() {
    assert_eq!(Ads1115RegisterMap::Ads1115RegPointerConvert.pointer(), 0x00);
    assert_eq!(Ads1115RegisterMap::Ads1115RegPointerConfig.pointer(), 0x01);
    assert_eq!(Ads1115RegisterMap::Ads1115RegPointerLowthresh.pointer(), 0x02);
    assert_eq!(Ads1115RegisterMap::Ads1115RegPointerHithresh.pointer(), 0x03);
}

#[test]
fn mux_codes_sit_in_bits_six_to_four() {
    assert_eq!(Ads1115MuxConfig::Ads1115RegConfigMuxDiff01.bits(), 0x00);
    assert_eq!(Ads1115MuxConfig::Ads1115RegConfigMuxDiff03.bits(), 0x10);
    assert_eq!(Ads1115MuxConfig::Ads1115RegConfigMuxDiff13.bits(), 0x20);
    assert_eq!(Ads1115MuxConfig::Ads1115RegConfigMuxDiff23.bits(), 0x30);
    assert_eq!(Ads1115MuxConfig::Ads1115RegConfigMuxSingle0.bits(), 0x40);
    assert_eq!(Ads1115MuxConfig::Ads1115RegConfigMuxSingle1.bits(), 0x50);
    assert_eq!(Ads1115MuxConfig::Ads1115RegConfigMuxSingle2.bits(), 0x60);
    assert_eq!(Ads1115MuxConfig::Ads1115RegConfigMuxSingle3.bits(), 0x70);
}

#[test]
fn gain_codes_sit_in_bits_three_to_one() {
    assert_eq!(Ads1115PgaConfig::Ads1115RegConfigPga6144v.bits(), 0x00);
    assert_eq!(Ads1115PgaConfig::Ads1115RegConfigPga4096v.bits(), 0x02);
    assert_eq!(Ads1115PgaConfig::Ads1115RegConfigPga2048v.bits(), 0x04);
    assert_eq!(Ads1115PgaConfig::Ads1115RegConfigPga1024v.bits(), 0x06);
    assert_eq!(Ads1115PgaConfig::Ads1115RegConfigPga0512v.bits(), 0x08);
    assert_eq!(Ads1115PgaConfig::Ads1115RegConfigPga0256v.bits(), 0x0A);
}

#[test]
fn mode_codes_sit_in_bit_zero() {
    assert_eq!(Ads1115ModeConfig::Ads1115RegConfigModeContin.bits(), 0x00);
    assert_eq!(Ads1115ModeConfig::Ads1115RegConfigModeSingle.bits(), 0x01);
}

#[test]
fn sample_rate_codes_sit_in_bits_seven_to_five() {
    assert_eq!(Ads1115SampleRateConfig::Ads1115RegConfigDr8sps.bits(), 0x00);
    assert_eq!(Ads1115SampleRateConfig::Ads1115RegConfigDr16sps.bits(), 0x20);
    assert_eq!(Ads1115SampleRateConfig::Ads1115RegConfigDr32sps.bits(), 0x40);
    assert_eq!(Ads1115SampleRateConfig::Ads1115RegConfigDr64sps.bits(), 0x60);
    assert_eq!(Ads1115SampleRateConfig::Ads1115RegConfigDr128sps.bits(), 0x80);
    assert_eq!(Ads1115SampleRateConfig::Ads1115RegConfigDr250sps.bits(), 0xA0);
    assert_eq!(Ads1115SampleRateConfig::Ads1115RegConfigDr475sps.bits(), 0xC0);
    assert_eq!(Ads1115SampleRateConfig::Ads1115RegConfigDr860sps.bits(), 0xE0);
}

#[test]
fn comparator_mode_codes_sit_in_bit_four() {
    assert_eq!(Ads1115ComparatorModeConfig::Ads1115RegConfigCmodeTrad.bits(), 0x00);
    assert_eq!(Ads1115ComparatorModeConfig::Ads1115RegConfigCmodeWindow.bits(), 0x10);
}

#[test]
fn start_codes_sit_in_bit_seven() {
    assert_eq!(Ads1115OsConfig::Ads1115RegConfigOsNoeffect.bits(), 0x00);
    assert_eq!(Ads1115OsConfig::Ads1115RegConfigOsSingle.bits(), 0x80);
}

#[test]
fn comparator_queue_codes_sit_in_bits_one_and_zero() {
    assert_eq!(Ads1115CQConfig::Ads1115RegConfigCque1conv.bits(), 0x00);
    assert_eq!(Ads1115CQConfig::Ads1115RegConfigCque2conv.bits(), 0x01);
    assert_eq!(Ads1115CQConfig::Ads1115RegConfigCque4conv.bits(), 0x02);
    assert_eq!(Ads1115CQConfig::Ads1115RegConfigCqueNone.bits(), 0x03);
}

#[test]
fn bus_addresses_are_0x48_and_0x49() {
    assert_eq!(Ads1115Address::I2c48.bus_address(), 0x48);
    assert_eq!(Ads1115Address::I2c49.bus_address(), 0x49);
}

#[test]
fn channels_map_to_their_single_ended_mux_setting() {
    assert_eq!(Ads1115Channel::Chan0.index(), 0);
    assert_eq!(Ads1115Channel::Chan1.index(), 1);
    assert_eq!(Ads1115Channel::Chan2.index(), 2);
    assert_eq!(Ads1115Channel::Chan3.index(), 3);
    assert_eq!(Ads1115Channel::Chan0.mux(), Ads1115MuxConfig::Ads1115RegConfigMuxSingle0);
    assert_eq!(Ads1115Channel::Chan1.mux(), Ads1115MuxConfig::Ads1115RegConfigMuxSingle1);
    assert_eq!(Ads1115Channel::Chan2.mux(), Ads1115MuxConfig::Ads1115RegConfigMuxSingle2);
    assert_eq!(Ads1115Channel::Chan3.mux(), Ads1115MuxConfig::Ads1115RegConfigMuxSingle3);
}

#[test]
fn register_word_is_read_big_endian() {
    assert_eq!(RegisterWord { msb: 0x01, lsb: 0x90 }.value(), 400);
    assert_eq!(RegisterWord { msb: 0x90, lsb: 0x01 }.value(), 0x9001);
    assert_eq!(RegisterWord { msb: 0x00, lsb: 0x00 }.value(), 0);
    assert_eq!(RegisterWord { msb: 0x7F, lsb: 0xFF }.value(), 32767);
    assert_eq!(RegisterWord { msb: 0x80, lsb: 0x00 }.value(), 32768);
    assert_eq!(RegisterWord { msb: 0xFF, lsb: 0xFF }.value(), 65535);
}

#[test]
fn register_word_value_is_msb_times_256_plus_lsb() {
    for msb in 0..=255u8 {
        for lsb in 0..=255u8 {
            let word = RegisterWord { msb, lsb };
            assert_eq!(word.value(), msb as u16 * 256 + lsb as u16);
        }
    }
}
