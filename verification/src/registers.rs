//! The register map of the ADS1115 and the bit patterns of its configuration
//! fields.
//!
//! Every enumeration here is a closed set of codes taken from the device's
//! register description. A variant's code is what goes on the wire, already
//! shifted to the position the field occupies inside its byte.

use vstd::prelude::*;

verus! {

/// The two bytes of a 16-bit device register in bus order, most significant
/// byte first.
#[derive(Clone, Copy, Debug, PartialEq, Eq)]
pub struct RegisterWord {
    pub msb: u8,
    pub lsb: u8,
}

impl RegisterWord {
    /// The unsigned 16-bit value the two bytes spell, read big-endian.
    pub open spec fn raw(self) -> int {
        self.msb * 256 + self.lsb
    }

    /// Assembles the unsigned 16-bit register value.
    pub fn value(self) -> (raw: u16)
        ensures
            raw == self.raw(),
    {
        let high: u16 = self.msb as u16;
        let low: u16 = self.lsb as u16;
        high * 256 + low
    }
}

/// The four registers selected through the pointer byte.
#[derive(Clone, Copy, Debug, PartialEq, Eq)]
pub enum Ads1115RegisterMap {
    /// Conversion register.
    Ads1115RegPointerConvert,
    /// Configuration register.
    Ads1115RegPointerConfig,
    /// Low threshold register.
    Ads1115RegPointerLowthresh,
    /// High threshold register.
    Ads1115RegPointerHithresh,
}

impl Ads1115RegisterMap {
    /// The pointer byte that addresses the register.
    pub open spec fn spec_pointer(self) -> u8 {
        match self {
            Ads1115RegisterMap::Ads1115RegPointerConvert => 0x00,
            Ads1115RegisterMap::Ads1115RegPointerConfig => 0x01,
            Ads1115RegisterMap::Ads1115RegPointerLowthresh => 0x02,
            Ads1115RegisterMap::Ads1115RegPointerHithresh => 0x03,
        }
    }

    /// The pointer byte that addresses the register.
    #[verifier::when_used_as_spec(spec_pointer)]
    pub fn pointer(self) -> (byte: u8)
        ensures
            byte == self.spec_pointer(),
    {
        match self {
            Ads1115RegisterMap::Ads1115RegPointerConvert => 0x00,
            Ads1115RegisterMap::Ads1115RegPointerConfig => 0x01,
            Ads1115RegisterMap::Ads1115RegPointerLowthresh => 0x02,
            Ads1115RegisterMap::Ads1115RegPointerHithresh => 0x03,
        }
    }
}

/// Input multiplexer selection, bits 6 to 4 of the first configuration byte.
#[derive(Clone, Copy, Debug, PartialEq, Eq)]
pub enum Ads1115MuxConfig {
    /// Differential P = AIN0, N = AIN1 (device default).
    Ads1115RegConfigMuxDiff01,
    /// Differential P = AIN0, N = AIN3.
    Ads1115RegConfigMuxDiff03,
    /// Differential P = AIN1, N = AIN3.
    Ads1115RegConfigMuxDiff13,
    /// Differential P = AIN2, N = AIN3.
    Ads1115RegConfigMuxDiff23,
    /// Single-ended P = AIN0, N = GND.
    Ads1115RegConfigMuxSingle0,
    /// Single-ended P = AIN1, N = GND.
    Ads1115RegConfigMuxSingle1,
    /// Single-ended P = AIN2, N = GND.
    Ads1115RegConfigMuxSingle2,
    /// Single-ended P = AIN3, N = GND.
    Ads1115RegConfigMuxSingle3,
}

impl Ads1115MuxConfig {
    /// The field's bit pattern in place.
    pub open spec fn spec_bits(self) -> u8 {
        match self {
            Ads1115MuxConfig::Ads1115RegConfigMuxDiff01 => 0x00,
            Ads1115MuxConfig::Ads1115RegConfigMuxDiff03 => 0x10,
            Ads1115MuxConfig::Ads1115RegConfigMuxDiff13 => 0x20,
            Ads1115MuxConfig::Ads1115RegConfigMuxDiff23 => 0x30,
            Ads1115MuxConfig::Ads1115RegConfigMuxSingle0 => 0x40,
            Ads1115MuxConfig::Ads1115RegConfigMuxSingle1 => 0x50,
            Ads1115MuxConfig::Ads1115RegConfigMuxSingle2 => 0x60,
            Ads1115MuxConfig::Ads1115RegConfigMuxSingle3 => 0x70,
        }
    }

    /// The field's bit pattern in place.
    #[verifier::when_used_as_spec(spec_bits)]
    pub fn bits(self) -> (byte: u8)
        ensures
            byte == self.spec_bits(),
    {
        match self {
            Ads1115MuxConfig::Ads1115RegConfigMuxDiff01 => 0x00,
            Ads1115MuxConfig::Ads1115RegConfigMuxDiff03 => 0x10,
            Ads1115MuxConfig::Ads1115RegConfigMuxDiff13 => 0x20,
            Ads1115MuxConfig::Ads1115RegConfigMuxDiff23 => 0x30,
            Ads1115MuxConfig::Ads1115RegConfigMuxSingle0 => 0x40,
            Ads1115MuxConfig::Ads1115RegConfigMuxSingle1 => 0x50,
            Ads1115MuxConfig::Ads1115RegConfigMuxSingle2 => 0x60,
            Ads1115MuxConfig::Ads1115RegConfigMuxSingle3 => 0x70,
        }
    }
}

/// Programmable gain amplifier setting, bits 3 to 1 of the first configuration
/// byte. Each setting fixes the full-scale input range.
#[derive(Clone, Copy, Debug, PartialEq, Eq)]
pub enum Ads1115PgaConfig {
    /// +/-6.144 V range, gain 2/3.
    Ads1115RegConfigPga6144v,
    /// +/-4.096 V range, gain 1.
    Ads1115RegConfigPga4096v,
    /// +/-2.048 V range, gain 2 (device default).
    Ads1115RegConfigPga2048v,
    /// +/-1.024 V range, gain 4.
    Ads1115RegConfigPga1024v,
    /// +/-0.512 V range, gain 8.
    Ads1115RegConfigPga0512v,
    /// +/-0.256 V range, gain 16.
    Ads1115RegConfigPga0256v,
}

impl Ads1115PgaConfig {
    /// The field's bit pattern in place.
    pub open spec fn spec_bits(self) -> u8 {
        match self {
            Ads1115PgaConfig::Ads1115RegConfigPga6144v => 0x00,
            Ads1115PgaConfig::Ads1115RegConfigPga4096v => 0x02,
            Ads1115PgaConfig::Ads1115RegConfigPga2048v => 0x04,
            Ads1115PgaConfig::Ads1115RegConfigPga1024v => 0x06,
            Ads1115PgaConfig::Ads1115RegConfigPga0512v => 0x08,
            Ads1115PgaConfig::Ads1115RegConfigPga0256v => 0x0A,
        }
    }

    /// The field's bit pattern in place.
    #[verifier::when_used_as_spec(spec_bits)]
    pub fn bits(self) -> (byte: u8)
        ensures
            byte == self.spec_bits(),
    {
        match self {
            Ads1115PgaConfig::Ads1115RegConfigPga6144v => 0x00,
            Ads1115PgaConfig::Ads1115RegConfigPga4096v => 0x02,
            Ads1115PgaConfig::Ads1115RegConfigPga2048v => 0x04,
            Ads1115PgaConfig::Ads1115RegConfigPga1024v => 0x06,
            Ads1115PgaConfig::Ads1115RegConfigPga0512v => 0x08,
            Ads1115PgaConfig::Ads1115RegConfigPga0256v => 0x0A,
        }
    }
}

/// Operating mode, bit 0 of the first configuration byte.
#[derive(Clone, Copy, Debug, PartialEq, Eq)]
pub enum Ads1115ModeConfig {
    /// Continuous conversion mode.
    Ads1115RegConfigModeContin,
    /// Power-down single-shot mode (device default).
    Ads1115RegConfigModeSingle,
}

impl Ads1115ModeConfig {
    /// The field's bit pattern in place.
    pub open spec fn spec_bits(self) -> u8 {
        match self {
            Ads1115ModeConfig::Ads1115RegConfigModeContin => 0x00,
            Ads1115ModeConfig::Ads1115RegConfigModeSingle => 0x01,
        }
    }

    /// The field's bit pattern in place.
    #[verifier::when_used_as_spec(spec_bits)]
    pub fn bits(self) -> (byte: u8)
        ensures
            byte == self.spec_bits(),
    {
        match self {
            Ads1115ModeConfig::Ads1115RegConfigModeContin => 0x00,
            Ads1115ModeConfig::Ads1115RegConfigModeSingle => 0x01,
        }
    }
}

/// Data rate, bits 7 to 5 of the second configuration byte.
#[derive(Clone, Copy, Debug, PartialEq, Eq)]
pub enum Ads1115SampleRateConfig {
    /// 8 samples per second.
    Ads1115RegConfigDr8sps,
    /// 16 samples per second.
    Ads1115RegConfigDr16sps,
    /// 32 samples per second.
    Ads1115RegConfigDr32sps,
    /// 64 samples per second.
    Ads1115RegConfigDr64sps,
    /// 128 samples per second (device default).
    Ads1115RegConfigDr128sps,
    /// 250 samples per second.
    Ads1115RegConfigDr250sps,
    /// 475 samples per second.
    Ads1115RegConfigDr475sps,
    /// 860 samples per second.
    Ads1115RegConfigDr860sps,
}

impl Ads1115SampleRateConfig {
    /// The field's bit pattern in place.
    pub open spec fn spec_bits(self) -> u8 {
        match self {
            Ads1115SampleRateConfig::Ads1115RegConfigDr8sps => 0x00,
            Ads1115SampleRateConfig::Ads1115RegConfigDr16sps => 0x20,
            Ads1115SampleRateConfig::Ads1115RegConfigDr32sps => 0x40,
            Ads1115SampleRateConfig::Ads1115RegConfigDr64sps => 0x60,
            Ads1115SampleRateConfig::Ads1115RegConfigDr128sps => 0x80,
            Ads1115SampleRateConfig::Ads1115RegConfigDr250sps => 0xA0,
            Ads1115SampleRateConfig::Ads1115RegConfigDr475sps => 0xC0,
            Ads1115SampleRateConfig::Ads1115RegConfigDr860sps => 0xE0,
        }
    }

    /// The field's bit pattern in place.
    #[verifier::when_used_as_spec(spec_bits)]
    pub fn bits(self) -> (byte: u8)
        ensures
            byte == self.spec_bits(),
    {
        match self {
            Ads1115SampleRateConfig::Ads1115RegConfigDr8sps => 0x00,
            Ads1115SampleRateConfig::Ads1115RegConfigDr16sps => 0x20,
            Ads1115SampleRateConfig::Ads1115RegConfigDr32sps => 0x40,
            Ads1115SampleRateConfig::Ads1115RegConfigDr64sps => 0x60,
            Ads1115SampleRateConfig::Ads1115RegConfigDr128sps => 0x80,
            Ads1115SampleRateConfig::Ads1115RegConfigDr250sps => 0xA0,
            Ads1115SampleRateConfig::Ads1115RegConfigDr475sps => 0xC0,
            Ads1115SampleRateConfig::Ads1115RegConfigDr860sps => 0xE0,
        }
    }
}

/// Comparator mode, bit 4 of the second configuration byte.
#[derive(Clone, Copy, Debug, PartialEq, Eq)]
pub enum Ads1115ComparatorModeConfig {
    /// Traditional comparator with hysteresis (device default).
    Ads1115RegConfigCmodeTrad,
    /// Window comparator.
    Ads1115RegConfigCmodeWindow,
}

impl Ads1115ComparatorModeConfig {
    /// The field's bit pattern in place.
    pub open spec fn spec_bits(self) -> u8 {
        match self {
            Ads1115ComparatorModeConfig::Ads1115RegConfigCmodeTrad => 0x00,
            Ads1115ComparatorModeConfig::Ads1115RegConfigCmodeWindow => 0x10,
        }
    }

    /// The field's bit pattern in place.
    #[verifier::when_used_as_spec(spec_bits)]
    pub fn bits(self) -> (byte: u8)
        ensures
            byte == self.spec_bits(),
    {
        match self {
            Ads1115ComparatorModeConfig::Ads1115RegConfigCmodeTrad => 0x00,
            Ads1115ComparatorModeConfig::Ads1115RegConfigCmodeWindow => 0x10,
        }
    }
}

/// Operational status, bit 7 of the first configuration byte, as written.
#[derive(Clone, Copy, Debug, PartialEq, Eq)]
pub enum Ads1115OsConfig {
    /// No effect.
    Ads1115RegConfigOsNoeffect,
    /// Begin a single conversion.
    Ads1115RegConfigOsSingle,
}

impl Ads1115OsConfig {
    /// The field's bit pattern in place.
    pub open spec fn spec_bits(self) -> u8 {
        match self {
            Ads1115OsConfig::Ads1115RegConfigOsNoeffect => 0x00,
            Ads1115OsConfig::Ads1115RegConfigOsSingle => 0x80,
        }
    }

    /// The field's bit pattern in place.
    #[verifier::when_used_as_spec(spec_bits)]
    pub fn bits(self) -> (byte: u8)
        ensures
            byte == self.spec_bits(),
    {
        match self {
            Ads1115OsConfig::Ads1115RegConfigOsNoeffect => 0x00,
            Ads1115OsConfig::Ads1115RegConfigOsSingle => 0x80,
        }
    }
}

/// Comparator queue, bits 1 and 0 of the second configuration byte.
#[derive(Clone, Copy, Debug, PartialEq, Eq)]
pub enum Ads1115CQConfig {
    /// Assert ALERT/RDY after one conversion.
    Ads1115RegConfigCque1conv,
    /// Assert ALERT/RDY after two conversions.
    Ads1115RegConfigCque2conv,
    /// Assert ALERT/RDY after four conversions.
    Ads1115RegConfigCque4conv,
    /// Disable the comparator and hold ALERT/RDY high (device default).
    Ads1115RegConfigCqueNone,
}

impl Ads1115CQConfig {
    /// The field's bit pattern in place.
    pub open spec fn spec_bits(self) -> u8 {
        match self {
            Ads1115CQConfig::Ads1115RegConfigCque1conv => 0x00,
            Ads1115CQConfig::Ads1115RegConfigCque2conv => 0x01,
            Ads1115CQConfig::Ads1115RegConfigCque4conv => 0x02,
            Ads1115CQConfig::Ads1115RegConfigCqueNone => 0x03,
        }
    }

    /// The field's bit pattern in place.
    #[verifier::when_used_as_spec(spec_bits)]
    pub fn bits(self) -> (byte: u8)
        ensures
            byte == self.spec_bits(),
    {
        match self {
            Ads1115CQConfig::Ads1115RegConfigCque1conv => 0x00,
            Ads1115CQConfig::Ads1115RegConfigCque2conv => 0x01,
            Ads1115CQConfig::Ads1115RegConfigCque4conv => 0x02,
            Ads1115CQConfig::Ads1115RegConfigCqueNone => 0x03,
        }
    }
}

/// The 7-bit bus addresses the driver knows, set by the ADDR pin strap.
#[derive(Clone, Copy, Debug, PartialEq, Eq)]
pub enum Ads1115Address {
    /// ADDR tied to GND.
    I2c48,
    /// ADDR tied to VDD.
    I2c49,
}

impl Ads1115Address {
    /// The address as the bus expects it.
    pub open spec fn spec_bus_address(self) -> u16 {
        match self {
            Ads1115Address::I2c48 => 0x48,
            Ads1115Address::I2c49 => 0x49,
        }
    }

    /// The address as the bus expects it.
    #[verifier::when_used_as_spec(spec_bus_address)]
    pub fn bus_address(self) -> (address: u16)
        ensures
            address == self.spec_bus_address(),
    {
        match self {
            Ads1115Address::I2c48 => 0x48,
            Ads1115Address::I2c49 => 0x49,
        }
    }
}

/// The four single-ended input channels.
#[derive(Clone, Copy, Debug, PartialEq, Eq)]
pub enum Ads1115Channel {
    Chan0,
    Chan1,
    Chan2,
    Chan3,
}

impl Ads1115Channel {
    /// The channel's number, 0 to 3.
    pub open spec fn spec_index(self) -> u8 {
        match self {
            Ads1115Channel::Chan0 => 0,
            Ads1115Channel::Chan1 => 1,
            Ads1115Channel::Chan2 => 2,
            Ads1115Channel::Chan3 => 3,
        }
    }

    /// The channel's number, 0 to 3.
    #[verifier::when_used_as_spec(spec_index)]
    pub fn index(self) -> (number: u8)
        ensures
            number == self.spec_index(),
    {
        match self {
            Ads1115Channel::Chan0 => 0,
            Ads1115Channel::Chan1 => 1,
            Ads1115Channel::Chan2 => 2,
            Ads1115Channel::Chan3 => 3,
        }
    }

    /// The multiplexer setting that measures this channel against ground.
    pub open spec fn spec_mux(self) -> Ads1115MuxConfig {
        match self {
            Ads1115Channel::Chan0 => Ads1115MuxConfig::Ads1115RegConfigMuxSingle0,
            Ads1115Channel::Chan1 => Ads1115MuxConfig::Ads1115RegConfigMuxSingle1,
            Ads1115Channel::Chan2 => Ads1115MuxConfig::Ads1115RegConfigMuxSingle2,
            Ads1115Channel::Chan3 => Ads1115MuxConfig::Ads1115RegConfigMuxSingle3,
        }
    }

    /// The multiplexer setting that measures this channel against ground.
    #[verifier::when_used_as_spec(spec_mux)]
    pub fn mux(self) -> (mux: Ads1115MuxConfig)
        ensures
            mux == self.spec_mux(),
    {
        match self {
            Ads1115Channel::Chan0 => Ads1115MuxConfig::Ads1115RegConfigMuxSingle0,
            Ads1115Channel::Chan1 => Ads1115MuxConfig::Ads1115RegConfigMuxSingle1,
            Ads1115Channel::Chan2 => Ads1115MuxConfig::Ads1115RegConfigMuxSingle2,
            Ads1115Channel::Chan3 => Ads1115MuxConfig::Ads1115RegConfigMuxSingle3,
        }
    }
}

} // verus!
