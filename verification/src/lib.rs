//! Driver core for the ADS1115 16-bit delta-sigma analog-to-digital converter.
//!
//! The crate holds everything the driver decides: how the configuration word is
//! laid out, how a conversion register block is decoded, sign-corrected and
//! scaled, and in which order the bus operations of a single-shot read follow
//! one another. It performs no bus transfer itself. The owner of the bus carries
//! out each [`BusAction`] and reports the outcome as a [`BusReply`].

pub mod config;
pub mod device;
pub mod error;
pub mod registers;
pub mod sample;

pub use device::{
    conversion_step, coefficient_for, millivolts, read_outcome, BusAction, BusReply,
    ConversionPhase, ADS1115, SETTLE_DELAY_MS,
};
pub use error::Ads1115Error;
pub use registers::{
    Ads1115Address, Ads1115CQConfig, Ads1115Channel, Ads1115ComparatorModeConfig,
    Ads1115ModeConfig, Ads1115MuxConfig, Ads1115OsConfig, Ads1115PgaConfig, Ads1115RegisterMap,
    Ads1115SampleRateConfig, RegisterWord,
};
pub use config::{config_word, spec_config_word};
pub use sample::{scale, sign_correct, signed_sample, spec_scale, truncated_quotient, Coefficient};
