//! The device handle and the sequencing of a single-shot conversion.
//!
//! A conversion is the linear sequence write configuration, wait, read
//! conversion register. The handle decides each step; the owner of the bus
//! performs it and reports back. [`ADS1115::read_voltage`] is the transition
//! function of that exchange, and [`conversion_step`] is its specification.

use crate::config::config_word;
use crate::error::Ads1115Error;
use crate::registers::{
    Ads1115Address, Ads1115Channel, Ads1115PgaConfig, Ads1115RegisterMap, RegisterWord,
};
use crate::sample::{
    lemma_coefficient_matches_range, lemma_scale_keeps_sign, lemma_scale_monotonic,
    lemma_scale_within_range, scale, sign_correct, signed_sample, spec_scale, Coefficient,
};
use vstd::prelude::*;

verus! {

/// How long the bus owner must wait between writing the configuration and
/// reading the conversion register, in milliseconds. At 250 samples per second
/// a conversion takes 4 ms; the delay leaves a wide margin.
pub const SETTLE_DELAY_MS: u64 = 75;

/// Where a conversion stands between two calls of [`ADS1115::read_voltage`].
#[derive(Clone, Copy, Debug, PartialEq, Eq)]
pub enum ConversionPhase {
    /// No conversion is under way.
    Idle,
    /// The configuration word was handed out to be written.
    Configuring,
    /// The settle delay was handed out.
    Settling,
    /// The read of the conversion register was handed out.
    Reading,
}

/// What the bus owner is asked to do next.
#[derive(Clone, Copy, Debug, PartialEq, Eq)]
pub enum BusAction {
    /// Write the two bytes of the word as one block to the register.
    WriteBlock(Ads1115RegisterMap, RegisterWord),
    /// Block for the given number of milliseconds.
    Delay(u64),
    /// Read a block of two bytes from the register.
    ReadBlock(Ads1115RegisterMap),
    /// The conversion is over, with the voltage in millivolts or the reason
    /// there is none.
    Finish(Result<i32, Ads1115Error>),
}

/// What the bus owner reports after carrying out a [`BusAction`].
#[derive(Clone, Copy, Debug, PartialEq, Eq)]
pub enum BusReply {
    /// The action was carried out; it delivered no data.
    Completed,
    /// The transfer failed.
    Failed,
    /// The block that was read, in bus order.
    Block(RegisterWord),
}

/// The voltage step a handle holds for its gain: the table entry of the gain,
/// or none while no gain is set.
pub open spec fn coefficient_for(gain: Option<Ads1115PgaConfig>) -> Option<Coefficient> {
    match gain {
        Some(setting) => Some(setting.coefficient()),
        None => None,
    }
}

/// The voltage in millivolts that a conversion register block stands for at
/// the given gain: the big-endian value, read as a signed 16-bit sample, times
/// the voltage step of the gain, truncated toward zero.
pub open spec fn millivolts(word: RegisterWord, gain: Ads1115PgaConfig) -> int {
    spec_scale(signed_sample(word.raw()), gain.coefficient())
}

/// What reading the conversion register yields on a handle with the given
/// gain: the gain is looked at first, then the reply.
pub open spec fn read_outcome(gain: Option<Ads1115PgaConfig>, reply: BusReply) -> Result<
    i32,
    Ads1115Error,
> {
    match gain {
        None => Err(Ads1115Error::NotConfigured),
        Some(setting) => match reply {
            BusReply::Block(word) => Ok(millivolts(word, setting) as i32),
            _ => Err(Ads1115Error::TransportError),
        },
    }
}

/// One step of a conversion: from the phase the conversion is in and the reply
/// to the action handed out last, to the next phase and the next action.
///
/// From `Idle` the reply is not looked at: a handle without gain finishes at
/// once with `NotConfigured`, any other hands out the configuration word. A
/// `Failed` reply while writing or settling finishes with `TransportError`;
/// any other reply there moves on. In `Reading` the outcome is that of
/// [`read_outcome`]. Every `Finish` leaves the conversion `Idle`.
pub open spec fn conversion_step(
    gain: Option<Ads1115PgaConfig>,
    channel: Ads1115Channel,
    phase: ConversionPhase,
    reply: BusReply,
) -> (ConversionPhase, BusAction) {
    match phase {
        ConversionPhase::Idle => match gain {
            None => (ConversionPhase::Idle, BusAction::Finish(Err(Ads1115Error::NotConfigured))),
            Some(setting) => (
                ConversionPhase::Configuring,
                BusAction::WriteBlock(
                    Ads1115RegisterMap::Ads1115RegPointerConfig,
                    config_word(setting, channel),
                ),
            ),
        },
        ConversionPhase::Configuring => if reply is Failed {
            (ConversionPhase::Idle, BusAction::Finish(Err(Ads1115Error::TransportError)))
        } else {
            (ConversionPhase::Settling, BusAction::Delay(SETTLE_DELAY_MS))
        },
        ConversionPhase::Settling => if reply is Failed {
            (ConversionPhase::Idle, BusAction::Finish(Err(Ads1115Error::TransportError)))
        } else {
            (
                ConversionPhase::Reading,
                BusAction::ReadBlock(Ads1115RegisterMap::Ads1115RegPointerConvert),
            )
        },
        ConversionPhase::Reading => (
            ConversionPhase::Idle,
            BusAction::Finish(read_outcome(gain, reply)),
        ),
    }
}

/// A handle for one ADS1115 on the bus. It remembers the address it was made
/// for and the gain that is active, together with the voltage step of that
/// gain. The step always is the table entry of the gain.
#[derive(Debug)]
pub struct ADS1115 {
    address: Ads1115Address,
    gain: Option<Ads1115PgaConfig>,
    coefficient: Option<Coefficient>,
}

impl ADS1115 {
    #[verifier::type_invariant]
    spec fn coefficient_follows_gain(self) -> bool {
        self.coefficient == coefficient_for(self.gain)
    }

    /// The bus address the handle was made for.
    pub closed spec fn spec_address(&self) -> Ads1115Address {
        self.address
    }

    /// The active gain, or none if no gain was set yet.
    pub closed spec fn spec_gain(&self) -> Option<Ads1115PgaConfig> {
        self.gain
    }

    /// Makes a handle without gain for the device at `address`. `selected`
    /// tells whether the bus accepted the address; if it did not, there is no
    /// handle.
    pub fn unconfigured(address: Ads1115Address, selected: bool) -> (made: Result<
        ADS1115,
        Ads1115Error,
    >)
        ensures
            match made {
                Ok(handle) => selected && handle.spec_address() == address
                    && handle.spec_gain() is None,
                Err(error) => !selected && error == Ads1115Error::TransportError,
            },
    {
        if selected {
            Ok(ADS1115 { address, gain: None, coefficient: None })
        } else {
            Err(Ads1115Error::TransportError)
        }
    }

    /// Makes a handle for the device at `address` with `gain` active.
    /// `selected` tells whether the bus accepted the address; if it did not,
    /// there is no handle.
    pub fn new(address: Ads1115Address, gain: Ads1115PgaConfig, selected: bool) -> (made: Result<
        ADS1115,
        Ads1115Error,
    >)
        ensures
            match made {
                Ok(handle) => selected && handle.spec_address() == address
                    && handle.spec_gain() == Some(gain),
                Err(error) => !selected && error == Ads1115Error::TransportError,
            },
    {
        match ADS1115::unconfigured(address, selected) {
            Ok(mut handle) => {
                handle.set_gain(gain);
                Ok(handle)
            },
            Err(error) => Err(error),
        }
    }

    /// The bus address the handle was made for.
    #[verifier::when_used_as_spec(spec_address)]
    pub fn address(&self) -> (address: Ads1115Address)
        ensures
            address == self.spec_address(),
    {
        self.address
    }

    /// The active gain, or none if no gain was set yet.
    #[verifier::when_used_as_spec(spec_gain)]
    pub fn gain(&self) -> (gain: Option<Ads1115PgaConfig>)
        ensures
            gain == self.spec_gain(),
    {
        self.gain
    }

    /// The voltage step in use: the table entry of the active gain.
    pub fn coefficient(&self) -> (step: Option<Coefficient>)
        ensures
            step == coefficient_for(self.gain()),
    {
        proof {
            use_type_invariant(self);
        }
        self.coefficient
    }

    /// Makes `gain` the active gain and returns its voltage step. The address
    /// stays as it was.
    pub fn set_gain(&mut self, gain: Ads1115PgaConfig) -> (step: Option<Coefficient>)
        ensures
            final(self).spec_gain() == Some(gain),
            final(self).spec_address() == old(self).spec_address(),
            step == Some(gain.coefficient()),
    {
        let step = Some(gain.coefficient());
        *self = ADS1115 { address: self.address, gain: Some(gain), coefficient: step };
        step
    }

    /// The bus action that starts one conversion of `channel`: the write of
    /// the configuration word for the active gain and the channel to the
    /// configuration register. Fails with `NotConfigured` exactly if no gain
    /// is set.
    pub fn configure_single(&self, channel: Ads1115Channel) -> (start: Result<
        BusAction,
        Ads1115Error,
    >)
        ensures
            self.gain() is None ==> start == Err::<BusAction, Ads1115Error>(
                Ads1115Error::NotConfigured,
            ),
            self.gain() matches Some(setting) ==> start == Ok::<BusAction, Ads1115Error>(
                BusAction::WriteBlock(
                    Ads1115RegisterMap::Ads1115RegPointerConfig,
                    config_word(setting, channel),
                ),
            ),
    {
        match self.gain {
            Some(setting) => Ok(
                BusAction::WriteBlock(
                    Ads1115RegisterMap::Ads1115RegPointerConfig,
                    config_word(setting, channel),
                ),
            ),
            None => Err(Ads1115Error::NotConfigured),
        }
    }

    /// Turns the reply to a read of the conversion register into millivolts.
    /// Fails with `NotConfigured` exactly if no gain is set, whatever the
    /// reply; otherwise with `TransportError` exactly if the reply carries no
    /// block.
    pub fn read_value(&self, reply: BusReply) -> (value: Result<i32, Ads1115Error>)
        ensures
            value == read_outcome(self.gain(), reply),
            self.gain() is None ==> value == Err::<i32, Ads1115Error>(Ads1115Error::NotConfigured),
            self.gain() matches Some(setting) ==> match reply {
                BusReply::Block(word) => value matches Ok(voltage) && voltage == millivolts(
                    word,
                    setting,
                ),
                _ => value == Err::<i32, Ads1115Error>(Ads1115Error::TransportError),
            },
    {
        proof {
            use_type_invariant(self);
        }
        match self.coefficient {
            Some(step) => {
                proof {
                    lemma_coefficient_matches_range(self.gain->0);
                }
                match reply {
                    BusReply::Block(word) => Ok(scale(sign_correct(word.value()), step)),
                    _ => Err(Ads1115Error::TransportError),
                }
            },
            None => Err(Ads1115Error::NotConfigured),
        }
    }

    /// Advances a conversion of `channel` by one step: takes the phase the
    /// conversion is in and the reply to the action handed out last, and
    /// returns the next phase and the next action. A conversion starts from
    /// `Idle`, where the reply is not looked at, and is over when the action
    /// is `Finish`.
    pub fn read_voltage(
        &self,
        channel: Ads1115Channel,
        phase: ConversionPhase,
        reply: BusReply,
    ) -> (next: (ConversionPhase, BusAction))
        ensures
            next == conversion_step(self.gain(), channel, phase, reply),
    {
        match phase {
            ConversionPhase::Idle => match self.configure_single(channel) {
                Ok(start) => (ConversionPhase::Configuring, start),
                Err(error) => (ConversionPhase::Idle, BusAction::Finish(Err(error))),
            },
            ConversionPhase::Configuring => match reply {
                BusReply::Failed => (
                    ConversionPhase::Idle,
                    BusAction::Finish(Err(Ads1115Error::TransportError)),
                ),
                _ => (ConversionPhase::Settling, BusAction::Delay(SETTLE_DELAY_MS)),
            },
            ConversionPhase::Settling => match reply {
                BusReply::Failed => (
                    ConversionPhase::Idle,
                    BusAction::Finish(Err(Ads1115Error::TransportError)),
                ),
                _ => (
                    ConversionPhase::Reading,
                    BusAction::ReadBlock(Ads1115RegisterMap::Ads1115RegPointerConvert),
                ),
            },
            ConversionPhase::Reading => (
                ConversionPhase::Idle,
                BusAction::Finish(self.read_value(reply)),
            ),
        }
    }
}

/// A reading lies within the full-scale range of its gain, so it fits the
/// result type with room to spare.
pub proof fn lemma_millivolts_within_range(word: RegisterWord, gain: Ads1115PgaConfig)
    ensures
        -gain.full_scale_millivolts() <= millivolts(word, gain) <= gain.full_scale_millivolts(),
        millivolts(word, gain) as i32 == millivolts(word, gain),
{
    lemma_scale_within_range(signed_sample(word.raw()), gain);
}

/// A reading never has the opposite sign of the sample it was scaled from:
/// blocks below 0x8000 give a voltage that is not negative, blocks from 0x8000
/// on give a voltage that is not positive, and a zero block gives zero.
pub proof fn lemma_reading_keeps_sign(word: RegisterWord, gain: Ads1115PgaConfig)
    ensures
        word.raw() < 32768 ==> millivolts(word, gain) >= 0,
        word.raw() >= 32768 ==> millivolts(word, gain) <= 0,
        word.raw() == 0 ==> millivolts(word, gain) == 0,
{
    lemma_coefficient_matches_range(gain);
    lemma_scale_keeps_sign(signed_sample(word.raw()), gain.coefficient());
}

/// Readings are ordered as their signed samples are.
pub proof fn lemma_reading_monotonic(low: RegisterWord, high: RegisterWord, gain: Ads1115PgaConfig)
    requires
        signed_sample(low.raw()) <= signed_sample(high.raw()),
    ensures
        millivolts(low, gain) <= millivolts(high, gain),
{
    lemma_coefficient_matches_range(gain);
    lemma_scale_monotonic(signed_sample(low.raw()), signed_sample(high.raw()), gain.coefficient());
}

/// The course of a conversion on which no transfer fails: the configuration
/// word of the gain and channel is written to the configuration register, the
/// settle delay follows, then the read of the conversion register, and the
/// block that comes back is finished into its voltage.
pub proof fn lemma_conversion_course(
    gain: Ads1115PgaConfig,
    channel: Ads1115Channel,
    begun: BusReply,
    written: BusReply,
    waited: BusReply,
    word: RegisterWord,
)
    requires
        written !is Failed,
        waited !is Failed,
    ensures
        conversion_step(Some(gain), channel, ConversionPhase::Idle, begun) == (
            ConversionPhase::Configuring,
            BusAction::WriteBlock(
                Ads1115RegisterMap::Ads1115RegPointerConfig,
                config_word(gain, channel),
            ),
        ),
        conversion_step(Some(gain), channel, ConversionPhase::Configuring, written) == (
            ConversionPhase::Settling,
            BusAction::Delay(75),
        ),
        conversion_step(Some(gain), channel, ConversionPhase::Settling, waited) == (
            ConversionPhase::Reading,
            BusAction::ReadBlock(Ads1115RegisterMap::Ads1115RegPointerConvert),
        ),
        conversion_step(Some(gain), channel, ConversionPhase::Reading, BusReply::Block(word)) == (
            ConversionPhase::Idle,
            BusAction::Finish(Ok(millivolts(word, gain) as i32)),
        ),
{
}

/// The phase always names the action that is outstanding: `Configuring` goes
/// with the write of the configuration register, `Settling` with the settle
/// delay, `Reading` with the read of the conversion register, and `Idle` with
/// the end of the conversion.
pub proof fn lemma_phase_names_action(
    gain: Option<Ads1115PgaConfig>,
    channel: Ads1115Channel,
    phase: ConversionPhase,
    reply: BusReply,
)
    ensures
        conversion_step(gain, channel, phase, reply).0 is Idle <==> conversion_step(
            gain,
            channel,
            phase,
            reply,
        ).1 is Finish,
        conversion_step(gain, channel, phase, reply).0 is Configuring <==> conversion_step(
            gain,
            channel,
            phase,
            reply,
        ).1 is WriteBlock,
        conversion_step(gain, channel, phase, reply).0 is Settling <==> conversion_step(
            gain,
            channel,
            phase,
            reply,
        ).1 == BusAction::Delay(SETTLE_DELAY_MS),
        conversion_step(gain, channel, phase, reply).0 is Reading <==> conversion_step(
            gain,
            channel,
            phase,
            reply,
        ).1 == BusAction::ReadBlock(Ads1115RegisterMap::Ads1115RegPointerConvert),
{
}

/// The conversion register is never read early: a read is handed out only in
/// answer to the settle delay, and the settle delay only in answer to the
/// write of the configuration.
pub proof fn lemma_read_follows_delay(
    gain: Option<Ads1115PgaConfig>,
    channel: Ads1115Channel,
    phase: ConversionPhase,
    reply: BusReply,
)
    ensures
        conversion_step(gain, channel, phase, reply).1 is ReadBlock <==> phase is Settling
            && reply !is Failed,
        conversion_step(gain, channel, phase, reply).1 is Delay <==> phase is Configuring
            && reply !is Failed,
        conversion_step(gain, channel, phase, reply).1 is WriteBlock <==> phase is Idle
            && gain is Some,
{
}

/// There is no retry: once a conversion is under way on a handle with a gain,
/// a failed transfer ends it with `TransportError`, whichever step failed.
pub proof fn lemma_failure_ends_conversion(
    gain: Ads1115PgaConfig,
    channel: Ads1115Channel,
    phase: ConversionPhase,
)
    requires
        phase !is Idle,
    ensures
        conversion_step(Some(gain), channel, phase, BusReply::Failed) == (
            ConversionPhase::Idle,
            BusAction::Finish(Err(Ads1115Error::TransportError)),
        ),
{
}

/// On a handle without gain a conversion ends with `NotConfigured` before any
/// bus action is handed out, and so does the decoding of a read.
pub proof fn lemma_gain_is_required(channel: Ads1115Channel, reply: BusReply)
    ensures
        conversion_step(None, channel, ConversionPhase::Idle, reply) == (
            ConversionPhase::Idle,
            BusAction::Finish(Err(Ads1115Error::NotConfigured)),
        ),
        read_outcome(None, reply) == Err::<i32, Ads1115Error>(Ads1115Error::NotConfigured),
{
}

/// A conversion ends with a voltage in one way only: a block came back from
/// the read of the conversion register on a handle with a gain. The voltage
/// then is that of the block, and has the sign of its sample or is zero.
pub proof fn lemma_voltage_comes_from_block(
    gain: Option<Ads1115PgaConfig>,
    channel: Ads1115Channel,
    phase: ConversionPhase,
    reply: BusReply,
)
    requires
        conversion_step(gain, channel, phase, reply).1 is Finish,
        conversion_step(gain, channel, phase, reply).1->Finish_0 is Ok,
    ensures
        phase is Reading,
        gain is Some,
        reply is Block,
        conversion_step(gain, channel, phase, reply).1->Finish_0->Ok_0 == millivolts(
            reply->Block_0,
            gain->0,
        ),
        signed_sample(reply->Block_0.raw()) >= 0 ==> conversion_step(
            gain,
            channel,
            phase,
            reply,
        ).1->Finish_0->Ok_0 >= 0,
        signed_sample(reply->Block_0.raw()) <= 0 ==> conversion_step(
            gain,
            channel,
            phase,
            reply,
        ).1->Finish_0->Ok_0 <= 0,
{
    lemma_millivolts_within_range(reply->Block_0, gain->0);
    lemma_reading_keeps_sign(reply->Block_0, gain->0);
}

/// A conversion started from `Idle` is over after at most four steps, whatever
/// the bus replies.
pub proof fn lemma_conversion_finishes(
    gain: Option<Ads1115PgaConfig>,
    channel: Ads1115Channel,
    first: BusReply,
    second: BusReply,
    third: BusReply,
    fourth: BusReply,
)
    ensures
        ({
            let one = conversion_step(gain, channel, ConversionPhase::Idle, first);
            let two = conversion_step(gain, channel, one.0, second);
            let three = conversion_step(gain, channel, two.0, third);
            let four = conversion_step(gain, channel, three.0, fourth);
            one.1 is Finish || two.1 is Finish || three.1 is Finish || four.1 is Finish
        }),
{
}

} // verus!
