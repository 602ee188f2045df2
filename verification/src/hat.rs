//! The driver itself: the cache of duty cycles, and the operations of the
//! HAT as bus transactions to carry out.

use vstd::prelude::*;
use crate::adc::{select_command, Selecting};
use crate::addressing::{
    period_register, prescaler_register, NUMBER_OF_ADC_CHANNELS, NUMBER_OF_PWM_CHANNELS,
    NUMBER_OF_TIMERS,
};
use crate::pwm::{
    cache_after_write, cached_duty, duty_write_of, initial_cache, timer_setup, valid_cache,
    MAX_DUTY, PERIOD_TICKS, PRESCALER,
};
use crate::wire::{encode_word, lemma_word_bytes, BlockWrite};

verus! {

/// The driver of one HAT. It holds, for each PWM channel, the duty cycle that
/// was last written to the controller with success.
pub struct Sunfounder4wdHat {
    current_pwm_duty_cycles: [u8; NUMBER_OF_PWM_CHANNELS],
}

impl View for Sunfounder4wdHat {
    type V = Seq<u8>;

    /// The cached duty cycle of each PWM channel, in percent.
    closed spec fn view(&self) -> Seq<u8> {
        self.current_pwm_duty_cycles@
    }
}

impl Sunfounder4wdHat {
    #[verifier::type_invariant]
    spec fn cache_is_valid(self) -> bool {
        valid_cache(self.current_pwm_duty_cycles@)
    }

    /// Makes the driver, every channel at 0, together with the writes that
    /// configure the controller's timers. The caller issues these writes
    /// once, in order, and goes on whether or not they succeed.
    pub fn new() -> (made: (Sunfounder4wdHat, Vec<BlockWrite>))
        ensures
            made.0@ == initial_cache(),
            valid_cache(made.0@),
            made.1@ == timer_setup(),
    {
        let mut driver = Sunfounder4wdHat { current_pwm_duty_cycles: [0u8; NUMBER_OF_PWM_CHANNELS] };
        let setup = driver.setup_pwm();
        (driver, setup)
    }

    /// The writes that give every timer its prescaler and its period.
    fn setup_pwm(&mut self) -> (setup: Vec<BlockWrite>)
        ensures
            final(self)@ == old(self)@,
            setup@ == timer_setup(),
    {
        let prescaler = encode_word(PRESCALER);
        let period = encode_word(PERIOD_TICKS);
        proof {
            lemma_word_bytes(PRESCALER);
            lemma_word_bytes(PERIOD_TICKS);
        }
        let mut setup: Vec<BlockWrite> = Vec::new();
        for timer_id in 0..NUMBER_OF_TIMERS
            invariant
                prescaler == [0x00u8, 0x09u8],
                period == [0x03u8, 0xE7u8],
                setup@.len() == 2 * timer_id,
                forall|i: int| 0 <= i < setup@.len() ==> setup@[i] == timer_setup()[i],
        {
            setup.push(BlockWrite { register: prescaler_register(timer_id), bytes: prescaler });
            setup.push(BlockWrite { register: period_register(timer_id), bytes: period });
        }
        setup
    }

    /// Starts a conversion on analog input `channel`. The select command of
    /// the conversion returned is the first thing to go over the bus.
    pub fn read(&mut self, channel: u8) -> (select: Selecting)
        requires
            channel < NUMBER_OF_ADC_CHANNELS,
        ensures
            select@ == select_command(channel),
            final(self)@ == old(self)@,
    {
        Selecting::start(channel)
    }

    /// Does nothing: a channel is driven as soon as its duty is not 0.
    pub fn disable(&mut self, _channel: u8)
        ensures
            final(self)@ == old(self)@,
    {
    }

    /// Does nothing: a channel is driven as soon as its duty is not 0.
    pub fn enable(&mut self, _channel: u8)
        ensures
            final(self)@ == old(self)@,
    {
    }

    /// The duty cycle of `channel` in percent, as last written with success;
    /// 0 for a channel that does not exist. The controller is not asked.
    pub fn get_duty(&self, channel: u8) -> (duty: u8)
        ensures
            duty == cached_duty(self@, channel),
            duty <= MAX_DUTY,
    {
        proof {
            use_type_invariant(self);
        }
        let channel: usize = channel as usize;
        if channel < NUMBER_OF_PWM_CHANNELS {
            self.current_pwm_duty_cycles[channel]
        } else {
            0
        }
    }

    /// The largest duty cycle that can be set, in percent.
    pub fn get_max_duty(&self) -> (duty: u8)
        ensures
            duty == MAX_DUTY,
    {
        MAX_DUTY
    }

    /// Takes the outcome of the write that [`duty_write`] gives for `channel`
    /// and `duty`. If the write went through, `duty` becomes the cached duty
    /// of `channel`. If it failed, the error is dropped and the cache stays
    /// as it is; so it does where there was no write to issue.
    ///
    /// [`duty_write`]: crate::pwm::duty_write
    pub fn set_duty<E>(&mut self, channel: u8, duty: u8, written: Result<(), E>)
        ensures
            final(self)@ == cache_after_write(old(self)@, channel, duty, written is Ok),
            valid_cache(final(self)@),
    {
        proof {
            use_type_invariant(&*self);
        }
        if (channel as usize) < NUMBER_OF_PWM_CHANNELS && duty <= MAX_DUTY {
            if let Ok(_) = written {
                self.current_pwm_duty_cycles[channel as usize] = duty;
            }
        }
    }

    /// Does nothing: the period is fixed.
    pub fn set_period<P>(&mut self, _period: P)
        ensures
            final(self)@ == old(self)@,
    {
    }
}

/// Before any write, every channel reads 0.
pub proof fn lemma_fresh_driver_reads_zero(channel: u8)
    ensures
        valid_cache(initial_cache()),
        cached_duty(initial_cache(), channel) == 0,
{
}

/// After a duty between 0 and the maximum was written with success to one of
/// the fourteen channels, that channel reads this duty.
pub proof fn lemma_written_duty_is_read_back(hat: Sunfounder4wdHat, channel: u8, duty: u8)
    requires
        valid_cache(hat@),
        channel < NUMBER_OF_PWM_CHANNELS,
        duty <= MAX_DUTY,
    ensures
        cached_duty(cache_after_write(hat@, channel, duty, true), channel) == duty,
{
}

/// Setting the duty of one channel changes what no other channel reads, and
/// leaves the cache valid, whatever is asked for and however the write ends.
pub proof fn lemma_write_keeps_other_channels(
    hat: Sunfounder4wdHat,
    channel: u8,
    duty: u8,
    written: bool,
    other: u8,
)
    requires
        valid_cache(hat@),
        other != channel,
    ensures
        cached_duty(cache_after_write(hat@, channel, duty, written), other) == cached_duty(
            hat@,
            other,
        ),
        valid_cache(cache_after_write(hat@, channel, duty, written)),
{
}

/// A channel that does not exist always reads 0, there is no write to issue
/// for it, and an attempt to set its duty leaves the cache as it is, whatever
/// the outcome handed in.
pub proof fn lemma_missing_channel_is_inert(
    hat: Sunfounder4wdHat,
    channel: u8,
    duty: u8,
    written: bool,
)
    requires
        valid_cache(hat@),
        channel >= NUMBER_OF_PWM_CHANNELS,
    ensures
        cached_duty(hat@, channel) == 0,
        duty_write_of(channel, duty) is None,
        cache_after_write(hat@, channel, duty, written) == hat@,
{
}

/// After a duty write that failed, every channel reads what it read before.
pub proof fn lemma_failed_write_keeps_duties(
    hat: Sunfounder4wdHat,
    channel: u8,
    duty: u8,
    probe: u8,
)
    requires
        valid_cache(hat@),
    ensures
        cache_after_write(hat@, channel, duty, false) == hat@,
        cached_duty(cache_after_write(hat@, channel, duty, false), probe) == cached_duty(
            hat@,
            probe,
        ),
{
}

} // verus!
