//! The PWM subsystem: the fixed timer configuration, the encoding of a duty
//! cycle, and the model of the cache of duty cycles.

use vstd::prelude::*;
use crate::addressing::{
    duty_register, duty_register_of, period_register_of, prescaler_register_of,
    NUMBER_OF_PWM_CHANNELS, NUMBER_OF_TIMERS,
};
use crate::wire::{encode_word, lemma_word_bytes, word_bytes, BlockWrite};

verus! {

/// Value of every timer's prescaler register: the input clock is divided by
/// one more than this.
pub const PRESCALER: u16 = 10 - 1;

/// Value of every timer's period register: a period lasts one tick more than
/// this.
pub const PERIOD_TICKS: u16 = 1000 - 1;

/// The largest duty cycle, in percent.
pub const MAX_DUTY: u8 = 100;

/// Timer ticks that one percent of duty cycle lasts.
pub const TICKS_PER_PERCENT: u16 = 10;

/// The write that sets the prescaler of timer `timer_id`.
pub open spec fn prescaler_write(timer_id: u8) -> BlockWrite {
    BlockWrite { register: prescaler_register_of(timer_id) as u8, bytes: [0x00u8, 0x09u8] }
}

/// The write that sets the period of timer `timer_id`.
pub open spec fn period_write(timer_id: u8) -> BlockWrite {
    BlockWrite { register: period_register_of(timer_id) as u8, bytes: [0x03u8, 0xE7u8] }
}

/// The writes that configure the timers, in the order in which they are
/// issued: for each timer in turn its prescaler, then its period.
pub open spec fn timer_setup() -> Seq<BlockWrite> {
    Seq::new(
        2 * NUMBER_OF_TIMERS as nat,
        |i: int|
            if i % 2 == 0 {
                prescaler_write((i / 2) as u8)
            } else {
                period_write((i / 2) as u8)
            },
    )
}

/// The setup is eight writes. Each timer in turn gets the prescaler in its
/// prescaler register and then the period in its period register, each as
/// two bytes with the high byte first: 0x00 0x09 and 0x03 0xE7.
pub proof fn lemma_timer_setup_per_timer(timer_id: u8)
    requires
        timer_id < NUMBER_OF_TIMERS,
    ensures
        timer_setup().len() == 8,
        timer_setup()[2 * timer_id] == (BlockWrite {
            register: (0x40 + timer_id) as u8,
            bytes: word_bytes(PRESCALER),
        }),
        timer_setup()[2 * timer_id + 1] == (BlockWrite {
            register: (0x44 + timer_id) as u8,
            bytes: word_bytes(PERIOD_TICKS),
        }),
        word_bytes(PRESCALER) == [0x00u8, 0x09u8],
        word_bytes(PERIOD_TICKS) == [0x03u8, 0xE7u8],
{
    lemma_word_bytes(PRESCALER);
    lemma_word_bytes(PERIOD_TICKS);
}

/// Whether a duty cycle of `duty` percent can be set on `channel`.
pub open spec fn accepted(channel: u8, duty: u8) -> bool {
    channel < NUMBER_OF_PWM_CHANNELS && duty <= MAX_DUTY
}

/// Timer ticks for which an output is active in each period at `duty`
/// percent.
pub open spec fn duty_ticks(duty: u8) -> int {
    duty * TICKS_PER_PERCENT
}

/// An accepted duty lasts no longer than the period that the setup gives the
/// timers, and the largest duty lasts all of it.
pub proof fn lemma_duty_ticks_fit_the_period(duty: u8)
    requires
        duty <= MAX_DUTY,
    ensures
        0 <= duty_ticks(duty) <= PERIOD_TICKS + 1,
        duty_ticks(0) == 0,
        duty_ticks(MAX_DUTY) == PERIOD_TICKS + 1,
{
}

/// The write that puts `duty` percent on `channel`, where that is accepted.
pub open spec fn duty_write_of(channel: u8, duty: u8) -> Option<BlockWrite> {
    if accepted(channel, duty) {
        Some(
            BlockWrite {
                register: duty_register_of(channel) as u8,
                bytes: word_bytes(duty_ticks(duty) as u16),
            },
        )
    } else {
        None
    }
}

/// Computes the write that puts `duty` percent on `channel`. There is none
/// for a channel that does not exist or a duty above the maximum.
pub fn duty_write(channel: u8, duty: u8) -> (write: Option<BlockWrite>)
    ensures
        write == duty_write_of(channel, duty),
        write is Some <==> accepted(channel, duty),
{
    if (channel as usize) < NUMBER_OF_PWM_CHANNELS && duty <= MAX_DUTY {
        let ticks: u16 = duty as u16 * TICKS_PER_PERCENT;
        Some(BlockWrite { register: duty_register(channel), bytes: encode_word(ticks) })
    } else {
        None
    }
}

/// The cache before any write: every channel at 0.
pub open spec fn initial_cache() -> Seq<u8> {
    Seq::new(NUMBER_OF_PWM_CHANNELS as nat, |channel: int| 0u8)
}

/// A cache holds one duty cycle per channel, none above the maximum.
pub open spec fn valid_cache(cache: Seq<u8>) -> bool {
    &&& cache.len() == NUMBER_OF_PWM_CHANNELS
    &&& forall|channel: int|
        0 <= channel < NUMBER_OF_PWM_CHANNELS ==> #[trigger] cache[channel] <= MAX_DUTY
}

/// The duty cycle that `cache` gives for `channel`: 0 for a channel that does
/// not exist.
pub open spec fn cached_duty(cache: Seq<u8>, channel: u8) -> u8 {
    if channel < NUMBER_OF_PWM_CHANNELS {
        cache[channel as int]
    } else {
        0
    }
}

/// The cache after an attempt to set `duty` on `channel`. It changes only
/// where the duty was accepted and its write went through.
pub open spec fn cache_after_write(cache: Seq<u8>, channel: u8, duty: u8, written: bool) -> Seq<
    u8,
> {
    if written && accepted(channel, duty) {
        cache.update(channel as int, duty)
    } else {
        cache
    }
}

/// One attempt to set a duty cycle: what was asked for, and how the write
/// ended.
pub struct DutyAttempt {
    /// The channel asked for.
    pub channel: u8,
    /// The duty asked for, in percent.
    pub duty: u8,
    /// Whether the write went through on the bus.
    pub written: bool,
}

/// The cache of a driver that has seen `attempts`, the oldest first, since it
/// was made.
pub open spec fn cache_after_attempts(attempts: Seq<DutyAttempt>) -> Seq<u8>
    decreases attempts.len(),
{
    if attempts.len() == 0 {
        initial_cache()
    } else {
        let last = attempts.last();
        cache_after_write(
            cache_after_attempts(attempts.drop_last()),
            last.channel,
            last.duty,
            last.written,
        )
    }
}

/// The duty of the latest of `attempts` on `channel` that was accepted and
/// whose write went through; 0 if there is none.
pub open spec fn last_written_duty(attempts: Seq<DutyAttempt>, channel: u8) -> u8
    decreases attempts.len(),
{
    if attempts.len() == 0 {
        0
    } else {
        let last = attempts.last();
        if last.channel == channel && last.written && accepted(last.channel, last.duty) {
            last.duty
        } else {
            last_written_duty(attempts.drop_last(), channel)
        }
    }
}

/// Whatever was attempted since the driver was made, the cache is valid, and
/// each channel reads the duty that was last written to it with success, or 0
/// if none was. A duty whose write failed is never read back.
pub proof fn lemma_cache_holds_last_written_duty(attempts: Seq<DutyAttempt>, channel: u8)
    ensures
        valid_cache(cache_after_attempts(attempts)),
        cached_duty(cache_after_attempts(attempts), channel) == last_written_duty(
            attempts,
            channel,
        ),
    decreases attempts.len(),
{
    if attempts.len() > 0 {
        lemma_cache_holds_last_written_duty(attempts.drop_last(), channel);
    }
}

} // verus!
