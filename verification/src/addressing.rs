//! Channel addressing: from logical channel numbers to the controller's
//! register addresses and to the selector byte of an analog input.

use vstd::prelude::*;

verus! {

/// Number of PWM outputs.
pub const NUMBER_OF_PWM_CHANNELS: usize = 14;

/// Number of analog inputs.
pub const NUMBER_OF_ADC_CHANNELS: u8 = 8;

/// Number of timers behind the PWM outputs. Each drives four outputs, the
/// last one only two.
pub const NUMBER_OF_TIMERS: u8 = 4;

/// Register of the duty cycle of PWM channel 0; the other channels follow.
pub const BASE_DUTY_REG: u8 = 0x20;

/// Register of the prescaler of timer 0; the other timers follow.
pub const BASE_PSC_REG: u8 = 0x40;

/// Register of the period of timer 0; the other timers follow.
pub const BASE_ARR_REG: u8 = 0x44;

/// Bit by which the controller recognises a channel-select command.
pub const ADC_SELECT_FLAG: u8 = 0x10;

/// Address of the duty register of PWM channel `channel`.
pub open spec fn duty_register_of(channel: u8) -> int {
    BASE_DUTY_REG + channel
}

/// Address of the prescaler register of timer `timer_id`.
pub open spec fn prescaler_register_of(timer_id: u8) -> int {
    BASE_PSC_REG + timer_id
}

/// Address of the period register of timer `timer_id`.
pub open spec fn period_register_of(timer_id: u8) -> int {
    BASE_ARR_REG + timer_id
}

/// Selector byte of analog input `channel`: the inputs are numbered in
/// reverse on the wire, and the select flag is set.
pub open spec fn adc_selector_of(channel: u8) -> u8
    recommends
        channel < NUMBER_OF_ADC_CHANNELS,
{
    ((7 - channel) as u8) | ADC_SELECT_FLAG
}

/// The selector bytes of the eight inputs are 0x17 down to 0x10: the select
/// flag is set in each, and the bits below it hold the input's number counted
/// from the far end.
pub proof fn lemma_adc_selector(channel: u8)
    requires
        channel < NUMBER_OF_ADC_CHANNELS,
    ensures
        adc_selector_of(channel) == 0x17 - channel,
        adc_selector_of(channel) & ADC_SELECT_FLAG == ADC_SELECT_FLAG,
        adc_selector_of(channel) & 0x0f == 7 - channel,
{
    let reversed: u8 = (7 - channel) as u8;
    assert(reversed | 0x10 == 0x10 + reversed && (reversed | 0x10) & 0x10 == 0x10 && (reversed
        | 0x10) & 0x0f == reversed) by (bit_vector)
        requires
            reversed <= 7,
    ;
}

/// Computes the address of the duty register of PWM channel `channel`.
pub fn duty_register(channel: u8) -> (register: u8)
    requires
        channel < NUMBER_OF_PWM_CHANNELS,
    ensures
        register == duty_register_of(channel),
{
    BASE_DUTY_REG + channel
}

/// Computes the address of the prescaler register of timer `timer_id`.
pub fn prescaler_register(timer_id: u8) -> (register: u8)
    requires
        timer_id < NUMBER_OF_TIMERS,
    ensures
        register == prescaler_register_of(timer_id),
{
    BASE_PSC_REG + timer_id
}

/// Computes the address of the period register of timer `timer_id`.
pub fn period_register(timer_id: u8) -> (register: u8)
    requires
        timer_id < NUMBER_OF_TIMERS,
    ensures
        register == period_register_of(timer_id),
{
    BASE_ARR_REG + timer_id
}

/// Computes the selector byte of analog input `channel`.
pub fn adc_selector(channel: u8) -> (selector: u8)
    requires
        channel < NUMBER_OF_ADC_CHANNELS,
    ensures
        selector == adc_selector_of(channel),
        selector == 0x17 - channel,
{
    proof {
        lemma_adc_selector(channel);
    }
    (7 - channel) | ADC_SELECT_FLAG
}

} // verus!
