//! The ADC subsystem: the identity of an analog input, and a conversion as
//! the bus sees it: one select command, then the two bytes of the sample.

use vstd::prelude::*;
use crate::addressing::{adc_selector, adc_selector_of, NUMBER_OF_ADC_CHANNELS};
use crate::wire::{decode_word, word_of};

verus! {

/// Analog input `N` of the HAT. The HAT has the inputs 0 to 7.
pub struct AnalogPin<const N: u8>;

impl<const N: u8> AnalogPin<N> {
    /// The number of this input.
    pub fn channel() -> (id: u8)
        requires
            N < NUMBER_OF_ADC_CHANNELS,
        ensures
            id == N,
    {
        N
    }
}

/// Analog input 0.
pub type A0 = AnalogPin<0>;

/// Analog input 1.
pub type A1 = AnalogPin<1>;

/// Analog input 2.
pub type A2 = AnalogPin<2>;

/// Analog input 3.
pub type A3 = AnalogPin<3>;

/// Analog input 4.
pub type A4 = AnalogPin<4>;

/// Analog input 5.
pub type A5 = AnalogPin<5>;

/// Analog input 6.
pub type A6 = AnalogPin<6>;

/// Analog input 7.
pub type A7 = AnalogPin<7>;

/// The command that selects analog input `channel`: its selector byte and
/// the two bytes of padding that the controller expects with it.
pub open spec fn select_command(channel: u8) -> Seq<u8> {
    seq![adc_selector_of(channel), 0u8, 0u8]
}

/// What a conversion yields once its input is selected, from the outcomes of
/// the two reads: the sample, high byte first, or the error of the first read
/// that failed.
pub open spec fn sample_of<E>(high: Result<u8, E>, low: Result<u8, E>) -> Result<u16, E> {
    match (high, low) {
        (Ok(high), Ok(low)) => Ok(word_of(high, low)),
        (Err(error), _) => Err(error),
        (_, Err(error)) => Err(error),
    }
}

/// A conversion whose select command is due: the command is to be written to
/// the bus in one transaction, and the outcome handed to
/// [`Selecting::selected`].
pub struct Selecting {
    command: [u8; 3],
}

impl View for Selecting {
    type V = Seq<u8>;

    /// The bytes of the select command.
    closed spec fn view(&self) -> Seq<u8> {
        self.command@
    }
}

/// A conversion whose input is selected: the sample is to be read from the
/// bus in two transactions of one byte each, and both outcomes handed to
/// [`Sampling::sampled`], whether or not the first read failed.
pub struct Sampling(());

impl Selecting {
    /// Starts a conversion on analog input `channel`.
    pub(crate) fn start(channel: u8) -> (select: Selecting)
        requires
            channel < NUMBER_OF_ADC_CHANNELS,
        ensures
            select@ == select_command(channel),
    {
        Selecting { command: [adc_selector(channel), 0, 0] }
    }

    /// The bytes to write to the bus.
    pub fn command(&self) -> (bytes: [u8; 3])
        ensures
            bytes@ == self@,
    {
        self.command
    }

    /// Takes the outcome of writing the command. The conversion goes on to
    /// the reads only if the write went through; if it failed, the conversion
    /// is over with that error, and nothing is read.
    pub fn selected<E>(self, outcome: Result<(), E>) -> (next: Result<Sampling, E>)
        ensures
            outcome is Ok ==> next is Ok,
            outcome is Err ==> next is Err && next->Err_0 == outcome->Err_0,
    {
        match outcome {
            Ok(_) => Ok(Sampling(())),
            Err(error) => Err(error),
        }
    }
}

impl Sampling {
    /// Takes the outcomes of the two reads, `high` being that of the first,
    /// and ends the conversion: with the sample if both bytes came, else with
    /// the error of the first read that failed. A byte that came is dropped
    /// if the other did not.
    pub fn sampled<E>(self, high: Result<u8, E>, low: Result<u8, E>) -> (sample: Result<u16, E>)
        ensures
            sample == sample_of(high, low),
    {
        match (high, low) {
            (Ok(high), Ok(low)) => Ok(decode_word(high, low)),
            (Err(error), _) => Err(error),
            (_, Err(error)) => Err(error),
        }
    }
}

} // verus!
