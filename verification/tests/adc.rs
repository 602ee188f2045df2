use sunfounder_4wd::adc::{Sampling, Selecting};
use sunfounder_4wd::{AnalogPin, Sunfounder4wdHat, A0, A1, A2, A3, A4, A5, A6, A7};

#[derive(Debug, Clone, Copy, PartialEq, Eq)]
enum BusError {
    Select,
    High,
    Low,
}

fn selecting(channel: u8) -> Selecting {
    let (mut hat, _setup) = Sunfounder4wdHat::new();
    hat.read(channel)
}

fn sampling(channel: u8) -> Sampling {
    match selecting(channel).selected::<BusError>(Ok(())) {
        Ok(sampling) => sampling,
        Err(_) => panic!("the select command went through"),
    }
}

#[test]
fn analog_pins_name_their_channels() {
    assert_eq!(A0::channel(), 0);
    assert_eq!(A1::channel(), 1);
    assert_eq!(A2::channel(), 2);
    assert_eq!(A3::channel(), 3);
    assert_eq!(A4::channel(), 4);
    assert_eq!(A5::channel(), 5);
    assert_eq!(A6::channel(), 6);
    assert_eq!(A7::channel(), 7);
    assert_eq!(AnalogPin::<5>::channel(), 5);
}

#[test]
fn analog_pins_are_values_without_content() {
    let _pin = A0 {};
    assert_eq!(std::mem::size_of::<A0>(), 0);
    assert_eq!(std::mem::size_of::<AnalogPin<7>>(), 0);
}

#[test]
fn select_command_is_selector_and_two_zero_bytes() {
    assert_eq!(selecting(0).command(), [0x17, 0x00, 0x00]);
    assert_eq!(selecting(1).command(), [0x16, 0x00, 0x00]);
    assert_eq!(selecting(2).command(), [0x15, 0x00, 0x00]);
    assert_eq!(selecting(3).command(), [0x14, 0x00, 0x00]);
    assert_eq!(selecting(4).command(), [0x13, 0x00, 0x00]);
    assert_eq!(selecting(5).command(), [0x12, 0x00, 0x00]);
    assert_eq!(selecting(6).command(), [0x11, 0x00, 0x00]);
    assert_eq!(selecting(7).command(), [0x10, 0x00, 0x00]);
}

#[test]
fn select_command_of_a_pin() {
    assert_eq!(selecting(A0::channel()).command(), [(7 - 0) | 0x10, 0, 0]);
    assert_eq!(selecting(A7::channel()).command(), [(7 - 7) | 0x10, 0, 0]);
}

#[test]
fn failed_select_ends_the_conversion_with_its_error() {
    for channel in 0..8u8 {
        match selecting(channel).selected(Err(BusError::Select)) {
            Ok(_) => panic!("no sample is read after a failed select"),
            Err(error) => assert_eq!(error, BusError::Select),
        }
    }
}

#[test]
fn select_that_went_through_leads_to_the_reads() {
    for channel in 0..8u8 {
        assert!(selecting(channel).selected::<BusError>(Ok(())).is_ok());
    }
}

#[test]
fn sample_is_high_byte_then_low_byte() {
    assert_eq!(sampling(0).sampled::<BusError>(Ok(0x12), Ok(0x34)), Ok(0x1234));
    assert_eq!(sampling(0).sampled::<BusError>(Ok(0x34), Ok(0x12)), Ok(0x3412));
    assert_eq!(sampling(5).sampled::<BusError>(Ok(0x00), Ok(0x00)), Ok(0x0000));
    assert_eq!(sampling(5).sampled::<BusError>(Ok(0x00), Ok(0xFF)), Ok(0x00FF));
    assert_eq!(sampling(5).sampled::<BusError>(Ok(0xFF), Ok(0x00)), Ok(0xFF00));
    assert_eq!(sampling(7).sampled::<BusError>(Ok(0xFF), Ok(0xFF)), Ok(0xFFFF));
}

#[test]
fn failed_high_read_gives_its_error() {
    assert_eq!(sampling(3).sampled(Err(BusError::High), Ok(0x34)), Err(BusError::High));
}

#[test]
fn failed_low_read_drops_the_high_byte() {
    assert_eq!(sampling(3).sampled(Ok(0x12), Err(BusError::Low)), Err(BusError::Low));
}

#[test]
fn two_failed_reads_give_the_error_of_the_first() {
    assert_eq!(
        sampling(3).sampled(Err(BusError::High), Err(BusError::Low)),
        Err(BusError::High)
    );
}

#[test]
fn starting_a_conversion_leaves_the_duties() {
    let (mut hat, _setup) = Sunfounder4wdHat::new();
    hat.set_duty::<BusError>(8, 42, Ok(()));
    let _select = hat.read(2);
    assert_eq!(hat.get_duty(8), 42);
    assert_eq!(hat.get_duty(2), 0);
}
