//! Register-level driver core for the SunFounder 4WD HAT: fourteen PWM
//! outputs and eight analog inputs behind one controller on the I2C bus.
//!
//! The crate performs no bus access itself. Every operation names the bus
//! transaction that it needs, byte for byte, and takes that transaction's
//! outcome back as an argument. The caller owns the bus and carries the
//! transactions out, one at a time.
//!
//! ```text
//! let (mut hat, setup) = Sunfounder4wdHat::new();
//! for write in setup {
//!     let _ = bus.block_write(write.register, &write.bytes);
//! }
//!
//! if let Some(write) = duty_write(channel, duty) {
//!     let written = bus.block_write(write.register, &write.bytes);
//!     hat.set_duty(channel, duty, written);
//! }
//!
//! let select = hat.read(A0::channel());
//! let sample = match select.selected(bus.write(&select.command())) {
//!     Err(error) => Err(error),
//!     Ok(sampling) => {
//!         let high = bus.read_byte();
//!         let low = bus.read_byte();
//!         sampling.sampled(high, low)
//!     }
//! };
//! ```

pub mod adc;
pub mod addressing;
pub mod hat;
pub mod pwm;
pub mod wire;

pub use crate::adc::{AnalogPin, A0, A1, A2, A3, A4, A5, A6, A7};
pub use crate::hat::Sunfounder4wdHat;
