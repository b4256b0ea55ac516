//! The GPIO line the sensor hangs on: an abstract pin interface, and an
//! implementation on top of the rppal GPIO driver.
//!
//! The pin is an electrical line, so nothing can be promised about the
//! levels read back from it; the sensor logic states what holds whatever
//! the line does.

use crate::dht::DhtError;
use vstd::prelude::*;

verus! {

/// One GPIO pin, usable both as input and as output. Implemented on the
/// rppal driver by `GpioPinRppal`; callers may supply their own
/// implementation (a platform driver, or a test double).
pub trait GpioPin {
    /// Switches the pin to input mode.
    fn direction_input(&mut self) -> Result<(), DhtError>;

    /// Switches the pin to output mode, driving it to the given initial
    /// level (zero for low, nonzero for high).
    fn direction_output(&mut self, value: i32) -> Result<(), DhtError>;

    /// Drives the pin (zero for low, nonzero for high).
    fn set(&mut self, value: i32);

    /// Drives the pin high.
    fn set_high(&mut self);

    /// Drives the pin low.
    fn set_low(&mut self);

    /// Samples the pin's level: 0 for low, 1 for high.
    fn read(&mut self) -> i32;
}

/// The rppal GPIO peripheral handle, opaque to verification.
#[verifier::external_type_specification]
#[verifier::external_body]
pub struct ExGpio(rppal::gpio::Gpio);

/// An unconfigured rppal pin, opaque to verification.
#[verifier::external_type_specification]
#[verifier::external_body]
pub struct ExPin(rppal::gpio::Pin);

/// A mode-switchable rppal pin, opaque to verification.
#[verifier::external_type_specification]
#[verifier::external_body]
pub struct ExIoPin(rppal::gpio::IoPin);

/// The rppal GPIO error, opaque to verification.
#[verifier::external_type_specification]
#[verifier::external_body]
pub struct ExGpioError(rppal::gpio::Error);

/// Relies on rppal::gpio::Gpio::new: acquires the GPIO peripheral; fails
/// when the platform offers none.
#[verifier::external_body]
fn rppal_gpio_new() -> (r: Result<rppal::gpio::Gpio, rppal::gpio::Error>) {
    rppal::gpio::Gpio::new()
}

/// Relies on rppal::gpio::Gpio::get: claims the pin with the given BCM
/// number; fails when it is unavailable or already in use.
#[verifier::external_body]
fn rppal_gpio_get(g: &rppal::gpio::Gpio, pin: u8) -> (r: Result<
    rppal::gpio::Pin,
    rppal::gpio::Error,
>) {
    g.get(pin)
}

/// Relies on rppal::gpio::Pin::into_io: configures the pin as input and
/// returns the mode-switchable handle. The handle restores the pin's
/// previous mode when it is dropped.
#[verifier::external_body]
fn rppal_pin_into_io_input(p: rppal::gpio::Pin) -> (r: rppal::gpio::IoPin) {
    p.into_io(rppal::gpio::Mode::Input)
}

/// Relies on rppal::gpio::IoPin::set_mode: switches the pin between input
/// and output mode.
#[verifier::external_body]
fn rppal_iopin_set_mode(p: &mut rppal::gpio::IoPin, output: bool) {
    p.set_mode(
        if output {
            rppal::gpio::Mode::Output
        } else {
            rppal::gpio::Mode::Input
        },
    )
}

/// Relies on rppal::gpio::IoPin::write: drives the pin to the given level.
#[verifier::external_body]
fn rppal_iopin_write(p: &mut rppal::gpio::IoPin, high: bool) {
    p.write(
        if high {
            rppal::gpio::Level::High
        } else {
            rppal::gpio::Level::Low
        },
    )
}

/// Relies on rppal::gpio::IoPin::read: samples the pin's electrical level.
#[verifier::external_body]
fn rppal_iopin_read(p: &rppal::gpio::IoPin) -> (r: bool) {
    match p.read() {
        rppal::gpio::Level::High => true,
        rppal::gpio::Level::Low => false,
    }
}

/// A physical GPIO pin driven through the rppal driver.
pub struct GpioPinRppal {
    io: rppal::gpio::IoPin,
}

/// Opens the pin with the given BCM number through the rppal driver and
/// configures it as an input. Any driver failure surfaces as a connection
/// error; so does a pin number no platform has (above 255).
pub fn gpio_pin_new(pin_number: u32) -> (r: Result<GpioPinRppal, DhtError>)
    ensures
        r matches Err(e) ==> e == DhtError::Connection,
        pin_number > 255 ==> r is Err,
{
    if pin_number > 255 {
        return Err(DhtError::Connection);
    }
    let g = match rppal_gpio_new() {
        Ok(g) => g,
        Err(_) => {
            return Err(DhtError::Connection);
        },
    };
    let p = match rppal_gpio_get(&g, pin_number as u8) {
        Ok(p) => p,
        Err(_) => {
            return Err(DhtError::Connection);
        },
    };
    Ok(GpioPinRppal { io: rppal_pin_into_io_input(p) })
}

impl GpioPin for GpioPinRppal {
    fn direction_input(&mut self) -> Result<(), DhtError> {
        rppal_iopin_set_mode(&mut self.io, false);
        Ok(())
    }

    fn direction_output(&mut self, value: i32) -> Result<(), DhtError> {
        rppal_iopin_set_mode(&mut self.io, true);
        rppal_iopin_write(&mut self.io, value > 0);
        Ok(())
    }

    fn set(&mut self, value: i32) {
        rppal_iopin_write(&mut self.io, value > 0);
    }

    fn set_high(&mut self) {
        rppal_iopin_write(&mut self.io, true);
    }

    fn set_low(&mut self) {
        rppal_iopin_write(&mut self.io, false);
    }

    fn read(&mut self) -> i32 {
        if rppal_iopin_read(&self.io) {
            1
        } else {
            0
        }
    }
}

} // verus!
