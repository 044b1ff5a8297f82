//! Sensor driver and calibration library for a small weather / air-quality
//! station: a Bosch-class barometer, an HTS221-class humidity sensor, a
//! 16-bit multi-range ADC with derived gas-ratio and photoresistor readings,
//! an RGBC light sensor, and an 8x8 LED matrix frame buffer.
//!
//! Every driver talks to its chip through the [`bus::Bus`] trait, so the
//! protocol logic and the fixed-point compensation formulas are verified
//! independently of the real transport. All physical values are carried as
//! scaled integers (tenths of a degree, pascals, milli-%RH, picovolts,
//! micro-ratios); conversion to floating point is left to callers.

pub mod adc;
pub mod bus;
pub mod calib;
pub mod color;
pub mod errors;
pub mod glcdfont;
pub mod airq;
pub mod humidity;
pub mod light;
pub mod matrix;
pub mod monitor;
pub mod numeric;
pub mod press_temp;
pub mod telegram;
