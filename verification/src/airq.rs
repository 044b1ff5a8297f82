//! Gas-ratio sensor: a stateless formula over an ADC channel's calibrated
//! voltage and the circuit's reference voltage.
//!
//! The ratio `(Vref/Vout - Vout/Vref) / K`, with `K = 10`, is carried in
//! micro-units: both quotients are scaled by one million before the outer
//! division, and every division is a floor. A zero or negative voltage
//! never divides: it reports `ConfigurationInvalid` instead.

use crate::adc::{AdcCh, AdcErr};
use crate::errors::SensorError;
use crate::numeric::{div_floor_i128, lemma_div_floor_bounds, lemma_mul_bounds};
use vstd::arithmetic::div_mod::{lemma_div_multiples_vanish, lemma_div_of0};
use vstd::prelude::*;

verus! {

/// The divisor `K` of the gas-ratio formula.
pub const GAS_RATIO_K: i64 = 10;

/// The gas ratio in micro-units:
/// `((vref * 10^6) / vout - (vout * 10^6) / vref) / 10`, every division a
/// floor.
pub open spec fn spec_gas_ratio(vref: int, vout: int) -> int {
    ((vref * 1_000_000) / vout - (vout * 1_000_000) / vref) / 10
}

/// The formula is defined for positive voltages whose ratio fits an `i64`.
pub open spec fn spec_gas_ratio_defined(vref: int, vout: int) -> bool {
    &&& vref > 0
    &&& vout > 0
    &&& i64::MIN <= spec_gas_ratio(vref, vout) <= i64::MAX
}

/// The gas ratio in micro-units for a reference and an output voltage in
/// picovolts.
///
/// Returns `ConfigurationInvalid` exactly when a voltage is zero or
/// negative — the documented divide-by-zero guard — or when the ratio does
/// not fit an `i64`.
pub fn gas_ratio_micro(vref_pv: i64, vout_pv: i64) -> (r: Result<i64, SensorError>)
    ensures
        spec_gas_ratio_defined(vref_pv as int, vout_pv as int) ==> r == Ok::<i64, SensorError>(
            spec_gas_ratio(vref_pv as int, vout_pv as int) as i64,
        ),
        !spec_gas_ratio_defined(vref_pv as int, vout_pv as int) ==> r == Err::<i64, SensorError>(
            SensorError::ConfigurationInvalid,
        ),
{
    if vref_pv <= 0 || vout_pv <= 0 {
        return Err(SensorError::ConfigurationInvalid);
    }
    proof {
        lemma_mul_bounds(vref_pv as int, 0x8000_0000_0000_0000, 1_000_000, 1_000_000);
        lemma_mul_bounds(vout_pv as int, 0x8000_0000_0000_0000, 1_000_000, 1_000_000);
    }
    let na: i128 = (vref_pv as i128) * 1_000_000;
    let nb: i128 = (vout_pv as i128) * 1_000_000;
    let a: i128 = div_floor_i128(na, vout_pv as i128);
    let b: i128 = div_floor_i128(nb, vref_pv as i128);
    proof {
        lemma_div_floor_bounds(na as int, vout_pv as int);
        lemma_div_floor_bounds(nb as int, vref_pv as int);
    }
    let q: i128 = div_floor_i128(a - b, 10);
    proof {
        lemma_div_floor_bounds((a - b) as int, 10);
    }
    if q < (i64::MIN as i128) || q > (i64::MAX as i128) {
        return Err(SensorError::ConfigurationInvalid);
    }
    Ok(q as i64)
}

/// At the reference voltage itself the gas ratio is exactly zero.
pub proof fn lemma_gas_ratio_zero_at_ref(v: int)
    requires
        v > 0,
    ensures
        spec_gas_ratio(v, v) == 0,
{
    lemma_div_multiples_vanish(1_000_000, v);
    lemma_div_of0(10);
}

/// The gas-ratio sensor: an owned ADC channel and nothing else — the
/// formula keeps no bus state of its own.
pub struct AirQuality<T: AdcCh> {
    /// The calibrated channel the output voltage is read from.
    pub adc: T,
}

impl<T: AdcCh> AirQuality<T> {
    /// Wraps a calibrated ADC channel.
    pub fn new(adc: T) -> (r: AirQuality<T>)
        ensures
            r.adc == adc,
    {
        AirQuality { adc }
    }

    /// One gas-ratio measurement in micro-units: reads the output voltage
    /// and applies the exact formula of [`gas_ratio_micro`] to it and the
    /// channel's reference voltage.
    pub fn get_ratio_rs_r(&mut self) -> (r: Result<i64, AdcErr>)
        ensures
            r matches Ok(g) ==> exists|vref: int, vout: int|
                #[trigger] spec_gas_ratio_defined(vref, vout) && g == spec_gas_ratio(vref, vout),
    {
        let v_out = match self.adc.get_voltage() {
            Ok(v) => v,
            Err(e) => {
                return Err(e);
            },
        };
        let v_ref = self.adc.get_ref_voltage();
        match gas_ratio_micro(v_ref, v_out) {
            Ok(g) => {
                proof {
                    assert(spec_gas_ratio_defined(v_ref as int, v_out as int));
                }
                Ok(g)
            },
            Err(_) => Err(AdcErr::new("gas ratio undefined for this voltage")),
        }
    }
}

} // verus!
