//! The LC-3's ADC pins over generic one-shot converters.
//!
//! Pins `A0` to `A3` are read through four converters, one each; pins `A4`
//! and `A5` have none. A read reports the converter's sample cut to its low
//! byte, and 8 where there is no converter or the conversion failed.
use vstd::prelude::*;
use crate::lc3_peripherals::{adc_index, AdcPin, AdcReadError};

verus! {

/// A converter's result.
pub struct generic_adc_res(pub u32);

impl From<u32> for generic_adc_res {
    fn from(x: u32) -> (r: generic_adc_res) {
        generic_adc_res(x)
    }
}

impl vstd::std_specs::convert::FromSpecImpl<u32> for generic_adc_res {
    open spec fn obeys_from_spec() -> bool {
        true
    }

    open spec fn from_spec(x: u32) -> generic_adc_res {
        generic_adc_res(x)
    }
}

impl From<generic_adc_res> for u32 {
    fn from(res: generic_adc_res) -> (r: u32) {
        let generic_adc_res(x) = res;
        x
    }
}

impl vstd::std_specs::convert::FromSpecImpl<generic_adc_res> for u32 {
    open spec fn obeys_from_spec() -> bool {
        true
    }

    open spec fn from_spec(res: generic_adc_res) -> u32 {
        res.0
    }
}

impl From<generic_adc_res> for u8 {
    fn from(res: generic_adc_res) -> (r: u8) {
        let generic_adc_res(x) = res;
        x as u8
    }
}

impl vstd::std_specs::convert::FromSpecImpl<generic_adc_res> for u8 {
    open spec fn obeys_from_spec() -> bool {
        true
    }

    open spec fn from_spec(res: generic_adc_res) -> u8 {
        res.0 as u8
    }
}

/// An ADC input.
pub struct adc_input;

/// The reading reported when there is no sample.
pub const NO_SAMPLE: u8 = 8;

/// The converter that serves `pin`, if any.
pub fn converter_for(pin: AdcPin) -> (r: Option<usize>)
    ensures
        adc_index(pin) < 4 ==> r == Some(adc_index(pin) as usize),
        adc_index(pin) >= 4 ==> r is None,
{
    match pin {
        AdcPin::A0 => Some(0),
        AdcPin::A1 => Some(1),
        AdcPin::A2 => Some(2),
        AdcPin::A3 => Some(3),
        _ => None,
    }
}

/// What a read of `pin` reports, given the low byte of the sample its
/// converter returned, or `None` where the conversion failed. Never fails.
pub fn read_result(pin: AdcPin, sample: Option<u8>) -> (r: Result<u8, AdcReadError>)
    ensures
        r == Ok::<u8, AdcReadError>(
            if adc_index(pin) < 4 && sample is Some {
                sample->0
            } else {
                NO_SAMPLE
            },
        ),
{
    match converter_for(pin) {
        Some(_) => match sample {
            Some(out) => Ok(out),
            None => Ok(NO_SAMPLE),
        },
        None => Ok(NO_SAMPLE),
    }
}

} // verus!
