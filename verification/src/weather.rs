//! The canonical observation record and the precipitation enumeration.
use vstd::prelude::*;

verus! {

use crate::numeric::{f64_bits_to_u64, f64_to_int_sat};

/// The bit pattern of a single-width IEEE 754 value. The record keeps its
/// floating point fields this way; presentation layers reconstruct the
/// number from the bits.
#[derive(Clone, Copy, Debug, PartialEq, Eq, Structural)]
pub struct F32Bits {
    pub bits: u32,
}

/// Kind of precipitation a report carries, backed by the integer domain
/// 0 to 3 on the wire.
#[derive(Clone, Copy, Debug, PartialEq, Eq, Structural)]
pub enum PrecipitationType {
    NoPrecipitation,
    Rain,
    Hail,
    RainAndHail,
}

/// The variant a numeric code selects: 1, 2 and 3 name a kind of
/// precipitation, everything else means none.
pub open spec fn precip_of_code(code: u64) -> PrecipitationType {
    if code == 1 {
        PrecipitationType::Rain
    } else if code == 2 {
        PrecipitationType::Hail
    } else if code == 3 {
        PrecipitationType::RainAndHail
    } else {
        PrecipitationType::NoPrecipitation
    }
}

/// Lenient coercion from a raw wire number: narrow to an unsigned integer
/// by the stated rule, then select the variant; out-of-domain codes mean
/// no precipitation rather than an error.
pub open spec fn precip_from_bits(b: u64) -> PrecipitationType {
    precip_of_code(f64_to_int_sat(b, 0, u64::MAX as int) as u64)
}

/// Strict decoding from a structured integer field: out-of-domain codes
/// are rejected rather than coerced.
pub open spec fn precip_strict(code: u8) -> Option<PrecipitationType> {
    if code <= 3 {
        Some(precip_of_code(code as u64))
    } else {
        None
    }
}

/// The integer a variant serializes to.
pub open spec fn precip_code_of(p: PrecipitationType) -> u8 {
    match p {
        PrecipitationType::NoPrecipitation => 0,
        PrecipitationType::Rain => 1,
        PrecipitationType::Hail => 2,
        PrecipitationType::RainAndHail => 3,
    }
}

impl PrecipitationType {
    /// Lenient coercion used for the raw positional array.
    pub fn from_wire(b: u64) -> (r: Self)
        ensures
            r == precip_from_bits(b),
    {
        let code = f64_bits_to_u64(b);
        if code == 1 {
            PrecipitationType::Rain
        } else if code == 2 {
            PrecipitationType::Hail
        } else if code == 3 {
            PrecipitationType::RainAndHail
        } else {
            PrecipitationType::NoPrecipitation
        }
    }

    /// Strict decoding used for a structured field.
    pub fn from_code(code: u8) -> (r: Option<Self>)
        ensures
            r == precip_strict(code),
    {
        if code == 0 {
            Some(PrecipitationType::NoPrecipitation)
        } else if code == 1 {
            Some(PrecipitationType::Rain)
        } else if code == 2 {
            Some(PrecipitationType::Hail)
        } else if code == 3 {
            Some(PrecipitationType::RainAndHail)
        } else {
            None
        }
    }

    /// The integer this value serializes to.
    pub fn to_code(&self) -> (r: u8)
        ensures
            r == precip_code_of(*self),
    {
        match self {
            PrecipitationType::NoPrecipitation => 0,
            PrecipitationType::Rain => 1,
            PrecipitationType::Hail => 2,
            PrecipitationType::RainAndHail => 3,
        }
    }
}

/// Codes 0 to 3 from the raw array select the four variants in order, and
/// every other narrowed wire number also selects no precipitation; the same
/// out-of-domain code handed to the strict decoder is rejected instead.
pub proof fn lemma_precipitation_coercion(b: u64, code: u8)
    ensures
        f64_to_int_sat(b, 0, u64::MAX as int) == 0 ==> precip_from_bits(b)
            == PrecipitationType::NoPrecipitation,
        f64_to_int_sat(b, 0, u64::MAX as int) == 1 ==> precip_from_bits(b)
            == PrecipitationType::Rain,
        f64_to_int_sat(b, 0, u64::MAX as int) == 2 ==> precip_from_bits(b)
            == PrecipitationType::Hail,
        f64_to_int_sat(b, 0, u64::MAX as int) == 3 ==> precip_from_bits(b)
            == PrecipitationType::RainAndHail,
        f64_to_int_sat(b, 0, u64::MAX as int) > 3 ==> precip_from_bits(b)
            == PrecipitationType::NoPrecipitation,
        code > 3 ==> precip_strict(code) is None && precip_of_code(code as u64)
            == PrecipitationType::NoPrecipitation,
        code <= 3 ==> precip_strict(code) == Some(precip_of_code(code as u64)),
{
}

/// Serializing and strictly deserializing the precipitation code is the
/// identity in both directions on the valid domain.
pub proof fn lemma_precipitation_code_roundtrip(p: PrecipitationType, code: u8)
    ensures
        precip_strict(precip_code_of(p)) == Some(p),
        code <= 3 ==> precip_code_of(precip_strict(code).unwrap()) == code,
{
}

/// The canonical record built from one full observation report. Floating
/// point fields hold the single-width bit pattern the wire number narrows
/// to; integer fields hold the wire number narrowed by the stated
/// truncate-and-saturate rule.
#[derive(Clone, Copy, Debug, PartialEq, Eq, Structural)]
pub struct Weather {
    pub time_epoch: i64,
    pub wind_lull: F32Bits,
    pub wind_avg: F32Bits,
    pub wind_gust: F32Bits,
    pub wind_direction: u16,
    pub wind_sample_interval: u16,
    pub station_pressure: F32Bits,
    pub air_temp: F32Bits,
    pub relative_humidity: F32Bits,
    pub illuminance: u32,
    pub uv_index: F32Bits,
    pub solar_radiation: u32,
    pub rain_over_prev_minute: F32Bits,
    pub precip_type: PrecipitationType,
    pub lightning_avg_distance: u32,
    pub lightning_strike_count: u32,
    pub battery_voltage: F32Bits,
    pub report_interval: u16,
}

} // verus!
