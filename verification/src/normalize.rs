//! Projecting a decoded message onto the canonical record.
//!
//! Exactly one message kind — the full observation report — yields a
//! record; every other kind, the unrecognized variant included, yields none
//! by design. Each of the report's eighteen positional slots is narrowed to
//! its field's type: integer fields by the truncate-and-saturate rule,
//! floating point fields to the single-width pattern fixed at the trusted
//! boundary.
use vstd::prelude::*;

verus! {

use crate::numeric::{f32_bits_of_f64_bits, f64_bits_to_i64, f64_bits_to_u16, f64_bits_to_u32,
    f64_to_int_sat};
use crate::packet::{Packet, PacketData};
use crate::weather::{precip_from_bits, F32Bits, PrecipitationType, Weather};

/// The record an eighteen-slot report denotes, slot by slot.
pub open spec fn weather_of_bits(obs: Seq<u64>) -> Weather {
    Weather {
        time_epoch: f64_to_int_sat(obs[0], i64::MIN as int, i64::MAX as int) as i64,
        wind_lull: F32Bits { bits: f32_bits_of_f64_bits(obs[1]) },
        wind_avg: F32Bits { bits: f32_bits_of_f64_bits(obs[2]) },
        wind_gust: F32Bits { bits: f32_bits_of_f64_bits(obs[3]) },
        wind_direction: f64_to_int_sat(obs[4], 0, u16::MAX as int) as u16,
        wind_sample_interval: f64_to_int_sat(obs[5], 0, u16::MAX as int) as u16,
        station_pressure: F32Bits { bits: f32_bits_of_f64_bits(obs[6]) },
        air_temp: F32Bits { bits: f32_bits_of_f64_bits(obs[7]) },
        relative_humidity: F32Bits { bits: f32_bits_of_f64_bits(obs[8]) },
        illuminance: f64_to_int_sat(obs[9], 0, u32::MAX as int) as u32,
        uv_index: F32Bits { bits: f32_bits_of_f64_bits(obs[10]) },
        solar_radiation: f64_to_int_sat(obs[11], 0, u32::MAX as int) as u32,
        rain_over_prev_minute: F32Bits { bits: f32_bits_of_f64_bits(obs[12]) },
        precip_type: precip_from_bits(obs[13]),
        lightning_avg_distance: f64_to_int_sat(obs[14], 0, u32::MAX as int) as u32,
        lightning_strike_count: f64_to_int_sat(obs[15], 0, u32::MAX as int) as u32,
        battery_voltage: F32Bits { bits: f32_bits_of_f64_bits(obs[16]) },
        report_interval: f64_to_int_sat(obs[17], 0, u16::MAX as int) as u16,
    }
}

/// What normalizing a decoded message yields: a record for an observation
/// with its eighteen slots, nothing for every other message.
pub open spec fn normalize_model(p: PacketData) -> Option<Weather> {
    match p {
        PacketData::Observation { obs, .. } => if obs.len() == 18 {
            Some(weather_of_bits(obs))
        } else {
            None
        },
        _ => None,
    }
}

/// Normalize one decoded message. Pure: a record comes back exactly for the
/// observation variant, and on a packet whose narrowed bits are well formed
/// it is exactly the modelled record.
pub fn normalize(p: &Packet) -> (r: Option<Weather>)
    ensures
        p.bits_wf() ==> r == normalize_model(p@),
        r is Some <==> (p@ matches PacketData::Observation { obs, .. } && obs.len() == 18),
{
    match p {
        Packet::Observation { obs, .. } => {
            if obs.len() != 18 {
                return None;
            }
            Some(
                Weather {
                    time_epoch: f64_bits_to_i64(obs[0].bits),
                    wind_lull: F32Bits { bits: obs[1].bits32 },
                    wind_avg: F32Bits { bits: obs[2].bits32 },
                    wind_gust: F32Bits { bits: obs[3].bits32 },
                    wind_direction: f64_bits_to_u16(obs[4].bits),
                    wind_sample_interval: f64_bits_to_u16(obs[5].bits),
                    station_pressure: F32Bits { bits: obs[6].bits32 },
                    air_temp: F32Bits { bits: obs[7].bits32 },
                    relative_humidity: F32Bits { bits: obs[8].bits32 },
                    illuminance: f64_bits_to_u32(obs[9].bits),
                    uv_index: F32Bits { bits: obs[10].bits32 },
                    solar_radiation: f64_bits_to_u32(obs[11].bits),
                    rain_over_prev_minute: F32Bits { bits: obs[12].bits32 },
                    precip_type: PrecipitationType::from_wire(obs[13].bits),
                    lightning_avg_distance: f64_bits_to_u32(obs[14].bits),
                    lightning_strike_count: f64_bits_to_u32(obs[15].bits),
                    battery_voltage: F32Bits { bits: obs[16].bits32 },
                    report_interval: f64_bits_to_u16(obs[17].bits),
                },
            )
        },
        _ => None,
    }
}

impl Packet {
    /// The record this message normalizes to, if it is an observation.
    pub fn into_weather(&self) -> (r: Option<Weather>)
        ensures
            self.bits_wf() ==> r == normalize_model(self@),
            r is Some <==> (self@ matches PacketData::Observation { obs, .. } && obs.len() == 18),
    {
        normalize(self)
    }
}

} // verus!
