//! The library's cross-component guarantees, stated and proved.
use vstd::prelude::*;

verus! {

use crate::json::{num_as_u64_data, parsed_json, JsonData};
use crate::normalize::{normalize_model, weather_of_bits};
use crate::numeric::{f32_bits_of_f64_bits, f64_to_int_sat};
use crate::packet::{bool_field_model, classify_model, decode_model, device_status_model, field_of,
    i64_field_model, known_tag, num_field_model, str_field_model, tag_of, u64_field_model, ErrData,
    FieldFault, FieldName, PacketData, VariantKind};
use crate::weather::precip_from_bits;

/// Every datagram that decodes to the observation variant carries exactly
/// eighteen numeric slots, normalizes to a record, and each field of that
/// record is the positional wire number narrowed by the stated rule:
/// truncate-and-saturate for the integer and enumeration fields, the fixed
/// single-width narrowing for the floating point fields.
pub proof fn lemma_observation_pipeline(b: Seq<u8>)
    requires
        decode_model(b) matches Ok(p) && p is Observation,
    ensures
        decode_model(b) matches Ok(p) && p matches PacketData::Observation { obs, .. } ==> {
            &&& obs.len() == 18
            &&& normalize_model(p) == Some(weather_of_bits(obs))
            &&& ({
                let w = weather_of_bits(obs);
                &&& w.time_epoch == f64_to_int_sat(obs[0], i64::MIN as int, i64::MAX as int)
                &&& w.wind_lull.bits == f32_bits_of_f64_bits(obs[1])
                &&& w.wind_avg.bits == f32_bits_of_f64_bits(obs[2])
                &&& w.wind_gust.bits == f32_bits_of_f64_bits(obs[3])
                &&& w.wind_direction == f64_to_int_sat(obs[4], 0, u16::MAX as int)
                &&& w.wind_sample_interval == f64_to_int_sat(obs[5], 0, u16::MAX as int)
                &&& w.station_pressure.bits == f32_bits_of_f64_bits(obs[6])
                &&& w.air_temp.bits == f32_bits_of_f64_bits(obs[7])
                &&& w.relative_humidity.bits == f32_bits_of_f64_bits(obs[8])
                &&& w.illuminance == f64_to_int_sat(obs[9], 0, u32::MAX as int)
                &&& w.uv_index.bits == f32_bits_of_f64_bits(obs[10])
                &&& w.solar_radiation == f64_to_int_sat(obs[11], 0, u32::MAX as int)
                &&& w.rain_over_prev_minute.bits == f32_bits_of_f64_bits(obs[12])
                &&& w.precip_type == precip_from_bits(obs[13])
                &&& w.lightning_avg_distance == f64_to_int_sat(obs[14], 0, u32::MAX as int)
                &&& w.lightning_strike_count == f64_to_int_sat(obs[15], 0, u32::MAX as int)
                &&& w.battery_voltage.bits == f32_bits_of_f64_bits(obs[16])
                &&& w.report_interval == f64_to_int_sat(obs[17], 0, u16::MAX as int)
            })
        },
{
}

/// A well-formed datagram whose discriminator is absent or unknown decodes
/// to the unrecognized variant — never an error — and the unrecognized
/// variant normalizes to no record.
pub proof fn lemma_unknown_discriminator_is_silent(b: Seq<u8>)
    requires
        parsed_json(b) is Some,
        tag_of(parsed_json(b).unwrap()) matches Some(t) ==> !known_tag(t),
    ensures
        decode_model(b) == Ok::<PacketData, ErrData>(PacketData::Unrecognized),
        normalize_model(PacketData::Unrecognized) is None,
{
}

/// Bytes that are not a well-formed wire value decode to the unparseable
/// error, and to nothing else.
pub proof fn lemma_unparseable_input(b: Seq<u8>)
    requires
        parsed_json(b) is None,
    ensures
        decode_model(b) == Err::<PacketData, ErrData>(ErrData::Unparseable),
{
}

/// A device-status message whose integer-coded boolean field holds an
/// integer other than zero or one — its other fields conforming — is
/// malformed, and the error identifies the debug field and the offending
/// value.
pub proof fn lemma_bad_boolean_is_malformed(j: JsonData, n: u64)
    requires
        tag_of(j) == Some("device_status"@),
        str_field_model(j, "serial_number"@) is Ok,
        str_field_model(j, "hub_sn"@) is Ok,
        u64_field_model(j, "timestamp"@) is Ok,
        u64_field_model(j, "uptime"@) is Ok,
        num_field_model(j, "voltage"@) is Ok,
        u64_field_model(j, "firmware_revision"@) is Ok,
        i64_field_model(j, "rssi"@) is Ok,
        i64_field_model(j, "hub_rssi"@) is Ok,
        u64_field_model(j, "sensor_status"@) is Ok,
        field_of(j, "debug"@) matches Some(f) && f matches JsonData::Num(m) && num_as_u64_data(m)
            == Some(n),
        n != 0 && n != 1,
    ensures
        classify_model(j) == Err::<PacketData, ErrData>(
            ErrData::Malformed {
                variant: VariantKind::DeviceStatus,
                field: FieldName::Debug,
                fault: FieldFault::NotZeroOrOne { found: n },
            },
        ),
{
    reveal_strlit("device_status");
    reveal_strlit("obs_st");
    reveal_strlit("rapid_wind");
    reveal_strlit("evt_precip");
    reveal_strlit("evt_strike");
    reveal_strlit("hub_status");
    let t = tag_of(j).unwrap();
    assert(t == "device_status"@);
    assert(t != "obs_st"@ && t != "rapid_wind"@ && t != "evt_precip"@ && t != "evt_strike"@ && t
        != "hub_status"@);
    assert(bool_field_model(j, "debug"@) == Err::<bool, FieldFault>(
        FieldFault::NotZeroOrOne { found: n },
    ));
    assert(classify_model(j) == device_status_model(j));
}

} // verus!
