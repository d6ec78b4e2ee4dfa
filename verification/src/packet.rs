//! Decoding one datagram into a typed message.
//!
//! A datagram carries a structured text value whose `type` field selects one
//! of six known message shapes; an absent or unknown discriminator is not an
//! error but the unrecognized variant. The decoder is specified against
//! [`decode_model`], a complete spec-level account of the decision: which
//! bytes are unparseable, which fields make a recognized message malformed,
//! and exactly which typed value every well-formed message yields.
use vstd::prelude::*;

verus! {

use crate::json::{
    num_as_i64_data, num_as_u64_data, num_bits, obj_get, parse_value, parsed_json, value_array,
    value_data, value_i64, value_num_bits, value_str, value_u64, JsonData, NumData,
};
use crate::numeric::f32_bits_of_f64_bits;

/// The six recognized message kinds, named in decode errors.
#[derive(Clone, Copy, Debug, PartialEq, Eq, Structural)]
pub enum VariantKind {
    Observation,
    RapidWind,
    EventRainStart,
    EventLightningStrike,
    DeviceStatus,
    HubStatus,
}

/// The wire field a decode error points at.
#[derive(Clone, Copy, Debug, PartialEq, Eq, Structural)]
pub enum FieldName {
    SerialNumber,
    HubSn,
    FirmwareRevision,
    Obs,
    Ob,
    Evt,
    Timestamp,
    Uptime,
    Voltage,
    Rssi,
    HubRssi,
    SensorStatus,
    Debug,
    ResetFlags,
    SeqNum,
    RadioStats,
    MqttStats,
}

/// Why a field of a recognized message kind was rejected.
#[derive(Clone, Copy, Debug, PartialEq, Eq, Structural)]
pub enum FieldFault {
    /// The field is absent.
    Missing,
    /// The field is present but not of the required shape.
    WrongShape,
    /// A fixed-length array field has the wrong number of elements.
    WrongLength { expected: usize, found: usize },
    /// The integer-coded boolean field holds another integer.
    NotZeroOrOne { found: u64 },
}

/// Decoding failure. Unrecognized discriminators are not failures; these two
/// cases are the only ones.
#[derive(Debug, Clone, PartialEq)]
pub enum DecodeError {
    /// The bytes are not a well-formed wire value at all.
    Unparseable { detail: String },
    /// A recognized message kind whose fields do not conform to its shape.
    Malformed { variant: VariantKind, field: FieldName, fault: FieldFault },
}

/// A decode error with the free-text detail dropped, as the decode model
/// states it.
#[derive(Clone, Copy, Debug, PartialEq, Eq, Structural)]
pub enum ErrData {
    Unparseable,
    Malformed { variant: VariantKind, field: FieldName, fault: FieldFault },
}

/// The model-level value of a decode error.
pub open spec fn err_data(e: DecodeError) -> ErrData {
    match e {
        DecodeError::Unparseable { .. } => ErrData::Unparseable,
        DecodeError::Malformed { variant, field, fault } => ErrData::Malformed {
            variant,
            field,
            fault,
        },
    }
}

/// One numeric slot of a report: the wire's double bit pattern together
/// with that pattern narrowed to single width at the trusted boundary.
#[derive(Clone, Copy, Debug, PartialEq, Eq, Structural)]
pub struct WireNum {
    pub bits: u64,
    pub bits32: u32,
}

/// The three-slot rapid-wind reading: epoch seconds, speed, direction.
#[derive(Clone, Copy, Debug, PartialEq, Eq, Structural)]
pub struct RapidWindOb {
    pub epoch: u64,
    pub speed: WireNum,
    pub direction: u64,
}

/// One decoded message.
#[derive(Debug, Clone)]
pub enum Packet {
    /// A full observation report: ids plus eighteen positional wire numbers.
    Observation { serial_number: String, hub_sn: String, firmware_revision: u64, obs: Vec<
        WireNum,
    > },
    /// A rapid wind sample.
    RapidWind { serial_number: String, hub_sn: String, ob: RapidWindOb },
    /// Rain started at the given epoch second.
    EventRainStart { serial_number: String, hub_sn: String, epoch: u64 },
    /// A lightning strike with distance and energy readings.
    EventLightningStrike {
        serial_number: String,
        hub_sn: String,
        epoch: u64,
        distance_km: u64,
        energy: u64,
    },
    /// Sensor device health.
    DeviceStatus {
        serial_number: String,
        hub_sn: String,
        timestamp: u64,
        uptime: u64,
        voltage: WireNum,
        firmware_revision: u64,
        rssi: i64,
        hub_rssi: i64,
        sensor_status: u64,
        debug: bool,
    },
    /// Hub health; its firmware revision is a decimal string on the wire.
    HubStatus {
        serial_number: String,
        firmware_revision: String,
        uptime: u64,
        rssi: i64,
        timestamp: u64,
        reset_flags: String,
        seq_num: u64,
        radio_stats: Vec<u64>,
        mqtt_stats: Vec<u64>,
    },
    /// A well-formed message of an unknown or absent discriminator.
    Unrecognized,
}

/// The spec-level value of a decoded message: strings as character
/// sequences, numeric slots as their double bit patterns.
pub enum PacketData {
    Observation { serial_number: Seq<char>, hub_sn: Seq<char>, firmware_revision: u64, obs: Seq<
        u64,
    > },
    RapidWind { serial_number: Seq<char>, hub_sn: Seq<char>, epoch: u64, speed: u64, direction: u64 },
    EventRainStart { serial_number: Seq<char>, hub_sn: Seq<char>, epoch: u64 },
    EventLightningStrike {
        serial_number: Seq<char>,
        hub_sn: Seq<char>,
        epoch: u64,
        distance_km: u64,
        energy: u64,
    },
    DeviceStatus {
        serial_number: Seq<char>,
        hub_sn: Seq<char>,
        timestamp: u64,
        uptime: u64,
        voltage: u64,
        firmware_revision: u64,
        rssi: i64,
        hub_rssi: i64,
        sensor_status: u64,
        debug: bool,
    },
    HubStatus {
        serial_number: Seq<char>,
        firmware_revision: Seq<char>,
        uptime: u64,
        rssi: i64,
        timestamp: u64,
        reset_flags: Seq<char>,
        seq_num: u64,
        radio_stats: Seq<u64>,
        mqtt_stats: Seq<u64>,
    },
    Unrecognized,
}

impl View for Packet {
    type V = PacketData;

    open spec fn view(&self) -> PacketData {
        match self {
            Packet::Observation { serial_number, hub_sn, firmware_revision, obs } => {
                PacketData::Observation {
                    serial_number: serial_number@,
                    hub_sn: hub_sn@,
                    firmware_revision: *firmware_revision,
                    obs: obs@.map_values(|w: WireNum| w.bits),
                }
            },
            Packet::RapidWind { serial_number, hub_sn, ob } => {
                PacketData::RapidWind {
                    serial_number: serial_number@,
                    hub_sn: hub_sn@,
                    epoch: ob.epoch,
                    speed: ob.speed.bits,
                    direction: ob.direction,
                }
            },
            Packet::EventRainStart { serial_number, hub_sn, epoch } => {
                PacketData::EventRainStart {
                    serial_number: serial_number@,
                    hub_sn: hub_sn@,
                    epoch: *epoch,
                }
            },
            Packet::EventLightningStrike { serial_number, hub_sn, epoch, distance_km, energy } => {
                PacketData::EventLightningStrike {
                    serial_number: serial_number@,
                    hub_sn: hub_sn@,
                    epoch: *epoch,
                    distance_km: *distance_km,
                    energy: *energy,
                }
            },
            Packet::DeviceStatus {
                serial_number,
                hub_sn,
                timestamp,
                uptime,
                voltage,
                firmware_revision,
                rssi,
                hub_rssi,
                sensor_status,
                debug,
            } => {
                PacketData::DeviceStatus {
                    serial_number: serial_number@,
                    hub_sn: hub_sn@,
                    timestamp: *timestamp,
                    uptime: *uptime,
                    voltage: voltage.bits,
                    firmware_revision: *firmware_revision,
                    rssi: *rssi,
                    hub_rssi: *hub_rssi,
                    sensor_status: *sensor_status,
                    debug: *debug,
                }
            },
            Packet::HubStatus {
                serial_number,
                firmware_revision,
                uptime,
                rssi,
                timestamp,
                reset_flags,
                seq_num,
                radio_stats,
                mqtt_stats,
            } => {
                PacketData::HubStatus {
                    serial_number: serial_number@,
                    firmware_revision: firmware_revision@,
                    uptime: *uptime,
                    rssi: *rssi,
                    timestamp: *timestamp,
                    reset_flags: reset_flags@,
                    seq_num: *seq_num,
                    radio_stats: radio_stats@,
                    mqtt_stats: mqtt_stats@,
                }
            },
            Packet::Unrecognized => PacketData::Unrecognized,
        }
    }
}

impl Packet {
    /// Every stored single-width pattern is the narrowing of its double
    /// pattern; the trusted boundary establishes this at decode time.
    pub open spec fn bits_wf(&self) -> bool {
        match self {
            Packet::Observation { obs, .. } => forall|i: int|
                0 <= i < obs@.len() ==> (#[trigger] obs@[i]).bits32 == f32_bits_of_f64_bits(
                    obs@[i].bits,
                ),
            Packet::RapidWind { ob, .. } => ob.speed.bits32 == f32_bits_of_f64_bits(ob.speed.bits),
            Packet::DeviceStatus { voltage, .. } => voltage.bits32 == f32_bits_of_f64_bits(
                voltage.bits,
            ),
            _ => true,
        }
    }
}

/// The value a key maps to, when the shape is an object holding the key.
pub open spec fn field_of(j: JsonData, k: Seq<char>) -> Option<JsonData> {
    match j {
        JsonData::Obj(m) => if m.contains_key(k) {
            Some(m[k])
        } else {
            None
        },
        _ => None,
    }
}

/// A required string field.
pub open spec fn str_field_model(j: JsonData, k: Seq<char>) -> Result<Seq<char>, FieldFault> {
    match field_of(j, k) {
        None => Err(FieldFault::Missing),
        Some(f) => match f {
            JsonData::Text(s) => Ok(s),
            _ => Err(FieldFault::WrongShape),
        },
    }
}

/// A required unsigned integer field.
pub open spec fn u64_field_model(j: JsonData, k: Seq<char>) -> Result<u64, FieldFault> {
    match field_of(j, k) {
        None => Err(FieldFault::Missing),
        Some(f) => match f {
            JsonData::Num(n) => match num_as_u64_data(n) {
                Some(u) => Ok(u),
                None => Err(FieldFault::WrongShape),
            },
            _ => Err(FieldFault::WrongShape),
        },
    }
}

/// A required signed integer field.
pub open spec fn i64_field_model(j: JsonData, k: Seq<char>) -> Result<i64, FieldFault> {
    match field_of(j, k) {
        None => Err(FieldFault::Missing),
        Some(f) => match f {
            JsonData::Num(n) => match num_as_i64_data(n) {
                Some(i) => Ok(i),
                None => Err(FieldFault::WrongShape),
            },
            _ => Err(FieldFault::WrongShape),
        },
    }
}

/// A required numeric field taken as a wire number: any stored
/// representation is accepted, and its double bit pattern is the value.
pub open spec fn num_field_model(j: JsonData, k: Seq<char>) -> Result<u64, FieldFault> {
    match field_of(j, k) {
        None => Err(FieldFault::Missing),
        Some(f) => match f {
            JsonData::Num(n) => Ok(num_bits(n)),
            _ => Err(FieldFault::WrongShape),
        },
    }
}

/// The integer-coded boolean field: zero and one decode, any other integer
/// is a fault naming the offending value.
pub open spec fn bool_field_model(j: JsonData, k: Seq<char>) -> Result<bool, FieldFault> {
    match field_of(j, k) {
        None => Err(FieldFault::Missing),
        Some(f) => match f {
            JsonData::Num(n) => match num_as_u64_data(n) {
                Some(u) => if u == 0 {
                    Ok(false)
                } else if u == 1 {
                    Ok(true)
                } else {
                    Err(FieldFault::NotZeroOrOne { found: u })
                },
                None => Err(FieldFault::WrongShape),
            },
            _ => Err(FieldFault::WrongShape),
        },
    }
}

/// The unsigned integer an array element denotes exactly, if any.
pub open spec fn elem_u64(e: JsonData) -> Option<u64> {
    match e {
        JsonData::Num(n) => num_as_u64_data(n),
        _ => None,
    }
}

/// The double bit pattern an array element denotes, if it is numeric.
pub open spec fn elem_bits(e: JsonData) -> Option<u64> {
    match e {
        JsonData::Num(n) => Some(num_bits(n)),
        _ => None,
    }
}

/// All elements as exact unsigned integers, or nothing if one is not.
pub open spec fn u64_elems(s: Seq<JsonData>) -> Option<Seq<u64>> {
    if forall|i: int| 0 <= i < s.len() ==> (#[trigger] elem_u64(s[i])) is Some {
        Some(Seq::new(s.len(), |i: int| elem_u64(s[i]).unwrap()))
    } else {
        None
    }
}

/// All elements as wire numbers, or nothing if one is not numeric.
pub open spec fn bits_elems(s: Seq<JsonData>) -> Option<Seq<u64>> {
    if forall|i: int| 0 <= i < s.len() ==> (#[trigger] elem_bits(s[i])) is Some {
        Some(Seq::new(s.len(), |i: int| elem_bits(s[i]).unwrap()))
    } else {
        None
    }
}

/// A required fixed-length array of exact unsigned integers.
pub open spec fn u64_array_field_model(j: JsonData, k: Seq<char>, len: usize) -> Result<
    Seq<u64>,
    FieldFault,
> {
    match field_of(j, k) {
        None => Err(FieldFault::Missing),
        Some(f) => match f {
            JsonData::Arr(s) => if s.len() != len {
                Err(FieldFault::WrongLength { expected: len, found: s.len() as usize })
            } else {
                match u64_elems(s) {
                    Some(u) => Ok(u),
                    None => Err(FieldFault::WrongShape),
                }
            },
            _ => Err(FieldFault::WrongShape),
        },
    }
}

/// The observation report field: one element that is itself an array of
/// exactly eighteen numeric slots, taken as their double bit patterns.
pub open spec fn obs_field_model(j: JsonData) -> Result<Seq<u64>, FieldFault> {
    match field_of(j, "obs"@) {
        None => Err(FieldFault::Missing),
        Some(f) => match f {
            JsonData::Arr(outer) => if outer.len() != 1 {
                Err(FieldFault::WrongLength { expected: 1, found: outer.len() as usize })
            } else {
                match outer[0] {
                    JsonData::Arr(inner) => if inner.len() != 18 {
                        Err(FieldFault::WrongLength { expected: 18, found: inner.len() as usize })
                    } else {
                        match bits_elems(inner) {
                            Some(b) => Ok(b),
                            None => Err(FieldFault::WrongShape),
                        }
                    },
                    _ => Err(FieldFault::WrongShape),
                }
            },
            _ => Err(FieldFault::WrongShape),
        },
    }
}

/// The rapid-wind reading field: a three-slot tuple of epoch, numeric
/// speed, and direction.
pub open spec fn rapid_ob_model(j: JsonData) -> Result<(u64, u64, u64), FieldFault> {
    match field_of(j, "ob"@) {
        None => Err(FieldFault::Missing),
        Some(f) => match f {
            JsonData::Arr(s) => if s.len() != 3 {
                Err(FieldFault::WrongLength { expected: 3, found: s.len() as usize })
            } else {
                if elem_u64(s[0]) is Some && elem_bits(s[1]) is Some && elem_u64(s[2]) is Some {
                    Ok((elem_u64(s[0]).unwrap(), elem_bits(s[1]).unwrap(), elem_u64(s[2]).unwrap()))
                } else {
                    Err(FieldFault::WrongShape)
                }
            },
            _ => Err(FieldFault::WrongShape),
        },
    }
}

pub open spec fn malformed(v: VariantKind, f: FieldName, fault: FieldFault) -> ErrData {
    ErrData::Malformed { variant: v, field: f, fault }
}

/// What an `obs_st` message decodes to.
pub open spec fn observation_model(j: JsonData) -> Result<PacketData, ErrData> {
    match str_field_model(j, "serial_number"@) {
        Err(f) => Err(malformed(VariantKind::Observation, FieldName::SerialNumber, f)),
        Ok(serial_number) => match str_field_model(j, "hub_sn"@) {
            Err(f) => Err(malformed(VariantKind::Observation, FieldName::HubSn, f)),
            Ok(hub_sn) => match u64_field_model(j, "firmware_revision"@) {
                Err(f) => Err(malformed(VariantKind::Observation, FieldName::FirmwareRevision, f)),
                Ok(firmware_revision) => match obs_field_model(j) {
                    Err(f) => Err(malformed(VariantKind::Observation, FieldName::Obs, f)),
                    Ok(obs) => Ok(
                        PacketData::Observation { serial_number, hub_sn, firmware_revision, obs },
                    ),
                },
            },
        },
    }
}

/// What a `rapid_wind` message decodes to.
pub open spec fn rapid_wind_model(j: JsonData) -> Result<PacketData, ErrData> {
    match str_field_model(j, "serial_number"@) {
        Err(f) => Err(malformed(VariantKind::RapidWind, FieldName::SerialNumber, f)),
        Ok(serial_number) => match str_field_model(j, "hub_sn"@) {
            Err(f) => Err(malformed(VariantKind::RapidWind, FieldName::HubSn, f)),
            Ok(hub_sn) => match rapid_ob_model(j) {
                Err(f) => Err(malformed(VariantKind::RapidWind, FieldName::Ob, f)),
                Ok(ob) => Ok(
                    PacketData::RapidWind {
                        serial_number,
                        hub_sn,
                        epoch: ob.0,
                        speed: ob.1,
                        direction: ob.2,
                    },
                ),
            },
        },
    }
}

/// What an `evt_precip` message decodes to.
pub open spec fn rain_start_model(j: JsonData) -> Result<PacketData, ErrData> {
    match str_field_model(j, "serial_number"@) {
        Err(f) => Err(malformed(VariantKind::EventRainStart, FieldName::SerialNumber, f)),
        Ok(serial_number) => match str_field_model(j, "hub_sn"@) {
            Err(f) => Err(malformed(VariantKind::EventRainStart, FieldName::HubSn, f)),
            Ok(hub_sn) => match u64_array_field_model(j, "evt"@, 1) {
                Err(f) => Err(malformed(VariantKind::EventRainStart, FieldName::Evt, f)),
                Ok(e) => Ok(PacketData::EventRainStart { serial_number, hub_sn, epoch: e[0] }),
            },
        },
    }
}

/// What an `evt_strike` message decodes to.
pub open spec fn lightning_model(j: JsonData) -> Result<PacketData, ErrData> {
    match str_field_model(j, "serial_number"@) {
        Err(f) => Err(malformed(VariantKind::EventLightningStrike, FieldName::SerialNumber, f)),
        Ok(serial_number) => match str_field_model(j, "hub_sn"@) {
            Err(f) => Err(malformed(VariantKind::EventLightningStrike, FieldName::HubSn, f)),
            Ok(hub_sn) => match u64_array_field_model(j, "evt"@, 3) {
                Err(f) => Err(malformed(VariantKind::EventLightningStrike, FieldName::Evt, f)),
                Ok(e) => Ok(
                    PacketData::EventLightningStrike {
                        serial_number,
                        hub_sn,
                        epoch: e[0],
                        distance_km: e[1],
                        energy: e[2],
                    },
                ),
            },
        },
    }
}

/// What a `device_status` message decodes to.
pub open spec fn device_status_model(j: JsonData) -> Result<PacketData, ErrData> {
    match str_field_model(j, "serial_number"@) {
        Err(f) => Err(malformed(VariantKind::DeviceStatus, FieldName::SerialNumber, f)),
        Ok(serial_number) => match str_field_model(j, "hub_sn"@) {
            Err(f) => Err(malformed(VariantKind::DeviceStatus, FieldName::HubSn, f)),
            Ok(hub_sn) => match u64_field_model(j, "timestamp"@) {
                Err(f) => Err(malformed(VariantKind::DeviceStatus, FieldName::Timestamp, f)),
                Ok(timestamp) => match u64_field_model(j, "uptime"@) {
                    Err(f) => Err(malformed(VariantKind::DeviceStatus, FieldName::Uptime, f)),
                    Ok(uptime) => match num_field_model(j, "voltage"@) {
                        Err(f) => Err(malformed(VariantKind::DeviceStatus, FieldName::Voltage, f)),
                        Ok(voltage) => match u64_field_model(j, "firmware_revision"@) {
                            Err(f) => Err(
                                malformed(VariantKind::DeviceStatus, FieldName::FirmwareRevision, f),
                            ),
                            Ok(firmware_revision) => match i64_field_model(j, "rssi"@) {
                                Err(f) => Err(
                                    malformed(VariantKind::DeviceStatus, FieldName::Rssi, f),
                                ),
                                Ok(rssi) => match i64_field_model(j, "hub_rssi"@) {
                                    Err(f) => Err(
                                        malformed(VariantKind::DeviceStatus, FieldName::HubRssi, f),
                                    ),
                                    Ok(hub_rssi) => match u64_field_model(j, "sensor_status"@) {
                                        Err(f) => Err(
                                            malformed(
                                                VariantKind::DeviceStatus,
                                                FieldName::SensorStatus,
                                                f,
                                            ),
                                        ),
                                        Ok(sensor_status) => match bool_field_model(j, "debug"@) {
                                            Err(f) => Err(
                                                malformed(
                                                    VariantKind::DeviceStatus,
                                                    FieldName::Debug,
                                                    f,
                                                ),
                                            ),
                                            Ok(debug) => Ok(
                                                PacketData::DeviceStatus {
                                                    serial_number,
                                                    hub_sn,
                                                    timestamp,
                                                    uptime,
                                                    voltage,
                                                    firmware_revision,
                                                    rssi,
                                                    hub_rssi,
                                                    sensor_status,
                                                    debug,
                                                },
                                            ),
                                        },
                                    },
                                },
                            },
                        },
                    },
                },
            },
        },
    }
}

/// What a `hub_status` message decodes to.
pub open spec fn hub_status_model(j: JsonData) -> Result<PacketData, ErrData> {
    match str_field_model(j, "serial_number"@) {
        Err(f) => Err(malformed(VariantKind::HubStatus, FieldName::SerialNumber, f)),
        Ok(serial_number) => match str_field_model(j, "firmware_revision"@) {
            Err(f) => Err(malformed(VariantKind::HubStatus, FieldName::FirmwareRevision, f)),
            Ok(firmware_revision) => match u64_field_model(j, "uptime"@) {
                Err(f) => Err(malformed(VariantKind::HubStatus, FieldName::Uptime, f)),
                Ok(uptime) => match i64_field_model(j, "rssi"@) {
                    Err(f) => Err(malformed(VariantKind::HubStatus, FieldName::Rssi, f)),
                    Ok(rssi) => match u64_field_model(j, "timestamp"@) {
                        Err(f) => Err(malformed(VariantKind::HubStatus, FieldName::Timestamp, f)),
                        Ok(timestamp) => match str_field_model(j, "reset_flags"@) {
                            Err(f) => Err(
                                malformed(VariantKind::HubStatus, FieldName::ResetFlags, f),
                            ),
                            Ok(reset_flags) => match u64_field_model(j, "seq"@) {
                                Err(f) => Err(
                                    malformed(VariantKind::HubStatus, FieldName::SeqNum, f),
                                ),
                                Ok(seq_num) => match u64_array_field_model(j, "radio_stats"@, 5) {
                                    Err(f) => Err(
                                        malformed(VariantKind::HubStatus, FieldName::RadioStats, f),
                                    ),
                                    Ok(radio_stats) => match u64_array_field_model(
                                        j,
                                        "mqtt_stats"@,
                                        2,
                                    ) {
                                        Err(f) => Err(
                                            malformed(
                                                VariantKind::HubStatus,
                                                FieldName::MqttStats,
                                                f,
                                            ),
                                        ),
                                        Ok(mqtt_stats) => Ok(
                                            PacketData::HubStatus {
                                                serial_number,
                                                firmware_revision,
                                                uptime,
                                                rssi,
                                                timestamp,
                                                reset_flags,
                                                seq_num,
                                                radio_stats,
                                                mqtt_stats,
                                            },
                                        ),
                                    },
                                },
                            },
                        },
                    },
                },
            },
        },
    }
}

/// The discriminator: the string under the `type` key, if there is one.
pub open spec fn tag_of(j: JsonData) -> Option<Seq<char>> {
    match field_of(j, "type"@) {
        Some(f) => match f {
            JsonData::Text(t) => Some(t),
            _ => None,
        },
        None => None,
    }
}

/// The discriminator values that select a known message kind.
pub open spec fn known_tag(t: Seq<char>) -> bool {
    ||| t == "obs_st"@
    ||| t == "rapid_wind"@
    ||| t == "evt_precip"@
    ||| t == "evt_strike"@
    ||| t == "device_status"@
    ||| t == "hub_status"@
}

/// What a well-formed wire value decodes to.
pub open spec fn classify_model(j: JsonData) -> Result<PacketData, ErrData> {
    match tag_of(j) {
        None => Ok(PacketData::Unrecognized),
        Some(t) => if t == "obs_st"@ {
            observation_model(j)
        } else if t == "rapid_wind"@ {
            rapid_wind_model(j)
        } else if t == "evt_precip"@ {
            rain_start_model(j)
        } else if t == "evt_strike"@ {
            lightning_model(j)
        } else if t == "device_status"@ {
            device_status_model(j)
        } else if t == "hub_status"@ {
            hub_status_model(j)
        } else {
            Ok(PacketData::Unrecognized)
        },
    }
}

/// What decoding a datagram yields: the unparseable error on bytes that are
/// not a well-formed wire value, otherwise the classified message.
pub open spec fn decode_model(b: Seq<u8>) -> Result<PacketData, ErrData> {
    match parsed_json(b) {
        None => Err(ErrData::Unparseable),
        Some(j) => classify_model(j),
    }
}

fn get_str_field(v: &serde_json::Value, key: &str) -> (r: Result<String, FieldFault>)
    ensures
        match r {
            Ok(s) => str_field_model(value_data(*v), key@) == Ok::<Seq<char>, FieldFault>(s@),
            Err(f) => str_field_model(value_data(*v), key@) == Err::<Seq<char>, FieldFault>(f),
        },
{
    match obj_get(v, key) {
        None => Err(FieldFault::Missing),
        Some(f) => match value_str(f) {
            None => Err(FieldFault::WrongShape),
            Some(s) => Ok(s.to_owned()),
        },
    }
}

fn get_u64_field(v: &serde_json::Value, key: &str) -> (r: Result<u64, FieldFault>)
    ensures
        match r {
            Ok(u) => u64_field_model(value_data(*v), key@) == Ok::<u64, FieldFault>(u),
            Err(f) => u64_field_model(value_data(*v), key@) == Err::<u64, FieldFault>(f),
        },
{
    match obj_get(v, key) {
        None => Err(FieldFault::Missing),
        Some(f) => match value_u64(f) {
            None => Err(FieldFault::WrongShape),
            Some(u) => Ok(u),
        },
    }
}

fn get_i64_field(v: &serde_json::Value, key: &str) -> (r: Result<i64, FieldFault>)
    ensures
        match r {
            Ok(u) => i64_field_model(value_data(*v), key@) == Ok::<i64, FieldFault>(u),
            Err(f) => i64_field_model(value_data(*v), key@) == Err::<i64, FieldFault>(f),
        },
{
    match obj_get(v, key) {
        None => Err(FieldFault::Missing),
        Some(f) => match value_i64(f) {
            None => Err(FieldFault::WrongShape),
            Some(u) => Ok(u),
        },
    }
}

fn get_num_field(v: &serde_json::Value, key: &str) -> (r: Result<WireNum, FieldFault>)
    ensures
        match r {
            Ok(w) => num_field_model(value_data(*v), key@) == Ok::<u64, FieldFault>(w.bits)
                && w.bits32 == f32_bits_of_f64_bits(w.bits),
            Err(f) => num_field_model(value_data(*v), key@) == Err::<u64, FieldFault>(f),
        },
{
    match obj_get(v, key) {
        None => Err(FieldFault::Missing),
        Some(f) => match value_num_bits(f) {
            None => Err(FieldFault::WrongShape),
            Some(p) => Ok(WireNum { bits: p.0, bits32: p.1 }),
        },
    }
}

fn get_bool_field(v: &serde_json::Value, key: &str) -> (r: Result<bool, FieldFault>)
    ensures
        match r {
            Ok(b) => bool_field_model(value_data(*v), key@) == Ok::<bool, FieldFault>(b),
            Err(f) => bool_field_model(value_data(*v), key@) == Err::<bool, FieldFault>(f),
        },
{
    match obj_get(v, key) {
        None => Err(FieldFault::Missing),
        Some(f) => match value_u64(f) {
            None => Err(FieldFault::WrongShape),
            Some(u) => {
                if u == 0 {
                    Ok(false)
                } else if u == 1 {
                    Ok(true)
                } else {
                    Err(FieldFault::NotZeroOrOne { found: u })
                }
            },
        },
    }
}

#[verifier::loop_isolation(false)]
fn get_u64_array_field(v: &serde_json::Value, key: &str, len: usize) -> (r: Result<
    Vec<u64>,
    FieldFault,
>)
    ensures
        match r {
            Ok(u) => u64_array_field_model(value_data(*v), key@, len) == Ok::<Seq<u64>, FieldFault>(
                u@,
            ) && u@.len() == len,
            Err(f) => u64_array_field_model(value_data(*v), key@, len) == Err::<
                Seq<u64>,
                FieldFault,
            >(f),
        },
{
    let arr = match obj_get(v, key) {
        None => {
            return Err(FieldFault::Missing);
        },
        Some(f) => match value_array(f) {
            None => {
                return Err(FieldFault::WrongShape);
            },
            Some(a) => a,
        },
    };
    let ghost s: Seq<JsonData> = arr@.map_values(|e: serde_json::Value| value_data(e));
    if arr.len() != len {
        return Err(FieldFault::WrongLength { expected: len, found: arr.len() });
    }
    let mut out: Vec<u64> = Vec::new();
    let mut i: usize = 0;
    while i < arr.len()
        invariant
            i <= arr.len(),
            arr@.len() == s.len(),
            s == arr@.map_values(|e: serde_json::Value| value_data(e)),
            out@.len() == i,
            forall|k: int| 0 <= k < i ==> elem_u64(s[k]) == Some(out@[k]),
        decreases arr.len() - i,
    {
        match value_u64(&arr[i]) {
            None => {
                proof {
                    assert(elem_u64(s[i as int]) is None);
                }
                return Err(FieldFault::WrongShape);
            },
            Some(u) => {
                out.push(u);
            },
        }
        i = i + 1;
    }
    proof {
        assert(u64_elems(s) matches Some(u) && u =~= out@);
    }
    Ok(out)
}

#[verifier::loop_isolation(false)]
fn get_obs_field(v: &serde_json::Value) -> (r: Result<Vec<WireNum>, FieldFault>)
    ensures
        match r {
            Ok(w) => obs_field_model(value_data(*v)) == Ok::<Seq<u64>, FieldFault>(
                w@.map_values(|x: WireNum| x.bits),
            ) && w@.len() == 18 && forall|i: int|
                0 <= i < w@.len() ==> (#[trigger] w@[i]).bits32 == f32_bits_of_f64_bits(w@[i].bits),
            Err(f) => obs_field_model(value_data(*v)) == Err::<Seq<u64>, FieldFault>(f),
        },
{
    let outer = match obj_get(v, "obs") {
        None => {
            return Err(FieldFault::Missing);
        },
        Some(f) => match value_array(f) {
            None => {
                return Err(FieldFault::WrongShape);
            },
            Some(a) => a,
        },
    };
    if outer.len() != 1 {
        return Err(FieldFault::WrongLength { expected: 1, found: outer.len() });
    }
    let inner = match value_array(&outer[0]) {
        None => {
            return Err(FieldFault::WrongShape);
        },
        Some(a) => a,
    };
    let ghost s: Seq<JsonData> = inner@.map_values(|e: serde_json::Value| value_data(e));
    if inner.len() != 18 {
        return Err(FieldFault::WrongLength { expected: 18, found: inner.len() });
    }
    let mut out: Vec<WireNum> = Vec::new();
    let mut i: usize = 0;
    while i < inner.len()
        invariant
            i <= inner.len(),
            inner@.len() == s.len(),
            s == inner@.map_values(|e: serde_json::Value| value_data(e)),
            out@.len() == i,
            forall|k: int| 0 <= k < i ==> (#[trigger] elem_bits(s[k])) == Some(out@[k].bits),
            forall|k: int|
                0 <= k < i ==> (#[trigger] out@[k]).bits32 == f32_bits_of_f64_bits(out@[k].bits),
        decreases inner.len() - i,
    {
        match value_num_bits(&inner[i]) {
            None => {
                proof {
                    assert(elem_bits(s[i as int]) is None);
                }
                return Err(FieldFault::WrongShape);
            },
            Some(p) => {
                out.push(WireNum { bits: p.0, bits32: p.1 });
            },
        }
        i = i + 1;
    }
    proof {
        assert(bits_elems(s) matches Some(u) && u =~= out@.map_values(|x: WireNum| x.bits));
    }
    Ok(out)
}

fn get_rapid_ob(v: &serde_json::Value) -> (r: Result<RapidWindOb, FieldFault>)
    ensures
        match r {
            Ok(ob) => rapid_ob_model(value_data(*v)) == Ok::<(u64, u64, u64), FieldFault>(
                (ob.epoch, ob.speed.bits, ob.direction),
            ) && ob.speed.bits32 == f32_bits_of_f64_bits(ob.speed.bits),
            Err(f) => rapid_ob_model(value_data(*v)) == Err::<(u64, u64, u64), FieldFault>(f),
        },
{
    let arr = match obj_get(v, "ob") {
        None => {
            return Err(FieldFault::Missing);
        },
        Some(f) => match value_array(f) {
            None => {
                return Err(FieldFault::WrongShape);
            },
            Some(a) => a,
        },
    };
    if arr.len() != 3 {
        return Err(FieldFault::WrongLength { expected: 3, found: arr.len() });
    }
    let epoch = match value_u64(&arr[0]) {
        None => {
            return Err(FieldFault::WrongShape);
        },
        Some(u) => u,
    };
    let speed = match value_num_bits(&arr[1]) {
        None => {
            return Err(FieldFault::WrongShape);
        },
        Some(p) => WireNum { bits: p.0, bits32: p.1 },
    };
    let direction = match value_u64(&arr[2]) {
        None => {
            return Err(FieldFault::WrongShape);
        },
        Some(u) => u,
    };
    Ok(RapidWindOb { epoch, speed, direction })
}

fn decode_observation(v: &serde_json::Value) -> (r: Result<Packet, DecodeError>)
    ensures
        match r {
            Ok(p) => observation_model(value_data(*v)) == Ok::<PacketData, ErrData>(p@)
                && p.bits_wf(),
            Err(e) => observation_model(value_data(*v)) == Err::<PacketData, ErrData>(err_data(e)),
        },
{
    let serial_number = match get_str_field(v, "serial_number") {
        Err(f) => {
            return Err(
                DecodeError::Malformed {
                    variant: VariantKind::Observation,
                    field: FieldName::SerialNumber,
                    fault: f,
                },
            );
        },
        Ok(s) => s,
    };
    let hub_sn = match get_str_field(v, "hub_sn") {
        Err(f) => {
            return Err(
                DecodeError::Malformed {
                    variant: VariantKind::Observation,
                    field: FieldName::HubSn,
                    fault: f,
                },
            );
        },
        Ok(s) => s,
    };
    let firmware_revision = match get_u64_field(v, "firmware_revision") {
        Err(f) => {
            return Err(
                DecodeError::Malformed {
                    variant: VariantKind::Observation,
                    field: FieldName::FirmwareRevision,
                    fault: f,
                },
            );
        },
        Ok(u) => u,
    };
    let obs = match get_obs_field(v) {
        Err(f) => {
            return Err(
                DecodeError::Malformed {
                    variant: VariantKind::Observation,
                    field: FieldName::Obs,
                    fault: f,
                },
            );
        },
        Ok(w) => w,
    };
    Ok(Packet::Observation { serial_number, hub_sn, firmware_revision, obs })
}

fn decode_rapid_wind(v: &serde_json::Value) -> (r: Result<Packet, DecodeError>)
    ensures
        match r {
            Ok(p) => rapid_wind_model(value_data(*v)) == Ok::<PacketData, ErrData>(p@)
                && p.bits_wf(),
            Err(e) => rapid_wind_model(value_data(*v)) == Err::<PacketData, ErrData>(err_data(e)),
        },
{
    let serial_number = match get_str_field(v, "serial_number") {
        Err(f) => {
            return Err(
                DecodeError::Malformed {
                    variant: VariantKind::RapidWind,
                    field: FieldName::SerialNumber,
                    fault: f,
                },
            );
        },
        Ok(s) => s,
    };
    let hub_sn = match get_str_field(v, "hub_sn") {
        Err(f) => {
            return Err(
                DecodeError::Malformed {
                    variant: VariantKind::RapidWind,
                    field: FieldName::HubSn,
                    fault: f,
                },
            );
        },
        Ok(s) => s,
    };
    let ob = match get_rapid_ob(v) {
        Err(f) => {
            return Err(
                DecodeError::Malformed {
                    variant: VariantKind::RapidWind,
                    field: FieldName::Ob,
                    fault: f,
                },
            );
        },
        Ok(ob) => ob,
    };
    Ok(Packet::RapidWind { serial_number, hub_sn, ob })
}

fn decode_rain_start(v: &serde_json::Value) -> (r: Result<Packet, DecodeError>)
    ensures
        match r {
            Ok(p) => rain_start_model(value_data(*v)) == Ok::<PacketData, ErrData>(p@)
                && p.bits_wf(),
            Err(e) => rain_start_model(value_data(*v)) == Err::<PacketData, ErrData>(err_data(e)),
        },
{
    let serial_number = match get_str_field(v, "serial_number") {
        Err(f) => {
            return Err(
                DecodeError::Malformed {
                    variant: VariantKind::EventRainStart,
                    field: FieldName::SerialNumber,
                    fault: f,
                },
            );
        },
        Ok(s) => s,
    };
    let hub_sn = match get_str_field(v, "hub_sn") {
        Err(f) => {
            return Err(
                DecodeError::Malformed {
                    variant: VariantKind::EventRainStart,
                    field: FieldName::HubSn,
                    fault: f,
                },
            );
        },
        Ok(s) => s,
    };
    let e = match get_u64_array_field(v, "evt", 1) {
        Err(f) => {
            return Err(
                DecodeError::Malformed {
                    variant: VariantKind::EventRainStart,
                    field: FieldName::Evt,
                    fault: f,
                },
            );
        },
        Ok(e) => e,
    };
    Ok(Packet::EventRainStart { serial_number, hub_sn, epoch: e[0] })
}

fn decode_lightning(v: &serde_json::Value) -> (r: Result<Packet, DecodeError>)
    ensures
        match r {
            Ok(p) => lightning_model(value_data(*v)) == Ok::<PacketData, ErrData>(p@)
                && p.bits_wf(),
            Err(e) => lightning_model(value_data(*v)) == Err::<PacketData, ErrData>(err_data(e)),
        },
{
    let serial_number = match get_str_field(v, "serial_number") {
        Err(f) => {
            return Err(
                DecodeError::Malformed {
                    variant: VariantKind::EventLightningStrike,
                    field: FieldName::SerialNumber,
                    fault: f,
                },
            );
        },
        Ok(s) => s,
    };
    let hub_sn = match get_str_field(v, "hub_sn") {
        Err(f) => {
            return Err(
                DecodeError::Malformed {
                    variant: VariantKind::EventLightningStrike,
                    field: FieldName::HubSn,
                    fault: f,
                },
            );
        },
        Ok(s) => s,
    };
    let e = match get_u64_array_field(v, "evt", 3) {
        Err(f) => {
            return Err(
                DecodeError::Malformed {
                    variant: VariantKind::EventLightningStrike,
                    field: FieldName::Evt,
                    fault: f,
                },
            );
        },
        Ok(e) => e,
    };
    Ok(
        Packet::EventLightningStrike {
            serial_number,
            hub_sn,
            epoch: e[0],
            distance_km: e[1],
            energy: e[2],
        },
    )
}

fn decode_device_status(v: &serde_json::Value) -> (r: Result<Packet, DecodeError>)
    ensures
        match r {
            Ok(p) => device_status_model(value_data(*v)) == Ok::<PacketData, ErrData>(p@)
                && p.bits_wf(),
            Err(e) => device_status_model(value_data(*v)) == Err::<PacketData, ErrData>(
                err_data(e),
            ),
        },
{
    let serial_number = match get_str_field(v, "serial_number") {
        Err(f) => {
            return Err(
                DecodeError::Malformed {
                    variant: VariantKind::DeviceStatus,
                    field: FieldName::SerialNumber,
                    fault: f,
                },
            );
        },
        Ok(s) => s,
    };
    let hub_sn = match get_str_field(v, "hub_sn") {
        Err(f) => {
            return Err(
                DecodeError::Malformed {
                    variant: VariantKind::DeviceStatus,
                    field: FieldName::HubSn,
                    fault: f,
                },
            );
        },
        Ok(s) => s,
    };
    let timestamp = match get_u64_field(v, "timestamp") {
        Err(f) => {
            return Err(
                DecodeError::Malformed {
                    variant: VariantKind::DeviceStatus,
                    field: FieldName::Timestamp,
                    fault: f,
                },
            );
        },
        Ok(u) => u,
    };
    let uptime = match get_u64_field(v, "uptime") {
        Err(f) => {
            return Err(
                DecodeError::Malformed {
                    variant: VariantKind::DeviceStatus,
                    field: FieldName::Uptime,
                    fault: f,
                },
            );
        },
        Ok(u) => u,
    };
    let voltage = match get_num_field(v, "voltage") {
        Err(f) => {
            return Err(
                DecodeError::Malformed {
                    variant: VariantKind::DeviceStatus,
                    field: FieldName::Voltage,
                    fault: f,
                },
            );
        },
        Ok(w) => w,
    };
    let firmware_revision = match get_u64_field(v, "firmware_revision") {
        Err(f) => {
            return Err(
                DecodeError::Malformed {
                    variant: VariantKind::DeviceStatus,
                    field: FieldName::FirmwareRevision,
                    fault: f,
                },
            );
        },
        Ok(u) => u,
    };
    let rssi = match get_i64_field(v, "rssi") {
        Err(f) => {
            return Err(
                DecodeError::Malformed {
                    variant: VariantKind::DeviceStatus,
                    field: FieldName::Rssi,
                    fault: f,
                },
            );
        },
        Ok(u) => u,
    };
    let hub_rssi = match get_i64_field(v, "hub_rssi") {
        Err(f) => {
            return Err(
                DecodeError::Malformed {
                    variant: VariantKind::DeviceStatus,
                    field: FieldName::HubRssi,
                    fault: f,
                },
            );
        },
        Ok(u) => u,
    };
    let sensor_status = match get_u64_field(v, "sensor_status") {
        Err(f) => {
            return Err(
                DecodeError::Malformed {
                    variant: VariantKind::DeviceStatus,
                    field: FieldName::SensorStatus,
                    fault: f,
                },
            );
        },
        Ok(u) => u,
    };
    let debug = match get_bool_field(v, "debug") {
        Err(f) => {
            return Err(
                DecodeError::Malformed {
                    variant: VariantKind::DeviceStatus,
                    field: FieldName::Debug,
                    fault: f,
                },
            );
        },
        Ok(b) => b,
    };
    Ok(
        Packet::DeviceStatus {
            serial_number,
            hub_sn,
            timestamp,
            uptime,
            voltage,
            firmware_revision,
            rssi,
            hub_rssi,
            sensor_status,
            debug,
        },
    )
}

fn decode_hub_status(v: &serde_json::Value) -> (r: Result<Packet, DecodeError>)
    ensures
        match r {
            Ok(p) => hub_status_model(value_data(*v)) == Ok::<PacketData, ErrData>(p@)
                && p.bits_wf(),
            Err(e) => hub_status_model(value_data(*v)) == Err::<PacketData, ErrData>(err_data(e)),
        },
{
    let serial_number = match get_str_field(v, "serial_number") {
        Err(f) => {
            return Err(
                DecodeError::Malformed {
                    variant: VariantKind::HubStatus,
                    field: FieldName::SerialNumber,
                    fault: f,
                },
            );
        },
        Ok(s) => s,
    };
    let firmware_revision = match get_str_field(v, "firmware_revision") {
        Err(f) => {
            return Err(
                DecodeError::Malformed {
                    variant: VariantKind::HubStatus,
                    field: FieldName::FirmwareRevision,
                    fault: f,
                },
            );
        },
        Ok(s) => s,
    };
    let uptime = match get_u64_field(v, "uptime") {
        Err(f) => {
            return Err(
                DecodeError::Malformed {
                    variant: VariantKind::HubStatus,
                    field: FieldName::Uptime,
                    fault: f,
                },
            );
        },
        Ok(u) => u,
    };
    let rssi = match get_i64_field(v, "rssi") {
        Err(f) => {
            return Err(
                DecodeError::Malformed {
                    variant: VariantKind::HubStatus,
                    field: FieldName::Rssi,
                    fault: f,
                },
            );
        },
        Ok(u) => u,
    };
    let timestamp = match get_u64_field(v, "timestamp") {
        Err(f) => {
            return Err(
                DecodeError::Malformed {
                    variant: VariantKind::HubStatus,
                    field: FieldName::Timestamp,
                    fault: f,
                },
            );
        },
        Ok(u) => u,
    };
    let reset_flags = match get_str_field(v, "reset_flags") {
        Err(f) => {
            return Err(
                DecodeError::Malformed {
                    variant: VariantKind::HubStatus,
                    field: FieldName::ResetFlags,
                    fault: f,
                },
            );
        },
        Ok(s) => s,
    };
    let seq_num = match get_u64_field(v, "seq") {
        Err(f) => {
            return Err(
                DecodeError::Malformed {
                    variant: VariantKind::HubStatus,
                    field: FieldName::SeqNum,
                    fault: f,
                },
            );
        },
        Ok(u) => u,
    };
    let radio_stats = match get_u64_array_field(v, "radio_stats", 5) {
        Err(f) => {
            return Err(
                DecodeError::Malformed {
                    variant: VariantKind::HubStatus,
                    field: FieldName::RadioStats,
                    fault: f,
                },
            );
        },
        Ok(a) => a,
    };
    let mqtt_stats = match get_u64_array_field(v, "mqtt_stats", 2) {
        Err(f) => {
            return Err(
                DecodeError::Malformed {
                    variant: VariantKind::HubStatus,
                    field: FieldName::MqttStats,
                    fault: f,
                },
            );
        },
        Ok(a) => a,
    };
    Ok(
        Packet::HubStatus {
            serial_number,
            firmware_revision,
            uptime,
            rssi,
            timestamp,
            reset_flags,
            seq_num,
            radio_stats,
            mqtt_stats,
        },
    )
}

/// Decode one datagram. Pure: the outcome is exactly [`decode_model`] of
/// the bytes, and on success the stored narrowed bits agree with the
/// packet's wire numbers.
pub fn decode(bytes: &[u8]) -> (r: Result<Packet, DecodeError>)
    ensures
        match r {
            Ok(p) => decode_model(bytes@) == Ok::<PacketData, ErrData>(p@) && p.bits_wf(),
            Err(e) => decode_model(bytes@) == Err::<PacketData, ErrData>(err_data(e)),
        },
{
    let v = match parse_value(bytes) {
        Err(detail) => {
            return Err(DecodeError::Unparseable { detail });
        },
        Ok(v) => v,
    };
    let tag: String = match obj_get(&v, "type") {
        None => {
            return Ok(Packet::Unrecognized);
        },
        Some(t) => match value_str(t) {
            None => {
                return Ok(Packet::Unrecognized);
            },
            Some(s) => s.to_owned(),
        },
    };
    if tag == "obs_st".to_owned() {
        decode_observation(&v)
    } else if tag == "rapid_wind".to_owned() {
        decode_rapid_wind(&v)
    } else if tag == "evt_precip".to_owned() {
        decode_rain_start(&v)
    } else if tag == "evt_strike".to_owned() {
        decode_lightning(&v)
    } else if tag == "device_status".to_owned() {
        decode_device_status(&v)
    } else if tag == "hub_status".to_owned() {
        decode_hub_status(&v)
    } else {
        Ok(Packet::Unrecognized)
    }
}

} // verus!
