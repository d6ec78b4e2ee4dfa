//! Decoding each message kind, and each way a datagram can be rejected.
use tempest::normalize::normalize;
use tempest::packet::{decode, DecodeError, FieldFault, FieldName, Packet, VariantKind};

#[test]
fn rain_start_decodes() {
    let bytes = br#"{"type":"evt_precip","serial_number":"SK-00008453","hub_sn":"HB-00000001","evt":[1493322445]}"#;
    let packet = decode(bytes).expect("decodes");
    match &packet {
        Packet::EventRainStart { serial_number, hub_sn, epoch } => {
            assert_eq!(serial_number, "SK-00008453");
            assert_eq!(hub_sn, "HB-00000001");
            assert_eq!(*epoch, 1_493_322_445);
        }
        other => panic!("expected a rain-start packet, got {:?}", other),
    }
    assert!(normalize(&packet).is_none());
}

#[test]
fn lightning_strike_decodes() {
    let bytes = br#"{"type":"evt_strike","serial_number":"AR-00004049","hub_sn":"HB-00000001","evt":[1493322445,27,3848]}"#;
    let packet = decode(bytes).expect("decodes");
    match &packet {
        Packet::EventLightningStrike { epoch, distance_km, energy, .. } => {
            assert_eq!(*epoch, 1_493_322_445);
            assert_eq!(*distance_km, 27);
            assert_eq!(*energy, 3848);
        }
        other => panic!("expected a lightning packet, got {:?}", other),
    }
    assert!(normalize(&packet).is_none());
}

#[test]
fn device_status_decodes() {
    let bytes = br#"{"type":"device_status","serial_number":"AR-00004049","hub_sn":"HB-00000001","timestamp":1510855923,"uptime":2189,"voltage":3.50,"firmware_revision":17,"rssi":-17,"hub_rssi":-87,"sensor_status":0,"debug":1}"#;
    let packet = decode(bytes).expect("decodes");
    match &packet {
        Packet::DeviceStatus { timestamp, uptime, voltage, rssi, hub_rssi, debug, .. } => {
            assert_eq!(*timestamp, 1_510_855_923);
            assert_eq!(*uptime, 2189);
            assert_eq!(voltage.bits, 3.50f64.to_bits());
            assert_eq!(voltage.bits32, 3.50f32.to_bits());
            assert_eq!(*rssi, -17);
            assert_eq!(*hub_rssi, -87);
            assert!(*debug);
        }
        other => panic!("expected a device-status packet, got {:?}", other),
    }
    assert!(normalize(&packet).is_none());
}

#[test]
fn hub_status_decodes() {
    let bytes = br#"{"type":"hub_status","serial_number":"HB-00000001","firmware_revision":"35","uptime":1670133,"rssi":-62,"timestamp":1495724691,"reset_flags":"BOR,PIN,POR","seq":48,"fs":[1,0],"radio_stats":[2,1,2,3,2839],"mqtt_stats":[1,0]}"#;
    let packet = decode(bytes).expect("decodes");
    match &packet {
        Packet::HubStatus { firmware_revision, reset_flags, seq_num, radio_stats, mqtt_stats, .. } => {
            assert_eq!(firmware_revision, "35");
            assert_eq!(reset_flags, "BOR,PIN,POR");
            assert_eq!(*seq_num, 48);
            assert_eq!(radio_stats, &vec![2, 1, 2, 3, 2839]);
            assert_eq!(mqtt_stats, &vec![1, 0]);
        }
        other => panic!("expected a hub-status packet, got {:?}", other),
    }
    assert!(normalize(&packet).is_none());
}

#[test]
fn absent_discriminator_is_unrecognized() {
    let packet = decode(br#"{"serial_number":"ST-1","obs":[[1]]}"#).expect("decodes");
    assert!(matches!(packet, Packet::Unrecognized));
    assert!(normalize(&packet).is_none());
}

#[test]
fn unknown_discriminator_is_unrecognized() {
    let packet = decode(br#"{"type":"obs_sky","serial_number":"SK-1"}"#).expect("decodes");
    assert!(matches!(packet, Packet::Unrecognized));
}

#[test]
fn non_object_value_is_unrecognized() {
    let packet = decode(br#"[1588186800,0.0,2.6]"#).expect("decodes");
    assert!(matches!(packet, Packet::Unrecognized));
    let packet = decode(br#""obs_st""#).expect("decodes");
    assert!(matches!(packet, Packet::Unrecognized));
}

#[test]
fn non_string_discriminator_is_unrecognized() {
    let packet = decode(br#"{"type":7,"serial_number":"ST-1"}"#).expect("decodes");
    assert!(matches!(packet, Packet::Unrecognized));
}

#[test]
fn empty_and_truncated_buffers_are_unparseable() {
    assert!(matches!(decode(b""), Err(DecodeError::Unparseable { .. })));
    assert!(matches!(
        decode(br#"{"type":"obs_st","obs":[["#),
        Err(DecodeError::Unparseable { .. })
    ));
}

#[test]
fn missing_field_is_malformed() {
    let err = decode(br#"{"type":"obs_st","hub_sn":"HB-1","firmware_revision":1,"obs":[[1,2,3,4,5,6,7,8,9,10,11,12,13,14,15,16,17,18]]}"#)
        .expect_err("a missing serial number is malformed");
    assert_eq!(
        err,
        DecodeError::Malformed {
            variant: VariantKind::Observation,
            field: FieldName::SerialNumber,
            fault: FieldFault::Missing,
        }
    );
}

#[test]
fn wrong_field_shape_is_malformed() {
    let err = decode(br#"{"type":"obs_st","serial_number":"ST-1","hub_sn":"HB-1","firmware_revision":"newest","obs":[[1,2,3,4,5,6,7,8,9,10,11,12,13,14,15,16,17,18]]}"#)
        .expect_err("a stringly firmware revision is malformed");
    assert_eq!(
        err,
        DecodeError::Malformed {
            variant: VariantKind::Observation,
            field: FieldName::FirmwareRevision,
            fault: FieldFault::WrongShape,
        }
    );
}

#[test]
fn wrong_report_arity_is_malformed() {
    let err = decode(br#"{"type":"obs_st","serial_number":"ST-1","hub_sn":"HB-1","firmware_revision":1,"obs":[[1,2,3,4,5,6,7,8,9,10,11,12,13,14,15,16,17]]}"#)
        .expect_err("seventeen slots are not a report");
    assert_eq!(
        err,
        DecodeError::Malformed {
            variant: VariantKind::Observation,
            field: FieldName::Obs,
            fault: FieldFault::WrongLength { expected: 18, found: 17 },
        }
    );
    let err = decode(br#"{"type":"evt_strike","serial_number":"AR-1","hub_sn":"HB-1","evt":[1493322445,27]}"#)
        .expect_err("two slots are not a strike event");
    assert_eq!(
        err,
        DecodeError::Malformed {
            variant: VariantKind::EventLightningStrike,
            field: FieldName::Evt,
            fault: FieldFault::WrongLength { expected: 3, found: 2 },
        }
    );
}

#[test]
fn boolean_field_out_of_domain_is_malformed() {
    let err = decode(br#"{"type":"device_status","serial_number":"AR-00004049","hub_sn":"HB-00000001","timestamp":1510855923,"uptime":2189,"voltage":3.50,"firmware_revision":17,"rssi":-17,"hub_rssi":-87,"sensor_status":0,"debug":2}"#)
        .expect_err("an integer-coded boolean of two is malformed");
    assert_eq!(
        err,
        DecodeError::Malformed {
            variant: VariantKind::DeviceStatus,
            field: FieldName::Debug,
            fault: FieldFault::NotZeroOrOne { found: 2 },
        }
    );
}

#[test]
fn negative_or_fractional_unsigned_field_is_malformed() {
    let err = decode(br#"{"type":"device_status","serial_number":"AR-1","hub_sn":"HB-1","timestamp":-3,"uptime":2189,"voltage":3.50,"firmware_revision":17,"rssi":-17,"hub_rssi":-87,"sensor_status":0,"debug":0}"#)
        .expect_err("a negative timestamp is malformed");
    assert_eq!(
        err,
        DecodeError::Malformed {
            variant: VariantKind::DeviceStatus,
            field: FieldName::Timestamp,
            fault: FieldFault::WrongShape,
        }
    );
    let err = decode(br#"{"type":"hub_status","serial_number":"HB-1","firmware_revision":"35","uptime":1.5,"rssi":-62,"timestamp":1495724691,"reset_flags":"BOR","seq":48,"radio_stats":[2,1,2,3,2839],"mqtt_stats":[1,0]}"#)
        .expect_err("a fractional uptime is malformed");
    assert_eq!(
        err,
        DecodeError::Malformed {
            variant: VariantKind::HubStatus,
            field: FieldName::Uptime,
            fault: FieldFault::WrongShape,
        }
    );
}

#[test]
fn rapid_wind_tuple_shape_is_checked() {
    let err = decode(br#"{"type":"rapid_wind","serial_number":"ST-1","hub_sn":"HB-1","ob":[1588948614,"fast",170]}"#)
        .expect_err("a stringly speed is malformed");
    assert_eq!(
        err,
        DecodeError::Malformed {
            variant: VariantKind::RapidWind,
            field: FieldName::Ob,
            fault: FieldFault::WrongShape,
        }
    );
}
