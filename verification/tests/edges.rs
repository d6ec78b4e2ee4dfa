//! Edge cases: extreme wire numbers through the full pipeline, in-array
//! shape faults, and the presentation unit tags.
use tempest::normalize::normalize;
use tempest::packet::{decode, DecodeError, FieldFault, FieldName, VariantKind};
use tempest::units::{SpeedUnit, TempUnit};

fn observation_with_epoch(epoch: &str) -> Vec<u8> {
    format!(
        r#"{{"type":"obs_st","serial_number":"ST-1","hub_sn":"HB-1","firmware_revision":1,"obs":[[{},0.0,2.6,4.6,187,3,1017.57,22.37,50.26,328,0.03,3,0.0,0,0,0,2.410,1]]}}"#,
        epoch
    )
    .into_bytes()
}

#[test]
fn epoch_before_the_epoch_is_kept_signed() {
    let packet = decode(&observation_with_epoch("-1588186800")).expect("decodes");
    let weather = normalize(&packet).expect("yields a record");
    assert_eq!(weather.time_epoch, -1_588_186_800);
}

#[test]
fn huge_epoch_saturates_like_a_cast() {
    let packet = decode(&observation_with_epoch("18446744073709551615")).expect("decodes");
    let weather = normalize(&packet).expect("yields a record");
    assert_eq!(weather.time_epoch, (18446744073709551615u64 as f64) as i64);
    assert_eq!(weather.time_epoch, i64::MAX);
}

#[test]
fn fractional_epoch_truncates_toward_zero() {
    let packet = decode(&observation_with_epoch("1588186800.9")).expect("decodes");
    let weather = normalize(&packet).expect("yields a record");
    assert_eq!(weather.time_epoch, 1_588_186_800);
}

#[test]
fn out_of_range_wind_direction_saturates() {
    // Slot four is the wind direction; 70000 exceeds the 16-bit field.
    let bytes = br#"{"type":"obs_st","serial_number":"ST-1","hub_sn":"HB-1","firmware_revision":1,"obs":[[1588186800,0.0,2.6,4.6,70000,3,1017.57,22.37,50.26,328,0.03,3,0.0,0,0,0,2.410,1]]}"#;
    let packet = decode(bytes).expect("decodes");
    let weather = normalize(&packet).expect("yields a record");
    assert_eq!(weather.wind_direction, 70000.0f64 as u16);
    assert_eq!(weather.wind_direction, u16::MAX);
}

#[test]
fn non_numeric_report_slot_is_malformed() {
    let bytes = br#"{"type":"obs_st","serial_number":"ST-1","hub_sn":"HB-1","firmware_revision":1,"obs":[[1588186800,"calm",2.6,4.6,187,3,1017.57,22.37,50.26,328,0.03,3,0.0,0,0,0,2.410,1]]}"#;
    let err = decode(bytes).expect_err("a stringly slot is malformed");
    assert_eq!(
        err,
        DecodeError::Malformed {
            variant: VariantKind::Observation,
            field: FieldName::Obs,
            fault: FieldFault::WrongShape,
        }
    );
}

#[test]
fn report_nested_one_level_too_shallow_is_malformed() {
    // The report must be an array of one array, not the bare slots.
    let bytes = br#"{"type":"obs_st","serial_number":"ST-1","hub_sn":"HB-1","firmware_revision":1,"obs":[1588186800,0.0,2.6,4.6,187,3,1017.57,22.37,50.26,328,0.03,3,0.0,0,0,0,2.410,1]}"#;
    let err = decode(bytes).expect_err("bare slots are malformed");
    assert_eq!(
        err,
        DecodeError::Malformed {
            variant: VariantKind::Observation,
            field: FieldName::Obs,
            fault: FieldFault::WrongLength { expected: 1, found: 18 },
        }
    );
}

#[test]
fn duration_splits_into_parts() {
    assert_eq!(tempest::units::duration_parts(0), (0, 0, 0));
    assert_eq!(tempest::units::duration_parts(59), (0, 0, 59));
    assert_eq!(tempest::units::duration_parts(3600), (1, 0, 0));
    assert_eq!(tempest::units::duration_parts(3723), (1, 2, 3));
    assert_eq!(tempest::units::duration_parts(86400), (24, 0, 0));
}

#[test]
fn unit_tags_have_their_symbols() {
    assert_eq!(TempUnit::C.label(), "C");
    assert_eq!(TempUnit::F.label(), "F");
    assert_eq!(SpeedUnit::MetersPerSecond.label(), "m/s");
    assert_eq!(SpeedUnit::MilesPerHour.label(), "mph");
}
