//! End-to-end scenarios through decode, normalize, and the loop decisions.
use tempest::ingest::{
    phase_after_outcome, phase_after_storage, phase_on_event, run_iteration, IterationOutcome,
    LoopPhase, StorageError, TransportEvent,
};
use tempest::normalize::normalize;
use tempest::packet::{decode, DecodeError, Packet};
use tempest::weather::PrecipitationType;

fn observation_datagram() -> Vec<u8> {
    br#"{"type":"obs_st","serial_number":"ST-00000512","hub_sn":"HB-00013030","firmware_revision":129,"obs":[[1588186800,0.0,2.6,4.6,187,3,1017.57,22.37,50.26,328,0.03,3,0.0,0,0,0,2.410,1]]}"#
        .to_vec()
}

#[test]
fn observation_normalizes_to_record() {
    let bytes = observation_datagram();
    let packet = decode(&bytes).expect("a valid observation datagram decodes");
    let weather = normalize(&packet).expect("an observation yields a record");

    assert_eq!(weather.time_epoch, 1_588_186_800);
    assert_eq!(weather.wind_lull.bits, 0.0f32.to_bits());
    assert_eq!(weather.wind_avg.bits, 2.6f32.to_bits());
    assert_eq!(weather.wind_gust.bits, 4.6f32.to_bits());
    assert_eq!(weather.wind_direction, 187);
    assert_eq!(weather.wind_sample_interval, 3);
    assert_eq!(weather.station_pressure.bits, 1017.57f32.to_bits());
    assert_eq!(weather.air_temp.bits, 22.37f32.to_bits());
    assert_eq!(weather.relative_humidity.bits, 50.26f32.to_bits());
    assert_eq!(weather.illuminance, 328);
    assert_eq!(weather.uv_index.bits, 0.03f32.to_bits());
    assert_eq!(weather.solar_radiation, 3);
    assert_eq!(weather.rain_over_prev_minute.bits, 0.0f32.to_bits());
    assert_eq!(weather.precip_type, PrecipitationType::NoPrecipitation);
    assert_eq!(weather.lightning_avg_distance, 0);
    assert_eq!(weather.lightning_strike_count, 0);
    assert_eq!(weather.battery_voltage.bits, 2.410f32.to_bits());
    assert_eq!(weather.report_interval, 1);
}

#[test]
fn observation_narrowing_matches_double_rounding() {
    // The narrowed single-width patterns must equal what narrowing the
    // wire's double values yields, bit for bit.
    let bytes = observation_datagram();
    let packet = decode(&bytes).expect("decodes");
    let weather = normalize(&packet).expect("yields a record");
    assert_eq!(weather.wind_avg.bits, (2.6f64 as f32).to_bits());
    assert_eq!(weather.station_pressure.bits, (1017.57f64 as f32).to_bits());
    assert_eq!(weather.battery_voltage.bits, (2.410f64 as f32).to_bits());
}

#[test]
fn rapid_wind_yields_no_record() {
    let bytes = br#"{"type":"rapid_wind","serial_number":"ST-00000512","hub_sn":"HB-00013030","ob":[1588948614,2.3,170]}"#;
    let packet = decode(bytes).expect("a valid rapid-wind datagram decodes");
    match &packet {
        Packet::RapidWind { ob, .. } => {
            assert_eq!(ob.epoch, 1_588_948_614);
            assert_eq!(ob.speed.bits, 2.3f64.to_bits());
            assert_eq!(ob.speed.bits32, 2.3f32.to_bits());
            assert_eq!(ob.direction, 170);
        }
        other => panic!("expected a rapid-wind packet, got {:?}", other),
    }
    assert!(normalize(&packet).is_none());
}

#[test]
fn garbled_bytes_then_valid_datagram() {
    let garbled: Vec<u8> = vec![0x00, 0xfe, 0x12, b'{', b'"', 0xff, 0x07];
    match decode(&garbled) {
        Err(DecodeError::Unparseable { .. }) => {}
        other => panic!("expected an unparseable error, got {:?}", other),
    }
    // The loop carries on: the next, valid datagram still decodes.
    let outcome = run_iteration(TransportEvent::Datagram(garbled));
    assert!(matches!(outcome, IterationOutcome::Rejected { .. }));
    assert_eq!(phase_after_outcome(&outcome), LoopPhase::Listening);
    let next = run_iteration(TransportEvent::Datagram(observation_datagram()));
    match next {
        IterationOutcome::Record { record, .. } => {
            assert_eq!(record.time_epoch, 1_588_186_800);
        }
        other => panic!("expected a record outcome, got {:?}", other),
    }
}

#[test]
fn failing_storage_sink_never_stops_the_loop() {
    // A sink that always fails: a thousand valid datagrams still flow
    // through decode and normalize, and after every failed insert the
    // loop is back to listening.
    let mut processed: u32 = 0;
    for _ in 0..1000 {
        let event = TransportEvent::Datagram(observation_datagram());
        assert_eq!(phase_on_event(&event), LoopPhase::Processing);
        let outcome = run_iteration(event);
        match outcome {
            IterationOutcome::Record { .. } => {
                let sink_result: Result<(), StorageError> = Err(StorageError {
                    detail: String::from("sink unavailable"),
                });
                assert_eq!(phase_after_storage(&sink_result), LoopPhase::Listening);
                processed += 1;
            }
            other => panic!("expected a record outcome, got {:?}", other),
        }
    }
    assert_eq!(processed, 1000);
}

#[test]
fn transport_failure_is_reported_and_survived() {
    let outcome = run_iteration(TransportEvent::RecvFailure(String::from("connection reset")));
    match &outcome {
        IterationOutcome::TransportFault { detail } => assert_eq!(detail, "connection reset"),
        other => panic!("expected a transport fault, got {:?}", other),
    }
    assert_eq!(phase_after_outcome(&outcome), LoopPhase::Listening);
}

#[test]
fn unknown_discriminator_is_ignored_outcome() {
    let bytes = br#"{"type":"light_debug","serial_number":"ST-1"}"#.to_vec();
    let outcome = run_iteration(TransportEvent::Datagram(bytes));
    match outcome {
        IterationOutcome::Ignored { packet } => assert!(matches!(packet, Packet::Unrecognized)),
        other => panic!("expected an ignored outcome, got {:?}", other),
    }
}
