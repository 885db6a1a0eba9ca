use slakkotron::executor::SleepStats;
use slakkotron::net::{Event, Events, Topic};
use slakkotron::record::{Data, Record, SYNC_PERIOD_MS};
use slakkotron::serial::SerialNumber;
use slakkotron::stats::{factor_high, factor_vprog};
use slakkotron::storage::{KeyError, Marker, StorageEntry, StorageKey};
use slakkotron::transport::{check_transfer, write_frame, TransportError};
use slakkotron::{Milliamps, Millivolts, Settings, SettingsBuilder};

#[test]
fn settings_integrate_partial_update() {
    let mut s = Settings::default();
    s.integrate(SettingsBuilder { vout_mv: Some(Millivolts(12000)), iout_ma: None, backoff_ms: None });
    assert_eq!(s, Settings { vout_mv: Millivolts(12000), iout_ma: Milliamps(500), backoff_ms: 500 });
    s.integrate(SettingsBuilder { vout_mv: None, iout_ma: Some(Milliamps(1500)), backoff_ms: Some(10) });
    assert_eq!(s, Settings { vout_mv: Millivolts(12000), iout_ma: Milliamps(1500), backoff_ms: 10 });
    let before = s;
    s.integrate(SettingsBuilder { vout_mv: None, iout_ma: None, backoff_ms: None });
    assert_eq!(s, before);
}

#[test]
fn topic_names() {
    assert_eq!(Topic::Stats.to_str(), "slakkotron/stats");
    assert_eq!(Topic::Record.to_str(), "slakkotron/record");
    assert_eq!(Topic::Config.to_str(), "slakkotron/config");
    assert_eq!(Topic::try_parse("slakkotron/config"), Ok(Topic::Config));
    assert_eq!(Topic::try_parse("slakkotron/stats"), Err(()));
    assert_eq!(Topic::try_parse("slakkotron/confi"), Err(()));
    assert_eq!(Topic::try_parse(""), Err(()));
    assert_ne!(Event::ConnectedWifi, Event::ConnectedMQTT);
}

#[test]
fn adc_scaling() {
    assert_eq!(factor_vprog(1500), Millivolts(3000));
    assert_eq!(factor_vprog(0), Millivolts(0));
    assert_eq!(factor_high(1000), Millivolts(9870));
    assert_eq!(factor_high(3), Millivolts(29));
    // 7000 * 987 / 100 = 69090, which keeps its low 16 bits.
    assert_eq!(factor_high(7000), Millivolts(3554));
}

#[test]
fn record_counts_episodes_and_schedules_once() {
    let mut r = Record::new(Data::default());
    assert!(r.log_overcurrent(3, 1_000));
    assert_eq!(r.sync_at, Some(1_000 + SYNC_PERIOD_MS));
    assert!(!r.log_overcurrent(4, 2_000));
    assert_eq!(r.sync_at, Some(1_000 + SYNC_PERIOD_MS));
    assert_eq!(r.data, Data { overcurrent_count: 2, overcurrent_secs: 7 });
    assert_eq!(r.take_sync(), Data { overcurrent_count: 2, overcurrent_secs: 7 });
    assert_eq!(r.sync_at, None);
    assert!(r.log_overcurrent(0, 5_000));
}

#[test]
fn sleep_permille() {
    let s = SleepStats::current_restart(250, 1_000, 2_000);
    assert_eq!(s.as_permille(), 250);
    let s = SleepStats::current_restart(1, 0, 3);
    assert_eq!(s.as_permille(), 333);
    let s = SleepStats::current_restart(0, 5, 6);
    assert_eq!(s.as_permille(), 0);
}

#[test]
fn serial_number_hex() {
    let sn = SerialNumber([0x00, 0x1a, 0xff, 0x09, 0xa0, 0x7b]);
    assert_eq!(sn.to_hex(), "001aff09a07b");
}

#[test]
fn storage_keys() {
    let mut buf = [0u8; 4];
    assert_eq!(StorageKey::RecordData.serialize_into(&mut buf), Ok(1));
    assert_eq!(buf, [2, 0, 0, 0]);
    let mut empty: [u8; 0] = [];
    assert_eq!(StorageKey::Marker.serialize_into(&mut empty), Err(KeyError::BufferTooSmall));
    assert_eq!(StorageKey::deserialize_from(&buf), Ok((StorageKey::RecordData, 1)));
    assert_eq!(StorageKey::deserialize_from(&[]), Err(KeyError::InvalidFormat));
    assert_eq!(StorageKey::deserialize_from(&[9]), Err(KeyError::InvalidData));
    for k in [StorageKey::Marker, StorageKey::RecordData, StorageKey::ConfigSettings] {
        assert_eq!(StorageKey::from_byte(k.to_byte()), Some(k));
    }
}

#[test]
fn transport_framing() {
    assert_eq!(write_frame(0x85, &[1, 2, 3, 4], 9), Ok(vec![0x85, 1, 2, 3, 4]));
    assert_eq!(write_frame(0x00, &[0x33, 0x03], 5), Ok(vec![0x00, 0x33, 0x03]));
    assert_eq!(write_frame(0x53, &[0; 8], 9).map(|v| v.len()), Ok(9));
    assert_eq!(write_frame(0x53, &[0; 9], 9), Err(TransportError::TooLarge));
    assert_eq!(check_transfer(8, 8), Ok(()));
    assert_eq!(check_transfer(8, 7), Err(TransportError::ShortTransfer));
}

#[test]
fn republish_after_broker_connection() {
    assert!(Events::republish_on(Event::ConnectedMQTT));
    assert!(!Events::republish_on(Event::ConnectedWifi));
}

#[test]
fn storage_entries_have_distinct_keys() {
    assert_eq!(Marker::key(), StorageKey::Marker);
    assert_eq!(Data::key(), StorageKey::RecordData);
    assert_eq!(Settings::key(), StorageKey::ConfigSettings);
}
