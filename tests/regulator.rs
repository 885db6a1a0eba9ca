use slakkotron::tps55289::{
    iout_limit_code, iout_limit_register, vout_fs_register, vref_register, MODE_DISCHG, MODE_OE,
};
use slakkotron::{
    IntFB, Milliamps, Millivolts, Nanovolts, OperatingStatus, OutputMode, RegulatorTarget,
    Settings, Status, VRef,
};

#[test]
fn concrete_scenario_default_settings() {
    let settings = Settings { vout_mv: Millivolts(9000), iout_ma: Milliamps(500), backoff_ms: 500 };
    assert_eq!(settings, Settings::default());
    let target = RegulatorTarget::from_settings(&settings).unwrap();
    assert_eq!(target.vref, VRef(819));
    assert_eq!(target.iout_limit, 20);
    assert_eq!(target.backoff_ms, 500);
}

#[test]
fn from_feedback_keeps_sub_millivolt_precision() {
    // 9000 mV * 0.0564 = 507.6 mV = 507_600_000 nV; (507_600_000 - 45_000_000) / 564_500 = 819
    assert_eq!(VRef::from_feedback(Millivolts(9000), IntFB::Ratio0_0564), VRef(819));
    assert_eq!(VRef::from_nanovolts(Nanovolts(507_600_000)), VRef(819));
}

#[test]
fn vref_round_trip_every_code() {
    for code in 0u16..2048 {
        let nv = VRef(code).into_nanovolts();
        assert_eq!(VRef::from_nanovolts(nv), VRef(code));
    }
}

#[test]
fn vref_into_nanovolts_formula() {
    assert_eq!(VRef(0).into_nanovolts(), Nanovolts(45_000_000));
    assert_eq!(VRef(819).into_nanovolts(), Nanovolts(45_000_000 + 564_500 * 819));
    assert_eq!(VRef(2047).into_nanovolts(), Nanovolts(1_200_531_500));
}

#[test]
fn vref_quantization_within_one_code_for_all_ratios() {
    let ratios = [IntFB::Ratio0_2256, IntFB::Ratio0_1128, IntFB::Ratio0_0752, IntFB::Ratio0_0564];
    for fb in ratios {
        for mv in [2000u16, 5000, 9000, 12000, 15000] {
            let nv = mv as u64 * fb.ratio() as u64 * 100;
            if nv < 45_000_000 || nv > u32::MAX as u64 {
                continue;
            }
            let code = VRef::from_feedback(Millivolts(mv), fb).0 as u64;
            assert!(45_000_000 + 564_500 * code <= nv);
            assert!(nv < 45_000_000 + 564_500 * (code + 1));
        }
    }
}

#[test]
fn multiply_rounds_down() {
    assert_eq!(IntFB::Ratio0_0564.multiply(9000), 507);
    assert_eq!(IntFB::Ratio0_2256.multiply(10_000), 2256);
    assert_eq!(IntFB::Ratio0_1128.multiply(1), 0);
    assert_eq!(IntFB::Ratio0_0752.multiply(5000), 376);
}

#[test]
fn current_limit_clamps() {
    assert_eq!(iout_limit_code(Milliamps(0)), 0);
    assert_eq!(iout_limit_code(Milliamps(24)), 0);
    assert_eq!(iout_limit_code(Milliamps(25)), 1);
    assert_eq!(iout_limit_code(Milliamps(500)), 20);
    assert_eq!(iout_limit_code(Milliamps(3175)), 127);
    assert_eq!(iout_limit_code(Milliamps(3200)), 127);
    assert_eq!(iout_limit_code(Milliamps(u16::MAX)), 127);
    for ma in 0..=u16::MAX {
        assert!(iout_limit_code(Milliamps(ma)) < 128);
    }
}

#[test]
fn settings_out_of_range_are_refused() {
    let low = Settings { vout_mv: Millivolts(500), iout_ma: Milliamps(500), backoff_ms: 500 };
    assert_eq!(RegulatorTarget::from_settings(&low), None);
    let high = Settings { vout_mv: Millivolts(30000), iout_ma: Milliamps(500), backoff_ms: 500 };
    assert_eq!(RegulatorTarget::from_settings(&high), None);
    let ok = Settings { vout_mv: Millivolts(20000), iout_ma: Milliamps(4000), backoff_ms: 7 };
    let t = RegulatorTarget::from_settings(&ok).unwrap();
    // (20000 * 56400 - 45_000_000) / 564_500 = 1918
    assert_eq!(t.vref, VRef(1918));
    assert_eq!(t.iout_limit, 127);
    assert_eq!(t.backoff_ms, 7);
}

#[test]
fn mode_register_values() {
    assert_eq!(OutputMode::SafeIdle.apply(0x00), MODE_DISCHG);
    assert_eq!(OutputMode::Active.apply(0x00), MODE_OE);
    assert_eq!(OutputMode::Active.apply(0xff), 0xef);
    assert_eq!(OutputMode::SafeIdle.apply(0xff), 0x7f);
    for v in 0..=255u8 {
        assert_eq!(OutputMode::SafeIdle.apply(v) & 0x90, 0x10);
        assert_eq!(OutputMode::Active.apply(v) & 0x90, 0x80);
    }
}

#[test]
fn status_decoding() {
    let s = Status::from_register(0b0100_0001);
    assert_eq!(s, Status { status: 1, ovp: false, ocp: true, scp: false });
    assert!(s.is_overcurrent());
    assert_eq!(s.operating_status(), Some(OperatingStatus::Buck));
    let s = Status::from_register(0b1000_0010);
    assert!(s.scp && s.is_overcurrent());
    assert_eq!(s.operating_status(), Some(OperatingStatus::BuckBoost));
    let s = Status::from_register(0b0010_0000);
    assert!(!s.is_overcurrent());
    assert!(s.is_protection_event());
    assert_eq!(s.operating_status(), Some(OperatingStatus::Boost));
    assert_eq!(Status::from_register(0x03).operating_status(), None);
    assert!(!Status::from_register(0x03).is_protection_event());
}

#[test]
fn register_encodings() {
    assert_eq!(vout_fs_register(0x80, IntFB::Ratio0_0564), 0x83);
    assert_eq!(vout_fs_register(0x83, IntFB::Ratio0_2256), 0x80);
    assert_eq!(iout_limit_register(0x80, 20), 0x94);
    assert_eq!(iout_limit_register(0x7f, 5), 0x05);
    assert_eq!(vref_register(VRef(819)), [0x33, 0x03]);
    assert_eq!(vref_register(VRef(2047)), [0xff, 0x07]);
}

#[test]
fn millivolts_from_nanovolts_truncates() {
    assert_eq!(Millivolts::from(Nanovolts(507_600_000)), Millivolts(507));
    assert_eq!(Millivolts::from(Nanovolts(999_999)), Millivolts(0));
}
