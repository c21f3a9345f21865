use std::time::Duration;

use lib60870::error::ConfigError;
use lib60870::types::{
    ApciParameters, AppLayerParameters, CauseOfTransmission, CommonAddress, Cp16Time2a,
    Cp24Time2a, Cp56Time2a, DoublePointValue, LinkLayerParameters, OriginatorAddress,
    QualityDescriptor, TypeId,
};

// --- APCI parameters ---

#[test]
fn default_is_valid() {
    let params = ApciParameters::default();
    assert_eq!(params.k(), 12);
    assert_eq!(params.w(), 8);
    assert!(params.t2() < params.t1());
}

#[test]
fn builder_defaults() {
    let params = ApciParameters::builder().build().unwrap();
    assert_eq!(params, ApciParameters::default());
}

#[test]
fn apci_params_builder_custom() {
    let params = ApciParameters::builder()
        .k(20)
        .w(10)
        .t1(Duration::from_secs(20))
        .t2(Duration::from_secs(12))
        .build()
        .unwrap();
    assert_eq!(params.k(), 20);
    assert_eq!(params.w(), 10);
}

#[test]
fn rejects_k_zero() {
    assert!(ApciParameters::builder().k(0).build().is_err());
}

#[test]
fn rejects_k_too_large() {
    assert!(ApciParameters::builder().k(32768).build().is_err());
}

#[test]
fn rejects_w_zero() {
    assert!(ApciParameters::builder().w(0).build().is_err());
}

#[test]
fn rejects_w_greater_than_k() {
    assert!(ApciParameters::builder().k(10).w(11).build().is_err());
}

#[test]
fn rejects_t2_ge_t1() {
    assert!(ApciParameters::builder()
        .t1(Duration::from_secs(10))
        .t2(Duration::from_secs(10))
        .build()
        .is_err());

    assert!(ApciParameters::builder()
        .t1(Duration::from_secs(10))
        .t2(Duration::from_secs(15))
        .build()
        .is_err());
}

#[test]
fn rejects_zero_timeouts() {
    assert!(ApciParameters::builder().t0(Duration::ZERO).build().is_err());
    assert!(ApciParameters::builder().t1(Duration::ZERO).build().is_err());
    assert!(ApciParameters::builder().t3(Duration::ZERO).build().is_err());
}

#[test]
fn apci_errors_come_in_order() {
    assert_eq!(ApciParameters::builder().k(0).w(0).build().unwrap_err(), ConfigError::InvalidK(0));
    assert_eq!(ApciParameters::builder().w(0).build().unwrap_err(), ConfigError::InvalidW(0));
    assert_eq!(
        ApciParameters::builder().k(10).w(11).build().unwrap_err(),
        ConfigError::WExceedsK { w: 11, k: 10 }
    );
    assert_eq!(
        ApciParameters::builder().t2(Duration::ZERO).build().unwrap_err(),
        ConfigError::ZeroTimeout("t2")
    );
    assert_eq!(
        ApciParameters::builder()
            .t1(Duration::from_secs(10))
            .t2(Duration::from_secs(15))
            .build()
            .unwrap_err(),
        ConfigError::T2NotLessThanT1 { t2: Duration::from_secs(15), t1: Duration::from_secs(10) }
    );
}

// --- Application layer parameters ---

#[test]
fn defaults_match_cs104() {
    let params = AppLayerParameters::builder().build().unwrap();
    assert_eq!(params, AppLayerParameters::cs104_default());
}

#[test]
fn app_layer_params_builder_custom() {
    let params = AppLayerParameters::builder()
        .size_of_cot(1)
        .size_of_ca(1)
        .size_of_ioa(2)
        .max_asdu_length(254)
        .build()
        .unwrap();
    assert_eq!(params.size_of_cot(), 1);
    assert_eq!(params.size_of_ca(), 1);
    assert_eq!(params.size_of_ioa(), 2);
}

#[test]
fn rejects_invalid_cot_size() {
    assert!(AppLayerParameters::builder().size_of_cot(0).build().is_err());
    assert!(AppLayerParameters::builder().size_of_cot(3).build().is_err());
}

#[test]
fn rejects_invalid_ca_size() {
    assert!(AppLayerParameters::builder().size_of_ca(0).build().is_err());
    assert!(AppLayerParameters::builder().size_of_ca(3).build().is_err());
}

#[test]
fn rejects_invalid_ioa_size() {
    assert!(AppLayerParameters::builder().size_of_ioa(0).build().is_err());
    assert!(AppLayerParameters::builder().size_of_ioa(4).build().is_err());
}

#[test]
fn rejects_max_asdu_too_small() {
    assert!(AppLayerParameters::builder().max_asdu_length(3).build().is_err());
}

#[test]
fn max_asdu_length_must_exceed_header() {
    let r = AppLayerParameters::builder().size_of_cot(2).size_of_ca(2).max_asdu_length(6).build();
    assert!(matches!(r, Err(ConfigError::MaxAsduLengthTooSmall { max: 6, min: 6 })));
    let p = AppLayerParameters::builder().size_of_cot(2).size_of_ca(2).max_asdu_length(7).build().unwrap();
    assert_eq!(p.max_asdu_length(), 7);
}

#[test]
fn cp16_from_short_buffer_fails() {
    assert!(Cp16Time2a::from_bytes(&[0x01]).is_err());
    assert_eq!(Cp16Time2a::from_bytes(&[0x34, 0x12, 0xFF]).unwrap().elapsed_time_ms(), 0x1234);
    assert!(Cp24Time2a::from_bytes(&[0x01, 0x02]).is_err());
}

#[test]
fn header_size() {
    assert_eq!(AppLayerParameters::cs104_default().asdu_header_size(), 6);
    let params = AppLayerParameters::builder().size_of_cot(1).size_of_ca(1).build().unwrap();
    assert_eq!(params.asdu_header_size(), 4);
}

#[test]
fn cs101_default_values() {
    let params = AppLayerParameters::cs101_default();
    assert_eq!(params.max_asdu_length(), 254);
    assert_eq!(params.size_of_ioa(), 3);
    assert_eq!(AppLayerParameters::cs104_default().max_asdu_length(), 249);
}

// --- Link layer parameters ---

#[test]
fn defaults() {
    let params = LinkLayerParameters::builder().build().unwrap();
    assert_eq!(params.link_addr_size(), 1);
    assert_eq!(params.response_timeout(), Duration::from_millis(500));
    assert_eq!(params.poll_interval(), Duration::from_millis(1000));
}

#[test]
fn custom_values() {
    let params = LinkLayerParameters::builder()
        .link_addr_size(2)
        .response_timeout(Duration::from_millis(1000))
        .poll_interval(Duration::from_millis(2000))
        .build()
        .unwrap();
    assert_eq!(params.link_addr_size(), 2);
    assert_eq!(params.response_timeout(), Duration::from_millis(1000));
    assert_eq!(params.poll_interval(), Duration::from_millis(2000));
}

#[test]
fn rejects_invalid_link_addr_size() {
    assert!(LinkLayerParameters::builder().link_addr_size(0).build().is_err());
    assert!(LinkLayerParameters::builder().link_addr_size(3).build().is_err());
}

#[test]
fn rejects_zero_response_timeout() {
    assert!(LinkLayerParameters::builder().response_timeout(Duration::ZERO).build().is_err());
}

#[test]
fn rejects_zero_poll_interval() {
    assert!(LinkLayerParameters::builder().poll_interval(Duration::ZERO).build().is_err());
}

// --- Cause of transmission ---

#[test]
fn cause_of_transmission_roundtrip() {
    let cases = [
        1, 2, 3, 4, 5, 6, 7, 8, 9, 10, 11, 12, 13, 14, 15, 16, 20, 21, 22, 23, 24, 25, 26, 27,
        28, 29, 30, 31, 32, 33, 34, 35, 36, 37, 38, 39, 40, 41, 44, 45, 46, 47,
    ];
    for v in cases {
        let cot = CauseOfTransmission::try_from(v).unwrap();
        assert_eq!(cot.as_u8(), v);
    }
}

#[test]
fn invalid_values() {
    assert!(CauseOfTransmission::try_from(0).is_err());
    assert!(CauseOfTransmission::try_from(17).is_err());
    assert!(CauseOfTransmission::try_from(42).is_err());
    assert!(CauseOfTransmission::try_from(48).is_err());
}

// --- Addresses ---

#[test]
fn common_address_from_u16() {
    let ca = CommonAddress::new(0x1234);
    assert_eq!(ca.value(), 0x1234);
}

#[test]
fn common_address_from_u8() {
    let ca: CommonAddress = 5u8.into();
    assert_eq!(ca.value(), 5);
}

#[test]
fn global() {
    assert_eq!(CommonAddress::global().value(), 0xFFFF);
}

#[test]
fn default_is_zero() {
    assert_eq!(OriginatorAddress::default().value(), 0);
}

#[test]
fn originator_address_from_u8() {
    let oa: OriginatorAddress = 42u8.into();
    assert_eq!(oa.value(), 42);
}

// --- Quality ---

#[test]
fn quality_descriptor_flags() {
    let q = QualityDescriptor::overflow() | QualityDescriptor::invalid();
    assert!(q.contains(QualityDescriptor::overflow()));
    assert!(q.contains(QualityDescriptor::invalid()));
    assert!(!q.contains(QualityDescriptor::blocked()));
    assert_eq!(q.bits(), 0x81);
}

#[test]
fn quality_good_is_empty() {
    let q = QualityDescriptor::empty();
    assert_eq!(q.bits(), 0x00);
    assert!(q.is_empty());
}

#[test]
fn quality_from_bits_rejects_unknown() {
    assert!(QualityDescriptor::from_bits(0x02).is_none());
    assert_eq!(QualityDescriptor::from_bits(0xF1).unwrap().bits(), 0xF1);
    assert_eq!(QualityDescriptor::from_bits_truncate(0xFF).bits(), 0xF1);
    assert_eq!(QualityDescriptor::all().bits(), 0xF1);
}

#[test]
fn double_point_from_raw() {
    assert_eq!(DoublePointValue::from_raw(0), DoublePointValue::Intermediate);
    assert_eq!(DoublePointValue::from_raw(1), DoublePointValue::Off);
    assert_eq!(DoublePointValue::from_raw(2), DoublePointValue::On);
    assert_eq!(DoublePointValue::from_raw(3), DoublePointValue::Indeterminate);
    // Upper bits are masked
    assert_eq!(DoublePointValue::from_raw(0xFE), DoublePointValue::On);
}

// --- Time ---

#[test]
fn cp16_roundtrip() {
    let mut t = Cp16Time2a::new();
    t.set_elapsed_time_ms(12345);
    assert_eq!(t.elapsed_time_ms(), 12345);

    let decoded = Cp16Time2a::from_bytes(t.as_bytes()).unwrap();
    assert_eq!(decoded.elapsed_time_ms(), 12345);
}

#[test]
fn cp24_getters_setters() {
    let mut t = Cp24Time2a::new();
    t.set_second(34);
    t.set_millisecond(567);
    t.set_minute(45);
    t.set_invalid(true);
    t.set_substituted(false);

    assert_eq!(t.second(), 34);
    assert_eq!(t.millisecond(), 567);
    assert_eq!(t.minute(), 45);
    assert!(t.is_invalid());
    assert!(!t.is_substituted());
}

#[test]
fn cp24_roundtrip() {
    let mut t = Cp24Time2a::new();
    t.set_second(12);
    t.set_millisecond(345);
    t.set_minute(59);
    t.set_invalid(true);

    let decoded = Cp24Time2a::from_bytes(t.as_bytes()).unwrap();
    assert_eq!(decoded.second(), 12);
    assert_eq!(decoded.millisecond(), 345);
    assert_eq!(decoded.minute(), 59);
    assert!(decoded.is_invalid());
    assert!(!decoded.is_substituted());
}

#[test]
fn cp56_getters_setters() {
    let mut t = Cp56Time2a::new();
    t.set_second(45);
    t.set_millisecond(123);
    t.set_minute(30);
    t.set_hour(14);
    t.set_day_of_month(15);
    t.set_day_of_week(3);
    t.set_month(6);
    t.set_year(25);
    t.set_summer_time(true);
    t.set_invalid(false);
    t.set_substituted(true);

    assert_eq!(t.second(), 45);
    assert_eq!(t.millisecond(), 123);
    assert_eq!(t.minute(), 30);
    assert_eq!(t.hour(), 14);
    assert_eq!(t.day_of_month(), 15);
    assert_eq!(t.day_of_week(), 3);
    assert_eq!(t.month(), 6);
    assert_eq!(t.year(), 25);
    assert!(t.is_summer_time());
    assert!(!t.is_invalid());
    assert!(t.is_substituted());
}

#[test]
fn cp56_roundtrip() {
    let mut t = Cp56Time2a::new();
    t.set_second(45);
    t.set_millisecond(123);
    t.set_minute(30);
    t.set_hour(14);
    t.set_day_of_month(15);
    t.set_day_of_week(3);
    t.set_month(6);
    t.set_year(25);
    t.set_summer_time(true);
    t.set_substituted(true);

    let decoded = Cp56Time2a::from_bytes(t.as_bytes()).unwrap();
    assert_eq!(t, decoded);
}

#[test]
fn cp56_all_flags() {
    let mut t = Cp56Time2a::new();
    t.set_summer_time(true);
    t.set_invalid(true);
    t.set_substituted(true);

    let bytes = t.as_bytes();
    assert!(bytes[2] & 0x80 != 0); // invalid
    assert!(bytes[2] & 0x40 != 0); // substituted
    assert!(bytes[3] & 0x80 != 0); // summer time

    let decoded = Cp56Time2a::from_bytes(bytes).unwrap();
    assert!(decoded.is_invalid());
    assert!(decoded.is_substituted());
    assert!(decoded.is_summer_time());
}

#[test]
fn cp56_set_second_preserves_millisecond() {
    let mut t = Cp56Time2a::new();
    t.set_millisecond(456);
    t.set_second(30);
    assert_eq!(t.millisecond(), 456);
    assert_eq!(t.second(), 30);
}

#[test]
fn cp56_set_millisecond_preserves_second() {
    let mut t = Cp56Time2a::new();
    t.set_second(30);
    t.set_millisecond(789);
    assert_eq!(t.second(), 30);
    assert_eq!(t.millisecond(), 789);
}

#[test]
fn time_buffer_too_short() {
    assert!(Cp16Time2a::from_bytes(&[0]).is_err());
    assert!(Cp24Time2a::from_bytes(&[0, 0]).is_err());
    assert!(Cp56Time2a::from_bytes(&[0; 6]).is_err());
}

#[test]
fn cp56_wire_layout() {
    let mut t = Cp56Time2a::new();
    t.set_second(1);
    t.set_millisecond(2);
    t.set_year(99);
    // milliseconds of the minute, little-endian: 1002 = 0x03EA
    assert_eq!(t.as_bytes()[0], 0xEA);
    assert_eq!(t.as_bytes()[1], 0x03);
    assert_eq!(t.as_bytes()[6], 99);
}

// --- Type identification ---

#[test]
fn roundtrip_all_type_ids() {
    let all_values: &[u8] = &[
        1, 2, 3, 4, 5, 6, 7, 8, 9, 10, 11, 12, 13, 14, 15, 16, 17, 18, 19, 20, 21, 30, 31, 32, 33,
        34, 35, 36, 37, 38, 39, 40, 41, 45, 46, 47, 48, 49, 50, 51, 58, 59, 60, 61, 62, 63, 64, 70,
        81, 82, 83, 84, 85, 86, 87, 90, 91, 92, 93, 94, 95, 100, 101, 102, 103, 104, 105, 106,
        107, 110, 111, 112, 113, 120, 121, 122, 123, 124, 125, 126, 127,
    ];

    for &v in all_values {
        let tid = TypeId::try_from(v).unwrap();
        assert_eq!(tid.as_u8(), v);
    }
}

#[test]
fn invalid_type_id() {
    assert!(TypeId::try_from(0).is_err());
    assert!(TypeId::try_from(22).is_err());
    assert!(TypeId::try_from(128).is_err());
    assert!(TypeId::try_from(255).is_err());
}

#[test]
fn display_format() {
    assert_eq!(TypeId::MSpNa1.to_string(), "M_SP_NA_1");
    assert_eq!(TypeId::CIcNa1.to_string(), "C_IC_NA_1");
    assert_eq!(TypeId::MMeNc1.to_string(), "M_ME_NC_1");
}
