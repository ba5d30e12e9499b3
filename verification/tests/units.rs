//! Conversions between units and the raw text of sysfs files.

use libmedium::units::{
    AngularVelocity, Current, Duration, Energy, FanDivisor, Frequency, Power, Pwm, PwmEnable, PwmMode,
    Ratio, Raw, TempType, Temperature, UnitError, Voltage,
};

#[test]
fn temperature_round_trips_through_raw_text() {
    for millidegrees in [0, 40000, -12500, i32::MAX, i32::MIN] {
        let t = Temperature::from_millidegrees_celsius(millidegrees);
        let raw = t.to_raw();
        assert_eq!(raw, millidegrees.to_string());
        assert_eq!(Temperature::from_raw(&raw).unwrap(), t);
    }
}

#[test]
fn temperature_out_of_range_is_a_conversion_error() {
    let e = Temperature::from_raw("2147483648").unwrap_err();
    assert_eq!(e, UnitError::RawConversion { raw: "2147483648".to_string() });
    assert_eq!(e.message(), "could not convert raw value: 2147483648");
}

#[test]
fn unsigned_units_refuse_negative_text() {
    assert!(Power::from_raw("-1").is_err());
    assert!(AngularVelocity::from_raw("-60").is_err());
    assert!(Energy::from_raw("abc").is_err());
    assert!(Frequency::from_raw("").is_err());
}

#[test]
fn units_keep_the_kernel_numbers() {
    assert_eq!(Voltage::from_raw("3300").unwrap().as_millivolts(), 3300);
    assert_eq!(Current::from_raw("-250").unwrap().as_milliamperes(), -250);
    assert_eq!(Power::from_raw("15000000").unwrap().as_microwatts(), 15000000);
    assert_eq!(Energy::from_raw("42").unwrap().as_microjoules(), 42);
    assert_eq!(AngularVelocity::from_raw("60").unwrap().as_rpm(), 60);
    assert_eq!(Frequency::from_raw("25000").unwrap().as_hertz(), 25000);
    assert_eq!(Ratio::from_raw("45000").unwrap().as_milli_percent(), 45000);
    assert_eq!(Duration::from_raw("1000").unwrap().as_millis(), 1000);
    assert_eq!(Pwm::from_raw("255").unwrap().as_u8(), 255);
    assert!(Pwm::from_raw("256").is_err());
}

#[test]
fn booleans_are_one_and_zero() {
    assert_eq!(bool::from_raw("1").unwrap(), true);
    assert_eq!(bool::from_raw("0").unwrap(), false);
    assert!(bool::from_raw("2").is_err());
    assert_eq!(true.to_raw(), "1");
    assert_eq!(false.to_raw(), "0");
}

#[test]
fn pwm_enable_and_mode_values() {
    assert_eq!(PwmEnable::from_raw("0").unwrap(), PwmEnable::FullSpeed);
    assert_eq!(PwmEnable::from_raw("1").unwrap(), PwmEnable::ManualControl);
    assert_eq!(PwmEnable::from_raw("2").unwrap(), PwmEnable::BiosControl);
    assert!(PwmEnable::from_raw("3").is_err());
    assert_eq!(PwmEnable::ManualControl.to_raw(), "1");
    assert_eq!(PwmMode::from_raw("0").unwrap(), PwmMode::Dc);
    assert_eq!(PwmMode::from_raw("1").unwrap(), PwmMode::Pwm);
    assert_eq!(PwmMode::from_raw("2").unwrap(), PwmMode::Automatic);
    assert_eq!(PwmMode::Automatic.to_raw(), "2");
}

#[test]
fn temp_types_are_numbered_from_one() {
    assert_eq!(TempType::from_raw("1").unwrap(), TempType::CpuEmbeddedDiode);
    assert_eq!(TempType::from_raw("4").unwrap(), TempType::Thermistor);
    assert_eq!(TempType::from_raw("6").unwrap(), TempType::IntelPeci);
    assert!(TempType::from_raw("0").is_err());
    assert!(TempType::from_raw("7").is_err());
    assert_eq!(TempType::Transistor.to_raw(), "2");
}

#[test]
fn fan_divisors_are_powers_of_two() {
    assert_eq!(FanDivisor::try_from_divisor(8).unwrap().as_divisor(), 8);
    assert!(FanDivisor::try_from_divisor(1).is_some());
    assert!(FanDivisor::try_from_divisor(0).is_none());
    assert!(FanDivisor::try_from_divisor(6).is_none());
    assert_eq!(FanDivisor::from_raw("4").unwrap().as_divisor(), 4);
    let e = FanDivisor::from_raw("3").unwrap_err();
    assert_eq!(e, UnitError::InvalidValue { raw: "3".to_string() });
    assert_eq!(e.message(), "invalid value: 3");
    assert_eq!(FanDivisor::try_from_divisor(16).unwrap().to_raw(), "16");
}
