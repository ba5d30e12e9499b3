//! Reading and writing sensors, their state, and virtual sensors.

use libmedium::hwmon::attributes::HwmonAttribute;
use libmedium::hwmon::error::Error as HwmonError;
use libmedium::hwmon::Hwmon;
use libmedium::parsing::Parseable;
use libmedium::sensors::fan::{FanSensor, FanSensorStruct, WriteableFanSensor};
use libmedium::sensors::pwm::{PwmSensor, PwmSensorStruct, WriteablePwmSensor};
use libmedium::sensors::state::{capture_state, write_state, write_state_lossy, AsyncSensorState};
use libmedium::sensors::subfunctions::{Faulty, Max, WriteableMax};
use libmedium::sensors::temp::{TempSensor, TempSensorStruct};
use libmedium::sensors::virt::{
    virtual_sensor_from_path, writeable_virtual_sensor_from_path, VirtualSensor, WriteableVirtualSensor,
};
use libmedium::sensors::{Error, Sensor, SensorSubFunctionType, WriteableSensor};
use libmedium::sysfs::{Cause, IoErrorKind, IoFailure};
use libmedium::units::{AngularVelocity, Pwm, PwmEnable, Temperature, TempType};

fn not_found() -> IoFailure {
    IoFailure::new(IoErrorKind::NotFound, "No such file or directory")
}

fn denied() -> IoFailure {
    IoFailure::new(IoErrorKind::PermissionDenied, "Permission denied")
}

fn broken() -> IoFailure {
    IoFailure::new(IoErrorKind::Other, "Input/output error")
}

#[test]
fn subfunction_paths_join_base_index_and_suffix() {
    let temp = TempSensorStruct::at("/sys/class/hwmon/hwmon0", 3);
    assert_eq!(temp.subfunction_path(SensorSubFunctionType::Input), "/sys/class/hwmon/hwmon0/temp3_input");
    assert_eq!(temp.subfunction_path(SensorSubFunctionType::CritHyst), "/sys/class/hwmon/hwmon0/temp3_crit_hyst");
    let pwm = PwmSensorStruct::at("/h/", 1);
    assert_eq!(pwm.subfunction_path(SensorSubFunctionType::Pwm), "/h/pwm1");
    assert_eq!(pwm.subfunction_path(SensorSubFunctionType::Enable), "/h/pwm1_enable");
}

#[test]
fn reads_decode_trimmed_text() {
    let temp = TempSensorStruct::at("/h", 1);
    let t = temp.read_input(Err(not_found()), Ok("  45000\n".to_string())).unwrap();
    assert_eq!(t.as_millidegrees_celsius(), 45000);
    assert_eq!(temp.read_type(Ok("3\n".to_string())).unwrap(), TempType::ThermalDiode);
    let fan = FanSensorStruct::at("/h", 2);
    assert_eq!(fan.read_target(Ok("1200".to_string())).unwrap(), AngularVelocity::from_rpm(1200));
}

#[test]
fn read_failures_map_to_sensor_errors() {
    let temp = TempSensorStruct::at("/h", 1);
    match temp.read_max(Err(not_found())) {
        Err(Error::SubtypeNotSupported { sub_type }) => assert_eq!(sub_type, SensorSubFunctionType::Max),
        other => panic!("unexpected {:?}", other),
    }
    match temp.read_max(Err(denied())) {
        Err(Error::InsufficientRights { path }) => assert_eq!(path, "/h/temp1_max"),
        other => panic!("unexpected {:?}", other),
    }
    match temp.read_max(Err(broken())) {
        Err(Error::Read { source, path }) => {
            assert_eq!(source.kind, IoErrorKind::Other);
            assert_eq!(path, "/h/temp1_max");
        },
        other => panic!("unexpected {:?}", other),
    }
    match temp.read_max(Ok("hot".to_string())) {
        Err(e) => {
            assert_eq!(e.message(), "Raw sensor error: could not convert raw value: hot");
            assert!(matches!(e.cause(), Some(Cause::Unit(_))));
        },
        other => panic!("unexpected {:?}", other),
    }
}

#[test]
fn writes_name_the_file_and_the_raw_text() {
    let temp = TempSensorStruct::at("/h", 2);
    let request = temp.write_max(Temperature::from_millidegrees_celsius(85000));
    assert_eq!(request.path, "/h/temp2_max");
    assert_eq!(request.contents, "85000");
    let pwm = PwmSensorStruct::at("/h", 1);
    let request = pwm.write_enable(PwmEnable::ManualControl);
    assert_eq!((request.path.as_str(), request.contents.as_str()), ("/h/pwm1_enable", "1"));
    let request = pwm.write_pwm(Pwm::from_u8(255));
    assert_eq!((request.path.as_str(), request.contents.as_str()), ("/h/pwm1", "255"));
    let request = temp.reset_history();
    assert_eq!((request.path.as_str(), request.contents.as_str()), ("/h/temp2_reset_history", "1"));
}

#[test]
fn written_value_reads_back() {
    let fan = FanSensorStruct::at("/h", 1);
    let request = fan.write_max(AngularVelocity::from_rpm(3000));
    let read_back = fan.read_max(Ok(format!("{}\n", request.contents))).unwrap();
    assert_eq!(read_back, AngularVelocity::from_rpm(3000));
}

#[test]
fn write_failures_map_to_sensor_errors() {
    let fan = FanSensorStruct::at("/h", 1);
    assert!(fan.write_result(SensorSubFunctionType::Target, Ok(())).is_ok());
    match fan.write_result(SensorSubFunctionType::Target, Err(broken())) {
        Err(Error::Write { path, .. }) => assert_eq!(path, "/h/fan1_target"),
        other => panic!("unexpected {:?}", other),
    }
    match fan.write_result(SensorSubFunctionType::Target, Err(denied())) {
        Err(e) => assert_eq!(e.message(), "You have insufficient rights to read/write /h/fan1_target"),
        other => panic!("unexpected {:?}", other),
    }
    match fan.write_result(SensorSubFunctionType::Target, Err(not_found())) {
        Err(e) => assert_eq!(e.message(), "Sensor does not support the subtype Target"),
        other => panic!("unexpected {:?}", other),
    }
}

#[test]
fn faulty_sensor_is_reported() {
    let temp = TempSensorStruct::at("/h", 1);
    match temp.check_not_faulty(Ok("1\n".to_string())) {
        Err(Error::FaultySensor) => {},
        other => panic!("unexpected {:?}", other),
    }
    assert!(temp.check_not_faulty(Ok("0".to_string())).is_ok());
    assert!(temp.check_not_faulty(Err(not_found())).is_ok());
    assert_eq!(temp.read_faulty(Ok("1".to_string())).unwrap(), true);
    // A faulty sensor gives no value, whatever its input file holds.
    match temp.read_input(Ok("1\n".to_string()), Ok("40000".to_string())) {
        Err(Error::FaultySensor) => {},
        other => panic!("unexpected {:?}", other),
    }
    let t = temp.read_input(Err(not_found()), Ok("40000".to_string())).unwrap();
    assert_eq!(t.as_millidegrees_celsius(), 40000);
    let fan = FanSensorStruct::at("/h", 1);
    let rpm = fan.read_input(Ok("garbage".to_string()), Ok("60".to_string())).unwrap();
    assert_eq!(rpm.as_rpm(), 60);
}

#[test]
fn name_falls_back_to_base_and_index() {
    let fan = FanSensorStruct::at("/h", 7);
    assert_eq!(fan.name(Err(not_found())), "fan7");
    assert_eq!(fan.name(Ok(" CPU fan \n".to_string())), "CPU fan");
}

#[test]
fn parse_needs_the_primary_file() {
    assert!(TempSensorStruct::parse("/h", 1, Ok(())).is_ok());
    match FanSensorStruct::parse("/h", 1, Err(not_found())) {
        Err(e) => {
            assert_eq!(e.cause().kind, IoErrorKind::NotFound);
            assert_eq!(e.message(), "Error parsing sensor at /h/fan1_input: No such file or directory");
        },
        Ok(_) => panic!("parsed a missing sensor"),
    }
    assert_eq!(PwmSensorStruct::primary(), SensorSubFunctionType::Pwm);
}

#[test]
fn supported_sub_functions_follow_the_probes() {
    let fan = FanSensorStruct::at("/h", 1);
    let read_list = SensorSubFunctionType::read_list();
    let mut readable = vec![false; read_list.len()];
    readable[0] = true;
    readable[read_list.len() - 1] = true;
    let types = fan.supported_read_sub_functions(&readable);
    assert_eq!(types, vec![SensorSubFunctionType::Input, SensorSubFunctionType::Beep]);
}

#[test]
fn sub_function_lists_partition_the_types() {
    let read_only = SensorSubFunctionType::read_only_list();
    let read_write = SensorSubFunctionType::read_write_list();
    let write_only = SensorSubFunctionType::write_only_list();
    assert_eq!(read_only.len() + read_write.len() + write_only.len(), 49);
    for t in read_only.iter() {
        assert!(!read_write.contains(t) && !write_only.contains(t));
    }
    let mut suffixes: Vec<&str> = Vec::new();
    for t in read_only.iter().chain(read_write.iter()).chain(write_only.iter()) {
        assert!(!suffixes.contains(&t.to_suffix()));
        suffixes.push(t.to_suffix());
    }
    assert_eq!(SensorSubFunctionType::Input.to_suffix(), "_input");
    assert_eq!(SensorSubFunctionType::AverageIntervalMax.to_suffix(), "_average_interval_max");
    assert_eq!(SensorSubFunctionType::Pwm.to_suffix(), "");
    assert_eq!(SensorSubFunctionType::AutoChannelsTemp.name(), "AutoChannelsTemp");
}

#[test]
fn state_is_captured_and_written_back() {
    let pwm = PwmSensorStruct::at("/h", 1);
    let list = SensorSubFunctionType::read_write_list();
    let mut reads: Vec<Result<String, IoFailure>> = list.iter().map(|_| Err(not_found())).collect();
    let enable_at = list.iter().position(|t| *t == SensorSubFunctionType::Enable).unwrap();
    let pwm_at = list.iter().position(|t| *t == SensorSubFunctionType::Pwm).unwrap();
    reads[enable_at] = Ok("1\n".to_string());
    reads[pwm_at] = Ok("128".to_string());

    let state = capture_state(&pwm, reads).unwrap();
    assert_eq!(state.sub_types(), vec![SensorSubFunctionType::Enable, SensorSubFunctionType::Pwm]);
    assert_eq!(state.get(SensorSubFunctionType::Pwm), Some("128"));
    assert_eq!(state.get(SensorSubFunctionType::Mode), None);
    let types = state.sub_types();
    for (i, t) in types.iter().enumerate() {
        assert!(!types[i + 1..].contains(t));
    }

    let mut writer = write_state_lossy(&pwm, &state);
    let mut written = Vec::new();
    while let Some(request) = writer.next_write() {
        written.push((request.path.clone(), request.contents.clone()));
        writer.record(Ok(()));
    }
    assert!(writer.outcome().is_ok());
    assert_eq!(
        written,
        vec![
            ("/h/pwm1_enable".to_string(), "1".to_string()),
            ("/h/pwm1".to_string(), "128".to_string()),
        ]
    );
}

#[test]
fn state_writing_skips_missing_files_and_stops_at_failures() {
    let pwm = PwmSensorStruct::at("/h", 1);
    let list = SensorSubFunctionType::read_write_list();
    let reads: Vec<Result<String, IoFailure>> = list.iter().map(|_| Ok("1".to_string())).collect();
    let state = AsyncSensorState::from_sensor(&pwm, reads).unwrap();
    assert_eq!(state.sub_types().len(), list.len());

    let mut writer = write_state_lossy(&pwm, &state);
    writer.record(Err(not_found()));
    let second = writer.next_write().unwrap().path.clone();
    writer.record(Err(denied()));
    assert!(writer.next_write().is_none());
    match writer.outcome() {
        Err(Error::InsufficientRights { path }) => assert_eq!(path, second),
        other => panic!("unexpected {:?}", other),
    }
}

#[test]
fn strict_state_writing_refuses_unsupported_types() {
    let pwm = PwmSensorStruct::at("/h", 1);
    let list = SensorSubFunctionType::read_write_list();
    let mut reads: Vec<Result<String, IoFailure>> = list.iter().map(|_| Err(not_found())).collect();
    let mode_at = list.iter().position(|t| *t == SensorSubFunctionType::Mode).unwrap();
    reads[mode_at] = Ok("1".to_string());
    let state = capture_state(&pwm, reads).unwrap();

    let write_list = SensorSubFunctionType::write_list();
    let none_writable = vec![false; write_list.len()];
    match write_state(&pwm, &state, &none_writable) {
        Err(Error::SubtypeNotSupported { sub_type }) => assert_eq!(sub_type, SensorSubFunctionType::Mode),
        _ => panic!("unsupported type was accepted"),
    }
    let all_writable = vec![true; write_list.len()];
    let mut writer = write_state(&pwm, &state, &all_writable).unwrap();
    assert_eq!(writer.next_write().unwrap().path, "/h/pwm1_mode");
    writer.record(Ok(()));
    assert!(writer.outcome().is_ok());
}

#[test]
fn virtual_sensors_read_and_write_their_file() {
    let sensor = virtual_sensor_from_path("/run/fan_speed", true).unwrap();
    assert_eq!(VirtualSensor::<AngularVelocity>::path(&sensor), "/run/fan_speed");
    let value: AngularVelocity = sensor.read(Ok("900\n".to_string())).unwrap();
    assert_eq!(value.as_rpm(), 900);
    let r: Result<AngularVelocity, Error> = sensor.read(Err(not_found()));
    match r {
        Err(Error::Read { path, .. }) => assert_eq!(path, "/run/fan_speed"),
        other => panic!("unexpected {:?}", other),
    }
    let r: Result<AngularVelocity, Error> = sensor.read(Err(denied()));
    assert!(matches!(r, Err(Error::InsufficientRights { .. })));

    let writeable = writeable_virtual_sensor_from_path("/run/pwm", true).unwrap();
    let request = writeable.write(&Pwm::from_u8(42));
    assert_eq!((request.path.as_str(), request.contents.as_str()), ("/run/pwm", "42"));
    let read_back: Pwm = writeable.read(Ok(request.contents.clone())).unwrap();
    assert_eq!(read_back, Pwm::from_u8(42));
    let r = WriteableVirtualSensor::<Pwm>::write_result(&writeable, Err(broken()));
    assert!(matches!(r, Err(Error::Write { .. })));
    assert!(WriteableVirtualSensor::<Pwm>::write_result(&writeable, Ok(())).is_ok());
}

#[test]
fn virtual_sensor_needs_a_file() {
    match virtual_sensor_from_path("/run/none", false) {
        Err(Error::Read { source, path }) => {
            assert_eq!(source.kind, IoErrorKind::NotFound);
            assert_eq!(path, "/run/none");
        },
        _ => panic!("created a sensor without a file"),
    }
}

#[test]
fn hwmon_attributes_decode_and_report() {
    let hwmon = Hwmon::new("chip".to_string(), "/h/hwmon0", 0);
    assert_eq!(hwmon.attribute_path(HwmonAttribute::UpdateInterval), "/h/hwmon0/update_interval");
    assert_eq!(hwmon.update_interval(Ok("500\n".to_string())).unwrap().as_millis(), 500);
    match hwmon.update_interval(Err(not_found())) {
        Err(e) => assert_eq!(e.message(), "Hwmon does not expose an update interval"),
        Ok(_) => panic!("missing file gave a value"),
    }
    match hwmon.beep_enable(Err(not_found())) {
        Err(HwmonError::BeepEnable) => {},
        other => panic!("unexpected {:?}", other),
    }
    assert_eq!(hwmon.beep_enable(Ok("1".to_string())).unwrap(), true);
    match hwmon.update_interval(Ok("soon".to_string())) {
        Err(e) => assert_eq!(e.message(), "Unit conversion error at /h/hwmon0/update_interval: could not convert raw value: soon"),
        Ok(_) => panic!("bad text gave a value"),
    }
    match hwmon.attribute_write_result(HwmonAttribute::BeepEnable, Err(broken())) {
        Err(e) => {
            assert_eq!(e.message(), "Io error at /h/hwmon0/beep_enable: Input/output error");
            assert!(matches!(e.cause(), Some(Cause::Io(_))));
        },
        Ok(_) => panic!("failed write succeeded"),
    }
    let request = hwmon.set_beep_enable(false);
    assert_eq!((request.path.as_str(), request.contents.as_str()), ("/h/hwmon0/beep_enable", "0"));
    let request = hwmon.set_update_interval(libmedium::units::Duration::from_millis(250));
    assert_eq!(request.contents, "250");
    let read_back = hwmon.update_interval(Ok(request.contents.clone())).unwrap();
    assert_eq!(read_back.as_millis(), 250);
    match hwmon.attribute_write_result(HwmonAttribute::UpdateInterval, Err(denied())) {
        Err(e) => assert_eq!(e.message(), "You have insufficient rights to write to /h/hwmon0/update_interval"),
        Ok(_) => panic!("denied write succeeded"),
    }
}

#[test]
fn hwmon_sensor_getters_follow_added_sensors() {
    let mut hwmon = Hwmon::new("chip".to_string(), "/h/hwmon0", 0);
    hwmon.add_sensor(libmedium::hwmon::SensorKind::Fan, 2);
    let fan = hwmon.fan(2).unwrap();
    assert_eq!(fan.index(), 2);
    assert_eq!(fan.hwmon_path(), "/h/hwmon0");
    assert!(hwmon.fan(1).is_none());
    assert!(hwmon.fan(0).is_none());
    assert_eq!(hwmon.index(), 0);
    assert_eq!(hwmon.writeable_fans().len(), 1);
    assert!(hwmon.temps().is_empty());
    assert_eq!(fan.write_target(AngularVelocity::from_rpm(800)).path, "/h/hwmon0/fan2_target");
    let pwm = PwmSensorStruct::at("/h/hwmon0", 1);
    assert_eq!(pwm.read_mode(Ok("2".to_string())).unwrap(), libmedium::units::PwmMode::Automatic);
}

#[test]
fn restoring_a_captured_state_gives_it_back() {
    let pwm = PwmSensorStruct::at("/h", 1);
    let list = SensorSubFunctionType::read_write_list();
    let mut files: std::collections::BTreeMap<String, String> = std::collections::BTreeMap::new();
    files.insert("/h/pwm1".to_string(), "77\n".to_string());
    files.insert("/h/pwm1_enable".to_string(), " 1".to_string());
    let read_all = |files: &std::collections::BTreeMap<String, String>| -> Vec<Result<String, IoFailure>> {
        list.iter()
            .map(|t| match files.get(&pwm.subfunction_path(*t)) {
                Some(c) => Ok(c.clone()),
                None => Err(not_found()),
            })
            .collect()
    };
    let state = capture_state(&pwm, read_all(&files)).unwrap();
    files.insert("/h/pwm1".to_string(), "0".to_string());
    files.insert("/h/pwm1_enable".to_string(), "2".to_string());
    let mut writer = write_state_lossy(&pwm, &state);
    while let Some(request) = writer.next_write() {
        files.insert(request.path.clone(), request.contents.clone());
        writer.record(Ok(()));
    }
    assert!(writer.outcome().is_ok());
    let again = capture_state(&pwm, read_all(&files)).unwrap();
    assert_eq!(again.sub_types(), state.sub_types());
    assert_eq!(again.get(SensorSubFunctionType::Pwm), Some("77"));
    assert_eq!(again.get(SensorSubFunctionType::Enable), Some("1"));
}
