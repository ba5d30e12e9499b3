//! Module containing the intrusion sensors and their related functionality.

use crate::parsing::Parseable;
use crate::sensors::base::{spec_subfunction_path, value_read_outcome, Sensor, WriteableSensor};
use crate::sensors::error::Error;
use crate::sensors::subfunction_type::SensorSubFunctionType;
use crate::sensors::subfunctions::{Alarm, Beep, WriteableBeep};
use crate::sysfs::{IoFailure, WriteRequest};
use crate::units::{Raw};
use vstd::prelude::*;

verus! {

/// Helper trait that sums up all functionality of a read-only intrusion sensor.
pub trait IntrusionSensor: Sensor<Value = bool> + Alarm + Beep {
}

/// Struct that represents a intrusion sensor.
#[derive(Debug, Clone)]
pub struct IntrusionSensorStruct {
    hwmon_path: String,
    index: u16,
}

impl Sensor for IntrusionSensorStruct {
    type Value = bool;

    open spec fn spec_base(&self) -> Seq<char> {
        "intrusion"@
    }

    closed spec fn spec_index(&self) -> u16 {
        self.index
    }

    closed spec fn spec_hwmon_path(&self) -> Seq<char> {
        self.hwmon_path@
    }

    fn base(&self) -> (base: &'static str) {
        "intrusion"
    }

    fn index(&self) -> (index: u16) {
        self.index
    }

    fn hwmon_path(&self) -> (path: &str) {
        self.hwmon_path.as_str()
    }
}

impl Parseable for IntrusionSensorStruct {
    open spec fn spec_prefix() -> Seq<char> {
        "intrusion"@
    }

    open spec fn spec_primary() -> SensorSubFunctionType {
        SensorSubFunctionType::Alarm
    }

    open spec fn spec_first_index() -> u16 {
        0
    }

    fn prefix() -> (prefix: &'static str) {
        "intrusion"
    }

    fn primary() -> (sub_type: SensorSubFunctionType) {
        SensorSubFunctionType::Alarm
    }

    fn first_index() -> (index: u16) {
        0
    }

    fn at(hwmon_path: &str, index: u16) -> (sensor: IntrusionSensorStruct) {
        IntrusionSensorStruct { hwmon_path: String::from_str(hwmon_path), index }
    }
}

impl Alarm for IntrusionSensorStruct {

}

impl Beep for IntrusionSensorStruct {

}

impl IntrusionSensor for IntrusionSensorStruct {

}

impl WriteableSensor for IntrusionSensorStruct {

}

/// Helper trait that sums up all functionality of a read-write intrusion sensor.
pub trait WriteableIntrusionSensor: IntrusionSensor + WriteableSensor + WriteableBeep {
}

impl WriteableIntrusionSensor for IntrusionSensorStruct {

}

} // verus!
