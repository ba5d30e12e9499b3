//! Module containing the humidity sensors and their related functionality.

use crate::parsing::Parseable;
use crate::sensors::base::{spec_subfunction_path, value_read_outcome, Sensor, WriteableSensor};
use crate::sensors::error::Error;
use crate::sensors::subfunction_type::SensorSubFunctionType;
use crate::sensors::subfunctions::{Enable, Input, WriteableEnable};
use crate::sysfs::{IoFailure, WriteRequest};
use crate::units::{Ratio, Raw};
use vstd::prelude::*;

verus! {

/// Helper trait that sums up all functionality of a read-only humidity sensor.
pub trait HumiditySensor: Sensor<Value = Ratio> + Enable + Input {
}

/// Struct that represents a humidity sensor.
#[derive(Debug, Clone)]
pub struct HumiditySensorStruct {
    hwmon_path: String,
    index: u16,
}

impl Sensor for HumiditySensorStruct {
    type Value = Ratio;

    open spec fn spec_base(&self) -> Seq<char> {
        "humidity"@
    }

    closed spec fn spec_index(&self) -> u16 {
        self.index
    }

    closed spec fn spec_hwmon_path(&self) -> Seq<char> {
        self.hwmon_path@
    }

    fn base(&self) -> (base: &'static str) {
        "humidity"
    }

    fn index(&self) -> (index: u16) {
        self.index
    }

    fn hwmon_path(&self) -> (path: &str) {
        self.hwmon_path.as_str()
    }
}

impl Parseable for HumiditySensorStruct {
    open spec fn spec_prefix() -> Seq<char> {
        "humidity"@
    }

    open spec fn spec_primary() -> SensorSubFunctionType {
        SensorSubFunctionType::Input
    }

    open spec fn spec_first_index() -> u16 {
        1
    }

    fn prefix() -> (prefix: &'static str) {
        "humidity"
    }

    fn primary() -> (sub_type: SensorSubFunctionType) {
        SensorSubFunctionType::Input
    }

    fn first_index() -> (index: u16) {
        1
    }

    fn at(hwmon_path: &str, index: u16) -> (sensor: HumiditySensorStruct) {
        HumiditySensorStruct { hwmon_path: String::from_str(hwmon_path), index }
    }
}

impl Enable for HumiditySensorStruct {

}

impl Input for HumiditySensorStruct {

}

impl HumiditySensor for HumiditySensorStruct {

}

impl WriteableSensor for HumiditySensorStruct {

}

/// Helper trait that sums up all functionality of a read-write humidity sensor.
pub trait WriteableHumiditySensor: HumiditySensor + WriteableSensor + WriteableEnable {
}

impl WriteableHumiditySensor for HumiditySensorStruct {

}

} // verus!
