//! Module containing the energy sensors and their related functionality.

use crate::parsing::Parseable;
use crate::sensors::base::{spec_subfunction_path, value_read_outcome, Sensor, WriteableSensor};
use crate::sensors::error::Error;
use crate::sensors::subfunction_type::SensorSubFunctionType;
use crate::sensors::subfunctions::{Enable, Input, WriteableEnable};
use crate::sysfs::{IoFailure, WriteRequest};
use crate::units::{Energy, Raw};
use vstd::prelude::*;

verus! {

/// Helper trait that sums up all functionality of a read-only energy sensor.
pub trait EnergySensor: Sensor<Value = Energy> + Enable + Input {
}

/// Struct that represents a energy sensor.
#[derive(Debug, Clone)]
pub struct EnergySensorStruct {
    hwmon_path: String,
    index: u16,
}

impl Sensor for EnergySensorStruct {
    type Value = Energy;

    open spec fn spec_base(&self) -> Seq<char> {
        "energy"@
    }

    closed spec fn spec_index(&self) -> u16 {
        self.index
    }

    closed spec fn spec_hwmon_path(&self) -> Seq<char> {
        self.hwmon_path@
    }

    fn base(&self) -> (base: &'static str) {
        "energy"
    }

    fn index(&self) -> (index: u16) {
        self.index
    }

    fn hwmon_path(&self) -> (path: &str) {
        self.hwmon_path.as_str()
    }
}

impl Parseable for EnergySensorStruct {
    open spec fn spec_prefix() -> Seq<char> {
        "energy"@
    }

    open spec fn spec_primary() -> SensorSubFunctionType {
        SensorSubFunctionType::Input
    }

    open spec fn spec_first_index() -> u16 {
        1
    }

    fn prefix() -> (prefix: &'static str) {
        "energy"
    }

    fn primary() -> (sub_type: SensorSubFunctionType) {
        SensorSubFunctionType::Input
    }

    fn first_index() -> (index: u16) {
        1
    }

    fn at(hwmon_path: &str, index: u16) -> (sensor: EnergySensorStruct) {
        EnergySensorStruct { hwmon_path: String::from_str(hwmon_path), index }
    }
}

impl Enable for EnergySensorStruct {

}

impl Input for EnergySensorStruct {

}

impl EnergySensor for EnergySensorStruct {

}

impl WriteableSensor for EnergySensorStruct {

}

/// Helper trait that sums up all functionality of a read-write energy sensor.
pub trait WriteableEnergySensor: EnergySensor + WriteableSensor + WriteableEnable {
}

impl WriteableEnergySensor for EnergySensorStruct {

}

} // verus!
