//! Module containing the voltage sensors and their related functionality.

use crate::parsing::Parseable;
use crate::sensors::base::{spec_subfunction_path, value_read_outcome, Sensor, WriteableSensor};
use crate::sensors::error::Error;
use crate::sensors::subfunction_type::SensorSubFunctionType;
use crate::sensors::subfunctions::{Alarm, Average, Beep, Crit, CritAlarm, Enable, Highest, Input, LowCrit, LowCritAlarm, Lowest, Max, MaxAlarm, Min, MinAlarm, WriteableBeep, WriteableCrit, WriteableEnable, WriteableLowCrit, WriteableMax, WriteableMin};
use crate::sysfs::{IoFailure, WriteRequest};
use crate::units::{Voltage, Raw};
use vstd::prelude::*;

verus! {

/// Helper trait that sums up all functionality of a read-only voltage sensor.
pub trait VoltageSensor: Sensor<Value = Voltage> + Enable + Input + Min + Max + Crit + LowCrit + Average + Lowest + Highest + Alarm + Beep + MinAlarm + MaxAlarm + CritAlarm + LowCritAlarm {
}

/// Struct that represents a voltage sensor.
#[derive(Debug, Clone)]
pub struct VoltageSensorStruct {
    hwmon_path: String,
    index: u16,
}

impl Sensor for VoltageSensorStruct {
    type Value = Voltage;

    open spec fn spec_base(&self) -> Seq<char> {
        "in"@
    }

    closed spec fn spec_index(&self) -> u16 {
        self.index
    }

    closed spec fn spec_hwmon_path(&self) -> Seq<char> {
        self.hwmon_path@
    }

    fn base(&self) -> (base: &'static str) {
        "in"
    }

    fn index(&self) -> (index: u16) {
        self.index
    }

    fn hwmon_path(&self) -> (path: &str) {
        self.hwmon_path.as_str()
    }
}

impl Parseable for VoltageSensorStruct {
    open spec fn spec_prefix() -> Seq<char> {
        "in"@
    }

    open spec fn spec_primary() -> SensorSubFunctionType {
        SensorSubFunctionType::Input
    }

    open spec fn spec_first_index() -> u16 {
        0
    }

    fn prefix() -> (prefix: &'static str) {
        "in"
    }

    fn primary() -> (sub_type: SensorSubFunctionType) {
        SensorSubFunctionType::Input
    }

    fn first_index() -> (index: u16) {
        0
    }

    fn at(hwmon_path: &str, index: u16) -> (sensor: VoltageSensorStruct) {
        VoltageSensorStruct { hwmon_path: String::from_str(hwmon_path), index }
    }
}

impl Enable for VoltageSensorStruct {

}

impl Input for VoltageSensorStruct {

}

impl Min for VoltageSensorStruct {

}

impl Max for VoltageSensorStruct {

}

impl Crit for VoltageSensorStruct {

}

impl LowCrit for VoltageSensorStruct {

}

impl Average for VoltageSensorStruct {

}

impl Lowest for VoltageSensorStruct {

}

impl Highest for VoltageSensorStruct {

}

impl Alarm for VoltageSensorStruct {

}

impl Beep for VoltageSensorStruct {

}

impl VoltageSensor for VoltageSensorStruct {

}

impl WriteableSensor for VoltageSensorStruct {

}

/// Helper trait that sums up all functionality of a read-write voltage sensor.
pub trait WriteableVoltageSensor: VoltageSensor + WriteableSensor + WriteableEnable + WriteableMin + WriteableMax + WriteableCrit + WriteableLowCrit + WriteableBeep {
}

impl WriteableVoltageSensor for VoltageSensorStruct {

}

} // verus!
