//! Module containing the current sensors and their related functionality.

use crate::parsing::Parseable;
use crate::sensors::base::{spec_subfunction_path, value_read_outcome, Sensor, WriteableSensor};
use crate::sensors::error::Error;
use crate::sensors::subfunction_type::SensorSubFunctionType;
use crate::sensors::subfunctions::{Alarm, Average, Beep, Crit, CritAlarm, Enable, Highest, Input, LowCrit, LowCritAlarm, Lowest, Max, MaxAlarm, Min, MinAlarm, WriteableBeep, WriteableCrit, WriteableEnable, WriteableLowCrit, WriteableMax, WriteableMin};
use crate::sysfs::{IoFailure, WriteRequest};
use crate::units::{Current, Raw};
use vstd::prelude::*;

verus! {

/// Helper trait that sums up all functionality of a read-only current sensor.
pub trait CurrentSensor: Sensor<Value = Current> + Enable + Input + Min + Max + LowCrit + Crit + Average + Lowest + Highest + Alarm + Beep + MinAlarm + MaxAlarm + CritAlarm + LowCritAlarm {
}

/// Struct that represents a current sensor.
#[derive(Debug, Clone)]
pub struct CurrentSensorStruct {
    hwmon_path: String,
    index: u16,
}

impl Sensor for CurrentSensorStruct {
    type Value = Current;

    open spec fn spec_base(&self) -> Seq<char> {
        "curr"@
    }

    closed spec fn spec_index(&self) -> u16 {
        self.index
    }

    closed spec fn spec_hwmon_path(&self) -> Seq<char> {
        self.hwmon_path@
    }

    fn base(&self) -> (base: &'static str) {
        "curr"
    }

    fn index(&self) -> (index: u16) {
        self.index
    }

    fn hwmon_path(&self) -> (path: &str) {
        self.hwmon_path.as_str()
    }
}

impl Parseable for CurrentSensorStruct {
    open spec fn spec_prefix() -> Seq<char> {
        "curr"@
    }

    open spec fn spec_primary() -> SensorSubFunctionType {
        SensorSubFunctionType::Input
    }

    open spec fn spec_first_index() -> u16 {
        1
    }

    fn prefix() -> (prefix: &'static str) {
        "curr"
    }

    fn primary() -> (sub_type: SensorSubFunctionType) {
        SensorSubFunctionType::Input
    }

    fn first_index() -> (index: u16) {
        1
    }

    fn at(hwmon_path: &str, index: u16) -> (sensor: CurrentSensorStruct) {
        CurrentSensorStruct { hwmon_path: String::from_str(hwmon_path), index }
    }
}

impl Enable for CurrentSensorStruct {

}

impl Input for CurrentSensorStruct {

}

impl Min for CurrentSensorStruct {

}

impl Max for CurrentSensorStruct {

}

impl LowCrit for CurrentSensorStruct {

}

impl Crit for CurrentSensorStruct {

}

impl Average for CurrentSensorStruct {

}

impl Lowest for CurrentSensorStruct {

}

impl Highest for CurrentSensorStruct {

}

impl Alarm for CurrentSensorStruct {

}

impl Beep for CurrentSensorStruct {

}

impl CurrentSensor for CurrentSensorStruct {

}

impl WriteableSensor for CurrentSensorStruct {

}

/// Helper trait that sums up all functionality of a read-write current sensor.
pub trait WriteableCurrentSensor: CurrentSensor + WriteableSensor + WriteableEnable + WriteableMin + WriteableMax + WriteableCrit + WriteableLowCrit + WriteableBeep {
}

impl WriteableCurrentSensor for CurrentSensorStruct {

}

} // verus!
