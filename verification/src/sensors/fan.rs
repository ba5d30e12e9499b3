//! Module containing the fan sensors and their related functionality.

use crate::parsing::Parseable;
use crate::sensors::base::{spec_subfunction_path, value_read_outcome, Sensor, WriteableSensor};
use crate::sensors::error::Error;
use crate::sensors::subfunction_type::SensorSubFunctionType;
use crate::sensors::subfunctions::{Alarm, Beep, Enable, Faulty, Max, MaxAlarm, Min, MinAlarm, WriteableBeep, WriteableEnable, WriteableMax, WriteableMin};
use crate::sysfs::{IoFailure, WriteRequest};
use crate::text::spec_trim;
use crate::units::{AngularVelocity, FanDivisor, Raw};
use vstd::prelude::*;

verus! {

/// Helper trait that sums up all functionality of a read-only fan sensor.
pub trait FanSensor: Sensor<Value = AngularVelocity> + Enable + Min + Max + Faulty + Alarm + Beep + MinAlarm + MaxAlarm {
    /// Reads the target_revs subfunction of this fan sensor.
    ///
    /// Only makes sense if the chip supports closed-loop fan speed control based on the measured fan speed.
    /// `read` is the outcome of reading the file at `self.subfunction_path(SensorSubFunctionType::Target)`.
    /// Returns an error, if this sensor doesn't support the subfunction.
    fn read_target(&self, read: Result<String, IoFailure>) -> (r: Result<AngularVelocity, Error>)
        ensures
            value_read_outcome::<AngularVelocity>(
                spec_subfunction_path(self.spec_hwmon_path(), self.spec_base(), self.spec_index(), SensorSubFunctionType::Target),
                SensorSubFunctionType::Target,
                read,
                r,
            ),
    {
        let raw = self.read_raw(SensorSubFunctionType::Target, read)?;
        match AngularVelocity::from_raw(raw.as_str()) {
            Ok(v) => Ok(v),
            Err(e) => Err(Error::from_unit_error(e)),
        }
    }

    /// Reads the div subfunction of this fan sensor.
    /// `read` is the outcome of reading the file at `self.subfunction_path(SensorSubFunctionType::Div)`.
    /// Returns an error, if this sensor doesn't support the subfunction.
    fn read_div(&self, read: Result<String, IoFailure>) -> (r: Result<FanDivisor, Error>)
        ensures
            value_read_outcome::<FanDivisor>(
                spec_subfunction_path(self.spec_hwmon_path(), self.spec_base(), self.spec_index(), SensorSubFunctionType::Div),
                SensorSubFunctionType::Div,
                read,
                r,
            ),
    {
        let raw = self.read_raw(SensorSubFunctionType::Div, read)?;
        match FanDivisor::from_raw(raw.as_str()) {
            Ok(v) => Ok(v),
            Err(e) => Err(Error::from_unit_error(e)),
        }
    }

    /// Reads the input subfunction of this fan sensor, unless the sensor reports itself as
    /// faulty: `fault` is the outcome of reading the file at
    /// `self.subfunction_path(SensorSubFunctionType::Fault)`, `input` that of reading the file at
    /// `self.subfunction_path(SensorSubFunctionType::Input)`. A fault file that cannot be read or decoded
    /// counts as not faulty.
    /// Returns an error, if the sensor is faulty or doesn't support the subfunction.
    fn read_input(&self, fault: Result<String, IoFailure>, input: Result<String, IoFailure>) -> (r:
        Result<AngularVelocity, Error>)
        ensures
            if fault matches Ok(contents) && spec_trim(contents@) == "1"@ {
                r == Err::<AngularVelocity, Error>(Error::FaultySensor)
            } else {
                value_read_outcome::<AngularVelocity>(spec_subfunction_path(self.spec_hwmon_path(), self.spec_base(), self.spec_index(), SensorSubFunctionType::Input), SensorSubFunctionType::Input, input, r)
            },
    {
        match self.check_not_faulty(fault) {
            Err(e) => Err(e),
            Ok(()) => {
                let raw = self.read_raw(SensorSubFunctionType::Input, input)?;
                match AngularVelocity::from_raw(raw.as_str()) {
                    Ok(v) => Ok(v),
                    Err(e) => Err(Error::from_unit_error(e)),
                }
            },
        }
    }
}

/// Struct that represents a fan sensor.
#[derive(Debug, Clone)]
pub struct FanSensorStruct {
    hwmon_path: String,
    index: u16,
}

impl Sensor for FanSensorStruct {
    type Value = AngularVelocity;

    open spec fn spec_base(&self) -> Seq<char> {
        "fan"@
    }

    closed spec fn spec_index(&self) -> u16 {
        self.index
    }

    closed spec fn spec_hwmon_path(&self) -> Seq<char> {
        self.hwmon_path@
    }

    fn base(&self) -> (base: &'static str) {
        "fan"
    }

    fn index(&self) -> (index: u16) {
        self.index
    }

    fn hwmon_path(&self) -> (path: &str) {
        self.hwmon_path.as_str()
    }
}

impl Parseable for FanSensorStruct {
    open spec fn spec_prefix() -> Seq<char> {
        "fan"@
    }

    open spec fn spec_primary() -> SensorSubFunctionType {
        SensorSubFunctionType::Input
    }

    open spec fn spec_first_index() -> u16 {
        1
    }

    fn prefix() -> (prefix: &'static str) {
        "fan"
    }

    fn primary() -> (sub_type: SensorSubFunctionType) {
        SensorSubFunctionType::Input
    }

    fn first_index() -> (index: u16) {
        1
    }

    fn at(hwmon_path: &str, index: u16) -> (sensor: FanSensorStruct) {
        FanSensorStruct { hwmon_path: String::from_str(hwmon_path), index }
    }
}

impl Enable for FanSensorStruct {

}

impl Min for FanSensorStruct {

}

impl Max for FanSensorStruct {

}

impl Faulty for FanSensorStruct {

}

impl Alarm for FanSensorStruct {

}

impl Beep for FanSensorStruct {

}

impl FanSensor for FanSensorStruct {

}

impl WriteableSensor for FanSensorStruct {

}

/// Helper trait that sums up all functionality of a read-write fan sensor.
pub trait WriteableFanSensor: FanSensor + WriteableSensor + WriteableEnable + WriteableMin + WriteableMax + WriteableBeep {
    /// Converts target and writes it to this fan's target subfunction.
    ///
    /// Only makes sense if the chip supports closed-loop fan speed control based on the measured fan speed.
    /// Returns the write to perform; hand its outcome to `write_result` with the same subfunction.
    fn write_target(&self, target: AngularVelocity) -> (request: WriteRequest)
        ensures
            request.path@ == spec_subfunction_path(self.spec_hwmon_path(), self.spec_base(), self.spec_index(), SensorSubFunctionType::Target),
            request.contents@ == target.spec_encode(),
    {
        let raw = target.to_raw();
        self.write_raw(SensorSubFunctionType::Target, raw.as_str())
    }

    /// Converts div and writes it to this fan's divisor subfunction.
    /// Returns the write to perform; hand its outcome to `write_result` with the same subfunction.
    fn write_div(&self, div: FanDivisor) -> (request: WriteRequest)
        ensures
            request.path@ == spec_subfunction_path(self.spec_hwmon_path(), self.spec_base(), self.spec_index(), SensorSubFunctionType::Div),
            request.contents@ == div.spec_encode(),
    {
        let raw = div.to_raw();
        self.write_raw(SensorSubFunctionType::Div, raw.as_str())
    }
}

impl WriteableFanSensor for FanSensorStruct {

}

} // verus!
