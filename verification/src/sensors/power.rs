//! Module containing the power sensors and their related functionality.

use crate::parsing::Parseable;
use crate::sensors::base::{spec_subfunction_path, value_read_outcome, Sensor, WriteableSensor};
use crate::sensors::error::Error;
use crate::sensors::subfunction_type::SensorSubFunctionType;
use crate::sensors::subfunctions::{Alarm, Average, Beep, CapAlarm, Crit, CritAlarm, Enable, Highest, Input, Lowest, Max, MaxAlarm, WriteableBeep, WriteableCrit, WriteableEnable, WriteableMax};
use crate::sysfs::{IoFailure, WriteRequest};
use crate::units::{Duration, Power, Ratio, Raw};
use vstd::prelude::*;

verus! {

/// Helper trait that sums up all functionality of a read-only power sensor.
pub trait PowerSensor: Sensor<Value = Power> + Enable + Input + Max + Crit + Average + Highest + Lowest + Alarm + CapAlarm + Beep + MaxAlarm + CritAlarm {
    /// Reads the accuracy subfunction of this power sensor.
    /// `read` is the outcome of reading the file at `self.subfunction_path(SensorSubFunctionType::Accuracy)`.
    /// Returns an error, if this sensor doesn't support the subfunction.
    fn read_accuracy(&self, read: Result<String, IoFailure>) -> (r: Result<Ratio, Error>)
        ensures
            value_read_outcome::<Ratio>(
                spec_subfunction_path(self.spec_hwmon_path(), self.spec_base(), self.spec_index(), SensorSubFunctionType::Accuracy),
                SensorSubFunctionType::Accuracy,
                read,
                r,
            ),
    {
        let raw = self.read_raw(SensorSubFunctionType::Accuracy, read)?;
        match Ratio::from_raw(raw.as_str()) {
            Ok(v) => Ok(v),
            Err(e) => Err(Error::from_unit_error(e)),
        }
    }

    /// Reads the cap subfunction of this power sensor.
    /// `read` is the outcome of reading the file at `self.subfunction_path(SensorSubFunctionType::Cap)`.
    /// Returns an error, if this sensor doesn't support the subfunction.
    fn read_cap(&self, read: Result<String, IoFailure>) -> (r: Result<Power, Error>)
        ensures
            value_read_outcome::<Power>(
                spec_subfunction_path(self.spec_hwmon_path(), self.spec_base(), self.spec_index(), SensorSubFunctionType::Cap),
                SensorSubFunctionType::Cap,
                read,
                r,
            ),
    {
        let raw = self.read_raw(SensorSubFunctionType::Cap, read)?;
        match Power::from_raw(raw.as_str()) {
            Ok(v) => Ok(v),
            Err(e) => Err(Error::from_unit_error(e)),
        }
    }

    /// Reads the cap_max subfunction of this power sensor.
    /// `read` is the outcome of reading the file at `self.subfunction_path(SensorSubFunctionType::CapMax)`.
    /// Returns an error, if this sensor doesn't support the subfunction.
    fn read_cap_max(&self, read: Result<String, IoFailure>) -> (r: Result<Power, Error>)
        ensures
            value_read_outcome::<Power>(
                spec_subfunction_path(self.spec_hwmon_path(), self.spec_base(), self.spec_index(), SensorSubFunctionType::CapMax),
                SensorSubFunctionType::CapMax,
                read,
                r,
            ),
    {
        let raw = self.read_raw(SensorSubFunctionType::CapMax, read)?;
        match Power::from_raw(raw.as_str()) {
            Ok(v) => Ok(v),
            Err(e) => Err(Error::from_unit_error(e)),
        }
    }

    /// Reads the cap_min subfunction of this power sensor.
    /// `read` is the outcome of reading the file at `self.subfunction_path(SensorSubFunctionType::CapMin)`.
    /// Returns an error, if this sensor doesn't support the subfunction.
    fn read_cap_min(&self, read: Result<String, IoFailure>) -> (r: Result<Power, Error>)
        ensures
            value_read_outcome::<Power>(
                spec_subfunction_path(self.spec_hwmon_path(), self.spec_base(), self.spec_index(), SensorSubFunctionType::CapMin),
                SensorSubFunctionType::CapMin,
                read,
                r,
            ),
    {
        let raw = self.read_raw(SensorSubFunctionType::CapMin, read)?;
        match Power::from_raw(raw.as_str()) {
            Ok(v) => Ok(v),
            Err(e) => Err(Error::from_unit_error(e)),
        }
    }

    /// Reads the cap_hyst subfunction of this power sensor.
    /// `read` is the outcome of reading the file at `self.subfunction_path(SensorSubFunctionType::CapHyst)`.
    /// Returns an error, if this sensor doesn't support the subfunction.
    fn read_cap_hyst(&self, read: Result<String, IoFailure>) -> (r: Result<Power, Error>)
        ensures
            value_read_outcome::<Power>(
                spec_subfunction_path(self.spec_hwmon_path(), self.spec_base(), self.spec_index(), SensorSubFunctionType::CapHyst),
                SensorSubFunctionType::CapHyst,
                read,
                r,
            ),
    {
        let raw = self.read_raw(SensorSubFunctionType::CapHyst, read)?;
        match Power::from_raw(raw.as_str()) {
            Ok(v) => Ok(v),
            Err(e) => Err(Error::from_unit_error(e)),
        }
    }

    /// Reads the average_interval subfunction of this power sensor.
    /// `read` is the outcome of reading the file at `self.subfunction_path(SensorSubFunctionType::AverageInterval)`.
    /// Returns an error, if this sensor doesn't support the subfunction.
    fn read_average_interval(&self, read: Result<String, IoFailure>) -> (r: Result<Duration, Error>)
        ensures
            value_read_outcome::<Duration>(
                spec_subfunction_path(self.spec_hwmon_path(), self.spec_base(), self.spec_index(), SensorSubFunctionType::AverageInterval),
                SensorSubFunctionType::AverageInterval,
                read,
                r,
            ),
    {
        let raw = self.read_raw(SensorSubFunctionType::AverageInterval, read)?;
        match Duration::from_raw(raw.as_str()) {
            Ok(v) => Ok(v),
            Err(e) => Err(Error::from_unit_error(e)),
        }
    }

    /// Reads the average_interval_max subfunction of this power sensor.
    /// `read` is the outcome of reading the file at `self.subfunction_path(SensorSubFunctionType::AverageIntervalMax)`.
    /// Returns an error, if this sensor doesn't support the subfunction.
    fn read_average_interval_max(&self, read: Result<String, IoFailure>) -> (r: Result<Duration, Error>)
        ensures
            value_read_outcome::<Duration>(
                spec_subfunction_path(self.spec_hwmon_path(), self.spec_base(), self.spec_index(), SensorSubFunctionType::AverageIntervalMax),
                SensorSubFunctionType::AverageIntervalMax,
                read,
                r,
            ),
    {
        let raw = self.read_raw(SensorSubFunctionType::AverageIntervalMax, read)?;
        match Duration::from_raw(raw.as_str()) {
            Ok(v) => Ok(v),
            Err(e) => Err(Error::from_unit_error(e)),
        }
    }

    /// Reads the average_interval_min subfunction of this power sensor.
    /// `read` is the outcome of reading the file at `self.subfunction_path(SensorSubFunctionType::AverageIntervalMin)`.
    /// Returns an error, if this sensor doesn't support the subfunction.
    fn read_average_interval_min(&self, read: Result<String, IoFailure>) -> (r: Result<Duration, Error>)
        ensures
            value_read_outcome::<Duration>(
                spec_subfunction_path(self.spec_hwmon_path(), self.spec_base(), self.spec_index(), SensorSubFunctionType::AverageIntervalMin),
                SensorSubFunctionType::AverageIntervalMin,
                read,
                r,
            ),
    {
        let raw = self.read_raw(SensorSubFunctionType::AverageIntervalMin, read)?;
        match Duration::from_raw(raw.as_str()) {
            Ok(v) => Ok(v),
            Err(e) => Err(Error::from_unit_error(e)),
        }
    }

    /// Reads the average_highest subfunction of this power sensor.
    /// `read` is the outcome of reading the file at `self.subfunction_path(SensorSubFunctionType::AverageHighest)`.
    /// Returns an error, if this sensor doesn't support the subfunction.
    fn read_average_highest(&self, read: Result<String, IoFailure>) -> (r: Result<Power, Error>)
        ensures
            value_read_outcome::<Power>(
                spec_subfunction_path(self.spec_hwmon_path(), self.spec_base(), self.spec_index(), SensorSubFunctionType::AverageHighest),
                SensorSubFunctionType::AverageHighest,
                read,
                r,
            ),
    {
        let raw = self.read_raw(SensorSubFunctionType::AverageHighest, read)?;
        match Power::from_raw(raw.as_str()) {
            Ok(v) => Ok(v),
            Err(e) => Err(Error::from_unit_error(e)),
        }
    }

    /// Reads the average_lowest subfunction of this power sensor.
    /// `read` is the outcome of reading the file at `self.subfunction_path(SensorSubFunctionType::AverageLowest)`.
    /// Returns an error, if this sensor doesn't support the subfunction.
    fn read_average_lowest(&self, read: Result<String, IoFailure>) -> (r: Result<Power, Error>)
        ensures
            value_read_outcome::<Power>(
                spec_subfunction_path(self.spec_hwmon_path(), self.spec_base(), self.spec_index(), SensorSubFunctionType::AverageLowest),
                SensorSubFunctionType::AverageLowest,
                read,
                r,
            ),
    {
        let raw = self.read_raw(SensorSubFunctionType::AverageLowest, read)?;
        match Power::from_raw(raw.as_str()) {
            Ok(v) => Ok(v),
            Err(e) => Err(Error::from_unit_error(e)),
        }
    }

    /// Reads the average_max subfunction of this power sensor.
    /// `read` is the outcome of reading the file at `self.subfunction_path(SensorSubFunctionType::AverageMax)`.
    /// Returns an error, if this sensor doesn't support the subfunction.
    fn read_average_max(&self, read: Result<String, IoFailure>) -> (r: Result<Power, Error>)
        ensures
            value_read_outcome::<Power>(
                spec_subfunction_path(self.spec_hwmon_path(), self.spec_base(), self.spec_index(), SensorSubFunctionType::AverageMax),
                SensorSubFunctionType::AverageMax,
                read,
                r,
            ),
    {
        let raw = self.read_raw(SensorSubFunctionType::AverageMax, read)?;
        match Power::from_raw(raw.as_str()) {
            Ok(v) => Ok(v),
            Err(e) => Err(Error::from_unit_error(e)),
        }
    }

    /// Reads the average_min subfunction of this power sensor.
    /// `read` is the outcome of reading the file at `self.subfunction_path(SensorSubFunctionType::AverageMin)`.
    /// Returns an error, if this sensor doesn't support the subfunction.
    fn read_average_min(&self, read: Result<String, IoFailure>) -> (r: Result<Power, Error>)
        ensures
            value_read_outcome::<Power>(
                spec_subfunction_path(self.spec_hwmon_path(), self.spec_base(), self.spec_index(), SensorSubFunctionType::AverageMin),
                SensorSubFunctionType::AverageMin,
                read,
                r,
            ),
    {
        let raw = self.read_raw(SensorSubFunctionType::AverageMin, read)?;
        match Power::from_raw(raw.as_str()) {
            Ok(v) => Ok(v),
            Err(e) => Err(Error::from_unit_error(e)),
        }
    }
}

/// Struct that represents a power sensor.
#[derive(Debug, Clone)]
pub struct PowerSensorStruct {
    hwmon_path: String,
    index: u16,
}

impl Sensor for PowerSensorStruct {
    type Value = Power;

    open spec fn spec_base(&self) -> Seq<char> {
        "power"@
    }

    closed spec fn spec_index(&self) -> u16 {
        self.index
    }

    closed spec fn spec_hwmon_path(&self) -> Seq<char> {
        self.hwmon_path@
    }

    fn base(&self) -> (base: &'static str) {
        "power"
    }

    fn index(&self) -> (index: u16) {
        self.index
    }

    fn hwmon_path(&self) -> (path: &str) {
        self.hwmon_path.as_str()
    }
}

impl Parseable for PowerSensorStruct {
    open spec fn spec_prefix() -> Seq<char> {
        "power"@
    }

    open spec fn spec_primary() -> SensorSubFunctionType {
        SensorSubFunctionType::Input
    }

    open spec fn spec_first_index() -> u16 {
        1
    }

    fn prefix() -> (prefix: &'static str) {
        "power"
    }

    fn primary() -> (sub_type: SensorSubFunctionType) {
        SensorSubFunctionType::Input
    }

    fn first_index() -> (index: u16) {
        1
    }

    fn at(hwmon_path: &str, index: u16) -> (sensor: PowerSensorStruct) {
        PowerSensorStruct { hwmon_path: String::from_str(hwmon_path), index }
    }
}

impl Enable for PowerSensorStruct {

}

impl Input for PowerSensorStruct {

}

impl Max for PowerSensorStruct {

}

impl Crit for PowerSensorStruct {

}

impl Average for PowerSensorStruct {

}

impl Highest for PowerSensorStruct {

}

impl Lowest for PowerSensorStruct {

}

impl Alarm for PowerSensorStruct {

}

impl CapAlarm for PowerSensorStruct {

}

impl Beep for PowerSensorStruct {

}

impl PowerSensor for PowerSensorStruct {

}

impl WriteableSensor for PowerSensorStruct {

}

/// Helper trait that sums up all functionality of a read-write power sensor.
pub trait WriteablePowerSensor: PowerSensor + WriteableSensor + WriteableEnable + WriteableMax + WriteableCrit + WriteableBeep {
    /// Converts cap and writes it to the cap subfunction of this power sensor.
    /// Returns the write to perform; hand its outcome to `write_result` with the same subfunction.
    fn write_cap(&self, cap: Power) -> (request: WriteRequest)
        ensures
            request.path@ == spec_subfunction_path(self.spec_hwmon_path(), self.spec_base(), self.spec_index(), SensorSubFunctionType::Cap),
            request.contents@ == cap.spec_encode(),
    {
        let raw = cap.to_raw();
        self.write_raw(SensorSubFunctionType::Cap, raw.as_str())
    }

    /// Converts cap_hyst and writes it to the cap_hyst subfunction of this power sensor.
    /// Returns the write to perform; hand its outcome to `write_result` with the same subfunction.
    fn write_cap_hyst(&self, cap_hyst: Power) -> (request: WriteRequest)
        ensures
            request.path@ == spec_subfunction_path(self.spec_hwmon_path(), self.spec_base(), self.spec_index(), SensorSubFunctionType::CapHyst),
            request.contents@ == cap_hyst.spec_encode(),
    {
        let raw = cap_hyst.to_raw();
        self.write_raw(SensorSubFunctionType::CapHyst, raw.as_str())
    }

    /// Converts interval and writes it to the average_interval subfunction of this power sensor.
    /// Returns the write to perform; hand its outcome to `write_result` with the same subfunction.
    fn write_average_interval(&self, interval: Duration) -> (request: WriteRequest)
        ensures
            request.path@ == spec_subfunction_path(self.spec_hwmon_path(), self.spec_base(), self.spec_index(), SensorSubFunctionType::AverageInterval),
            request.contents@ == interval.spec_encode(),
    {
        let raw = interval.to_raw();
        self.write_raw(SensorSubFunctionType::AverageInterval, raw.as_str())
    }
}

impl WriteablePowerSensor for PowerSensorStruct {

}

} // verus!
