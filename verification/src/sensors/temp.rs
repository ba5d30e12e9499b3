//! Module containing the temp sensors and their related functionality.

use crate::parsing::Parseable;
use crate::sensors::base::{spec_subfunction_path, value_read_outcome, Sensor, WriteableSensor};
use crate::sensors::error::Error;
use crate::sensors::subfunction_type::SensorSubFunctionType;
use crate::sensors::subfunctions::{Alarm, Beep, Crit, CritAlarm, EmergencyAlarm, Enable, Faulty, LowCrit, LowCritAlarm, Max, MaxAlarm, Min, MinAlarm, WriteableBeep, WriteableCrit, WriteableEnable, WriteableLowCrit, WriteableMax, WriteableMin};
use crate::sysfs::{IoFailure, WriteRequest};
use crate::text::spec_trim;
use crate::units::{TempType, Temperature, Raw};
use vstd::prelude::*;

verus! {

/// Helper trait that sums up all functionality of a read-only temp sensor.
pub trait TempSensor: Sensor<Value = Temperature> + Enable + Min + Max + Crit + LowCrit + Faulty + Alarm + EmergencyAlarm + Beep + MinAlarm + MaxAlarm + CritAlarm + LowCritAlarm {
    /// Reads the type subfunction of this temp sensor.
    /// `read` is the outcome of reading the file at `self.subfunction_path(SensorSubFunctionType::Type)`.
    /// Returns an error, if this sensor doesn't support the subfunction.
    fn read_type(&self, read: Result<String, IoFailure>) -> (r: Result<TempType, Error>)
        ensures
            value_read_outcome::<TempType>(
                spec_subfunction_path(self.spec_hwmon_path(), self.spec_base(), self.spec_index(), SensorSubFunctionType::Type),
                SensorSubFunctionType::Type,
                read,
                r,
            ),
    {
        let raw = self.read_raw(SensorSubFunctionType::Type, read)?;
        match TempType::from_raw(raw.as_str()) {
            Ok(v) => Ok(v),
            Err(e) => Err(Error::from_unit_error(e)),
        }
    }

    /// Reads the offset subfunction of this temp sensor.
    /// `read` is the outcome of reading the file at `self.subfunction_path(SensorSubFunctionType::Offset)`.
    /// Returns an error, if this sensor doesn't support the subfunction.
    fn read_offset(&self, read: Result<String, IoFailure>) -> (r: Result<Temperature, Error>)
        ensures
            value_read_outcome::<Temperature>(
                spec_subfunction_path(self.spec_hwmon_path(), self.spec_base(), self.spec_index(), SensorSubFunctionType::Offset),
                SensorSubFunctionType::Offset,
                read,
                r,
            ),
    {
        let raw = self.read_raw(SensorSubFunctionType::Offset, read)?;
        match Temperature::from_raw(raw.as_str()) {
            Ok(v) => Ok(v),
            Err(e) => Err(Error::from_unit_error(e)),
        }
    }

    /// Reads the max_hyst subfunction of this temp sensor.
    /// `read` is the outcome of reading the file at `self.subfunction_path(SensorSubFunctionType::MaxHyst)`.
    /// Returns an error, if this sensor doesn't support the subfunction.
    fn read_max_hyst(&self, read: Result<String, IoFailure>) -> (r: Result<Temperature, Error>)
        ensures
            value_read_outcome::<Temperature>(
                spec_subfunction_path(self.spec_hwmon_path(), self.spec_base(), self.spec_index(), SensorSubFunctionType::MaxHyst),
                SensorSubFunctionType::MaxHyst,
                read,
                r,
            ),
    {
        let raw = self.read_raw(SensorSubFunctionType::MaxHyst, read)?;
        match Temperature::from_raw(raw.as_str()) {
            Ok(v) => Ok(v),
            Err(e) => Err(Error::from_unit_error(e)),
        }
    }

    /// Reads the min_hyst subfunction of this temp sensor.
    /// `read` is the outcome of reading the file at `self.subfunction_path(SensorSubFunctionType::MinHyst)`.
    /// Returns an error, if this sensor doesn't support the subfunction.
    fn read_min_hyst(&self, read: Result<String, IoFailure>) -> (r: Result<Temperature, Error>)
        ensures
            value_read_outcome::<Temperature>(
                spec_subfunction_path(self.spec_hwmon_path(), self.spec_base(), self.spec_index(), SensorSubFunctionType::MinHyst),
                SensorSubFunctionType::MinHyst,
                read,
                r,
            ),
    {
        let raw = self.read_raw(SensorSubFunctionType::MinHyst, read)?;
        match Temperature::from_raw(raw.as_str()) {
            Ok(v) => Ok(v),
            Err(e) => Err(Error::from_unit_error(e)),
        }
    }

    /// Reads the crit_hyst subfunction of this temp sensor.
    /// `read` is the outcome of reading the file at `self.subfunction_path(SensorSubFunctionType::CritHyst)`.
    /// Returns an error, if this sensor doesn't support the subfunction.
    fn read_crit_hyst(&self, read: Result<String, IoFailure>) -> (r: Result<Temperature, Error>)
        ensures
            value_read_outcome::<Temperature>(
                spec_subfunction_path(self.spec_hwmon_path(), self.spec_base(), self.spec_index(), SensorSubFunctionType::CritHyst),
                SensorSubFunctionType::CritHyst,
                read,
                r,
            ),
    {
        let raw = self.read_raw(SensorSubFunctionType::CritHyst, read)?;
        match Temperature::from_raw(raw.as_str()) {
            Ok(v) => Ok(v),
            Err(e) => Err(Error::from_unit_error(e)),
        }
    }

    /// Reads the emergency subfunction of this temp sensor.
    /// `read` is the outcome of reading the file at `self.subfunction_path(SensorSubFunctionType::Emergency)`.
    /// Returns an error, if this sensor doesn't support the subfunction.
    fn read_emergency(&self, read: Result<String, IoFailure>) -> (r: Result<Temperature, Error>)
        ensures
            value_read_outcome::<Temperature>(
                spec_subfunction_path(self.spec_hwmon_path(), self.spec_base(), self.spec_index(), SensorSubFunctionType::Emergency),
                SensorSubFunctionType::Emergency,
                read,
                r,
            ),
    {
        let raw = self.read_raw(SensorSubFunctionType::Emergency, read)?;
        match Temperature::from_raw(raw.as_str()) {
            Ok(v) => Ok(v),
            Err(e) => Err(Error::from_unit_error(e)),
        }
    }

    /// Reads the emergency_hyst subfunction of this temp sensor.
    /// `read` is the outcome of reading the file at `self.subfunction_path(SensorSubFunctionType::EmergencyHyst)`.
    /// Returns an error, if this sensor doesn't support the subfunction.
    fn read_emergency_hyst(&self, read: Result<String, IoFailure>) -> (r: Result<Temperature, Error>)
        ensures
            value_read_outcome::<Temperature>(
                spec_subfunction_path(self.spec_hwmon_path(), self.spec_base(), self.spec_index(), SensorSubFunctionType::EmergencyHyst),
                SensorSubFunctionType::EmergencyHyst,
                read,
                r,
            ),
    {
        let raw = self.read_raw(SensorSubFunctionType::EmergencyHyst, read)?;
        match Temperature::from_raw(raw.as_str()) {
            Ok(v) => Ok(v),
            Err(e) => Err(Error::from_unit_error(e)),
        }
    }

    /// Reads the lcrit_hyst subfunction of this temp sensor.
    /// `read` is the outcome of reading the file at `self.subfunction_path(SensorSubFunctionType::LowCritHyst)`.
    /// Returns an error, if this sensor doesn't support the subfunction.
    fn read_lcrit_hyst(&self, read: Result<String, IoFailure>) -> (r: Result<Temperature, Error>)
        ensures
            value_read_outcome::<Temperature>(
                spec_subfunction_path(self.spec_hwmon_path(), self.spec_base(), self.spec_index(), SensorSubFunctionType::LowCritHyst),
                SensorSubFunctionType::LowCritHyst,
                read,
                r,
            ),
    {
        let raw = self.read_raw(SensorSubFunctionType::LowCritHyst, read)?;
        match Temperature::from_raw(raw.as_str()) {
            Ok(v) => Ok(v),
            Err(e) => Err(Error::from_unit_error(e)),
        }
    }

    /// Reads the input subfunction of this temp sensor, unless the sensor reports itself as
    /// faulty: `fault` is the outcome of reading the file at
    /// `self.subfunction_path(SensorSubFunctionType::Fault)`, `input` that of reading the file at
    /// `self.subfunction_path(SensorSubFunctionType::Input)`. A fault file that cannot be read or decoded
    /// counts as not faulty.
    /// Returns an error, if the sensor is faulty or doesn't support the subfunction.
    fn read_input(&self, fault: Result<String, IoFailure>, input: Result<String, IoFailure>) -> (r:
        Result<Temperature, Error>)
        ensures
            if fault matches Ok(contents) && spec_trim(contents@) == "1"@ {
                r == Err::<Temperature, Error>(Error::FaultySensor)
            } else {
                value_read_outcome::<Temperature>(spec_subfunction_path(self.spec_hwmon_path(), self.spec_base(), self.spec_index(), SensorSubFunctionType::Input), SensorSubFunctionType::Input, input, r)
            },
    {
        match self.check_not_faulty(fault) {
            Err(e) => Err(e),
            Ok(()) => {
                let raw = self.read_raw(SensorSubFunctionType::Input, input)?;
                match Temperature::from_raw(raw.as_str()) {
                    Ok(v) => Ok(v),
                    Err(e) => Err(Error::from_unit_error(e)),
                }
            },
        }
    }
}

/// Struct that represents a temp sensor.
#[derive(Debug, Clone)]
pub struct TempSensorStruct {
    hwmon_path: String,
    index: u16,
}

impl Sensor for TempSensorStruct {
    type Value = Temperature;

    open spec fn spec_base(&self) -> Seq<char> {
        "temp"@
    }

    closed spec fn spec_index(&self) -> u16 {
        self.index
    }

    closed spec fn spec_hwmon_path(&self) -> Seq<char> {
        self.hwmon_path@
    }

    fn base(&self) -> (base: &'static str) {
        "temp"
    }

    fn index(&self) -> (index: u16) {
        self.index
    }

    fn hwmon_path(&self) -> (path: &str) {
        self.hwmon_path.as_str()
    }
}

impl Parseable for TempSensorStruct {
    open spec fn spec_prefix() -> Seq<char> {
        "temp"@
    }

    open spec fn spec_primary() -> SensorSubFunctionType {
        SensorSubFunctionType::Input
    }

    open spec fn spec_first_index() -> u16 {
        1
    }

    fn prefix() -> (prefix: &'static str) {
        "temp"
    }

    fn primary() -> (sub_type: SensorSubFunctionType) {
        SensorSubFunctionType::Input
    }

    fn first_index() -> (index: u16) {
        1
    }

    fn at(hwmon_path: &str, index: u16) -> (sensor: TempSensorStruct) {
        TempSensorStruct { hwmon_path: String::from_str(hwmon_path), index }
    }
}

impl Enable for TempSensorStruct {

}

impl Min for TempSensorStruct {

}

impl Max for TempSensorStruct {

}

impl Crit for TempSensorStruct {

}

impl LowCrit for TempSensorStruct {

}

impl Faulty for TempSensorStruct {

}

impl Alarm for TempSensorStruct {

}

impl EmergencyAlarm for TempSensorStruct {

}

impl Beep for TempSensorStruct {

}

impl TempSensor for TempSensorStruct {

}

impl WriteableSensor for TempSensorStruct {

}

/// Helper trait that sums up all functionality of a read-write temp sensor.
pub trait WriteableTempSensor: TempSensor + WriteableSensor + WriteableEnable + WriteableMin + WriteableMax + WriteableCrit + WriteableLowCrit + WriteableBeep {
    /// Converts offset and writes it to this temp's offset subfunction.
    /// Returns the write to perform; hand its outcome to `write_result` with the same subfunction.
    fn write_offset(&self, offset: Temperature) -> (request: WriteRequest)
        ensures
            request.path@ == spec_subfunction_path(self.spec_hwmon_path(), self.spec_base(), self.spec_index(), SensorSubFunctionType::Offset),
            request.contents@ == offset.spec_encode(),
    {
        let raw = offset.to_raw();
        self.write_raw(SensorSubFunctionType::Offset, raw.as_str())
    }

    /// Converts max_hyst and writes it to this temp's max_hyst subfunction.
    /// Returns the write to perform; hand its outcome to `write_result` with the same subfunction.
    fn write_max_hyst(&self, max_hyst: Temperature) -> (request: WriteRequest)
        ensures
            request.path@ == spec_subfunction_path(self.spec_hwmon_path(), self.spec_base(), self.spec_index(), SensorSubFunctionType::MaxHyst),
            request.contents@ == max_hyst.spec_encode(),
    {
        let raw = max_hyst.to_raw();
        self.write_raw(SensorSubFunctionType::MaxHyst, raw.as_str())
    }

    /// Converts min_hyst and writes it to this temp's min_hyst subfunction.
    /// Returns the write to perform; hand its outcome to `write_result` with the same subfunction.
    fn write_min_hyst(&self, min_hyst: Temperature) -> (request: WriteRequest)
        ensures
            request.path@ == spec_subfunction_path(self.spec_hwmon_path(), self.spec_base(), self.spec_index(), SensorSubFunctionType::MinHyst),
            request.contents@ == min_hyst.spec_encode(),
    {
        let raw = min_hyst.to_raw();
        self.write_raw(SensorSubFunctionType::MinHyst, raw.as_str())
    }

    /// Converts crit_hyst and writes it to this temp's crit_hyst subfunction.
    /// Returns the write to perform; hand its outcome to `write_result` with the same subfunction.
    fn write_crit_hyst(&self, crit_hyst: Temperature) -> (request: WriteRequest)
        ensures
            request.path@ == spec_subfunction_path(self.spec_hwmon_path(), self.spec_base(), self.spec_index(), SensorSubFunctionType::CritHyst),
            request.contents@ == crit_hyst.spec_encode(),
    {
        let raw = crit_hyst.to_raw();
        self.write_raw(SensorSubFunctionType::CritHyst, raw.as_str())
    }

    /// Converts emergency and writes it to this temp's emergency subfunction.
    /// Returns the write to perform; hand its outcome to `write_result` with the same subfunction.
    fn write_emergency(&self, emergency: Temperature) -> (request: WriteRequest)
        ensures
            request.path@ == spec_subfunction_path(self.spec_hwmon_path(), self.spec_base(), self.spec_index(), SensorSubFunctionType::Emergency),
            request.contents@ == emergency.spec_encode(),
    {
        let raw = emergency.to_raw();
        self.write_raw(SensorSubFunctionType::Emergency, raw.as_str())
    }

    /// Converts emergency_hyst and writes it to this temp's emergency_hyst subfunction.
    /// Returns the write to perform; hand its outcome to `write_result` with the same subfunction.
    fn write_emergency_hyst(&self, emergency_hyst: Temperature) -> (request: WriteRequest)
        ensures
            request.path@ == spec_subfunction_path(self.spec_hwmon_path(), self.spec_base(), self.spec_index(), SensorSubFunctionType::EmergencyHyst),
            request.contents@ == emergency_hyst.spec_encode(),
    {
        let raw = emergency_hyst.to_raw();
        self.write_raw(SensorSubFunctionType::EmergencyHyst, raw.as_str())
    }

    /// Converts lcrit_hyst and writes it to this temp's lcrit_hyst subfunction.
    /// Returns the write to perform; hand its outcome to `write_result` with the same subfunction.
    fn write_lcrit_hyst(&self, lcrit_hyst: Temperature) -> (request: WriteRequest)
        ensures
            request.path@ == spec_subfunction_path(self.spec_hwmon_path(), self.spec_base(), self.spec_index(), SensorSubFunctionType::LowCritHyst),
            request.contents@ == lcrit_hyst.spec_encode(),
    {
        let raw = lcrit_hyst.to_raw();
        self.write_raw(SensorSubFunctionType::LowCritHyst, raw.as_str())
    }
}

impl WriteableTempSensor for TempSensorStruct {

}

} // verus!
