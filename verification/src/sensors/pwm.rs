//! Module containing the pwm sensors and their related functionality.

use crate::parsing::Parseable;
use crate::sensors::base::{spec_subfunction_path, value_read_outcome, Sensor, WriteableSensor};
use crate::sensors::error::Error;
use crate::sensors::subfunction_type::SensorSubFunctionType;
use crate::sysfs::{IoFailure, WriteRequest};
use crate::units::{Frequency, Pwm, PwmEnable, PwmMode, Raw};
use vstd::prelude::*;

verus! {

/// Helper trait that sums up all functionality of a read-only pwm sensor.
pub trait PwmSensor: Sensor<Value = Pwm> {
    /// Reads the pwm subfunction of this pwm sensor.
    /// `read` is the outcome of reading the file at `self.subfunction_path(SensorSubFunctionType::Pwm)`.
    /// Returns an error, if this sensor doesn't support the subfunction.
    fn read_pwm(&self, read: Result<String, IoFailure>) -> (r: Result<Pwm, Error>)
        ensures
            value_read_outcome::<Pwm>(
                spec_subfunction_path(self.spec_hwmon_path(), self.spec_base(), self.spec_index(), SensorSubFunctionType::Pwm),
                SensorSubFunctionType::Pwm,
                read,
                r,
            ),
    {
        let raw = self.read_raw(SensorSubFunctionType::Pwm, read)?;
        match Pwm::from_raw(raw.as_str()) {
            Ok(v) => Ok(v),
            Err(e) => Err(Error::from_unit_error(e)),
        }
    }

    /// Reads the enable subfunction of this pwm sensor.
    /// `read` is the outcome of reading the file at `self.subfunction_path(SensorSubFunctionType::Enable)`.
    /// Returns an error, if this sensor doesn't support the subfunction.
    fn read_enable(&self, read: Result<String, IoFailure>) -> (r: Result<PwmEnable, Error>)
        ensures
            value_read_outcome::<PwmEnable>(
                spec_subfunction_path(self.spec_hwmon_path(), self.spec_base(), self.spec_index(), SensorSubFunctionType::Enable),
                SensorSubFunctionType::Enable,
                read,
                r,
            ),
    {
        let raw = self.read_raw(SensorSubFunctionType::Enable, read)?;
        match PwmEnable::from_raw(raw.as_str()) {
            Ok(v) => Ok(v),
            Err(e) => Err(Error::from_unit_error(e)),
        }
    }

    /// Reads the mode subfunction of this pwm sensor.
    /// `read` is the outcome of reading the file at `self.subfunction_path(SensorSubFunctionType::Mode)`.
    /// Returns an error, if this sensor doesn't support the subfunction.
    fn read_mode(&self, read: Result<String, IoFailure>) -> (r: Result<PwmMode, Error>)
        ensures
            value_read_outcome::<PwmMode>(
                spec_subfunction_path(self.spec_hwmon_path(), self.spec_base(), self.spec_index(), SensorSubFunctionType::Mode),
                SensorSubFunctionType::Mode,
                read,
                r,
            ),
    {
        let raw = self.read_raw(SensorSubFunctionType::Mode, read)?;
        match PwmMode::from_raw(raw.as_str()) {
            Ok(v) => Ok(v),
            Err(e) => Err(Error::from_unit_error(e)),
        }
    }

    /// Reads the freq subfunction of this pwm sensor.
    /// `read` is the outcome of reading the file at `self.subfunction_path(SensorSubFunctionType::Freq)`.
    /// Returns an error, if this sensor doesn't support the subfunction.
    fn read_frequency(&self, read: Result<String, IoFailure>) -> (r: Result<Frequency, Error>)
        ensures
            value_read_outcome::<Frequency>(
                spec_subfunction_path(self.spec_hwmon_path(), self.spec_base(), self.spec_index(), SensorSubFunctionType::Freq),
                SensorSubFunctionType::Freq,
                read,
                r,
            ),
    {
        let raw = self.read_raw(SensorSubFunctionType::Freq, read)?;
        match Frequency::from_raw(raw.as_str()) {
            Ok(v) => Ok(v),
            Err(e) => Err(Error::from_unit_error(e)),
        }
    }
}

/// Struct that represents a pwm sensor.
#[derive(Debug, Clone)]
pub struct PwmSensorStruct {
    hwmon_path: String,
    index: u16,
}

impl Sensor for PwmSensorStruct {
    type Value = Pwm;

    open spec fn spec_base(&self) -> Seq<char> {
        "pwm"@
    }

    closed spec fn spec_index(&self) -> u16 {
        self.index
    }

    closed spec fn spec_hwmon_path(&self) -> Seq<char> {
        self.hwmon_path@
    }

    fn base(&self) -> (base: &'static str) {
        "pwm"
    }

    fn index(&self) -> (index: u16) {
        self.index
    }

    fn hwmon_path(&self) -> (path: &str) {
        self.hwmon_path.as_str()
    }
}

impl Parseable for PwmSensorStruct {
    open spec fn spec_prefix() -> Seq<char> {
        "pwm"@
    }

    open spec fn spec_primary() -> SensorSubFunctionType {
        SensorSubFunctionType::Pwm
    }

    open spec fn spec_first_index() -> u16 {
        1
    }

    fn prefix() -> (prefix: &'static str) {
        "pwm"
    }

    fn primary() -> (sub_type: SensorSubFunctionType) {
        SensorSubFunctionType::Pwm
    }

    fn first_index() -> (index: u16) {
        1
    }

    fn at(hwmon_path: &str, index: u16) -> (sensor: PwmSensorStruct) {
        PwmSensorStruct { hwmon_path: String::from_str(hwmon_path), index }
    }
}

impl PwmSensor for PwmSensorStruct {

}

impl WriteableSensor for PwmSensorStruct {

}

/// Helper trait that sums up all functionality of a read-write pwm sensor.
pub trait WriteablePwmSensor: PwmSensor + WriteableSensor {
    /// Converts pwm and writes it to this pwm's pwm subfunction.
    /// Returns the write to perform; hand its outcome to `write_result` with the same subfunction.
    fn write_pwm(&self, pwm: Pwm) -> (request: WriteRequest)
        ensures
            request.path@ == spec_subfunction_path(self.spec_hwmon_path(), self.spec_base(), self.spec_index(), SensorSubFunctionType::Pwm),
            request.contents@ == pwm.spec_encode(),
    {
        let raw = pwm.to_raw();
        self.write_raw(SensorSubFunctionType::Pwm, raw.as_str())
    }

    /// Converts enable and writes it to this pwm's enable subfunction.
    /// Returns the write to perform; hand its outcome to `write_result` with the same subfunction.
    fn write_enable(&self, enable: PwmEnable) -> (request: WriteRequest)
        ensures
            request.path@ == spec_subfunction_path(self.spec_hwmon_path(), self.spec_base(), self.spec_index(), SensorSubFunctionType::Enable),
            request.contents@ == enable.spec_encode(),
    {
        let raw = enable.to_raw();
        self.write_raw(SensorSubFunctionType::Enable, raw.as_str())
    }

    /// Converts mode and writes it to this pwm's mode subfunction.
    /// Returns the write to perform; hand its outcome to `write_result` with the same subfunction.
    fn write_mode(&self, mode: PwmMode) -> (request: WriteRequest)
        ensures
            request.path@ == spec_subfunction_path(self.spec_hwmon_path(), self.spec_base(), self.spec_index(), SensorSubFunctionType::Mode),
            request.contents@ == mode.spec_encode(),
    {
        let raw = mode.to_raw();
        self.write_raw(SensorSubFunctionType::Mode, raw.as_str())
    }

    /// Converts freq and writes it to this pwm's freq subfunction.
    /// Returns the write to perform; hand its outcome to `write_result` with the same subfunction.
    fn write_frequency(&self, freq: Frequency) -> (request: WriteRequest)
        ensures
            request.path@ == spec_subfunction_path(self.spec_hwmon_path(), self.spec_base(), self.spec_index(), SensorSubFunctionType::Freq),
            request.contents@ == freq.spec_encode(),
    {
        let raw = freq.to_raw();
        self.write_raw(SensorSubFunctionType::Freq, raw.as_str())
    }
}

impl WriteablePwmSensor for PwmSensorStruct {

}

} // verus!
