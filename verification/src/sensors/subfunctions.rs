//! Traits for the subfunctions that several kinds of sensor share.

use crate::sensors::base::{spec_subfunction_path, value_read_outcome, Sensor, WriteableSensor};
use crate::sensors::error::Error;
use crate::sensors::subfunction_type::SensorSubFunctionType;
use crate::sysfs::{IoFailure, WriteRequest};
use crate::text::spec_trim;
use crate::units::Raw;
use vstd::prelude::*;

verus! {

/// Trait implemented by all sensors except for pwm.
/// It contains the functionality to read the enable subfunction.
pub trait Enable: Sensor {
    /// Reads whether or not this sensor is enabled.
    /// `read` is the outcome of reading the file at `self.subfunction_path(SensorSubFunctionType::Enable)`.
    /// Returns an error, if this sensor doesn't support the subfunction.
    fn read_enable(&self, read: Result<String, IoFailure>) -> (r: Result<bool, Error>)
        ensures
            value_read_outcome::<bool>(
                spec_subfunction_path(self.spec_hwmon_path(), self.spec_base(), self.spec_index(), SensorSubFunctionType::Enable),
                SensorSubFunctionType::Enable,
                read,
                r,
            ),
    {
        let raw = self.read_raw(SensorSubFunctionType::Enable, read)?;
        match <bool as Raw>::from_raw(raw.as_str()) {
            Ok(v) => Ok(v),
            Err(e) => Err(Error::from_unit_error(e)),
        }
    }
}

/// Trait implemented by all writeable sensors that have the enable subfunction.
pub trait WriteableEnable: WriteableSensor {
    /// Sets this sensor's enabled state.
    /// Returns the write to perform; hand its outcome to `write_result` with the same subfunction.
    fn write_enable(&self, enable: bool) -> (request: WriteRequest)
        ensures
            request.path@ == spec_subfunction_path(self.spec_hwmon_path(), self.spec_base(), self.spec_index(), SensorSubFunctionType::Enable),
            request.contents@ == enable.spec_encode(),
    {
        let raw = enable.to_raw();
        self.write_raw(SensorSubFunctionType::Enable, raw.as_str())
    }
}

impl<S: WriteableSensor + Enable> WriteableEnable for S {

}

/// Trait implemented by all sensors except for pwm.
/// It contains the functionality to read the input subfunction.
pub trait Input: Sensor {
    /// Reads the input subfunction of this sensor.
    /// `read` is the outcome of reading the file at `self.subfunction_path(SensorSubFunctionType::Input)`.
    /// Returns an error, if this sensor doesn't support the subfunction.
    fn read_input(&self, read: Result<String, IoFailure>) -> (r: Result<Self::Value, Error>)
        ensures
            value_read_outcome::<Self::Value>(
                spec_subfunction_path(self.spec_hwmon_path(), self.spec_base(), self.spec_index(), SensorSubFunctionType::Input),
                SensorSubFunctionType::Input,
                read,
                r,
            ),
    {
        let raw = self.read_raw(SensorSubFunctionType::Input, read)?;
        match <Self::Value>::from_raw(raw.as_str()) {
            Ok(v) => Ok(v),
            Err(e) => Err(Error::from_unit_error(e)),
        }
    }
}

/// Trait implemented by all sensors that can have a min subfunction.
pub trait Min: Sensor {
    /// Reads this sensor's min value.
    /// `read` is the outcome of reading the file at `self.subfunction_path(SensorSubFunctionType::Min)`.
    /// Returns an error, if this sensor doesn't support the subfunction.
    fn read_min(&self, read: Result<String, IoFailure>) -> (r: Result<Self::Value, Error>)
        ensures
            value_read_outcome::<Self::Value>(
                spec_subfunction_path(self.spec_hwmon_path(), self.spec_base(), self.spec_index(), SensorSubFunctionType::Min),
                SensorSubFunctionType::Min,
                read,
                r,
            ),
    {
        let raw = self.read_raw(SensorSubFunctionType::Min, read)?;
        match <Self::Value>::from_raw(raw.as_str()) {
            Ok(v) => Ok(v),
            Err(e) => Err(Error::from_unit_error(e)),
        }
    }
}

/// Trait implemented by all writeable sensors that have the min subfunction.
pub trait WriteableMin: WriteableSensor {
    /// Writes this sensor's min value.
    /// Returns the write to perform; hand its outcome to `write_result` with the same subfunction.
    fn write_min(&self, min: Self::Value) -> (request: WriteRequest)
        ensures
            request.path@ == spec_subfunction_path(self.spec_hwmon_path(), self.spec_base(), self.spec_index(), SensorSubFunctionType::Min),
            request.contents@ == min.spec_encode(),
    {
        let raw = min.to_raw();
        self.write_raw(SensorSubFunctionType::Min, raw.as_str())
    }
}

impl<S: WriteableSensor + Min> WriteableMin for S {

}

/// Trait implemented by all sensors that can have a max subfunction.
pub trait Max: Sensor {
    /// Reads this sensor's max value.
    /// `read` is the outcome of reading the file at `self.subfunction_path(SensorSubFunctionType::Max)`.
    /// Returns an error, if this sensor doesn't support the subfunction.
    fn read_max(&self, read: Result<String, IoFailure>) -> (r: Result<Self::Value, Error>)
        ensures
            value_read_outcome::<Self::Value>(
                spec_subfunction_path(self.spec_hwmon_path(), self.spec_base(), self.spec_index(), SensorSubFunctionType::Max),
                SensorSubFunctionType::Max,
                read,
                r,
            ),
    {
        let raw = self.read_raw(SensorSubFunctionType::Max, read)?;
        match <Self::Value>::from_raw(raw.as_str()) {
            Ok(v) => Ok(v),
            Err(e) => Err(Error::from_unit_error(e)),
        }
    }
}

/// Trait implemented by all writeable sensors that have the max subfunction.
pub trait WriteableMax: WriteableSensor {
    /// Writes this sensor's max value.
    /// Returns the write to perform; hand its outcome to `write_result` with the same subfunction.
    fn write_max(&self, max: Self::Value) -> (request: WriteRequest)
        ensures
            request.path@ == spec_subfunction_path(self.spec_hwmon_path(), self.spec_base(), self.spec_index(), SensorSubFunctionType::Max),
            request.contents@ == max.spec_encode(),
    {
        let raw = max.to_raw();
        self.write_raw(SensorSubFunctionType::Max, raw.as_str())
    }
}

impl<S: WriteableSensor + Max> WriteableMax for S {

}

/// Trait implemented by all sensors that can have a crit subfunction.
pub trait Crit: Sensor {
    /// Reads this sensor's crit value.
    /// `read` is the outcome of reading the file at `self.subfunction_path(SensorSubFunctionType::Crit)`.
    /// Returns an error, if this sensor doesn't support the subfunction.
    fn read_crit(&self, read: Result<String, IoFailure>) -> (r: Result<Self::Value, Error>)
        ensures
            value_read_outcome::<Self::Value>(
                spec_subfunction_path(self.spec_hwmon_path(), self.spec_base(), self.spec_index(), SensorSubFunctionType::Crit),
                SensorSubFunctionType::Crit,
                read,
                r,
            ),
    {
        let raw = self.read_raw(SensorSubFunctionType::Crit, read)?;
        match <Self::Value>::from_raw(raw.as_str()) {
            Ok(v) => Ok(v),
            Err(e) => Err(Error::from_unit_error(e)),
        }
    }
}

/// Trait implemented by all writeable sensors that have the crit subfunction.
pub trait WriteableCrit: WriteableSensor {
    /// Writes this sensor's crit value.
    /// Returns the write to perform; hand its outcome to `write_result` with the same subfunction.
    fn write_crit(&self, crit: Self::Value) -> (request: WriteRequest)
        ensures
            request.path@ == spec_subfunction_path(self.spec_hwmon_path(), self.spec_base(), self.spec_index(), SensorSubFunctionType::Crit),
            request.contents@ == crit.spec_encode(),
    {
        let raw = crit.to_raw();
        self.write_raw(SensorSubFunctionType::Crit, raw.as_str())
    }
}

impl<S: WriteableSensor + Crit> WriteableCrit for S {

}

/// Trait implemented by all sensors that can have a lcrit subfunction.
pub trait LowCrit: Sensor {
    /// Reads this sensor's lcrit value.
    /// `read` is the outcome of reading the file at `self.subfunction_path(SensorSubFunctionType::LowCrit)`.
    /// Returns an error, if this sensor doesn't support the subfunction.
    fn read_lcrit(&self, read: Result<String, IoFailure>) -> (r: Result<Self::Value, Error>)
        ensures
            value_read_outcome::<Self::Value>(
                spec_subfunction_path(self.spec_hwmon_path(), self.spec_base(), self.spec_index(), SensorSubFunctionType::LowCrit),
                SensorSubFunctionType::LowCrit,
                read,
                r,
            ),
    {
        let raw = self.read_raw(SensorSubFunctionType::LowCrit, read)?;
        match <Self::Value>::from_raw(raw.as_str()) {
            Ok(v) => Ok(v),
            Err(e) => Err(Error::from_unit_error(e)),
        }
    }
}

/// Trait implemented by all writeable sensors that have the lowcrit subfunction.
pub trait WriteableLowCrit: WriteableSensor {
    /// Writes this sensor's lcrit value.
    /// Returns the write to perform; hand its outcome to `write_result` with the same subfunction.
    fn write_lcrit(&self, lcrit: Self::Value) -> (request: WriteRequest)
        ensures
            request.path@ == spec_subfunction_path(self.spec_hwmon_path(), self.spec_base(), self.spec_index(), SensorSubFunctionType::LowCrit),
            request.contents@ == lcrit.spec_encode(),
    {
        let raw = lcrit.to_raw();
        self.write_raw(SensorSubFunctionType::LowCrit, raw.as_str())
    }
}

impl<S: WriteableSensor + LowCrit> WriteableLowCrit for S {

}

/// Trait implemented by all sensors that can have an average subfunction.
pub trait Average: Sensor {
    /// Reads this sensor's average value.
    /// `read` is the outcome of reading the file at `self.subfunction_path(SensorSubFunctionType::Average)`.
    /// Returns an error, if this sensor doesn't support the subfunction.
    fn read_average(&self, read: Result<String, IoFailure>) -> (r: Result<Self::Value, Error>)
        ensures
            value_read_outcome::<Self::Value>(
                spec_subfunction_path(self.spec_hwmon_path(), self.spec_base(), self.spec_index(), SensorSubFunctionType::Average),
                SensorSubFunctionType::Average,
                read,
                r,
            ),
    {
        let raw = self.read_raw(SensorSubFunctionType::Average, read)?;
        match <Self::Value>::from_raw(raw.as_str()) {
            Ok(v) => Ok(v),
            Err(e) => Err(Error::from_unit_error(e)),
        }
    }
}

/// Trait implemented by all sensors that can have a lowest subfunction.
pub trait Lowest: Sensor {
    /// Reads this sensor's historically lowest input.
    /// `read` is the outcome of reading the file at `self.subfunction_path(SensorSubFunctionType::Lowest)`.
    /// Returns an error, if this sensor doesn't support the subfunction.
    fn read_lowest(&self, read: Result<String, IoFailure>) -> (r: Result<Self::Value, Error>)
        ensures
            value_read_outcome::<Self::Value>(
                spec_subfunction_path(self.spec_hwmon_path(), self.spec_base(), self.spec_index(), SensorSubFunctionType::Lowest),
                SensorSubFunctionType::Lowest,
                read,
                r,
            ),
    {
        let raw = self.read_raw(SensorSubFunctionType::Lowest, read)?;
        match <Self::Value>::from_raw(raw.as_str()) {
            Ok(v) => Ok(v),
            Err(e) => Err(Error::from_unit_error(e)),
        }
    }
}

/// Trait implemented by all sensors that can have a highest subfunction.
pub trait Highest: Sensor {
    /// Reads this sensor's historically highest input.
    /// `read` is the outcome of reading the file at `self.subfunction_path(SensorSubFunctionType::Highest)`.
    /// Returns an error, if this sensor doesn't support the subfunction.
    fn read_highest(&self, read: Result<String, IoFailure>) -> (r: Result<Self::Value, Error>)
        ensures
            value_read_outcome::<Self::Value>(
                spec_subfunction_path(self.spec_hwmon_path(), self.spec_base(), self.spec_index(), SensorSubFunctionType::Highest),
                SensorSubFunctionType::Highest,
                read,
                r,
            ),
    {
        let raw = self.read_raw(SensorSubFunctionType::Highest, read)?;
        match <Self::Value>::from_raw(raw.as_str()) {
            Ok(v) => Ok(v),
            Err(e) => Err(Error::from_unit_error(e)),
        }
    }
}

/// Trait implemented by all sensors except for pwm.
/// It contains the functionality to read the beep subfunction.
pub trait Beep: Sensor {
    /// Reads whether or not an alarm condition for the sensor also triggers beeping.
    /// `read` is the outcome of reading the file at `self.subfunction_path(SensorSubFunctionType::Beep)`.
    /// Returns an error, if this sensor doesn't support the subfunction.
    fn read_beep(&self, read: Result<String, IoFailure>) -> (r: Result<bool, Error>)
        ensures
            value_read_outcome::<bool>(
                spec_subfunction_path(self.spec_hwmon_path(), self.spec_base(), self.spec_index(), SensorSubFunctionType::Beep),
                SensorSubFunctionType::Beep,
                read,
                r,
            ),
    {
        let raw = self.read_raw(SensorSubFunctionType::Beep, read)?;
        match <bool as Raw>::from_raw(raw.as_str()) {
            Ok(v) => Ok(v),
            Err(e) => Err(Error::from_unit_error(e)),
        }
    }
}

/// Trait implemented by all writeable sensors that have the beep subfunction.
pub trait WriteableBeep: WriteableSensor {
    /// Sets whether or not an alarm condition for the sensor also triggers beeping.
    /// Returns the write to perform; hand its outcome to `write_result` with the same subfunction.
    fn write_beep(&self, beep: bool) -> (request: WriteRequest)
        ensures
            request.path@ == spec_subfunction_path(self.spec_hwmon_path(), self.spec_base(), self.spec_index(), SensorSubFunctionType::Beep),
            request.contents@ == beep.spec_encode(),
    {
        let raw = beep.to_raw();
        self.write_raw(SensorSubFunctionType::Beep, raw.as_str())
    }
}

impl<S: WriteableSensor + Beep> WriteableBeep for S {

}

/// Trait implemented by all non virtual sensors except for pwm.
/// It contains the functionality to read the alarm subfunction.
pub trait Alarm: Sensor {
    /// Reads whether or not an alarm condition exists for the sensor.
    /// `read` is the outcome of reading the file at `self.subfunction_path(SensorSubFunctionType::Alarm)`.
    /// Returns an error, if this sensor doesn't support the subfunction.
    fn read_alarm(&self, read: Result<String, IoFailure>) -> (r: Result<bool, Error>)
        ensures
            value_read_outcome::<bool>(
                spec_subfunction_path(self.spec_hwmon_path(), self.spec_base(), self.spec_index(), SensorSubFunctionType::Alarm),
                SensorSubFunctionType::Alarm,
                read,
                r,
            ),
    {
        let raw = self.read_raw(SensorSubFunctionType::Alarm, read)?;
        match <bool as Raw>::from_raw(raw.as_str()) {
            Ok(v) => Ok(v),
            Err(e) => Err(Error::from_unit_error(e)),
        }
    }
}

/// Trait implemented by all sensors that support the min and alarm subfunctions.
/// It contains the functionality to read the min_alarm subfunction.
pub trait MinAlarm: Sensor {
    /// Reads whether or not an alarm condition exists for the min subfunction of the sensor.
    /// `read` is the outcome of reading the file at `self.subfunction_path(SensorSubFunctionType::MinAlarm)`.
    /// Returns an error, if this sensor doesn't support the subfunction.
    fn read_min_alarm(&self, read: Result<String, IoFailure>) -> (r: Result<bool, Error>)
        ensures
            value_read_outcome::<bool>(
                spec_subfunction_path(self.spec_hwmon_path(), self.spec_base(), self.spec_index(), SensorSubFunctionType::MinAlarm),
                SensorSubFunctionType::MinAlarm,
                read,
                r,
            ),
    {
        let raw = self.read_raw(SensorSubFunctionType::MinAlarm, read)?;
        match <bool as Raw>::from_raw(raw.as_str()) {
            Ok(v) => Ok(v),
            Err(e) => Err(Error::from_unit_error(e)),
        }
    }
}

impl<S: Min + Alarm> MinAlarm for S {

}

/// Trait implemented by all sensors that support the max and alarm subfunctions.
/// It contains the functionality to read the max_alarm subfunction.
pub trait MaxAlarm: Sensor {
    /// Reads whether or not an alarm condition exists for the max subfunction of the sensor.
    /// `read` is the outcome of reading the file at `self.subfunction_path(SensorSubFunctionType::MaxAlarm)`.
    /// Returns an error, if this sensor doesn't support the subfunction.
    fn read_max_alarm(&self, read: Result<String, IoFailure>) -> (r: Result<bool, Error>)
        ensures
            value_read_outcome::<bool>(
                spec_subfunction_path(self.spec_hwmon_path(), self.spec_base(), self.spec_index(), SensorSubFunctionType::MaxAlarm),
                SensorSubFunctionType::MaxAlarm,
                read,
                r,
            ),
    {
        let raw = self.read_raw(SensorSubFunctionType::MaxAlarm, read)?;
        match <bool as Raw>::from_raw(raw.as_str()) {
            Ok(v) => Ok(v),
            Err(e) => Err(Error::from_unit_error(e)),
        }
    }
}

impl<S: Max + Alarm> MaxAlarm for S {

}

/// Trait implemented by all sensors that support the crit and alarm subfunctions.
/// It contains the functionality to read the crit_alarm subfunction.
pub trait CritAlarm: Sensor {
    /// Reads whether or not an alarm condition exists for the crit subfunction of the sensor.
    /// `read` is the outcome of reading the file at `self.subfunction_path(SensorSubFunctionType::CritAlarm)`.
    /// Returns an error, if this sensor doesn't support the subfunction.
    fn read_crit_alarm(&self, read: Result<String, IoFailure>) -> (r: Result<bool, Error>)
        ensures
            value_read_outcome::<bool>(
                spec_subfunction_path(self.spec_hwmon_path(), self.spec_base(), self.spec_index(), SensorSubFunctionType::CritAlarm),
                SensorSubFunctionType::CritAlarm,
                read,
                r,
            ),
    {
        let raw = self.read_raw(SensorSubFunctionType::CritAlarm, read)?;
        match <bool as Raw>::from_raw(raw.as_str()) {
            Ok(v) => Ok(v),
            Err(e) => Err(Error::from_unit_error(e)),
        }
    }
}

impl<S: Crit + Alarm> CritAlarm for S {

}

/// Trait implemented by all sensors that support the lcrit and alarm subfunctions.
/// It contains the functionality to read the lcrit_alarm subfunction.
pub trait LowCritAlarm: Sensor {
    /// Reads whether or not an alarm condition exists for the lcrit subfunction of the sensor.
    /// `read` is the outcome of reading the file at `self.subfunction_path(SensorSubFunctionType::LowCritAlarm)`.
    /// Returns an error, if this sensor doesn't support the subfunction.
    fn read_low_crit_alarm(&self, read: Result<String, IoFailure>) -> (r: Result<bool, Error>)
        ensures
            value_read_outcome::<bool>(
                spec_subfunction_path(self.spec_hwmon_path(), self.spec_base(), self.spec_index(), SensorSubFunctionType::LowCritAlarm),
                SensorSubFunctionType::LowCritAlarm,
                read,
                r,
            ),
    {
        let raw = self.read_raw(SensorSubFunctionType::LowCritAlarm, read)?;
        match <bool as Raw>::from_raw(raw.as_str()) {
            Ok(v) => Ok(v),
            Err(e) => Err(Error::from_unit_error(e)),
        }
    }
}

impl<S: LowCrit + Alarm> LowCritAlarm for S {

}

/// Trait implemented by all sensors that support the cap and alarm subfunctions.
/// It contains the functionality to read the cap_alarm subfunction.
pub trait CapAlarm: Sensor {
    /// Reads whether or not an alarm condition exists for the cap subfunction of the sensor.
    /// `read` is the outcome of reading the file at `self.subfunction_path(SensorSubFunctionType::CapAlarm)`.
    /// Returns an error, if this sensor doesn't support the subfunction.
    fn read_cap_alarm(&self, read: Result<String, IoFailure>) -> (r: Result<bool, Error>)
        ensures
            value_read_outcome::<bool>(
                spec_subfunction_path(self.spec_hwmon_path(), self.spec_base(), self.spec_index(), SensorSubFunctionType::CapAlarm),
                SensorSubFunctionType::CapAlarm,
                read,
                r,
            ),
    {
        let raw = self.read_raw(SensorSubFunctionType::CapAlarm, read)?;
        match <bool as Raw>::from_raw(raw.as_str()) {
            Ok(v) => Ok(v),
            Err(e) => Err(Error::from_unit_error(e)),
        }
    }
}

/// Trait implemented by all sensors that support the emergency and alarm subfunctions.
/// It contains the functionality to read the emergency_alarm subfunction.
pub trait EmergencyAlarm: Sensor {
    /// Reads whether or not an alarm condition exists for the emergency subfunction of the sensor.
    /// `read` is the outcome of reading the file at `self.subfunction_path(SensorSubFunctionType::EmergencyAlarm)`.
    /// Returns an error, if this sensor doesn't support the subfunction.
    fn read_emergency_alarm(&self, read: Result<String, IoFailure>) -> (r: Result<bool, Error>)
        ensures
            value_read_outcome::<bool>(
                spec_subfunction_path(self.spec_hwmon_path(), self.spec_base(), self.spec_index(), SensorSubFunctionType::EmergencyAlarm),
                SensorSubFunctionType::EmergencyAlarm,
                read,
                r,
            ),
    {
        let raw = self.read_raw(SensorSubFunctionType::EmergencyAlarm, read)?;
        match <bool as Raw>::from_raw(raw.as_str()) {
            Ok(v) => Ok(v),
            Err(e) => Err(Error::from_unit_error(e)),
        }
    }
}

/// Trait implemented by all sensors that can have a faulty subfunction.
pub trait Faulty: Sensor {
    /// Reads whether this sensor is faulty or not.
    /// `read` is the outcome of reading the file at `self.subfunction_path(SensorSubFunctionType::Fault)`.
    /// Returns an error, if this sensor doesn't support the subfunction.
    fn read_faulty(&self, read: Result<String, IoFailure>) -> (r: Result<bool, Error>)
        ensures
            value_read_outcome::<bool>(
                spec_subfunction_path(self.spec_hwmon_path(), self.spec_base(), self.spec_index(), SensorSubFunctionType::Fault),
                SensorSubFunctionType::Fault,
                read,
                r,
            ),
    {
        let raw = self.read_raw(SensorSubFunctionType::Fault, read)?;
        match <bool as Raw>::from_raw(raw.as_str()) {
            Ok(v) => Ok(v),
            Err(e) => Err(Error::from_unit_error(e)),
        }
    }

    /// Decides from the read of the fault subfunction whether the sensor's input may be read:
    /// a sensor whose fault subfunction reads `1` is faulty; a fault subfunction that is
    /// missing or unreadable counts as "not faulty".
    /// `read` is the outcome of reading the file at `self.subfunction_path(SensorSubFunctionType::Fault)`.
    fn check_not_faulty(&self, read: Result<String, IoFailure>) -> (r: Result<(), Error>)
        ensures
            r == if read matches Ok(contents) && spec_trim(contents@) == "1"@ {
                Err::<(), Error>(Error::FaultySensor)
            } else {
                Ok::<(), Error>(())
            },
    {
        proof {
            reveal_strlit("1");
            reveal_strlit("0");
            assert("1"@ != "0"@) by {
                assert("1"@[0] != "0"@[0]);
            }
        }
        match self.read_faulty(read) {
            Ok(true) => Err(Error::FaultySensor),
            _ => Ok(()),
        }
    }
}

} // verus!
