//! Errors that parsing the hwmon tree can give, and the trait of the things that are parsed
//! from it.

use crate::sensors::base::{spec_subfunction_path, Sensor};
use crate::sensors::subfunction_type::SensorSubFunctionType;
use crate::sysfs::IoFailure;
use vstd::prelude::*;

verus! {

/// Errors that parsing the hwmon tree can give.
#[derive(Debug, Clone)]
pub enum Error {
    /// Error listing hwmons
    Hwmons {
        /// The failure.
        source: IoFailure,
        /// The directory that was listed.
        path: String,
    },
    /// Error reading hwmon name file
    HwmonName {
        /// The failure.
        source: IoFailure,
        /// The name file.
        path: String,
    },
    /// Error listing the contents of the hwmon directory
    HwmonDir {
        /// The failure.
        source: IoFailure,
        /// The hwmon's directory.
        path: String,
    },
    /// Error parsing sensor
    Sensor {
        /// The failure.
        source: IoFailure,
        /// The file that was inspected.
        path: String,
    },
}

impl Error {
    /// The failure that caused this error.
    pub open spec fn spec_source(&self) -> IoFailure {
        match self {
            Error::Hwmons { source, .. } => *source,
            Error::HwmonName { source, .. } => *source,
            Error::HwmonDir { source, .. } => *source,
            Error::Sensor { source, .. } => *source,
        }
    }

    /// The path at which this error occurred.
    pub open spec fn spec_path(&self) -> Seq<char> {
        match self {
            Error::Hwmons { path, .. } => path@,
            Error::HwmonName { path, .. } => path@,
            Error::HwmonDir { path, .. } => path@,
            Error::Sensor { path, .. } => path@,
        }
    }

    /// Creates an [`Error::Hwmons`].
    pub fn hwmons(source: IoFailure, path: &str) -> (e: Error)
        ensures
            e is Hwmons,
            e.spec_source() == source,
            e.spec_path() == path@,
    {
        Error::Hwmons { source, path: String::from_str(path) }
    }

    /// Creates an [`Error::HwmonName`].
    pub fn hwmon_name(source: IoFailure, path: &str) -> (e: Error)
        ensures
            e is HwmonName,
            e.spec_source() == source,
            e.spec_path() == path@,
    {
        Error::HwmonName { source, path: String::from_str(path) }
    }

    /// Creates an [`Error::HwmonDir`].
    pub fn hwmon_dir(source: IoFailure, path: &str) -> (e: Error)
        ensures
            e is HwmonDir,
            e.spec_source() == source,
            e.spec_path() == path@,
    {
        Error::HwmonDir { source, path: String::from_str(path) }
    }

    /// Creates an [`Error::Sensor`].
    pub fn sensor(source: IoFailure, path: &str) -> (e: Error)
        ensures
            e is Sensor,
            e.spec_source() == source,
            e.spec_path() == path@,
    {
        Error::Sensor { source, path: String::from_str(path) }
    }

    /// Returns the file system failure that caused this error.
    pub fn cause(&self) -> (c: &IoFailure)
        ensures
            *c == self.spec_source(),
    {
        match self {
            Error::Hwmons { source, .. } => source,
            Error::HwmonName { source, .. } => source,
            Error::HwmonDir { source, .. } => source,
            Error::Sensor { source, .. } => source,
        }
    }

    /// Describes this error in words, as `Display` would.
    pub fn message(&self) -> (m: String)
        ensures
            m@ == match self {
                Error::Hwmons { .. } => "Error listing hwmons at "@,
                Error::HwmonName { .. } => "Error reading hwmon name file at "@,
                Error::HwmonDir { .. } => "Error listing contents of hwmon directory at "@,
                Error::Sensor { .. } => "Error parsing sensor at "@,
            } + self.spec_path() + ": "@ + self.spec_source().description@,
    {
        let (mut m, source, path) = match self {
            Error::Hwmons { source, path } => (
                String::from_str("Error listing hwmons at "),
                source,
                path,
            ),
            Error::HwmonName { source, path } => (
                String::from_str("Error reading hwmon name file at "),
                source,
                path,
            ),
            Error::HwmonDir { source, path } => (
                String::from_str("Error listing contents of hwmon directory at "),
                source,
                path,
            ),
            Error::Sensor { source, path } => (
                String::from_str("Error parsing sensor at "),
                source,
                path,
            ),
        };
        m.append(path.as_str());
        m.append(": ");
        m.append(source.description.as_str());
        m
    }
}

/// A kind of sensor that can be found in a hwmon directory.
pub trait Parseable: Sensor {
    /// The prefix that the names of this kind of sensor's files start with.
    spec fn spec_prefix() -> Seq<char>;

    /// The subfunction whose file must exist for a sensor of this kind to be present.
    spec fn spec_primary() -> SensorSubFunctionType;

    /// The index from which sensors of this kind are counted.
    spec fn spec_first_index() -> u16;

    /// Returns the prefix that the names of this kind of sensor's files start with.
    fn prefix() -> (prefix: &'static str)
        ensures
            prefix@ == Self::spec_prefix(),
    ;

    /// Returns the subfunction whose file must exist for a sensor of this kind to be present.
    fn primary() -> (sub_type: SensorSubFunctionType)
        ensures
            sub_type == Self::spec_primary(),
    ;

    /// Returns the index from which sensors of this kind are counted.
    fn first_index() -> (index: u16)
        ensures
            index == Self::spec_first_index(),
    ;

    /// Returns the sensor with the given index in the hwmon at `hwmon_path`.
    fn at(hwmon_path: &str, index: u16) -> (sensor: Self)
        ensures
            sensor.spec_hwmon_path() == hwmon_path@,
            sensor.spec_index() == index,
            sensor.spec_base() == Self::spec_prefix(),
    ;

    /// Parses the sensor with the given index in the hwmon at `hwmon_path`.
    /// `probe` is the outcome of inspecting the file of the sensor's primary subfunction,
    /// at `Self::at(hwmon_path, index).subfunction_path(Self::primary())`.
    fn parse(hwmon_path: &str, index: u16, probe: Result<(), IoFailure>) -> (r: Result<
        Self,
        Error,
    >)
        ensures
            match probe {
                Ok(_) => r matches Ok(s) && s.spec_hwmon_path() == hwmon_path@ && s.spec_index()
                    == index && s.spec_base() == Self::spec_prefix(),
                Err(failure) => r matches Err(e) && e is Sensor && e.spec_source() == failure
                    && e.spec_path() == spec_subfunction_path(
                    hwmon_path@,
                    Self::spec_prefix(),
                    index,
                    Self::spec_primary(),
                ),
            },
    {
        let sensor = Self::at(hwmon_path, index);
        match probe {
            Ok(()) => Ok(sensor),
            Err(failure) => {
                let path = sensor.subfunction_path(Self::primary());
                Err(Error::sensor(failure, path.as_str()))
            },
        }
    }
}

} // verus!
