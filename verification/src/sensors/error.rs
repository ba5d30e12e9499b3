//! Errors that reading from or writing to a sensor can give.

use crate::sensors::subfunction_type::{spec_name, SensorSubFunctionType};
use crate::sysfs::{Cause, IoFailure};
use crate::units::UnitError;
use vstd::prelude::*;

verus! {

/// Error which can be returned from interacting with sensors.
#[derive(Debug, Clone)]
#[allow(inconsistent_fields)]
pub enum Error {
    /// Error reading from sensor.
    Read {
        /// The failure that the read gave.
        source: IoFailure,
        /// The file that was read.
        path: String,
    },
    /// Error writing to sensor.
    Write {
        /// The failure that the write gave.
        source: IoFailure,
        /// The file that was written.
        path: String,
    },
    /// A UnitError occurred.
    UnitError {
        /// The conversion error.
        source: UnitError,
    },
    /// You have insufficient rights. Try using the read only variant of whatever returned this error.
    InsufficientRights {
        /// The file that could not be accessed.
        path: String,
    },
    /// The subfunction you requested is not supported by this sensor.
    SubtypeNotSupported {
        /// The subfunction.
        sub_type: SensorSubFunctionType,
    },
    /// The sensor you tried to read from is faulty.
    FaultySensor,
    /// The sensor you tried to read from or write to is disabled.
    DisabledSensor,
}

impl Error {
    /// Creates an [`Error::Read`].
    pub fn read(source: IoFailure, path: &str) -> (e: Error)
        ensures
            e matches Error::Read { source: s, path: p } && s == source && p@ == path@,
    {
        Error::Read { source, path: String::from_str(path) }
    }

    /// Creates an [`Error::Write`].
    pub fn write(source: IoFailure, path: &str) -> (e: Error)
        ensures
            e matches Error::Write { source: s, path: p } && s == source && p@ == path@,
    {
        Error::Write { source, path: String::from_str(path) }
    }

    /// Creates an [`Error::InsufficientRights`].
    pub fn insufficient_rights(path: &str) -> (e: Error)
        ensures
            e matches Error::InsufficientRights { path: p } && p@ == path@,
    {
        Error::InsufficientRights { path: String::from_str(path) }
    }

    /// Wraps a conversion error.
    pub fn from_unit_error(source: UnitError) -> (e: Error)
        ensures
            e == (Error::UnitError { source }),
    {
        Error::UnitError { source }
    }

    /// Returns the lower-level error that caused this error, if any.
    pub fn cause(&self) -> (c: Option<Cause<'_>>)
        ensures
            match self {
                Error::Read { source, .. } => c matches Some(Cause::Io(s)) && *s == *source,
                Error::Write { source, .. } => c matches Some(Cause::Io(s)) && *s == *source,
                Error::UnitError { source } => c matches Some(Cause::Unit(s)) && *s == *source,
                _ => c is None,
            },
    {
        match self {
            Error::Read { source, .. } => Some(Cause::Io(source)),
            Error::Write { source, .. } => Some(Cause::Io(source)),
            Error::UnitError { source } => Some(Cause::Unit(source)),
            Error::InsufficientRights { .. } => None,
            Error::SubtypeNotSupported { .. } => None,
            Error::FaultySensor => None,
            Error::DisabledSensor => None,
        }
    }

    /// Describes this error in words, as `Display` would.
    pub fn message(&self) -> (m: String)
        ensures
            m@ == match self {
                Error::Read { source, path } => "Reading from sensor at "@ + path@ + " failed: "@
                    + source.description@,
                Error::Write { source, path } => "Writing to sensor at "@ + path@ + " failed: "@
                    + source.description@,
                Error::UnitError { source } => "Raw sensor error: "@ + source.message_text(),
                Error::InsufficientRights { path } => "You have insufficient rights to read/write "@
                    + path@,
                Error::SubtypeNotSupported { sub_type } => "Sensor does not support the subtype "@
                    + spec_name(*sub_type),
                Error::FaultySensor => "The sensor is faulty"@,
                Error::DisabledSensor => "The sensor is disabled"@,
            },
    {
        match self {
            Error::Read { source, path } => {
                let mut m = String::from_str("Reading from sensor at ");
                m.append(path.as_str());
                m.append(" failed: ");
                m.append(source.description.as_str());
                m
            },
            Error::Write { source, path } => {
                let mut m = String::from_str("Writing to sensor at ");
                m.append(path.as_str());
                m.append(" failed: ");
                m.append(source.description.as_str());
                m
            },
            Error::UnitError { source } => {
                let mut m = String::from_str("Raw sensor error: ");
                let detail = source.message();
                m.append(detail.as_str());
                m
            },
            Error::InsufficientRights { path } => {
                let mut m = String::from_str("You have insufficient rights to read/write ");
                m.append(path.as_str());
                m
            },
            Error::SubtypeNotSupported { sub_type } => {
                let mut m = String::from_str("Sensor does not support the subtype ");
                m.append(sub_type.name());
                m
            },
            Error::FaultySensor => String::from_str("The sensor is faulty"),
            Error::DisabledSensor => String::from_str("The sensor is disabled"),
        }
    }
}

} // verus!
