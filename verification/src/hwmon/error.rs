//! Errors that the functionality of a whole hwmon can give.

use crate::sysfs::{Cause, IoFailure};
use crate::units::UnitError;
use vstd::prelude::*;

verus! {

/// Errors that the functionality of a whole hwmon can give.
#[derive(Debug, Clone)]
pub enum Error {
    /// The hwmon does not expose an update interval.
    UpdateIntervalNotAvailable,
    /// The hwmon does not expose the beep_enable functionality.
    BeepEnable,
    /// Error reading or writing to sysfs.
    Io {
        /// The failure.
        source: IoFailure,
        /// The file that was accessed.
        path: String,
    },
    /// Unit conversion error.
    Unit {
        /// The conversion error.
        source: UnitError,
        /// The file whose contents could not be converted.
        path: String,
    },
    /// You have insufficient rights.
    InsufficientRights {
        /// The file that could not be accessed.
        path: String,
    },
}

impl Error {
    /// Creates an [`Error::UpdateIntervalNotAvailable`].
    pub fn update_interval_not_available() -> (e: Error)
        ensures
            e is UpdateIntervalNotAvailable,
    {
        Error::UpdateIntervalNotAvailable
    }

    /// Creates an [`Error::BeepEnable`].
    pub fn beep_enable() -> (e: Error)
        ensures
            e is BeepEnable,
    {
        Error::BeepEnable
    }

    /// Creates an [`Error::Io`].
    pub fn io(source: IoFailure, path: &str) -> (e: Error)
        ensures
            e matches Error::Io { source: s, path: p } && s == source && p@ == path@,
    {
        Error::Io { source, path: String::from_str(path) }
    }

    /// Creates an [`Error::Unit`].
    pub fn unit(source: UnitError, path: &str) -> (e: Error)
        ensures
            e matches Error::Unit { source: s, path: p } && s == source && p@ == path@,
    {
        Error::Unit { source, path: String::from_str(path) }
    }

    /// Creates an [`Error::InsufficientRights`].
    pub fn insufficient_rights(path: &str) -> (e: Error)
        ensures
            e matches Error::InsufficientRights { path: p } && p@ == path@,
    {
        Error::InsufficientRights { path: String::from_str(path) }
    }

    /// Returns the lower-level error that caused this error, if any.
    pub fn cause(&self) -> (c: Option<Cause<'_>>)
        ensures
            match self {
                Error::Io { source, .. } => c matches Some(Cause::Io(s)) && *s == *source,
                Error::Unit { source, .. } => c matches Some(Cause::Unit(s)) && *s == *source,
                _ => c is None,
            },
    {
        match self {
            Error::UpdateIntervalNotAvailable => None,
            Error::BeepEnable => None,
            Error::Io { source, .. } => Some(Cause::Io(source)),
            Error::Unit { source, .. } => Some(Cause::Unit(source)),
            Error::InsufficientRights { .. } => None,
        }
    }

    /// Describes this error in words, as `Display` would.
    pub fn message(&self) -> (m: String)
        ensures
            m@ == match self {
                Error::UpdateIntervalNotAvailable => "Hwmon does not expose an update interval"@,
                Error::BeepEnable => "Hwmon does not expose the beep_enable functionality"@,
                Error::Unit { source, path } => "Unit conversion error at "@ + path@ + ": "@
                    + source.message_text(),
                Error::Io { source, path } => "Io error at "@ + path@ + ": "@ + source.description@,
                Error::InsufficientRights { path } => "You have insufficient rights to write to "@
                    + path@,
            },
    {
        match self {
            Error::UpdateIntervalNotAvailable => String::from_str(
                "Hwmon does not expose an update interval",
            ),
            Error::BeepEnable => String::from_str(
                "Hwmon does not expose the beep_enable functionality",
            ),
            Error::Unit { source, path } => {
                let mut m = String::from_str("Unit conversion error at ");
                m.append(path.as_str());
                m.append(": ");
                let text = source.message();
                m.append(text.as_str());
                m
            },
            Error::Io { source, path } => {
                let mut m = String::from_str("Io error at ");
                m.append(path.as_str());
                m.append(": ");
                m.append(source.description.as_str());
                m
            },
            Error::InsufficientRights { path } => {
                let mut m = String::from_str("You have insufficient rights to write to ");
                m.append(path.as_str());
                m
            },
        }
    }
}

} // verus!
