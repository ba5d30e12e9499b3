//! The attributes of a whole hwmon: its update interval and whether it beeps.
//!
//! Each attribute is a file in the hwmon's directory. The caller reads or writes the file
//! that [`Hwmon::attribute_path`] names and hands the outcome to the hwmon, which decodes it.

use crate::hwmon::error::Error;
use crate::hwmon::Hwmon;
use crate::sysfs::{IoErrorKind, IoFailure, WriteRequest};
use crate::text::{join_path, spec_join, spec_trim, trim};
use crate::units::{Duration, Raw};
use vstd::prelude::*;

verus! {

/// The attributes of a hwmon that live in files of its directory.
#[derive(Debug, Clone, Copy, PartialEq, Eq, Structural)]
pub enum HwmonAttribute {
    /// The interval at which the chip updates its readings, in milliseconds.
    UpdateInterval,
    /// Whether the chip beeps on alarms.
    BeepEnable,
}

/// The name of an attribute's file.
pub open spec fn spec_attribute_file(attribute: HwmonAttribute) -> Seq<char> {
    match attribute {
        HwmonAttribute::UpdateInterval => "update_interval"@,
        HwmonAttribute::BeepEnable => "beep_enable"@,
    }
}

/// The error that a missing attribute file gives: the hwmon does not expose the attribute.
pub open spec fn missing_attribute_error(attribute: HwmonAttribute) -> Error {
    match attribute {
        HwmonAttribute::UpdateInterval => Error::UpdateIntervalNotAvailable,
        HwmonAttribute::BeepEnable => Error::BeepEnable,
    }
}

/// `e` is the error that a failed access of the file of `attribute` at `path` gives.
pub open spec fn attribute_failure_error(
    path: Seq<char>,
    attribute: HwmonAttribute,
    failure: IoFailure,
    e: Error,
) -> bool {
    match failure.kind {
        IoErrorKind::NotFound => e == missing_attribute_error(attribute),
        IoErrorKind::PermissionDenied => e matches Error::InsufficientRights { path: p } && p@
            == path,
        IoErrorKind::Other => e matches Error::Io { source, path: p } && source == failure && p@
            == path,
    }
}

/// `r` is what reading `attribute` as a value of type `V` from its file at `path` gives,
/// when the read had the outcome `read`.
pub open spec fn attribute_read_outcome<V: Raw>(
    path: Seq<char>,
    attribute: HwmonAttribute,
    read: Result<String, IoFailure>,
    r: Result<V, Error>,
) -> bool {
    match read {
        Ok(contents) => match V::spec_decode(spec_trim(contents@)) {
            Ok(v) => r == Ok::<V, Error>(v),
            Err(kind) => r matches Err(Error::Unit { source, path: p }) && source.kind() == kind
                && source.raw_text() == spec_trim(contents@) && p@ == path,
        },
        Err(failure) => r matches Err(e) && attribute_failure_error(path, attribute, failure, e),
    }
}

/// `r` is what writing `attribute` to its file at `path` gives, when the write had the
/// outcome `written`.
pub open spec fn attribute_write_outcome(
    path: Seq<char>,
    attribute: HwmonAttribute,
    written: Result<(), IoFailure>,
    r: Result<(), Error>,
) -> bool {
    match written {
        Ok(_) => r is Ok,
        Err(failure) => r matches Err(e) && attribute_failure_error(path, attribute, failure, e),
    }
}

/// Returns the error for a failed access of the file of `attribute` at `path`.
fn attribute_error(path: &str, attribute: HwmonAttribute, failure: IoFailure) -> (e: Error)
    ensures
        attribute_failure_error(path@, attribute, failure, e),
{
    match failure.kind {
        IoErrorKind::NotFound => match attribute {
            HwmonAttribute::UpdateInterval => Error::update_interval_not_available(),
            HwmonAttribute::BeepEnable => Error::beep_enable(),
        },
        IoErrorKind::PermissionDenied => Error::insufficient_rights(path),
        IoErrorKind::Other => Error::io(failure, path),
    }
}

/// Decodes what was read from the file of `attribute` at `path`.
fn decode_attribute<V: Raw>(path: &str, attribute: HwmonAttribute, read: Result<String, IoFailure>) -> (r:
    Result<V, Error>)
    ensures
        attribute_read_outcome::<V>(path@, attribute, read, r),
{
    match read {
        Ok(contents) => {
            let raw = trim(contents.as_str());
            match V::from_raw(raw.as_str()) {
                Ok(v) => Ok(v),
                Err(e) => Err(Error::unit(e, path)),
            }
        },
        Err(failure) => Err(attribute_error(path, attribute, failure)),
    }
}

/// What a write of a value puts into an attribute's file reads back as that value: when the
/// file holds the text of `value` (with any white space around it), reading the attribute
/// as a value of the same type gives `value`.
pub proof fn lemma_attribute_reads_back<V: Raw>(
    path: Seq<char>,
    attribute: HwmonAttribute,
    value: V,
    contents: String,
    r: Result<V, Error>,
)
    requires
        value.spec_valid(),
        spec_trim(contents@) == value.spec_encode(),
        attribute_read_outcome::<V>(path, attribute, Ok(contents), r),
    ensures
        r == Ok::<V, Error>(value),
{
    V::lemma_raw_round_trip(value);
}

impl Hwmon {
    /// The path of the file of `attribute` in this hwmon's directory.
    pub open spec fn spec_attribute_path(&self, attribute: HwmonAttribute) -> Seq<char> {
        spec_join(self.spec_path(), spec_attribute_file(attribute))
    }

    /// Returns the path of the file of `attribute` in this hwmon's directory.
    pub fn attribute_path(&self, attribute: HwmonAttribute) -> (path: String)
        ensures
            path@ == self.spec_attribute_path(attribute),
    {
        let file = match attribute {
            HwmonAttribute::UpdateInterval => "update_interval",
            HwmonAttribute::BeepEnable => "beep_enable",
        };
        join_path(self.path(), file)
    }

    /// Returns the interval at which this hwmon updates its readings: `read` is the outcome
    /// of reading the file of [`HwmonAttribute::UpdateInterval`].
    /// Returns an error, if this hwmon does not expose an update interval.
    pub fn update_interval(&self, read: Result<String, IoFailure>) -> (r: Result<Duration, Error>)
        ensures
            attribute_read_outcome::<Duration>(
                self.spec_attribute_path(HwmonAttribute::UpdateInterval),
                HwmonAttribute::UpdateInterval,
                read,
                r,
            ),
    {
        let path = self.attribute_path(HwmonAttribute::UpdateInterval);
        decode_attribute(path.as_str(), HwmonAttribute::UpdateInterval, read)
    }

    /// Returns whether this hwmon beeps on alarms: `read` is the outcome of reading the file
    /// of [`HwmonAttribute::BeepEnable`].
    /// Returns an error, if this hwmon does not expose the beep_enable functionality.
    pub fn beep_enable(&self, read: Result<String, IoFailure>) -> (r: Result<bool, Error>)
        ensures
            attribute_read_outcome::<bool>(
                self.spec_attribute_path(HwmonAttribute::BeepEnable),
                HwmonAttribute::BeepEnable,
                read,
                r,
            ),
    {
        let path = self.attribute_path(HwmonAttribute::BeepEnable);
        decode_attribute(path.as_str(), HwmonAttribute::BeepEnable, read)
    }

    /// Returns the write that sets this hwmon's update interval.
    pub fn set_update_interval(&self, interval: Duration) -> (request: WriteRequest)
        ensures
            request.path@ == self.spec_attribute_path(HwmonAttribute::UpdateInterval),
            request.contents@ == interval.spec_encode(),
    {
        WriteRequest {
            path: self.attribute_path(HwmonAttribute::UpdateInterval),
            contents: interval.to_raw(),
        }
    }

    /// Returns the write that turns beeping on alarms on or off.
    pub fn set_beep_enable(&self, beep_enable: bool) -> (request: WriteRequest)
        ensures
            request.path@ == self.spec_attribute_path(HwmonAttribute::BeepEnable),
            request.contents@ == beep_enable.spec_encode(),
    {
        WriteRequest {
            path: self.attribute_path(HwmonAttribute::BeepEnable),
            contents: beep_enable.to_raw(),
        }
    }

    /// Interprets the outcome of a write of the file of `attribute`.
    pub fn attribute_write_result(&self, attribute: HwmonAttribute, written: Result<(), IoFailure>) -> (r:
        Result<(), Error>)
        ensures
            attribute_write_outcome(self.spec_attribute_path(attribute), attribute, written, r),
    {
        match written {
            Ok(()) => Ok(()),
            Err(failure) => {
                let path = self.attribute_path(attribute);
                Err(attribute_error(path.as_str(), attribute, failure))
            },
        }
    }
}

} // verus!
