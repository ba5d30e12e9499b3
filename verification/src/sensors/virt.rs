//! Virtual sensors: any file provided by a driver or the user that holds one value, outside
//! the hwmon tree.
//!
//! As everywhere in this library, the caller performs the file accesses: it reads or writes
//! the file at [`VirtualSensor::path`] and hands the outcome to the sensor.

use crate::sensors::error::Error;
use crate::sysfs::{IoErrorKind, IoFailure, WriteRequest};
use crate::text::{spec_trim, trim};
use crate::units::Raw;
use vstd::prelude::*;

verus! {

/// `e` is the error that a failed access of a virtual sensor's file at `path` gives:
/// insufficient rights where the access was denied, else the failure itself, as a read
/// error if `reading` and as a write error otherwise.
pub open spec fn virtual_failure_error(path: Seq<char>, failure: IoFailure, reading: bool, e: Error) -> bool {
    if failure.kind == IoErrorKind::PermissionDenied {
        e matches Error::InsufficientRights { path: p } && p@ == path
    } else if reading {
        e matches Error::Read { source, path: p } && source == failure && p@ == path
    } else {
        e matches Error::Write { source, path: p } && source == failure && p@ == path
    }
}

/// `r` is what reading a virtual sensor of value type `T` at `path` gives, when reading
/// its file had the outcome `read`.
pub open spec fn virtual_read_outcome<T: Raw>(
    path: Seq<char>,
    read: Result<String, IoFailure>,
    r: Result<T, Error>,
) -> bool {
    match read {
        Ok(contents) => match T::spec_decode(spec_trim(contents@)) {
            Ok(v) => r == Ok::<T, Error>(v),
            Err(kind) => r matches Err(Error::UnitError { source }) && source.kind() == kind
                && source.raw_text() == spec_trim(contents@),
        },
        Err(failure) => r matches Err(e) && virtual_failure_error(path, failure, true, e),
    }
}

/// `r` is what writing a virtual sensor at `path` gives, when writing its file had the
/// outcome `written`.
pub open spec fn virtual_write_outcome(path: Seq<char>, written: Result<(), IoFailure>, r: Result<(), Error>) -> bool {
    match written {
        Ok(_) => r is Ok,
        Err(failure) => r matches Err(e) && virtual_failure_error(path, failure, false, e),
    }
}

/// Returns the error for a failed access of a virtual sensor's file at `path`.
fn virtual_error(path: &str, failure: IoFailure, reading: bool) -> (e: Error)
    ensures
        virtual_failure_error(path@, failure, reading, e),
{
    if failure.kind == IoErrorKind::PermissionDenied {
        Error::insufficient_rights(path)
    } else if reading {
        Error::read(failure, path)
    } else {
        Error::write(failure, path)
    }
}

/// Helper trait that sums up all functionality of a read-only virtual sensor.
pub trait VirtualSensor<T: Raw>: Sized {
    /// The path of this virtual sensor's underlying file.
    spec fn spec_path(&self) -> Seq<char>;

    /// Returns the path to this virtual sensor's underlying file.
    fn path(&self) -> (path: &str)
        ensures
            path@ == self.spec_path(),
    ;

    /// Reads the virtual sensor: `read` is the outcome of reading the file at `self.path()`.
    fn read(&self, read: Result<String, IoFailure>) -> (r: Result<T, Error>)
        ensures
            virtual_read_outcome::<T>(self.spec_path(), read, r),
    {
        match read {
            Ok(contents) => {
                let raw = trim(contents.as_str());
                match T::from_raw(raw.as_str()) {
                    Ok(v) => Ok(v),
                    Err(e) => Err(Error::from_unit_error(e)),
                }
            },
            Err(failure) => Err(virtual_error(self.path(), failure, true)),
        }
    }
}

/// Helper trait that sums up all functionality of a read-write virtual sensor.
pub trait WriteableVirtualSensor<T: Raw>: VirtualSensor<T> {
    /// Returns the write that puts `value` into the virtual sensor's file.
    fn write(&self, value: &T) -> (request: WriteRequest)
        ensures
            request.path@ == self.spec_path(),
            request.contents@ == value.spec_encode(),
    {
        WriteRequest { path: String::from_str(self.path()), contents: value.to_raw() }
    }

    /// Interprets the outcome of the write that [`WriteableVirtualSensor::write`] asked for.
    fn write_result(&self, written: Result<(), IoFailure>) -> (r: Result<(), Error>)
        ensures
            virtual_write_outcome(self.spec_path(), written, r),
    {
        match written {
            Ok(()) => Ok(()),
            Err(failure) => Err(virtual_error(self.path(), failure, false)),
        }
    }
}

/// Struct that represents a virtual sensor.
#[derive(Debug, Clone)]
pub struct VirtualSensorStruct {
    path: String,
}

impl VirtualSensorStruct {
    /// The path of the underlying file.
    pub closed spec fn spec_file(&self) -> Seq<char> {
        self.path@
    }
}

impl<T: Raw> VirtualSensor<T> for VirtualSensorStruct {
    open spec fn spec_path(&self) -> Seq<char> {
        self.spec_file()
    }

    fn path(&self) -> (path: &str) {
        self.path.as_str()
    }
}

impl<T: Raw> WriteableVirtualSensor<T> for VirtualSensorStruct {

}

/// `r` is what creating a virtual sensor from `path` gives: the sensor, if `path` names a
/// file, else a read error of kind not-found at `path`.
pub open spec fn virtual_sensor_created(path: Seq<char>, is_file: bool, r: Result<VirtualSensorStruct, Error>) -> bool {
    if is_file {
        r matches Ok(s) && s.spec_file() == path
    } else {
        r matches Err(Error::Read { source, path: p }) && source.kind == IoErrorKind::NotFound
            && p@ == path
    }
}

/// Creates a virtual sensor from the given file at `path`; `is_file` tells whether `path`
/// names an existing regular file.
pub fn virtual_sensor_from_path(path: &str, is_file: bool) -> (r: Result<VirtualSensorStruct, Error>)
    ensures
        virtual_sensor_created(path@, is_file, r),
{
    if !is_file {
        return Err(Error::read(IoFailure::new(IoErrorKind::NotFound, "entity not found"), path));
    }
    Ok(VirtualSensorStruct { path: String::from_str(path) })
}

/// Creates a writeable virtual sensor from the given file at `path`; `is_file` tells
/// whether `path` names an existing regular file.
pub fn writeable_virtual_sensor_from_path(path: &str, is_file: bool) -> (r: Result<VirtualSensorStruct, Error>)
    ensures
        virtual_sensor_created(path@, is_file, r),
{
    virtual_sensor_from_path(path, is_file)
}

/// What a write of a value to a virtual sensor puts into its file reads back as that value.
pub proof fn lemma_virtual_written_value_reads_back<T: Raw>(
    path: Seq<char>,
    value: T,
    contents: String,
    r: Result<T, Error>,
)
    requires
        value.spec_valid(),
        spec_trim(contents@) == value.spec_encode(),
        virtual_read_outcome::<T>(path, Ok(contents), r),
    ensures
        r == Ok::<T, Error>(value),
{
    T::lemma_raw_round_trip(value);
}

} // verus!
