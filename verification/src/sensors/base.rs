//! The traits that all sensors share: naming a sensor's files, turning what was read from
//! them into values and errors, and turning values into the writes that set them.

use crate::sensors::error::Error;
use crate::sensors::subfunction_type::{
    lemma_suffix_injective, spec_read_only_list, spec_read_write_list, spec_suffix,
    spec_write_only_list, SensorSubFunctionType,
};
use crate::sysfs::{IoErrorKind, IoFailure, WriteRequest};
use crate::text::{decimal, format_unsigned, join_path, lemma_decimal, spec_join, spec_trim, trim};
use crate::units::{Raw, UnitErrorKind};
use vstd::prelude::*;

verus! {

/// The name of the file of subfunction `sub_type` of the sensor `base` + `index`,
/// such as `temp1_input`.
pub open spec fn spec_subfunction_file(base: Seq<char>, index: u16, sub_type: SensorSubFunctionType) -> Seq<char> {
    base + decimal(index as nat) + spec_suffix(sub_type)
}

/// The path of the file of subfunction `sub_type` of the sensor `base` + `index` of the
/// hwmon at `hwmon_path`.
pub open spec fn spec_subfunction_path(
    hwmon_path: Seq<char>,
    base: Seq<char>,
    index: u16,
    sub_type: SensorSubFunctionType,
) -> Seq<char> {
    spec_join(hwmon_path, spec_subfunction_file(base, index, sub_type))
}

/// The error that a failed read of the file of subfunction `sub_type` at `path` gives:
/// a missing file means that the sensor does not support the subfunction.
pub open spec fn read_failure_error(
    path: Seq<char>,
    sub_type: SensorSubFunctionType,
    failure: IoFailure,
    e: Error,
) -> bool {
    match failure.kind {
        IoErrorKind::NotFound => e == (Error::SubtypeNotSupported { sub_type }),
        IoErrorKind::PermissionDenied => e matches Error::InsufficientRights { path: p } && p@
            == path,
        IoErrorKind::Other => e matches Error::Read { source, path: p } && source == failure && p@
            == path,
    }
}

/// The error that a failed write of the file of subfunction `sub_type` at `path` gives.
pub open spec fn write_failure_error(
    path: Seq<char>,
    sub_type: SensorSubFunctionType,
    failure: IoFailure,
    e: Error,
) -> bool {
    match failure.kind {
        IoErrorKind::NotFound => e == (Error::SubtypeNotSupported { sub_type }),
        IoErrorKind::PermissionDenied => e matches Error::InsufficientRights { path: p } && p@
            == path,
        IoErrorKind::Other => e matches Error::Write { source, path: p } && source == failure
            && p@ == path,
    }
}

/// `r` is what reading the raw text of subfunction `sub_type` gives, when the read of its
/// file at `path` had the outcome `read`: the trimmed contents, or the read's error.
pub open spec fn raw_read_outcome(
    path: Seq<char>,
    sub_type: SensorSubFunctionType,
    read: Result<String, IoFailure>,
    r: Result<String, Error>,
) -> bool {
    match read {
        Ok(contents) => r matches Ok(s) && s@ == spec_trim(contents@),
        Err(failure) => match r {
            Ok(_) => false,
            Err(e) => read_failure_error(path, sub_type, failure, e),
        },
    }
}

/// `r` is what reading subfunction `sub_type` as a value of type `V` gives, when the read
/// of its file at `path` had the outcome `read`: the value that the trimmed contents
/// denote, the conversion error, or the read's error.
pub open spec fn value_read_outcome<V: Raw>(
    path: Seq<char>,
    sub_type: SensorSubFunctionType,
    read: Result<String, IoFailure>,
    r: Result<V, Error>,
) -> bool {
    match read {
        Ok(contents) => match V::spec_decode(spec_trim(contents@)) {
            Ok(v) => r == Ok::<V, Error>(v),
            Err(kind) => r matches Err(Error::UnitError { source }) && source.kind() == kind
                && source.raw_text() == spec_trim(contents@),
        },
        Err(failure) => match r {
            Ok(_) => false,
            Err(e) => read_failure_error(path, sub_type, failure, e),
        },
    }
}

/// `r` is what writing subfunction `sub_type` gives, when the write of its file at `path`
/// had the outcome `written`.
pub open spec fn write_outcome(
    path: Seq<char>,
    sub_type: SensorSubFunctionType,
    written: Result<(), IoFailure>,
    r: Result<(), Error>,
) -> bool {
    match written {
        Ok(_) => r is Ok,
        Err(failure) => match r {
            Ok(_) => false,
            Err(e) => write_failure_error(path, sub_type, failure, e),
        },
    }
}

/// The items of `items` whose flag in `keep` is set, in their order.
pub open spec fn select<T>(items: Seq<T>, keep: Seq<bool>) -> Seq<T>
    decreases items.len(),
{
    if items.len() == 0 {
        Seq::empty()
    } else {
        let rest = select(items.drop_last(), keep.subrange(0, items.len() - 1));
        if keep[items.len() - 1] {
            rest.push(items.last())
        } else {
            rest
        }
    }
}

/// Returns the error for a failed read of the file of subfunction `sub_type` at `path`.
pub fn read_error(path: &str, sub_type: SensorSubFunctionType, failure: IoFailure) -> (e: Error)
    ensures
        read_failure_error(path@, sub_type, failure, e),
{
    match failure.kind {
        IoErrorKind::NotFound => Error::SubtypeNotSupported { sub_type },
        IoErrorKind::PermissionDenied => Error::insufficient_rights(path),
        IoErrorKind::Other => Error::read(failure, path),
    }
}

/// Returns the error for a failed write of the file of subfunction `sub_type` at `path`.
pub fn write_error(path: &str, sub_type: SensorSubFunctionType, failure: IoFailure) -> (e: Error)
    ensures
        write_failure_error(path@, sub_type, failure, e),
{
    match failure.kind {
        IoErrorKind::NotFound => Error::SubtypeNotSupported { sub_type },
        IoErrorKind::PermissionDenied => Error::insufficient_rights(path),
        IoErrorKind::Other => Error::write(failure, path),
    }
}

/// Converts what was read from the file of subfunction `sub_type` at `path` into a value.
pub fn decode_read<V: Raw>(
    path: &str,
    sub_type: SensorSubFunctionType,
    read: Result<String, IoFailure>,
) -> (r: Result<V, Error>)
    ensures
        value_read_outcome::<V>(path@, sub_type, read, r),
{
    match read {
        Ok(contents) => {
            let raw = trim(contents.as_str());
            match V::from_raw(raw.as_str()) {
                Ok(v) => Ok(v),
                Err(e) => Err(Error::from_unit_error(e)),
            }
        },
        Err(failure) => Err(read_error(path, sub_type, failure)),
    }
}

/// Returns the items of `items` whose flag in `keep` is set, in their order.
pub fn select_items<T: Copy>(items: &Vec<T>, keep: &Vec<bool>) -> (r: Vec<T>)
    requires
        items.len() == keep.len(),
    ensures
        r@ == select(items@, keep@),
{
    let mut r: Vec<T> = Vec::new();
    let mut i: usize = 0;
    while i < items.len()
        invariant
            items.len() == keep.len(),
            i <= items.len(),
            r@ == select(items@.subrange(0, i as int), keep@.subrange(0, i as int)),
        decreases items.len() - i,
    {
        proof {
            let next = items@.subrange(0, i + 1);
            assert(next.drop_last() =~= items@.subrange(0, i as int));
            assert(keep@.subrange(0, i + 1).subrange(0, i as int) =~= keep@.subrange(0, i as int));
        }
        if keep[i] {
            r.push(items[i]);
        }
        i = i + 1;
    }
    assert(items@.subrange(0, items.len() as int) =~= items@);
    assert(keep@.subrange(0, keep.len() as int) =~= keep@);
    r
}

/// Each subfunction of a sensor has a file of its own: two subfunctions of one sensor whose
/// paths are equal are the same subfunction.
pub proof fn lemma_subfunction_paths_distinct(
    hwmon_path: Seq<char>,
    base: Seq<char>,
    index: u16,
    a: SensorSubFunctionType,
    b: SensorSubFunctionType,
)
    requires
        spec_subfunction_path(hwmon_path, base, index, a) == spec_subfunction_path(
            hwmon_path,
            base,
            index,
            b,
        ),
    ensures
        a == b,
{
    let stem = base + decimal(index as nat);
    let na = spec_subfunction_file(base, index, a);
    let nb = spec_subfunction_file(base, index, b);
    lemma_decimal(index as nat);
    assert(na[0] == stem[0]);
    assert(nb[0] == stem[0]);
    let ja = spec_join(hwmon_path, na);
    let jb = spec_join(hwmon_path, nb);
    if na[0] == '/' {
        assert(na == nb);
    } else if hwmon_path.len() == 0 || hwmon_path.last() == '/' {
        assert(na =~= ja.subrange(hwmon_path.len() as int, ja.len() as int));
        assert(nb =~= jb.subrange(hwmon_path.len() as int, jb.len() as int));
    } else {
        assert(na =~= ja.subrange(hwmon_path.len() as int + 1, ja.len() as int));
        assert(nb =~= jb.subrange(hwmon_path.len() as int + 1, jb.len() as int));
    }
    assert(spec_suffix(a) =~= na.subrange(stem.len() as int, na.len() as int));
    assert(spec_suffix(b) =~= nb.subrange(stem.len() as int, nb.len() as int));
    lemma_suffix_injective(a, b);
}

/// What a write of a value puts into a subfunction's file reads back as that value: when the
/// file holds the text of `value` (with any white space around it), reading the subfunction
/// as a value of the same type gives `value`.
pub proof fn lemma_written_value_reads_back<V: Raw>(
    path: Seq<char>,
    sub_type: SensorSubFunctionType,
    value: V,
    contents: String,
    r: Result<V, Error>,
)
    requires
        value.spec_valid(),
        spec_trim(contents@) == value.spec_encode(),
        value_read_outcome::<V>(path, sub_type, Ok(contents), r),
    ensures
        r == Ok::<V, Error>(value),
{
    V::lemma_raw_round_trip(value);
}

/// Base trait that all sensors implement.
/// It names a sensor's files and interprets what was read from them.
pub trait Sensor: Sized {
    /// Type used by the sensor for measurements.
    type Value: Raw;

    /// This sensor's base, like `temp` or `fan`.
    spec fn spec_base(&self) -> Seq<char>;

    /// This sensor's index.
    spec fn spec_index(&self) -> u16;

    /// The path of this sensor's hwmon.
    spec fn spec_hwmon_path(&self) -> Seq<char>;

    /// Returns this sensor's base like "temp" or "fan".
    fn base(&self) -> (base: &'static str)
        ensures
            base@ == self.spec_base(),
    ;

    /// Returns this sensor's index.
    fn index(&self) -> (index: u16)
        ensures
            index == self.spec_index(),
    ;

    /// Returns this sensor's hwmon's path.
    fn hwmon_path(&self) -> (path: &str)
        ensures
            path@ == self.spec_hwmon_path(),
    ;

    /// Returns the path this sensor's subfunction of the given type would have.
    fn subfunction_path(&self, sub_type: SensorSubFunctionType) -> (path: String)
        ensures
            path@ == spec_subfunction_path(self.spec_hwmon_path(), self.spec_base(), self.spec_index(), sub_type),
    {
        let base = self.base();
        let mut file = String::from_str(base);
        let index = format_unsigned(self.index() as u64);
        file.append(index.as_str());
        let suffix = sub_type.to_suffix();
        file.append(suffix);
        assert(file@ == spec_subfunction_file(self.spec_base(), self.spec_index(), sub_type));
        let hwmon_path = self.hwmon_path();
        join_path(hwmon_path, file.as_str())
    }

    /// Interprets the read of this sensor's subfunction of the given type as raw text:
    /// `read` is the outcome of reading the file at `self.subfunction_path(sub_type)`.
    /// You should usually prefer the specialized read functions like read_input, because they
    /// convert the read value to the right type.
    /// Returns an error, if this sensor doesn't support the subtype.
    fn read_raw(&self, sub_type: SensorSubFunctionType, read: Result<String, IoFailure>) -> (r:
        Result<String, Error>)
        ensures
            raw_read_outcome(spec_subfunction_path(self.spec_hwmon_path(), self.spec_base(), self.spec_index(), sub_type), sub_type, read, r),
    {
        match read {
            Ok(contents) => Ok(trim(contents.as_str())),
            Err(failure) => {
                let path = self.subfunction_path(sub_type);
                Err(read_error(path.as_str(), sub_type, failure))
            },
        }
    }

    /// If this sensor has a label, its contents are returned.
    /// Otherwise a plain sensor descriptor is returned.
    /// `label` is the outcome of reading the label subfunction's file.
    fn name(&self, label: Result<String, IoFailure>) -> (name: String)
        ensures
            match label {
                Ok(contents) => name@ == spec_trim(contents@),
                Err(_) => name@ == self.spec_base() + decimal(self.spec_index() as nat),
            },
    {
        match label {
            Ok(contents) => trim(contents.as_str()),
            Err(_) => {
                let mut name = String::from_str(self.base());
                let index = format_unsigned(self.index() as u64);
                name.append(index.as_str());
                name
            },
        }
    }

    /// Returns a list of all readable subfunction types supported by this sensor.
    /// `readable[i]` tells whether the file of the `i`-th type of
    /// `SensorSubFunctionType::read_list()` could be opened for reading.
    fn supported_read_sub_functions(&self, readable: &Vec<bool>) -> (types: Vec<
        SensorSubFunctionType,
    >)
        requires
            readable.len() == spec_read_only_list().len() + spec_read_write_list().len(),
        ensures
            types@ == select(spec_read_only_list() + spec_read_write_list(), readable@),
    {
        let list = SensorSubFunctionType::read_list();
        select_items(&list, readable)
    }
}

/// Base trait that all writeable sensors implement.
pub trait WriteableSensor: Sensor {
    /// Returns the write that sets this sensor's subfunction of the given type to the given
    /// raw text.
    /// You should usually prefer the specialized write functions like write_enable, because
    /// they ensure that no type mismatches occur.
    fn write_raw(&self, sub_type: SensorSubFunctionType, raw_value: &str) -> (request:
        WriteRequest)
        ensures
            request.path@ == spec_subfunction_path(self.spec_hwmon_path(), self.spec_base(), self.spec_index(), sub_type),
            request.contents@ == raw_value@,
    {
        WriteRequest {
            path: self.subfunction_path(sub_type),
            contents: String::from_str(raw_value),
        }
    }

    /// Interprets the outcome of a write to this sensor's subfunction of the given type.
    /// Returns an error, if this sensor doesn't support the subtype.
    fn write_result(&self, sub_type: SensorSubFunctionType, written: Result<(), IoFailure>) -> (r:
        Result<(), Error>)
        ensures
            write_outcome(spec_subfunction_path(self.spec_hwmon_path(), self.spec_base(), self.spec_index(), sub_type), sub_type, written, r),
    {
        match written {
            Ok(()) => Ok(()),
            Err(failure) => {
                let path = self.subfunction_path(sub_type);
                Err(write_error(path.as_str(), sub_type, failure))
            },
        }
    }

    /// Returns the write that resets this sensor's history.
    fn reset_history(&self) -> (request: WriteRequest)
        ensures
            request.path@ == spec_subfunction_path(self.spec_hwmon_path(), self.spec_base(), self.spec_index(), SensorSubFunctionType::ResetHistory),
            request.contents@ == true.spec_encode(),
    {
        let raw = true.to_raw();
        self.write_raw(SensorSubFunctionType::ResetHistory, raw.as_str())
    }

    /// Returns a list of all writeable subfunction types supported by this sensor.
    /// `writable[i]` tells whether the file of the `i`-th type of
    /// `SensorSubFunctionType::write_list()` could be opened for writing.
    fn supported_write_sub_functions(&self, writable: &Vec<bool>) -> (types: Vec<
        SensorSubFunctionType,
    >)
        requires
            writable.len() == spec_write_only_list().len() + spec_read_write_list().len(),
        ensures
            types@ == select(spec_write_only_list() + spec_read_write_list(), writable@),
    {
        let list = SensorSubFunctionType::write_list();
        select_items(&list, writable)
    }

    /// Returns a list of all readable and writeable subfunction types supported by this sensor.
    /// `accessible[i]` tells whether the file of the `i`-th type of
    /// `SensorSubFunctionType::read_write_list()` could be opened for reading and writing.
    fn supported_read_write_sub_functions(&self, accessible: &Vec<bool>) -> (types: Vec<
        SensorSubFunctionType,
    >)
        requires
            accessible.len() == spec_read_write_list().len(),
        ensures
            types@ == select(spec_read_write_list(), accessible@),
    {
        let list = SensorSubFunctionType::read_write_list();
        select_items(&list, accessible)
    }
}

} // verus!
