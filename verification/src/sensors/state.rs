//! The state of a sensor's writeable subfunctions: capturing it, and writing it back to the
//! same or another sensor.

use crate::sensors::base::{
    select, spec_subfunction_path, write_error, write_failure_error, Sensor, WriteableSensor,
};
use crate::sensors::error::Error;
use crate::sensors::subfunction_type::{
    spec_read_write_list, spec_write_only_list, SensorSubFunctionType,
};
use crate::sysfs::{IoErrorKind, IoFailure, WriteRequest};
use crate::text::{lemma_trim_idempotent, spec_trim};
use vstd::prelude::*;

verus! {

/// The entries that capturing a state keeps: for each subfunction type of `types` whose
/// read in `reads` succeeded, the type and the trimmed text that was read.
pub open spec fn captured_entries(
    types: Seq<SensorSubFunctionType>,
    reads: Seq<Result<String, IoFailure>>,
) -> Seq<(SensorSubFunctionType, Seq<char>)>
    decreases types.len(),
{
    if types.len() == 0 {
        Seq::empty()
    } else {
        let n = types.len() - 1;
        let rest = captured_entries(types.subrange(0, n), reads.subrange(0, n));
        match reads[n] {
            Ok(contents) => rest.push((types[n], spec_trim(contents@))),
            Err(_) => rest,
        }
    }
}

/// The position of the first entry of `entries` whose type is not in `supported`, if any.
pub open spec fn first_unsupported(
    entries: Seq<(SensorSubFunctionType, Seq<char>)>,
    supported: Seq<SensorSubFunctionType>,
) -> Option<int> {
    if exists|i: int| 0 <= i < entries.len() && !supported.contains(#[trigger] entries[i].0) {
        Some(
            choose|i: int|
                0 <= i < entries.len() && !supported.contains(#[trigger] entries[i].0) && forall|
                    j: int,
                |
                    0 <= j < i ==> supported.contains(#[trigger] entries[j].0),
        )
    } else {
        None
    }
}

/// A struct that represents the state of all writeable subfunctions of a sensor.
/// It can be used to reset a sensor to a previous state or copy its settings to another sensor.
///
/// The states are kept as a sequence of pairs, in the order in which they were captured,
/// with no subfunction type twice (the type's invariant), rather than in a hash map: a map
/// keyed by a type of this library gives no proved facts about lookups and walks its
/// entries in no fixed order, while the sequence lets every operation here state exactly
/// which types it holds and in which order it writes them.
#[derive(Debug)]
pub struct AsyncSensorState {
    states: Vec<(SensorSubFunctionType, String)>,
}

/// The state of a sensor's writeable subfunctions.
pub type SensorState = AsyncSensorState;

impl AsyncSensorState {
    /// The entries of this state, in order: subfunction types and their raw values.
    pub closed spec fn entries(&self) -> Seq<(SensorSubFunctionType, Seq<char>)> {
        Seq::new(self.states@.len(), |i: int| (self.states@[i].0, self.states@[i].1@))
    }

    /// No subfunction type occurs twice in a state.
    #[verifier::type_invariant]
    spec fn types_are_distinct(&self) -> bool {
        forall|i: int, j: int|
            0 <= i < j < self.states@.len() ==> self.states@[i].0 != self.states@[j].0
    }

    /// Returns a SensorState struct created from the given sensor: `reads[i]` is the outcome
    /// of reading the `i`-th type of `SensorSubFunctionType::read_write_list()`.
    pub fn from_sensor<S: WriteableSensor>(sensor: &S, reads: Vec<Result<String, IoFailure>>) -> (r:
        Result<AsyncSensorState, Error>)
        requires
            reads.len() == spec_read_write_list().len(),
        ensures
            r matches Ok(state) && state.entries() == captured_entries(
                spec_read_write_list(),
                reads@,
            ),
    {
        capture_state(sensor, reads)
    }

    /// Returns all subfunction types that this state contains.
    pub fn sub_types(&self) -> (types: Vec<SensorSubFunctionType>)
        ensures
            types@ == self.entries().map_values(
                |e: (SensorSubFunctionType, Seq<char>)| e.0,
            ),
            types@.no_duplicates(),
    {
        proof {
            use_type_invariant(self);
        }
        let mut types: Vec<SensorSubFunctionType> = Vec::new();
        let mut i: usize = 0;
        while i < self.states.len()
            invariant
                i <= self.states@.len(),
                types@ == self.entries().subrange(0, i as int).map_values(
                    |e: (SensorSubFunctionType, Seq<char>)| e.0,
                ),
            decreases self.states@.len() - i,
        {
            types.push(self.states[i].0);
            i = i + 1;
            assert(types@ =~= self.entries().subrange(0, i as int).map_values(
                |e: (SensorSubFunctionType, Seq<char>)| e.0,
            ));
        }
        assert(self.entries().subrange(0, i as int) =~= self.entries());
        assert forall|a: int, b: int| 0 <= a < types@.len() && 0 <= b < types@.len() && a != b implies types@[a]
            != types@[b] by {
            if a < b {
                assert(self.states@[a].0 != self.states@[b].0);
            } else {
                assert(self.states@[b].0 != self.states@[a].0);
            }
        }
        types
    }

    /// Returns the raw value that this state holds for the given subfunction type, if any.
    pub fn get(&self, sub_type: SensorSubFunctionType) -> (value: Option<&str>)
        ensures
            match value {
                Some(v) => exists|i: int|
                    0 <= i < self.entries().len() && #[trigger] self.entries()[i] == (
                        sub_type,
                        v@,
                    ),
                None => forall|i: int|
                    0 <= i < self.entries().len() ==> #[trigger] self.entries()[i].0 != sub_type,
            },
    {
        let mut i: usize = 0;
        while i < self.states.len()
            invariant
                i <= self.states@.len(),
                forall|k: int| 0 <= k < i ==> #[trigger] self.entries()[k].0 != sub_type,
            decreases self.states@.len() - i,
        {
            if self.states[i].0 == sub_type {
                assert(self.entries()[i as int] == (sub_type, self.states@[i as int].1@));
                return Some(self.states[i].1.as_str());
            }
            i = i + 1;
        }
        None
    }
}

impl Clone for AsyncSensorState {
    fn clone(&self) -> (copy: Self)
        ensures
            copy.entries() == self.entries(),
    {
        proof {
            use_type_invariant(self);
        }
        let mut states: Vec<(SensorSubFunctionType, String)> = Vec::new();
        let mut i: usize = 0;
        while i < self.states.len()
            invariant
                i <= self.states@.len(),
                states@.len() == i,
                forall|k: int| 0 <= k < i ==> #[trigger] states@[k] == self.states@[k],
                forall|a: int, b: int|
                    0 <= a < b < self.states@.len() ==> self.states@[a].0 != self.states@[b].0,
            decreases self.states@.len() - i,
        {
            let value = self.states[i].1.clone();
            assert(value == self.states@[i as int].1);
            states.push((self.states[i].0, value));
            assert(states@[i as int] == self.states@[i as int]);
            i = i + 1;
        }
        assert(forall|a: int, b: int|
            0 <= a < b < states@.len() ==> states@[a].0 != states@[b].0);
        let copy = AsyncSensorState { states };
        assert(copy.entries() =~= self.entries());
        copy
    }
}

/// Captures the state of `sensor`: `reads[i]` is the outcome of reading the `i`-th type of
/// `SensorSubFunctionType::read_write_list()`; the state keeps the types whose read succeeded.
pub fn capture_state<S: WriteableSensor>(sensor: &S, reads: Vec<Result<String, IoFailure>>) -> (r:
    Result<AsyncSensorState, Error>)
    requires
        reads.len() == spec_read_write_list().len(),
    ensures
        r matches Ok(state) && state.entries() == captured_entries(spec_read_write_list(), reads@),
{
    let types = SensorSubFunctionType::read_write_list();
    let ghost all_reads = reads@;
    let mut reads = reads;
    let mut states: Vec<(SensorSubFunctionType, String)> = Vec::new();
    let mut i: usize = 0;
    let n = types.len();
    while i < n
        invariant
            n == types@.len(),
            types@ == spec_read_write_list(),
            all_reads.len() == n,
            i <= n,
            reads@ == all_reads.subrange(i as int, n as int),
            Seq::new(states@.len(), |k: int| (states@[k].0, states@[k].1@)) == captured_entries(
                types@.subrange(0, i as int),
                all_reads.subrange(0, i as int),
            ),
            forall|a: int, b: int| 0 <= a < b < states@.len() ==> states@[a].0 != states@[b].0,
            forall|a: int|
                0 <= a < states@.len() ==> exists|k: int|
                    0 <= k < i && types@[k] == #[trigger] states@[a].0,
        decreases n - i,
    {
        let read = reads.remove(0);
        let sub_type = types[i];
        proof {
            assert(read == all_reads[i as int]);
            assert(types@.subrange(0, i + 1).subrange(0, i as int) =~= types@.subrange(0, i as int));
            assert(all_reads.subrange(0, i + 1).subrange(0, i as int) =~= all_reads.subrange(
                0,
                i as int,
            ));
            assert(reads@ =~= all_reads.subrange(i + 1, n as int));
            lemma_read_write_list_distinct();
        }
        let ghost old_states = states@;
        match sensor.read_raw(sub_type, read) {
            Ok(value) => {
                states.push((sub_type, value));
                proof {
                    assert(Seq::new(states@.len(), |k: int| (states@[k].0, states@[k].1@))
                        =~= Seq::new(old_states.len(), |k: int| (old_states[k].0, old_states[k].1@)).push(
                        (sub_type, value@),
                    ));
                    assert forall|a: int, b: int| 0 <= a < b < states@.len() implies states@[a].0
                        != states@[b].0 by {
                        if b == states@.len() - 1 {
                            let k = choose|k: int| 0 <= k < i && types@[k] == #[trigger] states@[a].0;
                            assert(types@[k] != types@[i as int]);
                        }
                    }
                    assert forall|a: int| 0 <= a < states@.len() implies exists|k: int|
                        0 <= k < i + 1 && types@[k] == #[trigger] states@[a].0 by {
                        if a == states@.len() - 1 {
                            assert(types@[i as int] == states@[a].0);
                        } else {
                            let k = choose|k: int| 0 <= k < i && types@[k] == #[trigger] old_states[a].0;
                            assert(types@[k] == states@[a].0);
                        }
                    }
                }
            },
            Err(_) => {
                proof {
                    assert forall|a: int| 0 <= a < states@.len() implies exists|k: int|
                        0 <= k < i + 1 && types@[k] == #[trigger] states@[a].0 by {
                        let k = choose|k: int| 0 <= k < i && types@[k] == #[trigger] states@[a].0;
                        assert(types@[k] == states@[a].0);
                    }
                }
            },
        }
        i = i + 1;
    }
    assert(types@.subrange(0, n as int) =~= types@);
    assert(all_reads.subrange(0, n as int) =~= all_reads);
    assert(forall|a: int, b: int|
        0 <= a < b < states@.len() ==> states@[a].0 != states@[b].0);
    let state = AsyncSensorState { states };
    assert(state.entries() =~= Seq::new(states@.len(), |k: int| (states@[k].0, states@[k].1@)));
    Ok(state)
}

/// The writes that writing back a state with the given entries to the sensor `base` + `index`
/// of the hwmon at `hwmon_path` performs, in order: for each entry, its type, the path of
/// that subfunction's file and the raw value to write into it.
pub open spec fn planned_writes(
    hwmon_path: Seq<char>,
    base: Seq<char>,
    index: u16,
    entries: Seq<(SensorSubFunctionType, Seq<char>)>,
) -> Seq<(SensorSubFunctionType, Seq<char>, Seq<char>)> {
    entries.map_values(
        |e: (SensorSubFunctionType, Seq<char>)|
            (e.0, spec_subfunction_path(hwmon_path, base, index, e.0), e.1),
    )
}

/// Writes a state to a sensor, one subfunction at a time, in the order of the state's
/// entries. A write that finds no file is skipped (the sensor does not support that
/// subfunction); any other failed write ends the writing with its error.
///
/// The caller performs the write that [`StateWriter::next_write`] names and hands its
/// outcome to [`StateWriter::record`], until `next_write` gives `None`.
pub struct StateWriter {
    writes: Vec<(SensorSubFunctionType, WriteRequest)>,
    progress: (usize, Option<Result<(), Error>>, Ghost<Seq<Result<(), IoFailure>>>),
}

/// Whether a write with this outcome lets the writing go on: it succeeded, or it found no
/// file (the sensor does not support that subfunction).
pub open spec fn write_goes_on(written: Result<(), IoFailure>) -> bool {
    written matches Err(f) ==> f.kind == IoErrorKind::NotFound
}

/// `after` is `before` with one more write done, and finished with success if that was the
/// last one.
pub open spec fn advanced(before: StateWriter, after: StateWriter) -> bool {
    &&& after.position() == before.position() + 1
    &&& (after.finished() <==> after.position() == after.planned().len())
    &&& (after.finished() ==> after.spec_outcome() == Some(Ok::<(), Error>(())))
}

impl StateWriter {
    /// The writes to perform, in order: type, path and contents.
    pub closed spec fn planned(&self) -> Seq<(SensorSubFunctionType, Seq<char>, Seq<char>)> {
        Seq::new(
            self.writes@.len(),
            |i: int| (self.writes@[i].0, self.writes@[i].1.path@, self.writes@[i].1.contents@),
        )
    }

    /// How many of the planned writes have been recorded.
    pub closed spec fn position(&self) -> nat {
        self.progress.0 as nat
    }

    /// The outcome of the whole writing, once it is over.
    pub closed spec fn spec_outcome(&self) -> Option<Result<(), Error>> {
        self.progress.1
    }

    /// The outcomes recorded so far, in order.
    pub closed spec fn spec_recorded(&self) -> Seq<Result<(), IoFailure>> {
        self.progress.2@
    }

    /// Whether the writing is over.
    pub open spec fn finished(&self) -> bool {
        self.spec_outcome() is Some
    }

    #[verifier::type_invariant]
    spec fn well_formed(&self) -> bool {
        &&& self.progress.0 <= self.writes@.len()
        &&& (self.progress.1 is None ==> self.progress.0 < self.writes@.len())
        &&& (self.progress.1 matches Some(Ok(_)) ==> self.progress.0 == self.writes@.len())
        &&& forall|i: int| 0 <= i < self.progress.0 ==> write_goes_on(#[trigger] self.progress.2@[i])
        &&& if self.progress.1 matches Some(Err(_)) {
            &&& self.progress.2@.len() == self.progress.0 + 1
            &&& !write_goes_on(self.progress.2@.last())
        } else {
            self.progress.2@.len() == self.progress.0
        }
    }

    /// Returns the next write to perform, or `None` once the writing is over.
    pub fn next_write(&self) -> (request: Option<&WriteRequest>)
        ensures
            match request {
                Some(req) => !self.finished() && self.position() < self.planned().len()
                    && self.spec_recorded().len() == self.position() && (
                req.path@, req.contents@) == (
                    self.planned()[self.position() as int].1,
                    self.planned()[self.position() as int].2,
                ),
                None => self.finished(),
            },
    {
        proof {
            use_type_invariant(self);
        }
        if self.progress.1.is_some() {
            None
        } else {
            Some(&self.writes[self.progress.0].1)
        }
    }

    /// Records the outcome of the write that `next_write` named.
    pub fn record(&mut self, written: Result<(), IoFailure>)
        requires
            !old(self).finished(),
        ensures
            final(self).planned() == old(self).planned(),
            final(self).spec_recorded() == old(self).spec_recorded().push(written),
            match written {
                Err(failure) => if failure.kind == IoErrorKind::NotFound {
                    advanced(*old(self), *final(self))
                } else {
                    final(self).position() == old(self).position() && (final(self).spec_outcome() matches Some(Err(e))
                        && write_failure_error(
                        old(self).planned()[old(self).position() as int].1,
                        old(self).planned()[old(self).position() as int].0,
                        failure,
                        e,
                    ))
                },
                Ok(_) => advanced(*old(self), *final(self)),
            },
    {
        proof {
            use_type_invariant(&*self);
        }
        let skip = match &written {
            Ok(()) => true,
            Err(failure) => failure.kind == IoErrorKind::NotFound,
        };
        let next = self.progress.0;
        assert(self.progress.1 is None);
        let ghost recorded = self.progress.2@.push(written);
        assert(next < self.writes.len());
        if skip {
            if next + 1 == self.writes.len() {
                self.progress = (next + 1, Some(Ok(())), Ghost(recorded));
            } else {
                self.progress = (next + 1, None, Ghost(recorded));
            }
        } else {
            match written {
                Ok(()) => {},
                Err(failure) => {
                    let sub_type = self.writes[next].0;
                    let e = write_error(self.writes[next].1.path.as_str(), sub_type, failure);
                    self.progress = (next, Some(Err(e)), Ghost(recorded));
                },
            }
        }
    }

    /// Returns the outcome of the whole writing.
    pub fn outcome(self) -> (r: Result<(), Error>)
        requires
            self.finished(),
        ensures
            Some(r) == self.spec_outcome(),
            r is Ok <==> forall|i: int|
                0 <= i < self.spec_recorded().len() ==> write_goes_on(#[trigger] self.spec_recorded()[i]),
            r is Ok ==> self.spec_recorded().len() == self.planned().len(),
    {
        proof {
            use_type_invariant(&self);
            if self.progress.1 matches Some(Err(_)) {
                let last = self.progress.2@.len() - 1;
                assert(!write_goes_on(self.spec_recorded()[last]));
            }
        }
        match self.progress.1 {
            Some(r) => r,
            None => Ok(()),
        }
    }
}

/// Returns the writer that writes the given state to `sensor`. All subfunction types
/// contained in the given state that are not supported by this sensor will be ignored.
pub fn write_state_lossy<S: WriteableSensor>(sensor: &S, state: &AsyncSensorState) -> (writer:
    StateWriter)
    ensures
        writer.planned() == planned_writes(
            sensor.spec_hwmon_path(),
            sensor.spec_base(),
            sensor.spec_index(),
            state.entries(),
        ),
        writer.position() == 0,
        writer.finished() <==> state.entries().len() == 0,
        writer.finished() ==> writer.spec_outcome() == Some(Ok::<(), Error>(())),
{
    let mut writes: Vec<(SensorSubFunctionType, WriteRequest)> = Vec::new();
    let mut i: usize = 0;
    let ghost target = planned_writes(
        sensor.spec_hwmon_path(),
        sensor.spec_base(),
        sensor.spec_index(),
        state.entries(),
    );
    while i < state.states.len()
        invariant
            i <= state.states@.len(),
            target == planned_writes(
                sensor.spec_hwmon_path(),
                sensor.spec_base(),
                sensor.spec_index(),
                state.entries(),
            ),
            writes@.len() == i,
            forall|k: int|
                0 <= k < i ==> (writes@[k].0, writes@[k].1.path@, writes@[k].1.contents@)
                    == #[trigger] target[k],
        decreases state.states@.len() - i,
    {
        let sub_type = state.states[i].0;
        let request = sensor.write_raw(sub_type, state.states[i].1.as_str());
        writes.push((sub_type, request));
        i = i + 1;
    }
    let outcome = if writes.len() == 0 {
        Some(Ok(()))
    } else {
        None
    };
    let writer = StateWriter { writes, progress: (0, outcome, Ghost(Seq::empty())) };
    assert(writer.planned() =~= target);
    writer
}

/// Returns the writer that writes the given state to `sensor`, or an error, writing nothing,
/// if the state contains a subfunction type that the sensor does not support.
/// `writable[i]` tells whether the file of the `i`-th type of
/// `SensorSubFunctionType::write_list()` could be opened for writing.
pub fn write_state<S: WriteableSensor>(
    sensor: &S,
    state: &AsyncSensorState,
    writable: &Vec<bool>,
) -> (r: Result<StateWriter, Error>)
    requires
        writable.len() == spec_write_only_list().len() + spec_read_write_list().len(),
    ensures
        match first_unsupported(
            state.entries(),
            select(spec_write_only_list() + spec_read_write_list(), writable@),
        ) {
            Some(i) => r matches Err(e) && e == (Error::SubtypeNotSupported {
                sub_type: state.entries()[i].0,
            }),
            None => r matches Ok(writer) && writer.planned() == planned_writes(
                sensor.spec_hwmon_path(),
                sensor.spec_base(),
                sensor.spec_index(),
                state.entries(),
            ) && writer.position() == 0 && (writer.finished() <==> state.entries().len() == 0)
                && (writer.finished() ==> writer.spec_outcome() == Some(Ok::<(), Error>(()))),
        },
{
    let supported = sensor.supported_write_sub_functions(writable);
    let ghost sup = supported@;
    let mut i: usize = 0;
    while i < state.states.len()
        invariant
            i <= state.states@.len(),
            sup == supported@,
            sup == select(spec_write_only_list() + spec_read_write_list(), writable@),
            forall|j: int| 0 <= j < i ==> sup.contains(#[trigger] state.entries()[j].0),
        decreases state.states@.len() - i,
    {
        let sub_type = state.states[i].0;
        if !contains_type(&supported, sub_type) {
            proof {
                let ents = state.entries();
                assert(ents[i as int].0 == sub_type);
                assert(!sup.contains(ents[i as int].0));
                assert(forall|j: int| 0 <= j < i ==> sup.contains(#[trigger] ents[j].0));
                let c = choose|c: int|
                    0 <= c < ents.len() && !sup.contains(#[trigger] ents[c].0) && forall|j: int|
                        0 <= j < c ==> sup.contains(#[trigger] ents[j].0);
                assert(first_unsupported(ents, sup) == Some(c));
                if c < i {
                    assert(sup.contains(ents[c].0));
                } else if c > i {
                    assert(sup.contains(ents[i as int].0));
                }
                assert(c == i);
                assert(first_unsupported(ents, sup) == Some(i as int));
                assert(first_unsupported(state.entries(), sup) == Some(i as int));
            }
            return Err(Error::SubtypeNotSupported { sub_type });
        }
        i = i + 1;
    }
    assert(first_unsupported(state.entries(), sup) is None);
    Ok(write_state_lossy(sensor, state))
}

/// Whether `types` contains `sub_type`.
fn contains_type(types: &Vec<SensorSubFunctionType>, sub_type: SensorSubFunctionType) -> (r: bool)
    ensures
        r == types@.contains(sub_type),
{
    let mut i: usize = 0;
    while i < types.len()
        invariant
            i <= types@.len(),
            forall|k: int| 0 <= k < i ==> types@[k] != sub_type,
        decreases types@.len() - i,
    {
        if types[i] == sub_type {
            assert(types@[i as int] == sub_type);
            return true;
        }
        i = i + 1;
    }
    false
}

/// Each captured entry comes from a read that succeeded: it holds that read's type and
/// trimmed text.
proof fn lemma_captured_entry_origin(
    types: Seq<SensorSubFunctionType>,
    reads: Seq<Result<String, IoFailure>>,
    k: int,
)
    requires
        types.len() == reads.len(),
        0 <= k < captured_entries(types, reads).len(),
    ensures
        exists|i: int|
            0 <= i < types.len() && reads[i] is Ok && #[trigger] captured_entries(types, reads)[k]
                == (types[i], spec_trim(reads[i]->Ok_0@)),
    decreases types.len(),
{
    let n = types.len() - 1;
    let front = types.subrange(0, n);
    let front_reads = reads.subrange(0, n);
    let rest = captured_entries(front, front_reads);
    if k < rest.len() {
        lemma_captured_entry_origin(front, front_reads, k);
        let i = choose|i: int|
            0 <= i < front.len() && front_reads[i] is Ok && #[trigger] captured_entries(
                front,
                front_reads,
            )[k] == (front[i], spec_trim(front_reads[i]->Ok_0@));
        assert(captured_entries(types, reads)[k] == rest[k]);
        assert(types[i] == front[i] && reads[i] == front_reads[i]);
    } else {
        assert(reads[n] is Ok);
        assert(captured_entries(types, reads)[k] == (types[n], spec_trim(reads[n]->Ok_0@)));
    }
}

/// Every read that succeeded is captured, with its type and trimmed text.
proof fn lemma_captured_read_kept(
    types: Seq<SensorSubFunctionType>,
    reads: Seq<Result<String, IoFailure>>,
    i: int,
)
    requires
        types.len() == reads.len(),
        0 <= i < types.len(),
        reads[i] is Ok,
    ensures
        exists|k: int|
            0 <= k < captured_entries(types, reads).len() && #[trigger] captured_entries(types, reads)[k]
                == (types[i], spec_trim(reads[i]->Ok_0@)),
    decreases types.len(),
{
    let n = types.len() - 1;
    let front = types.subrange(0, n);
    let front_reads = reads.subrange(0, n);
    let rest = captured_entries(front, front_reads);
    if i < n {
        lemma_captured_read_kept(front, front_reads, i);
        let k = choose|k: int|
            0 <= k < rest.len() && #[trigger] captured_entries(front, front_reads)[k] == (
                front[i],
                spec_trim(front_reads[i]->Ok_0@),
            );
        assert(captured_entries(types, reads)[k] == rest[k]);
    } else {
        assert(captured_entries(types, reads)[rest.len() as int] == (types[n], spec_trim(reads[n]->Ok_0@)));
    }
}

/// Capturing a state keeps every subfunction whose read succeeded: for each type of the
/// read-write list whose read gave text, the state holds that type with the trimmed text.
pub proof fn lemma_capture_keeps_every_read(reads: Seq<Result<String, IoFailure>>, i: int)
    requires
        reads.len() == spec_read_write_list().len(),
        0 <= i < reads.len(),
        reads[i] is Ok,
    ensures
        exists|k: int|
            0 <= k < captured_entries(spec_read_write_list(), reads).len()
                && #[trigger] captured_entries(spec_read_write_list(), reads)[k] == (
                spec_read_write_list()[i],
                spec_trim(reads[i]->Ok_0@),
            ),
{
    lemma_captured_read_kept(spec_read_write_list(), reads, i);
}

/// Capturing a state, per subfunction type of the read-write list: the state holds the type
/// exactly when its read succeeded, and then with the trimmed text that was read.
pub proof fn lemma_captured_state_per_type(reads: Seq<Result<String, IoFailure>>, i: int)
    requires
        reads.len() == spec_read_write_list().len(),
        0 <= i < reads.len(),
    ensures
        (exists|k: int|
            0 <= k < captured_entries(spec_read_write_list(), reads).len()
                && #[trigger] captured_entries(spec_read_write_list(), reads)[k].0
                == spec_read_write_list()[i]) <==> reads[i] is Ok,
        forall|k: int|
            0 <= k < captured_entries(spec_read_write_list(), reads).len()
                && #[trigger] captured_entries(spec_read_write_list(), reads)[k].0
                == spec_read_write_list()[i] ==> captured_entries(spec_read_write_list(), reads)[k].1
                == spec_trim(reads[i]->Ok_0@),
{
    let list = spec_read_write_list();
    let entries = captured_entries(list, reads);
    lemma_read_write_list_distinct();
    assert forall|k: int| 0 <= k < entries.len() && #[trigger] entries[k].0 == list[i] implies reads[i] is Ok
        && entries[k].1 == spec_trim(reads[i]->Ok_0@) by {
        lemma_captured_entry_origin(list, reads, k);
        let m = choose|m: int|
            0 <= m < list.len() && reads[m] is Ok && #[trigger] captured_entries(list, reads)[k] == (
                list[m],
                spec_trim(reads[m]->Ok_0@),
            );
        if m != i {
            if m < i {
                assert(list[m] != list[i]);
            } else {
                assert(list[i] != list[m]);
            }
        }
    }
    if reads[i] is Ok {
        lemma_captured_read_kept(list, reads, i);
        let k = choose|k: int|
            0 <= k < entries.len() && #[trigger] captured_entries(list, reads)[k] == (
                list[i],
                spec_trim(reads[i]->Ok_0@),
            );
        assert(entries[k].0 == list[i]);
    }
}

/// Capturing again after the files hold what the restore wrote gives the same entries.
proof fn lemma_recapture(
    types: Seq<SensorSubFunctionType>,
    reads: Seq<Result<String, IoFailure>>,
    again: Seq<Result<String, IoFailure>>,
)
    requires
        types.len() == reads.len(),
        again.len() == reads.len(),
        forall|i: int|
            0 <= i < reads.len() && #[trigger] reads[i] is Ok ==> again[i] is Ok && again[i]->Ok_0@
                == spec_trim(reads[i]->Ok_0@),
        forall|i: int| 0 <= i < reads.len() && #[trigger] reads[i] is Err ==> again[i] is Err,
    ensures
        captured_entries(types, again) == captured_entries(types, reads),
    decreases types.len(),
{
    if types.len() > 0 {
        let n = types.len() - 1;
        let front = types.subrange(0, n);
        let fr = reads.subrange(0, n);
        let fa = again.subrange(0, n);
        assert forall|i: int| 0 <= i < fr.len() && #[trigger] fr[i] is Ok implies fa[i] is Ok
            && fa[i]->Ok_0@ == spec_trim(fr[i]->Ok_0@) by {
            assert(reads[i] is Ok);
        }
        assert forall|i: int| 0 <= i < fr.len() && #[trigger] fr[i] is Err implies fa[i] is Err by {
            assert(reads[i] is Err);
        }
        lemma_recapture(front, fr, fa);
        if reads[n] is Ok {
            assert(again[n] is Ok);
            lemma_trim_idempotent(reads[n]->Ok_0@);
        } else {
            assert(reads[n] is Err);
            assert(again[n] is Err);
        }
    }
}

/// Writing a captured state back restores it: once every file whose read succeeded holds
/// the text that the restore wrote into it (see [`lemma_restore_writes_what_was_read`]), and
/// the files whose read failed still fail, capturing the sensor again gives the same state.
pub proof fn lemma_restore_restores(
    reads: Seq<Result<String, IoFailure>>,
    again: Seq<Result<String, IoFailure>>,
)
    requires
        reads.len() == spec_read_write_list().len(),
        again.len() == reads.len(),
        forall|i: int|
            0 <= i < reads.len() && #[trigger] reads[i] is Ok ==> again[i] is Ok && again[i]->Ok_0@
                == spec_trim(reads[i]->Ok_0@),
        forall|i: int| 0 <= i < reads.len() && #[trigger] reads[i] is Err ==> again[i] is Err,
    ensures
        captured_entries(spec_read_write_list(), again) == captured_entries(
            spec_read_write_list(),
            reads,
        ),
{
    lemma_recapture(spec_read_write_list(), reads, again);
}

/// Restoring a captured state: writing a state captured from a sensor back to that sensor
/// puts, into the file of each subfunction whose read succeeded, the trimmed text that was
/// read from it, and writes nothing else.
pub proof fn lemma_restore_writes_what_was_read(
    hwmon_path: Seq<char>,
    base: Seq<char>,
    index: u16,
    reads: Seq<Result<String, IoFailure>>,
    k: int,
)
    requires
        reads.len() == spec_read_write_list().len(),
        0 <= k < captured_entries(spec_read_write_list(), reads).len(),
    ensures
        exists|i: int|
            0 <= i < reads.len() && reads[i] is Ok && #[trigger] planned_writes(
                hwmon_path,
                base,
                index,
                captured_entries(spec_read_write_list(), reads),
            )[k] == (
                spec_read_write_list()[i],
                spec_subfunction_path(hwmon_path, base, index, spec_read_write_list()[i]),
                spec_trim(reads[i]->Ok_0@),
            ),
{
    lemma_captured_entry_origin(spec_read_write_list(), reads, k);
}

/// Writing a captured state back to the sensor it came from restores it. Let `reads` be the
/// reads that captured the state, and `files` the sensor's files (by path) after the
/// restore: every planned write landed and the files keep what was written, and the files
/// whose read had failed are still missing. Let `again` be the reads of the same
/// subfunctions from `files`. Then capturing again gives the same state.
pub proof fn lemma_lossy_restore_round_trip(
    hwmon_path: Seq<char>,
    base: Seq<char>,
    index: u16,
    reads: Seq<Result<String, IoFailure>>,
    files: Map<Seq<char>, Seq<char>>,
    again: Seq<Result<String, IoFailure>>,
)
    requires
        reads.len() == spec_read_write_list().len(),
        again.len() == reads.len(),
        forall|k: int|
            0 <= k < planned_writes(hwmon_path, base, index, captured_entries(spec_read_write_list(), reads)).len()
                ==> files.contains_key(
                #[trigger] planned_writes(hwmon_path, base, index, captured_entries(spec_read_write_list(), reads))[k].1,
            ) && files[planned_writes(hwmon_path, base, index, captured_entries(spec_read_write_list(), reads))[k].1]
                == planned_writes(hwmon_path, base, index, captured_entries(spec_read_write_list(), reads))[k].2,
        forall|i: int|
            0 <= i < reads.len() && #[trigger] reads[i] is Err ==> !files.contains_key(
                spec_subfunction_path(hwmon_path, base, index, spec_read_write_list()[i]),
            ),
        forall|i: int|
            0 <= i < reads.len() ==> if files.contains_key(
                spec_subfunction_path(hwmon_path, base, index, spec_read_write_list()[i]),
            ) {
                #[trigger] again[i] is Ok && again[i]->Ok_0@ == files[spec_subfunction_path(
                    hwmon_path,
                    base,
                    index,
                    spec_read_write_list()[i],
                )]
            } else {
                again[i] is Err
            },
    ensures
        captured_entries(spec_read_write_list(), again) == captured_entries(
            spec_read_write_list(),
            reads,
        ),
{
    let list = spec_read_write_list();
    let entries = captured_entries(list, reads);
    let planned = planned_writes(hwmon_path, base, index, entries);
    assert forall|i: int|
        0 <= i < reads.len() && #[trigger] reads[i] is Ok implies again[i] is Ok && again[i]->Ok_0@
            == spec_trim(reads[i]->Ok_0@) by {
        lemma_captured_read_kept(list, reads, i);
        let k = choose|k: int|
            0 <= k < entries.len() && #[trigger] captured_entries(list, reads)[k] == (
                list[i],
                spec_trim(reads[i]->Ok_0@),
            );
        let p = spec_subfunction_path(hwmon_path, base, index, list[i]);
        assert(planned[k] == (list[i], p, spec_trim(reads[i]->Ok_0@)));
        assert(files.contains_key(planned[k].1));
        assert(again[i] is Ok && again[i]->Ok_0@ == files[p]);
    }
    assert forall|i: int| 0 <= i < reads.len() && #[trigger] reads[i] is Err implies again[i] is Err by {
        let p = spec_subfunction_path(hwmon_path, base, index, list[i]);
        assert(!files.contains_key(p));
        assert(again[i] is Err);
    }
    lemma_restore_restores(reads, again);
}

/// The read-write list holds no subfunction type twice.
proof fn lemma_read_write_list_distinct()
    ensures
        forall|a: int, b: int|
            0 <= a < b < spec_read_write_list().len() ==> spec_read_write_list()[a]
                != spec_read_write_list()[b],
{
    crate::sensors::subfunction_type::lemma_lists_have_no_duplicates();
}

} // verus!
