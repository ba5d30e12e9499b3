//! Parsing the hwmon tree below a directory such as `/sys/class/hwmon`.
//!
//! Parsing alternates file system accesses with decisions, so it is a machine: the caller
//! asks it for the access it needs ([`HwmonsParser::request`]), performs it, and hands the
//! outcome back (`answer_inspect`, `answer_read` or `answer_list`), until there is no more
//! request; [`HwmonsParser::finish`] then gives the parsed [`Hwmons`] or the error.
//!
//! The hwmons are `hwmon0`, `hwmon1`, ... up to the first index whose directory does not
//! exist. For each hwmon the machine reads its `name` file, lists its directory, and inspects
//! the primary subfunction file of every sensor that the listing admits (see
//! [`crate::hwmon::discovery`]): a sensor whose file exists is added, one whose file is missing
//! is skipped, and any other failure ends parsing with an error.

use crate::hwmon::discovery::{
    entry_names, lemma_entry_index_of, lemma_plan_bounded, lemma_plan_contents, lemma_stop_at_least_entry,
    no_digits, lemma_plan_from_first_index, lemma_plan_not_empty, probe_plan,
    spec_probe_plan,
};
use crate::hwmon::hwmons::{spec_hwmon_dir, Hwmons};
use crate::sensors::naming::lemma_kind_names;
use crate::hwmon::{spec_kind_first_index, spec_kind_prefix, spec_kind_primary, Hwmon, SensorKind};
use crate::parsing::Error as ParsingError;
use crate::sensors::base::{spec_subfunction_file, spec_subfunction_path};
use crate::sensors::subfunction_type::spec_suffix;
use crate::sysfs::{IoErrorKind, IoFailure};
use crate::text::{decimal, format_unsigned, join_path, spec_join, spec_trim, trim};
use vstd::prelude::*;

verus! {

/// The kinds of file system access that parsing asks for.
#[derive(Debug, Clone, Copy, PartialEq, Eq, Structural)]
pub enum AccessKind {
    /// Inspect the file or directory (as `metadata` does); only whether it succeeds matters.
    Inspect,
    /// Read the whole file as text.
    Read,
    /// List the names of the entries of the directory.
    List,
}

/// A file system access that the parser asks for.
#[derive(Debug, Clone)]
pub struct ParseRequest {
    /// What to do.
    pub access: AccessKind,
    /// Where to do it.
    pub path: String,
}

/// The stages of parsing.
#[derive(Debug, Clone, Copy, PartialEq, Eq, Structural)]
pub enum ParseStage {
    /// The directory to parse is inspected.
    Root,
    /// The directory of the next hwmon is inspected.
    HwmonDir,
    /// The name file of the current hwmon is read.
    HwmonName,
    /// The directory of the current hwmon is listed.
    HwmonEntries,
    /// The sensors of the current hwmon are inspected.
    Sensors,
    /// Parsing is over.
    Done,
}

enum Stage {
    Root,
    Dir { index: u16 },
    Name { index: u16 },
    List { index: u16, name: String },
    Probe { index: u16, hwmon: Hwmon, plan: Vec<(SensorKind, u16)>, next: usize, found: Ghost<Seq<bool>> },
    Done { error: Option<ParsingError> },
}

/// The path of the primary subfunction file of the sensor of kind `kind` and index `index`
/// of the hwmon in `dir`.
pub open spec fn spec_sensor_probe_path(dir: Seq<char>, kind: SensorKind, index: u16) -> Seq<char> {
    spec_subfunction_path(dir, spec_kind_prefix(kind), index, spec_kind_primary(kind))
}

/// The name file of the hwmon in `dir`.
pub open spec fn spec_name_path(dir: Seq<char>) -> Seq<char> {
    spec_join(dir, "name"@)
}

/// The indices of the sensors of kind `kind` among the first `found.len()` sensors of
/// `plan` whose file was found.
pub open spec fn found_indices(plan: Seq<(SensorKind, u16)>, found: Seq<bool>, kind: SensorKind) -> Set<u16> {
    Set::new(|i: u16| exists|j: int| 0 <= j < found.len() && j < plan.len() && #[trigger] plan[j] == (kind, i) && found[j])
}

/// Whether `h` has the given name and path, and holds the sensors of the given indices.
pub open spec fn hwmon_is(
    h: Hwmon,
    name: Seq<char>,
    path: Seq<char>,
    indices: spec_fn(SensorKind) -> Set<u16>,
) -> bool {
    &&& h.spec_name() == name
    &&& h.spec_path() == path
    &&& forall|k: SensorKind| #[trigger] h.spec_indices(k) == indices(k)
}

/// `after` ended parsing with `before`'s hwmons and an error.
pub open spec fn stopped_with_error(before: HwmonsParser, after: HwmonsParser) -> bool {
    &&& after.spec_root() == before.spec_root()
    &&& after.spec_parsed() == before.spec_parsed()
    &&& after.spec_stage() == ParseStage::Done
    &&& after.spec_error() is Some
}

/// The error that ended parsing in `after` has the given source and path.
pub open spec fn error_at(after: HwmonsParser, source: IoFailure, path: Seq<char>) -> bool {
    &&& after.spec_error().unwrap().spec_source() == source
    &&& after.spec_error().unwrap().spec_path() == path
}

/// `after` has added a finished hwmon with the given name and sensors to those of `before`,
/// and moved on to the next index (or ended parsing after the last possible index).
pub open spec fn moved_past_hwmon(
    before: HwmonsParser,
    after: HwmonsParser,
    name: Seq<char>,
    indices: spec_fn(SensorKind) -> Set<u16>,
) -> bool {
    &&& after.spec_root() == before.spec_root()
    &&& after.spec_parsed().len() == before.spec_parsed().len() + 1
    &&& after.spec_parsed().drop_last() == before.spec_parsed()
    &&& hwmon_is(after.spec_parsed().last(), name, before.spec_dir(), indices)
    &&& after.spec_parsed().last().spec_index() == before.spec_index()
    &&& if before.spec_index() == u16::MAX {
        after.spec_stage() == ParseStage::Done && after.spec_error() is None
    } else {
        after.spec_stage() == ParseStage::HwmonDir && after.spec_index() == before.spec_index() + 1
    }
}

/// The step from inspecting the root directory.
pub open spec fn root_step(before: HwmonsParser, after: HwmonsParser, outcome: Result<(), IoFailure>) -> bool {
    match outcome {
        Ok(_) => {
            &&& after.spec_root() == before.spec_root()
            &&& after.spec_parsed() == before.spec_parsed()
            &&& after.spec_stage() == ParseStage::HwmonDir
            &&& after.spec_index() == 0
        },
        Err(f) => {
            &&& stopped_with_error(before, after)
            &&& after.spec_error().unwrap() is Hwmons
            &&& error_at(after, f, before.spec_root())
        },
    }
}

/// The step from inspecting the directory of the next hwmon: a missing directory ends
/// parsing successfully.
pub open spec fn dir_step(before: HwmonsParser, after: HwmonsParser, outcome: Result<(), IoFailure>) -> bool {
    match outcome {
        Ok(_) => {
            &&& after.spec_root() == before.spec_root()
            &&& after.spec_parsed() == before.spec_parsed()
            &&& after.spec_stage() == ParseStage::HwmonName
            &&& after.spec_index() == before.spec_index()
        },
        Err(f) => if f.kind == IoErrorKind::NotFound {
            &&& after.spec_root() == before.spec_root()
            &&& after.spec_parsed() == before.spec_parsed()
            &&& after.spec_stage() == ParseStage::Done
            &&& after.spec_error() is None
        } else {
            &&& stopped_with_error(before, after)
            &&& after.spec_error().unwrap() is HwmonDir
            &&& error_at(after, f, before.spec_dir())
        },
    }
}

/// The step from inspecting a sensor's primary subfunction file: an existing file adds the
/// sensor, a missing file skips it, and any other failure ends parsing.
pub open spec fn sensor_step(before: HwmonsParser, after: HwmonsParser, outcome: Result<(), IoFailure>) -> bool {
    let (plan, next) = before.spec_plan();
    let (kind, sensor) = plan[next as int];
    let current = before.spec_current().unwrap();
    let path = spec_sensor_probe_path(before.spec_dir(), kind, sensor);
    let indices = |k: SensorKind|
        if k == kind && outcome is Ok {
            current.spec_indices(k).insert(sensor)
        } else {
            current.spec_indices(k)
        };
    if outcome matches Err(f) && f.kind != IoErrorKind::NotFound {
        &&& stopped_with_error(before, after)
        &&& after.spec_error().unwrap() is Sensor
        &&& error_at(after, outcome->Err_0, path)
    } else if next + 1 < plan.len() {
        &&& after.spec_root() == before.spec_root()
        &&& after.spec_parsed() == before.spec_parsed()
        &&& after.spec_stage() == ParseStage::Sensors
        &&& after.spec_index() == before.spec_index()
        &&& after.spec_plan() == (plan, next + 1)
        &&& after.spec_found() == before.spec_found().push(outcome is Ok)
        &&& after.spec_current() matches Some(h) && hwmon_is(h, current.spec_name(), current.spec_path(), indices)
    } else {
        &&& moved_past_hwmon(before, after, current.spec_name(), indices)
        &&& forall|k: SensorKind| #[trigger] after.spec_parsed().last().spec_indices(k) == found_indices(
            plan,
            before.spec_found().push(outcome is Ok),
            k,
        )
    }
}

/// The step from reading the current hwmon's name file.
pub open spec fn name_step(before: HwmonsParser, after: HwmonsParser, outcome: Result<String, IoFailure>) -> bool {
    match outcome {
        Ok(contents) => {
            &&& after.spec_root() == before.spec_root()
            &&& after.spec_parsed() == before.spec_parsed()
            &&& after.spec_stage() == ParseStage::HwmonEntries
            &&& after.spec_index() == before.spec_index()
            &&& after.spec_name() == spec_trim(contents@)
        },
        Err(f) => {
            &&& stopped_with_error(before, after)
            &&& after.spec_error().unwrap() is HwmonName
            &&& error_at(after, f, spec_name_path(before.spec_dir()))
        },
    }
}

/// The step from listing the current hwmon's directory: the listing decides which sensors
/// are inspected.
pub open spec fn list_step(before: HwmonsParser, after: HwmonsParser, outcome: Result<Vec<String>, IoFailure>) -> bool {
    match outcome {
        Ok(entries) => {
            &&& after.spec_root() == before.spec_root()
            &&& after.spec_parsed() == before.spec_parsed()
            &&& after.spec_stage() == ParseStage::Sensors
            &&& after.spec_index() == before.spec_index()
            &&& after.spec_plan() == (spec_probe_plan(entry_names(entries@)), 0nat)
            &&& after.spec_found() == Seq::<bool>::empty()
            &&& after.spec_current() matches Some(h) && hwmon_is(
                h,
                before.spec_name(),
                before.spec_dir(),
                |k: SensorKind| Set::<u16>::empty(),
            )
        },
        Err(f) => {
            &&& stopped_with_error(before, after)
            &&& after.spec_error().unwrap() is HwmonDir
            &&& error_at(after, f, before.spec_dir())
        },
    }
}

/// The machine that parses the hwmon tree below a directory.
pub struct HwmonsParser {
    root: String,
    hwmons: Vec<Hwmon>,
    stage: Stage,
}

impl HwmonsParser {
    /// The directory that is parsed.
    pub closed spec fn spec_root(&self) -> Seq<char> {
        self.root@
    }

    /// The hwmons parsed so far, by index.
    pub closed spec fn spec_parsed(&self) -> Seq<Hwmon> {
        self.hwmons@
    }

    /// The current stage.
    pub closed spec fn spec_stage(&self) -> ParseStage {
        match self.stage {
            Stage::Root => ParseStage::Root,
            Stage::Dir { .. } => ParseStage::HwmonDir,
            Stage::Name { .. } => ParseStage::HwmonName,
            Stage::List { .. } => ParseStage::HwmonEntries,
            Stage::Probe { .. } => ParseStage::Sensors,
            Stage::Done { .. } => ParseStage::Done,
        }
    }

    /// The index of the hwmon that is being parsed.
    pub closed spec fn spec_index(&self) -> u16 {
        match self.stage {
            Stage::Dir { index } => index,
            Stage::Name { index } => index,
            Stage::List { index, .. } => index,
            Stage::Probe { index, .. } => index,
            _ => 0,
        }
    }

    /// The name of the hwmon whose directory is being listed.
    pub closed spec fn spec_name(&self) -> Seq<char> {
        match self.stage {
            Stage::List { name, .. } => name@,
            _ => Seq::empty(),
        }
    }

    /// The hwmon whose sensors are being inspected.
    pub closed spec fn spec_current(&self) -> Option<Hwmon> {
        match self.stage {
            Stage::Probe { hwmon, .. } => Some(hwmon),
            _ => None,
        }
    }

    /// The sensors to inspect in the current hwmon, and how many have been inspected.
    pub closed spec fn spec_plan(&self) -> (Seq<(SensorKind, u16)>, nat) {
        match self.stage {
            Stage::Probe { plan, next, .. } => (plan@, next as nat),
            _ => (Seq::empty(), 0),
        }
    }

    /// For each sensor of the plan inspected so far, in order, whether its file was found.
    pub closed spec fn spec_found(&self) -> Seq<bool> {
        match self.stage {
            Stage::Probe { found, .. } => found@,
            _ => Seq::empty(),
        }
    }

    /// The error that ended parsing, if any.
    pub closed spec fn spec_error(&self) -> Option<ParsingError> {
        match self.stage {
            Stage::Done { error } => error,
            _ => None,
        }
    }

    /// A bound on the number of accesses that parsing still asks for: each answer lowers it,
    /// and it is zero once parsing is over. Every hwmon index takes at most three accesses
    /// and one per sensor to inspect, of which a hwmon has at most `8 * 65536`.
    pub closed spec fn spec_steps_left(&self) -> nat {
        (match self.stage {
            Stage::Root => 1 + 65536 * 524291int,
            Stage::Dir { index } => (65536 - index) * 524291,
            Stage::Name { index } => (65536 - index) * 524291 - 1,
            Stage::List { index, .. } => (65536 - index) * 524291 - 2,
            Stage::Probe { index, plan, next, .. } => (65535 - index) * 524291 + (plan@.len() - next),
            Stage::Done { .. } => 0int,
        }) as nat
    }

    /// The directory of the hwmon that is being parsed.
    pub open spec fn spec_dir(&self) -> Seq<char> {
        spec_hwmon_dir(self.spec_root(), self.spec_index())
    }

    /// The access that the parser asks for next, if any.
    pub open spec fn spec_request(&self) -> Option<(AccessKind, Seq<char>)> {
        match self.spec_stage() {
            ParseStage::Root => Some((AccessKind::Inspect, self.spec_root())),
            ParseStage::HwmonDir => Some((AccessKind::Inspect, self.spec_dir())),
            ParseStage::HwmonName => Some((AccessKind::Read, spec_name_path(self.spec_dir()))),
            ParseStage::HwmonEntries => Some((AccessKind::List, self.spec_dir())),
            ParseStage::Sensors => {
                let (plan, next) = self.spec_plan();
                Some(
                    (
                        AccessKind::Inspect,
                        spec_sensor_probe_path(self.spec_dir(), plan[next as int].0, plan[next as int].1),
                    ),
                )
            },
            ParseStage::Done => None,
        }
    }

    #[verifier::type_invariant]
    spec fn well_formed(&self) -> bool {
        &&& self.hwmons@.len() <= u16::MAX + 1
        &&& forall|k: int|
            0 <= k < self.hwmons@.len() ==> #[trigger] self.hwmons@[k].spec_path()
                == spec_hwmon_dir(self.root@, k as u16) && self.hwmons@[k].spec_index() == k
        &&& match self.stage {
            Stage::Root => self.hwmons@.len() == 0,
            Stage::Dir { index } => index == self.hwmons@.len(),
            Stage::Name { index } => index == self.hwmons@.len(),
            Stage::List { index, .. } => index == self.hwmons@.len(),
            Stage::Probe { index, hwmon, plan, next, found } => {
                &&& index == self.hwmons@.len()
                &&& hwmon.spec_path() == spec_hwmon_dir(self.root@, index)
                &&& hwmon.spec_index() == index
                &&& next < plan@.len()
                &&& plan@.len() <= 8 * 65536
                &&& found@.len() == next
                &&& forall|k: SensorKind| #[trigger] hwmon.spec_indices(k) == found_indices(plan@, found@, k)
                &&& forall|j: int| 0 <= j < plan@.len() ==> (#[trigger] plan@[j]).1 >= spec_kind_first_index(plan@[j].0)
            },
            Stage::Done { .. } => true,
        }
    }

    /// Starts parsing the directory `root`.
    pub fn new(root: &str) -> (parser: HwmonsParser)
        ensures
            parser.spec_root() == root@,
            parser.spec_parsed().len() == 0,
            parser.spec_stage() == ParseStage::Root,
    {
        HwmonsParser { root: String::from_str(root), hwmons: Vec::new(), stage: Stage::Root }
    }

    /// Returns the access to perform next, or `None` once parsing is over.
    pub fn request(&self) -> (request: Option<ParseRequest>)
        ensures
            match request {
                Some(r) => self.spec_request() == Some((r.access, r.path@)),
                None => self.spec_request() is None,
            },
            request is None <==> self.spec_steps_left() == 0,
            self.spec_stage() == ParseStage::Sensors ==> {
                &&& self.spec_found().len() == self.spec_plan().1
                &&& self.spec_plan().1 < self.spec_plan().0.len()
                &&& forall|k: SensorKind| #[trigger] self.spec_current().unwrap().spec_indices(k)
                    == found_indices(self.spec_plan().0, self.spec_found(), k)
            },
    {
        proof {
            use_type_invariant(self);
        }
        match &self.stage {
            Stage::Root => Some(
                ParseRequest { access: AccessKind::Inspect, path: String::from_str(self.root.as_str()) },
            ),
            Stage::Dir { index } => Some(
                ParseRequest { access: AccessKind::Inspect, path: hwmon_dir(self.root.as_str(), *index) },
            ),
            Stage::Name { index } => {
                let dir = hwmon_dir(self.root.as_str(), *index);
                Some(ParseRequest { access: AccessKind::Read, path: join_path(dir.as_str(), "name") })
            },
            Stage::List { index, .. } => Some(
                ParseRequest { access: AccessKind::List, path: hwmon_dir(self.root.as_str(), *index) },
            ),
            Stage::Probe { hwmon, plan, next, .. } => {
                let (kind, sensor) = plan[*next];
                Some(
                    ParseRequest {
                        access: AccessKind::Inspect,
                        path: sensor_probe_path(hwmon.path(), kind, sensor),
                    },
                )
            },
            Stage::Done { .. } => None,
        }
    }

    /// The current stage, as a value.
    fn stage(&self) -> (stage: ParseStage)
        ensures
            stage == self.spec_stage(),
    {
        match &self.stage {
            Stage::Root => ParseStage::Root,
            Stage::Dir { .. } => ParseStage::HwmonDir,
            Stage::Name { .. } => ParseStage::HwmonName,
            Stage::List { .. } => ParseStage::HwmonEntries,
            Stage::Probe { .. } => ParseStage::Sensors,
            Stage::Done { .. } => ParseStage::Done,
        }
    }

    /// Hands over the outcome of the inspection that `request` asked for.
    pub fn answer_inspect(self, outcome: Result<(), IoFailure>) -> (after: HwmonsParser)
        requires
            self.spec_stage() == ParseStage::Root || self.spec_stage() == ParseStage::HwmonDir
                || self.spec_stage() == ParseStage::Sensors,
        ensures
            match self.spec_stage() {
                ParseStage::Root => root_step(self, after, outcome),
                ParseStage::HwmonDir => dir_step(self, after, outcome),
                _ => sensor_step(self, after, outcome),
            },
            after.spec_steps_left() < self.spec_steps_left(),
            after.spec_root() == self.spec_root(),
    {
        match self.stage() {
            ParseStage::Root => self.inspect_root(outcome),
            ParseStage::HwmonDir => self.inspect_dir(outcome),
            _ => self.inspect_sensor(outcome),
        }
    }

    /// The step from inspecting the root directory.
    fn inspect_root(self, outcome: Result<(), IoFailure>) -> (after: HwmonsParser)
        requires
            self.spec_stage() == ParseStage::Root,
        ensures
            root_step(self, after, outcome),
            after.spec_steps_left() < self.spec_steps_left(),
            after.spec_root() == self.spec_root(),
    {
        proof {
            use_type_invariant(&self);
        }
        let HwmonsParser { root, hwmons, stage } = self;
        match outcome {
            Ok(()) => HwmonsParser { root, hwmons, stage: Stage::Dir { index: 0 } },
            Err(f) => {
                let e = ParsingError::hwmons(f, root.as_str());
                HwmonsParser { root, hwmons, stage: Stage::Done { error: Some(e) } }
            },
        }
    }

    /// The step from inspecting the directory of the next hwmon.
    fn inspect_dir(self, outcome: Result<(), IoFailure>) -> (after: HwmonsParser)
        requires
            self.spec_stage() == ParseStage::HwmonDir,
        ensures
            dir_step(self, after, outcome),
            after.spec_steps_left() < self.spec_steps_left(),
            after.spec_root() == self.spec_root(),
    {
        proof {
            use_type_invariant(&self);
        }
        let HwmonsParser { root, hwmons, stage } = self;
        let index: u16 = match stage {
            Stage::Dir { index } => index,
            _ => 0,
        };
        match outcome {
            Ok(()) => HwmonsParser { root, hwmons, stage: Stage::Name { index } },
            Err(f) => {
                if f.kind == IoErrorKind::NotFound {
                    HwmonsParser { root, hwmons, stage: Stage::Done { error: None } }
                } else {
                    let dir = hwmon_dir(root.as_str(), index);
                    let e = ParsingError::hwmon_dir(f, dir.as_str());
                    HwmonsParser { root, hwmons, stage: Stage::Done { error: Some(e) } }
                }
            },
        }
    }

    /// The step from inspecting a sensor's primary subfunction file. The kind of sensor is a
    /// value here (the plan mixes kinds), so the step decides as `Parseable::parse` does for
    /// each kind, over [`SensorKind`].
    #[verifier::spinoff_prover]
    fn inspect_sensor(self, outcome: Result<(), IoFailure>) -> (after: HwmonsParser)
        requires
            self.spec_stage() == ParseStage::Sensors,
        ensures
            sensor_step(self, after, outcome),
            after.spec_steps_left() < self.spec_steps_left(),
            after.spec_root() == self.spec_root(),
    {
        proof {
            use_type_invariant(&self);
        }
        let ghost before = self;
        let HwmonsParser { root, hwmons, stage } = self;
        match stage {
            Stage::Probe { index, hwmon, plan, next, found } => {
                assert(next < plan@.len());
                let mut hwmon = hwmon;
                let count = plan.len();
                let (kind, sensor) = plan[next];
                let ghost now_found = found@.push(outcome is Ok);
                proof {
                    assert(plan@[next as int] == (kind, sensor));
                    assert forall|k: SensorKind| #[trigger] found_indices(plan@, now_found, k) == if k
                        == kind && outcome is Ok {
                        found_indices(plan@, found@, k).insert(sensor)
                    } else {
                        found_indices(plan@, found@, k)
                    } by {
                        let a = found_indices(plan@, now_found, k);
                        let b = if k == kind && outcome is Ok {
                            found_indices(plan@, found@, k).insert(sensor)
                        } else {
                            found_indices(plan@, found@, k)
                        };
                        assert forall|i: u16| a.contains(i) implies b.contains(i) by {
                            let j = choose|j: int| 0 <= j < now_found.len() && j < plan@.len()
                                && #[trigger] plan@[j] == (k, i) && now_found[j];
                            if j < found@.len() {
                                assert(found@[j]);
                            }
                        }
                        assert forall|i: u16| b.contains(i) implies a.contains(i) by {
                            if k == kind && outcome is Ok && i == sensor {
                                assert(plan@[next as int] == (k, i) && now_found[next as int]);
                            } else {
                                let j = choose|j: int| 0 <= j < found@.len() && j < plan@.len()
                                    && #[trigger] plan@[j] == (k, i) && found@[j];
                                assert(now_found[j]);
                            }
                        }
                        assert(a =~= b);
                    }
                }
                match outcome {
                    Ok(()) => {
                        hwmon.add_sensor(kind, sensor);
                    },
                    Err(f) => {
                        if f.kind != IoErrorKind::NotFound {
                            let path = sensor_probe_path(hwmon.path(), kind, sensor);
                            let e = ParsingError::sensor(f, path.as_str());
                            return HwmonsParser { root, hwmons, stage: Stage::Done { error: Some(e) } };
                        }
                    },
                }
                if next + 1 < count {
                    HwmonsParser {
                        root,
                        hwmons,
                        stage: Stage::Probe { index, hwmon, plan, next: next + 1, found: Ghost(now_found) },
                    }
                } else {
                    assert(numbered(root@, hwmons@)) by {
                        reveal(numbered);
                        assert forall|k: int| 0 <= k < hwmons@.len() implies #[trigger] hwmons@[k].spec_path()
                            == spec_hwmon_dir(root@, k as u16) && hwmons@[k].spec_index() == k by {
                            assert(before.hwmons@[k] == hwmons@[k]);
                        }
                    }
                    assert(hwmons@.len() == index);
                    assert(hwmon.spec_path() == spec_hwmon_dir(root@, index));
                    assert(hwmon.spec_index() == index);
                    finish_hwmon(root, hwmons, index, hwmon)
                }
            },
            _ => HwmonsParser { root, hwmons, stage: Stage::Done { error: None } },
        }
    }

    /// Hands over the outcome of the read that `request` asked for.
    pub fn answer_read(self, outcome: Result<String, IoFailure>) -> (after: HwmonsParser)
        requires
            self.spec_stage() == ParseStage::HwmonName,
        ensures
            name_step(self, after, outcome),
            after.spec_steps_left() < self.spec_steps_left(),
            after.spec_root() == self.spec_root(),
    {
        proof {
            use_type_invariant(&self);
        }
        let HwmonsParser { root, hwmons, stage } = self;
        match stage {
            Stage::Name { index } => match outcome {
                Ok(contents) => {
                    let name = trim(contents.as_str());
                    HwmonsParser { root, hwmons, stage: Stage::List { index, name } }
                },
                Err(f) => {
                    let dir = hwmon_dir(root.as_str(), index);
                    let path = join_path(dir.as_str(), "name");
                    let e = ParsingError::hwmon_name(f, path.as_str());
                    HwmonsParser { root, hwmons, stage: Stage::Done { error: Some(e) } }
                },
            },
            _ => HwmonsParser { root, hwmons, stage: Stage::Done { error: None } },
        }
    }

    /// Hands over the outcome of the listing that `request` asked for: the names of the
    /// directory's entries.
    pub fn answer_list(self, outcome: Result<Vec<String>, IoFailure>) -> (after: HwmonsParser)
        requires
            self.spec_stage() == ParseStage::HwmonEntries,
        ensures
            list_step(self, after, outcome),
            after.spec_steps_left() < self.spec_steps_left(),
            after.spec_root() == self.spec_root(),
    {
        proof {
            use_type_invariant(&self);
        }
        let HwmonsParser { root, hwmons, stage } = self;
        match stage {
            Stage::List { index, name } => match outcome {
                Ok(entries) => {
                    let dir = hwmon_dir(root.as_str(), index);
                    let hwmon = Hwmon::new(name, dir.as_str(), index);
                    let plan = probe_plan(&entries);
                    proof {
                        lemma_plan_not_empty(entry_names(entries@));
                        lemma_plan_bounded(entry_names(entries@));
                        lemma_plan_from_first_index(entry_names(entries@));
                        assert forall|k: SensorKind| #[trigger] hwmon.spec_indices(k) == found_indices(
                            plan@,
                            Seq::<bool>::empty(),
                            k,
                        ) by {
                            assert(found_indices(plan@, Seq::<bool>::empty(), k) =~= Set::<u16>::empty());
                        }
                    }
                    HwmonsParser {
                        root,
                        hwmons,
                        stage: Stage::Probe { index, hwmon, plan, next: 0, found: Ghost(Seq::empty()) },
                    }
                },
                Err(f) => {
                    let dir = hwmon_dir(root.as_str(), index);
                    let e = ParsingError::hwmon_dir(f, dir.as_str());
                    HwmonsParser { root, hwmons, stage: Stage::Done { error: Some(e) } }
                },
            },
            _ => HwmonsParser { root, hwmons, stage: Stage::Done { error: None } },
        }
    }

    /// Returns the parsed hwmons, or the error that ended parsing.
    pub fn finish(self) -> (r: Result<Hwmons, ParsingError>)
        requires
            self.spec_stage() == ParseStage::Done,
        ensures
            match self.spec_error() {
                Some(e) => r == Err::<Hwmons, ParsingError>(e),
                None => r matches Ok(h) && h.spec_path() == self.spec_root() && h.spec_hwmons()
                    == self.spec_parsed(),
            },
    {
        proof {
            use_type_invariant(&self);
        }
        let HwmonsParser { root, hwmons, stage } = self;
        match stage {
            Stage::Done { error: Some(e) } => Err(e),
            _ => Ok(Hwmons::from_parts(root, hwmons)),
        }
    }
}

/// The directory that [`Hwmons::parse`] parses.
pub open spec fn spec_hwmon_root() -> Seq<char> {
    "/sys/class/hwmon/"@
}

impl Hwmons {
    /// Starts parsing /sys/class/hwmon; the parser gives the found hwmons as a `Hwmons`
    /// object.
    pub fn parse() -> (parser: HwmonsParser)
        ensures
            parser.spec_root() == spec_hwmon_root(),
            parser.spec_parsed().len() == 0,
            parser.spec_stage() == ParseStage::Root,
    {
        HwmonsParser::new("/sys/class/hwmon/")
    }

    /// Starts parsing the provided path; the parser gives the found hwmons as a `Hwmons`
    /// object.
    pub fn parse_unrestricted(path: &str) -> (parser: HwmonsParser)
        ensures
            parser.spec_root() == path@,
            parser.spec_parsed().len() == 0,
            parser.spec_stage() == ParseStage::Root,
    {
        HwmonsParser::new(path)
    }
}

/// The name of the primary subfunction file of the sensor of kind `kind` and index `index`,
/// such as `temp1_input` or `pwm2`.
pub open spec fn spec_probe_file(kind: SensorKind, index: u16) -> Seq<char> {
    spec_subfunction_file(spec_kind_prefix(kind), index, spec_kind_primary(kind))
}

/// The prefixes of the kinds and the suffixes of their primary subfunctions hold no digit.
proof fn lemma_kind_names_no_digits(kind: SensorKind)
    ensures
        no_digits(spec_kind_prefix(kind)),
        no_digits(spec_suffix(spec_kind_primary(kind))),
{
    reveal_strlit("curr");
    reveal_strlit("energy");
    reveal_strlit("fan");
    reveal_strlit("humidity");
    reveal_strlit("power");
    reveal_strlit("pwm");
    reveal_strlit("temp");
    reveal_strlit("in");
    reveal_strlit("_input");
    reveal_strlit("");
}

/// Sensor discovery over a whole hwmon directory. Let `entries` be the listing of the
/// directory, holding every file in it, and let `found[j]` tell whether the primary file of
/// the `j`-th sensor of the plan exists. Then the sensors of each kind that parsing adds
/// are exactly those from the kind's first index on whose primary file is in the
/// directory: a missing index does not end the scan.
pub proof fn lemma_discovered_sensors(entries: Seq<Seq<char>>, found: Seq<bool>, kind: SensorKind)
    requires
        found.len() == spec_probe_plan(entries).len(),
        forall|j: int|
            0 <= j < found.len() ==> #[trigger] found[j] == entries.contains(
                spec_probe_file(spec_probe_plan(entries)[j].0, spec_probe_plan(entries)[j].1),
            ),
    ensures
        found_indices(spec_probe_plan(entries), found, kind) == Set::new(
            |i: u16| i >= spec_kind_first_index(kind) && entries.contains(spec_probe_file(kind, i)),
        ),
{
    let plan = spec_probe_plan(entries);
    let a = found_indices(plan, found, kind);
    let b = Set::new(
        |i: u16| i >= spec_kind_first_index(kind) && entries.contains(spec_probe_file(kind, i)),
    );
    assert forall|i: u16| a.contains(i) implies b.contains(i) by {
        let j = choose|j: int| 0 <= j < found.len() && j < plan.len() && #[trigger] plan[j] == (kind, i) && found[j];
        assert(plan.contains((kind, i)));
        lemma_plan_contents(entries, kind, i);
        assert(found[j] == entries.contains(spec_probe_file(plan[j].0, plan[j].1)));
    }
    assert forall|i: u16| b.contains(i) implies a.contains(i) by {
        let prefix = spec_kind_prefix(kind);
        let ending = spec_suffix(spec_kind_primary(kind));
        let f = spec_probe_file(kind, i);
        lemma_kind_names_no_digits(kind);
        assert(f == prefix + decimal(i as nat) + ending);
        lemma_entry_index_of(prefix, i, ending);
        assert(f.subrange(0, prefix.len() as int) =~= prefix);
        lemma_stop_at_least_entry(entries, prefix, spec_kind_first_index(kind), f);
        lemma_plan_contents(entries, kind, i);
        let j = choose|j: int| 0 <= j < plan.len() && plan[j] == (kind, i);
        assert(found[j]);
    }
    assert(a =~= b);
}

/// The kernel's name of the primary file of sensor `index` of kind `kind`: `curr1_input`,
/// `energy1_input`, `fan1_input`, `humidity1_input`, `power1_input`, `pwm1`, `temp1_input`,
/// `in0_input` and so on.
pub open spec fn kernel_primary_file(kind: SensorKind, index: u16) -> Seq<char> {
    let n = decimal(index as nat);
    match kind {
        SensorKind::Current => "curr"@ + n + "_input"@,
        SensorKind::Energy => "energy"@ + n + "_input"@,
        SensorKind::Fan => "fan"@ + n + "_input"@,
        SensorKind::Humidity => "humidity"@ + n + "_input"@,
        SensorKind::Power => "power"@ + n + "_input"@,
        SensorKind::Pwm => "pwm"@ + n,
        SensorKind::Temp => "temp"@ + n + "_input"@,
        SensorKind::Voltage => "in"@ + n + "_input"@,
    }
}

/// Sensor discovery in the kernel's names: with a directory listing that holds every file of
/// the directory, and probe outcomes that tell whether each planned sensor's primary file
/// exists, parsing adds sensor `index` of kind `kind` exactly when the kernel's primary file
/// of that sensor is in the directory and the index is at least 1 (at least 0 for
/// voltages). So a present `fan1_input` always yields fan 1, a present `energy1_input`
/// energy 1, and `power1_input` power 1.
pub proof fn lemma_discovered_by_kernel_names(
    entries: Seq<Seq<char>>,
    found: Seq<bool>,
    kind: SensorKind,
    index: u16,
)
    requires
        found.len() == spec_probe_plan(entries).len(),
        forall|j: int|
            0 <= j < found.len() ==> #[trigger] found[j] == entries.contains(
                spec_probe_file(spec_probe_plan(entries)[j].0, spec_probe_plan(entries)[j].1),
            ),
    ensures
        found_indices(spec_probe_plan(entries), found, kind).contains(index) <==> (index >= (if kind
            == SensorKind::Voltage {
            0u16
        } else {
            1u16
        }) && entries.contains(kernel_primary_file(kind, index))),
{
    lemma_discovered_sensors(entries, found, kind);
    lemma_kind_names(kind);
    reveal_strlit("_input");
    reveal_strlit("");
    assert(spec_probe_file(kind, index) =~= kernel_primary_file(kind, index));
}

/// Voltage channels are counted from 0: after discovery, voltage 0 is present exactly when
/// the directory holds `in0_input`.
pub proof fn lemma_voltage_zero_discovered(entries: Seq<Seq<char>>, found: Seq<bool>)
    requires
        found.len() == spec_probe_plan(entries).len(),
        forall|j: int|
            0 <= j < found.len() ==> #[trigger] found[j] == entries.contains(
                spec_probe_file(spec_probe_plan(entries)[j].0, spec_probe_plan(entries)[j].1),
            ),
    ensures
        found_indices(spec_probe_plan(entries), found, SensorKind::Voltage).contains(0)
            <==> entries.contains("in0_input"@),
{
    lemma_discovered_sensors(entries, found, SensorKind::Voltage);
    reveal_strlit("in");
    reveal_strlit("_input");
    reveal_strlit("in0_input");
    assert(decimal(0) == seq!['0']);
    assert(spec_probe_file(SensorKind::Voltage, 0) =~= "in0_input"@);
}

/// The hwmon at position `k` of `hwmons` has index `k` and lies in `root/hwmon<k>`.
#[verifier::opaque]
spec fn numbered(root: Seq<char>, hwmons: Seq<Hwmon>) -> bool {
    forall|k: int|
        0 <= k < hwmons.len() ==> #[trigger] hwmons[k].spec_path() == spec_hwmon_dir(root, k as u16)
            && hwmons[k].spec_index() == k
}

/// Adds the finished hwmon with the given index and moves on to the next index, or ends
/// parsing after the last possible index.
fn finish_hwmon(root: String, hwmons: Vec<Hwmon>, index: u16, hwmon: Hwmon) -> (after: HwmonsParser)
    requires
        hwmons@.len() == index,
        numbered(root@, hwmons@),
        hwmon.spec_path() == spec_hwmon_dir(root@, index),
        hwmon.spec_index() == index,
    ensures
        after.spec_root() == root@,
        after.spec_parsed() == hwmons@.push(hwmon),
        after.spec_parsed().drop_last() == hwmons@,
        if index == u16::MAX {
            after.spec_stage() == ParseStage::Done && after.spec_error() is None
        } else {
            after.spec_stage() == ParseStage::HwmonDir && after.spec_index() == index + 1
        },
{
    proof {
        reveal(numbered);
    }
    let ghost old_hwmons = hwmons@;
    let mut hwmons = hwmons;
    hwmons.push(hwmon);
    assert(hwmons@.drop_last() =~= old_hwmons);
    if index == u16::MAX {
        HwmonsParser { root, hwmons, stage: Stage::Done { error: None } }
    } else {
        HwmonsParser { root, hwmons, stage: Stage::Dir { index: index + 1 } }
    }
}

/// Returns the directory of the hwmon with the given index below `root`.
pub fn hwmon_dir(root: &str, index: u16) -> (dir: String)
    ensures
        dir@ == spec_hwmon_dir(root@, index),
{
    let mut name = String::from_str("hwmon");
    let digits = format_unsigned(index as u64);
    name.append(digits.as_str());
    join_path(root, name.as_str())
}

/// Returns the path of the primary subfunction file of the sensor of kind `kind` and index
/// `index` of the hwmon in `dir`.
pub fn sensor_probe_path(dir: &str, kind: SensorKind, index: u16) -> (path: String)
    ensures
        path@ == spec_sensor_probe_path(dir@, kind, index),
{
    let mut file = String::from_str(kind.prefix());
    let digits = format_unsigned(index as u64);
    file.append(digits.as_str());
    file.append(kind.primary().to_suffix());
    join_path(dir, file.as_str())
}

} // verus!
