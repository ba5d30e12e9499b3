//! Parsing hwmon trees held in memory, as the file system would show them.

use libmedium::hwmon::attributes::HwmonAttribute;
use libmedium::hwmon::parser::{AccessKind, HwmonsParser};
use libmedium::hwmon::Hwmons;
use libmedium::parsing::Parseable;
use libmedium::sensors::fan::{FanSensor, FanSensorStruct};
use libmedium::sensors::temp::{TempSensor, TempSensorStruct};
use libmedium::sensors::{Sensor, SensorSubFunctionType};
use libmedium::sysfs::{IoErrorKind, IoFailure};
use libmedium::{parse_hwmons, ParsingError};
use std::collections::{BTreeMap, BTreeSet};

/// A file system held in memory: files with their contents, and directories.
struct MemoryFs {
    files: BTreeMap<String, String>,
    dirs: BTreeSet<String>,
    denied: BTreeSet<String>,
}

impl MemoryFs {
    fn new() -> MemoryFs {
        MemoryFs { files: BTreeMap::new(), dirs: BTreeSet::new(), denied: BTreeSet::new() }
    }

    fn mkdir_all(&mut self, path: &str) {
        let mut end = 0;
        while let Some(next) = path[end + 1..].find('/') {
            end = end + 1 + next;
            self.dirs.insert(path[..end].to_string());
        }
        self.dirs.insert(path.to_string());
    }

    fn write(&mut self, path: &str, contents: &str) {
        self.files.insert(path.to_string(), contents.to_string());
    }

    fn failure(&self, path: &str) -> IoFailure {
        if self.denied.contains(path) {
            IoFailure::new(IoErrorKind::PermissionDenied, "Permission denied (os error 13)")
        } else {
            IoFailure::new(IoErrorKind::NotFound, "No such file or directory (os error 2)")
        }
    }

    fn inspect(&self, path: &str) -> Result<(), IoFailure> {
        let path = path.trim_end_matches('/');
        if !self.denied.contains(path) && (self.files.contains_key(path) || self.dirs.contains(path)) {
            Ok(())
        } else {
            Err(self.failure(path))
        }
    }

    fn read(&self, path: &str) -> Result<String, IoFailure> {
        match self.files.get(path) {
            Some(contents) if !self.denied.contains(path) => Ok(contents.clone()),
            _ => Err(self.failure(path)),
        }
    }

    fn list(&self, path: &str) -> Result<Vec<String>, IoFailure> {
        let dir = path.trim_end_matches('/');
        if self.denied.contains(dir) || !self.dirs.contains(dir) {
            return Err(self.failure(dir));
        }
        let prefix = format!("{}/", dir);
        let mut names = Vec::new();
        for entry in self.files.keys().chain(self.dirs.iter()) {
            if let Some(rest) = entry.strip_prefix(&prefix) {
                if !rest.is_empty() && !rest.contains('/') {
                    names.push(rest.to_string());
                }
            }
        }
        Ok(names)
    }
}

/// Builds a hwmon directory, as sysfs would show it.
struct VirtualHwmonBuilder<'a> {
    fs: &'a mut MemoryFs,
    path: String,
}

impl<'a> VirtualHwmonBuilder<'a> {
    fn create(fs: &'a mut MemoryFs, root: &str, index: u16, name: &str) -> VirtualHwmonBuilder<'a> {
        let path = format!("{}/hwmon{}", root, index);
        fs.mkdir_all(&path);
        fs.write(&format!("{}/name", path), name);
        fs.write(&format!("{}/update_interval", path), "1000");
        VirtualHwmonBuilder { fs, path }
    }

    fn add_temp(self, index: u16, value: i32, label: &str) -> VirtualHwmonBuilder<'a> {
        self.fs.write(&format!("{}/temp{}_input", self.path, index), &value.to_string());
        self.fs.write(&format!("{}/temp{}_enable", self.path, index), "1\n");
        self.fs.write(&format!("{}/temp{}_label", self.path, index), label);
        self
    }

    fn add_fan(self, index: u16, value: u32) -> VirtualHwmonBuilder<'a> {
        self.fs.write(&format!("{}/fan{}_input", self.path, index), &value.to_string());
        self.fs.write(&format!("{}/fan{}_enable", self.path, index), "1\n");
        self
    }

    fn add_pwm(self, index: u16, create_enable_file: bool, create_mode_file: bool) -> VirtualHwmonBuilder<'a> {
        self.fs.write(&format!("{}/pwm{}", self.path, index), "0\n");
        if create_enable_file {
            self.fs.write(&format!("{}/pwm{}_enable", self.path, index), "2\n");
        }
        if create_mode_file {
            self.fs.write(&format!("{}/pwm{}_mode", self.path, index), "1\n");
        }
        self.add_fan(index, 1000)
    }
}

/// Answers the parser's requests from `fs` until parsing is over.
fn run(fs: &MemoryFs, mut parser: HwmonsParser) -> Result<Hwmons, ParsingError> {
    while let Some(request) = parser.request() {
        parser = match request.access {
            AccessKind::Inspect => parser.answer_inspect(fs.inspect(&request.path)),
            AccessKind::Read => parser.answer_read(fs.read(&request.path)),
            AccessKind::List => parser.answer_list(fs.list(&request.path)),
        };
    }
    parser.finish()
}

fn parse_path(fs: &MemoryFs, root: &str) -> Result<Hwmons, ParsingError> {
    run(fs, Hwmons::parse_unrestricted(root))
}

#[test]
fn hwmon_test_hwmon_parse() {
    let test_path = "test_hwmon_parse";
    let mut fs = MemoryFs::new();
    VirtualHwmonBuilder::create(&mut fs, test_path, 0, "system");

    let hwmons: Hwmons = parse_path(&fs, test_path).unwrap();
    let hwmon = hwmons.hwmon_by_index(0).unwrap();

    assert_eq!("system", hwmon.name());
    assert_eq!(format!("{}/{}", test_path, "hwmon0"), hwmon.path());
}

#[test]
fn hwmon_test_hwmon_temps() {
    let test_path = "test_hwmon_init";
    let mut fs = MemoryFs::new();
    VirtualHwmonBuilder::create(&mut fs, test_path, 0, "system")
        .add_temp(1, 40000, "temp1")
        .add_temp(2, 60000, "temp2");

    let hwmons: Hwmons = parse_path(&fs, test_path).unwrap();
    let hwmon = hwmons.hwmon_by_index(0).unwrap();
    let temps = hwmon.temps();

    temps.get(&1u16).unwrap();
    temps.get(&2u16).unwrap();

    assert_eq!(true, temps.get(&3u16).is_none());
}

#[test]
fn hwmon_test_hwmon_pwms() {
    let test_path = "test_hwmon_pwms";
    let mut fs = MemoryFs::new();
    VirtualHwmonBuilder::create(&mut fs, test_path, 0, "system")
        .add_pwm(1, true, true)
        .add_pwm(2, true, true);

    let hwmons: Hwmons = parse_path(&fs, test_path).unwrap();
    let hwmon = hwmons.hwmon_by_index(0).unwrap();
    let pwms = hwmon.pwms();

    pwms.get(&1u16).unwrap();
    pwms.get(&2u16).unwrap();

    assert_eq!(true, pwms.get(&3u16).is_none());
}

#[test]
fn tests_test_hwmon_parse() {
    let test_dir = "/tmp/test_dir";
    let mut fs = MemoryFs::new();
    VirtualHwmonBuilder::create(&mut fs, test_dir, 0, "foo");
    VirtualHwmonBuilder::create(&mut fs, test_dir, 1, "bar");

    let hwmons = parse_path(&fs, test_dir).unwrap();
    let foo = hwmons.hwmon_by_index(0).unwrap();
    let bar = hwmons.hwmon_by_index(1).unwrap();

    let interval_path = foo.attribute_path(HwmonAttribute::UpdateInterval);
    let interval = foo.update_interval(fs.read(&interval_path)).unwrap();

    assert_eq!("foo", foo.name());
    assert_eq!(
        std::time::Duration::from_secs(1),
        std::time::Duration::from_millis(interval.as_millis())
    );
    assert_eq!(format!("{}/hwmon0", test_dir), foo.path());
    assert_eq!("bar", bar.name());
    assert_eq!(format!("{}/hwmon1", test_dir), bar.path());
}

#[test]
fn tests_test_hwmon_temps() {
    let test_dir = "/tmp/test_dir";
    let mut fs = MemoryFs::new();
    VirtualHwmonBuilder::create(&mut fs, test_dir, 0, "system")
        .add_temp(1, 40000, "temp1")
        .add_temp(2, 60000, "temp2")
        .add_temp(4, 30000, "temp4");

    let hwmons: Hwmons = parse_path(&fs, test_dir).unwrap();
    let hwmon = hwmons.hwmon_by_index(0).unwrap();
    let temps = hwmon.temps();

    assert_eq!(true, temps.get(&1u16).is_some());
    assert_eq!(true, temps.get(&2u16).is_some());
    assert_eq!(true, temps.get(&4u16).is_some());

    assert_eq!(true, temps.get(&3u16).is_none());
}

#[test]
fn tests_test_hwmon_pwms() {
    let test_dir = "/tmp/test_dir";
    let mut fs = MemoryFs::new();
    VirtualHwmonBuilder::create(&mut fs, test_dir, 0, "system")
        .add_pwm(1, true, true)
        .add_pwm(2, true, true)
        .add_pwm(4, true, true);

    let hwmons: Hwmons = parse_path(&fs, test_dir).unwrap();
    let hwmon = hwmons.hwmon_by_index(0).unwrap();
    let pwms = hwmon.pwms();

    assert_eq!(true, pwms.get(&1u16).is_some());
    assert_eq!(true, pwms.get(&2u16).is_some());
    assert_eq!(true, pwms.get(&4u16).is_some());

    assert_eq!(true, pwms.get(&3u16).is_none());
}

#[test]
fn test_sensor_read_value() {
    let test_dir = "/tmp/test_dir";
    let mut fs = MemoryFs::new();
    VirtualHwmonBuilder::create(&mut fs, test_dir, 0, "system")
        .add_temp(1, 40000, "temp1")
        .add_fan(1, 60);

    let hwmons = parse_path(&fs, test_dir).unwrap();
    let hwmon = hwmons.hwmon_by_index(0).unwrap();

    let temp_probe = TempSensorStruct::at(hwmon.path(), 1).subfunction_path(TempSensorStruct::primary());
    let temp = TempSensorStruct::parse(hwmon.path(), 1, fs.inspect(&temp_probe)).unwrap();
    let fan_probe = FanSensorStruct::at(hwmon.path(), 1).subfunction_path(FanSensorStruct::primary());
    let fan = FanSensorStruct::parse(hwmon.path(), 1, fs.inspect(&fan_probe)).unwrap();

    let temp_input = temp.read_input(
        fs.read(&temp.subfunction_path(SensorSubFunctionType::Fault)),
        fs.read(&temp.subfunction_path(SensorSubFunctionType::Input)),
    );
    let degrees = temp_input.unwrap().as_millidegrees_celsius() as f64 / 1000.0;
    assert_eq!(40.0, degrees);

    let fan_input = fan.read_input(
        fs.read(&fan.subfunction_path(SensorSubFunctionType::Fault)),
        fs.read(&fan.subfunction_path(SensorSubFunctionType::Input)),
    );
    assert_eq!(60, fan_input.unwrap().as_rpm());
}

#[test]
fn test_label() {
    let test_dir = "/tmp/test_dir";
    let mut fs = MemoryFs::new();
    VirtualHwmonBuilder::create(&mut fs, test_dir, 0, "system").add_temp(1, 40000, "test_temp1\n");

    let hwmons: Hwmons = parse_path(&fs, test_dir).unwrap();
    let hwmon = hwmons.hwmon_by_index(0).unwrap();
    let probe = TempSensorStruct::at(hwmon.path(), 1).subfunction_path(TempSensorStruct::primary());
    let temp = TempSensorStruct::parse(hwmon.path(), 1, fs.inspect(&probe)).unwrap();

    let label = fs.read(&temp.subfunction_path(SensorSubFunctionType::Label));
    assert_eq!(temp.name(label), String::from("test_temp1"));
}

#[test]
fn test_parse() {
    let test_dir = "/tmp/test_dir";
    let mut fs = MemoryFs::new();
    VirtualHwmonBuilder::create(&mut fs, test_dir, 0, "system")
        .add_pwm(1, true, true)
        .add_pwm(2, true, true)
        .add_temp(1, 40000, "temp1")
        .add_temp(2, 60000, "temp2");
    VirtualHwmonBuilder::create(&mut fs, test_dir, 1, "other")
        .add_pwm(1, true, true)
        .add_temp(1, 40000, "temp1")
        .add_fan(2, 1000);

    let hwmons = parse_path(&fs, test_dir).unwrap();
    let hwmon0 = *hwmons.hwmons_by_name("system").first().unwrap();
    let hwmon1 = *hwmons.hwmons_by_name("other").first().unwrap();

    assert_eq!(hwmon0.name(), hwmons.hwmon_by_index(0).unwrap().name());
    assert_eq!(hwmon1.name(), hwmons.hwmon_by_index(1).unwrap().name());

    assert_eq!(hwmons.hwmon_by_index(2).is_none(), true);
    assert_eq!(hwmons.hwmons_by_name("alias").first().is_none(), true);

    assert_eq!(hwmon0.temps().len(), 2);
    assert_eq!(hwmon1.temps().len(), 1);
    assert_eq!(hwmon0.pwms().len(), 2);
    assert_eq!(hwmon1.pwms().len(), 1);

    hwmon0.pwms().get(&1u16).unwrap();
    hwmon0.pwms().get(&2u16).unwrap();
    hwmon1.pwms().get(&1u16).unwrap();
    hwmon0.temps().get(&1u16).unwrap();
    hwmon0.temps().get(&2u16).unwrap();
    hwmon1.temps().get(&1u16).unwrap();
}

#[test]
fn parse_of_missing_root_is_a_hwmons_error() {
    let fs = MemoryFs::new();
    match parse_path(&fs, "/nowhere") {
        Err(ParsingError::Hwmons { source, path }) => {
            assert_eq!(source.kind, IoErrorKind::NotFound);
            assert_eq!(path, "/nowhere");
        },
        other => panic!("unexpected {:?}", other),
    }
}

#[test]
fn parse_of_empty_root_gives_no_hwmons() {
    let mut fs = MemoryFs::new();
    fs.mkdir_all("/sys/class/hwmon");
    let hwmons = run(&fs, parse_hwmons()).unwrap();
    assert_eq!(hwmons.len(), 0);
    assert_eq!(hwmons.path(), "/sys/class/hwmon/");
}

#[test]
fn parse_stops_at_first_missing_hwmon_index() {
    let mut fs = MemoryFs::new();
    VirtualHwmonBuilder::create(&mut fs, "/r", 0, "a");
    VirtualHwmonBuilder::create(&mut fs, "/r", 2, "c");
    let hwmons = parse_path(&fs, "/r").unwrap();
    assert_eq!(hwmons.len(), 1);
    assert!(hwmons.hwmon_by_index(1).is_none());
}

#[test]
fn unreadable_name_is_a_hwmon_name_error() {
    let mut fs = MemoryFs::new();
    VirtualHwmonBuilder::create(&mut fs, "/r", 0, "a");
    fs.denied.insert("/r/hwmon0/name".to_string());
    match parse_path(&fs, "/r") {
        Err(ParsingError::HwmonName { source, path }) => {
            assert_eq!(source.kind, IoErrorKind::PermissionDenied);
            assert_eq!(path, "/r/hwmon0/name");
        },
        other => panic!("unexpected {:?}", other),
    }
}

#[test]
fn unlistable_hwmon_dir_is_a_hwmon_dir_error() {
    let mut fs = MemoryFs::new();
    VirtualHwmonBuilder::create(&mut fs, "/r", 0, "a");
    fs.denied.insert("/r/hwmon0".to_string());
    match parse_path(&fs, "/r") {
        Err(ParsingError::HwmonDir { source, path }) => {
            assert_eq!(source.kind, IoErrorKind::PermissionDenied);
            assert_eq!(path, "/r/hwmon0");
        },
        other => panic!("unexpected {:?}", other),
    }
}

#[test]
fn uninspectable_sensor_is_a_sensor_error() {
    let mut fs = MemoryFs::new();
    VirtualHwmonBuilder::create(&mut fs, "/r", 0, "a").add_temp(1, 1000, "t");
    fs.denied.insert("/r/hwmon0/temp1_input".to_string());
    match parse_path(&fs, "/r") {
        Err(ParsingError::Sensor { source, path }) => {
            assert_eq!(source.kind, IoErrorKind::PermissionDenied);
            assert_eq!(path, "/r/hwmon0/temp1_input");
        },
        other => panic!("unexpected {:?}", other),
    }
}

#[test]
fn voltages_are_counted_from_zero() {
    let mut fs = MemoryFs::new();
    VirtualHwmonBuilder::create(&mut fs, "/r", 0, "a");
    fs.write("/r/hwmon0/in0_input", "1200");
    fs.write("/r/hwmon0/in3_input", "3300");
    let hwmons = parse_path(&fs, "/r").unwrap();
    let hwmon = hwmons.hwmon_by_index(0).unwrap();
    assert!(hwmon.voltage(0).is_some());
    assert!(hwmon.voltage(3).is_some());
    assert!(hwmon.voltage(1).is_none());
    assert_eq!(hwmon.voltages().len(), 2);
}

#[test]
fn parser_asks_for_root_first_and_nothing_when_done() {
    let parser = Hwmons::parse_unrestricted("/r");
    let request = parser.request().unwrap();
    assert_eq!(request.access, AccessKind::Inspect);
    assert_eq!(request.path, "/r");
    let parser = parser.answer_inspect(Err(IoFailure::new(IoErrorKind::Other, "x")));
    assert!(parser.request().is_none());
    assert!(parser.finish().is_err());
}

#[test]
fn hwmons_iterate_in_index_order() {
    let mut fs = MemoryFs::new();
    VirtualHwmonBuilder::create(&mut fs, "/r", 0, "a");
    VirtualHwmonBuilder::create(&mut fs, "/r", 1, "b");
    VirtualHwmonBuilder::create(&mut fs, "/r", 2, "a");
    let hwmons = parse_path(&fs, "/r").unwrap();
    let mut iter = hwmons.iter();
    assert_eq!(iter.len(), 3);
    let (index, name, _) = iter.next().unwrap();
    assert_eq!((index, name), (0, "a"));
    let (index, name, _) = iter.next().unwrap();
    assert_eq!((index, name), (1, "b"));
    let (index, name, hwmon) = iter.next().unwrap();
    assert_eq!((index, name, hwmon.path()), (2, "a", "/r/hwmon2"));
    assert!(iter.next().is_none());
    assert_eq!(iter.len(), 0);

    let by_name = hwmons.hwmons_by_name("a");
    assert_eq!(by_name.len(), 2);
    assert_eq!(by_name[1].path(), "/r/hwmon2");

    let mut named = libmedium::hwmon::hwmons::NamedIter::new(hwmons.iter(), "a");
    assert_eq!(named.next().unwrap().path(), "/r/hwmon0");
    assert_eq!(named.next().unwrap().path(), "/r/hwmon2");
    assert!(named.next().is_none());
}

#[test]
fn hwmon_by_device_path_takes_first_match() {
    let mut fs = MemoryFs::new();
    VirtualHwmonBuilder::create(&mut fs, "/r", 0, "a");
    VirtualHwmonBuilder::create(&mut fs, "/r", 1, "b");
    let hwmons = parse_path(&fs, "/r").unwrap();
    assert_eq!(hwmons.hwmon_by_index(0).unwrap().device_path(), "/r/hwmon0/device");
    let devices = vec!["/sys/devices/x".to_string(), "/sys/devices/y".to_string()];
    assert_eq!(hwmons.hwmon_by_device_path(&devices, "/sys/devices/y").unwrap().name(), "b");
    assert!(hwmons.hwmon_by_device_path(&devices, "/sys/devices/z").is_none());
}

#[test]
fn parsing_asks_for_each_access_once() {
    let mut fs = MemoryFs::new();
    VirtualHwmonBuilder::create(&mut fs, "/r", 0, "a");
    let mut parser = Hwmons::parse_unrestricted("/r");
    let mut requests = Vec::new();
    while let Some(request) = parser.request() {
        requests.push(request.path.clone());
        parser = match request.access {
            AccessKind::Inspect => parser.answer_inspect(fs.inspect(&request.path)),
            AccessKind::Read => parser.answer_read(fs.read(&request.path)),
            AccessKind::List => parser.answer_list(fs.list(&request.path)),
        };
    }
    // The root, the directory, the name, the listing, the first index of each of the eight
    // kinds of sensor, and the next directory, which does not exist.
    assert_eq!(requests.len(), 13);
    assert_eq!(requests[0], "/r");
    assert_eq!(requests[1], "/r/hwmon0");
    assert_eq!(requests[2], "/r/hwmon0/name");
    assert_eq!(requests[4], "/r/hwmon0/curr1_input");
    assert_eq!(requests[11], "/r/hwmon0/in0_input");
    assert_eq!(requests[12], "/r/hwmon1");
    let hwmons = parser.finish().unwrap();
    assert_eq!(hwmons.len(), 1);
}

#[test]
fn parsed_hwmons_know_their_index_and_channel_numbering() {
    let mut fs = MemoryFs::new();
    VirtualHwmonBuilder::create(&mut fs, "/r", 0, "a").add_temp(1, 1000, "t");
    VirtualHwmonBuilder::create(&mut fs, "/r", 1, "b");
    fs.write("/r/hwmon1/in0_input", "900");
    fs.write("/r/hwmon1/temp0_input", "900");
    let hwmons = parse_path(&fs, "/r").unwrap();
    assert_eq!(hwmons.hwmon_by_index(0).unwrap().index(), 0);
    let b = hwmons.hwmon_by_index(1).unwrap();
    assert_eq!(b.index(), 1);
    assert!(b.voltage(0).is_some());
    assert!(b.temp(0).is_none());
    assert!(b.temps().is_empty());
    let copy = hwmons.clone();
    assert_eq!(copy.len(), 2);
    assert_eq!(copy.hwmon_by_index(0).unwrap().temps().len(), 1);
}

#[test]
fn named_iterator_stays_exhausted() {
    let mut fs = MemoryFs::new();
    VirtualHwmonBuilder::create(&mut fs, "/r", 0, "a");
    VirtualHwmonBuilder::create(&mut fs, "/r", 1, "b");
    let hwmons = parse_path(&fs, "/r").unwrap();
    let mut named = libmedium::hwmon::hwmons::NamedIter::new(hwmons.iter(), "a");
    assert_eq!(named.next().unwrap().index(), 0);
    assert!(named.next().is_none());
    assert!(named.next().is_none());
}
