//! Module containing the Hwmon struct and related functionality.

use crate::parsing::Parseable;
use crate::sensors::base::Sensor;
use crate::sensors::curr::CurrentSensorStruct;
use crate::sensors::energy::EnergySensorStruct;
use crate::sensors::fan::FanSensorStruct;
use crate::sensors::humidity::HumiditySensorStruct;
use crate::sensors::power::PowerSensorStruct;
use crate::sensors::pwm::PwmSensorStruct;
use crate::sensors::subfunction_type::SensorSubFunctionType;
use crate::sensors::temp::TempSensorStruct;
use crate::sensors::voltage::VoltageSensorStruct;
use crate::text::{join_path, spec_join};
use std::collections::BTreeMap;
use vstd::prelude::*;

pub mod attributes;
pub mod discovery;
pub mod error;
pub mod hwmons;
pub mod parser;

pub use hwmons::Hwmons;

verus! {

/// The kinds of sensor that a [`Hwmon`] holds, in the order in which they are parsed.
#[derive(Debug, Clone, Copy, PartialEq, Eq, Structural)]
pub enum SensorKind {
    /// current sensors.
    Current,
    /// energy sensors.
    Energy,
    /// fan sensors.
    Fan,
    /// humidity sensors.
    Humidity,
    /// power sensors.
    Power,
    /// pwm sensors.
    Pwm,
    /// temp sensors.
    Temp,
    /// voltage sensors.
    Voltage,
}

/// The prefix of the files of the sensors of a kind.
pub open spec fn spec_kind_prefix(kind: SensorKind) -> Seq<char> {
    match kind {
        SensorKind::Current => CurrentSensorStruct::spec_prefix(),
        SensorKind::Energy => EnergySensorStruct::spec_prefix(),
        SensorKind::Fan => FanSensorStruct::spec_prefix(),
        SensorKind::Humidity => HumiditySensorStruct::spec_prefix(),
        SensorKind::Power => PowerSensorStruct::spec_prefix(),
        SensorKind::Pwm => PwmSensorStruct::spec_prefix(),
        SensorKind::Temp => TempSensorStruct::spec_prefix(),
        SensorKind::Voltage => VoltageSensorStruct::spec_prefix(),
    }
}

/// The subfunction whose file marks a sensor of a kind as present.
pub open spec fn spec_kind_primary(kind: SensorKind) -> SensorSubFunctionType {
    match kind {
        SensorKind::Current => CurrentSensorStruct::spec_primary(),
        SensorKind::Energy => EnergySensorStruct::spec_primary(),
        SensorKind::Fan => FanSensorStruct::spec_primary(),
        SensorKind::Humidity => HumiditySensorStruct::spec_primary(),
        SensorKind::Power => PowerSensorStruct::spec_primary(),
        SensorKind::Pwm => PwmSensorStruct::spec_primary(),
        SensorKind::Temp => TempSensorStruct::spec_primary(),
        SensorKind::Voltage => VoltageSensorStruct::spec_primary(),
    }
}

/// The index from which the sensors of a kind are counted.
pub open spec fn spec_kind_first_index(kind: SensorKind) -> u16 {
    match kind {
        SensorKind::Current => CurrentSensorStruct::spec_first_index(),
        SensorKind::Energy => EnergySensorStruct::spec_first_index(),
        SensorKind::Fan => FanSensorStruct::spec_first_index(),
        SensorKind::Humidity => HumiditySensorStruct::spec_first_index(),
        SensorKind::Power => PowerSensorStruct::spec_first_index(),
        SensorKind::Pwm => PwmSensorStruct::spec_first_index(),
        SensorKind::Temp => TempSensorStruct::spec_first_index(),
        SensorKind::Voltage => VoltageSensorStruct::spec_first_index(),
    }
}

/// All kinds, in the order in which they are parsed.
pub open spec fn spec_all_kinds() -> Seq<SensorKind> {
    seq![
        SensorKind::Current,
        SensorKind::Energy,
        SensorKind::Fan,
        SensorKind::Humidity,
        SensorKind::Power,
        SensorKind::Pwm,
        SensorKind::Temp,
        SensorKind::Voltage,
    ]
}

impl SensorKind {
    /// Returns all kinds, in the order in which they are parsed.
    pub fn all() -> (kinds: Vec<SensorKind>)
        ensures
            kinds@ == spec_all_kinds(),
    {
        vec![
            SensorKind::Current,
            SensorKind::Energy,
            SensorKind::Fan,
            SensorKind::Humidity,
            SensorKind::Power,
            SensorKind::Pwm,
            SensorKind::Temp,
            SensorKind::Voltage,
        ]
    }

    /// Returns the prefix of the files of the sensors of this kind.
    pub fn prefix(self) -> (prefix: &'static str)
        ensures
            prefix@ == spec_kind_prefix(self),
    {
        match self {
            SensorKind::Current => CurrentSensorStruct::prefix(),
            SensorKind::Energy => EnergySensorStruct::prefix(),
            SensorKind::Fan => FanSensorStruct::prefix(),
            SensorKind::Humidity => HumiditySensorStruct::prefix(),
            SensorKind::Power => PowerSensorStruct::prefix(),
            SensorKind::Pwm => PwmSensorStruct::prefix(),
            SensorKind::Temp => TempSensorStruct::prefix(),
            SensorKind::Voltage => VoltageSensorStruct::prefix(),
        }
    }

    /// Returns the subfunction whose file marks a sensor of this kind as present.
    pub fn primary(self) -> (sub_type: SensorSubFunctionType)
        ensures
            sub_type == spec_kind_primary(self),
    {
        match self {
            SensorKind::Current => CurrentSensorStruct::primary(),
            SensorKind::Energy => EnergySensorStruct::primary(),
            SensorKind::Fan => FanSensorStruct::primary(),
            SensorKind::Humidity => HumiditySensorStruct::primary(),
            SensorKind::Power => PowerSensorStruct::primary(),
            SensorKind::Pwm => PwmSensorStruct::primary(),
            SensorKind::Temp => TempSensorStruct::primary(),
            SensorKind::Voltage => VoltageSensorStruct::primary(),
        }
    }

    /// Returns the index from which the sensors of this kind are counted.
    pub fn first_index(self) -> (index: u16)
        ensures
            index == spec_kind_first_index(self),
    {
        match self {
            SensorKind::Current => CurrentSensorStruct::first_index(),
            SensorKind::Energy => EnergySensorStruct::first_index(),
            SensorKind::Fan => FanSensorStruct::first_index(),
            SensorKind::Humidity => HumiditySensorStruct::first_index(),
            SensorKind::Power => PowerSensorStruct::first_index(),
            SensorKind::Pwm => PwmSensorStruct::first_index(),
            SensorKind::Temp => TempSensorStruct::first_index(),
            SensorKind::Voltage => VoltageSensorStruct::first_index(),
        }
    }
}

/// The read only variant of Hwmon. It contains all sensors found in its directory path.
#[derive(Debug)]
pub struct Hwmon {
    name: String,
    path: String,
    index: u16,
    currents: BTreeMap<u16, CurrentSensorStruct>,
    energies: BTreeMap<u16, EnergySensorStruct>,
    fans: BTreeMap<u16, FanSensorStruct>,
    humidities: BTreeMap<u16, HumiditySensorStruct>,
    powers: BTreeMap<u16, PowerSensorStruct>,
    pwms: BTreeMap<u16, PwmSensorStruct>,
    temps: BTreeMap<u16, TempSensorStruct>,
    voltages: BTreeMap<u16, VoltageSensorStruct>,
}

impl Hwmon {
    /// The hwmon's name.
    pub closed spec fn spec_name(&self) -> Seq<char> {
        self.name@
    }

    /// The hwmon's path.
    pub closed spec fn spec_path(&self) -> Seq<char> {
        self.path@
    }

    /// The hwmon's index: the number in the name of its directory.
    pub closed spec fn spec_index(&self) -> u16 {
        self.index
    }

    /// The indices of the sensors of the given kind that this hwmon holds.
    pub closed spec fn spec_indices(&self, kind: SensorKind) -> Set<u16> {
        match kind {
            SensorKind::Current => self.currents@.dom(),
            SensorKind::Energy => self.energies@.dom(),
            SensorKind::Fan => self.fans@.dom(),
            SensorKind::Humidity => self.humidities@.dom(),
            SensorKind::Power => self.powers@.dom(),
            SensorKind::Pwm => self.pwms@.dom(),
            SensorKind::Temp => self.temps@.dom(),
            SensorKind::Voltage => self.voltages@.dom(),
        }
    }

    /// The current sensors of this hwmon, by index.
    pub closed spec fn spec_currents(&self) -> Map<u16, CurrentSensorStruct> {
        self.currents@
    }

    /// The energy sensors of this hwmon, by index.
    pub closed spec fn spec_energies(&self) -> Map<u16, EnergySensorStruct> {
        self.energies@
    }

    /// The fan sensors of this hwmon, by index.
    pub closed spec fn spec_fans(&self) -> Map<u16, FanSensorStruct> {
        self.fans@
    }

    /// The humidity sensors of this hwmon, by index.
    pub closed spec fn spec_humidities(&self) -> Map<u16, HumiditySensorStruct> {
        self.humidities@
    }

    /// The power sensors of this hwmon, by index.
    pub closed spec fn spec_powers(&self) -> Map<u16, PowerSensorStruct> {
        self.powers@
    }

    /// The pwm sensors of this hwmon, by index.
    pub closed spec fn spec_pwms(&self) -> Map<u16, PwmSensorStruct> {
        self.pwms@
    }

    /// The temp sensors of this hwmon, by index.
    pub closed spec fn spec_temps(&self) -> Map<u16, TempSensorStruct> {
        self.temps@
    }

    /// The voltage sensors of this hwmon, by index.
    pub closed spec fn spec_voltages(&self) -> Map<u16, VoltageSensorStruct> {
        self.voltages@
    }

    #[verifier::type_invariant]
    spec fn sensors_belong_here(&self) -> bool {
        &&& forall|k: u16| #[trigger] self.currents@.contains_key(k) ==> self.currents@[k].spec_index() == k && self.currents@[k].spec_hwmon_path() == self.path@ && k >= spec_kind_first_index(SensorKind::Current)
        &&& forall|k: u16| #[trigger] self.energies@.contains_key(k) ==> self.energies@[k].spec_index() == k && self.energies@[k].spec_hwmon_path() == self.path@ && k >= spec_kind_first_index(SensorKind::Energy)
        &&& forall|k: u16| #[trigger] self.fans@.contains_key(k) ==> self.fans@[k].spec_index() == k && self.fans@[k].spec_hwmon_path() == self.path@ && k >= spec_kind_first_index(SensorKind::Fan)
        &&& forall|k: u16| #[trigger] self.humidities@.contains_key(k) ==> self.humidities@[k].spec_index() == k && self.humidities@[k].spec_hwmon_path() == self.path@ && k >= spec_kind_first_index(SensorKind::Humidity)
        &&& forall|k: u16| #[trigger] self.powers@.contains_key(k) ==> self.powers@[k].spec_index() == k && self.powers@[k].spec_hwmon_path() == self.path@ && k >= spec_kind_first_index(SensorKind::Power)
        &&& forall|k: u16| #[trigger] self.pwms@.contains_key(k) ==> self.pwms@[k].spec_index() == k && self.pwms@[k].spec_hwmon_path() == self.path@ && k >= spec_kind_first_index(SensorKind::Pwm)
        &&& forall|k: u16| #[trigger] self.temps@.contains_key(k) ==> self.temps@[k].spec_index() == k && self.temps@[k].spec_hwmon_path() == self.path@ && k >= spec_kind_first_index(SensorKind::Temp)
        &&& forall|k: u16| #[trigger] self.voltages@.contains_key(k) ==> self.voltages@[k].spec_index() == k && self.voltages@[k].spec_hwmon_path() == self.path@ && k >= spec_kind_first_index(SensorKind::Voltage)
    }

    /// Creates a hwmon with the given name, path and index that holds no sensors yet.
    pub fn new(name: String, path: &str, index: u16) -> (hwmon: Hwmon)
        ensures
            hwmon.spec_name() == name@,
            hwmon.spec_path() == path@,
            hwmon.spec_index() == index,
            forall|kind: SensorKind| hwmon.spec_indices(kind).is_empty(),
    {
        Hwmon {
            name,
            path: String::from_str(path),
            index,
            currents: BTreeMap::new(),
            energies: BTreeMap::new(),
            fans: BTreeMap::new(),
            humidities: BTreeMap::new(),
            powers: BTreeMap::new(),
            pwms: BTreeMap::new(),
            temps: BTreeMap::new(),
            voltages: BTreeMap::new(),
        }
    }

    /// Adds the sensor of the given kind and index to this hwmon. Sensors of a kind are
    /// counted from the kind's first index (0 for voltages, 1 for all other kinds).
    pub fn add_sensor(&mut self, kind: SensorKind, index: u16)
        requires
            index >= spec_kind_first_index(kind),
        ensures
            final(self).spec_name() == old(self).spec_name(),
            final(self).spec_path() == old(self).spec_path(),
            final(self).spec_index() == old(self).spec_index(),
            forall|k: SensorKind|
                #[trigger] final(self).spec_indices(k) == if k == kind {
                    old(self).spec_indices(k).insert(index)
                } else {
                    old(self).spec_indices(k)
                },
    {
        proof {
            use_type_invariant(&*self);
        }
        match kind {
            SensorKind::Current => {
                let sensor = CurrentSensorStruct::at(self.path.as_str(), index);
                let mut sensors = BTreeMap::new();
                std::mem::swap(&mut sensors, &mut self.currents);
                sensors.insert(index, sensor);
                self.currents = sensors;
            },
            SensorKind::Energy => {
                let sensor = EnergySensorStruct::at(self.path.as_str(), index);
                let mut sensors = BTreeMap::new();
                std::mem::swap(&mut sensors, &mut self.energies);
                sensors.insert(index, sensor);
                self.energies = sensors;
            },
            SensorKind::Fan => {
                let sensor = FanSensorStruct::at(self.path.as_str(), index);
                let mut sensors = BTreeMap::new();
                std::mem::swap(&mut sensors, &mut self.fans);
                sensors.insert(index, sensor);
                self.fans = sensors;
            },
            SensorKind::Humidity => {
                let sensor = HumiditySensorStruct::at(self.path.as_str(), index);
                let mut sensors = BTreeMap::new();
                std::mem::swap(&mut sensors, &mut self.humidities);
                sensors.insert(index, sensor);
                self.humidities = sensors;
            },
            SensorKind::Power => {
                let sensor = PowerSensorStruct::at(self.path.as_str(), index);
                let mut sensors = BTreeMap::new();
                std::mem::swap(&mut sensors, &mut self.powers);
                sensors.insert(index, sensor);
                self.powers = sensors;
            },
            SensorKind::Pwm => {
                let sensor = PwmSensorStruct::at(self.path.as_str(), index);
                let mut sensors = BTreeMap::new();
                std::mem::swap(&mut sensors, &mut self.pwms);
                sensors.insert(index, sensor);
                self.pwms = sensors;
            },
            SensorKind::Temp => {
                let sensor = TempSensorStruct::at(self.path.as_str(), index);
                let mut sensors = BTreeMap::new();
                std::mem::swap(&mut sensors, &mut self.temps);
                sensors.insert(index, sensor);
                self.temps = sensors;
            },
            SensorKind::Voltage => {
                let sensor = VoltageSensorStruct::at(self.path.as_str(), index);
                let mut sensors = BTreeMap::new();
                std::mem::swap(&mut sensors, &mut self.voltages);
                sensors.insert(index, sensor);
                self.voltages = sensors;
            },
        }
    }

    /// Returns the hwmon's name.
    pub fn name(&self) -> (name: &str)
        ensures
            name@ == self.spec_name(),
    {
        self.name.as_str()
    }

    /// Returns the hwmon's index.
    pub fn index(&self) -> (index: u16)
        ensures
            index == self.spec_index(),
    {
        self.index
    }

    /// Returns the hwmon's path.
    pub fn path(&self) -> (path: &str)
        ensures
            path@ == self.spec_path(),
    {
        self.path.as_str()
    }

    /// Returns the path of this hwmon's device link, `<path>/device`. Every hwmon in sysfs
    /// has one; canonicalizing it (a file system access, left to the caller) gives the
    /// device path, which does not change between reboots.
    pub fn device_path(&self) -> (link: String)
        ensures
            link@ == spec_join(self.spec_path(), "device"@),
    {
        join_path(self.path.as_str(), "device")
    }

    /// Returns all read only current sensors found in this `Hwmon`.
    pub fn currents(&self) -> (sensors: &BTreeMap<u16, CurrentSensorStruct>)
        ensures
            sensors@ == self.spec_currents(),
            sensors@.dom() == self.spec_indices(SensorKind::Current),
            forall|k: u16|
                #[trigger] sensors@.contains_key(k) ==> sensors@[k].spec_index() == k
                    && sensors@[k].spec_hwmon_path() == self.spec_path()
                    && k >= spec_kind_first_index(SensorKind::Current),
    {
        proof {
            use_type_invariant(self);
        }
        &self.currents
    }

    /// Returns all writeable current sensors found in this `Hwmon`.
    pub fn writeable_currents(&self) -> (sensors: &BTreeMap<u16, CurrentSensorStruct>)
        ensures
            sensors@ == self.spec_currents(),
            sensors@.dom() == self.spec_indices(SensorKind::Current),
            forall|k: u16|
                #[trigger] sensors@.contains_key(k) ==> sensors@[k].spec_index() == k
                    && sensors@[k].spec_hwmon_path() == self.spec_path()
                    && k >= spec_kind_first_index(SensorKind::Current),
    {
        proof {
            use_type_invariant(self);
        }
        &self.currents
    }

    /// Returns all read only energy sensors found in this `Hwmon`.
    pub fn energies(&self) -> (sensors: &BTreeMap<u16, EnergySensorStruct>)
        ensures
            sensors@ == self.spec_energies(),
            sensors@.dom() == self.spec_indices(SensorKind::Energy),
            forall|k: u16|
                #[trigger] sensors@.contains_key(k) ==> sensors@[k].spec_index() == k
                    && sensors@[k].spec_hwmon_path() == self.spec_path()
                    && k >= spec_kind_first_index(SensorKind::Energy),
    {
        proof {
            use_type_invariant(self);
        }
        &self.energies
    }

    /// Returns all writeable energy sensors found in this `Hwmon`.
    pub fn writeable_energies(&self) -> (sensors: &BTreeMap<u16, EnergySensorStruct>)
        ensures
            sensors@ == self.spec_energies(),
            sensors@.dom() == self.spec_indices(SensorKind::Energy),
            forall|k: u16|
                #[trigger] sensors@.contains_key(k) ==> sensors@[k].spec_index() == k
                    && sensors@[k].spec_hwmon_path() == self.spec_path()
                    && k >= spec_kind_first_index(SensorKind::Energy),
    {
        proof {
            use_type_invariant(self);
        }
        &self.energies
    }

    /// Returns all read only fan sensors found in this `Hwmon`.
    pub fn fans(&self) -> (sensors: &BTreeMap<u16, FanSensorStruct>)
        ensures
            sensors@ == self.spec_fans(),
            sensors@.dom() == self.spec_indices(SensorKind::Fan),
            forall|k: u16|
                #[trigger] sensors@.contains_key(k) ==> sensors@[k].spec_index() == k
                    && sensors@[k].spec_hwmon_path() == self.spec_path()
                    && k >= spec_kind_first_index(SensorKind::Fan),
    {
        proof {
            use_type_invariant(self);
        }
        &self.fans
    }

    /// Returns all writeable fan sensors found in this `Hwmon`.
    pub fn writeable_fans(&self) -> (sensors: &BTreeMap<u16, FanSensorStruct>)
        ensures
            sensors@ == self.spec_fans(),
            sensors@.dom() == self.spec_indices(SensorKind::Fan),
            forall|k: u16|
                #[trigger] sensors@.contains_key(k) ==> sensors@[k].spec_index() == k
                    && sensors@[k].spec_hwmon_path() == self.spec_path()
                    && k >= spec_kind_first_index(SensorKind::Fan),
    {
        proof {
            use_type_invariant(self);
        }
        &self.fans
    }

    /// Returns all read only humidity sensors found in this `Hwmon`.
    pub fn humidities(&self) -> (sensors: &BTreeMap<u16, HumiditySensorStruct>)
        ensures
            sensors@ == self.spec_humidities(),
            sensors@.dom() == self.spec_indices(SensorKind::Humidity),
            forall|k: u16|
                #[trigger] sensors@.contains_key(k) ==> sensors@[k].spec_index() == k
                    && sensors@[k].spec_hwmon_path() == self.spec_path()
                    && k >= spec_kind_first_index(SensorKind::Humidity),
    {
        proof {
            use_type_invariant(self);
        }
        &self.humidities
    }

    /// Returns all writeable humidity sensors found in this `Hwmon`.
    pub fn writeable_humidities(&self) -> (sensors: &BTreeMap<u16, HumiditySensorStruct>)
        ensures
            sensors@ == self.spec_humidities(),
            sensors@.dom() == self.spec_indices(SensorKind::Humidity),
            forall|k: u16|
                #[trigger] sensors@.contains_key(k) ==> sensors@[k].spec_index() == k
                    && sensors@[k].spec_hwmon_path() == self.spec_path()
                    && k >= spec_kind_first_index(SensorKind::Humidity),
    {
        proof {
            use_type_invariant(self);
        }
        &self.humidities
    }

    /// Returns all read only power sensors found in this `Hwmon`.
    pub fn powers(&self) -> (sensors: &BTreeMap<u16, PowerSensorStruct>)
        ensures
            sensors@ == self.spec_powers(),
            sensors@.dom() == self.spec_indices(SensorKind::Power),
            forall|k: u16|
                #[trigger] sensors@.contains_key(k) ==> sensors@[k].spec_index() == k
                    && sensors@[k].spec_hwmon_path() == self.spec_path()
                    && k >= spec_kind_first_index(SensorKind::Power),
    {
        proof {
            use_type_invariant(self);
        }
        &self.powers
    }

    /// Returns all writeable power sensors found in this `Hwmon`.
    pub fn writeable_powers(&self) -> (sensors: &BTreeMap<u16, PowerSensorStruct>)
        ensures
            sensors@ == self.spec_powers(),
            sensors@.dom() == self.spec_indices(SensorKind::Power),
            forall|k: u16|
                #[trigger] sensors@.contains_key(k) ==> sensors@[k].spec_index() == k
                    && sensors@[k].spec_hwmon_path() == self.spec_path()
                    && k >= spec_kind_first_index(SensorKind::Power),
    {
        proof {
            use_type_invariant(self);
        }
        &self.powers
    }

    /// Returns all read only pwm sensors found in this `Hwmon`.
    pub fn pwms(&self) -> (sensors: &BTreeMap<u16, PwmSensorStruct>)
        ensures
            sensors@ == self.spec_pwms(),
            sensors@.dom() == self.spec_indices(SensorKind::Pwm),
            forall|k: u16|
                #[trigger] sensors@.contains_key(k) ==> sensors@[k].spec_index() == k
                    && sensors@[k].spec_hwmon_path() == self.spec_path()
                    && k >= spec_kind_first_index(SensorKind::Pwm),
    {
        proof {
            use_type_invariant(self);
        }
        &self.pwms
    }

    /// Returns all writeable pwm sensors found in this `Hwmon`.
    pub fn writeable_pwms(&self) -> (sensors: &BTreeMap<u16, PwmSensorStruct>)
        ensures
            sensors@ == self.spec_pwms(),
            sensors@.dom() == self.spec_indices(SensorKind::Pwm),
            forall|k: u16|
                #[trigger] sensors@.contains_key(k) ==> sensors@[k].spec_index() == k
                    && sensors@[k].spec_hwmon_path() == self.spec_path()
                    && k >= spec_kind_first_index(SensorKind::Pwm),
    {
        proof {
            use_type_invariant(self);
        }
        &self.pwms
    }

    /// Returns all read only temp sensors found in this `Hwmon`.
    pub fn temps(&self) -> (sensors: &BTreeMap<u16, TempSensorStruct>)
        ensures
            sensors@ == self.spec_temps(),
            sensors@.dom() == self.spec_indices(SensorKind::Temp),
            forall|k: u16|
                #[trigger] sensors@.contains_key(k) ==> sensors@[k].spec_index() == k
                    && sensors@[k].spec_hwmon_path() == self.spec_path()
                    && k >= spec_kind_first_index(SensorKind::Temp),
    {
        proof {
            use_type_invariant(self);
        }
        &self.temps
    }

    /// Returns all writeable temp sensors found in this `Hwmon`.
    pub fn writeable_temps(&self) -> (sensors: &BTreeMap<u16, TempSensorStruct>)
        ensures
            sensors@ == self.spec_temps(),
            sensors@.dom() == self.spec_indices(SensorKind::Temp),
            forall|k: u16|
                #[trigger] sensors@.contains_key(k) ==> sensors@[k].spec_index() == k
                    && sensors@[k].spec_hwmon_path() == self.spec_path()
                    && k >= spec_kind_first_index(SensorKind::Temp),
    {
        proof {
            use_type_invariant(self);
        }
        &self.temps
    }

    /// Returns all read only voltage sensors found in this `Hwmon`.
    pub fn voltages(&self) -> (sensors: &BTreeMap<u16, VoltageSensorStruct>)
        ensures
            sensors@ == self.spec_voltages(),
            sensors@.dom() == self.spec_indices(SensorKind::Voltage),
            forall|k: u16|
                #[trigger] sensors@.contains_key(k) ==> sensors@[k].spec_index() == k
                    && sensors@[k].spec_hwmon_path() == self.spec_path()
                    && k >= spec_kind_first_index(SensorKind::Voltage),
    {
        proof {
            use_type_invariant(self);
        }
        &self.voltages
    }

    /// Returns all writeable voltage sensors found in this `Hwmon`.
    pub fn writeable_voltages(&self) -> (sensors: &BTreeMap<u16, VoltageSensorStruct>)
        ensures
            sensors@ == self.spec_voltages(),
            sensors@.dom() == self.spec_indices(SensorKind::Voltage),
            forall|k: u16|
                #[trigger] sensors@.contains_key(k) ==> sensors@[k].spec_index() == k
                    && sensors@[k].spec_hwmon_path() == self.spec_path()
                    && k >= spec_kind_first_index(SensorKind::Voltage),
    {
        proof {
            use_type_invariant(self);
        }
        &self.voltages
    }

    /// Returns the current sensor with the given index.
    /// Returns `None`, if no sensor with the given index exists.
    pub fn current(&self, index: u16) -> (sensor: Option<&CurrentSensorStruct>)
        ensures
            match sensor {
                Some(s) => self.spec_currents().contains_key(index) && *s == self.spec_currents()[index]
                    && s.spec_index() == index && s.spec_hwmon_path() == self.spec_path(),
                None => !self.spec_currents().contains_key(index),
            },
            sensor is Some <==> self.spec_indices(SensorKind::Current).contains(index),
            index < spec_kind_first_index(SensorKind::Current) ==> sensor is None,
    {
        proof {
            use_type_invariant(self);
        }
        self.currents.get(&index)
    }

    /// Returns the writeable current sensor with the given index.
    /// Returns `None`, if no sensor with the given index exists.
    pub fn writeable_current(&self, index: u16) -> (sensor: Option<&CurrentSensorStruct>)
        ensures
            match sensor {
                Some(s) => self.spec_currents().contains_key(index) && *s == self.spec_currents()[index]
                    && s.spec_index() == index && s.spec_hwmon_path() == self.spec_path(),
                None => !self.spec_currents().contains_key(index),
            },
            sensor is Some <==> self.spec_indices(SensorKind::Current).contains(index),
            index < spec_kind_first_index(SensorKind::Current) ==> sensor is None,
    {
        proof {
            use_type_invariant(self);
        }
        self.currents.get(&index)
    }

    /// Returns the energy sensor with the given index.
    /// Returns `None`, if no sensor with the given index exists.
    pub fn energy(&self, index: u16) -> (sensor: Option<&EnergySensorStruct>)
        ensures
            match sensor {
                Some(s) => self.spec_energies().contains_key(index) && *s == self.spec_energies()[index]
                    && s.spec_index() == index && s.spec_hwmon_path() == self.spec_path(),
                None => !self.spec_energies().contains_key(index),
            },
            sensor is Some <==> self.spec_indices(SensorKind::Energy).contains(index),
            index < spec_kind_first_index(SensorKind::Energy) ==> sensor is None,
    {
        proof {
            use_type_invariant(self);
        }
        self.energies.get(&index)
    }

    /// Returns the writeable energy sensor with the given index.
    /// Returns `None`, if no sensor with the given index exists.
    pub fn writeable_energy(&self, index: u16) -> (sensor: Option<&EnergySensorStruct>)
        ensures
            match sensor {
                Some(s) => self.spec_energies().contains_key(index) && *s == self.spec_energies()[index]
                    && s.spec_index() == index && s.spec_hwmon_path() == self.spec_path(),
                None => !self.spec_energies().contains_key(index),
            },
            sensor is Some <==> self.spec_indices(SensorKind::Energy).contains(index),
            index < spec_kind_first_index(SensorKind::Energy) ==> sensor is None,
    {
        proof {
            use_type_invariant(self);
        }
        self.energies.get(&index)
    }

    /// Returns the fan sensor with the given index.
    /// Returns `None`, if no sensor with the given index exists.
    pub fn fan(&self, index: u16) -> (sensor: Option<&FanSensorStruct>)
        ensures
            match sensor {
                Some(s) => self.spec_fans().contains_key(index) && *s == self.spec_fans()[index]
                    && s.spec_index() == index && s.spec_hwmon_path() == self.spec_path(),
                None => !self.spec_fans().contains_key(index),
            },
            sensor is Some <==> self.spec_indices(SensorKind::Fan).contains(index),
            index < spec_kind_first_index(SensorKind::Fan) ==> sensor is None,
    {
        proof {
            use_type_invariant(self);
        }
        self.fans.get(&index)
    }

    /// Returns the writeable fan sensor with the given index.
    /// Returns `None`, if no sensor with the given index exists.
    pub fn writeable_fan(&self, index: u16) -> (sensor: Option<&FanSensorStruct>)
        ensures
            match sensor {
                Some(s) => self.spec_fans().contains_key(index) && *s == self.spec_fans()[index]
                    && s.spec_index() == index && s.spec_hwmon_path() == self.spec_path(),
                None => !self.spec_fans().contains_key(index),
            },
            sensor is Some <==> self.spec_indices(SensorKind::Fan).contains(index),
            index < spec_kind_first_index(SensorKind::Fan) ==> sensor is None,
    {
        proof {
            use_type_invariant(self);
        }
        self.fans.get(&index)
    }

    /// Returns the humidity sensor with the given index.
    /// Returns `None`, if no sensor with the given index exists.
    pub fn humidity(&self, index: u16) -> (sensor: Option<&HumiditySensorStruct>)
        ensures
            match sensor {
                Some(s) => self.spec_humidities().contains_key(index) && *s == self.spec_humidities()[index]
                    && s.spec_index() == index && s.spec_hwmon_path() == self.spec_path(),
                None => !self.spec_humidities().contains_key(index),
            },
            sensor is Some <==> self.spec_indices(SensorKind::Humidity).contains(index),
            index < spec_kind_first_index(SensorKind::Humidity) ==> sensor is None,
    {
        proof {
            use_type_invariant(self);
        }
        self.humidities.get(&index)
    }

    /// Returns the writeable humidity sensor with the given index.
    /// Returns `None`, if no sensor with the given index exists.
    pub fn writeable_humidity(&self, index: u16) -> (sensor: Option<&HumiditySensorStruct>)
        ensures
            match sensor {
                Some(s) => self.spec_humidities().contains_key(index) && *s == self.spec_humidities()[index]
                    && s.spec_index() == index && s.spec_hwmon_path() == self.spec_path(),
                None => !self.spec_humidities().contains_key(index),
            },
            sensor is Some <==> self.spec_indices(SensorKind::Humidity).contains(index),
            index < spec_kind_first_index(SensorKind::Humidity) ==> sensor is None,
    {
        proof {
            use_type_invariant(self);
        }
        self.humidities.get(&index)
    }

    /// Returns the power sensor with the given index.
    /// Returns `None`, if no sensor with the given index exists.
    pub fn power(&self, index: u16) -> (sensor: Option<&PowerSensorStruct>)
        ensures
            match sensor {
                Some(s) => self.spec_powers().contains_key(index) && *s == self.spec_powers()[index]
                    && s.spec_index() == index && s.spec_hwmon_path() == self.spec_path(),
                None => !self.spec_powers().contains_key(index),
            },
            sensor is Some <==> self.spec_indices(SensorKind::Power).contains(index),
            index < spec_kind_first_index(SensorKind::Power) ==> sensor is None,
    {
        proof {
            use_type_invariant(self);
        }
        self.powers.get(&index)
    }

    /// Returns the writeable power sensor with the given index.
    /// Returns `None`, if no sensor with the given index exists.
    pub fn writeable_power(&self, index: u16) -> (sensor: Option<&PowerSensorStruct>)
        ensures
            match sensor {
                Some(s) => self.spec_powers().contains_key(index) && *s == self.spec_powers()[index]
                    && s.spec_index() == index && s.spec_hwmon_path() == self.spec_path(),
                None => !self.spec_powers().contains_key(index),
            },
            sensor is Some <==> self.spec_indices(SensorKind::Power).contains(index),
            index < spec_kind_first_index(SensorKind::Power) ==> sensor is None,
    {
        proof {
            use_type_invariant(self);
        }
        self.powers.get(&index)
    }

    /// Returns the pwm sensor with the given index.
    /// Returns `None`, if no sensor with the given index exists.
    pub fn pwm(&self, index: u16) -> (sensor: Option<&PwmSensorStruct>)
        ensures
            match sensor {
                Some(s) => self.spec_pwms().contains_key(index) && *s == self.spec_pwms()[index]
                    && s.spec_index() == index && s.spec_hwmon_path() == self.spec_path(),
                None => !self.spec_pwms().contains_key(index),
            },
            sensor is Some <==> self.spec_indices(SensorKind::Pwm).contains(index),
            index < spec_kind_first_index(SensorKind::Pwm) ==> sensor is None,
    {
        proof {
            use_type_invariant(self);
        }
        self.pwms.get(&index)
    }

    /// Returns the writeable pwm sensor with the given index.
    /// Returns `None`, if no sensor with the given index exists.
    pub fn writeable_pwm(&self, index: u16) -> (sensor: Option<&PwmSensorStruct>)
        ensures
            match sensor {
                Some(s) => self.spec_pwms().contains_key(index) && *s == self.spec_pwms()[index]
                    && s.spec_index() == index && s.spec_hwmon_path() == self.spec_path(),
                None => !self.spec_pwms().contains_key(index),
            },
            sensor is Some <==> self.spec_indices(SensorKind::Pwm).contains(index),
            index < spec_kind_first_index(SensorKind::Pwm) ==> sensor is None,
    {
        proof {
            use_type_invariant(self);
        }
        self.pwms.get(&index)
    }

    /// Returns the temp sensor with the given index.
    /// Returns `None`, if no sensor with the given index exists.
    pub fn temp(&self, index: u16) -> (sensor: Option<&TempSensorStruct>)
        ensures
            match sensor {
                Some(s) => self.spec_temps().contains_key(index) && *s == self.spec_temps()[index]
                    && s.spec_index() == index && s.spec_hwmon_path() == self.spec_path(),
                None => !self.spec_temps().contains_key(index),
            },
            sensor is Some <==> self.spec_indices(SensorKind::Temp).contains(index),
            index < spec_kind_first_index(SensorKind::Temp) ==> sensor is None,
    {
        proof {
            use_type_invariant(self);
        }
        self.temps.get(&index)
    }

    /// Returns the writeable temp sensor with the given index.
    /// Returns `None`, if no sensor with the given index exists.
    pub fn writeable_temp(&self, index: u16) -> (sensor: Option<&TempSensorStruct>)
        ensures
            match sensor {
                Some(s) => self.spec_temps().contains_key(index) && *s == self.spec_temps()[index]
                    && s.spec_index() == index && s.spec_hwmon_path() == self.spec_path(),
                None => !self.spec_temps().contains_key(index),
            },
            sensor is Some <==> self.spec_indices(SensorKind::Temp).contains(index),
            index < spec_kind_first_index(SensorKind::Temp) ==> sensor is None,
    {
        proof {
            use_type_invariant(self);
        }
        self.temps.get(&index)
    }

    /// Returns the voltage sensor with the given index.
    /// Returns `None`, if no sensor with the given index exists.
    pub fn voltage(&self, index: u16) -> (sensor: Option<&VoltageSensorStruct>)
        ensures
            match sensor {
                Some(s) => self.spec_voltages().contains_key(index) && *s == self.spec_voltages()[index]
                    && s.spec_index() == index && s.spec_hwmon_path() == self.spec_path(),
                None => !self.spec_voltages().contains_key(index),
            },
            sensor is Some <==> self.spec_indices(SensorKind::Voltage).contains(index),
            index < spec_kind_first_index(SensorKind::Voltage) ==> sensor is None,
    {
        proof {
            use_type_invariant(self);
        }
        self.voltages.get(&index)
    }

    /// Returns the writeable voltage sensor with the given index.
    /// Returns `None`, if no sensor with the given index exists.
    pub fn writeable_voltage(&self, index: u16) -> (sensor: Option<&VoltageSensorStruct>)
        ensures
            match sensor {
                Some(s) => self.spec_voltages().contains_key(index) && *s == self.spec_voltages()[index]
                    && s.spec_index() == index && s.spec_hwmon_path() == self.spec_path(),
                None => !self.spec_voltages().contains_key(index),
            },
            sensor is Some <==> self.spec_indices(SensorKind::Voltage).contains(index),
            index < spec_kind_first_index(SensorKind::Voltage) ==> sensor is None,
    {
        proof {
            use_type_invariant(self);
        }
        self.voltages.get(&index)
    }

}

impl Clone for Hwmon {
    fn clone(&self) -> (copy: Self)
        ensures
            copy.spec_name() == self.spec_name(),
            copy.spec_path() == self.spec_path(),
            copy.spec_index() == self.spec_index(),
            copy.spec_currents() == self.spec_currents(),
            copy.spec_energies() == self.spec_energies(),
            copy.spec_fans() == self.spec_fans(),
            copy.spec_humidities() == self.spec_humidities(),
            copy.spec_powers() == self.spec_powers(),
            copy.spec_pwms() == self.spec_pwms(),
            copy.spec_temps() == self.spec_temps(),
            copy.spec_voltages() == self.spec_voltages(),
    {
        proof {
            use_type_invariant(self);
        }
        Hwmon {
            name: self.name.clone(),
            path: self.path.clone(),
            index: self.index,
            currents: self.currents.clone(),
            energies: self.energies.clone(),
            fans: self.fans.clone(),
            humidities: self.humidities.clone(),
            powers: self.powers.clone(),
            pwms: self.pwms.clone(),
            temps: self.temps.clone(),
            voltages: self.voltages.clone(),
        }
    }
}

} // verus!
