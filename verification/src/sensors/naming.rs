//! The kernel's names for the files of the hwmon sysfs interface, as fixed facts: which
//! prefix each kind of sensor's files carry, which file marks a sensor as present, from
//! which index each kind is counted, and which subfunctions are read-only, read-write and
//! write-only.

use crate::sensors::curr::CurrentSensorStruct;
use crate::sensors::energy::EnergySensorStruct;
use crate::sensors::fan::FanSensorStruct;
use crate::sensors::humidity::HumiditySensorStruct;
use crate::sensors::intrusion::IntrusionSensorStruct;
use crate::sensors::power::PowerSensorStruct;
use crate::sensors::pwm::PwmSensorStruct;
use crate::sensors::temp::TempSensorStruct;
use crate::sensors::voltage::VoltageSensorStruct;
use crate::hwmon::{spec_kind_first_index, spec_kind_prefix, spec_kind_primary, SensorKind};
use crate::parsing::Parseable;
use crate::sensors::base::Sensor;
use crate::sensors::subfunction_type::{
    spec_read_only_list, spec_read_write_list, spec_write_only_list, SensorSubFunctionType,
};
use vstd::prelude::*;

verus! {

/// Every sensor's files carry the kernel's prefix for its kind (`curr`, `energy`, `fan`,
/// `humidity`, `intrusion`, `power`, `pwm`, `temp`, `in`), both as the sensor's base and
/// as the prefix that parsing looks for.
pub proof fn lemma_sensor_prefixes()
    ensures
        forall|s: CurrentSensorStruct| #[trigger] s.spec_base() == "curr"@,
        CurrentSensorStruct::spec_prefix() == "curr"@,
        forall|s: EnergySensorStruct| #[trigger] s.spec_base() == "energy"@,
        EnergySensorStruct::spec_prefix() == "energy"@,
        forall|s: FanSensorStruct| #[trigger] s.spec_base() == "fan"@,
        FanSensorStruct::spec_prefix() == "fan"@,
        forall|s: HumiditySensorStruct| #[trigger] s.spec_base() == "humidity"@,
        HumiditySensorStruct::spec_prefix() == "humidity"@,
        forall|s: IntrusionSensorStruct| #[trigger] s.spec_base() == "intrusion"@,
        IntrusionSensorStruct::spec_prefix() == "intrusion"@,
        forall|s: PowerSensorStruct| #[trigger] s.spec_base() == "power"@,
        PowerSensorStruct::spec_prefix() == "power"@,
        forall|s: PwmSensorStruct| #[trigger] s.spec_base() == "pwm"@,
        PwmSensorStruct::spec_prefix() == "pwm"@,
        forall|s: TempSensorStruct| #[trigger] s.spec_base() == "temp"@,
        TempSensorStruct::spec_prefix() == "temp"@,
        forall|s: VoltageSensorStruct| #[trigger] s.spec_base() == "in"@,
        VoltageSensorStruct::spec_prefix() == "in"@,
{
}

/// The file whose presence marks a sensor as present is the kernel's primary file:
/// `<prefix><index>_input` for every kind but pwm (`pwm<index>`) and intrusion
/// (`intrusion<index>_alarm`); sensors are counted from index 1, voltages and intrusions
/// from 0.
pub proof fn lemma_sensor_primaries()
    ensures
        CurrentSensorStruct::spec_primary() == SensorSubFunctionType::Input,
        CurrentSensorStruct::spec_first_index() == 1,
        EnergySensorStruct::spec_primary() == SensorSubFunctionType::Input,
        EnergySensorStruct::spec_first_index() == 1,
        FanSensorStruct::spec_primary() == SensorSubFunctionType::Input,
        FanSensorStruct::spec_first_index() == 1,
        HumiditySensorStruct::spec_primary() == SensorSubFunctionType::Input,
        HumiditySensorStruct::spec_first_index() == 1,
        IntrusionSensorStruct::spec_primary() == SensorSubFunctionType::Alarm,
        IntrusionSensorStruct::spec_first_index() == 0,
        PowerSensorStruct::spec_primary() == SensorSubFunctionType::Input,
        PowerSensorStruct::spec_first_index() == 1,
        PwmSensorStruct::spec_primary() == SensorSubFunctionType::Pwm,
        PwmSensorStruct::spec_first_index() == 1,
        TempSensorStruct::spec_primary() == SensorSubFunctionType::Input,
        TempSensorStruct::spec_first_index() == 1,
        VoltageSensorStruct::spec_primary() == SensorSubFunctionType::Input,
        VoltageSensorStruct::spec_first_index() == 0,
{
}

/// The kinds that a hwmon holds: the prefix of each kind's files, the subfunction whose file
/// marks a sensor as present (the input for every kind but pwm), and the index from which
/// each kind is counted (0 for voltages, 1 for every other kind).
pub proof fn lemma_kind_names(kind: SensorKind)
    ensures
        spec_kind_prefix(kind) == match kind {
            SensorKind::Current => "curr"@,
            SensorKind::Energy => "energy"@,
            SensorKind::Fan => "fan"@,
            SensorKind::Humidity => "humidity"@,
            SensorKind::Power => "power"@,
            SensorKind::Pwm => "pwm"@,
            SensorKind::Temp => "temp"@,
            SensorKind::Voltage => "in"@,
        },
        spec_kind_primary(kind) == if kind == SensorKind::Pwm {
            SensorSubFunctionType::Pwm
        } else {
            SensorSubFunctionType::Input
        },
        spec_kind_first_index(kind) == if kind == SensorKind::Voltage {
            0u16
        } else {
            1u16
        },
{
}

/// Which subfunctions the kernel's sysfs files allow to read, to read and write, and only to
/// write: the read-only list, the read-write list (what a captured state holds and writes
/// back) and the write-only list, in order.
pub proof fn lemma_access_lists()
    ensures
        spec_read_only_list() == seq![
            SensorSubFunctionType::Input,
            SensorSubFunctionType::Fault,
            SensorSubFunctionType::Label,
            SensorSubFunctionType::Type,
            SensorSubFunctionType::Lowest,
            SensorSubFunctionType::Highest,
            SensorSubFunctionType::InputLowest,
            SensorSubFunctionType::InputHighest,
            SensorSubFunctionType::Average,
            SensorSubFunctionType::AverageIntervalMax,
            SensorSubFunctionType::AverageIntervalMin,
            SensorSubFunctionType::AverageHighest,
            SensorSubFunctionType::AverageLowest,
            SensorSubFunctionType::Accuracy,
            SensorSubFunctionType::CapMin,
            SensorSubFunctionType::CapMax,
            SensorSubFunctionType::Alarm,
            SensorSubFunctionType::MinAlarm,
            SensorSubFunctionType::MaxAlarm,
            SensorSubFunctionType::CritAlarm,
            SensorSubFunctionType::LowCritAlarm,
            SensorSubFunctionType::CapAlarm,
            SensorSubFunctionType::EmergencyAlarm,
        ],
        spec_read_write_list() == seq![
            SensorSubFunctionType::Enable,
            SensorSubFunctionType::Max,
            SensorSubFunctionType::Min,
            SensorSubFunctionType::MaxHyst,
            SensorSubFunctionType::MinHyst,
            SensorSubFunctionType::Crit,
            SensorSubFunctionType::CritHyst,
            SensorSubFunctionType::Emergency,
            SensorSubFunctionType::EmergencyHyst,
            SensorSubFunctionType::LowCrit,
            SensorSubFunctionType::LowCritHyst,
            SensorSubFunctionType::Offset,
            SensorSubFunctionType::Div,
            SensorSubFunctionType::Pulses,
            SensorSubFunctionType::Target,
            SensorSubFunctionType::AverageInterval,
            SensorSubFunctionType::AverageMax,
            SensorSubFunctionType::AverageMin,
            SensorSubFunctionType::Cap,
            SensorSubFunctionType::CapHyst,
            SensorSubFunctionType::Pwm,
            SensorSubFunctionType::Mode,
            SensorSubFunctionType::Freq,
            SensorSubFunctionType::AutoChannelsTemp,
            SensorSubFunctionType::Beep,
        ],
        spec_write_only_list() == seq![
            SensorSubFunctionType::ResetHistory,
        ],
{
    assert(spec_read_only_list() =~= seq![
        SensorSubFunctionType::Input,
        SensorSubFunctionType::Fault,
        SensorSubFunctionType::Label,
        SensorSubFunctionType::Type,
        SensorSubFunctionType::Lowest,
        SensorSubFunctionType::Highest,
        SensorSubFunctionType::InputLowest,
        SensorSubFunctionType::InputHighest,
        SensorSubFunctionType::Average,
        SensorSubFunctionType::AverageIntervalMax,
        SensorSubFunctionType::AverageIntervalMin,
        SensorSubFunctionType::AverageHighest,
        SensorSubFunctionType::AverageLowest,
        SensorSubFunctionType::Accuracy,
        SensorSubFunctionType::CapMin,
        SensorSubFunctionType::CapMax,
        SensorSubFunctionType::Alarm,
        SensorSubFunctionType::MinAlarm,
        SensorSubFunctionType::MaxAlarm,
        SensorSubFunctionType::CritAlarm,
        SensorSubFunctionType::LowCritAlarm,
        SensorSubFunctionType::CapAlarm,
        SensorSubFunctionType::EmergencyAlarm,
    ]);
    assert(spec_read_write_list() =~= seq![
        SensorSubFunctionType::Enable,
        SensorSubFunctionType::Max,
        SensorSubFunctionType::Min,
        SensorSubFunctionType::MaxHyst,
        SensorSubFunctionType::MinHyst,
        SensorSubFunctionType::Crit,
        SensorSubFunctionType::CritHyst,
        SensorSubFunctionType::Emergency,
        SensorSubFunctionType::EmergencyHyst,
        SensorSubFunctionType::LowCrit,
        SensorSubFunctionType::LowCritHyst,
        SensorSubFunctionType::Offset,
        SensorSubFunctionType::Div,
        SensorSubFunctionType::Pulses,
        SensorSubFunctionType::Target,
        SensorSubFunctionType::AverageInterval,
        SensorSubFunctionType::AverageMax,
        SensorSubFunctionType::AverageMin,
        SensorSubFunctionType::Cap,
        SensorSubFunctionType::CapHyst,
        SensorSubFunctionType::Pwm,
        SensorSubFunctionType::Mode,
        SensorSubFunctionType::Freq,
        SensorSubFunctionType::AutoChannelsTemp,
        SensorSubFunctionType::Beep,
    ]);
    assert(spec_write_only_list() =~= seq![SensorSubFunctionType::ResetHistory]);
}

} // verus!
