//! Module containing sensor subfunction types.

use vstd::prelude::*;

verus! {

/// Enum that represents a sensor subfunction type.
#[allow(missing_docs)]
#[derive(Clone, Copy, Debug, Hash, PartialEq, Eq, Structural)]
pub enum SensorSubFunctionType {
    Input,
    Fault,
    Label,
    Type,
    Lowest,
    Highest,
    InputLowest,
    InputHighest,
    Average,
    AverageIntervalMax,
    AverageIntervalMin,
    AverageHighest,
    AverageLowest,
    Accuracy,
    CapMin,
    CapMax,
    Enable,
    Max,
    Min,
    MaxHyst,
    MinHyst,
    Crit,
    CritHyst,
    Emergency,
    EmergencyHyst,
    LowCrit,
    LowCritHyst,
    Offset,
    Div,
    Pulses,
    Target,
    AverageInterval,
    AverageMax,
    AverageMin,
    Cap,
    CapHyst,
    ResetHistory,
    Pwm,
    Mode,
    Freq,
    AutoChannelsTemp,
    Alarm,
    MinAlarm,
    MaxAlarm,
    CritAlarm,
    LowCritAlarm,
    CapAlarm,
    EmergencyAlarm,
    Beep,
}

/// The subfunctions that can only be read, in the order in which they are listed.
pub open spec fn spec_read_only_list() -> Seq<SensorSubFunctionType> {
    seq![
            SensorSubFunctionType::Input,
            SensorSubFunctionType::Fault,
            SensorSubFunctionType::Label,
            SensorSubFunctionType::Type,
            SensorSubFunctionType::Lowest,
            SensorSubFunctionType::Highest,
            SensorSubFunctionType::InputLowest,
            SensorSubFunctionType::InputHighest,
            SensorSubFunctionType::Average,
            SensorSubFunctionType::AverageIntervalMax,
            SensorSubFunctionType::AverageIntervalMin,
            SensorSubFunctionType::AverageHighest,
            SensorSubFunctionType::AverageLowest,
            SensorSubFunctionType::Accuracy,
            SensorSubFunctionType::CapMin,
            SensorSubFunctionType::CapMax,
            SensorSubFunctionType::Alarm,
            SensorSubFunctionType::MinAlarm,
            SensorSubFunctionType::MaxAlarm,
            SensorSubFunctionType::CritAlarm,
            SensorSubFunctionType::LowCritAlarm,
            SensorSubFunctionType::CapAlarm,
            SensorSubFunctionType::EmergencyAlarm,
        ]
}

/// The subfunctions that can be read and written, in the order in which they are listed.
pub open spec fn spec_read_write_list() -> Seq<SensorSubFunctionType> {
    seq![
            SensorSubFunctionType::Enable,
            SensorSubFunctionType::Max,
            SensorSubFunctionType::Min,
            SensorSubFunctionType::MaxHyst,
            SensorSubFunctionType::MinHyst,
            SensorSubFunctionType::Crit,
            SensorSubFunctionType::CritHyst,
            SensorSubFunctionType::Emergency,
            SensorSubFunctionType::EmergencyHyst,
            SensorSubFunctionType::LowCrit,
            SensorSubFunctionType::LowCritHyst,
            SensorSubFunctionType::Offset,
            SensorSubFunctionType::Div,
            SensorSubFunctionType::Pulses,
            SensorSubFunctionType::Target,
            SensorSubFunctionType::AverageInterval,
            SensorSubFunctionType::AverageMax,
            SensorSubFunctionType::AverageMin,
            SensorSubFunctionType::Cap,
            SensorSubFunctionType::CapHyst,
            SensorSubFunctionType::Pwm,
            SensorSubFunctionType::Mode,
            SensorSubFunctionType::Freq,
            SensorSubFunctionType::AutoChannelsTemp,
            SensorSubFunctionType::Beep,
        ]
}

/// The subfunctions that can only be written.
pub open spec fn spec_write_only_list() -> Seq<SensorSubFunctionType> {
    seq![
            SensorSubFunctionType::ResetHistory,
        ]
}

/// The file-name suffix of each subfunction.
pub open spec fn spec_suffix(sub_type: SensorSubFunctionType) -> Seq<char> {
    match sub_type {
        SensorSubFunctionType::Input => "_input"@,
        SensorSubFunctionType::Fault => "_fault"@,
        SensorSubFunctionType::Label => "_label"@,
        SensorSubFunctionType::Type => "_type"@,
        SensorSubFunctionType::Lowest => "_lowest"@,
        SensorSubFunctionType::Highest => "_highest"@,
        SensorSubFunctionType::InputLowest => "_input_lowest"@,
        SensorSubFunctionType::InputHighest => "_input_highest"@,
        SensorSubFunctionType::Average => "_average"@,
        SensorSubFunctionType::AverageIntervalMax => "_average_interval_max"@,
        SensorSubFunctionType::AverageIntervalMin => "_average_interval_min"@,
        SensorSubFunctionType::AverageHighest => "_average_highest"@,
        SensorSubFunctionType::AverageLowest => "_average_lowest"@,
        SensorSubFunctionType::Accuracy => "_accuracy"@,
        SensorSubFunctionType::CapMin => "_cap_min"@,
        SensorSubFunctionType::CapMax => "_cap_max"@,
        SensorSubFunctionType::Enable => "_enable"@,
        SensorSubFunctionType::Max => "_max"@,
        SensorSubFunctionType::Min => "_min"@,
        SensorSubFunctionType::MaxHyst => "_max_hyst"@,
        SensorSubFunctionType::MinHyst => "_min_hyst"@,
        SensorSubFunctionType::Crit => "_crit"@,
        SensorSubFunctionType::CritHyst => "_crit_hyst"@,
        SensorSubFunctionType::Emergency => "_emergency"@,
        SensorSubFunctionType::EmergencyHyst => "_emergency_hyst"@,
        SensorSubFunctionType::LowCrit => "_lcrit"@,
        SensorSubFunctionType::LowCritHyst => "_lcrit_hyst"@,
        SensorSubFunctionType::Offset => "_offset"@,
        SensorSubFunctionType::Div => "_div"@,
        SensorSubFunctionType::Pulses => "_pulses"@,
        SensorSubFunctionType::Target => "_target"@,
        SensorSubFunctionType::AverageInterval => "_average_interval"@,
        SensorSubFunctionType::AverageMax => "_average_max"@,
        SensorSubFunctionType::AverageMin => "_average_min"@,
        SensorSubFunctionType::Cap => "_cap"@,
        SensorSubFunctionType::CapHyst => "_cap_hyst"@,
        SensorSubFunctionType::ResetHistory => "_reset_history"@,
        SensorSubFunctionType::Pwm => ""@,
        SensorSubFunctionType::Mode => "_mode"@,
        SensorSubFunctionType::Freq => "_freq"@,
        SensorSubFunctionType::AutoChannelsTemp => "_auto_channels_temp"@,
        SensorSubFunctionType::Alarm => "_alarm"@,
        SensorSubFunctionType::MinAlarm => "_min_alarm"@,
        SensorSubFunctionType::MaxAlarm => "_max_alarm"@,
        SensorSubFunctionType::CritAlarm => "_crit_alarm"@,
        SensorSubFunctionType::LowCritAlarm => "_lcrit_alarm"@,
        SensorSubFunctionType::CapAlarm => "_cap_alarm"@,
        SensorSubFunctionType::EmergencyAlarm => "_emergency_alarm"@,
        SensorSubFunctionType::Beep => "_beep"@,
    }
}

/// The name of each subfunction type, as `Display` writes it.
pub open spec fn spec_name(sub_type: SensorSubFunctionType) -> Seq<char> {
    match sub_type {
        SensorSubFunctionType::Input => "Input"@,
        SensorSubFunctionType::Fault => "Fault"@,
        SensorSubFunctionType::Label => "Label"@,
        SensorSubFunctionType::Type => "Type"@,
        SensorSubFunctionType::Lowest => "Lowest"@,
        SensorSubFunctionType::Highest => "Highest"@,
        SensorSubFunctionType::InputLowest => "InputLowest"@,
        SensorSubFunctionType::InputHighest => "InputHighest"@,
        SensorSubFunctionType::Average => "Average"@,
        SensorSubFunctionType::AverageIntervalMax => "AverageIntervalMax"@,
        SensorSubFunctionType::AverageIntervalMin => "AverageIntervalMin"@,
        SensorSubFunctionType::AverageHighest => "AverageHighest"@,
        SensorSubFunctionType::AverageLowest => "AverageLowest"@,
        SensorSubFunctionType::Accuracy => "Accuracy"@,
        SensorSubFunctionType::CapMin => "CapMin"@,
        SensorSubFunctionType::CapMax => "CapMax"@,
        SensorSubFunctionType::Enable => "Enable"@,
        SensorSubFunctionType::Max => "Max"@,
        SensorSubFunctionType::Min => "Min"@,
        SensorSubFunctionType::MaxHyst => "MaxHyst"@,
        SensorSubFunctionType::MinHyst => "MinHyst"@,
        SensorSubFunctionType::Crit => "Crit"@,
        SensorSubFunctionType::CritHyst => "CritHyst"@,
        SensorSubFunctionType::Emergency => "Emergency"@,
        SensorSubFunctionType::EmergencyHyst => "EmergencyHyst"@,
        SensorSubFunctionType::LowCrit => "LowCrit"@,
        SensorSubFunctionType::LowCritHyst => "LowCritHyst"@,
        SensorSubFunctionType::Offset => "Offset"@,
        SensorSubFunctionType::Div => "Div"@,
        SensorSubFunctionType::Pulses => "Pulses"@,
        SensorSubFunctionType::Target => "Target"@,
        SensorSubFunctionType::AverageInterval => "AverageInterval"@,
        SensorSubFunctionType::AverageMax => "AverageMax"@,
        SensorSubFunctionType::AverageMin => "AverageMin"@,
        SensorSubFunctionType::Cap => "Cap"@,
        SensorSubFunctionType::CapHyst => "CapHyst"@,
        SensorSubFunctionType::ResetHistory => "ResetHistory"@,
        SensorSubFunctionType::Pwm => "Pwm"@,
        SensorSubFunctionType::Mode => "Mode"@,
        SensorSubFunctionType::Freq => "Freq"@,
        SensorSubFunctionType::AutoChannelsTemp => "AutoChannelsTemp"@,
        SensorSubFunctionType::Alarm => "Alarm"@,
        SensorSubFunctionType::MinAlarm => "MinAlarm"@,
        SensorSubFunctionType::MaxAlarm => "MaxAlarm"@,
        SensorSubFunctionType::CritAlarm => "CritAlarm"@,
        SensorSubFunctionType::LowCritAlarm => "LowCritAlarm"@,
        SensorSubFunctionType::CapAlarm => "CapAlarm"@,
        SensorSubFunctionType::EmergencyAlarm => "EmergencyAlarm"@,
        SensorSubFunctionType::Beep => "Beep"@,
    }
}

impl SensorSubFunctionType {
    /// Returns all subfunction types that can only be read.
    pub fn read_only_list() -> (list: Vec<SensorSubFunctionType>)
        ensures
            list@ == spec_read_only_list(),
    {
        vec![
            SensorSubFunctionType::Input,
            SensorSubFunctionType::Fault,
            SensorSubFunctionType::Label,
            SensorSubFunctionType::Type,
            SensorSubFunctionType::Lowest,
            SensorSubFunctionType::Highest,
            SensorSubFunctionType::InputLowest,
            SensorSubFunctionType::InputHighest,
            SensorSubFunctionType::Average,
            SensorSubFunctionType::AverageIntervalMax,
            SensorSubFunctionType::AverageIntervalMin,
            SensorSubFunctionType::AverageHighest,
            SensorSubFunctionType::AverageLowest,
            SensorSubFunctionType::Accuracy,
            SensorSubFunctionType::CapMin,
            SensorSubFunctionType::CapMax,
            SensorSubFunctionType::Alarm,
            SensorSubFunctionType::MinAlarm,
            SensorSubFunctionType::MaxAlarm,
            SensorSubFunctionType::CritAlarm,
            SensorSubFunctionType::LowCritAlarm,
            SensorSubFunctionType::CapAlarm,
            SensorSubFunctionType::EmergencyAlarm,
        ]
    }

    /// Returns all subfunction types that can be read and written.
    pub fn read_write_list() -> (list: Vec<SensorSubFunctionType>)
        ensures
            list@ == spec_read_write_list(),
    {
        vec![
            SensorSubFunctionType::Enable,
            SensorSubFunctionType::Max,
            SensorSubFunctionType::Min,
            SensorSubFunctionType::MaxHyst,
            SensorSubFunctionType::MinHyst,
            SensorSubFunctionType::Crit,
            SensorSubFunctionType::CritHyst,
            SensorSubFunctionType::Emergency,
            SensorSubFunctionType::EmergencyHyst,
            SensorSubFunctionType::LowCrit,
            SensorSubFunctionType::LowCritHyst,
            SensorSubFunctionType::Offset,
            SensorSubFunctionType::Div,
            SensorSubFunctionType::Pulses,
            SensorSubFunctionType::Target,
            SensorSubFunctionType::AverageInterval,
            SensorSubFunctionType::AverageMax,
            SensorSubFunctionType::AverageMin,
            SensorSubFunctionType::Cap,
            SensorSubFunctionType::CapHyst,
            SensorSubFunctionType::Pwm,
            SensorSubFunctionType::Mode,
            SensorSubFunctionType::Freq,
            SensorSubFunctionType::AutoChannelsTemp,
            SensorSubFunctionType::Beep,
        ]
    }

    /// Returns all subfunction types that can only be written.
    pub fn write_only_list() -> (list: Vec<SensorSubFunctionType>)
        ensures
            list@ == spec_write_only_list(),
    {
        vec![
            SensorSubFunctionType::ResetHistory,
        ]
    }

    /// Returns all readable subfunction types: the read-only ones, then the read-write ones.
    pub fn read_list() -> (list: Vec<SensorSubFunctionType>)
        ensures
            list@ == spec_read_only_list() + spec_read_write_list(),
    {
        let mut list = Self::read_only_list();
        let mut rest = Self::read_write_list();
        list.append(&mut rest);
        list
    }

    /// Returns all writeable subfunction types: the write-only ones, then the read-write ones.
    pub fn write_list() -> (list: Vec<SensorSubFunctionType>)
        ensures
            list@ == spec_write_only_list() + spec_read_write_list(),
    {
        let mut list = Self::write_only_list();
        let mut rest = Self::read_write_list();
        list.append(&mut rest);
        list
    }

    /// Returns the suffix that this subfunction's file name carries after the sensor's
    /// base and index (`temp1` + `_input`).
    pub fn to_suffix(self) -> (suffix: &'static str)
        ensures
            suffix@ == spec_suffix(self),
    {
        match self {
            SensorSubFunctionType::Input => "_input",
            SensorSubFunctionType::Fault => "_fault",
            SensorSubFunctionType::Label => "_label",
            SensorSubFunctionType::Type => "_type",
            SensorSubFunctionType::Lowest => "_lowest",
            SensorSubFunctionType::Highest => "_highest",
            SensorSubFunctionType::InputLowest => "_input_lowest",
            SensorSubFunctionType::InputHighest => "_input_highest",
            SensorSubFunctionType::Average => "_average",
            SensorSubFunctionType::AverageIntervalMax => "_average_interval_max",
            SensorSubFunctionType::AverageIntervalMin => "_average_interval_min",
            SensorSubFunctionType::AverageHighest => "_average_highest",
            SensorSubFunctionType::AverageLowest => "_average_lowest",
            SensorSubFunctionType::Accuracy => "_accuracy",
            SensorSubFunctionType::CapMin => "_cap_min",
            SensorSubFunctionType::CapMax => "_cap_max",
            SensorSubFunctionType::Enable => "_enable",
            SensorSubFunctionType::Max => "_max",
            SensorSubFunctionType::Min => "_min",
            SensorSubFunctionType::MaxHyst => "_max_hyst",
            SensorSubFunctionType::MinHyst => "_min_hyst",
            SensorSubFunctionType::Crit => "_crit",
            SensorSubFunctionType::CritHyst => "_crit_hyst",
            SensorSubFunctionType::Emergency => "_emergency",
            SensorSubFunctionType::EmergencyHyst => "_emergency_hyst",
            SensorSubFunctionType::LowCrit => "_lcrit",
            SensorSubFunctionType::LowCritHyst => "_lcrit_hyst",
            SensorSubFunctionType::Offset => "_offset",
            SensorSubFunctionType::Div => "_div",
            SensorSubFunctionType::Pulses => "_pulses",
            SensorSubFunctionType::Target => "_target",
            SensorSubFunctionType::AverageInterval => "_average_interval",
            SensorSubFunctionType::AverageMax => "_average_max",
            SensorSubFunctionType::AverageMin => "_average_min",
            SensorSubFunctionType::Cap => "_cap",
            SensorSubFunctionType::CapHyst => "_cap_hyst",
            SensorSubFunctionType::ResetHistory => "_reset_history",
            SensorSubFunctionType::Pwm => "",
            SensorSubFunctionType::Mode => "_mode",
            SensorSubFunctionType::Freq => "_freq",
            SensorSubFunctionType::AutoChannelsTemp => "_auto_channels_temp",
            SensorSubFunctionType::Alarm => "_alarm",
            SensorSubFunctionType::MinAlarm => "_min_alarm",
            SensorSubFunctionType::MaxAlarm => "_max_alarm",
            SensorSubFunctionType::CritAlarm => "_crit_alarm",
            SensorSubFunctionType::LowCritAlarm => "_lcrit_alarm",
            SensorSubFunctionType::CapAlarm => "_cap_alarm",
            SensorSubFunctionType::EmergencyAlarm => "_emergency_alarm",
            SensorSubFunctionType::Beep => "_beep",
        }
    }

    /// Returns the name of this subfunction type, which is what `Display` writes for it.
    pub fn name(self) -> (name: &'static str)
        ensures
            name@ == spec_name(self),
    {
        match self {
            SensorSubFunctionType::Input => "Input",
            SensorSubFunctionType::Fault => "Fault",
            SensorSubFunctionType::Label => "Label",
            SensorSubFunctionType::Type => "Type",
            SensorSubFunctionType::Lowest => "Lowest",
            SensorSubFunctionType::Highest => "Highest",
            SensorSubFunctionType::InputLowest => "InputLowest",
            SensorSubFunctionType::InputHighest => "InputHighest",
            SensorSubFunctionType::Average => "Average",
            SensorSubFunctionType::AverageIntervalMax => "AverageIntervalMax",
            SensorSubFunctionType::AverageIntervalMin => "AverageIntervalMin",
            SensorSubFunctionType::AverageHighest => "AverageHighest",
            SensorSubFunctionType::AverageLowest => "AverageLowest",
            SensorSubFunctionType::Accuracy => "Accuracy",
            SensorSubFunctionType::CapMin => "CapMin",
            SensorSubFunctionType::CapMax => "CapMax",
            SensorSubFunctionType::Enable => "Enable",
            SensorSubFunctionType::Max => "Max",
            SensorSubFunctionType::Min => "Min",
            SensorSubFunctionType::MaxHyst => "MaxHyst",
            SensorSubFunctionType::MinHyst => "MinHyst",
            SensorSubFunctionType::Crit => "Crit",
            SensorSubFunctionType::CritHyst => "CritHyst",
            SensorSubFunctionType::Emergency => "Emergency",
            SensorSubFunctionType::EmergencyHyst => "EmergencyHyst",
            SensorSubFunctionType::LowCrit => "LowCrit",
            SensorSubFunctionType::LowCritHyst => "LowCritHyst",
            SensorSubFunctionType::Offset => "Offset",
            SensorSubFunctionType::Div => "Div",
            SensorSubFunctionType::Pulses => "Pulses",
            SensorSubFunctionType::Target => "Target",
            SensorSubFunctionType::AverageInterval => "AverageInterval",
            SensorSubFunctionType::AverageMax => "AverageMax",
            SensorSubFunctionType::AverageMin => "AverageMin",
            SensorSubFunctionType::Cap => "Cap",
            SensorSubFunctionType::CapHyst => "CapHyst",
            SensorSubFunctionType::ResetHistory => "ResetHistory",
            SensorSubFunctionType::Pwm => "Pwm",
            SensorSubFunctionType::Mode => "Mode",
            SensorSubFunctionType::Freq => "Freq",
            SensorSubFunctionType::AutoChannelsTemp => "AutoChannelsTemp",
            SensorSubFunctionType::Alarm => "Alarm",
            SensorSubFunctionType::MinAlarm => "MinAlarm",
            SensorSubFunctionType::MaxAlarm => "MaxAlarm",
            SensorSubFunctionType::CritAlarm => "CritAlarm",
            SensorSubFunctionType::LowCritAlarm => "LowCritAlarm",
            SensorSubFunctionType::CapAlarm => "CapAlarm",
            SensorSubFunctionType::EmergencyAlarm => "EmergencyAlarm",
            SensorSubFunctionType::Beep => "Beep",
        }
    }
}

/// The three lists hold no subfunction type twice.
pub proof fn lemma_lists_have_no_duplicates()
    ensures
        spec_read_only_list().no_duplicates(),
        spec_read_write_list().no_duplicates(),
        spec_write_only_list().no_duplicates(),
{
}

/// Every subfunction type is exactly one of read-only, read-write and write-only.
pub proof fn lemma_lists_partition(sub_type: SensorSubFunctionType)
    ensures
        spec_read_only_list().contains(sub_type) || spec_read_write_list().contains(sub_type)
            || spec_write_only_list().contains(sub_type),
        !(spec_read_only_list().contains(sub_type) && spec_read_write_list().contains(sub_type)),
        !(spec_read_only_list().contains(sub_type) && spec_write_only_list().contains(sub_type)),
        !(spec_read_write_list().contains(sub_type) && spec_write_only_list().contains(sub_type)),
{    match sub_type {
        SensorSubFunctionType::Input => assert(spec_read_only_list()[0] == sub_type),
        SensorSubFunctionType::Fault => assert(spec_read_only_list()[1] == sub_type),
        SensorSubFunctionType::Label => assert(spec_read_only_list()[2] == sub_type),
        SensorSubFunctionType::Type => assert(spec_read_only_list()[3] == sub_type),
        SensorSubFunctionType::Lowest => assert(spec_read_only_list()[4] == sub_type),
        SensorSubFunctionType::Highest => assert(spec_read_only_list()[5] == sub_type),
        SensorSubFunctionType::InputLowest => assert(spec_read_only_list()[6] == sub_type),
        SensorSubFunctionType::InputHighest => assert(spec_read_only_list()[7] == sub_type),
        SensorSubFunctionType::Average => assert(spec_read_only_list()[8] == sub_type),
        SensorSubFunctionType::AverageIntervalMax => assert(spec_read_only_list()[9] == sub_type),
        SensorSubFunctionType::AverageIntervalMin => assert(spec_read_only_list()[10] == sub_type),
        SensorSubFunctionType::AverageHighest => assert(spec_read_only_list()[11] == sub_type),
        SensorSubFunctionType::AverageLowest => assert(spec_read_only_list()[12] == sub_type),
        SensorSubFunctionType::Accuracy => assert(spec_read_only_list()[13] == sub_type),
        SensorSubFunctionType::CapMin => assert(spec_read_only_list()[14] == sub_type),
        SensorSubFunctionType::CapMax => assert(spec_read_only_list()[15] == sub_type),
        SensorSubFunctionType::Alarm => assert(spec_read_only_list()[16] == sub_type),
        SensorSubFunctionType::MinAlarm => assert(spec_read_only_list()[17] == sub_type),
        SensorSubFunctionType::MaxAlarm => assert(spec_read_only_list()[18] == sub_type),
        SensorSubFunctionType::CritAlarm => assert(spec_read_only_list()[19] == sub_type),
        SensorSubFunctionType::LowCritAlarm => assert(spec_read_only_list()[20] == sub_type),
        SensorSubFunctionType::CapAlarm => assert(spec_read_only_list()[21] == sub_type),
        SensorSubFunctionType::EmergencyAlarm => assert(spec_read_only_list()[22] == sub_type),
        SensorSubFunctionType::Enable => assert(spec_read_write_list()[0] == sub_type),
        SensorSubFunctionType::Max => assert(spec_read_write_list()[1] == sub_type),
        SensorSubFunctionType::Min => assert(spec_read_write_list()[2] == sub_type),
        SensorSubFunctionType::MaxHyst => assert(spec_read_write_list()[3] == sub_type),
        SensorSubFunctionType::MinHyst => assert(spec_read_write_list()[4] == sub_type),
        SensorSubFunctionType::Crit => assert(spec_read_write_list()[5] == sub_type),
        SensorSubFunctionType::CritHyst => assert(spec_read_write_list()[6] == sub_type),
        SensorSubFunctionType::Emergency => assert(spec_read_write_list()[7] == sub_type),
        SensorSubFunctionType::EmergencyHyst => assert(spec_read_write_list()[8] == sub_type),
        SensorSubFunctionType::LowCrit => assert(spec_read_write_list()[9] == sub_type),
        SensorSubFunctionType::LowCritHyst => assert(spec_read_write_list()[10] == sub_type),
        SensorSubFunctionType::Offset => assert(spec_read_write_list()[11] == sub_type),
        SensorSubFunctionType::Div => assert(spec_read_write_list()[12] == sub_type),
        SensorSubFunctionType::Pulses => assert(spec_read_write_list()[13] == sub_type),
        SensorSubFunctionType::Target => assert(spec_read_write_list()[14] == sub_type),
        SensorSubFunctionType::AverageInterval => assert(spec_read_write_list()[15] == sub_type),
        SensorSubFunctionType::AverageMax => assert(spec_read_write_list()[16] == sub_type),
        SensorSubFunctionType::AverageMin => assert(spec_read_write_list()[17] == sub_type),
        SensorSubFunctionType::Cap => assert(spec_read_write_list()[18] == sub_type),
        SensorSubFunctionType::CapHyst => assert(spec_read_write_list()[19] == sub_type),
        SensorSubFunctionType::Pwm => assert(spec_read_write_list()[20] == sub_type),
        SensorSubFunctionType::Mode => assert(spec_read_write_list()[21] == sub_type),
        SensorSubFunctionType::Freq => assert(spec_read_write_list()[22] == sub_type),
        SensorSubFunctionType::AutoChannelsTemp => assert(spec_read_write_list()[23] == sub_type),
        SensorSubFunctionType::Beep => assert(spec_read_write_list()[24] == sub_type),
        SensorSubFunctionType::ResetHistory => assert(spec_write_only_list()[0] == sub_type),
    }
}


/// Recovers a subfunction type from its suffix by looking at the suffix's length and at
/// a few of its characters; these suffice to tell all suffixes apart.
spec fn suffix_owner(s: Seq<char>) -> Option<SensorSubFunctionType> {
    if s.len() == 6 && s[3] == 'p' && s[4] == 'u' && s[3] == 'p' {
        Some(SensorSubFunctionType::Input)
    } else if s.len() == 6 && s[3] == 'u' && s[4] == 'l' && s[3] == 'u' {
        Some(SensorSubFunctionType::Fault)
    } else if s.len() == 6 && s[3] == 'b' && s[4] == 'e' && s[3] == 'b' {
        Some(SensorSubFunctionType::Label)
    } else if s.len() == 5 && s[3] == 'p' && s[3] == 'p' && s[2] == 'y' {
        Some(SensorSubFunctionType::Type)
    } else if s.len() == 7 && s[3] == 'w' && s[5] == 's' && s[4] == 'e' {
        Some(SensorSubFunctionType::Lowest)
    } else if s.len() == 8 && s[3] == 'g' && s[6] == 's' && s[5] == 'e' {
        Some(SensorSubFunctionType::Highest)
    } else if s.len() == 13 && s[3] == 'p' && s[11] == 's' && s[10] == 'e' {
        Some(SensorSubFunctionType::InputLowest)
    } else if s.len() == 14 && s[3] == 'p' && s[12] == 's' && s[11] == 'e' {
        Some(SensorSubFunctionType::InputHighest)
    } else if s.len() == 8 && s[3] == 'e' && s[6] == 'g' && s[5] == 'a' {
        Some(SensorSubFunctionType::Average)
    } else if s.len() == 21 && s[3] == 'e' && s[19] == 'a' && s[18] == 'm' {
        Some(SensorSubFunctionType::AverageIntervalMax)
    } else if s.len() == 21 && s[3] == 'e' && s[19] == 'i' && s[18] == 'm' {
        Some(SensorSubFunctionType::AverageIntervalMin)
    } else if s.len() == 16 && s[3] == 'e' && s[14] == 's' && s[13] == 'e' {
        Some(SensorSubFunctionType::AverageHighest)
    } else if s.len() == 15 && s[3] == 'e' && s[13] == 's' && s[12] == 'e' {
        Some(SensorSubFunctionType::AverageLowest)
    } else if s.len() == 9 && s[3] == 'c' && s[7] == 'c' && s[6] == 'a' {
        Some(SensorSubFunctionType::Accuracy)
    } else if s.len() == 8 && s[3] == 'p' && s[6] == 'i' && s[5] == 'm' {
        Some(SensorSubFunctionType::CapMin)
    } else if s.len() == 8 && s[3] == 'p' && s[6] == 'a' && s[5] == 'm' {
        Some(SensorSubFunctionType::CapMax)
    } else if s.len() == 7 && s[3] == 'a' && s[5] == 'l' && s[4] == 'b' {
        Some(SensorSubFunctionType::Enable)
    } else if s.len() == 4 && s[3] == 'x' && s[2] == 'a' && s[1] == 'm' {
        Some(SensorSubFunctionType::Max)
    } else if s.len() == 4 && s[3] == 'n' && s[2] == 'i' && s[1] == 'm' {
        Some(SensorSubFunctionType::Min)
    } else if s.len() == 9 && s[3] == 'x' && s[7] == 's' && s[6] == 'y' {
        Some(SensorSubFunctionType::MaxHyst)
    } else if s.len() == 9 && s[3] == 'n' && s[7] == 's' && s[6] == 'y' {
        Some(SensorSubFunctionType::MinHyst)
    } else if s.len() == 5 && s[3] == 'i' && s[3] == 'i' && s[2] == 'r' {
        Some(SensorSubFunctionType::Crit)
    } else if s.len() == 10 && s[3] == 'i' && s[8] == 's' && s[7] == 'y' {
        Some(SensorSubFunctionType::CritHyst)
    } else if s.len() == 10 && s[3] == 'e' && s[8] == 'c' && s[7] == 'n' {
        Some(SensorSubFunctionType::Emergency)
    } else if s.len() == 15 && s[3] == 'e' && s[13] == 's' && s[12] == 'y' {
        Some(SensorSubFunctionType::EmergencyHyst)
    } else if s.len() == 6 && s[3] == 'r' && s[4] == 'i' && s[3] == 'r' {
        Some(SensorSubFunctionType::LowCrit)
    } else if s.len() == 11 && s[3] == 'r' && s[9] == 's' && s[8] == 'y' {
        Some(SensorSubFunctionType::LowCritHyst)
    } else if s.len() == 7 && s[3] == 'f' && s[5] == 'e' && s[4] == 's' {
        Some(SensorSubFunctionType::Offset)
    } else if s.len() == 4 && s[3] == 'v' && s[2] == 'i' && s[1] == 'd' {
        Some(SensorSubFunctionType::Div)
    } else if s.len() == 7 && s[3] == 'l' && s[5] == 'e' && s[4] == 's' {
        Some(SensorSubFunctionType::Pulses)
    } else if s.len() == 7 && s[3] == 'r' && s[5] == 'e' && s[4] == 'g' {
        Some(SensorSubFunctionType::Target)
    } else if s.len() == 17 && s[3] == 'e' && s[15] == 'a' && s[14] == 'v' {
        Some(SensorSubFunctionType::AverageInterval)
    } else if s.len() == 12 && s[3] == 'e' && s[10] == 'a' && s[9] == 'm' {
        Some(SensorSubFunctionType::AverageMax)
    } else if s.len() == 12 && s[3] == 'e' && s[10] == 'i' && s[9] == 'm' {
        Some(SensorSubFunctionType::AverageMin)
    } else if s.len() == 4 && s[3] == 'p' && s[2] == 'a' && s[1] == 'c' {
        Some(SensorSubFunctionType::Cap)
    } else if s.len() == 9 && s[3] == 'p' && s[7] == 's' && s[6] == 'y' {
        Some(SensorSubFunctionType::CapHyst)
    } else if s.len() == 14 && s[3] == 's' && s[12] == 'r' && s[11] == 'o' {
        Some(SensorSubFunctionType::ResetHistory)
    } else if s.len() == 0 {
        Some(SensorSubFunctionType::Pwm)
    } else if s.len() == 5 && s[3] == 'd' && s[3] == 'd' && s[2] == 'o' {
        Some(SensorSubFunctionType::Mode)
    } else if s.len() == 5 && s[3] == 'e' && s[3] == 'e' && s[2] == 'r' {
        Some(SensorSubFunctionType::Freq)
    } else if s.len() == 19 && s[3] == 't' && s[17] == 'm' && s[16] == 'e' {
        Some(SensorSubFunctionType::AutoChannelsTemp)
    } else if s.len() == 6 && s[3] == 'a' && s[4] == 'r' && s[3] == 'a' {
        Some(SensorSubFunctionType::Alarm)
    } else if s.len() == 10 && s[3] == 'n' && s[8] == 'r' && s[7] == 'a' {
        Some(SensorSubFunctionType::MinAlarm)
    } else if s.len() == 10 && s[3] == 'x' && s[8] == 'r' && s[7] == 'a' {
        Some(SensorSubFunctionType::MaxAlarm)
    } else if s.len() == 11 && s[3] == 'i' && s[9] == 'r' && s[8] == 'a' {
        Some(SensorSubFunctionType::CritAlarm)
    } else if s.len() == 12 && s[3] == 'r' && s[10] == 'r' && s[9] == 'a' {
        Some(SensorSubFunctionType::LowCritAlarm)
    } else if s.len() == 10 && s[3] == 'p' && s[8] == 'r' && s[7] == 'a' {
        Some(SensorSubFunctionType::CapAlarm)
    } else if s.len() == 16 && s[3] == 'e' && s[14] == 'r' && s[13] == 'a' {
        Some(SensorSubFunctionType::EmergencyAlarm)
    } else if s.len() == 5 && s[3] == 'e' && s[3] == 'e' && s[2] == 'e' {
        Some(SensorSubFunctionType::Beep)
    } else {
        None
    }
}

proof fn lemma_suffix_owner(sub_type: SensorSubFunctionType)
    ensures
        suffix_owner(spec_suffix(sub_type)) == Some(sub_type),
{
    match sub_type {
        SensorSubFunctionType::Input => reveal_strlit("_input"),
        SensorSubFunctionType::Fault => reveal_strlit("_fault"),
        SensorSubFunctionType::Label => reveal_strlit("_label"),
        SensorSubFunctionType::Type => reveal_strlit("_type"),
        SensorSubFunctionType::Lowest => reveal_strlit("_lowest"),
        SensorSubFunctionType::Highest => reveal_strlit("_highest"),
        SensorSubFunctionType::InputLowest => reveal_strlit("_input_lowest"),
        SensorSubFunctionType::InputHighest => reveal_strlit("_input_highest"),
        SensorSubFunctionType::Average => reveal_strlit("_average"),
        SensorSubFunctionType::AverageIntervalMax => reveal_strlit("_average_interval_max"),
        SensorSubFunctionType::AverageIntervalMin => reveal_strlit("_average_interval_min"),
        SensorSubFunctionType::AverageHighest => reveal_strlit("_average_highest"),
        SensorSubFunctionType::AverageLowest => reveal_strlit("_average_lowest"),
        SensorSubFunctionType::Accuracy => reveal_strlit("_accuracy"),
        SensorSubFunctionType::CapMin => reveal_strlit("_cap_min"),
        SensorSubFunctionType::CapMax => reveal_strlit("_cap_max"),
        SensorSubFunctionType::Enable => reveal_strlit("_enable"),
        SensorSubFunctionType::Max => reveal_strlit("_max"),
        SensorSubFunctionType::Min => reveal_strlit("_min"),
        SensorSubFunctionType::MaxHyst => reveal_strlit("_max_hyst"),
        SensorSubFunctionType::MinHyst => reveal_strlit("_min_hyst"),
        SensorSubFunctionType::Crit => reveal_strlit("_crit"),
        SensorSubFunctionType::CritHyst => reveal_strlit("_crit_hyst"),
        SensorSubFunctionType::Emergency => reveal_strlit("_emergency"),
        SensorSubFunctionType::EmergencyHyst => reveal_strlit("_emergency_hyst"),
        SensorSubFunctionType::LowCrit => reveal_strlit("_lcrit"),
        SensorSubFunctionType::LowCritHyst => reveal_strlit("_lcrit_hyst"),
        SensorSubFunctionType::Offset => reveal_strlit("_offset"),
        SensorSubFunctionType::Div => reveal_strlit("_div"),
        SensorSubFunctionType::Pulses => reveal_strlit("_pulses"),
        SensorSubFunctionType::Target => reveal_strlit("_target"),
        SensorSubFunctionType::AverageInterval => reveal_strlit("_average_interval"),
        SensorSubFunctionType::AverageMax => reveal_strlit("_average_max"),
        SensorSubFunctionType::AverageMin => reveal_strlit("_average_min"),
        SensorSubFunctionType::Cap => reveal_strlit("_cap"),
        SensorSubFunctionType::CapHyst => reveal_strlit("_cap_hyst"),
        SensorSubFunctionType::ResetHistory => reveal_strlit("_reset_history"),
        SensorSubFunctionType::Pwm => reveal_strlit(""),
        SensorSubFunctionType::Mode => reveal_strlit("_mode"),
        SensorSubFunctionType::Freq => reveal_strlit("_freq"),
        SensorSubFunctionType::AutoChannelsTemp => reveal_strlit("_auto_channels_temp"),
        SensorSubFunctionType::Alarm => reveal_strlit("_alarm"),
        SensorSubFunctionType::MinAlarm => reveal_strlit("_min_alarm"),
        SensorSubFunctionType::MaxAlarm => reveal_strlit("_max_alarm"),
        SensorSubFunctionType::CritAlarm => reveal_strlit("_crit_alarm"),
        SensorSubFunctionType::LowCritAlarm => reveal_strlit("_lcrit_alarm"),
        SensorSubFunctionType::CapAlarm => reveal_strlit("_cap_alarm"),
        SensorSubFunctionType::EmergencyAlarm => reveal_strlit("_emergency_alarm"),
        SensorSubFunctionType::Beep => reveal_strlit("_beep"),
    }
}

/// Distinct subfunction types have distinct file-name suffixes, so no two subfunctions
/// of one sensor share a file.
pub proof fn lemma_suffix_injective(a: SensorSubFunctionType, b: SensorSubFunctionType)
    requires
        spec_suffix(a) == spec_suffix(b),
    ensures
        a == b,
{
    lemma_suffix_owner(a);
    lemma_suffix_owner(b);
}

} // verus!
