//! Units of the values that sensors read and write, and their conversion from and to the
//! raw text that sysfs files hold.
//!
//! Each unit keeps the integer that the kernel's hwmon interface uses for it, so that a
//! value read from a file and written back is written exactly as it was read.

use crate::text::{
    decimal, format_signed, format_unsigned, lemma_parse_signed_decimal, lemma_parse_unsigned_decimal,
    lemma_trim_signed_decimal, lemma_trim_unchanged, parse_signed, parse_unsigned, same_text,
    signed_decimal, spec_parse_signed, spec_parse_unsigned, spec_trim,
};
use vstd::prelude::*;

verus! {

/// What went wrong when raw text was converted into a unit.
#[derive(Debug, Clone, PartialEq, Eq)]
pub enum UnitError {
    /// The raw text is not a valid representation of the unit's number.
    RawConversion {
        /// The text that could not be converted.
        raw: String,
    },
    /// The raw text is a number, but not one that the unit accepts.
    InvalidValue {
        /// The text that holds the value.
        raw: String,
    },
}

/// The two kinds of [`UnitError`], without the text that caused them.
#[derive(Debug, Clone, Copy, PartialEq, Eq, Structural)]
pub enum UnitErrorKind {
    /// See [`UnitError::RawConversion`].
    RawConversion,
    /// See [`UnitError::InvalidValue`].
    InvalidValue,
}

impl UnitError {
    /// The kind of this error.
    pub open spec fn kind(&self) -> UnitErrorKind {
        match self {
            UnitError::RawConversion { .. } => UnitErrorKind::RawConversion,
            UnitError::InvalidValue { .. } => UnitErrorKind::InvalidValue,
        }
    }

    /// The text that caused this error.
    pub open spec fn raw_text(&self) -> Seq<char> {
        match self {
            UnitError::RawConversion { raw } => raw@,
            UnitError::InvalidValue { raw } => raw@,
        }
    }

    /// Creates a [`UnitError::RawConversion`] for the given text.
    pub fn raw_conversion(raw: &str) -> (e: UnitError)
        ensures
            e.kind() == UnitErrorKind::RawConversion,
            e.raw_text() == raw@,
    {
        UnitError::RawConversion { raw: String::from_str(raw) }
    }

    /// Creates a [`UnitError::InvalidValue`] for the given text.
    pub fn invalid_value(raw: &str) -> (e: UnitError)
        ensures
            e.kind() == UnitErrorKind::InvalidValue,
            e.raw_text() == raw@,
    {
        UnitError::InvalidValue { raw: String::from_str(raw) }
    }

    /// The text that [`UnitError::message`] gives.
    pub open spec fn message_text(&self) -> Seq<char> {
        let prefix = match self.kind() {
            UnitErrorKind::RawConversion => "could not convert raw value: "@,
            UnitErrorKind::InvalidValue => "invalid value: "@,
        };
        prefix + self.raw_text()
    }

    /// Describes this error in words.
    pub fn message(&self) -> (m: String)
        ensures
            m@ == self.message_text(),
    {
        match self {
            UnitError::RawConversion { raw } => {
                let mut m = String::from_str("could not convert raw value: ");
                m.append(raw.as_str());
                m
            },
            UnitError::InvalidValue { raw } => {
                let mut m = String::from_str("invalid value: ");
                m.append(raw.as_str());
                m
            },
        }
    }
}

/// A type whose values can be read from and written to a sysfs file as text.
pub trait Raw: Sized {
    /// The value that the raw text `raw` denotes, or the kind of error it gives.
    spec fn spec_decode(raw: Seq<char>) -> Result<Self, UnitErrorKind>;

    /// The raw text that represents this value.
    spec fn spec_encode(&self) -> Seq<char>;

    /// Whether this is a value that the type's constructors can give.
    spec fn spec_valid(&self) -> bool;

    /// Converts raw text (already trimmed) into a value of this type.
    fn from_raw(raw: &str) -> (r: Result<Self, UnitError>)
        ensures
            match r {
                Ok(v) => Self::spec_decode(raw@) == Ok::<Self, UnitErrorKind>(v) && v.spec_valid(),
                Err(e) => Self::spec_decode(raw@) == Err::<Self, UnitErrorKind>(e.kind())
                    && e.raw_text() == raw@,
            },
    ;

    /// Converts this value into the raw text that sysfs expects.
    fn to_raw(&self) -> (raw: String)
        ensures
            raw@ == self.spec_encode(),
    ;

    /// The raw text of a value converts back into the same value, and holds no white space
    /// at its ends, so that trimming a file's contents keeps it intact.
    proof fn lemma_raw_round_trip(v: Self)
        requires
            v.spec_valid(),
        ensures
            Self::spec_decode(v.spec_encode()) == Ok::<Self, UnitErrorKind>(v),
            spec_trim(v.spec_encode()) == v.spec_encode(),
    ;
}

impl Raw for bool {
    open spec fn spec_decode(raw: Seq<char>) -> Result<bool, UnitErrorKind> {
        if raw == "1"@ {
            Ok(true)
        } else if raw == "0"@ {
            Ok(false)
        } else {
            Err(UnitErrorKind::RawConversion)
        }
    }

    open spec fn spec_valid(&self) -> bool {
        true
    }

    open spec fn spec_encode(&self) -> Seq<char> {
        if *self {
            "1"@
        } else {
            "0"@
        }
    }

    fn from_raw(raw: &str) -> (r: Result<bool, UnitError>) {
        if same_text(raw, "1") {
            Ok(true)
        } else if same_text(raw, "0") {
            Ok(false)
        } else {
            Err(UnitError::raw_conversion(raw))
        }
    }

    fn to_raw(&self) -> (raw: String) {
        if *self {
            String::from_str("1")
        } else {
            String::from_str("0")
        }
    }

    proof fn lemma_raw_round_trip(v: bool) {
        reveal_strlit("1");
        reveal_strlit("0");
        assert("1"@ != "0"@) by {
            assert("1"@[0] != "0"@[0]);
        }
        lemma_trim_unchanged(v.spec_encode());
    }
}

/// A temperature. Its raw text is the number of millidegrees Celsius.
#[derive(Debug, Clone, Copy, PartialEq, Eq, Structural)]
pub struct Temperature {
    /// The number that the raw text holds.
    pub millidegrees: i32,
}

impl Temperature {
    /// Creates a value from a number of millidegrees Celsius.
    pub fn from_millidegrees_celsius(millidegrees: i32) -> (v: Temperature)
        ensures
            v.millidegrees == millidegrees,
    {
        Temperature { millidegrees }
    }

    /// Returns the number of millidegrees Celsius.
    pub fn as_millidegrees_celsius(&self) -> (n: i32)
        ensures
            n == self.millidegrees,
    {
        self.millidegrees
    }
}

impl Raw for Temperature {
    open spec fn spec_decode(raw: Seq<char>) -> Result<Temperature, UnitErrorKind> {
        match spec_parse_signed(raw, i32::MIN as int, i32::MAX as int) {
            Some(n) => Ok(Temperature { millidegrees: n as i32 }),
            None => Err(UnitErrorKind::RawConversion),
        }
    }

    open spec fn spec_valid(&self) -> bool {
        true
    }

    open spec fn spec_encode(&self) -> Seq<char> {
        signed_decimal(self.millidegrees as int)
    }

    fn from_raw(raw: &str) -> (r: Result<Temperature, UnitError>) {
        match parse_signed(raw, i32::MIN as i64, i32::MAX as i64) {
            Some(n) => Ok(Temperature { millidegrees: n as i32 }),
            None => Err(UnitError::raw_conversion(raw)),
        }
    }

    fn to_raw(&self) -> (raw: String) {
        format_signed(self.millidegrees as i64)
    }

    proof fn lemma_raw_round_trip(v: Temperature) {
        lemma_parse_signed_decimal(v.millidegrees as int, i32::MIN as int, i32::MAX as int);
        lemma_trim_signed_decimal(v.millidegrees as int);
    }
}

/// A voltage. Its raw text is the number of millivolts.
#[derive(Debug, Clone, Copy, PartialEq, Eq, Structural)]
pub struct Voltage {
    /// The number that the raw text holds.
    pub millivolts: i32,
}

impl Voltage {
    /// Creates a value from a number of millivolts.
    pub fn from_millivolts(millivolts: i32) -> (v: Voltage)
        ensures
            v.millivolts == millivolts,
    {
        Voltage { millivolts }
    }

    /// Returns the number of millivolts.
    pub fn as_millivolts(&self) -> (n: i32)
        ensures
            n == self.millivolts,
    {
        self.millivolts
    }
}

impl Raw for Voltage {
    open spec fn spec_decode(raw: Seq<char>) -> Result<Voltage, UnitErrorKind> {
        match spec_parse_signed(raw, i32::MIN as int, i32::MAX as int) {
            Some(n) => Ok(Voltage { millivolts: n as i32 }),
            None => Err(UnitErrorKind::RawConversion),
        }
    }

    open spec fn spec_valid(&self) -> bool {
        true
    }

    open spec fn spec_encode(&self) -> Seq<char> {
        signed_decimal(self.millivolts as int)
    }

    fn from_raw(raw: &str) -> (r: Result<Voltage, UnitError>) {
        match parse_signed(raw, i32::MIN as i64, i32::MAX as i64) {
            Some(n) => Ok(Voltage { millivolts: n as i32 }),
            None => Err(UnitError::raw_conversion(raw)),
        }
    }

    fn to_raw(&self) -> (raw: String) {
        format_signed(self.millivolts as i64)
    }

    proof fn lemma_raw_round_trip(v: Voltage) {
        lemma_parse_signed_decimal(v.millivolts as int, i32::MIN as int, i32::MAX as int);
        lemma_trim_signed_decimal(v.millivolts as int);
    }
}

/// An electric current. Its raw text is the number of milliamperes.
#[derive(Debug, Clone, Copy, PartialEq, Eq, Structural)]
pub struct Current {
    /// The number that the raw text holds.
    pub milliamperes: i32,
}

impl Current {
    /// Creates a value from a number of milliamperes.
    pub fn from_milliamperes(milliamperes: i32) -> (v: Current)
        ensures
            v.milliamperes == milliamperes,
    {
        Current { milliamperes }
    }

    /// Returns the number of milliamperes.
    pub fn as_milliamperes(&self) -> (n: i32)
        ensures
            n == self.milliamperes,
    {
        self.milliamperes
    }
}

impl Raw for Current {
    open spec fn spec_decode(raw: Seq<char>) -> Result<Current, UnitErrorKind> {
        match spec_parse_signed(raw, i32::MIN as int, i32::MAX as int) {
            Some(n) => Ok(Current { milliamperes: n as i32 }),
            None => Err(UnitErrorKind::RawConversion),
        }
    }

    open spec fn spec_valid(&self) -> bool {
        true
    }

    open spec fn spec_encode(&self) -> Seq<char> {
        signed_decimal(self.milliamperes as int)
    }

    fn from_raw(raw: &str) -> (r: Result<Current, UnitError>) {
        match parse_signed(raw, i32::MIN as i64, i32::MAX as i64) {
            Some(n) => Ok(Current { milliamperes: n as i32 }),
            None => Err(UnitError::raw_conversion(raw)),
        }
    }

    fn to_raw(&self) -> (raw: String) {
        format_signed(self.milliamperes as i64)
    }

    proof fn lemma_raw_round_trip(v: Current) {
        lemma_parse_signed_decimal(v.milliamperes as int, i32::MIN as int, i32::MAX as int);
        lemma_trim_signed_decimal(v.milliamperes as int);
    }
}

/// A power. Its raw text is the number of microwatts.
#[derive(Debug, Clone, Copy, PartialEq, Eq, Structural)]
pub struct Power {
    /// The number that the raw text holds.
    pub microwatts: u32,
}

impl Power {
    /// Creates a value from a number of microwatts.
    pub fn from_microwatts(microwatts: u32) -> (v: Power)
        ensures
            v.microwatts == microwatts,
    {
        Power { microwatts }
    }

    /// Returns the number of microwatts.
    pub fn as_microwatts(&self) -> (n: u32)
        ensures
            n == self.microwatts,
    {
        self.microwatts
    }
}

impl Raw for Power {
    open spec fn spec_decode(raw: Seq<char>) -> Result<Power, UnitErrorKind> {
        match spec_parse_unsigned(raw, u32::MAX as nat) {
            Some(n) => Ok(Power { microwatts: n as u32 }),
            None => Err(UnitErrorKind::RawConversion),
        }
    }

    open spec fn spec_valid(&self) -> bool {
        true
    }

    open spec fn spec_encode(&self) -> Seq<char> {
        decimal(self.microwatts as nat)
    }

    fn from_raw(raw: &str) -> (r: Result<Power, UnitError>) {
        match parse_unsigned(raw, u32::MAX as u64) {
            Some(n) => Ok(Power { microwatts: n as u32 }),
            None => Err(UnitError::raw_conversion(raw)),
        }
    }

    fn to_raw(&self) -> (raw: String) {
        format_unsigned(self.microwatts as u64)
    }

    proof fn lemma_raw_round_trip(v: Power) {
        lemma_parse_unsigned_decimal(v.microwatts as nat, u32::MAX as nat);
        lemma_trim_signed_decimal(v.microwatts as int);
    }
}

/// An amount of energy. Its raw text is the number of microjoules.
#[derive(Debug, Clone, Copy, PartialEq, Eq, Structural)]
pub struct Energy {
    /// The number that the raw text holds.
    pub microjoules: u32,
}

impl Energy {
    /// Creates a value from a number of microjoules.
    pub fn from_microjoules(microjoules: u32) -> (v: Energy)
        ensures
            v.microjoules == microjoules,
    {
        Energy { microjoules }
    }

    /// Returns the number of microjoules.
    pub fn as_microjoules(&self) -> (n: u32)
        ensures
            n == self.microjoules,
    {
        self.microjoules
    }
}

impl Raw for Energy {
    open spec fn spec_decode(raw: Seq<char>) -> Result<Energy, UnitErrorKind> {
        match spec_parse_unsigned(raw, u32::MAX as nat) {
            Some(n) => Ok(Energy { microjoules: n as u32 }),
            None => Err(UnitErrorKind::RawConversion),
        }
    }

    open spec fn spec_valid(&self) -> bool {
        true
    }

    open spec fn spec_encode(&self) -> Seq<char> {
        decimal(self.microjoules as nat)
    }

    fn from_raw(raw: &str) -> (r: Result<Energy, UnitError>) {
        match parse_unsigned(raw, u32::MAX as u64) {
            Some(n) => Ok(Energy { microjoules: n as u32 }),
            None => Err(UnitError::raw_conversion(raw)),
        }
    }

    fn to_raw(&self) -> (raw: String) {
        format_unsigned(self.microjoules as u64)
    }

    proof fn lemma_raw_round_trip(v: Energy) {
        lemma_parse_unsigned_decimal(v.microjoules as nat, u32::MAX as nat);
        lemma_trim_signed_decimal(v.microjoules as int);
    }
}

/// The rotational speed of a fan. Its raw text is the number of revolutions per minute.
#[derive(Debug, Clone, Copy, PartialEq, Eq, Structural)]
pub struct AngularVelocity {
    /// The number that the raw text holds.
    pub rpm: u32,
}

impl AngularVelocity {
    /// Creates a value from a number of revolutions per minute.
    pub fn from_rpm(rpm: u32) -> (v: AngularVelocity)
        ensures
            v.rpm == rpm,
    {
        AngularVelocity { rpm }
    }

    /// Returns the number of revolutions per minute.
    pub fn as_rpm(&self) -> (n: u32)
        ensures
            n == self.rpm,
    {
        self.rpm
    }
}

impl Raw for AngularVelocity {
    open spec fn spec_decode(raw: Seq<char>) -> Result<AngularVelocity, UnitErrorKind> {
        match spec_parse_unsigned(raw, u32::MAX as nat) {
            Some(n) => Ok(AngularVelocity { rpm: n as u32 }),
            None => Err(UnitErrorKind::RawConversion),
        }
    }

    open spec fn spec_valid(&self) -> bool {
        true
    }

    open spec fn spec_encode(&self) -> Seq<char> {
        decimal(self.rpm as nat)
    }

    fn from_raw(raw: &str) -> (r: Result<AngularVelocity, UnitError>) {
        match parse_unsigned(raw, u32::MAX as u64) {
            Some(n) => Ok(AngularVelocity { rpm: n as u32 }),
            None => Err(UnitError::raw_conversion(raw)),
        }
    }

    fn to_raw(&self) -> (raw: String) {
        format_unsigned(self.rpm as u64)
    }

    proof fn lemma_raw_round_trip(v: AngularVelocity) {
        lemma_parse_unsigned_decimal(v.rpm as nat, u32::MAX as nat);
        lemma_trim_signed_decimal(v.rpm as int);
    }
}

/// A frequency. Its raw text is the number of hertz.
#[derive(Debug, Clone, Copy, PartialEq, Eq, Structural)]
pub struct Frequency {
    /// The number that the raw text holds.
    pub hertz: u32,
}

impl Frequency {
    /// Creates a value from a number of hertz.
    pub fn from_hertz(hertz: u32) -> (v: Frequency)
        ensures
            v.hertz == hertz,
    {
        Frequency { hertz }
    }

    /// Returns the number of hertz.
    pub fn as_hertz(&self) -> (n: u32)
        ensures
            n == self.hertz,
    {
        self.hertz
    }
}

impl Raw for Frequency {
    open spec fn spec_decode(raw: Seq<char>) -> Result<Frequency, UnitErrorKind> {
        match spec_parse_unsigned(raw, u32::MAX as nat) {
            Some(n) => Ok(Frequency { hertz: n as u32 }),
            None => Err(UnitErrorKind::RawConversion),
        }
    }

    open spec fn spec_valid(&self) -> bool {
        true
    }

    open spec fn spec_encode(&self) -> Seq<char> {
        decimal(self.hertz as nat)
    }

    fn from_raw(raw: &str) -> (r: Result<Frequency, UnitError>) {
        match parse_unsigned(raw, u32::MAX as u64) {
            Some(n) => Ok(Frequency { hertz: n as u32 }),
            None => Err(UnitError::raw_conversion(raw)),
        }
    }

    fn to_raw(&self) -> (raw: String) {
        format_unsigned(self.hertz as u64)
    }

    proof fn lemma_raw_round_trip(v: Frequency) {
        lemma_parse_unsigned_decimal(v.hertz as nat, u32::MAX as nat);
        lemma_trim_signed_decimal(v.hertz as int);
    }
}

/// A ratio, such as a relative humidity. Its raw text is the number of thousandths of a percent.
#[derive(Debug, Clone, Copy, PartialEq, Eq, Structural)]
pub struct Ratio {
    /// The number that the raw text holds.
    pub milli_percent: u32,
}

impl Ratio {
    /// Creates a value from a number of thousandths of a percent.
    pub fn from_milli_percent(milli_percent: u32) -> (v: Ratio)
        ensures
            v.milli_percent == milli_percent,
    {
        Ratio { milli_percent }
    }

    /// Returns the number of thousandths of a percent.
    pub fn as_milli_percent(&self) -> (n: u32)
        ensures
            n == self.milli_percent,
    {
        self.milli_percent
    }
}

impl Raw for Ratio {
    open spec fn spec_decode(raw: Seq<char>) -> Result<Ratio, UnitErrorKind> {
        match spec_parse_unsigned(raw, u32::MAX as nat) {
            Some(n) => Ok(Ratio { milli_percent: n as u32 }),
            None => Err(UnitErrorKind::RawConversion),
        }
    }

    open spec fn spec_valid(&self) -> bool {
        true
    }

    open spec fn spec_encode(&self) -> Seq<char> {
        decimal(self.milli_percent as nat)
    }

    fn from_raw(raw: &str) -> (r: Result<Ratio, UnitError>) {
        match parse_unsigned(raw, u32::MAX as u64) {
            Some(n) => Ok(Ratio { milli_percent: n as u32 }),
            None => Err(UnitError::raw_conversion(raw)),
        }
    }

    fn to_raw(&self) -> (raw: String) {
        format_unsigned(self.milli_percent as u64)
    }

    proof fn lemma_raw_round_trip(v: Ratio) {
        lemma_parse_unsigned_decimal(v.milli_percent as nat, u32::MAX as nat);
        lemma_trim_signed_decimal(v.milli_percent as int);
    }
}

/// A pwm duty cycle, where 0 is off and 255 is full speed. Its raw text is the number of steps of 1/255.
#[derive(Debug, Clone, Copy, PartialEq, Eq, Structural)]
pub struct Pwm {
    /// The number that the raw text holds.
    pub value: u8,
}

impl Pwm {
    /// Creates a value from a number of steps of 1/255.
    pub fn from_u8(value: u8) -> (v: Pwm)
        ensures
            v.value == value,
    {
        Pwm { value }
    }

    /// Returns the number of steps of 1/255.
    pub fn as_u8(&self) -> (n: u8)
        ensures
            n == self.value,
    {
        self.value
    }
}

impl Raw for Pwm {
    open spec fn spec_decode(raw: Seq<char>) -> Result<Pwm, UnitErrorKind> {
        match spec_parse_unsigned(raw, u8::MAX as nat) {
            Some(n) => Ok(Pwm { value: n as u8 }),
            None => Err(UnitErrorKind::RawConversion),
        }
    }

    open spec fn spec_valid(&self) -> bool {
        true
    }

    open spec fn spec_encode(&self) -> Seq<char> {
        decimal(self.value as nat)
    }

    fn from_raw(raw: &str) -> (r: Result<Pwm, UnitError>) {
        match parse_unsigned(raw, u8::MAX as u64) {
            Some(n) => Ok(Pwm { value: n as u8 }),
            None => Err(UnitError::raw_conversion(raw)),
        }
    }

    fn to_raw(&self) -> (raw: String) {
        format_unsigned(self.value as u64)
    }

    proof fn lemma_raw_round_trip(v: Pwm) {
        lemma_parse_unsigned_decimal(v.value as nat, u8::MAX as nat);
        lemma_trim_signed_decimal(v.value as int);
    }
}

/// A span of time, such as an averaging interval. Its raw text is the number of milliseconds.
#[derive(Debug, Clone, Copy, PartialEq, Eq, Structural)]
pub struct Duration {
    /// The number that the raw text holds.
    pub millis: u64,
}

impl Duration {
    /// Creates a value from a number of milliseconds.
    pub fn from_millis(millis: u64) -> (v: Duration)
        ensures
            v.millis == millis,
    {
        Duration { millis }
    }

    /// Returns the number of milliseconds.
    pub fn as_millis(&self) -> (n: u64)
        ensures
            n == self.millis,
    {
        self.millis
    }
}

impl Raw for Duration {
    open spec fn spec_decode(raw: Seq<char>) -> Result<Duration, UnitErrorKind> {
        match spec_parse_unsigned(raw, u64::MAX as nat) {
            Some(n) => Ok(Duration { millis: n as u64 }),
            None => Err(UnitErrorKind::RawConversion),
        }
    }

    open spec fn spec_valid(&self) -> bool {
        true
    }

    open spec fn spec_encode(&self) -> Seq<char> {
        decimal(self.millis as nat)
    }

    fn from_raw(raw: &str) -> (r: Result<Duration, UnitError>) {
        match parse_unsigned(raw, u64::MAX as u64) {
            Some(n) => Ok(Duration { millis: n as u64 }),
            None => Err(UnitError::raw_conversion(raw)),
        }
    }

    fn to_raw(&self) -> (raw: String) {
        format_unsigned(self.millis as u64)
    }

    proof fn lemma_raw_round_trip(v: Duration) {
        lemma_parse_unsigned_decimal(v.millis as nat, u64::MAX as nat);
        lemma_trim_signed_decimal(v.millis as int);
    }
}

/// The control mode of a pwm output.
#[derive(Debug, Clone, Copy, PartialEq, Eq, Structural)]
pub enum PwmEnable {
    /// No fan speed control: the fan runs at full speed.
    FullSpeed,
    /// The pwm value is set by the user.
    ManualControl,
    /// The firmware controls the fan speed.
    BiosControl,
}

impl Raw for PwmEnable {
    open spec fn spec_decode(raw: Seq<char>) -> Result<PwmEnable, UnitErrorKind> {
        if raw == "0"@ {
            Ok(PwmEnable::FullSpeed)
        } else if raw == "1"@ {
            Ok(PwmEnable::ManualControl)
        } else if raw == "2"@ {
            Ok(PwmEnable::BiosControl)
        } else {
            Err(UnitErrorKind::RawConversion)
        }
    }

    open spec fn spec_valid(&self) -> bool {
        true
    }

    open spec fn spec_encode(&self) -> Seq<char> {
        match self {
            PwmEnable::FullSpeed => "0"@,
            PwmEnable::ManualControl => "1"@,
            PwmEnable::BiosControl => "2"@,
        }
    }

    fn from_raw(raw: &str) -> (r: Result<PwmEnable, UnitError>) {
        if same_text(raw, "0") {
            Ok(PwmEnable::FullSpeed)
        } else if same_text(raw, "1") {
            Ok(PwmEnable::ManualControl)
        } else if same_text(raw, "2") {
            Ok(PwmEnable::BiosControl)
        } else {
            Err(UnitError::raw_conversion(raw))
        }
    }

    fn to_raw(&self) -> (raw: String) {
        match self {
            PwmEnable::FullSpeed => String::from_str("0"),
            PwmEnable::ManualControl => String::from_str("1"),
            PwmEnable::BiosControl => String::from_str("2"),
        }
    }

    proof fn lemma_raw_round_trip(v: PwmEnable) {
        reveal_strlit("0");
        reveal_strlit("1");
        reveal_strlit("2");
        assert("1"@[0] != "0"@[0]);
        assert("2"@[0] != "0"@[0]);
        assert("2"@[0] != "1"@[0]);
        lemma_trim_unchanged(v.spec_encode());
    }
}

/// The signal that a pwm output drives its fan with.
#[derive(Debug, Clone, Copy, PartialEq, Eq, Structural)]
pub enum PwmMode {
    /// Direct current.
    Dc,
    /// Pulse width modulation.
    Pwm,
    /// The chip chooses.
    Automatic,
}

impl Raw for PwmMode {
    open spec fn spec_decode(raw: Seq<char>) -> Result<PwmMode, UnitErrorKind> {
        if raw == "0"@ {
            Ok(PwmMode::Dc)
        } else if raw == "1"@ {
            Ok(PwmMode::Pwm)
        } else if raw == "2"@ {
            Ok(PwmMode::Automatic)
        } else {
            Err(UnitErrorKind::RawConversion)
        }
    }

    open spec fn spec_valid(&self) -> bool {
        true
    }

    open spec fn spec_encode(&self) -> Seq<char> {
        match self {
            PwmMode::Dc => "0"@,
            PwmMode::Pwm => "1"@,
            PwmMode::Automatic => "2"@,
        }
    }

    fn from_raw(raw: &str) -> (r: Result<PwmMode, UnitError>) {
        if same_text(raw, "0") {
            Ok(PwmMode::Dc)
        } else if same_text(raw, "1") {
            Ok(PwmMode::Pwm)
        } else if same_text(raw, "2") {
            Ok(PwmMode::Automatic)
        } else {
            Err(UnitError::raw_conversion(raw))
        }
    }

    fn to_raw(&self) -> (raw: String) {
        match self {
            PwmMode::Dc => String::from_str("0"),
            PwmMode::Pwm => String::from_str("1"),
            PwmMode::Automatic => String::from_str("2"),
        }
    }

    proof fn lemma_raw_round_trip(v: PwmMode) {
        reveal_strlit("0");
        reveal_strlit("1");
        reveal_strlit("2");
        assert("1"@[0] != "0"@[0]);
        assert("2"@[0] != "0"@[0]);
        assert("2"@[0] != "1"@[0]);
        lemma_trim_unchanged(v.spec_encode());
    }
}

/// The kind of a temperature sensor.
#[derive(Debug, Clone, Copy, PartialEq, Eq, Structural)]
pub enum TempType {
    /// A diode embedded in a CPU.
    CpuEmbeddedDiode,
    /// A 3904 transistor.
    Transistor,
    /// A thermal diode.
    ThermalDiode,
    /// A thermistor.
    Thermistor,
    /// AMD's AMDSI interface.
    AmdAmdsi,
    /// Intel's PECI interface.
    IntelPeci,
}

impl Raw for TempType {
    open spec fn spec_decode(raw: Seq<char>) -> Result<TempType, UnitErrorKind> {
        if raw == "1"@ {
            Ok(TempType::CpuEmbeddedDiode)
        } else if raw == "2"@ {
            Ok(TempType::Transistor)
        } else if raw == "3"@ {
            Ok(TempType::ThermalDiode)
        } else if raw == "4"@ {
            Ok(TempType::Thermistor)
        } else if raw == "5"@ {
            Ok(TempType::AmdAmdsi)
        } else if raw == "6"@ {
            Ok(TempType::IntelPeci)
        } else {
            Err(UnitErrorKind::RawConversion)
        }
    }

    open spec fn spec_valid(&self) -> bool {
        true
    }

    open spec fn spec_encode(&self) -> Seq<char> {
        match self {
            TempType::CpuEmbeddedDiode => "1"@,
            TempType::Transistor => "2"@,
            TempType::ThermalDiode => "3"@,
            TempType::Thermistor => "4"@,
            TempType::AmdAmdsi => "5"@,
            TempType::IntelPeci => "6"@,
        }
    }

    fn from_raw(raw: &str) -> (r: Result<TempType, UnitError>) {
        if same_text(raw, "1") {
            Ok(TempType::CpuEmbeddedDiode)
        } else if same_text(raw, "2") {
            Ok(TempType::Transistor)
        } else if same_text(raw, "3") {
            Ok(TempType::ThermalDiode)
        } else if same_text(raw, "4") {
            Ok(TempType::Thermistor)
        } else if same_text(raw, "5") {
            Ok(TempType::AmdAmdsi)
        } else if same_text(raw, "6") {
            Ok(TempType::IntelPeci)
        } else {
            Err(UnitError::raw_conversion(raw))
        }
    }

    fn to_raw(&self) -> (raw: String) {
        match self {
            TempType::CpuEmbeddedDiode => String::from_str("1"),
            TempType::Transistor => String::from_str("2"),
            TempType::ThermalDiode => String::from_str("3"),
            TempType::Thermistor => String::from_str("4"),
            TempType::AmdAmdsi => String::from_str("5"),
            TempType::IntelPeci => String::from_str("6"),
        }
    }

    proof fn lemma_raw_round_trip(v: TempType) {
        reveal_strlit("1");
        reveal_strlit("2");
        reveal_strlit("3");
        reveal_strlit("4");
        reveal_strlit("5");
        reveal_strlit("6");
        assert("2"@[0] != "1"@[0]);
        assert("3"@[0] != "1"@[0]);
        assert("3"@[0] != "2"@[0]);
        assert("4"@[0] != "1"@[0]);
        assert("4"@[0] != "2"@[0]);
        assert("4"@[0] != "3"@[0]);
        assert("5"@[0] != "1"@[0]);
        assert("5"@[0] != "2"@[0]);
        assert("5"@[0] != "3"@[0]);
        assert("5"@[0] != "4"@[0]);
        assert("6"@[0] != "1"@[0]);
        assert("6"@[0] != "2"@[0]);
        assert("6"@[0] != "3"@[0]);
        assert("6"@[0] != "4"@[0]);
        assert("6"@[0] != "5"@[0]);
        lemma_trim_unchanged(v.spec_encode());
    }
}

/// Whether `d` is a power of two.
pub open spec fn is_power_of_two(d: nat) -> bool
    decreases d,
{
    if d <= 1 {
        d == 1
    } else {
        d % 2 == 0 && is_power_of_two(d / 2)
    }
}

/// Whether `d` is a power of two.
fn check_power_of_two(d: u32) -> (r: bool)
    ensures
        r == is_power_of_two(d as nat),
{
    let mut m = d;
    while m > 1 && m % 2 == 0
        invariant
            is_power_of_two(m as nat) == is_power_of_two(d as nat),
        decreases m,
    {
        m = m / 2;
    }
    m == 1
}

/// The divisor of a fan's speed measurement; always a power of two.
#[derive(Debug, Clone, Copy, PartialEq, Eq, Structural)]
pub struct FanDivisor {
    divisor: u32,
}

impl FanDivisor {
    /// The divisor.
    pub closed spec fn spec_divisor(&self) -> u32 {
        self.divisor
    }

    #[verifier::type_invariant]
    spec fn divisor_is_power_of_two(&self) -> bool {
        is_power_of_two(self.divisor as nat)
    }

    /// Creates a divisor; `None` where `divisor` is not a power of two.
    pub fn try_from_divisor(divisor: u32) -> (r: Option<FanDivisor>)
        ensures
            r matches Some(d) ==> d.spec_divisor() == divisor,
            r is None <==> !is_power_of_two(divisor as nat),
    {
        if check_power_of_two(divisor) {
            Some(FanDivisor { divisor })
        } else {
            None
        }
    }

    /// Returns the divisor.
    pub fn as_divisor(&self) -> (d: u32)
        ensures
            d == self.spec_divisor(),
            is_power_of_two(d as nat),
    {
        proof {
            use_type_invariant(self);
        }
        self.divisor
    }
}

impl Raw for FanDivisor {
    closed spec fn spec_decode(raw: Seq<char>) -> Result<FanDivisor, UnitErrorKind> {
        match spec_parse_unsigned(raw, u32::MAX as nat) {
            Some(n) => if is_power_of_two(n) {
                Ok(FanDivisor { divisor: n as u32 })
            } else {
                Err(UnitErrorKind::InvalidValue)
            },
            None => Err(UnitErrorKind::RawConversion),
        }
    }

    open spec fn spec_valid(&self) -> bool {
        is_power_of_two(self.spec_divisor() as nat)
    }

    closed spec fn spec_encode(&self) -> Seq<char> {
        decimal(self.divisor as nat)
    }

    fn from_raw(raw: &str) -> (r: Result<FanDivisor, UnitError>) {
        match parse_unsigned(raw, u32::MAX as u64) {
            Some(n) => match FanDivisor::try_from_divisor(n as u32) {
                Some(d) => Ok(d),
                None => Err(UnitError::invalid_value(raw)),
            },
            None => Err(UnitError::raw_conversion(raw)),
        }
    }

    fn to_raw(&self) -> (raw: String) {
        format_unsigned(self.divisor as u64)
    }

    proof fn lemma_raw_round_trip(v: FanDivisor) {
        lemma_parse_unsigned_decimal(v.divisor as nat, u32::MAX as nat);
        lemma_trim_signed_decimal(v.divisor as int);
    }
}

} // verus!
