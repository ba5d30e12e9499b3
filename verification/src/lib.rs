//! A library that models lm_sensor's sysfs interface (`/sys/class/hwmon`).
//!
//! The crate holds everything that decides: which files a sensor uses, how
//! their contents are decoded into typed values, how failed reads and writes
//! are reported, and how the hwmon tree is discovered. The file system itself
//! is reached by the caller, who hands the outcome of each access back in.

pub mod sensors;
pub mod sysfs;
pub mod parsing;
pub mod hwmon;
pub mod text;
pub mod units;

pub use parsing::Error as ParsingError;


use crate::hwmon::parser::{spec_hwmon_root, HwmonsParser, ParseStage};
use crate::hwmon::Hwmons;
use vstd::prelude::*;

verus! {

/// Convenience function for [`Hwmons::parse`]: starts parsing /sys/class/hwmon.
pub fn parse_hwmons() -> (parser: HwmonsParser)
    ensures
        parser.spec_root() == spec_hwmon_root(),
        parser.spec_parsed().len() == 0,
        parser.spec_stage() == ParseStage::Root,
{
    Hwmons::parse()
}

} // verus!
