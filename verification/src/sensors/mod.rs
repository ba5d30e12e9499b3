//! Module containing the sensors and their functionality.

pub mod subfunction_type;

pub use subfunction_type::SensorSubFunctionType;

pub mod error;

pub use error::Error;

pub mod base;

pub use base::{Sensor, WriteableSensor};

pub mod subfunctions;
pub mod curr;
pub mod energy;
pub mod fan;
pub mod humidity;
pub mod intrusion;
pub mod power;
pub mod pwm;
pub mod temp;
pub mod voltage;
pub mod state;
pub mod virt;
pub mod naming;
