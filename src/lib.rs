//! Signal conditioning and gauge layout for a two-gauge instrument cluster.
//!
//! Raw converter codes are corrected against a reference-rail sample,
//! converted into physical quantities with exact integer arithmetic,
//! and laid out as a list of drawing primitives for a monochrome panel.
pub mod cycle;
pub mod fuel;
pub mod ratio;
pub mod render;
pub mod text;
pub mod thermistor;
pub mod volts;

pub use ratio::{correct, Ratio, CODE_MAX, RATIO_HIGH, RATIO_LOW, RATIO_SCALE};
pub use fuel::{fuel_percent, fuel_percent_from_codes};
pub use thermistor::{thermistor_resistance, Resistance};
pub use volts::{battery_centivolts, code_to_centivolts};
pub use render::{draw_fuel_gauge, draw_temp_gauge, fuel_gauge, temp_gauge, DrawOp};
pub use cycle::{action, next_stage, readings_from_pass, sampling_schedule, Action, Channel, Conversion, Readings, Stage};
