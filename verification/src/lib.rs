//! Turns a machine-computed route (legs of steps with encoded geometry and
//! per-segment telemetry) into timed, localized voice announcements and
//! banner texts for a navigation UI.
//!
//! Distances are held as fixed-point integers: every `Distance` stores its
//! value normalized to tenths of nanometers (1 meter = 10^10 base units),
//! which makes the meter/kilometer/mile/foot conversion factors and every
//! spoken-rounding boundary exact. Public constructors and getters speak in
//! millionths of a unit ("micro-units"); speeds are in thousandths of a
//! meter per second.

pub mod banner_instruction;
pub mod bundler;
pub mod distance;
pub mod extensions;
pub mod geometry;
pub mod instructions;
pub mod json;
pub mod locale;
pub mod models;
pub mod speed_class;
pub mod spoken_distance;
pub mod spoken_numbers;
pub mod utilities;
pub mod voice_announcements;
pub mod voice_instructions;
