//! Construction of `chrono` duration values from plain integers.
//!
//! Each supported time unit carries an exact integer scale factor to
//! nanoseconds; converting an integer means multiplying it by that factor
//! and handing the product to `chrono`. The conversion is a pure function
//! of its inputs: no clock is read and no state is kept.
//!
//! The general entry point, [`to_duration`], accepts any signed 64-bit
//! count and rejects a count whose scaled span leaves the signed 64-bit
//! nanosecond range with [`Overflow`], never truncating or clamping it.
//! The [`NumChronoDuration`] methods on `i32` need no such policy: every
//! 32-bit count scales to a span that `chrono` can hold, in every unit.

pub mod chrono_api;
pub mod convert;

pub use convert::NumChronoDuration;
pub use convert::Overflow;
pub use convert::Unit;
pub use convert::to_duration;
