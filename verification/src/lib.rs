//! Logic for a seven-segment temperature display: digit-to-segment
//! encoding, decimal temperature formatting, a fixed-size averaging
//! window for sensor samples, and the decision rules that drive the
//! display refresh and startup sequences.

pub mod format;
pub mod protocol;
pub mod segments;
pub mod window;
