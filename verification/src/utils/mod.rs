//! Plain helpers: angle arithmetic, colour-space conversions and colour
//! strings.
pub mod color;
pub mod math;
pub mod string;
