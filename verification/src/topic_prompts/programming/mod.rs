//! Topics on programming.

pub mod rust;
