//! Topics on Rust code.

pub mod fix_code;
