//! Small helpers around the boot sequence.

pub mod cstring;
