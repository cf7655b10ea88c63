//! All PS/2 command codes, by whom they address.

pub mod controller;
pub mod device;
