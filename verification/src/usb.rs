//! The USB device side of the driver: the requests that set a device up,
//! and the search of its configuration for a boot-protocol mouse.

pub mod descriptor;
pub mod setup;
