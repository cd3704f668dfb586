pub mod bcd_version;
pub mod device;
pub mod device_builder;
pub mod device_class;
pub mod device_descriptor;
pub mod device_device_class;
pub mod device_intrinsics;
pub mod device_node;
