pub mod configuration;
pub mod configuration_attributes;
pub mod configuration_builder;
pub mod configuration_descriptor;
pub mod configuration_intrinsics;
pub mod configuration_node;
pub mod milliamperes;
