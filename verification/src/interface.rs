pub mod interface;
pub mod interface_builder;
pub mod interface_class;
pub mod interface_descriptor;
pub mod interface_device_class;
pub mod interface_intrinics;
pub mod interface_node;
