pub mod hid_builder;
pub mod hid_descriptor;
