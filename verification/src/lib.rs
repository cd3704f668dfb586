//! Compiles the description of a USB device, with its configurations,
//! interfaces, endpoints and strings, into the descriptors that the device
//! hands to its host, as bytes, each under the value by which the host
//! asks for it.

pub mod configuration;
pub mod device;
pub mod endpoint;
pub mod hid;
pub mod interface;
pub mod report;
pub mod string;

pub mod binary;
pub mod class_pairs;
pub mod descriptor;
pub mod descriptor_store;
pub mod descriptor_type;
pub mod descriptors;
pub mod descriptors_builder;
pub mod error;
pub mod laws;
pub mod model;
pub mod numbering;
pub mod placement;
pub mod record;
pub mod store_laws;
pub mod store_numbering;
pub mod store_placement;
pub mod table;
pub mod validity;
pub mod version;
