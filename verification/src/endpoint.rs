pub mod direction;
pub mod endpoint;
pub mod endpoint_address;
pub mod endpoint_attributes;
pub mod endpoint_builder;
pub mod endpoint_descriptor;
pub mod endpoint_intrinsics;
pub mod sync_type;
pub mod transfer_type;
pub mod usage_type;
