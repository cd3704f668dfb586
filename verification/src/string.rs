pub mod language_code;
pub mod string;
pub mod string_builder;
pub mod string_content;
pub mod string_descriptor;
pub mod string_intrinsics;
pub mod utf16;
