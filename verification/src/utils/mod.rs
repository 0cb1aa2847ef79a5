pub mod duration;
pub mod string_map;
pub mod text;
