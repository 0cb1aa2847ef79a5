pub mod msgapi;
pub mod type_constants;
pub mod types;

pub use types::{IPklValue, ObjectMember, PklNonPrimitive, PklPrimitive};
