pub mod pkl_mod;
pub mod serializer;

pub use crate::value::IntSeq;
pub use pkl_mod::PklMod;
pub use serializer::PklSerialize;
