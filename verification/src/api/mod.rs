//! Talking to the pkl server and acting as an external reader.
pub mod decoder;
pub mod evaluator;
pub mod external_reader;
pub mod reader;

pub use decoder::pkl_eval_module;
