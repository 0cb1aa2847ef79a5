//! Pkl bindings: decoding evaluated modules, the messages exchanged with the pkl server,
//! evaluator options, client-side and external readers, and the code generator's options.
pub mod api;
pub mod cli;
pub mod codegen;
pub mod context;
pub mod decoder;
pub mod error;
pub mod internal;
pub mod msgpack;
pub mod pkl;
pub mod types;
pub mod utils;
pub mod value;

pub use error::Error;
pub use value::PklValue as Value;
