//! A bridge between a managed host and an embedded WebAssembly engine.
//!
//! The host refers to live module instances by numeric handles, copies bytes
//! in and out of their linear memories, calls their exported functions and
//! serves the functions they import. Arguments and results cross the boundary
//! as 64-bit integers; this crate checks every handle, range, arity and value
//! kind on the way, and states what it does in contracts that Verus proves.
//!
//! The engine's values can hold floating-point numbers, which verified code
//! here never touches: the crate works on their bit patterns ([`WasmValue`]),
//! and the two places where the engine takes or hands out its own values, the
//! call of an exported function and the registration of a host function, are
//! left to the embedding code, which this crate hands the values to.

pub mod call;
pub mod engine;
pub mod error;
pub mod export;
pub mod host;
pub mod memory;
pub mod table;
pub mod value;

pub use call::{execute, finish_call};
pub use error::StringErr;
pub use host::{create_host, HostFunction};
pub use memory::{get_memory, set_memory};
pub use table::{close, InstanceContext, InstanceTable};
pub use value::{decode_values, encode_values, ValueType, WasmValue};
