//! Generator for typed wrapper modules over an EVM contract interface.
//!
//! The crate turns a JSON interface description into the source text of a
//! wrapper module: it selects the eligible functions, computes each one's
//! 4-byte call selector from its canonical signature, maps ABI parameter
//! types to target-language type expressions, and renders a fixed template
//! with those facts.

pub mod abi;
pub mod casing;
pub mod err;
pub mod interface;
pub mod jsoninput;
pub mod mapper;
pub mod pipeline;
pub mod render;
pub mod selector;
pub mod strutil;
