//! Verified core of the Vut WebAssembly backend.
pub mod compiler;
pub mod text;
pub mod wasm;
