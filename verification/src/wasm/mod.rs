//! The WebAssembly backend: runtime helper generators and module layout.
pub mod assemble;
pub mod asyncrt;
pub mod backend;
pub mod builder;
pub mod casts;
pub mod data;
pub mod bytes_ext;
pub mod listx;
pub mod lower;
pub mod mapx;
pub mod metadata;
pub mod mir;
pub mod program;
pub mod str_ops;
pub mod encode;
pub mod fmt;
pub mod imports;
pub mod layout;
pub mod model;
pub mod module;
pub mod rc;
pub mod reach;
pub mod rt_index;
pub mod runtime;
pub mod select;
pub mod semantics;
pub mod laws;
pub mod stdlib;
pub mod strings;
