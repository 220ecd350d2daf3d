//! The compiler pipeline's error type.
use vstd::prelude::*;
use vstd::string::StringExecFns;
use crate::text::{decimal, push_decimal};
use crate::wasm::backend::CodegenError;

verus! {

/// `std::io::Error`, carried unchanged from the artifact I/O that failed.
#[verifier::external_type_specification]
#[verifier::external_body]
pub struct ExIoError(std::io::Error);

/// Why a compilation failed.
#[derive(Debug)]
pub enum CompileError {
    /// Source discovery failed; the text is the discovery error's message.
    Discover(String),
    /// The program has language errors; the text is the rendered diagnostics.
    Language(String),
    Codegen(CodegenError),
    /// Native linking failed; the text is the linker error's message.
    Link(String),
    Io(std::io::Error),
    MissingEntry,
    InvalidEntry,
    /// The incremental cache failed; the text is the cache error's message.
    Cache(String),
    /// The installed runtime's ABI revision does not match the compiler's.
    AbiMismatch { compiler: u32, runtime: u32 },
}

/// The description a code generation error carries.
pub open spec fn codegen_detail(error: CodegenError) -> Seq<char> {
    match error {
        CodegenError::InvalidTarget(text) => text@,
        CodegenError::Backend(text) => text@,
    }
}

/// The message of an ABI mismatch.
pub open spec fn abi_mismatch_message(compiler: u32, runtime: u32) -> Seq<char> {
    "runtime ABI mismatch: compiler expects "@ + decimal(compiler as nat) + ", installed runtime is "@
        + decimal(runtime as nat) + "; reinstall or update Vut so the compiler and runtime match"@
}

/// The text `std::io::Error`'s `Display` gives. Nothing is stated of it: the
/// operating system supplies the words.
#[verifier::external_body]
fn io_error_text(error: &std::io::Error) -> String {
    error.to_string()
}

impl CompileError {
    /// The user-facing message of every error but `Io`, whose text the
    /// operating system supplies.
    pub open spec fn spec_message(&self) -> Option<Seq<char>> {
        match self {
            CompileError::Discover(e) => Some("source discovery failed: "@ + e@),
            CompileError::Language(d) => Some("compilation failed\n"@ + d@),
            CompileError::Codegen(e) => Some("native code generation failed: "@ + codegen_detail(*e)),
            CompileError::Link(e) => Some("native linking failed: "@ + e@),
            CompileError::Io(_) => None,
            CompileError::MissingEntry => Some("program has no `fn main(...)` entry point"@),
            CompileError::InvalidEntry => Some("`main` must have no parameters and return `void` or `int`"@),
            CompileError::Cache(e) => Some("incremental cache failed: "@ + e@),
            CompileError::AbiMismatch { compiler, runtime } => Some(abi_mismatch_message(*compiler, *runtime)),
        }
    }

    /// The user-facing message of the error.
    pub fn message(&self) -> (text: String)
        ensures
            self.spec_message() matches Some(m) ==> text@ == m,
            self is Io ==> text@.len() >= "artifact I/O failed: "@.len()
                && text@.take("artifact I/O failed: "@.len() as int) == "artifact I/O failed: "@,
    {
        let mut text = String::new();
        match self {
            CompileError::Discover(e) => {
                text.append("source discovery failed: ");
                text.append(e.as_str());
            },
            CompileError::Language(d) => {
                text.append("compilation failed\n");
                text.append(d.as_str());
            },
            CompileError::Codegen(e) => {
                text.append("native code generation failed: ");
                match e {
                    CodegenError::InvalidTarget(t) => text.append(t.as_str()),
                    CodegenError::Backend(t) => text.append(t.as_str()),
                }
            },
            CompileError::Link(e) => {
                text.append("native linking failed: ");
                text.append(e.as_str());
            },
            CompileError::Io(e) => {
                text.append("artifact I/O failed: ");
                let detail = io_error_text(e);
                proof {
                    reveal_strlit("artifact I/O failed: ");
                }
                let ghost before = text@;
                text.append(detail.as_str());
                assert(text@.take(before.len() as int) =~= before);
            },
            CompileError::MissingEntry => {
                text.append("program has no `fn main(...)` entry point");
            },
            CompileError::InvalidEntry => {
                text.append("`main` must have no parameters and return `void` or `int`");
            },
            CompileError::Cache(e) => {
                text.append("incremental cache failed: ");
                text.append(e.as_str());
            },
            CompileError::AbiMismatch { compiler, runtime } => {
                text.append("runtime ABI mismatch: compiler expects ");
                push_decimal(&mut text, *compiler as u64);
                text.append(", installed runtime is ");
                push_decimal(&mut text, *runtime as u64);
                text.append("; reinstall or update Vut so the compiler and runtime match");
            },
        }
        text
    }
}

} // verus!
