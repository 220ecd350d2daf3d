//! Target-layout helpers for the wasm backend.
use vstd::prelude::*;
use target_lexicon::{Architecture, Triple};
use crate::wasm::model::ValTy;
use crate::wasm::program::{LayoutTable, MirFunction, Program, TypeId, ValueRepr};

verus! {

/// The architecture of a target triple, as far as the backend cares.
#[derive(Clone, Copy, Debug, PartialEq, Eq, Structural)]
pub enum Arch {
    Wasm32,
    Wasm64,
    Other,
}

/// The architecture that `target_lexicon` parses from `triple`, or `None`
/// when it does not parse.
pub uninterp spec fn triple_architecture(triple: Seq<char>) -> Option<Arch>;

/// `target_lexicon::Triple::from_str`, reduced to the architecture. Claimed:
/// the result depends on the text alone, and `wasm32-wasip1` parses with the
/// `wasm32` architecture (its first part is that architecture's name, and
/// `wasip1` is an operating system's).
#[verifier::external_body]
fn parse_architecture(triple: &str) -> (arch: Option<Arch>)
    ensures
        arch == triple_architecture(triple@),
        triple@ == "wasm32-wasip1"@ ==> arch == Some(Arch::Wasm32),
{
    match triple.parse::<Triple>() {
        Ok(parsed) => Some(match parsed.architecture {
            Architecture::Wasm32 => Arch::Wasm32,
            Architecture::Wasm64 => Arch::Wasm64,
            _ => Arch::Other,
        }),
        Err(_) => None,
    }
}

/// Whether a parsed architecture is 32- or 64-bit WebAssembly.
pub fn is_wasm_architecture(arch: Option<Arch>) -> (r: bool)
    ensures
        r == (arch == Some(Arch::Wasm32) || arch == Some(Arch::Wasm64)),
{
    match arch {
        Some(Arch::Wasm32) | Some(Arch::Wasm64) => true,
        _ => false,
    }
}

/// Whether `triple` is a 32/64-bit WebAssembly target.
pub fn is_wasm_target(triple: &str) -> (r: bool)
    ensures
        r == (triple_architecture(triple@) == Some(Arch::Wasm32)
            || triple_architecture(triple@) == Some(Arch::Wasm64)),
        triple@ == "wasm32-wasip1"@ ==> r,
{
    is_wasm_architecture(parse_architecture(triple))
}

/// `ty` names an entry of the layout table.
pub open spec fn known(layouts: &LayoutTable, ty: TypeId) -> bool {
    ty.0 < layouts.types@.len()
}

/// The wasm value type of `ty`: `int` is 64-bit, pointers follow the target
/// pointer width, `float` is `f64` (or `f32` for 4-byte floats), `void` is
/// carried as `i32`.
pub open spec fn spec_valtype(layouts: &LayoutTable, ty: TypeId) -> ValTy {
    let info = layouts.types@[ty.0 as int];
    match info.repr {
        ValueRepr::Float => if info.size == 4 { ValTy::F32 } else { ValTy::F64 },
        ValueRepr::Void => ValTy::I32,
        ValueRepr::Pointer => if layouts.pointer_size <= 4 { ValTy::I32 } else { ValTy::I64 },
        ValueRepr::Integer => if info.size <= 4 { ValTy::I32 } else { ValTy::I64 },
    }
}

/// Maps a semantic type to its wasm value type via the layout table.
pub fn valtype(layouts: &LayoutTable, ty: TypeId) -> (r: ValTy)
    requires
        known(layouts, ty),
    ensures
        r == spec_valtype(layouts, ty),
{
    let info = layouts.types[ty.0];
    match info.repr {
        ValueRepr::Float => if info.size == 4 { ValTy::F32 } else { ValTy::F64 },
        ValueRepr::Void => ValTy::I32,
        ValueRepr::Pointer => if layouts.pointer_size <= 4 { ValTy::I32 } else { ValTy::I64 },
        ValueRepr::Integer => if info.size <= 4 { ValTy::I32 } else { ValTy::I64 },
    }
}

/// How many declared parameters of `function` are read from its locals.
pub open spec fn declared_params(function: &MirFunction) -> int {
    if function.parameter_count < function.locals@.len() {
        function.parameter_count as int
    } else {
        function.locals@.len() as int
    }
}

/// Every type the signature of `function` looks up is in the table.
pub open spec fn signature_known(layouts: &LayoutTable, function: &MirFunction) -> bool {
    &&& !function.is_poll && function.frame_param is None ==> forall|i: int|
        0 <= i < declared_params(function) ==> (#[trigger] function.locals@[i] matches Some(ty)
            ==> known(layouts, ty))
    &&& !function.is_poll ==> (function.return_type matches Some(ty) ==> known(layouts, ty))
}

/// The wasm parameter types of `function`: `(frame, out)` for a poll entry,
/// the frame pointer for an async body, else its declared parameters.
pub open spec fn signature_params(layouts: &LayoutTable, function: &MirFunction) -> Seq<ValTy> {
    if function.is_poll {
        seq![ValTy::I32, ValTy::I32]
    } else if function.frame_param is Some {
        seq![ValTy::I32]
    } else {
        Seq::new(
            declared_params(function) as nat,
            |i: int|
                match function.locals@[i] {
                    Some(ty) => spec_valtype(layouts, ty),
                    None => ValTy::I32,
                },
        )
    }
}

/// The wasm result type of `function`; none for `void`.
pub open spec fn signature_result(layouts: &LayoutTable, function: &MirFunction) -> Option<ValTy> {
    if function.is_poll {
        Some(ValTy::I32)
    } else {
        match function.return_type {
            Some(ty) => if layouts.types@[ty.0 as int].repr == ValueRepr::Void {
                None
            } else {
                Some(spec_valtype(layouts, ty))
            },
            None => None,
        }
    }
}

/// The wasm signature `(params, result)` of a MIR function.
///
/// Async bodies take a single frame pointer (or `(frame, out)` for a poll
/// state-machine entry); declared parameters are read from frame slots.
pub fn wasm_signature(layouts: &LayoutTable, function: &MirFunction) -> (sig: (Vec<ValTy>, Option<ValTy>))
    requires
        signature_known(layouts, function),
    ensures
        sig.0@ == signature_params(layouts, function),
        sig.1 == signature_result(layouts, function),
{
    if function.is_poll {
        let params = vec![ValTy::I32, ValTy::I32];
        assert(params@ =~= signature_params(layouts, function));
        return (params, Some(ValTy::I32));
    }
    let mut params: Vec<ValTy> = Vec::new();
    if function.frame_param.is_some() {
        params.push(ValTy::I32);
        assert(params@ =~= signature_params(layouts, function));
    } else {
        let n = if function.parameter_count < function.locals.len() {
            function.parameter_count
        } else {
            function.locals.len()
        };
        let mut i: usize = 0;
        while i < n
            invariant
                n == declared_params(function),
                !function.is_poll,
                function.frame_param is None,
                signature_known(layouts, function),
                i <= n,
                params@ =~= signature_params(layouts, function).take(i as int),
            decreases n - i,
        {
            let t = match function.locals[i] {
                Some(ty) => valtype(layouts, ty),
                None => ValTy::I32,
            };
            params.push(t);
            i = i + 1;
        }
        assert(params@ =~= signature_params(layouts, function));
    }
    let result = match function.return_type {
        Some(ty) => {
            if matches!(layouts.types[ty.0].repr, ValueRepr::Void) {
                None
            } else {
                Some(valtype(layouts, ty))
            }
        },
        None => None,
    };
    (params, result)
}

/// Every function signature of `program` looks up known types only.
pub open spec fn signatures_known(program: &Program) -> bool {
    forall|i: int| 0 <= i < program.functions@.len()
        ==> #[trigger] signature_known(&program.layouts, &program.functions@[i])
}

/// Returns the wasm signature of every function of `program`, in order.
pub fn function_types(program: &Program) -> (types: Vec<(Vec<ValTy>, Option<ValTy>)>)
    requires
        signatures_known(program),
    ensures
        types@.len() == program.functions@.len(),
        forall|i: int| 0 <= i < types@.len() ==> {
            &&& (#[trigger] types@[i]).0@ == signature_params(&program.layouts, &program.functions@[i])
            &&& types@[i].1 == signature_result(&program.layouts, &program.functions@[i])
        },
{
    let mut types: Vec<(Vec<ValTy>, Option<ValTy>)> = Vec::new();
    let mut i: usize = 0;
    while i < program.functions.len()
        invariant
            signatures_known(program),
            i <= program.functions@.len(),
            types@.len() == i,
            forall|j: int| 0 <= j < i ==> {
                &&& (#[trigger] types@[j]).0@ == signature_params(&program.layouts, &program.functions@[j])
                &&& types@[j].1 == signature_result(&program.layouts, &program.functions@[j])
            },
        decreases program.functions@.len() - i,
    {
        assert(signature_known(&program.layouts, &program.functions@[i as int]));
        let sig = wasm_signature(&program.layouts, &program.functions[i]);
        types.push(sig);
        i = i + 1;
    }
    types
}

} // verus!
