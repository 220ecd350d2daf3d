//! Host-neutral `InterfaceMetadata` describing a module's exports and imports.
//!
//! Kept host-agnostic so it can later map to JS, TypeScript, or WIT without a
//! compiler ABI redesign.
use vstd::prelude::*;
use vstd::string::StringExecFns;
use crate::text::{decimal, push_decimal};
use crate::wasm::imports::{import_module, wasi_import_names};
use crate::wasm::layout::{signature_known, signature_params, signature_result, wasm_signature};
use crate::wasm::model::ValTy;
use crate::wasm::program::{ExternalFunction, MirFunction, Program, SymbolId};

verus! {

/// The name of a value type in metadata.
pub open spec fn spec_valtype_name(ty: ValTy) -> Seq<char> {
    match ty {
        ValTy::I32 => "i32"@,
        ValTy::I64 => "i64"@,
        ValTy::F32 => "f32"@,
        ValTy::F64 => "f64"@,
    }
}

/// The name of a value type in metadata.
pub fn valtype_name(ty: ValTy) -> (name: &'static str)
    ensures
        name@ == spec_valtype_name(ty),
{
    match ty {
        ValTy::I32 => "i32",
        ValTy::I64 => "i64",
        ValTy::F32 => "f32",
        ValTy::F64 => "f64",
    }
}

/// `items` separated by commas.
pub open spec fn join(items: Seq<Seq<char>>) -> Seq<char>
    decreases items.len(),
{
    if items.len() == 0 {
        Seq::empty()
    } else if items.len() == 1 {
        items[0]
    } else {
        join(items.drop_last()) + ","@ + items.last()
    }
}

/// `text` in double quotes.
pub open spec fn quoted(text: Seq<char>) -> Seq<char> {
    "\""@ + text + "\""@
}

/// The metadata entry of one exported function.
pub open spec fn export_entry(symbol: SymbolId, params: Seq<ValTy>, result: Option<ValTy>) -> Seq<char> {
    "{\"name\":\"vut_fn_"@ + decimal(symbol.0 as nat) + "\",\"params\":["@
        + join(params.map_values(|t: ValTy| quoted(spec_valtype_name(t)))) + "],\"result\":"@
        + (match result {
        Some(t) => quoted(spec_valtype_name(t)),
        None => "null"@,
    }) + "}"@
}

/// The import module of an extern with link name `link`.
pub open spec fn spec_import_module(link: Seq<char>) -> Seq<char> {
    if wasi_import_names().contains(link) {
        "wasi_snapshot_preview1"@
    } else {
        "env"@
    }
}

/// The metadata entry of one import.
pub open spec fn import_entry(module: Seq<char>, name: Seq<char>) -> Seq<char> {
    "{\"module\":\""@ + module + "\",\"name\":\""@ + name + "\"}"@
}

/// The metadata of a module exporting `functions` with entry `entry`,
/// importing `fd_write` and every extern of `program`.
pub open spec fn spec_interface_metadata(program: &Program, functions: Seq<MirFunction>, entry: SymbolId) -> Seq<char> {
    let exports = functions.map_values(
        |f: MirFunction| export_entry(f.symbol, signature_params(&program.layouts, &f), signature_result(&program.layouts, &f)),
    );
    let imports = seq![import_entry("wasi_snapshot_preview1"@, "fd_write"@)]
        + program.external_functions@.map_values(
        |e: ExternalFunction| import_entry(spec_import_module(e.link_name@), e.link_name@),
    );
    "{\"schema\":1,\"entry\":\"vut_fn_"@ + decimal(entry.0 as nat) + "\",\"exports\":["@ + join(exports)
        + "],\"imports\":["@ + join(imports) + "]}"@
}

proof fn lemma_join_push(items: Seq<Seq<char>>, x: Seq<char>)
    ensures
        join(items.push(x)) == if items.len() == 0 { x } else { join(items) + ","@ + x },
{
    assert(items.push(x).drop_last() =~= items);
    if items.len() == 0 {
        assert(items.push(x)[0] == x);
    }
}

/// Appends `items` separated by commas, given each item's text.
fn push_export(s: &mut String, symbol: SymbolId, params: &Vec<ValTy>, result: Option<ValTy>)
    ensures
        final(s)@ == old(s)@ + export_entry(symbol, params@, result),
{
    s.append("{\"name\":\"vut_fn_");
    push_decimal(s, symbol.0 as u64);
    s.append("\",\"params\":[");
    let ghost items = params@.map_values(|t: ValTy| quoted(spec_valtype_name(t)));
    let ghost start = s@;
    let mut i: usize = 0;
    while i < params.len()
        invariant
            items == params@.map_values(|t: ValTy| quoted(spec_valtype_name(t))),
            i <= params@.len(),
            s@ == start + join(items.take(i as int)),
        decreases params@.len() - i,
    {
        proof {
            assert(items.take(i + 1) =~= items.take(i as int).push(items[i as int]));
            lemma_join_push(items.take(i as int), items[i as int]);
        }
        if i > 0 {
            s.append(",");
        }
        s.append("\"");
        s.append(valtype_name(params[i]));
        s.append("\"");
        proof {
            if i == 0 {
                assert(items.take(0) =~= Seq::<Seq<char>>::empty());
            }
        }
        i = i + 1;
    }
    proof {
        assert(items.take(params@.len() as int) =~= items);
    }
    s.append("],\"result\":");
    match result {
        Some(t) => {
            s.append("\"");
            s.append(valtype_name(t));
            s.append("\"");
        },
        None => {
            s.append("null");
        },
    }
    s.append("}");
    proof {
        let r = match result {
            Some(t) => quoted(spec_valtype_name(t)),
            None => "null"@,
        };
        assert(s@ =~= old(s)@ + export_entry(symbol, params@, result));
    }
}

/// Host-neutral `InterfaceMetadata` (JSON) describing the exports
/// (`functions`, each as `vut_fn_<symbol>`) and the imports of a module.
pub fn interface_metadata(program: &Program, functions: &Vec<&MirFunction>, entry: SymbolId) -> (json: String)
    requires
        forall|i: int| 0 <= i < functions@.len() ==> #[trigger] signature_known(&program.layouts, functions@[i]),
    ensures
        json@ == spec_interface_metadata(program, functions@.map_values(|f: &MirFunction| *f), entry),
{
    let ghost fs = functions@.map_values(|f: &MirFunction| *f);
    let ghost exports = fs.map_values(
        |f: MirFunction| export_entry(f.symbol, signature_params(&program.layouts, &f), signature_result(&program.layouts, &f)),
    );
    let mut json = String::new();
    json.append("{\"schema\":1,\"entry\":\"vut_fn_");
    push_decimal(&mut json, entry.0 as u64);
    json.append("\",\"exports\":[");
    let ghost start = json@;
    let mut i: usize = 0;
    while i < functions.len()
        invariant
            fs == functions@.map_values(|f: &MirFunction| *f),
            exports == fs.map_values(
                |f: MirFunction| export_entry(f.symbol, signature_params(&program.layouts, &f), signature_result(&program.layouts, &f)),
            ),
            forall|i: int| 0 <= i < functions@.len() ==> #[trigger] signature_known(&program.layouts, functions@[i]),
            i <= functions@.len(),
            json@ == start + join(exports.take(i as int)),
        decreases functions@.len() - i,
    {
        proof {
            assert(exports.take(i + 1) =~= exports.take(i as int).push(exports[i as int]));
            lemma_join_push(exports.take(i as int), exports[i as int]);
            assert(signature_known(&program.layouts, functions@[i as int]));
        }
        if i > 0 {
            json.append(",");
        }
        let sig = wasm_signature(&program.layouts, functions[i]);
        push_export(&mut json, functions[i].symbol, &sig.0, sig.1);
        proof {
            if i == 0 {
                assert(exports.take(0) =~= Seq::<Seq<char>>::empty());
            }
        }
        i = i + 1;
    }
    proof {
        assert(exports.take(functions@.len() as int) =~= exports);
    }
    json.append("],\"imports\":[");
    let ghost imports = seq![import_entry("wasi_snapshot_preview1"@, "fd_write"@)]
        + program.external_functions@.map_values(
        |e: ExternalFunction| import_entry(spec_import_module(e.link_name@), e.link_name@),
    );
    let ghost start2 = json@;
    json.append("{\"module\":\"");
    json.append("wasi_snapshot_preview1");
    json.append("\",\"name\":\"");
    json.append("fd_write");
    json.append("\"}");
    proof {
        assert(imports.take(1) =~= seq![imports[0]]);
        assert(json@ =~= start2 + join(imports.take(1)));
    }
    let mut k: usize = 0;
    while k < program.external_functions.len()
        invariant
            imports == seq![import_entry("wasi_snapshot_preview1"@, "fd_write"@)]
                + program.external_functions@.map_values(
                |e: ExternalFunction| import_entry(spec_import_module(e.link_name@), e.link_name@),
            ),
            k <= program.external_functions@.len(),
            json@ == start2 + join(imports.take(k + 1)),
        decreases program.external_functions@.len() - k,
    {
        proof {
            assert(imports.take(k + 2) =~= imports.take(k + 1).push(imports[k + 1]));
            lemma_join_push(imports.take(k + 1), imports[k + 1]);
        }
        let link = program.external_functions[k].link_name.as_str();
        json.append(",");
        json.append("{\"module\":\"");
        json.append(import_module(link));
        json.append("\",\"name\":\"");
        json.append(link);
        json.append("\"}");
        k = k + 1;
    }
    proof {
        assert(imports.take(program.external_functions@.len() as int + 1) =~= imports);
    }
    json.append("]}");
    json
}

} // verus!
