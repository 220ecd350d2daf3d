//! Where an `extern "C"` function of a program is imported from.
use vstd::prelude::*;
use crate::text::{contains_str, split_once, strip_prefix};

verus! {

/// The WASI preview1 import names recognized on `extern "C"` functions.
pub open spec fn wasi_import_names() -> Seq<Seq<char>> {
    seq![
        "args_get"@, "args_sizes_get"@, "environ_get"@, "environ_sizes_get"@,
        "clock_res_get"@, "clock_time_get"@, "fd_close"@, "fd_fdstat_get"@,
        "fd_prestat_get"@, "fd_prestat_dir_name"@, "fd_read"@, "fd_seek"@,
        "fd_write"@, "path_open"@, "poll_oneoff"@, "proc_exit"@,
        "random_get"@, "sched_yield"@,
    ]
}

/// The recognized WASI import names, in order.
pub fn wasi_imports() -> (names: Vec<&'static str>)
    ensures
        names@.map_values(|n: &str| n@) == wasi_import_names(),
{
    let names: Vec<&'static str> = vec![
        "args_get", "args_sizes_get", "environ_get", "environ_sizes_get",
        "clock_res_get", "clock_time_get", "fd_close", "fd_fdstat_get",
        "fd_prestat_get", "fd_prestat_dir_name", "fd_read", "fd_seek",
        "fd_write", "path_open", "poll_oneoff", "proc_exit",
        "random_get", "sched_yield",
    ];
    assert(names@.map_values(|n: &str| n@) =~= wasi_import_names());
    names
}

/// The import module of an extern with link name `link_name`: WASI names
/// come from `wasi_snapshot_preview1`, everything else from `env`.
pub fn import_module(link_name: &str) -> (module: &'static str)
    ensures
        wasi_import_names().contains(link_name@) ==> module@ == "wasi_snapshot_preview1"@,
        !wasi_import_names().contains(link_name@) ==> module@ == "env"@,
{
    let names = wasi_imports();
    if contains_str(&names, link_name) {
        "wasi_snapshot_preview1"
    } else {
        "env"
    }
}

/// The standard-library module of a native runtime import: for a link name
/// `vut_rt_<rest>`, the part of `<rest>` before its first `_` (all of
/// `<rest>` when it has none); `None` for any other link name.
pub open spec fn runtime_module_of(link_name: Seq<char>) -> Option<Seq<char>> {
    let prefix = "vut_rt_"@;
    if prefix.is_prefix_of(link_name) {
        let rest = link_name.skip(prefix.len() as int);
        if rest.contains('_') {
            Some(rest.take(rest.index_of_first('_')->0))
        } else {
            Some(rest)
        }
    } else {
        None
    }
}

/// Returns the standard-library module name when `link_name` is a native
/// runtime import (`vut_rt_<module>_...`) that the wasm runtime does not
/// provide.
pub fn unsupported_runtime_module(link_name: &str) -> (module: Option<&str>)
    ensures
        module is Some <==> runtime_module_of(link_name@) is Some,
        module matches Some(m) ==> m@ == runtime_module_of(link_name@)->0,
{
    let rest = match strip_prefix(link_name, "vut_rt_") {
        Some(rest) => rest,
        None => return None,
    };
    match split_once(rest, '_') {
        Some((before, after)) => {
            proof {
                let s = rest@;
                assert(s == before@ + seq!['_'] + after@);
                let k = before@.len() as int;
                assert(s[k] == '_');
                assert forall|j: int| 0 <= j < k implies s[j] != '_' by {
                    assert(s[j] == before@[j]);
                }
                lemma_index_of_first(s, k);
                assert(s.take(k) =~= before@);
            }
            Some(before)
        },
        None => Some(rest),
    }
}

proof fn lemma_index_of_first(s: Seq<char>, k: int)
    requires
        0 <= k < s.len(),
        s[k] == '_',
        forall|j: int| 0 <= j < k ==> s[j] != '_',
    ensures
        s.index_of_first('_') == Some(k),
{
    s.index_of_first_ensures('_');
    assert(s.contains('_'));
}

/// `value` rounded up to a multiple of 16.
pub fn align16(value: i32) -> (r: i32)
    requires
        value <= i32::MAX - 15,
    ensures
        r == (value + 15) - (value + 15) % 16,
{
    let v: i32 = value + 15;
    let r = v & !15i32;
    assert(r == v - v % 16) by (bit_vector)
        requires
            r == v & !15i32;
    r
}

} // verus!
