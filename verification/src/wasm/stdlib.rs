//! WASI-backed implementations of the standard-library native ABI (`vut_rt_*`).
//!
//! The official stdlib calls `extern "C"` primitives (`@link_name("vut_rt_…")`).
//! On `wasm32-wasip1` these are provided as wasm helper functions instead of
//! native imports. Two shapes are used:
//!
//! * **Result envelope** (`bytes`): `[status: i32 little-endian][payload]`.
//!   `status == 0` is success, `status == 1` is a null optional, anything else
//!   is an error whose payload is a UTF-8 message.
//! * **Counted resource** (`count.Handle`): a pointer to
//!   `[valid: i32][value: i64][error: bytes]`.
use vstd::prelude::*;
use vstd::string::StringSliceAdditionalSpecFns;
use crate::text::{contains_str, first_index, position_str};
use crate::wasm::imports::runtime_module_of;
use crate::wasm::builder::{body_views, bodies_fit, signature_views, Body, Builder};
use crate::wasm::model::{m, BlockTy, Ins, ValTy};

verus! {

/// A WASI import the wasm stdlib runtime may call.
pub struct WasiImport {
    pub name: &'static str,
    /// Index into the shared WASI signature table.
    pub signature: u8,
}

/// The WASI preview1 imports used by the stdlib runtime, in import order:
/// name and signature-table index.
pub open spec fn wasi_import_table() -> Seq<(Seq<char>, u8)> {
    seq![
        ("fd_write"@, 0u8), ("fd_read"@, 0u8), ("environ_sizes_get"@, 1u8),
        ("environ_get"@, 1u8), ("args_sizes_get"@, 1u8), ("args_get"@, 1u8),
        ("clock_time_get"@, 2u8), ("random_get"@, 1u8), ("poll_oneoff"@, 0u8),
    ]
}

/// The WASI imports of the stdlib runtime, in import order.
pub fn wasi_imports() -> (imports: Vec<WasiImport>)
    ensures
        imports@.map_values(|w: WasiImport| (w.name@, w.signature)) == wasi_import_table(),
{
    let imports = vec![
        WasiImport { name: "fd_write", signature: 0 },
        WasiImport { name: "fd_read", signature: 0 },
        WasiImport { name: "environ_sizes_get", signature: 1 },
        WasiImport { name: "environ_get", signature: 1 },
        WasiImport { name: "args_sizes_get", signature: 1 },
        WasiImport { name: "args_get", signature: 1 },
        WasiImport { name: "clock_time_get", signature: 2 },
        WasiImport { name: "random_get", signature: 1 },
        WasiImport { name: "poll_oneoff", signature: 0 },
    ];
    assert(imports@.map_values(|w: WasiImport| (w.name@, w.signature)) =~= wasi_import_table());
    imports
}

/// Number of internal helper bodies emitted before the public helpers.
pub const INTERNAL_COUNT: u32 = 5;

/// The `vut_rt_*` link names implemented for wasm, in helper-body order.
pub open spec fn helper_names() -> Seq<Seq<char>> {
    seq![
        "vut_rt_count_ok_v1"@, "vut_rt_count_value_v1"@, "vut_rt_count_error_v1"@,
        "vut_rt_env_get_v1"@, "vut_rt_env_has_v1"@, "vut_rt_env_set_v1"@,
        "vut_rt_env_remove_v1"@, "vut_rt_env_all_v1"@, "vut_rt_env_args_v1"@,
        "vut_rt_time_now_nanos_v1"@, "vut_rt_time_instant_nanos_v1"@, "vut_rt_time_sleep_nanos_v1"@,
        "vut_rt_io_stdin_read_v1"@, "vut_rt_io_stdout_write_v2"@, "vut_rt_io_stderr_write_v2"@,
        "vut_rt_io_flush_v1"@, "vut_rt_os_name_v1"@, "vut_rt_os_family_v1"@,
        "vut_rt_os_arch_v1"@, "vut_rt_os_cpu_count_v1"@, "vut_rt_os_home_dir_v1"@,
        "vut_rt_os_temp_dir_v1"@, "vut_rt_os_current_dir_v1"@, "vut_rt_os_current_exe_v1"@,
        "vut_rt_os_set_current_dir_v1"@, "vut_rt_math_random_float_v1"@, "vut_rt_math_random_int_v1"@,
        "vut_rt_math_random_bool_v1"@, "vut_rt_math_exp_v1"@, "vut_rt_math_exp2_v1"@,
        "vut_rt_math_log_v1"@, "vut_rt_math_log2_v1"@, "vut_rt_math_log10_v1"@,
        "vut_rt_math_sin_v1"@, "vut_rt_math_cos_v1"@, "vut_rt_math_tan_v1"@,
        "vut_rt_math_asin_v1"@, "vut_rt_math_acos_v1"@, "vut_rt_math_atan_v1"@,
        "vut_rt_math_atan2_v1"@, "vut_rt_math_sinh_v1"@, "vut_rt_math_cosh_v1"@,
        "vut_rt_math_tanh_v1"@, "vut_rt_math_cbrt_v1"@, "vut_rt_math_hypot_v1"@,
    ]
}

/// The implemented link names, in helper-body order.
pub fn helpers() -> (names: Vec<&'static str>)
    ensures
        names@.map_values(|n: &str| n@) == helper_names(),
{
    let names: Vec<&'static str> = vec![
        "vut_rt_count_ok_v1", "vut_rt_count_value_v1", "vut_rt_count_error_v1",
        "vut_rt_env_get_v1", "vut_rt_env_has_v1", "vut_rt_env_set_v1",
        "vut_rt_env_remove_v1", "vut_rt_env_all_v1", "vut_rt_env_args_v1",
        "vut_rt_time_now_nanos_v1", "vut_rt_time_instant_nanos_v1", "vut_rt_time_sleep_nanos_v1",
        "vut_rt_io_stdin_read_v1", "vut_rt_io_stdout_write_v2", "vut_rt_io_stderr_write_v2",
        "vut_rt_io_flush_v1", "vut_rt_os_name_v1", "vut_rt_os_family_v1",
        "vut_rt_os_arch_v1", "vut_rt_os_cpu_count_v1", "vut_rt_os_home_dir_v1",
        "vut_rt_os_temp_dir_v1", "vut_rt_os_current_dir_v1", "vut_rt_os_current_exe_v1",
        "vut_rt_os_set_current_dir_v1", "vut_rt_math_random_float_v1", "vut_rt_math_random_int_v1",
        "vut_rt_math_random_bool_v1", "vut_rt_math_exp_v1", "vut_rt_math_exp2_v1",
        "vut_rt_math_log_v1", "vut_rt_math_log2_v1", "vut_rt_math_log10_v1",
        "vut_rt_math_sin_v1", "vut_rt_math_cos_v1", "vut_rt_math_tan_v1",
        "vut_rt_math_asin_v1", "vut_rt_math_acos_v1", "vut_rt_math_atan_v1",
        "vut_rt_math_atan2_v1", "vut_rt_math_sinh_v1", "vut_rt_math_cosh_v1",
        "vut_rt_math_tanh_v1", "vut_rt_math_cbrt_v1", "vut_rt_math_hypot_v1",
    ];
    assert(names@.map_values(|n: &str| n@) =~= helper_names());
    names
}

/// Total helper body count (internal + public).
pub fn body_count() -> (n: u32)
    ensures
        n == INTERNAL_COUNT + helper_names().len(),
{
    INTERNAL_COUNT + 45
}

/// Whether `link_name` is implemented for wasm.
pub fn is_supported(link_name: &str) -> (r: bool)
    ensures
        r == helper_names().contains(link_name@),
{
    let names = helpers();
    contains_str(&names, link_name)
}

/// The absolute function index of the helper implementing `link_name`, when
/// the helper bodies start at function index `base`.
pub fn helper_index(base: u32, link_name: &str) -> (r: Option<u32>)
    requires
        base + INTERNAL_COUNT + helper_names().len() <= u32::MAX,
    ensures
        r matches Some(i) ==> first_index(helper_names(), link_name@) == Some(i - base - INTERNAL_COUNT),
        r is None ==> first_index(helper_names(), link_name@) is None,
{
    let names = helpers();
    match position_str(&names, link_name) {
        Some(position) => {
            proof {
                crate::text::lemma_first_index(helper_names(), link_name@);
            }
            Some(base + INTERNAL_COUNT + position as u32)
        },
        None => None,
    }
}

/// A link name has a helper index exactly when it is supported, and the
/// helpers of two different supported names sit at different positions of
/// the public helper region.
pub proof fn lemma_helper_positions(a: Seq<char>, b: Seq<char>)
    ensures
        helper_names().contains(a) <==> first_index(helper_names(), a) is Some,
        first_index(helper_names(), a) matches Some(i) ==> 0 <= i < helper_names().len(),
        a != b && first_index(helper_names(), a) is Some ==> first_index(helper_names(), a) != first_index(helper_names(), b),
{
    crate::text::lemma_first_index(helper_names(), a);
    crate::text::lemma_first_index(helper_names(), b);
}

/// A module that some supported link name belongs to.
pub open spec fn helper_module(m: Seq<char>) -> bool {
    m == "count"@ || m == "env"@ || m == "time"@ || m == "io"@ || m == "os"@ || m == "math"@
}

/// The module of `vut_rt_<m>_<tail>` is `m` when `m` has no `_`.
proof fn lemma_module_named(m: Seq<char>, tail: Seq<char>)
    requires
        forall|j: int| 0 <= j < m.len() ==> m[j] != '_',
    ensures
        runtime_module_of("vut_rt_"@ + m + seq!['_'] + tail) == Some(m),
{
    reveal_strlit("vut_rt_");
    let n = "vut_rt_"@ + m + seq!['_'] + tail;
    assert("vut_rt_"@.is_prefix_of(n));
    let rest = n.skip(7);
    assert(rest =~= m + seq!['_'] + tail);
    assert(rest[m.len() as int] == '_');
    rest.index_of_first_ensures('_');
    assert(rest.contains('_'));
    assert(rest.take(m.len() as int) =~= m);
}

/// `n` is a runtime import of one of the helper modules.
pub open spec fn in_helper_module(n: Seq<char>) -> bool {
    runtime_module_of(n) matches Some(m) && helper_module(m)
}

/// Each helper name, as a literal, is a runtime import of one of the helper
/// modules.
#[verifier::spinoff_prover]
#[verifier::rlimit(100)]
proof fn lemma_helper_literals()
    ensures
        in_helper_module("vut_rt_count_ok_v1"@),
        in_helper_module("vut_rt_count_value_v1"@),
        in_helper_module("vut_rt_count_error_v1"@),
        in_helper_module("vut_rt_env_get_v1"@),
        in_helper_module("vut_rt_env_has_v1"@),
        in_helper_module("vut_rt_env_set_v1"@),
        in_helper_module("vut_rt_env_remove_v1"@),
        in_helper_module("vut_rt_env_all_v1"@),
        in_helper_module("vut_rt_env_args_v1"@),
        in_helper_module("vut_rt_time_now_nanos_v1"@),
        in_helper_module("vut_rt_time_instant_nanos_v1"@),
        in_helper_module("vut_rt_time_sleep_nanos_v1"@),
        in_helper_module("vut_rt_io_stdin_read_v1"@),
        in_helper_module("vut_rt_io_stdout_write_v2"@),
        in_helper_module("vut_rt_io_stderr_write_v2"@),
        in_helper_module("vut_rt_io_flush_v1"@),
        in_helper_module("vut_rt_os_name_v1"@),
        in_helper_module("vut_rt_os_family_v1"@),
        in_helper_module("vut_rt_os_arch_v1"@),
        in_helper_module("vut_rt_os_cpu_count_v1"@),
        in_helper_module("vut_rt_os_home_dir_v1"@),
        in_helper_module("vut_rt_os_temp_dir_v1"@),
        in_helper_module("vut_rt_os_current_dir_v1"@),
        in_helper_module("vut_rt_os_current_exe_v1"@),
        in_helper_module("vut_rt_os_set_current_dir_v1"@),
        in_helper_module("vut_rt_math_random_float_v1"@),
        in_helper_module("vut_rt_math_random_int_v1"@),
        in_helper_module("vut_rt_math_random_bool_v1"@),
        in_helper_module("vut_rt_math_exp_v1"@),
        in_helper_module("vut_rt_math_exp2_v1"@),
        in_helper_module("vut_rt_math_log_v1"@),
        in_helper_module("vut_rt_math_log2_v1"@),
        in_helper_module("vut_rt_math_log10_v1"@),
        in_helper_module("vut_rt_math_sin_v1"@),
        in_helper_module("vut_rt_math_cos_v1"@),
        in_helper_module("vut_rt_math_tan_v1"@),
        in_helper_module("vut_rt_math_asin_v1"@),
        in_helper_module("vut_rt_math_acos_v1"@),
        in_helper_module("vut_rt_math_atan_v1"@),
        in_helper_module("vut_rt_math_atan2_v1"@),
        in_helper_module("vut_rt_math_sinh_v1"@),
        in_helper_module("vut_rt_math_cosh_v1"@),
        in_helper_module("vut_rt_math_tanh_v1"@),
        in_helper_module("vut_rt_math_cbrt_v1"@),
        in_helper_module("vut_rt_math_hypot_v1"@),
{
    assert(in_helper_module("vut_rt_count_ok_v1"@)) by {
        reveal_strlit("vut_rt_");
        reveal_strlit("count");
        reveal_strlit("ok_v1");
        reveal_strlit("vut_rt_count_ok_v1");
        assert("vut_rt_count_ok_v1"@ =~= "vut_rt_"@ + "count"@ + seq!['_'] + "ok_v1"@);
        lemma_module_named("count"@, "ok_v1"@);
    }
    assert(in_helper_module("vut_rt_count_value_v1"@)) by {
        reveal_strlit("vut_rt_");
        reveal_strlit("count");
        reveal_strlit("value_v1");
        reveal_strlit("vut_rt_count_value_v1");
        assert("vut_rt_count_value_v1"@ =~= "vut_rt_"@ + "count"@ + seq!['_'] + "value_v1"@);
        lemma_module_named("count"@, "value_v1"@);
    }
    assert(in_helper_module("vut_rt_count_error_v1"@)) by {
        reveal_strlit("vut_rt_");
        reveal_strlit("count");
        reveal_strlit("error_v1");
        reveal_strlit("vut_rt_count_error_v1");
        assert("vut_rt_count_error_v1"@ =~= "vut_rt_"@ + "count"@ + seq!['_'] + "error_v1"@);
        lemma_module_named("count"@, "error_v1"@);
    }
    assert(in_helper_module("vut_rt_env_get_v1"@)) by {
        reveal_strlit("vut_rt_");
        reveal_strlit("env");
        reveal_strlit("get_v1");
        reveal_strlit("vut_rt_env_get_v1");
        assert("vut_rt_env_get_v1"@ =~= "vut_rt_"@ + "env"@ + seq!['_'] + "get_v1"@);
        lemma_module_named("env"@, "get_v1"@);
    }
    assert(in_helper_module("vut_rt_env_has_v1"@)) by {
        reveal_strlit("vut_rt_");
        reveal_strlit("env");
        reveal_strlit("has_v1");
        reveal_strlit("vut_rt_env_has_v1");
        assert("vut_rt_env_has_v1"@ =~= "vut_rt_"@ + "env"@ + seq!['_'] + "has_v1"@);
        lemma_module_named("env"@, "has_v1"@);
    }
    assert(in_helper_module("vut_rt_env_set_v1"@)) by {
        reveal_strlit("vut_rt_");
        reveal_strlit("env");
        reveal_strlit("set_v1");
        reveal_strlit("vut_rt_env_set_v1");
        assert("vut_rt_env_set_v1"@ =~= "vut_rt_"@ + "env"@ + seq!['_'] + "set_v1"@);
        lemma_module_named("env"@, "set_v1"@);
    }
    assert(in_helper_module("vut_rt_env_remove_v1"@)) by {
        reveal_strlit("vut_rt_");
        reveal_strlit("env");
        reveal_strlit("remove_v1");
        reveal_strlit("vut_rt_env_remove_v1");
        assert("vut_rt_env_remove_v1"@ =~= "vut_rt_"@ + "env"@ + seq!['_'] + "remove_v1"@);
        lemma_module_named("env"@, "remove_v1"@);
    }
    assert(in_helper_module("vut_rt_env_all_v1"@)) by {
        reveal_strlit("vut_rt_");
        reveal_strlit("env");
        reveal_strlit("all_v1");
        reveal_strlit("vut_rt_env_all_v1");
        assert("vut_rt_env_all_v1"@ =~= "vut_rt_"@ + "env"@ + seq!['_'] + "all_v1"@);
        lemma_module_named("env"@, "all_v1"@);
    }
    assert(in_helper_module("vut_rt_env_args_v1"@)) by {
        reveal_strlit("vut_rt_");
        reveal_strlit("env");
        reveal_strlit("args_v1");
        reveal_strlit("vut_rt_env_args_v1");
        assert("vut_rt_env_args_v1"@ =~= "vut_rt_"@ + "env"@ + seq!['_'] + "args_v1"@);
        lemma_module_named("env"@, "args_v1"@);
    }
    assert(in_helper_module("vut_rt_time_now_nanos_v1"@)) by {
        reveal_strlit("vut_rt_");
        reveal_strlit("time");
        reveal_strlit("now_nanos_v1");
        reveal_strlit("vut_rt_time_now_nanos_v1");
        assert("vut_rt_time_now_nanos_v1"@ =~= "vut_rt_"@ + "time"@ + seq!['_'] + "now_nanos_v1"@);
        lemma_module_named("time"@, "now_nanos_v1"@);
    }
    assert(in_helper_module("vut_rt_time_instant_nanos_v1"@)) by {
        reveal_strlit("vut_rt_");
        reveal_strlit("time");
        reveal_strlit("instant_nanos_v1");
        reveal_strlit("vut_rt_time_instant_nanos_v1");
        assert("vut_rt_time_instant_nanos_v1"@ =~= "vut_rt_"@ + "time"@ + seq!['_'] + "instant_nanos_v1"@);
        lemma_module_named("time"@, "instant_nanos_v1"@);
    }
    assert(in_helper_module("vut_rt_time_sleep_nanos_v1"@)) by {
        reveal_strlit("vut_rt_");
        reveal_strlit("time");
        reveal_strlit("sleep_nanos_v1");
        reveal_strlit("vut_rt_time_sleep_nanos_v1");
        assert("vut_rt_time_sleep_nanos_v1"@ =~= "vut_rt_"@ + "time"@ + seq!['_'] + "sleep_nanos_v1"@);
        lemma_module_named("time"@, "sleep_nanos_v1"@);
    }
    assert(in_helper_module("vut_rt_io_stdin_read_v1"@)) by {
        reveal_strlit("vut_rt_");
        reveal_strlit("io");
        reveal_strlit("stdin_read_v1");
        reveal_strlit("vut_rt_io_stdin_read_v1");
        assert("vut_rt_io_stdin_read_v1"@ =~= "vut_rt_"@ + "io"@ + seq!['_'] + "stdin_read_v1"@);
        lemma_module_named("io"@, "stdin_read_v1"@);
    }
    assert(in_helper_module("vut_rt_io_stdout_write_v2"@)) by {
        reveal_strlit("vut_rt_");
        reveal_strlit("io");
        reveal_strlit("stdout_write_v2");
        reveal_strlit("vut_rt_io_stdout_write_v2");
        assert("vut_rt_io_stdout_write_v2"@ =~= "vut_rt_"@ + "io"@ + seq!['_'] + "stdout_write_v2"@);
        lemma_module_named("io"@, "stdout_write_v2"@);
    }
    assert(in_helper_module("vut_rt_io_stderr_write_v2"@)) by {
        reveal_strlit("vut_rt_");
        reveal_strlit("io");
        reveal_strlit("stderr_write_v2");
        reveal_strlit("vut_rt_io_stderr_write_v2");
        assert("vut_rt_io_stderr_write_v2"@ =~= "vut_rt_"@ + "io"@ + seq!['_'] + "stderr_write_v2"@);
        lemma_module_named("io"@, "stderr_write_v2"@);
    }
    assert(in_helper_module("vut_rt_io_flush_v1"@)) by {
        reveal_strlit("vut_rt_");
        reveal_strlit("io");
        reveal_strlit("flush_v1");
        reveal_strlit("vut_rt_io_flush_v1");
        assert("vut_rt_io_flush_v1"@ =~= "vut_rt_"@ + "io"@ + seq!['_'] + "flush_v1"@);
        lemma_module_named("io"@, "flush_v1"@);
    }
    assert(in_helper_module("vut_rt_os_name_v1"@)) by {
        reveal_strlit("vut_rt_");
        reveal_strlit("os");
        reveal_strlit("name_v1");
        reveal_strlit("vut_rt_os_name_v1");
        assert("vut_rt_os_name_v1"@ =~= "vut_rt_"@ + "os"@ + seq!['_'] + "name_v1"@);
        lemma_module_named("os"@, "name_v1"@);
    }
    assert(in_helper_module("vut_rt_os_family_v1"@)) by {
        reveal_strlit("vut_rt_");
        reveal_strlit("os");
        reveal_strlit("family_v1");
        reveal_strlit("vut_rt_os_family_v1");
        assert("vut_rt_os_family_v1"@ =~= "vut_rt_"@ + "os"@ + seq!['_'] + "family_v1"@);
        lemma_module_named("os"@, "family_v1"@);
    }
    assert(in_helper_module("vut_rt_os_arch_v1"@)) by {
        reveal_strlit("vut_rt_");
        reveal_strlit("os");
        reveal_strlit("arch_v1");
        reveal_strlit("vut_rt_os_arch_v1");
        assert("vut_rt_os_arch_v1"@ =~= "vut_rt_"@ + "os"@ + seq!['_'] + "arch_v1"@);
        lemma_module_named("os"@, "arch_v1"@);
    }
    assert(in_helper_module("vut_rt_os_cpu_count_v1"@)) by {
        reveal_strlit("vut_rt_");
        reveal_strlit("os");
        reveal_strlit("cpu_count_v1");
        reveal_strlit("vut_rt_os_cpu_count_v1");
        assert("vut_rt_os_cpu_count_v1"@ =~= "vut_rt_"@ + "os"@ + seq!['_'] + "cpu_count_v1"@);
        lemma_module_named("os"@, "cpu_count_v1"@);
    }
    assert(in_helper_module("vut_rt_os_home_dir_v1"@)) by {
        reveal_strlit("vut_rt_");
        reveal_strlit("os");
        reveal_strlit("home_dir_v1");
        reveal_strlit("vut_rt_os_home_dir_v1");
        assert("vut_rt_os_home_dir_v1"@ =~= "vut_rt_"@ + "os"@ + seq!['_'] + "home_dir_v1"@);
        lemma_module_named("os"@, "home_dir_v1"@);
    }
    assert(in_helper_module("vut_rt_os_temp_dir_v1"@)) by {
        reveal_strlit("vut_rt_");
        reveal_strlit("os");
        reveal_strlit("temp_dir_v1");
        reveal_strlit("vut_rt_os_temp_dir_v1");
        assert("vut_rt_os_temp_dir_v1"@ =~= "vut_rt_"@ + "os"@ + seq!['_'] + "temp_dir_v1"@);
        lemma_module_named("os"@, "temp_dir_v1"@);
    }
    assert(in_helper_module("vut_rt_os_current_dir_v1"@)) by {
        reveal_strlit("vut_rt_");
        reveal_strlit("os");
        reveal_strlit("current_dir_v1");
        reveal_strlit("vut_rt_os_current_dir_v1");
        assert("vut_rt_os_current_dir_v1"@ =~= "vut_rt_"@ + "os"@ + seq!['_'] + "current_dir_v1"@);
        lemma_module_named("os"@, "current_dir_v1"@);
    }
    assert(in_helper_module("vut_rt_os_current_exe_v1"@)) by {
        reveal_strlit("vut_rt_");
        reveal_strlit("os");
        reveal_strlit("current_exe_v1");
        reveal_strlit("vut_rt_os_current_exe_v1");
        assert("vut_rt_os_current_exe_v1"@ =~= "vut_rt_"@ + "os"@ + seq!['_'] + "current_exe_v1"@);
        lemma_module_named("os"@, "current_exe_v1"@);
    }
    assert(in_helper_module("vut_rt_os_set_current_dir_v1"@)) by {
        reveal_strlit("vut_rt_");
        reveal_strlit("os");
        reveal_strlit("set_current_dir_v1");
        reveal_strlit("vut_rt_os_set_current_dir_v1");
        assert("vut_rt_os_set_current_dir_v1"@ =~= "vut_rt_"@ + "os"@ + seq!['_'] + "set_current_dir_v1"@);
        lemma_module_named("os"@, "set_current_dir_v1"@);
    }
    assert(in_helper_module("vut_rt_math_random_float_v1"@)) by {
        reveal_strlit("vut_rt_");
        reveal_strlit("math");
        reveal_strlit("random_float_v1");
        reveal_strlit("vut_rt_math_random_float_v1");
        assert("vut_rt_math_random_float_v1"@ =~= "vut_rt_"@ + "math"@ + seq!['_'] + "random_float_v1"@);
        lemma_module_named("math"@, "random_float_v1"@);
    }
    assert(in_helper_module("vut_rt_math_random_int_v1"@)) by {
        reveal_strlit("vut_rt_");
        reveal_strlit("math");
        reveal_strlit("random_int_v1");
        reveal_strlit("vut_rt_math_random_int_v1");
        assert("vut_rt_math_random_int_v1"@ =~= "vut_rt_"@ + "math"@ + seq!['_'] + "random_int_v1"@);
        lemma_module_named("math"@, "random_int_v1"@);
    }
    assert(in_helper_module("vut_rt_math_random_bool_v1"@)) by {
        reveal_strlit("vut_rt_");
        reveal_strlit("math");
        reveal_strlit("random_bool_v1");
        reveal_strlit("vut_rt_math_random_bool_v1");
        assert("vut_rt_math_random_bool_v1"@ =~= "vut_rt_"@ + "math"@ + seq!['_'] + "random_bool_v1"@);
        lemma_module_named("math"@, "random_bool_v1"@);
    }
    assert(in_helper_module("vut_rt_math_exp_v1"@)) by {
        reveal_strlit("vut_rt_");
        reveal_strlit("math");
        reveal_strlit("exp_v1");
        reveal_strlit("vut_rt_math_exp_v1");
        assert("vut_rt_math_exp_v1"@ =~= "vut_rt_"@ + "math"@ + seq!['_'] + "exp_v1"@);
        lemma_module_named("math"@, "exp_v1"@);
    }
    assert(in_helper_module("vut_rt_math_exp2_v1"@)) by {
        reveal_strlit("vut_rt_");
        reveal_strlit("math");
        reveal_strlit("exp2_v1");
        reveal_strlit("vut_rt_math_exp2_v1");
        assert("vut_rt_math_exp2_v1"@ =~= "vut_rt_"@ + "math"@ + seq!['_'] + "exp2_v1"@);
        lemma_module_named("math"@, "exp2_v1"@);
    }
    assert(in_helper_module("vut_rt_math_log_v1"@)) by {
        reveal_strlit("vut_rt_");
        reveal_strlit("math");
        reveal_strlit("log_v1");
        reveal_strlit("vut_rt_math_log_v1");
        assert("vut_rt_math_log_v1"@ =~= "vut_rt_"@ + "math"@ + seq!['_'] + "log_v1"@);
        lemma_module_named("math"@, "log_v1"@);
    }
    assert(in_helper_module("vut_rt_math_log2_v1"@)) by {
        reveal_strlit("vut_rt_");
        reveal_strlit("math");
        reveal_strlit("log2_v1");
        reveal_strlit("vut_rt_math_log2_v1");
        assert("vut_rt_math_log2_v1"@ =~= "vut_rt_"@ + "math"@ + seq!['_'] + "log2_v1"@);
        lemma_module_named("math"@, "log2_v1"@);
    }
    assert(in_helper_module("vut_rt_math_log10_v1"@)) by {
        reveal_strlit("vut_rt_");
        reveal_strlit("math");
        reveal_strlit("log10_v1");
        reveal_strlit("vut_rt_math_log10_v1");
        assert("vut_rt_math_log10_v1"@ =~= "vut_rt_"@ + "math"@ + seq!['_'] + "log10_v1"@);
        lemma_module_named("math"@, "log10_v1"@);
    }
    assert(in_helper_module("vut_rt_math_sin_v1"@)) by {
        reveal_strlit("vut_rt_");
        reveal_strlit("math");
        reveal_strlit("sin_v1");
        reveal_strlit("vut_rt_math_sin_v1");
        assert("vut_rt_math_sin_v1"@ =~= "vut_rt_"@ + "math"@ + seq!['_'] + "sin_v1"@);
        lemma_module_named("math"@, "sin_v1"@);
    }
    assert(in_helper_module("vut_rt_math_cos_v1"@)) by {
        reveal_strlit("vut_rt_");
        reveal_strlit("math");
        reveal_strlit("cos_v1");
        reveal_strlit("vut_rt_math_cos_v1");
        assert("vut_rt_math_cos_v1"@ =~= "vut_rt_"@ + "math"@ + seq!['_'] + "cos_v1"@);
        lemma_module_named("math"@, "cos_v1"@);
    }
    assert(in_helper_module("vut_rt_math_tan_v1"@)) by {
        reveal_strlit("vut_rt_");
        reveal_strlit("math");
        reveal_strlit("tan_v1");
        reveal_strlit("vut_rt_math_tan_v1");
        assert("vut_rt_math_tan_v1"@ =~= "vut_rt_"@ + "math"@ + seq!['_'] + "tan_v1"@);
        lemma_module_named("math"@, "tan_v1"@);
    }
    assert(in_helper_module("vut_rt_math_asin_v1"@)) by {
        reveal_strlit("vut_rt_");
        reveal_strlit("math");
        reveal_strlit("asin_v1");
        reveal_strlit("vut_rt_math_asin_v1");
        assert("vut_rt_math_asin_v1"@ =~= "vut_rt_"@ + "math"@ + seq!['_'] + "asin_v1"@);
        lemma_module_named("math"@, "asin_v1"@);
    }
    assert(in_helper_module("vut_rt_math_acos_v1"@)) by {
        reveal_strlit("vut_rt_");
        reveal_strlit("math");
        reveal_strlit("acos_v1");
        reveal_strlit("vut_rt_math_acos_v1");
        assert("vut_rt_math_acos_v1"@ =~= "vut_rt_"@ + "math"@ + seq!['_'] + "acos_v1"@);
        lemma_module_named("math"@, "acos_v1"@);
    }
    assert(in_helper_module("vut_rt_math_atan_v1"@)) by {
        reveal_strlit("vut_rt_");
        reveal_strlit("math");
        reveal_strlit("atan_v1");
        reveal_strlit("vut_rt_math_atan_v1");
        assert("vut_rt_math_atan_v1"@ =~= "vut_rt_"@ + "math"@ + seq!['_'] + "atan_v1"@);
        lemma_module_named("math"@, "atan_v1"@);
    }
    assert(in_helper_module("vut_rt_math_atan2_v1"@)) by {
        reveal_strlit("vut_rt_");
        reveal_strlit("math");
        reveal_strlit("atan2_v1");
        reveal_strlit("vut_rt_math_atan2_v1");
        assert("vut_rt_math_atan2_v1"@ =~= "vut_rt_"@ + "math"@ + seq!['_'] + "atan2_v1"@);
        lemma_module_named("math"@, "atan2_v1"@);
    }
    assert(in_helper_module("vut_rt_math_sinh_v1"@)) by {
        reveal_strlit("vut_rt_");
        reveal_strlit("math");
        reveal_strlit("sinh_v1");
        reveal_strlit("vut_rt_math_sinh_v1");
        assert("vut_rt_math_sinh_v1"@ =~= "vut_rt_"@ + "math"@ + seq!['_'] + "sinh_v1"@);
        lemma_module_named("math"@, "sinh_v1"@);
    }
    assert(in_helper_module("vut_rt_math_cosh_v1"@)) by {
        reveal_strlit("vut_rt_");
        reveal_strlit("math");
        reveal_strlit("cosh_v1");
        reveal_strlit("vut_rt_math_cosh_v1");
        assert("vut_rt_math_cosh_v1"@ =~= "vut_rt_"@ + "math"@ + seq!['_'] + "cosh_v1"@);
        lemma_module_named("math"@, "cosh_v1"@);
    }
    assert(in_helper_module("vut_rt_math_tanh_v1"@)) by {
        reveal_strlit("vut_rt_");
        reveal_strlit("math");
        reveal_strlit("tanh_v1");
        reveal_strlit("vut_rt_math_tanh_v1");
        assert("vut_rt_math_tanh_v1"@ =~= "vut_rt_"@ + "math"@ + seq!['_'] + "tanh_v1"@);
        lemma_module_named("math"@, "tanh_v1"@);
    }
    assert(in_helper_module("vut_rt_math_cbrt_v1"@)) by {
        reveal_strlit("vut_rt_");
        reveal_strlit("math");
        reveal_strlit("cbrt_v1");
        reveal_strlit("vut_rt_math_cbrt_v1");
        assert("vut_rt_math_cbrt_v1"@ =~= "vut_rt_"@ + "math"@ + seq!['_'] + "cbrt_v1"@);
        lemma_module_named("math"@, "cbrt_v1"@);
    }
    assert(in_helper_module("vut_rt_math_hypot_v1"@)) by {
        reveal_strlit("vut_rt_");
        reveal_strlit("math");
        reveal_strlit("hypot_v1");
        reveal_strlit("vut_rt_math_hypot_v1");
        assert("vut_rt_math_hypot_v1"@ =~= "vut_rt_"@ + "math"@ + seq!['_'] + "hypot_v1"@);
        lemma_module_named("math"@, "hypot_v1"@);
    }
}

/// Every helper name is a runtime import of one of the helper modules.
#[verifier::spinoff_prover]
#[verifier::rlimit(100)]
proof fn lemma_helper_modules()
    ensures
        forall|k: int| 0 <= k < helper_names().len() ==> #[trigger] in_helper_module(helper_names()[k]),
{
    lemma_helper_literals();
    let names = helper_names();
    assert forall|k: int| 0 <= k < names.len() implies #[trigger] in_helper_module(names[k]) by {
        if k == 0 {
            assert(names[0] == "vut_rt_count_ok_v1"@);
        } else if k == 1 {
            assert(names[1] == "vut_rt_count_value_v1"@);
        } else if k == 2 {
            assert(names[2] == "vut_rt_count_error_v1"@);
        } else if k == 3 {
            assert(names[3] == "vut_rt_env_get_v1"@);
        } else if k == 4 {
            assert(names[4] == "vut_rt_env_has_v1"@);
        } else if k == 5 {
            assert(names[5] == "vut_rt_env_set_v1"@);
        } else if k == 6 {
            assert(names[6] == "vut_rt_env_remove_v1"@);
        } else if k == 7 {
            assert(names[7] == "vut_rt_env_all_v1"@);
        } else if k == 8 {
            assert(names[8] == "vut_rt_env_args_v1"@);
        } else if k == 9 {
            assert(names[9] == "vut_rt_time_now_nanos_v1"@);
        } else if k == 10 {
            assert(names[10] == "vut_rt_time_instant_nanos_v1"@);
        } else if k == 11 {
            assert(names[11] == "vut_rt_time_sleep_nanos_v1"@);
        } else if k == 12 {
            assert(names[12] == "vut_rt_io_stdin_read_v1"@);
        } else if k == 13 {
            assert(names[13] == "vut_rt_io_stdout_write_v2"@);
        } else if k == 14 {
            assert(names[14] == "vut_rt_io_stderr_write_v2"@);
        } else if k == 15 {
            assert(names[15] == "vut_rt_io_flush_v1"@);
        } else if k == 16 {
            assert(names[16] == "vut_rt_os_name_v1"@);
        } else if k == 17 {
            assert(names[17] == "vut_rt_os_family_v1"@);
        } else if k == 18 {
            assert(names[18] == "vut_rt_os_arch_v1"@);
        } else if k == 19 {
            assert(names[19] == "vut_rt_os_cpu_count_v1"@);
        } else if k == 20 {
            assert(names[20] == "vut_rt_os_home_dir_v1"@);
        } else if k == 21 {
            assert(names[21] == "vut_rt_os_temp_dir_v1"@);
        } else if k == 22 {
            assert(names[22] == "vut_rt_os_current_dir_v1"@);
        } else if k == 23 {
            assert(names[23] == "vut_rt_os_current_exe_v1"@);
        } else if k == 24 {
            assert(names[24] == "vut_rt_os_set_current_dir_v1"@);
        } else if k == 25 {
            assert(names[25] == "vut_rt_math_random_float_v1"@);
        } else if k == 26 {
            assert(names[26] == "vut_rt_math_random_int_v1"@);
        } else if k == 27 {
            assert(names[27] == "vut_rt_math_random_bool_v1"@);
        } else if k == 28 {
            assert(names[28] == "vut_rt_math_exp_v1"@);
        } else if k == 29 {
            assert(names[29] == "vut_rt_math_exp2_v1"@);
        } else if k == 30 {
            assert(names[30] == "vut_rt_math_log_v1"@);
        } else if k == 31 {
            assert(names[31] == "vut_rt_math_log2_v1"@);
        } else if k == 32 {
            assert(names[32] == "vut_rt_math_log10_v1"@);
        } else if k == 33 {
            assert(names[33] == "vut_rt_math_sin_v1"@);
        } else if k == 34 {
            assert(names[34] == "vut_rt_math_cos_v1"@);
        } else if k == 35 {
            assert(names[35] == "vut_rt_math_tan_v1"@);
        } else if k == 36 {
            assert(names[36] == "vut_rt_math_asin_v1"@);
        } else if k == 37 {
            assert(names[37] == "vut_rt_math_acos_v1"@);
        } else if k == 38 {
            assert(names[38] == "vut_rt_math_atan_v1"@);
        } else if k == 39 {
            assert(names[39] == "vut_rt_math_atan2_v1"@);
        } else if k == 40 {
            assert(names[40] == "vut_rt_math_sinh_v1"@);
        } else if k == 41 {
            assert(names[41] == "vut_rt_math_cosh_v1"@);
        } else if k == 42 {
            assert(names[42] == "vut_rt_math_tanh_v1"@);
        } else if k == 43 {
            assert(names[43] == "vut_rt_math_cbrt_v1"@);
        } else if k == 44 {
            assert(names[44] == "vut_rt_math_hypot_v1"@);
        }
    }
}

/// A link name is supported exactly when it is one of the helper names, and
/// then exactly when it has a helper index (whatever the helpers' base); and
/// every supported name is a runtime import of the `count`, `env`, `time`,
/// `io`, `os` or `math` module.
pub proof fn lemma_supported_names(n: Seq<char>)
    ensures
        helper_names().contains(n) <==> first_index(helper_names(), n) is Some,
        helper_names().contains(n) ==> in_helper_module(n),
{
    crate::text::lemma_first_index(helper_names(), n);
    lemma_helper_modules();
    if helper_names().contains(n) {
        let k = choose|k: int| 0 <= k < helper_names().len() && helper_names()[k] == n;
        assert(in_helper_module(helper_names()[k]));
    }
}

/// Number of math helper bodies, the last ones of the public helpers.
pub const MATH_COUNT: u32 = 17;

/// Absolute function indices available to helper bodies.
pub struct Ctx {
    /// Function index of each WASI import, in `wasi_imports()` order.
    pub wasi: Vec<u32>,
    pub alloc: u32,
    pub bytes_new: u32,
    pub make_bytes: u32,
    pub load_environ: u32,
    pub load_args: u32,
    pub env_find: u32,
    pub ldexp: u32,
    pub base: u32,
}

impl Ctx {
    pub open spec fn wf(&self) -> bool {
        self.wasi@.len() == wasi_import_table().len()
    }
}

/// Helper signatures in body order: internal helpers, then the implemented link names.
pub open spec fn stdlib_signatures() -> Seq<(Seq<ValTy>, Seq<ValTy>)> {
    seq![
        (seq![ValTy::I32, ValTy::I32, ValTy::I32], seq![ValTy::I32]),
        (Seq::<ValTy>::empty(), seq![ValTy::I32]),
        (Seq::<ValTy>::empty(), seq![ValTy::I32]),
        (seq![ValTy::I32, ValTy::I32], seq![ValTy::I32]),
        (seq![ValTy::F64, ValTy::I32], seq![ValTy::F64]),
        (seq![ValTy::I32], seq![ValTy::I32]),
        (seq![ValTy::I32], seq![ValTy::I64]),
        (seq![ValTy::I32], seq![ValTy::I32]),
        (seq![ValTy::I32], seq![ValTy::I32]),
        (seq![ValTy::I32], seq![ValTy::I32]),
        (seq![ValTy::I32, ValTy::I32], seq![ValTy::I32]),
        (seq![ValTy::I32], seq![ValTy::I32]),
        (Seq::<ValTy>::empty(), seq![ValTy::I32]),
        (Seq::<ValTy>::empty(), seq![ValTy::I32]),
        (Seq::<ValTy>::empty(), seq![ValTy::I64]),
        (Seq::<ValTy>::empty(), seq![ValTy::I64]),
        (seq![ValTy::I64], Seq::<ValTy>::empty()),
        (Seq::<ValTy>::empty(), seq![ValTy::I32]),
        (seq![ValTy::I32], seq![ValTy::I32]),
        (seq![ValTy::I32], seq![ValTy::I32]),
        (Seq::<ValTy>::empty(), seq![ValTy::I32]),
        (Seq::<ValTy>::empty(), seq![ValTy::I32]),
        (Seq::<ValTy>::empty(), seq![ValTy::I32]),
        (Seq::<ValTy>::empty(), seq![ValTy::I32]),
        (Seq::<ValTy>::empty(), seq![ValTy::I32]),
        (Seq::<ValTy>::empty(), seq![ValTy::I32]),
        (Seq::<ValTy>::empty(), seq![ValTy::I32]),
        (Seq::<ValTy>::empty(), seq![ValTy::I32]),
        (Seq::<ValTy>::empty(), seq![ValTy::I32]),
        (seq![ValTy::I32], seq![ValTy::I32]),
        (Seq::<ValTy>::empty(), seq![ValTy::F64]),
        (seq![ValTy::I64, ValTy::I64], seq![ValTy::I64]),
        (Seq::<ValTy>::empty(), seq![ValTy::I32]),
        (seq![ValTy::F64], seq![ValTy::F64]),
        (seq![ValTy::F64], seq![ValTy::F64]),
        (seq![ValTy::F64], seq![ValTy::F64]),
        (seq![ValTy::F64], seq![ValTy::F64]),
        (seq![ValTy::F64], seq![ValTy::F64]),
        (seq![ValTy::F64], seq![ValTy::F64]),
        (seq![ValTy::F64], seq![ValTy::F64]),
        (seq![ValTy::F64], seq![ValTy::F64]),
        (seq![ValTy::F64], seq![ValTy::F64]),
        (seq![ValTy::F64], seq![ValTy::F64]),
        (seq![ValTy::F64], seq![ValTy::F64]),
        (seq![ValTy::F64, ValTy::F64], seq![ValTy::F64]),
        (seq![ValTy::F64], seq![ValTy::F64]),
        (seq![ValTy::F64], seq![ValTy::F64]),
        (seq![ValTy::F64], seq![ValTy::F64]),
        (seq![ValTy::F64], seq![ValTy::F64]),
        (seq![ValTy::F64, ValTy::F64], seq![ValTy::F64]),
    ]
}

/// Helper signatures in body order: internal helpers, then the implemented link names.
pub fn signatures() -> (sigs: Vec<(Vec<ValTy>, Vec<ValTy>)>)
    ensures
        signature_views(sigs@) == stdlib_signatures(),
{
    let sigs = vec![
        (vec![ValTy::I32, ValTy::I32, ValTy::I32], vec![ValTy::I32]),
        (vec![], vec![ValTy::I32]),
        (vec![], vec![ValTy::I32]),
        (vec![ValTy::I32, ValTy::I32], vec![ValTy::I32]),
        (vec![ValTy::F64, ValTy::I32], vec![ValTy::F64]),
        (vec![ValTy::I32], vec![ValTy::I32]),
        (vec![ValTy::I32], vec![ValTy::I64]),
        (vec![ValTy::I32], vec![ValTy::I32]),
        (vec![ValTy::I32], vec![ValTy::I32]),
        (vec![ValTy::I32], vec![ValTy::I32]),
        (vec![ValTy::I32, ValTy::I32], vec![ValTy::I32]),
        (vec![ValTy::I32], vec![ValTy::I32]),
        (vec![], vec![ValTy::I32]),
        (vec![], vec![ValTy::I32]),
        (vec![], vec![ValTy::I64]),
        (vec![], vec![ValTy::I64]),
        (vec![ValTy::I64], vec![]),
        (vec![], vec![ValTy::I32]),
        (vec![ValTy::I32], vec![ValTy::I32]),
        (vec![ValTy::I32], vec![ValTy::I32]),
        (vec![], vec![ValTy::I32]),
        (vec![], vec![ValTy::I32]),
        (vec![], vec![ValTy::I32]),
        (vec![], vec![ValTy::I32]),
        (vec![], vec![ValTy::I32]),
        (vec![], vec![ValTy::I32]),
        (vec![], vec![ValTy::I32]),
        (vec![], vec![ValTy::I32]),
        (vec![], vec![ValTy::I32]),
        (vec![ValTy::I32], vec![ValTy::I32]),
        (vec![], vec![ValTy::F64]),
        (vec![ValTy::I64, ValTy::I64], vec![ValTy::I64]),
        (vec![], vec![ValTy::I32]),
        (vec![ValTy::F64], vec![ValTy::F64]),
        (vec![ValTy::F64], vec![ValTy::F64]),
        (vec![ValTy::F64], vec![ValTy::F64]),
        (vec![ValTy::F64], vec![ValTy::F64]),
        (vec![ValTy::F64], vec![ValTy::F64]),
        (vec![ValTy::F64], vec![ValTy::F64]),
        (vec![ValTy::F64], vec![ValTy::F64]),
        (vec![ValTy::F64], vec![ValTy::F64]),
        (vec![ValTy::F64], vec![ValTy::F64]),
        (vec![ValTy::F64], vec![ValTy::F64]),
        (vec![ValTy::F64], vec![ValTy::F64]),
        (vec![ValTy::F64, ValTy::F64], vec![ValTy::F64]),
        (vec![ValTy::F64], vec![ValTy::F64]),
        (vec![ValTy::F64], vec![ValTy::F64]),
        (vec![ValTy::F64], vec![ValTy::F64]),
        (vec![ValTy::F64], vec![ValTy::F64]),
        (vec![ValTy::F64, ValTy::F64], vec![ValTy::F64]),
    ];
    assert(signature_views(sigs@) =~~= stdlib_signatures());
    sigs
}

/// The declared locals and code of each body that `bodies` builds, in body order,
/// for the function indices in `ctx`.
pub open spec fn stdlib_body_views(ctx: &Ctx) -> Seq<(Seq<(u32, ValTy)>, Seq<Ins>)> {
    seq![
        (seq![(2u32, ValTy::I32)], make_bytes_body_code(ctx)),
        (seq![(7u32, ValTy::I32)], load_list_body_code(ctx, 2, 3)),
        (seq![(7u32, ValTy::I32)], load_list_body_code(ctx, 4, 5)),
        (seq![(10u32, ValTy::I32)], env_find_body_code(ctx)),
        (seq![(2u32, ValTy::I32), (1u32, ValTy::F64), (1u32, ValTy::I64)], ldexp_body_code(ctx)),
    ] + public_body_views(ctx)
}

/// The declared locals and code of each public helper body, in body order.
pub open spec fn public_body_views(ctx: &Ctx) -> Seq<(Seq<(u32, ValTy)>, Seq<Ins>)> {
    let none = Seq::<(u32, ValTy)>::empty();
    seq![
        (none, count_read_code(0, ValTy::I32)),
        (none, count_read_code(4, ValTy::I64)),
        (none, count_read_code(12, ValTy::I32)),
        (seq![(3u32, ValTy::I32)], env_get_code(ctx)),
        (seq![(2u32, ValTy::I32)], env_has_code(ctx)),
        (seq![(2u32, ValTy::I32)], env_unsupported_code(ctx, "environment mutation is not supported on wasm32-wasip1".spec_bytes())),
        (seq![(2u32, ValTy::I32)], env_unsupported_code(ctx, "environment mutation is not supported on wasm32-wasip1".spec_bytes())),
        (seq![(8u32, ValTy::I32)], env_all_code(ctx)),
        (seq![(2u32, ValTy::I32)], env_args_code(ctx)),
        (seq![(2u32, ValTy::I32)], clock_time_code(ctx, 0)),
        (seq![(2u32, ValTy::I32)], clock_time_code(ctx, 1)),
        (seq![(2u32, ValTy::I32)], time_sleep_code(ctx)),
        (seq![(4u32, ValTy::I32)], io_stdin_read_code(ctx)),
        (seq![(4u32, ValTy::I32)], io_write_code(ctx, 1)),
        (seq![(4u32, ValTy::I32)], io_write_code(ctx, 2)),
        (none, io_flush_code(ctx)),
        (seq![(2u32, ValTy::I32)], os_static_code(ctx, "wasm".spec_bytes())),
        (seq![(2u32, ValTy::I32)], os_static_code(ctx, "wasip1".spec_bytes())),
        (seq![(2u32, ValTy::I32)], os_static_code(ctx, "wasm32".spec_bytes())),
        (seq![(2u32, ValTy::I32)], os_static_code(ctx, "1".spec_bytes())),
        (seq![(3u32, ValTy::I32)], os_env_or_code(ctx, "HOME".spec_bytes(), "/".spec_bytes())),
        (seq![(3u32, ValTy::I32)], os_env_or_code(ctx, "TMPDIR".spec_bytes(), "/tmp".spec_bytes())),
        (seq![(2u32, ValTy::I32)], os_static_code(ctx, "/".spec_bytes())),
        (seq![(4u32, ValTy::I32)], os_current_exe_code(ctx)),
        (seq![(2u32, ValTy::I32)], env_unsupported_code(ctx, "changing the working directory is not supported on wasm32-wasip1".spec_bytes())),
        (seq![(2u32, ValTy::I32)], random_float_code(ctx)),
        (seq![(1u32, ValTy::I64), (1u32, ValTy::I32)], random_int_code(ctx)),
        (seq![(2u32, ValTy::I32)], random_bool_code(ctx)),
    ]
}

/// `views` are the bodies that `bodies` builds for these function indices:
/// `stdlib_body_views` of the context that holds them, with the internal
/// helpers at `base` onwards.
pub open spec fn stdlib_views_for(
    base: u32,
    wasi: Seq<u32>,
    alloc: u32,
    bytes_new: u32,
    views: Seq<(Seq<(u32, ValTy)>, Seq<Ins>)>,
) -> bool {
    exists|ctx: Ctx|
        ctx.wasi@ == wasi && ctx.alloc == alloc && ctx.bytes_new == bytes_new && ctx.base == base
            && ctx.make_bytes == base && ctx.load_environ == base + 1 && ctx.load_args == base + 2
            && ctx.env_find == base + 3 && ctx.ldexp == base + 4
            && views == #[trigger] stdlib_body_views(&ctx)
}

/// The helper bodies other than the math helpers, in body order: the internal
/// helpers, then the public helpers up to the first math helper. `wasi` gives
/// the function index of each WASI import in `wasi_imports()` order.
pub fn bodies(base: u32, wasi: Vec<u32>, alloc: u32, bytes_new: u32) -> (bodies: Vec<Body>)
    requires
        base + INTERNAL_COUNT <= u32::MAX,
        wasi@.len() == wasi_import_table().len(),
    ensures
        bodies_fit(bodies@, stdlib_signatures().take(INTERNAL_COUNT + helper_names().len() - MATH_COUNT)),
        stdlib_views_for(base, wasi@, alloc, bytes_new, body_views(bodies@)),
{
    let ctx = Ctx {
        wasi,
        alloc,
        bytes_new,
        make_bytes: base,
        load_environ: base + 1,
        load_args: base + 2,
        env_find: base + 3,
        ldexp: base + 4,
        base,
    };
    let mut bodies = vec![
        make_bytes_body(&ctx),
        load_list_body(&ctx, 2, 3),
        load_list_body(&ctx, 4, 5),
        env_find_body(&ctx),
        ldexp_body(&ctx),
    ];
    let public = public_bodies(&ctx);
    proof {
        assert(bodies_fit(bodies@, stdlib_signatures().take(5)));
        assert(body_views(bodies@) =~= stdlib_body_views(&ctx).take(5));
        assert(stdlib_signatures().take(5) + stdlib_signatures().subrange(5, 33) =~= stdlib_signatures().take(33));
    }
    let ghost first = bodies@;
    let ghost rest = public@;
    crate::wasm::builder::append_bodies(&mut bodies, public, Ghost(stdlib_signatures().take(5)), Ghost(stdlib_signatures().subrange(5, 33)));
    proof {
        assert(body_views(first + rest) =~= body_views(first) + body_views(rest));
        assert(stdlib_body_views(&ctx) =~= stdlib_body_views(&ctx).take(5) + public_body_views(&ctx));
    }
    bodies
}

fn public_bodies(ctx: &Ctx) -> (bodies: Vec<Body>)
    requires
        ctx.wf(),
    ensures
        bodies_fit(bodies@, stdlib_signatures().subrange(5, 33)),
        body_views(bodies@) == public_body_views(ctx),
{
    let bodies = vec![
        count_read(ctx, 0, ValTy::I32),
        count_read(ctx, 4, ValTy::I64),
        count_read(ctx, 12, ValTy::I32),
        env_get(ctx),
        env_has(ctx),
        env_unsupported(ctx, 2, "environment mutation is not supported on wasm32-wasip1"),
        env_unsupported(ctx, 1, "environment mutation is not supported on wasm32-wasip1"),
        env_all(ctx),
        env_args(ctx),
        time_now(ctx),
        time_instant(ctx),
        time_sleep(ctx),
        io_stdin_read(ctx),
        io_write(ctx, 1),
        io_write(ctx, 2),
        io_flush(ctx),
        os_static(ctx, "wasm"),
        os_static(ctx, "wasip1"),
        os_static(ctx, "wasm32"),
        os_static(ctx, "1"),
        os_env_or(ctx, "HOME", "/"),
        os_env_or(ctx, "TMPDIR", "/tmp"),
        os_static(ctx, "/"),
        os_current_exe(ctx),
        env_unsupported(ctx, 1, "changing the working directory is not supported on wasm32-wasip1"),
        random_float(ctx),
        random_int(ctx),
        random_bool(ctx),
    ];
    assert(bodies_fit(bodies@, stdlib_signatures().subrange(5, 33)));
    assert(body_views(bodies@) =~= public_body_views(ctx));
    bodies
}

/// `c` followed by the code that `store_bytes` emits: one byte store per byte of `bytes`,
/// at its index from the address in `local`.
pub open spec fn store_bytes_code(c: Seq<Ins>, local: u32, bytes: Seq<u8>) -> Seq<Ins>
    decreases bytes.len(),
{
    if bytes.len() == 0 {
        c
    } else {
        store_bytes_code(c, local, bytes.drop_last())
            .push(Ins::LocalGet(local))
            .push(Ins::I32Const((bytes.len() - 1) as i32))
            .push(Ins::I32Add)
            .push(Ins::I32Const(bytes.last() as i32))
            .push(Ins::I32Store8(m(0)))
    }
}

/// Emits code storing `bytes` at `local + 0 ..`, one byte at a time.
fn store_bytes(f: &mut Builder, local: u32, bytes: &[u8])
    requires
        old(f).wf(),
        old(f).frames().len() >= 1,
        local < old(f).nlocals(),
    ensures
        final(f).code() == store_bytes_code(old(f).code(), local, bytes@),
        final(f).wf(),
        final(f).params() == old(f).params(),
        final(f).locals() == old(f).locals(),
        final(f).frames() == old(f).frames(),
{
    let mut index: usize = 0;
    while index < bytes.len()
        invariant
            f.wf(),
            f.params() == old(f).params(),
            f.locals() == old(f).locals(),
            f.frames() == old(f).frames(),
            old(f).frames().len() >= 1,
            local < old(f).nlocals(),
            index <= bytes@.len(),
            f.code() == store_bytes_code(old(f).code(), local, bytes@.subrange(0, index as int)),
        decreases bytes@.len() - index,
    {
        assert(bytes@.subrange(0, index + 1).drop_last() =~= bytes@.subrange(0, index as int));
        f.push(Ins::LocalGet(local));
        f.push(Ins::I32Const(index as i32));
        f.push(Ins::I32Add);
        f.push(Ins::I32Const(bytes[index] as i32));
        f.push(Ins::I32Store8(m(0)));
        index = index + 1;
    }
    assert(bytes@.subrange(0, bytes@.len() as int) =~= bytes@);
}


/// The code that `count_read` emits: a load of the count at `offset`, 64-bit for `I64`.
#[verifier::opaque]
pub open spec fn count_read_code(offset: u64, ty: ValTy) -> Seq<Ins> {
    let load = match ty {
        ValTy::I64 => Ins::I64Load(m(offset)),
        _ => Ins::I32Load(m(offset)),
    };
    Seq::<Ins>::empty().push(Ins::LocalGet(0)).push(load).push(Ins::End)
}

/// `(handle: i32) -> value`: reads a field of a counted-resource handle.
pub(crate) fn count_read(_ctx: &Ctx, offset: u64, ty: ValTy) -> (body: Body)
    ensures
        body.code@ == count_read_code(offset, ty),
        body.locals@ == Seq::<(u32, ValTy)>::empty(),
        body.valid(),
        body.params == 1,
{
    proof {
        reveal(count_read_code);
    }
    let mut f = Builder::new(1);
    f.push(Ins::LocalGet(0));
    match ty {
        ValTy::I64 => f.push(Ins::I64Load(m(offset))),
        _ => f.push(Ins::I32Load(m(offset))),
    };
    f.push(Ins::End);
    f.finish()
}

/// The code that `make_bytes_body` emits.
#[verifier::opaque]
pub open spec fn make_bytes_body_code(ctx: &Ctx) -> Seq<Ins> {
    let c = Seq::<Ins>::empty();
    c
        .push(Ins::LocalGet(2))
        .push(Ins::I32Const(4))
        .push(Ins::I32Add)
        .push(Ins::Call(ctx.bytes_new))
        .push(Ins::LocalSet(3))
        .push(Ins::LocalGet(3))
        .push(Ins::I32Load(m(12)))
        .push(Ins::LocalSet(4))
        .push(Ins::LocalGet(4))
        .push(Ins::LocalGet(0))
        .push(Ins::I32Store(m(0)))
        .push(Ins::LocalGet(4))
        .push(Ins::I32Const(4))
        .push(Ins::I32Add)
        .push(Ins::LocalGet(1))
        .push(Ins::LocalGet(2))
        .push(Ins::MemoryCopy { src_mem: 0, dst_mem: 0 })
        .push(Ins::LocalGet(3))
        .push(Ins::End)
}

/// `(status: i32, ptr: i32, len: i32) -> bytes` envelope.
pub(crate) fn make_bytes_body(ctx: &Ctx) -> (body: Body)
    requires
        ctx.wf(),
    ensures
        body.code@ == make_bytes_body_code(ctx),
        body.locals@ == seq![(2u32, ValTy::I32)],
        body.valid(),
        body.params == 3,
{
    proof {
        reveal(make_bytes_body_code);
    }
    // locals: 3 = handle, 4 = data.
    let mut f = Builder::new(3);
    f.declare(2, ValTy::I32);
    f.push(Ins::LocalGet(2));
    f.push(Ins::I32Const(4));
    f.push(Ins::I32Add);
    f.push(Ins::Call(ctx.bytes_new));
    f.push(Ins::LocalSet(3));
    f.push(Ins::LocalGet(3));
    f.push(Ins::I32Load(m(12)));
    f.push(Ins::LocalSet(4));
    f.push(Ins::LocalGet(4));
    f.push(Ins::LocalGet(0));
    f.push(Ins::I32Store(m(0)));
    f.push(Ins::LocalGet(4));
    f.push(Ins::I32Const(4));
    f.push(Ins::I32Add);
    f.push(Ins::LocalGet(1));
    f.push(Ins::LocalGet(2));
    f.push(Ins::MemoryCopy {
        src_mem: 0,
        dst_mem: 0,
    });
    f.push(Ins::LocalGet(3));
    f.push(Ins::End);
    assert(f.locals() =~= seq![(2u32, ValTy::I32)]);
    f.finish()
}

/// The code that `load_list_body` emits, with the WASI imports at `sizes` and `get`.
#[verifier::opaque]
pub open spec fn load_list_body_code(ctx: &Ctx, sizes: usize, get: usize) -> Seq<Ins> {
    Seq::<Ins>::empty()
        .push(Ins::I32Const(8))
        .push(Ins::Call(ctx.alloc))
        .push(Ins::LocalSet(1))
        .push(Ins::LocalGet(1))
        .push(Ins::LocalGet(1))
        .push(Ins::I32Const(4))
        .push(Ins::I32Add)
        .push(Ins::Call(ctx.wasi@[sizes as int]))
        .push(Ins::Drop)
        .push(Ins::LocalGet(1))
        .push(Ins::I32Load(m(0)))
        .push(Ins::LocalSet(2))
        .push(Ins::LocalGet(1))
        .push(Ins::I32Load(m(4)))
        .push(Ins::LocalSet(3))
        .push(Ins::LocalGet(3))
        .push(Ins::I32Const(1))
        .push(Ins::I32Add)
        .push(Ins::Call(ctx.alloc))
        .push(Ins::LocalSet(4))
        .push(Ins::LocalGet(2))
        .push(Ins::I32Const(4))
        .push(Ins::I32Mul)
        .push(Ins::I32Const(4))
        .push(Ins::I32Add)
        .push(Ins::Call(ctx.alloc))
        .push(Ins::LocalSet(5))
        .push(Ins::LocalGet(5))
        .push(Ins::LocalGet(4))
        .push(Ins::Call(ctx.wasi@[get as int]))
        .push(Ins::Drop)
        .push(Ins::I32Const(16))
        .push(Ins::Call(ctx.alloc))
        .push(Ins::LocalSet(6))
        .push(Ins::LocalGet(6))
        .push(Ins::LocalGet(2))
        .push(Ins::I32Store(m(0)))
        .push(Ins::LocalGet(6))
        .push(Ins::LocalGet(3))
        .push(Ins::I32Store(m(4)))
        .push(Ins::LocalGet(6))
        .push(Ins::LocalGet(4))
        .push(Ins::I32Store(m(8)))
        .push(Ins::LocalGet(6))
        .push(Ins::LocalGet(5))
        .push(Ins::I32Store(m(12)))
        .push(Ins::LocalGet(6))
        .push(Ins::End)
}

/// `(sizes_get, get) -> ptr` to `[count, len, buf, ptrs]` for environ/args.
pub(crate) fn load_list_body(ctx: &Ctx, sizes: usize, get: usize) -> (body: Body)
    requires
        ctx.wf(),
        sizes < 9,
        get < 9,
    ensures
        body.code@ == load_list_body_code(ctx, sizes, get),
        body.locals@ == seq![(7u32, ValTy::I32)],
        body.valid(),
        body.params == 0,
{
    proof {
        reveal(load_list_body_code);
    }
    let sizes_get = ctx.wasi[sizes];
    let get = ctx.wasi[get];
    // locals: 1 = sizes, 2 = count, 3 = size, 4 = buf, 5 = ptrs, 6 = out.
    let mut f = Builder::new(0);
    f.declare(7, ValTy::I32);
    f.push(Ins::I32Const(8));
    f.push(Ins::Call(ctx.alloc));
    f.push(Ins::LocalSet(1));
    f.push(Ins::LocalGet(1));
    f.push(Ins::LocalGet(1));
    f.push(Ins::I32Const(4));
    f.push(Ins::I32Add);
    f.push(Ins::Call(sizes_get));
    f.push(Ins::Drop);
    f.push(Ins::LocalGet(1));
    f.push(Ins::I32Load(m(0)));
    f.push(Ins::LocalSet(2));
    f.push(Ins::LocalGet(1));
    f.push(Ins::I32Load(m(4)));
    f.push(Ins::LocalSet(3));
    f.push(Ins::LocalGet(3));
    f.push(Ins::I32Const(1));
    f.push(Ins::I32Add);
    f.push(Ins::Call(ctx.alloc));
    f.push(Ins::LocalSet(4));
    f.push(Ins::LocalGet(2));
    f.push(Ins::I32Const(4));
    f.push(Ins::I32Mul);
    f.push(Ins::I32Const(4));
    f.push(Ins::I32Add);
    f.push(Ins::Call(ctx.alloc));
    f.push(Ins::LocalSet(5));
    f.push(Ins::LocalGet(5));
    f.push(Ins::LocalGet(4));
    f.push(Ins::Call(get));
    f.push(Ins::Drop);
    f.push(Ins::I32Const(16));
    f.push(Ins::Call(ctx.alloc));
    f.push(Ins::LocalSet(6));
    f.push(Ins::LocalGet(6));
    f.push(Ins::LocalGet(2));
    f.push(Ins::I32Store(m(0)));
    f.push(Ins::LocalGet(6));
    f.push(Ins::LocalGet(3));
    f.push(Ins::I32Store(m(4)));
    f.push(Ins::LocalGet(6));
    f.push(Ins::LocalGet(4));
    f.push(Ins::I32Store(m(8)));
    f.push(Ins::LocalGet(6));
    f.push(Ins::LocalGet(5));
    f.push(Ins::I32Store(m(12)));
    f.push(Ins::LocalGet(6));
    f.push(Ins::End);
    assert(f.locals() =~= seq![(7u32, ValTy::I32)]);
    f.finish()
}

/// The code that `env_find_body` emits.
#[verifier::opaque]
pub open spec fn env_find_body_code(ctx: &Ctx) -> Seq<Ins> {
    let c = Seq::<Ins>::empty();
    c
        .push(Ins::Call(ctx.load_environ))
        .push(Ins::LocalSet(2))
        .push(Ins::LocalGet(2))
        .push(Ins::I32Load(m(8)))
        .push(Ins::LocalSet(3))
        .push(Ins::LocalGet(2))
        .push(Ins::I32Load(m(4)))
        .push(Ins::LocalSet(4))
        .push(Ins::I32Const(12))
        .push(Ins::Call(ctx.alloc))
        .push(Ins::LocalSet(8))
        .push(Ins::LocalGet(8))
        .push(Ins::I32Const(0))
        .push(Ins::I32Store(m(0)))
        .push(Ins::LocalGet(8))
        .push(Ins::I32Const(0))
        .push(Ins::I32Store(m(4)))
        .push(Ins::LocalGet(8))
        .push(Ins::I32Const(0))
        .push(Ins::I32Store(m(8)))
        .push(Ins::I32Const(0))
        .push(Ins::LocalSet(5))
        .push(Ins::I32Const(0))
        .push(Ins::LocalSet(11))
        .push(Ins::Block(BlockTy::Empty))
        .push(Ins::Loop(BlockTy::Empty))
        .push(Ins::LocalGet(5))
        .push(Ins::LocalGet(4))
        .push(Ins::I32GeU)
        .push(Ins::BrIf(1))
        .push(Ins::LocalGet(11))
        .push(Ins::BrIf(1))
        .push(Ins::LocalGet(5))
        .push(Ins::I32Eqz)
        .push(Ins::If(BlockTy::Result(ValTy::I32)))
        .push(Ins::I32Const(1))
        .push(Ins::Else)
        .push(Ins::LocalGet(3))
        .push(Ins::LocalGet(5))
        .push(Ins::I32Add)
        .push(Ins::I32Const(1))
        .push(Ins::I32Sub)
        .push(Ins::I32Load8U(m(0)))
        .push(Ins::I32Eqz)
        .push(Ins::End)
        .push(Ins::If(BlockTy::Empty))
        .push(Ins::LocalGet(1))
        .push(Ins::I32Const(1))
        .push(Ins::I32Add)
        .push(Ins::LocalGet(4))
        .push(Ins::LocalGet(5))
        .push(Ins::I32Sub)
        .push(Ins::I32LeU)
        .push(Ins::LocalGet(3))
        .push(Ins::LocalGet(5))
        .push(Ins::I32Add)
        .push(Ins::LocalGet(1))
        .push(Ins::I32Add)
        .push(Ins::I32Load8U(m(0)))
        .push(Ins::I32Const(61))
        .push(Ins::I32Eq)
        .push(Ins::I32And)
        .push(Ins::If(BlockTy::Empty))
        .push(Ins::I32Const(1))
        .push(Ins::LocalSet(7))
        .push(Ins::I32Const(0))
        .push(Ins::LocalSet(6))
        .push(Ins::Block(BlockTy::Empty))
        .push(Ins::Loop(BlockTy::Empty))
        .push(Ins::LocalGet(6))
        .push(Ins::LocalGet(1))
        .push(Ins::I32GeU)
        .push(Ins::BrIf(1))
        .push(Ins::LocalGet(3))
        .push(Ins::LocalGet(5))
        .push(Ins::I32Add)
        .push(Ins::LocalGet(6))
        .push(Ins::I32Add)
        .push(Ins::I32Load8U(m(0)))
        .push(Ins::LocalGet(0))
        .push(Ins::LocalGet(6))
        .push(Ins::I32Add)
        .push(Ins::I32Load8U(m(0)))
        .push(Ins::I32Ne)
        .push(Ins::If(BlockTy::Empty))
        .push(Ins::I32Const(0))
        .push(Ins::LocalSet(7))
        .push(Ins::Br(2))
        .push(Ins::End)
        .push(Ins::LocalGet(6))
        .push(Ins::I32Const(1))
        .push(Ins::I32Add)
        .push(Ins::LocalSet(6))
        .push(Ins::Br(0))
        .push(Ins::End)
        .push(Ins::End)
        .push(Ins::LocalGet(7))
        .push(Ins::If(BlockTy::Empty))
        .push(Ins::LocalGet(3))
        .push(Ins::LocalGet(5))
        .push(Ins::I32Add)
        .push(Ins::LocalGet(1))
        .push(Ins::I32Add)
        .push(Ins::I32Const(1))
        .push(Ins::I32Add)
        .push(Ins::LocalSet(9))
        .push(Ins::LocalGet(8))
        .push(Ins::LocalGet(9))
        .push(Ins::I32Store(m(4)))
        .push(Ins::LocalGet(9))
        .push(Ins::LocalSet(10))
        .push(Ins::Block(BlockTy::Empty))
        .push(Ins::Loop(BlockTy::Empty))
        .push(Ins::LocalGet(10))
        .push(Ins::I32Load8U(m(0)))
        .push(Ins::I32Eqz)
        .push(Ins::BrIf(1))
        .push(Ins::LocalGet(10))
        .push(Ins::I32Const(1))
        .push(Ins::I32Add)
        .push(Ins::LocalSet(10))
        .push(Ins::Br(0))
        .push(Ins::End)
        .push(Ins::End)
        .push(Ins::LocalGet(8))
        .push(Ins::LocalGet(10))
        .push(Ins::LocalGet(9))
        .push(Ins::I32Sub)
        .push(Ins::I32Store(m(8)))
        .push(Ins::LocalGet(8))
        .push(Ins::I32Const(1))
        .push(Ins::I32Store(m(0)))
        .push(Ins::I32Const(1))
        .push(Ins::LocalSet(11))
        .push(Ins::End)
        .push(Ins::End)
        .push(Ins::End)
        .push(Ins::LocalGet(5))
        .push(Ins::I32Const(1))
        .push(Ins::I32Add)
        .push(Ins::LocalSet(5))
        .push(Ins::Br(0))
        .push(Ins::End)
        .push(Ins::End)
        .push(Ins::LocalGet(8))
        .push(Ins::End)
}

/// `(name_ptr, name_len) -> ptr` to `[found: i32, value_ptr: i32, value_len: i32]`.
pub(crate) fn env_find_body(ctx: &Ctx) -> (body: Body)
    requires
        ctx.wf(),
    ensures
        body.code@ == env_find_body_code(ctx),
        body.locals@ == seq![(10u32, ValTy::I32)],
        body.valid(),
        body.params == 2,
{
    proof {
        reveal(env_find_body_code);
    }
    // locals: 2 = list, 3 = buf, 4 = size, 5 = i, 6 = j, 7 = match, 8 = out,
    // 9 = value_ptr, 10 = value_end, 11 = done.
    let mut f = Builder::new(2);
    f.declare(10, ValTy::I32);
    f.push(Ins::Call(ctx.load_environ));
    f.push(Ins::LocalSet(2));
    f.push(Ins::LocalGet(2));
    f.push(Ins::I32Load(m(8)));
    f.push(Ins::LocalSet(3));
    f.push(Ins::LocalGet(2));
    f.push(Ins::I32Load(m(4)));
    f.push(Ins::LocalSet(4));
    f.push(Ins::I32Const(12));
    f.push(Ins::Call(ctx.alloc));
    f.push(Ins::LocalSet(8));
    f.push(Ins::LocalGet(8));
    f.push(Ins::I32Const(0));
    f.push(Ins::I32Store(m(0)));
    f.push(Ins::LocalGet(8));
    f.push(Ins::I32Const(0));
    f.push(Ins::I32Store(m(4)));
    f.push(Ins::LocalGet(8));
    f.push(Ins::I32Const(0));
    f.push(Ins::I32Store(m(8)));
    f.push(Ins::I32Const(0));
    f.push(Ins::LocalSet(5));
    f.push(Ins::I32Const(0));
    f.push(Ins::LocalSet(11));
    f.push(Ins::Block(BlockTy::Empty));
    f.push(Ins::Loop(BlockTy::Empty));
    f.push(Ins::LocalGet(5));
    f.push(Ins::LocalGet(4));
    f.push(Ins::I32GeU);
    f.push(Ins::BrIf(1));
    f.push(Ins::LocalGet(11));
    f.push(Ins::BrIf(1));
    // entry start: i == 0 || buf[i-1] == 0
    f.push(Ins::LocalGet(5));
    f.push(Ins::I32Eqz);
    f.push(Ins::If(BlockTy::Result(ValTy::I32)));
    f.push(Ins::I32Const(1));
    f.push(Ins::Else);
    f.push(Ins::LocalGet(3));
    f.push(Ins::LocalGet(5));
    f.push(Ins::I32Add);
    f.push(Ins::I32Const(1));
    f.push(Ins::I32Sub);
    f.push(Ins::I32Load8U(m(0)));
    f.push(Ins::I32Eqz);
    f.push(Ins::End);
    f.push(Ins::If(BlockTy::Empty));
    // room check: name_len + 1 <= size - i, and buf[i+name_len] == '='
    f.push(Ins::LocalGet(1));
    f.push(Ins::I32Const(1));
    f.push(Ins::I32Add);
    f.push(Ins::LocalGet(4));
    f.push(Ins::LocalGet(5));
    f.push(Ins::I32Sub);
    f.push(Ins::I32LeU);
    f.push(Ins::LocalGet(3));
    f.push(Ins::LocalGet(5));
    f.push(Ins::I32Add);
    f.push(Ins::LocalGet(1));
    f.push(Ins::I32Add);
    f.push(Ins::I32Load8U(m(0)));
    f.push(Ins::I32Const(61));
    f.push(Ins::I32Eq);
    f.push(Ins::I32And);
    f.push(Ins::If(BlockTy::Empty));
    // compare name bytes
    f.push(Ins::I32Const(1));
    f.push(Ins::LocalSet(7));
    f.push(Ins::I32Const(0));
    f.push(Ins::LocalSet(6));
    f.push(Ins::Block(BlockTy::Empty));
    f.push(Ins::Loop(BlockTy::Empty));
    f.push(Ins::LocalGet(6));
    f.push(Ins::LocalGet(1));
    f.push(Ins::I32GeU);
    f.push(Ins::BrIf(1));
    f.push(Ins::LocalGet(3));
    f.push(Ins::LocalGet(5));
    f.push(Ins::I32Add);
    f.push(Ins::LocalGet(6));
    f.push(Ins::I32Add);
    f.push(Ins::I32Load8U(m(0)));
    f.push(Ins::LocalGet(0));
    f.push(Ins::LocalGet(6));
    f.push(Ins::I32Add);
    f.push(Ins::I32Load8U(m(0)));
    f.push(Ins::I32Ne);
    f.push(Ins::If(BlockTy::Empty));
    f.push(Ins::I32Const(0));
    f.push(Ins::LocalSet(7));
    f.push(Ins::Br(2));
    f.push(Ins::End);
    f.push(Ins::LocalGet(6));
    f.push(Ins::I32Const(1));
    f.push(Ins::I32Add);
    f.push(Ins::LocalSet(6));
    f.push(Ins::Br(0));
    f.push(Ins::End);
    f.push(Ins::End);
    f.push(Ins::LocalGet(7));
    f.push(Ins::If(BlockTy::Empty));
    // value_ptr = buf + i + name_len + 1
    f.push(Ins::LocalGet(3));
    f.push(Ins::LocalGet(5));
    f.push(Ins::I32Add);
    f.push(Ins::LocalGet(1));
    f.push(Ins::I32Add);
    f.push(Ins::I32Const(1));
    f.push(Ins::I32Add);
    f.push(Ins::LocalSet(9));
    f.push(Ins::LocalGet(8));
    f.push(Ins::LocalGet(9));
    f.push(Ins::I32Store(m(4)));
    // value_end = value_ptr; while buf[value_end] != 0: value_end++
    f.push(Ins::LocalGet(9));
    f.push(Ins::LocalSet(10));
    f.push(Ins::Block(BlockTy::Empty));
    f.push(Ins::Loop(BlockTy::Empty));
    f.push(Ins::LocalGet(10));
    f.push(Ins::I32Load8U(m(0)));
    f.push(Ins::I32Eqz);
    f.push(Ins::BrIf(1));
    f.push(Ins::LocalGet(10));
    f.push(Ins::I32Const(1));
    f.push(Ins::I32Add);
    f.push(Ins::LocalSet(10));
    f.push(Ins::Br(0));
    f.push(Ins::End);
    f.push(Ins::End);
    f.push(Ins::LocalGet(8));
    f.push(Ins::LocalGet(10));
    f.push(Ins::LocalGet(9));
    f.push(Ins::I32Sub);
    f.push(Ins::I32Store(m(8)));
    f.push(Ins::LocalGet(8));
    f.push(Ins::I32Const(1));
    f.push(Ins::I32Store(m(0)));
    f.push(Ins::I32Const(1));
    f.push(Ins::LocalSet(11));
    f.push(Ins::End);
    f.push(Ins::End);
    f.push(Ins::End);
    f.push(Ins::LocalGet(5));
    f.push(Ins::I32Const(1));
    f.push(Ins::I32Add);
    f.push(Ins::LocalSet(5));
    f.push(Ins::Br(0));
    f.push(Ins::End);
    f.push(Ins::End);
    f.push(Ins::LocalGet(8));
    f.push(Ins::End);
    assert(f.locals() =~= seq![(10u32, ValTy::I32)]);
    f.finish()
}

// ---- env public helpers ----

/// The code that `env_get` emits.
#[verifier::opaque]
pub open spec fn env_get_code(ctx: &Ctx) -> Seq<Ins> {
    let c = Seq::<Ins>::empty();
    c
        .push(Ins::LocalGet(0))
        .push(Ins::I32Load(m(0)))
        .push(Ins::LocalSet(1))
        .push(Ins::LocalGet(0))
        .push(Ins::I32Const(4))
        .push(Ins::I32Add)
        .push(Ins::LocalGet(1))
        .push(Ins::Call(ctx.env_find))
        .push(Ins::LocalSet(2))
        .push(Ins::LocalGet(2))
        .push(Ins::I32Load(m(0)))
        .push(Ins::If(BlockTy::Result(ValTy::I32)))
        .push(Ins::I32Const(0))
        .push(Ins::LocalGet(2))
        .push(Ins::I32Load(m(4)))
        .push(Ins::LocalGet(2))
        .push(Ins::I32Load(m(8)))
        .push(Ins::Call(ctx.make_bytes))
        .push(Ins::Else)
        .push(Ins::I32Const(1))
        .push(Ins::I32Const(0))
        .push(Ins::I32Const(0))
        .push(Ins::Call(ctx.make_bytes))
        .push(Ins::End)
        .push(Ins::End)
}

pub(crate) fn env_get(ctx: &Ctx) -> (body: Body)
    requires
        ctx.wf(),
    ensures
        body.code@ == env_get_code(ctx),
        body.locals@ == seq![(3u32, ValTy::I32)],
        body.valid(),
        body.params == 1,
{
    proof {
        reveal(env_get_code);
    }
    // (name: str) -> bytes; locals: 1 = name_len, 2 = found.
    let mut f = Builder::new(1);
    f.declare(3, ValTy::I32);
    f.push(Ins::LocalGet(0));
    f.push(Ins::I32Load(m(0)));
    f.push(Ins::LocalSet(1));
    f.push(Ins::LocalGet(0));
    f.push(Ins::I32Const(4));
    f.push(Ins::I32Add);
    f.push(Ins::LocalGet(1));
    f.push(Ins::Call(ctx.env_find));
    f.push(Ins::LocalSet(2));
    f.push(Ins::LocalGet(2));
    f.push(Ins::I32Load(m(0)));
    f.push(Ins::If(BlockTy::Result(ValTy::I32)));
    f.push(Ins::I32Const(0));
    f.push(Ins::LocalGet(2));
    f.push(Ins::I32Load(m(4)));
    f.push(Ins::LocalGet(2));
    f.push(Ins::I32Load(m(8)));
    f.push(Ins::Call(ctx.make_bytes));
    f.push(Ins::Else);
    f.push(Ins::I32Const(1));
    f.push(Ins::I32Const(0));
    f.push(Ins::I32Const(0));
    f.push(Ins::Call(ctx.make_bytes));
    f.push(Ins::End);
    f.push(Ins::End);
    assert(f.locals() =~= seq![(3u32, ValTy::I32)]);
    f.finish()
}

/// The code that `env_has` emits.
#[verifier::opaque]
pub open spec fn env_has_code(ctx: &Ctx) -> Seq<Ins> {
    let c = Seq::<Ins>::empty();
    c
        .push(Ins::LocalGet(0))
        .push(Ins::I32Load(m(0)))
        .push(Ins::LocalSet(1))
        .push(Ins::LocalGet(0))
        .push(Ins::I32Const(4))
        .push(Ins::I32Add)
        .push(Ins::LocalGet(1))
        .push(Ins::Call(ctx.env_find))
        .push(Ins::I32Load(m(0)))
        .push(Ins::End)
}

pub(crate) fn env_has(ctx: &Ctx) -> (body: Body)
    requires
        ctx.wf(),
    ensures
        body.code@ == env_has_code(ctx),
        body.locals@ == seq![(2u32, ValTy::I32)],
        body.valid(),
        body.params == 1,
{
    proof {
        reveal(env_has_code);
    }
    let mut f = Builder::new(1);
    f.declare(2, ValTy::I32);
    f.push(Ins::LocalGet(0));
    f.push(Ins::I32Load(m(0)));
    f.push(Ins::LocalSet(1));
    f.push(Ins::LocalGet(0));
    f.push(Ins::I32Const(4));
    f.push(Ins::I32Add);
    f.push(Ins::LocalGet(1));
    f.push(Ins::Call(ctx.env_find));
    f.push(Ins::I32Load(m(0)));
    f.push(Ins::End);
    assert(f.locals() =~= seq![(2u32, ValTy::I32)]);
    f.finish()
}

/// The code that `env_unsupported` emits for a message with UTF-8 bytes `bytes`.
#[verifier::opaque]
pub open spec fn env_unsupported_code(ctx: &Ctx, bytes: Seq<u8>) -> Seq<Ins> {
    let c = Seq::<Ins>::empty()
        .push(Ins::I32Const(bytes.len() as i32))
        .push(Ins::Call(ctx.alloc))
        .push(Ins::LocalSet(1));
    store_bytes_code(c, 1, bytes)
        .push(Ins::I32Const(8))
        .push(Ins::LocalGet(1))
        .push(Ins::I32Const(bytes.len() as i32))
        .push(Ins::Call(ctx.make_bytes))
        .push(Ins::End)
}

pub(crate) fn env_unsupported(ctx: &Ctx, params: u32, message: &str) -> (body: Body)
    requires
        ctx.wf(),
        1 <= params <= 2,
    ensures
        body.code@ == env_unsupported_code(ctx, message.spec_bytes()),
        body.locals@ == seq![(2u32, ValTy::I32)],
        body.valid(),
        body.params == params,
{
    proof {
        reveal(env_unsupported_code);
    }
    // Returns an envelope with status 8 and `message` as the payload.
    let bytes = message.as_bytes();
    let mut f = Builder::new(params);
    f.declare(2, ValTy::I32);
    // static message is copied from a fixed scratch region we write inline.
    f.push(Ins::I32Const(bytes.len() as i32));
    f.push(Ins::Call(ctx.alloc));
    f.push(Ins::LocalSet(1));
    store_bytes(&mut f, 1, bytes);
    f.push(Ins::I32Const(8));
    f.push(Ins::LocalGet(1));
    f.push(Ins::I32Const(bytes.len() as i32));
    f.push(Ins::Call(ctx.make_bytes));
    f.push(Ins::End);
    assert(f.locals() =~= seq![(2u32, ValTy::I32)]);
    f.finish()
}

/// The code that `env_all` emits.
#[verifier::opaque]
pub open spec fn env_all_code(ctx: &Ctx) -> Seq<Ins> {
    let c = Seq::<Ins>::empty();
    c
        .push(Ins::Call(ctx.load_environ))
        .push(Ins::LocalSet(1))
        .push(Ins::LocalGet(1))
        .push(Ins::I32Load(m(8)))
        .push(Ins::LocalSet(2))
        .push(Ins::LocalGet(1))
        .push(Ins::I32Load(m(4)))
        .push(Ins::LocalSet(3))
        .push(Ins::LocalGet(3))
        .push(Ins::I32Const(2))
        .push(Ins::I32Mul)
        .push(Ins::I32Const(2))
        .push(Ins::I32Add)
        .push(Ins::Call(ctx.alloc))
        .push(Ins::LocalSet(5))
        .push(Ins::I32Const(0))
        .push(Ins::LocalSet(4))
        .push(Ins::I32Const(0))
        .push(Ins::LocalSet(6))
        .push(Ins::Block(BlockTy::Empty))
        .push(Ins::Loop(BlockTy::Empty))
        .push(Ins::LocalGet(4))
        .push(Ins::LocalGet(3))
        .push(Ins::I32GeU)
        .push(Ins::BrIf(1))
        .push(Ins::LocalGet(2))
        .push(Ins::LocalGet(4))
        .push(Ins::I32Add)
        .push(Ins::I32Load8U(m(0)))
        .push(Ins::LocalSet(7))
        .push(Ins::LocalGet(7))
        .push(Ins::I32Const(61))
        .push(Ins::I32Eq)
        .push(Ins::If(BlockTy::Empty))
        .push(Ins::I32Const(0))
        .push(Ins::LocalSet(7))
        .push(Ins::End)
        .push(Ins::LocalGet(5))
        .push(Ins::LocalGet(6))
        .push(Ins::I32Add)
        .push(Ins::LocalGet(7))
        .push(Ins::I32Store8(m(0)))
        .push(Ins::LocalGet(6))
        .push(Ins::I32Const(1))
        .push(Ins::I32Add)
        .push(Ins::LocalSet(6))
        .push(Ins::LocalGet(4))
        .push(Ins::I32Const(1))
        .push(Ins::I32Add)
        .push(Ins::LocalSet(4))
        .push(Ins::Br(0))
        .push(Ins::End)
        .push(Ins::End)
        .push(Ins::I32Const(0))
        .push(Ins::LocalGet(5))
        .push(Ins::LocalGet(6))
        .push(Ins::Call(ctx.make_bytes))
        .push(Ins::End)
}

pub(crate) fn env_all(ctx: &Ctx) -> (body: Body)
    requires
        ctx.wf(),
    ensures
        body.code@ == env_all_code(ctx),
        body.locals@ == seq![(8u32, ValTy::I32)],
        body.valid(),
        body.params == 0,
{
    proof {
        reveal(env_all_code);
    }
    // Envelope status 0 with payload = environ buffer, but `KEY=VALUE` must
    // become `KEY\0VALUE\0`. We rewrite `=` to `\0` and append a `\0` per entry.
    // locals: 1 = list, 2 = buf, 3 = size, 4 = i, 5 = out, 6 = out_len, 7 = b.
    let mut f = Builder::new(0);
    f.declare(8, ValTy::I32);
    f.push(Ins::Call(ctx.load_environ));
    f.push(Ins::LocalSet(1));
    f.push(Ins::LocalGet(1));
    f.push(Ins::I32Load(m(8)));
    f.push(Ins::LocalSet(2));
    f.push(Ins::LocalGet(1));
    f.push(Ins::I32Load(m(4)));
    f.push(Ins::LocalSet(3));
    // out = alloc(size + count + 1) — over-allocate size*2 to be safe.
    f.push(Ins::LocalGet(3));
    f.push(Ins::I32Const(2));
    f.push(Ins::I32Mul);
    f.push(Ins::I32Const(2));
    f.push(Ins::I32Add);
    f.push(Ins::Call(ctx.alloc));
    f.push(Ins::LocalSet(5));
    f.push(Ins::I32Const(0));
    f.push(Ins::LocalSet(4));
    f.push(Ins::I32Const(0));
    f.push(Ins::LocalSet(6));
    f.push(Ins::Block(BlockTy::Empty));
    f.push(Ins::Loop(BlockTy::Empty));
    f.push(Ins::LocalGet(4));
    f.push(Ins::LocalGet(3));
    f.push(Ins::I32GeU);
    f.push(Ins::BrIf(1));
    f.push(Ins::LocalGet(2));
    f.push(Ins::LocalGet(4));
    f.push(Ins::I32Add);
    f.push(Ins::I32Load8U(m(0)));
    f.push(Ins::LocalSet(7));
    // '=' (61) -> '\0' (0)
    f.push(Ins::LocalGet(7));
    f.push(Ins::I32Const(61));
    f.push(Ins::I32Eq);
    f.push(Ins::If(BlockTy::Empty));
    f.push(Ins::I32Const(0));
    f.push(Ins::LocalSet(7));
    f.push(Ins::End);
    f.push(Ins::LocalGet(5));
    f.push(Ins::LocalGet(6));
    f.push(Ins::I32Add);
    f.push(Ins::LocalGet(7));
    f.push(Ins::I32Store8(m(0)));
    f.push(Ins::LocalGet(6));
    f.push(Ins::I32Const(1));
    f.push(Ins::I32Add);
    f.push(Ins::LocalSet(6));
    // at end of entry (byte was '\0'), emit an extra '\0'? The value already
    // ended with '\0'; we replaced '=' with '\0', giving `KEY\0VALUE\0`.
    f.push(Ins::LocalGet(4));
    f.push(Ins::I32Const(1));
    f.push(Ins::I32Add);
    f.push(Ins::LocalSet(4));
    f.push(Ins::Br(0));
    f.push(Ins::End);
    f.push(Ins::End);
    f.push(Ins::I32Const(0));
    f.push(Ins::LocalGet(5));
    f.push(Ins::LocalGet(6));
    f.push(Ins::Call(ctx.make_bytes));
    f.push(Ins::End);
    assert(f.locals() =~= seq![(8u32, ValTy::I32)]);
    f.finish()
}

/// The code that `env_args` emits.
#[verifier::opaque]
pub open spec fn env_args_code(ctx: &Ctx) -> Seq<Ins> {
    let c = Seq::<Ins>::empty();
    c
        .push(Ins::Call(ctx.load_args))
        .push(Ins::LocalSet(1))
        .push(Ins::I32Const(0))
        .push(Ins::LocalGet(1))
        .push(Ins::I32Load(m(8)))
        .push(Ins::LocalGet(1))
        .push(Ins::I32Load(m(4)))
        .push(Ins::Call(ctx.make_bytes))
        .push(Ins::End)
}

pub(crate) fn env_args(ctx: &Ctx) -> (body: Body)
    requires
        ctx.wf(),
    ensures
        body.code@ == env_args_code(ctx),
        body.locals@ == seq![(2u32, ValTy::I32)],
        body.valid(),
        body.params == 0,
{
    proof {
        reveal(env_args_code);
    }
    // Envelope status 0 with payload = the raw argv buffer (`\0`-separated).
    let mut f = Builder::new(0);
    f.declare(2, ValTy::I32);
    f.push(Ins::Call(ctx.load_args));
    f.push(Ins::LocalSet(1));
    f.push(Ins::I32Const(0));
    f.push(Ins::LocalGet(1));
    f.push(Ins::I32Load(m(8)));
    f.push(Ins::LocalGet(1));
    f.push(Ins::I32Load(m(4)));
    f.push(Ins::Call(ctx.make_bytes));
    f.push(Ins::End);
    assert(f.locals() =~= seq![(2u32, ValTy::I32)]);
    f.finish()
}

// ---- time ----

pub(crate) fn time_now(ctx: &Ctx) -> (body: Body)
    requires
        ctx.wf(),
    ensures
        body.code@ == clock_time_code(ctx, 0),
        body.locals@ == seq![(2u32, ValTy::I32)],
        body.valid(),
        body.params == 0,
{
    clock_time(ctx, 0)
}

pub(crate) fn time_instant(ctx: &Ctx) -> (body: Body)
    requires
        ctx.wf(),
    ensures
        body.code@ == clock_time_code(ctx, 1),
        body.locals@ == seq![(2u32, ValTy::I32)],
        body.valid(),
        body.params == 0,
{
    clock_time(ctx, 1)
}

/// The code that `clock_time` emits.
#[verifier::opaque]
pub open spec fn clock_time_code(ctx: &Ctx, clock_id: i32) -> Seq<Ins> {
    let c = Seq::<Ins>::empty();
    c
        .push(Ins::I32Const(8))
        .push(Ins::Call(ctx.alloc))
        .push(Ins::LocalSet(1))
        .push(Ins::I32Const(clock_id))
        .push(Ins::I64Const(1))
        .push(Ins::LocalGet(1))
        .push(Ins::Call(ctx.wasi@[6]))
        .push(Ins::Drop)
        .push(Ins::LocalGet(1))
        .push(Ins::I64Load(m(0)))
        .push(Ins::End)
}

pub(crate) fn clock_time(ctx: &Ctx, clock_id: i32) -> (body: Body)
    requires
        ctx.wf(),
    ensures
        body.code@ == clock_time_code(ctx, clock_id),
        body.locals@ == seq![(2u32, ValTy::I32)],
        body.valid(),
        body.params == 0,
{
    proof {
        reveal(clock_time_code);
    }
    // () -> i64; locals: 1 = out.
    let mut f = Builder::new(0);
    f.declare(2, ValTy::I32);
    f.push(Ins::I32Const(8));
    f.push(Ins::Call(ctx.alloc));
    f.push(Ins::LocalSet(1));
    f.push(Ins::I32Const(clock_id));
    f.push(Ins::I64Const(1));
    f.push(Ins::LocalGet(1));
    f.push(Ins::Call(ctx.wasi[6]));
    f.push(Ins::Drop);
    f.push(Ins::LocalGet(1));
    f.push(Ins::I64Load(m(0)));
    f.push(Ins::End);
    assert(f.locals() =~= seq![(2u32, ValTy::I32)]);
    f.finish()
}

/// The code that `time_sleep` emits.
#[verifier::opaque]
pub open spec fn time_sleep_code(ctx: &Ctx) -> Seq<Ins> {
    let c = Seq::<Ins>::empty();
    c
        .push(Ins::I32Const(48))
        .push(Ins::Call(ctx.alloc))
        .push(Ins::LocalSet(1))
        .push(Ins::I32Const(48))
        .push(Ins::Call(ctx.alloc))
        .push(Ins::LocalSet(2))
        .push(Ins::LocalGet(1))
        .push(Ins::I32Const(0))
        .push(Ins::I32Const(48))
        .push(Ins::MemoryFill(0))
        .push(Ins::LocalGet(1))
        .push(Ins::I32Const(0))
        .push(Ins::I32Store8(m(8)))
        .push(Ins::LocalGet(1))
        .push(Ins::I32Const(1))
        .push(Ins::I32Store(m(16)))
        .push(Ins::LocalGet(1))
        .push(Ins::LocalGet(0))
        .push(Ins::I64Store(m(32)))
        .push(Ins::LocalGet(1))
        .push(Ins::LocalGet(2))
        .push(Ins::I32Const(1))
        .push(Ins::LocalGet(1))
        .push(Ins::Call(ctx.wasi@[8]))
        .push(Ins::Drop)
        .push(Ins::End)
}

pub(crate) fn time_sleep(ctx: &Ctx) -> (body: Body)
    requires
        ctx.wf(),
    ensures
        body.code@ == time_sleep_code(ctx),
        body.locals@ == seq![(2u32, ValTy::I32)],
        body.valid(),
        body.params == 1,
{
    proof {
        reveal(time_sleep_code);
    }
    // (nanos: i64) -> (); subscription: [userdata i64][tag i8][pad][clock i32]
    // [precision i64][flags i16][pad][timeout i64] = 48 bytes.
    // locals: 1 = sub, 2 = event.
    let mut f = Builder::new(1);
    f.declare(2, ValTy::I32);
    f.push(Ins::I32Const(48));
    f.push(Ins::Call(ctx.alloc));
    f.push(Ins::LocalSet(1));
    f.push(Ins::I32Const(48));
    f.push(Ins::Call(ctx.alloc));
    f.push(Ins::LocalSet(2));
    // zero the subscription (alloc is not guaranteed zeroed)
    f.push(Ins::LocalGet(1));
    f.push(Ins::I32Const(0));
    f.push(Ins::I32Const(48));
    f.push(Ins::MemoryFill(0));
    // tag = 0 (clock) at offset 8
    f.push(Ins::LocalGet(1));
    f.push(Ins::I32Const(0));
    f.push(Ins::I32Store8(m(8)));
    // clock id = 1 (monotonic) at offset 16
    f.push(Ins::LocalGet(1));
    f.push(Ins::I32Const(1));
    f.push(Ins::I32Store(m(16)));
    // timeout = nanos at offset 32
    f.push(Ins::LocalGet(1));
    f.push(Ins::LocalGet(0));
    f.push(Ins::I64Store(m(32)));
    // poll_oneoff(sub, event, 1, nevents)
    f.push(Ins::LocalGet(1));
    f.push(Ins::LocalGet(2));
    f.push(Ins::I32Const(1));
    f.push(Ins::LocalGet(1));
    f.push(Ins::Call(ctx.wasi[8]));
    f.push(Ins::Drop);
    f.push(Ins::End);
    assert(f.locals() =~= seq![(2u32, ValTy::I32)]);
    f.finish()
}

// ---- io ----

/// The code that `io_stdin_read` emits.
#[verifier::opaque]
pub open spec fn io_stdin_read_code(ctx: &Ctx) -> Seq<Ins> {
    let c = Seq::<Ins>::empty();
    c
        .push(Ins::I32Const(4096))
        .push(Ins::Call(ctx.alloc))
        .push(Ins::LocalSet(1))
        .push(Ins::I32Const(4))
        .push(Ins::Call(ctx.alloc))
        .push(Ins::LocalSet(2))
        .push(Ins::I32Const(8))
        .push(Ins::Call(ctx.alloc))
        .push(Ins::LocalSet(3))
        .push(Ins::LocalGet(3))
        .push(Ins::LocalGet(1))
        .push(Ins::I32Store(m(0)))
        .push(Ins::LocalGet(3))
        .push(Ins::I32Const(4096))
        .push(Ins::I32Store(m(4)))
        .push(Ins::I32Const(0))
        .push(Ins::LocalGet(3))
        .push(Ins::I32Const(1))
        .push(Ins::LocalGet(2))
        .push(Ins::Call(ctx.wasi@[1]))
        .push(Ins::Drop)
        .push(Ins::I32Const(0))
        .push(Ins::LocalGet(1))
        .push(Ins::LocalGet(2))
        .push(Ins::I32Load(m(0)))
        .push(Ins::Call(ctx.make_bytes))
        .push(Ins::End)
}

pub(crate) fn io_stdin_read(ctx: &Ctx) -> (body: Body)
    requires
        ctx.wf(),
    ensures
        body.code@ == io_stdin_read_code(ctx),
        body.locals@ == seq![(4u32, ValTy::I32)],
        body.valid(),
        body.params == 0,
{
    proof {
        reveal(io_stdin_read_code);
    }
    // () -> bytes envelope; locals: 1 = buf, 2 = nread, 3 = iovec.
    let mut f = Builder::new(0);
    f.declare(4, ValTy::I32);
    f.push(Ins::I32Const(4096));
    f.push(Ins::Call(ctx.alloc));
    f.push(Ins::LocalSet(1));
    f.push(Ins::I32Const(4));
    f.push(Ins::Call(ctx.alloc));
    f.push(Ins::LocalSet(2));
    f.push(Ins::I32Const(8));
    f.push(Ins::Call(ctx.alloc));
    f.push(Ins::LocalSet(3));
    f.push(Ins::LocalGet(3));
    f.push(Ins::LocalGet(1));
    f.push(Ins::I32Store(m(0)));
    f.push(Ins::LocalGet(3));
    f.push(Ins::I32Const(4096));
    f.push(Ins::I32Store(m(4)));
    f.push(Ins::I32Const(0));
    f.push(Ins::LocalGet(3));
    f.push(Ins::I32Const(1));
    f.push(Ins::LocalGet(2));
    f.push(Ins::Call(ctx.wasi[1]));
    f.push(Ins::Drop);
    f.push(Ins::I32Const(0));
    f.push(Ins::LocalGet(1));
    f.push(Ins::LocalGet(2));
    f.push(Ins::I32Load(m(0)));
    f.push(Ins::Call(ctx.make_bytes));
    f.push(Ins::End);
    assert(f.locals() =~= seq![(4u32, ValTy::I32)]);
    f.finish()
}

/// The code that `io_write` emits.
#[verifier::opaque]
pub open spec fn io_write_code(ctx: &Ctx, fd: i32) -> Seq<Ins> {
    let c = Seq::<Ins>::empty();
    c
        .push(Ins::I32Const(8))
        .push(Ins::Call(ctx.alloc))
        .push(Ins::LocalSet(1))
        .push(Ins::I32Const(4))
        .push(Ins::Call(ctx.alloc))
        .push(Ins::LocalSet(2))
        .push(Ins::LocalGet(1))
        .push(Ins::LocalGet(0))
        .push(Ins::I32Load(m(12)))
        .push(Ins::I32Store(m(0)))
        .push(Ins::LocalGet(1))
        .push(Ins::LocalGet(0))
        .push(Ins::I32Load(m(0)))
        .push(Ins::I32Store(m(4)))
        .push(Ins::I32Const(fd))
        .push(Ins::LocalGet(1))
        .push(Ins::I32Const(1))
        .push(Ins::LocalGet(2))
        .push(Ins::Call(ctx.wasi@[0]))
        .push(Ins::Drop)
        .push(Ins::I32Const(0))
        .push(Ins::I32Const(0))
        .push(Ins::I32Const(0))
        .push(Ins::Call(ctx.make_bytes))
        .push(Ins::LocalSet(4))
        .push(Ins::I32Const(12))
        .push(Ins::Call(ctx.alloc))
        .push(Ins::LocalSet(3))
        .push(Ins::LocalGet(3))
        .push(Ins::I32Const(1))
        .push(Ins::I32Store(m(0)))
        .push(Ins::LocalGet(3))
        .push(Ins::LocalGet(2))
        .push(Ins::I32Load(m(0)))
        .push(Ins::I64ExtendI32U)
        .push(Ins::I64Store(m(4)))
        .push(Ins::LocalGet(3))
        .push(Ins::LocalGet(4))
        .push(Ins::I32Store(m(12)))
        .push(Ins::LocalGet(3))
        .push(Ins::End)
}

pub(crate) fn io_write(ctx: &Ctx, fd: i32) -> (body: Body)
    requires
        ctx.wf(),
    ensures
        body.code@ == io_write_code(ctx, fd),
        body.locals@ == seq![(4u32, ValTy::I32)],
        body.valid(),
        body.params == 1,
{
    proof {
        reveal(io_write_code);
    }
    // (blob: bytes) -> resource[Handle]; locals: 1 = iovec, 2 = nwritten,
    // 3 = handle, 4 = error bytes.
    let mut f = Builder::new(1);
    f.declare(4, ValTy::I32);
    f.push(Ins::I32Const(8));
    f.push(Ins::Call(ctx.alloc));
    f.push(Ins::LocalSet(1));
    f.push(Ins::I32Const(4));
    f.push(Ins::Call(ctx.alloc));
    f.push(Ins::LocalSet(2));
    f.push(Ins::LocalGet(1));
    f.push(Ins::LocalGet(0));
    f.push(Ins::I32Load(m(12)));
    f.push(Ins::I32Store(m(0)));
    f.push(Ins::LocalGet(1));
    f.push(Ins::LocalGet(0));
    f.push(Ins::I32Load(m(0)));
    f.push(Ins::I32Store(m(4)));
    f.push(Ins::I32Const(fd));
    f.push(Ins::LocalGet(1));
    f.push(Ins::I32Const(1));
    f.push(Ins::LocalGet(2));
    f.push(Ins::Call(ctx.wasi[0]));
    f.push(Ins::Drop);
    // error = empty bytes envelope (status 0)
    f.push(Ins::I32Const(0));
    f.push(Ins::I32Const(0));
    f.push(Ins::I32Const(0));
    f.push(Ins::Call(ctx.make_bytes));
    f.push(Ins::LocalSet(4));
    // handle = alloc(12): [valid=1, value=nwritten, error]
    f.push(Ins::I32Const(12));
    f.push(Ins::Call(ctx.alloc));
    f.push(Ins::LocalSet(3));
    f.push(Ins::LocalGet(3));
    f.push(Ins::I32Const(1));
    f.push(Ins::I32Store(m(0)));
    f.push(Ins::LocalGet(3));
    f.push(Ins::LocalGet(2));
    f.push(Ins::I32Load(m(0)));
    f.push(Ins::I64ExtendI32U);
    f.push(Ins::I64Store(m(4)));
    f.push(Ins::LocalGet(3));
    f.push(Ins::LocalGet(4));
    f.push(Ins::I32Store(m(12)));
    f.push(Ins::LocalGet(3));
    f.push(Ins::End);
    assert(f.locals() =~= seq![(4u32, ValTy::I32)]);
    f.finish()
}

/// The code that `io_flush` emits.
#[verifier::opaque]
pub open spec fn io_flush_code(ctx: &Ctx) -> Seq<Ins> {
    let c = Seq::<Ins>::empty();
    c
        .push(Ins::I32Const(0))
        .push(Ins::I32Const(0))
        .push(Ins::I32Const(0))
        .push(Ins::Call(ctx.make_bytes))
        .push(Ins::End)
}

pub(crate) fn io_flush(ctx: &Ctx) -> (body: Body)
    requires
        ctx.wf(),
    ensures
        body.code@ == io_flush_code(ctx),
        body.locals@ == Seq::<(u32, ValTy)>::empty(),
        body.valid(),
        body.params == 0,
{
    proof {
        reveal(io_flush_code);
    }
    let mut f = Builder::new(0);
    f.push(Ins::I32Const(0));
    f.push(Ins::I32Const(0));
    f.push(Ins::I32Const(0));
    f.push(Ins::Call(ctx.make_bytes));
    f.push(Ins::End);
    f.finish()
}

// ---- os ----

/// The buffer size that the byte-string bodies allocate for `bytes`: at least one byte.
pub open spec fn scratch_size(bytes: Seq<u8>) -> i32 {
    if bytes.len() == 0 {
        1
    } else {
        bytes.len() as i32
    }
}

/// The code that `os_static` emits for a value with UTF-8 bytes `bytes`.
#[verifier::opaque]
pub open spec fn os_static_code(ctx: &Ctx, bytes: Seq<u8>) -> Seq<Ins> {
    let c = Seq::<Ins>::empty()
        .push(Ins::I32Const(scratch_size(bytes)))
        .push(Ins::Call(ctx.alloc))
        .push(Ins::LocalSet(1));
    store_bytes_code(c, 1, bytes)
        .push(Ins::I32Const(0))
        .push(Ins::LocalGet(1))
        .push(Ins::I32Const(bytes.len() as i32))
        .push(Ins::Call(ctx.make_bytes))
        .push(Ins::End)
}

pub(crate) fn os_static(ctx: &Ctx, value: &str) -> (body: Body)
    requires
        ctx.wf(),
    ensures
        body.code@ == os_static_code(ctx, value.spec_bytes()),
        body.locals@ == seq![(2u32, ValTy::I32)],
        body.valid(),
        body.params == 0,
{
    proof {
        reveal(os_static_code);
    }
    let bytes = value.as_bytes();
    let mut f = Builder::new(0);
    f.declare(2, ValTy::I32);
    f.push(Ins::I32Const((if bytes.len() == 0 { 1 } else { bytes.len() as i32 })));
    f.push(Ins::Call(ctx.alloc));
    f.push(Ins::LocalSet(1));
    store_bytes(&mut f, 1, bytes);
    f.push(Ins::I32Const(0));
    f.push(Ins::LocalGet(1));
    f.push(Ins::I32Const(bytes.len() as i32));
    f.push(Ins::Call(ctx.make_bytes));
    f.push(Ins::End);
    assert(f.locals() =~= seq![(2u32, ValTy::I32)]);
    f.finish()
}

/// The code that `os_env_or` emits for a variable name with UTF-8 bytes `name` and a
/// fallback value with UTF-8 bytes `fallback`.
#[verifier::opaque]
pub open spec fn os_env_or_code(ctx: &Ctx, name: Seq<u8>, fallback: Seq<u8>) -> Seq<Ins> {
    let c = Seq::<Ins>::empty()
        .push(Ins::I32Const(scratch_size(name)))
        .push(Ins::Call(ctx.alloc))
        .push(Ins::LocalSet(1));
    let c = store_bytes_code(c, 1, name)
        .push(Ins::LocalGet(1))
        .push(Ins::I32Const(name.len() as i32))
        .push(Ins::Call(ctx.env_find))
        .push(Ins::LocalSet(2))
        .push(Ins::LocalGet(2))
        .push(Ins::I32Load(m(0)))
        .push(Ins::If(BlockTy::Result(ValTy::I32)))
        .push(Ins::I32Const(0))
        .push(Ins::LocalGet(2))
        .push(Ins::I32Load(m(4)))
        .push(Ins::LocalGet(2))
        .push(Ins::I32Load(m(8)))
        .push(Ins::Call(ctx.make_bytes))
        .push(Ins::Else)
        .push(Ins::I32Const(scratch_size(fallback)))
        .push(Ins::Call(ctx.alloc))
        .push(Ins::LocalSet(1));
    store_bytes_code(c, 1, fallback)
        .push(Ins::I32Const(0))
        .push(Ins::LocalGet(1))
        .push(Ins::I32Const(fallback.len() as i32))
        .push(Ins::Call(ctx.make_bytes))
        .push(Ins::End)
        .push(Ins::End)
}

pub(crate) fn os_env_or(ctx: &Ctx, name: &str, fallback: &str) -> (body: Body)
    requires
        ctx.wf(),
    ensures
        body.code@ == os_env_or_code(ctx, name.spec_bytes(), fallback.spec_bytes()),
        body.locals@ == seq![(3u32, ValTy::I32)],
        body.valid(),
        body.params == 0,
{
    proof {
        reveal(os_env_or_code);
    }
    // Build the name string in scratch, look it up, else use the fallback.
    let name_bytes = name.as_bytes();
    let fallback_bytes = fallback.as_bytes();
    let mut f = Builder::new(0);
    f.declare(3, ValTy::I32);
    f.push(Ins::I32Const((if name_bytes.len() == 0 { 1 } else { name_bytes.len() as i32 })));
    f.push(Ins::Call(ctx.alloc));
    f.push(Ins::LocalSet(1));
    store_bytes(&mut f, 1, name_bytes);
    f.push(Ins::LocalGet(1));
    f.push(Ins::I32Const(name_bytes.len() as i32));
    f.push(Ins::Call(ctx.env_find));
    f.push(Ins::LocalSet(2));
    f.push(Ins::LocalGet(2));
    f.push(Ins::I32Load(m(0)));
    f.push(Ins::If(BlockTy::Result(ValTy::I32)));
    f.push(Ins::I32Const(0));
    f.push(Ins::LocalGet(2));
    f.push(Ins::I32Load(m(4)));
    f.push(Ins::LocalGet(2));
    f.push(Ins::I32Load(m(8)));
    f.push(Ins::Call(ctx.make_bytes));
    f.push(Ins::Else);
    // fallback
    f.push(Ins::I32Const((if fallback_bytes.len() == 0 { 1 } else { fallback_bytes.len() as i32 })));
    f.push(Ins::Call(ctx.alloc));
    f.push(Ins::LocalSet(1));
    store_bytes(&mut f, 1, fallback_bytes);
    f.push(Ins::I32Const(0));
    f.push(Ins::LocalGet(1));
    f.push(Ins::I32Const(fallback_bytes.len() as i32));
    f.push(Ins::Call(ctx.make_bytes));
    f.push(Ins::End);
    f.push(Ins::End);
    assert(f.locals() =~= seq![(3u32, ValTy::I32)]);
    f.finish()
}

/// The code that `os_current_exe` emits.
#[verifier::opaque]
pub open spec fn os_current_exe_code(ctx: &Ctx) -> Seq<Ins> {
    let c = Seq::<Ins>::empty();
    c
        .push(Ins::Call(ctx.load_args))
        .push(Ins::LocalSet(1))
        .push(Ins::LocalGet(1))
        .push(Ins::I32Load(m(8)))
        .push(Ins::LocalSet(2))
        .push(Ins::I32Const(0))
        .push(Ins::LocalSet(3))
        .push(Ins::Block(BlockTy::Empty))
        .push(Ins::Loop(BlockTy::Empty))
        .push(Ins::LocalGet(2))
        .push(Ins::LocalGet(3))
        .push(Ins::I32Add)
        .push(Ins::I32Load8U(m(0)))
        .push(Ins::I32Eqz)
        .push(Ins::BrIf(1))
        .push(Ins::LocalGet(3))
        .push(Ins::I32Const(1))
        .push(Ins::I32Add)
        .push(Ins::LocalSet(3))
        .push(Ins::Br(0))
        .push(Ins::End)
        .push(Ins::End)
        .push(Ins::I32Const(0))
        .push(Ins::LocalGet(2))
        .push(Ins::LocalGet(3))
        .push(Ins::Call(ctx.make_bytes))
        .push(Ins::End)
}

pub(crate) fn os_current_exe(ctx: &Ctx) -> (body: Body)
    requires
        ctx.wf(),
    ensures
        body.code@ == os_current_exe_code(ctx),
        body.locals@ == seq![(4u32, ValTy::I32)],
        body.valid(),
        body.params == 0,
{
    proof {
        reveal(os_current_exe_code);
    }
    // argv[0] from the args buffer.
    let mut f = Builder::new(0);
    f.declare(4, ValTy::I32);
    f.push(Ins::Call(ctx.load_args));
    f.push(Ins::LocalSet(1));
    f.push(Ins::LocalGet(1));
    f.push(Ins::I32Load(m(8)));
    f.push(Ins::LocalSet(2));
    // length = strlen(buf)
    f.push(Ins::I32Const(0));
    f.push(Ins::LocalSet(3));
    f.push(Ins::Block(BlockTy::Empty));
    f.push(Ins::Loop(BlockTy::Empty));
    f.push(Ins::LocalGet(2));
    f.push(Ins::LocalGet(3));
    f.push(Ins::I32Add);
    f.push(Ins::I32Load8U(m(0)));
    f.push(Ins::I32Eqz);
    f.push(Ins::BrIf(1));
    f.push(Ins::LocalGet(3));
    f.push(Ins::I32Const(1));
    f.push(Ins::I32Add);
    f.push(Ins::LocalSet(3));
    f.push(Ins::Br(0));
    f.push(Ins::End);
    f.push(Ins::End);
    f.push(Ins::I32Const(0));
    f.push(Ins::LocalGet(2));
    f.push(Ins::LocalGet(3));
    f.push(Ins::Call(ctx.make_bytes));
    f.push(Ins::End);
    assert(f.locals() =~= seq![(4u32, ValTy::I32)]);
    f.finish()
}

// ---- random ----

/// The code that `random_float` emits.
#[verifier::opaque]
pub open spec fn random_float_code(ctx: &Ctx) -> Seq<Ins> {
    let c = Seq::<Ins>::empty();
    c
        .push(Ins::I32Const(8))
        .push(Ins::Call(ctx.alloc))
        .push(Ins::LocalSet(1))
        .push(Ins::LocalGet(1))
        .push(Ins::I32Const(8))
        .push(Ins::Call(ctx.wasi@[7]))
        .push(Ins::Drop)
        .push(Ins::LocalGet(1))
        .push(Ins::I64Load(m(0)))
        .push(Ins::I64Const(11))
        .push(Ins::I64ShrU)
        .push(Ins::F64ConvertI64U)
        .push(Ins::F64Const(0x3ca0000000000000))
        .push(Ins::F64Mul)
        .push(Ins::End)
}

pub(crate) fn random_float(ctx: &Ctx) -> (body: Body)
    requires
        ctx.wf(),
    ensures
        body.code@ == random_float_code(ctx),
        body.locals@ == seq![(2u32, ValTy::I32)],
        body.valid(),
        body.params == 0,
{
    proof {
        reveal(random_float_code);
    }
    // () -> f64; locals: 1 = buf.
    let mut f = Builder::new(0);
    f.declare(2, ValTy::I32);
    f.push(Ins::I32Const(8));
    f.push(Ins::Call(ctx.alloc));
    f.push(Ins::LocalSet(1));
    f.push(Ins::LocalGet(1));
    f.push(Ins::I32Const(8));
    f.push(Ins::Call(ctx.wasi[7]));
    f.push(Ins::Drop);
    f.push(Ins::LocalGet(1));
    f.push(Ins::I64Load(m(0)));
    f.push(Ins::I64Const(11));
    f.push(Ins::I64ShrU);
    f.push(Ins::F64ConvertI64U);
    f.push(Ins::F64Const(0x3ca0000000000000));
    f.push(Ins::F64Mul);
    f.push(Ins::End);
    assert(f.locals() =~= seq![(2u32, ValTy::I32)]);
    f.finish()
}

/// The code that `random_int` emits.
#[verifier::opaque]
pub open spec fn random_int_code(ctx: &Ctx) -> Seq<Ins> {
    let c = Seq::<Ins>::empty();
    c
        .push(Ins::I32Const(8))
        .push(Ins::Call(ctx.alloc))
        .push(Ins::LocalSet(3))
        .push(Ins::LocalGet(3))
        .push(Ins::I32Const(8))
        .push(Ins::Call(ctx.wasi@[7]))
        .push(Ins::Drop)
        .push(Ins::LocalGet(1))
        .push(Ins::LocalGet(0))
        .push(Ins::I64Sub)
        .push(Ins::LocalSet(2))
        .push(Ins::LocalGet(2))
        .push(Ins::I64Eqz)
        .push(Ins::If(BlockTy::Result(ValTy::I64)))
        .push(Ins::LocalGet(0))
        .push(Ins::Else)
        .push(Ins::LocalGet(0))
        .push(Ins::LocalGet(3))
        .push(Ins::I64Load(m(0)))
        .push(Ins::LocalGet(2))
        .push(Ins::I64RemU)
        .push(Ins::I64Add)
        .push(Ins::End)
        .push(Ins::End)
}

pub(crate) fn random_int(ctx: &Ctx) -> (body: Body)
    requires
        ctx.wf(),
    ensures
        body.code@ == random_int_code(ctx),
        body.locals@ == seq![(1u32, ValTy::I64), (1u32, ValTy::I32)],
        body.valid(),
        body.params == 2,
{
    proof {
        reveal(random_int_code);
    }
    // (min: i64, max: i64) -> i64; locals: 2 = range, 3 = buf.
    let mut f = Builder::new(2);
    f.declare(1, ValTy::I64);
    f.declare(1, ValTy::I32);
    f.push(Ins::I32Const(8));
    f.push(Ins::Call(ctx.alloc));
    f.push(Ins::LocalSet(3));
    f.push(Ins::LocalGet(3));
    f.push(Ins::I32Const(8));
    f.push(Ins::Call(ctx.wasi[7]));
    f.push(Ins::Drop);
    f.push(Ins::LocalGet(1));
    f.push(Ins::LocalGet(0));
    f.push(Ins::I64Sub);
    f.push(Ins::LocalSet(2));
    f.push(Ins::LocalGet(2));
    f.push(Ins::I64Eqz);
    f.push(Ins::If(BlockTy::Result(ValTy::I64)));
    f.push(Ins::LocalGet(0));
    f.push(Ins::Else);
    f.push(Ins::LocalGet(0));
    f.push(Ins::LocalGet(3));
    f.push(Ins::I64Load(m(0)));
    f.push(Ins::LocalGet(2));
    f.push(Ins::I64RemU);
    f.push(Ins::I64Add);
    f.push(Ins::End);
    f.push(Ins::End);
    assert(f.locals() =~= seq![(1u32, ValTy::I64), (1u32, ValTy::I32)]);
    f.finish()
}

/// The code that `random_bool` emits.
#[verifier::opaque]
pub open spec fn random_bool_code(ctx: &Ctx) -> Seq<Ins> {
    let c = Seq::<Ins>::empty();
    c
        .push(Ins::I32Const(1))
        .push(Ins::Call(ctx.alloc))
        .push(Ins::LocalSet(1))
        .push(Ins::LocalGet(1))
        .push(Ins::I32Const(1))
        .push(Ins::Call(ctx.wasi@[7]))
        .push(Ins::Drop)
        .push(Ins::LocalGet(1))
        .push(Ins::I32Load8U(m(0)))
        .push(Ins::I32Const(1))
        .push(Ins::I32And)
        .push(Ins::End)
}

pub(crate) fn random_bool(ctx: &Ctx) -> (body: Body)
    requires
        ctx.wf(),
    ensures
        body.code@ == random_bool_code(ctx),
        body.locals@ == seq![(2u32, ValTy::I32)],
        body.valid(),
        body.params == 0,
{
    proof {
        reveal(random_bool_code);
    }
    // () -> i32 (0/1); locals: 1 = buf.
    let mut f = Builder::new(0);
    f.declare(2, ValTy::I32);
    f.push(Ins::I32Const(1));
    f.push(Ins::Call(ctx.alloc));
    f.push(Ins::LocalSet(1));
    f.push(Ins::LocalGet(1));
    f.push(Ins::I32Const(1));
    f.push(Ins::Call(ctx.wasi[7]));
    f.push(Ins::Drop);
    f.push(Ins::LocalGet(1));
    f.push(Ins::I32Load8U(m(0)));
    f.push(Ins::I32Const(1));
    f.push(Ins::I32And);
    f.push(Ins::End);
    assert(f.locals() =~= seq![(2u32, ValTy::I32)]);
    f.finish()
}

/// The code that `ldexp_body` emits.
#[verifier::opaque]
pub open spec fn ldexp_body_code(_ctx: &Ctx) -> Seq<Ins> {
    let c = Seq::<Ins>::empty();
    c
        .push(Ins::LocalGet(1))
        .push(Ins::LocalSet(2))
        .push(Ins::LocalGet(0))
        .push(Ins::F64Const(0x0000000000000000))
        .push(Ins::F64Eq)
        .push(Ins::If(BlockTy::Result(ValTy::F64)))
        .push(Ins::LocalGet(0))
        .push(Ins::Else)
        .push(Ins::LocalGet(2))
        .push(Ins::I32Const(1023))
        .push(Ins::I32GtS)
        .push(Ins::If(BlockTy::Empty))
        .push(Ins::I32Const(1023))
        .push(Ins::LocalSet(2))
        .push(Ins::End)
        .push(Ins::LocalGet(2))
        .push(Ins::I32Const(-1074i32))
        .push(Ins::I32LtS)
        .push(Ins::If(BlockTy::Empty))
        .push(Ins::I32Const(-1074i32))
        .push(Ins::LocalSet(2))
        .push(Ins::End)
        .push(Ins::LocalGet(2))
        .push(Ins::I32Const(-1022i32))
        .push(Ins::I32LtS)
        .push(Ins::If(BlockTy::Result(ValTy::F64)))
        .push(Ins::I64Const(1))
        .push(Ins::I64Const(52))
        .push(Ins::I64Shl)
        .push(Ins::F64ReinterpretI64)
        .push(Ins::LocalSet(4))
        .push(Ins::LocalGet(0))
        .push(Ins::LocalGet(4))
        .push(Ins::F64Mul)
        .push(Ins::LocalGet(2))
        .push(Ins::I32Const(1022))
        .push(Ins::I32Add)
        .push(Ins::LocalSet(3))
        .push(Ins::LocalGet(3))
        .push(Ins::I32Const(1023))
        .push(Ins::I32Add)
        .push(Ins::I64ExtendI32S)
        .push(Ins::I64Const(52))
        .push(Ins::I64Shl)
        .push(Ins::F64ReinterpretI64)
        .push(Ins::LocalSet(4))
        .push(Ins::LocalGet(4))
        .push(Ins::F64Mul)
        .push(Ins::Else)
        .push(Ins::LocalGet(2))
        .push(Ins::I32Const(1023))
        .push(Ins::I32Add)
        .push(Ins::I64ExtendI32S)
        .push(Ins::I64Const(52))
        .push(Ins::I64Shl)
        .push(Ins::F64ReinterpretI64)
        .push(Ins::LocalSet(4))
        .push(Ins::LocalGet(0))
        .push(Ins::LocalGet(4))
        .push(Ins::F64Mul)
        .push(Ins::End)
        .push(Ins::End)
        .push(Ins::End)
}

/// `(x: f64, k: i32) -> f64`: `x * 2^k` via exponent-field construction.
pub(crate) fn ldexp_body(_ctx: &Ctx) -> (body: Body)
    ensures
        body.code@ == ldexp_body_code(_ctx),
        body.locals@ == seq![(2u32, ValTy::I32), (1u32, ValTy::F64), (1u32, ValTy::I64)],
        body.valid(),
        body.params == 2,
{
    proof {
        reveal(ldexp_body_code);
    }
    // params: 0 = x(f64), 1 = k(i32); locals: 2,3 = i32, 4 = f64, 5 = i64.
    let mut f = Builder::new(2);
    f.declare(2, ValTy::I32);
    f.declare(1, ValTy::F64);
    f.declare(1, ValTy::I64);
    f.push(Ins::LocalGet(1));
    f.push(Ins::LocalSet(2));
    f.push(Ins::LocalGet(0));
    f.push(Ins::F64Const(0x0000000000000000));
    f.push(Ins::F64Eq);
    f.push(Ins::If(BlockTy::Result(ValTy::F64)));
    f.push(Ins::LocalGet(0));
    f.push(Ins::Else);
    f.push(Ins::LocalGet(2));
    f.push(Ins::I32Const(1023));
    f.push(Ins::I32GtS);
    f.push(Ins::If(BlockTy::Empty));
    f.push(Ins::I32Const(1023));
    f.push(Ins::LocalSet(2));
    f.push(Ins::End);
    f.push(Ins::LocalGet(2));
    f.push(Ins::I32Const(-1074));
    f.push(Ins::I32LtS);
    f.push(Ins::If(BlockTy::Empty));
    f.push(Ins::I32Const(-1074));
    f.push(Ins::LocalSet(2));
    f.push(Ins::End);
    f.push(Ins::LocalGet(2));
    f.push(Ins::I32Const(-1022));
    f.push(Ins::I32LtS);
    f.push(Ins::If(BlockTy::Result(ValTy::F64)));
    // two-step for subnormal results
    f.push(Ins::I64Const(1));
    f.push(Ins::I64Const(52));
    f.push(Ins::I64Shl);
    f.push(Ins::F64ReinterpretI64);
    f.push(Ins::LocalSet(4));
    f.push(Ins::LocalGet(0));
    f.push(Ins::LocalGet(4));
    f.push(Ins::F64Mul);
    f.push(Ins::LocalGet(2));
    f.push(Ins::I32Const(1022));
    f.push(Ins::I32Add);
    f.push(Ins::LocalSet(3));
    f.push(Ins::LocalGet(3));
    f.push(Ins::I32Const(1023));
    f.push(Ins::I32Add);
    f.push(Ins::I64ExtendI32S);
    f.push(Ins::I64Const(52));
    f.push(Ins::I64Shl);
    f.push(Ins::F64ReinterpretI64);
    f.push(Ins::LocalSet(4));
    f.push(Ins::LocalGet(4));
    f.push(Ins::F64Mul);
    f.push(Ins::Else);
    f.push(Ins::LocalGet(2));
    f.push(Ins::I32Const(1023));
    f.push(Ins::I32Add);
    f.push(Ins::I64ExtendI32S);
    f.push(Ins::I64Const(52));
    f.push(Ins::I64Shl);
    f.push(Ins::F64ReinterpretI64);
    f.push(Ins::LocalSet(4));
    f.push(Ins::LocalGet(0));
    f.push(Ins::LocalGet(4));
    f.push(Ins::F64Mul);
    f.push(Ins::End);
    f.push(Ins::End);
    f.push(Ins::End);
    assert(f.locals() =~= seq![(2u32, ValTy::I32), (1u32, ValTy::F64), (1u32, ValTy::I64)]);
    f.finish()
}

} // verus!
