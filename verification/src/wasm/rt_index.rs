//! Offsets of the core runtime helpers and their absolute indices.
use vstd::prelude::*;

verus! {

// Offsets from the runtime base, in helper-body order.
pub const ALLOC: u32 = 0;
pub const PRINT: u32 = 1;
pub const OUT: u32 = 2;
pub const FORMAT: u32 = 3;
pub const CONCAT: u32 = 4;
pub const LIST_NEW: u32 = 5;
pub const LIST_LEN: u32 = 6;
pub const LIST_PUSH: u32 = 7;
pub const LIST_AT: u32 = 8;
pub const LIST_SET: u32 = 9;
pub const LIST_POP: u32 = 10;
pub const LIST_CLEAR: u32 = 11;
pub const BYTES_NEW: u32 = 12;
pub const BYTES_LEN: u32 = 13;
pub const BYTES_AT: u32 = 14;
pub const BYTES_SET: u32 = 15;
pub const BYTES_FROM_STR: u32 = 16;
pub const BYTES_TO_STR: u32 = 17;
pub const MAP_NEW: u32 = 18;
pub const MAP_LEN: u32 = 19;
pub const MAP_SET: u32 = 20;
pub const MAP_GET: u32 = 21;
pub const MAP_CONTAINS: u32 = 22;
pub const MAP_REMOVE: u32 = 23;
pub const MAP_CLEAR: u32 = 24;
pub const MAP_FIND: u32 = 25;
pub const RC_NEW: u32 = 26;
pub const STR_FROM_STATIC: u32 = 27;
pub const STR_RETAIN: u32 = 28;
pub const STR_RELEASE: u32 = 29;
pub const BYTES_RETAIN: u32 = 30;
pub const BYTES_RELEASE: u32 = 31;
pub const BYTES_MAKE_UNIQUE: u32 = 32;
pub const LIST_RETAIN: u32 = 33;
pub const LIST_RELEASE: u32 = 34;
pub const LIST_MAKE_UNIQUE: u32 = 35;
pub const MAP_RETAIN: u32 = 36;
pub const MAP_RELEASE: u32 = 37;
pub const ELEM_RETAIN: u32 = 38;
pub const ELEM_RELEASE: u32 = 39;
pub const STR_COPY: u32 = 40;
pub const STR_EQ_AT: u32 = 41;
pub const STR_IS_WS: u32 = 42;
pub const STR_EQ: u32 = 43;
pub const STR_CMP: u32 = 44;
pub const STR_CONTAINS: u32 = 45;
pub const STR_STARTS: u32 = 46;
pub const STR_ENDS: u32 = 47;
pub const STR_FIND: u32 = 48;
pub const STR_RFIND: u32 = 49;
pub const STR_SUBSTRING: u32 = 50;
pub const STR_REPEAT: u32 = 51;
pub const STR_STRIP_PREFIX: u32 = 52;
pub const STR_STRIP_SUFFIX: u32 = 53;
pub const STR_TRIM_START: u32 = 54;
pub const STR_TRIM_END: u32 = 55;
pub const STR_LOWER: u32 = 56;
pub const STR_UPPER: u32 = 57;
pub const BT_ENSURE: u32 = 58;
pub const BT_CLEAR: u32 = 59;
pub const BT_CAPACITY: u32 = 60;
pub const BT_RESERVE: u32 = 61;
pub const BT_PUSH: u32 = 62;
pub const BT_EXTEND: u32 = 63;
pub const BT_TRUNCATE: u32 = 64;
pub const BT_RESIZE: u32 = 65;
pub const BT_FIRST: u32 = 66;
pub const BT_LAST: u32 = 67;
pub const BT_SLICE: u32 = 68;
pub const BT_FIND: u32 = 69;
pub const BT_STARTS: u32 = 70;
pub const BT_ENDS: u32 = 71;
pub const BT_CMP: u32 = 72;
pub const BT_MEMCMP: u32 = 73;
pub const LS_ENSURE: u32 = 74;
pub const LS_CAPACITY: u32 = 75;
pub const LS_RESERVE: u32 = 76;
pub const LS_TRUNCATE: u32 = 77;
pub const LS_SWAP: u32 = 78;
pub const LS_REVERSE: u32 = 79;
pub const LS_SHRINK: u32 = 80;
pub const LS_FIRST: u32 = 81;
pub const LS_LAST: u32 = 82;
pub const LS_INSERT: u32 = 83;
pub const LS_REMOVE: u32 = 84;
pub const LS_EXTEND: u32 = 85;
pub const LS_SLICE: u32 = 86;
pub const LS_CONTAINS: u32 = 87;
pub const LS_FIND: u32 = 88;
pub const LS_ELEM_EQ: u32 = 89;
pub const LS_JOIN: u32 = 90;
pub const STR_TO_I64: u32 = 91;
pub const STR_TO_F64: u32 = 92;
pub const SO_SPLIT: u32 = 93;
pub const SO_LINES: u32 = 94;
pub const SO_REPLACE: u32 = 95;
pub const SO_CHAR_AT: u32 = 96;
pub const SO_CHARS: u32 = 97;
pub const SO_PAD_LEFT: u32 = 98;
pub const SO_PAD_RIGHT: u32 = 99;
pub const SO_SPLIT_WS: u32 = 100;
pub const SO_UTF8_LEN: u32 = 101;
pub const SO_SCALAR_COUNT: u32 = 102;
pub const SO_IS_WS: u32 = 103;
pub const BT_TO_HEX: u32 = 104;
pub const BT_TO_LIST: u32 = 105;
pub const BT_FROM_LIST: u32 = 106;
pub const BT_READ_INT: u32 = 107;
pub const BT_WRITE_INT: u32 = 108;
pub const FMT_F64: u32 = 109;
pub const MAP_CAPACITY: u32 = 110;
pub const MAP_RESERVE: u32 = 111;
/// Number of runtime functions.
pub const COUNT: u32 = 112;

/// Absolute indices of the emitted runtime helpers.
pub struct Runtime {
    pub alloc: u32,
    pub print: u32,
    pub out: u32,
    pub format: u32,
    pub concat: u32,
    pub list_new: u32,
    pub list_len: u32,
    pub list_push: u32,
    pub list_at: u32,
    pub list_set: u32,
    pub list_pop: u32,
    pub list_clear: u32,
    pub bytes_new: u32,
    pub bytes_len: u32,
    pub bytes_at: u32,
    pub bytes_set: u32,
    pub bytes_from_str: u32,
    pub bytes_to_str: u32,
    pub map_new: u32,
    pub map_len: u32,
    pub map_set: u32,
    pub map_get: u32,
    pub map_contains: u32,
    pub map_remove: u32,
    pub map_clear: u32,
    pub str_from_static: u32,
    pub str_retain: u32,
    pub str_release: u32,
    pub bytes_retain: u32,
    pub bytes_release: u32,
    pub bytes_make_unique: u32,
    pub list_retain: u32,
    pub list_release: u32,
    pub list_make_unique: u32,
    pub map_retain: u32,
    pub map_release: u32,
    pub str_eq: u32,
    pub str_cmp: u32,
    pub str_contains: u32,
    pub str_starts: u32,
    pub str_ends: u32,
    pub str_find: u32,
    pub str_rfind: u32,
    pub str_substring: u32,
    pub str_repeat: u32,
    pub str_strip_prefix: u32,
    pub str_strip_suffix: u32,
    pub str_trim_start: u32,
    pub str_trim_end: u32,
    pub str_lower: u32,
    pub str_upper: u32,
    pub bt_clear: u32,
    pub bt_capacity: u32,
    pub bt_reserve: u32,
    pub bt_push: u32,
    pub bt_extend: u32,
    pub bt_truncate: u32,
    pub bt_resize: u32,
    pub bt_first: u32,
    pub bt_last: u32,
    pub bt_slice: u32,
    pub bt_find: u32,
    pub bt_starts: u32,
    pub bt_ends: u32,
    pub bt_cmp: u32,
    pub ls_capacity: u32,
    pub ls_reserve: u32,
    pub ls_truncate: u32,
    pub ls_swap: u32,
    pub ls_reverse: u32,
    pub ls_shrink: u32,
    pub ls_first: u32,
    pub ls_last: u32,
    pub ls_insert: u32,
    pub ls_remove: u32,
    pub ls_extend: u32,
    pub ls_slice: u32,
    pub ls_contains: u32,
    pub ls_find: u32,
    pub ls_elem_eq: u32,
    pub ls_join: u32,
    pub str_to_i64: u32,
    pub str_to_f64: u32,
    pub so_split: u32,
    pub so_lines: u32,
    pub so_replace: u32,
    pub so_char_at: u32,
    pub so_chars: u32,
    pub so_pad_left: u32,
    pub so_pad_right: u32,
    pub so_split_ws: u32,
    pub bt_to_hex: u32,
    pub bt_to_list: u32,
    pub bt_from_list: u32,
    pub bt_read_int: u32,
    pub bt_write_int: u32,
    pub fmt_f64: u32,
    pub map_capacity: u32,
    pub map_reserve: u32,
}

impl Runtime {
    /// The absolute helper indices when the runtime bodies start at `base`.
    pub fn new(base: u32) -> (rt: Runtime)
        requires
            base + COUNT <= u32::MAX,
        ensures
            rt.indices().len() == field_offsets().len(),
            forall|i: int| 0 <= i < rt.indices().len() ==> #[trigger] rt.indices()[i] == base + field_offsets()[i],
            rt.alloc == base + ALLOC,
            rt.print == base + PRINT,
            rt.out == base + OUT,
            rt.format == base + FORMAT,
            rt.concat == base + CONCAT,
            rt.list_new == base + LIST_NEW,
            rt.list_len == base + LIST_LEN,
            rt.list_push == base + LIST_PUSH,
            rt.list_at == base + LIST_AT,
            rt.list_set == base + LIST_SET,
            rt.list_pop == base + LIST_POP,
            rt.list_clear == base + LIST_CLEAR,
            rt.bytes_new == base + BYTES_NEW,
            rt.bytes_len == base + BYTES_LEN,
            rt.bytes_at == base + BYTES_AT,
            rt.bytes_set == base + BYTES_SET,
            rt.bytes_from_str == base + BYTES_FROM_STR,
            rt.bytes_to_str == base + BYTES_TO_STR,
            rt.map_new == base + MAP_NEW,
            rt.map_len == base + MAP_LEN,
            rt.map_set == base + MAP_SET,
            rt.map_get == base + MAP_GET,
            rt.map_contains == base + MAP_CONTAINS,
            rt.map_remove == base + MAP_REMOVE,
            rt.map_clear == base + MAP_CLEAR,
            rt.str_from_static == base + STR_FROM_STATIC,
            rt.str_retain == base + STR_RETAIN,
            rt.str_release == base + STR_RELEASE,
            rt.bytes_retain == base + BYTES_RETAIN,
            rt.bytes_release == base + BYTES_RELEASE,
            rt.bytes_make_unique == base + BYTES_MAKE_UNIQUE,
            rt.list_retain == base + LIST_RETAIN,
            rt.list_release == base + LIST_RELEASE,
            rt.list_make_unique == base + LIST_MAKE_UNIQUE,
            rt.map_retain == base + MAP_RETAIN,
            rt.map_release == base + MAP_RELEASE,
            rt.str_eq == base + STR_EQ,
            rt.str_cmp == base + STR_CMP,
            rt.str_contains == base + STR_CONTAINS,
            rt.str_starts == base + STR_STARTS,
            rt.str_ends == base + STR_ENDS,
            rt.str_find == base + STR_FIND,
            rt.str_rfind == base + STR_RFIND,
            rt.str_substring == base + STR_SUBSTRING,
            rt.str_repeat == base + STR_REPEAT,
            rt.str_strip_prefix == base + STR_STRIP_PREFIX,
            rt.str_strip_suffix == base + STR_STRIP_SUFFIX,
            rt.str_trim_start == base + STR_TRIM_START,
            rt.str_trim_end == base + STR_TRIM_END,
            rt.str_lower == base + STR_LOWER,
            rt.str_upper == base + STR_UPPER,
            rt.bt_clear == base + BT_CLEAR,
            rt.bt_capacity == base + BT_CAPACITY,
            rt.bt_reserve == base + BT_RESERVE,
            rt.bt_push == base + BT_PUSH,
            rt.bt_extend == base + BT_EXTEND,
            rt.bt_truncate == base + BT_TRUNCATE,
            rt.bt_resize == base + BT_RESIZE,
            rt.bt_first == base + BT_FIRST,
            rt.bt_last == base + BT_LAST,
            rt.bt_slice == base + BT_SLICE,
            rt.bt_find == base + BT_FIND,
            rt.bt_starts == base + BT_STARTS,
            rt.bt_ends == base + BT_ENDS,
            rt.bt_cmp == base + BT_CMP,
            rt.ls_capacity == base + LS_CAPACITY,
            rt.ls_reserve == base + LS_RESERVE,
            rt.ls_truncate == base + LS_TRUNCATE,
            rt.ls_swap == base + LS_SWAP,
            rt.ls_reverse == base + LS_REVERSE,
            rt.ls_shrink == base + LS_SHRINK,
            rt.ls_first == base + LS_FIRST,
            rt.ls_last == base + LS_LAST,
            rt.ls_insert == base + LS_INSERT,
            rt.ls_remove == base + LS_REMOVE,
            rt.ls_extend == base + LS_EXTEND,
            rt.ls_slice == base + LS_SLICE,
            rt.ls_contains == base + LS_CONTAINS,
            rt.ls_find == base + LS_FIND,
            rt.ls_elem_eq == base + LS_ELEM_EQ,
            rt.ls_join == base + LS_JOIN,
            rt.str_to_i64 == base + STR_TO_I64,
            rt.str_to_f64 == base + STR_TO_F64,
            rt.so_split == base + SO_SPLIT,
            rt.so_lines == base + SO_LINES,
            rt.so_replace == base + SO_REPLACE,
            rt.so_char_at == base + SO_CHAR_AT,
            rt.so_chars == base + SO_CHARS,
            rt.so_pad_left == base + SO_PAD_LEFT,
            rt.so_pad_right == base + SO_PAD_RIGHT,
            rt.so_split_ws == base + SO_SPLIT_WS,
            rt.bt_to_hex == base + BT_TO_HEX,
            rt.bt_to_list == base + BT_TO_LIST,
            rt.bt_from_list == base + BT_FROM_LIST,
            rt.bt_read_int == base + BT_READ_INT,
            rt.bt_write_int == base + BT_WRITE_INT,
            rt.fmt_f64 == base + FMT_F64,
            rt.map_capacity == base + MAP_CAPACITY,
            rt.map_reserve == base + MAP_RESERVE,
    {
        Runtime {
        alloc: base + ALLOC,
        print: base + PRINT,
        out: base + OUT,
        format: base + FORMAT,
        concat: base + CONCAT,
        list_new: base + LIST_NEW,
        list_len: base + LIST_LEN,
        list_push: base + LIST_PUSH,
        list_at: base + LIST_AT,
        list_set: base + LIST_SET,
        list_pop: base + LIST_POP,
        list_clear: base + LIST_CLEAR,
        bytes_new: base + BYTES_NEW,
        bytes_len: base + BYTES_LEN,
        bytes_at: base + BYTES_AT,
        bytes_set: base + BYTES_SET,
        bytes_from_str: base + BYTES_FROM_STR,
        bytes_to_str: base + BYTES_TO_STR,
        map_new: base + MAP_NEW,
        map_len: base + MAP_LEN,
        map_set: base + MAP_SET,
        map_get: base + MAP_GET,
        map_contains: base + MAP_CONTAINS,
        map_remove: base + MAP_REMOVE,
        map_clear: base + MAP_CLEAR,
        str_from_static: base + STR_FROM_STATIC,
        str_retain: base + STR_RETAIN,
        str_release: base + STR_RELEASE,
        bytes_retain: base + BYTES_RETAIN,
        bytes_release: base + BYTES_RELEASE,
        bytes_make_unique: base + BYTES_MAKE_UNIQUE,
        list_retain: base + LIST_RETAIN,
        list_release: base + LIST_RELEASE,
        list_make_unique: base + LIST_MAKE_UNIQUE,
        map_retain: base + MAP_RETAIN,
        map_release: base + MAP_RELEASE,
        str_eq: base + STR_EQ,
        str_cmp: base + STR_CMP,
        str_contains: base + STR_CONTAINS,
        str_starts: base + STR_STARTS,
        str_ends: base + STR_ENDS,
        str_find: base + STR_FIND,
        str_rfind: base + STR_RFIND,
        str_substring: base + STR_SUBSTRING,
        str_repeat: base + STR_REPEAT,
        str_strip_prefix: base + STR_STRIP_PREFIX,
        str_strip_suffix: base + STR_STRIP_SUFFIX,
        str_trim_start: base + STR_TRIM_START,
        str_trim_end: base + STR_TRIM_END,
        str_lower: base + STR_LOWER,
        str_upper: base + STR_UPPER,
        bt_clear: base + BT_CLEAR,
        bt_capacity: base + BT_CAPACITY,
        bt_reserve: base + BT_RESERVE,
        bt_push: base + BT_PUSH,
        bt_extend: base + BT_EXTEND,
        bt_truncate: base + BT_TRUNCATE,
        bt_resize: base + BT_RESIZE,
        bt_first: base + BT_FIRST,
        bt_last: base + BT_LAST,
        bt_slice: base + BT_SLICE,
        bt_find: base + BT_FIND,
        bt_starts: base + BT_STARTS,
        bt_ends: base + BT_ENDS,
        bt_cmp: base + BT_CMP,
        ls_capacity: base + LS_CAPACITY,
        ls_reserve: base + LS_RESERVE,
        ls_truncate: base + LS_TRUNCATE,
        ls_swap: base + LS_SWAP,
        ls_reverse: base + LS_REVERSE,
        ls_shrink: base + LS_SHRINK,
        ls_first: base + LS_FIRST,
        ls_last: base + LS_LAST,
        ls_insert: base + LS_INSERT,
        ls_remove: base + LS_REMOVE,
        ls_extend: base + LS_EXTEND,
        ls_slice: base + LS_SLICE,
        ls_contains: base + LS_CONTAINS,
        ls_find: base + LS_FIND,
        ls_elem_eq: base + LS_ELEM_EQ,
        ls_join: base + LS_JOIN,
        str_to_i64: base + STR_TO_I64,
        str_to_f64: base + STR_TO_F64,
        so_split: base + SO_SPLIT,
        so_lines: base + SO_LINES,
        so_replace: base + SO_REPLACE,
        so_char_at: base + SO_CHAR_AT,
        so_chars: base + SO_CHARS,
        so_pad_left: base + SO_PAD_LEFT,
        so_pad_right: base + SO_PAD_RIGHT,
        so_split_ws: base + SO_SPLIT_WS,
        bt_to_hex: base + BT_TO_HEX,
        bt_to_list: base + BT_TO_LIST,
        bt_from_list: base + BT_FROM_LIST,
        bt_read_int: base + BT_READ_INT,
        bt_write_int: base + BT_WRITE_INT,
        fmt_f64: base + FMT_F64,
        map_capacity: base + MAP_CAPACITY,
        map_reserve: base + MAP_RESERVE,
        }
    }
}

/// The offsets of the helpers a [`Runtime`] names, in field order.
pub open spec fn field_offsets() -> Seq<u32> {
    seq![ALLOC, PRINT, OUT, FORMAT, CONCAT, LIST_NEW, LIST_LEN, LIST_PUSH, LIST_AT, LIST_SET, LIST_POP, LIST_CLEAR, BYTES_NEW, BYTES_LEN, BYTES_AT, BYTES_SET, BYTES_FROM_STR, BYTES_TO_STR, MAP_NEW, MAP_LEN, MAP_SET, MAP_GET, MAP_CONTAINS, MAP_REMOVE, MAP_CLEAR, STR_FROM_STATIC, STR_RETAIN, STR_RELEASE, BYTES_RETAIN, BYTES_RELEASE, BYTES_MAKE_UNIQUE, LIST_RETAIN, LIST_RELEASE, LIST_MAKE_UNIQUE, MAP_RETAIN, MAP_RELEASE, STR_EQ, STR_CMP, STR_CONTAINS, STR_STARTS, STR_ENDS, STR_FIND, STR_RFIND, STR_SUBSTRING, STR_REPEAT, STR_STRIP_PREFIX, STR_STRIP_SUFFIX, STR_TRIM_START, STR_TRIM_END, STR_LOWER, STR_UPPER, BT_CLEAR, BT_CAPACITY, BT_RESERVE, BT_PUSH, BT_EXTEND, BT_TRUNCATE, BT_RESIZE, BT_FIRST, BT_LAST, BT_SLICE, BT_FIND, BT_STARTS, BT_ENDS, BT_CMP, LS_CAPACITY, LS_RESERVE, LS_TRUNCATE, LS_SWAP, LS_REVERSE, LS_SHRINK, LS_FIRST, LS_LAST, LS_INSERT, LS_REMOVE, LS_EXTEND, LS_SLICE, LS_CONTAINS, LS_FIND, LS_ELEM_EQ, LS_JOIN, STR_TO_I64, STR_TO_F64, SO_SPLIT, SO_LINES, SO_REPLACE, SO_CHAR_AT, SO_CHARS, SO_PAD_LEFT, SO_PAD_RIGHT, SO_SPLIT_WS, BT_TO_HEX, BT_TO_LIST, BT_FROM_LIST, BT_READ_INT, BT_WRITE_INT, FMT_F64, MAP_CAPACITY, MAP_RESERVE]
}

impl Runtime {
    /// The helper indices, in field order.
    pub open spec fn indices(&self) -> Seq<u32> {
        seq![self.alloc, self.print, self.out, self.format, self.concat, self.list_new, self.list_len, self.list_push, self.list_at, self.list_set, self.list_pop, self.list_clear, self.bytes_new, self.bytes_len, self.bytes_at, self.bytes_set, self.bytes_from_str, self.bytes_to_str, self.map_new, self.map_len, self.map_set, self.map_get, self.map_contains, self.map_remove, self.map_clear, self.str_from_static, self.str_retain, self.str_release, self.bytes_retain, self.bytes_release, self.bytes_make_unique, self.list_retain, self.list_release, self.list_make_unique, self.map_retain, self.map_release, self.str_eq, self.str_cmp, self.str_contains, self.str_starts, self.str_ends, self.str_find, self.str_rfind, self.str_substring, self.str_repeat, self.str_strip_prefix, self.str_strip_suffix, self.str_trim_start, self.str_trim_end, self.str_lower, self.str_upper, self.bt_clear, self.bt_capacity, self.bt_reserve, self.bt_push, self.bt_extend, self.bt_truncate, self.bt_resize, self.bt_first, self.bt_last, self.bt_slice, self.bt_find, self.bt_starts, self.bt_ends, self.bt_cmp, self.ls_capacity, self.ls_reserve, self.ls_truncate, self.ls_swap, self.ls_reverse, self.ls_shrink, self.ls_first, self.ls_last, self.ls_insert, self.ls_remove, self.ls_extend, self.ls_slice, self.ls_contains, self.ls_find, self.ls_elem_eq, self.ls_join, self.str_to_i64, self.str_to_f64, self.so_split, self.so_lines, self.so_replace, self.so_char_at, self.so_chars, self.so_pad_left, self.so_pad_right, self.so_split_ws, self.bt_to_hex, self.bt_to_list, self.bt_from_list, self.bt_read_int, self.bt_write_int, self.fmt_f64, self.map_capacity, self.map_reserve]
    }
}

spec fn ascending_at(s: Seq<u32>, k: int) -> bool {
    s[k] < s[k + 1]
}

proof fn lemma_ascending(s: Seq<u32>, i: int, j: int)
    requires
        forall|k: int| 0 <= k < s.len() - 1 ==> #[trigger] ascending_at(s, k),
        0 <= i < j < s.len(),
    ensures
        s[i] < s[j],
    decreases j - i,
{
    assert(ascending_at(s, j - 1));
    if j > i + 1 {
        lemma_ascending(s, i, j - 1);
    }
}

/// The runtime helpers each get a function index of their own, inside the
/// runtime region `[base, base + COUNT)`.
pub proof fn lemma_runtime_indices_distinct(rt: Runtime, base: u32)
    requires
        base + COUNT <= u32::MAX,
        rt.indices().len() == field_offsets().len(),
        forall|i: int| 0 <= i < rt.indices().len() ==> #[trigger] rt.indices()[i] == base + field_offsets()[i],
    ensures
        forall|i: int, j: int| 0 <= i < j < rt.indices().len() ==> rt.indices()[i] != rt.indices()[j],
        forall|i: int| 0 <= i < rt.indices().len() ==> base <= #[trigger] rt.indices()[i] < base + COUNT,
{
    let offs = field_offsets();
    assert forall|k: int| 0 <= k < offs.len() - 1 implies #[trigger] ascending_at(offs, k) by {
        assert(offs[k] < offs[k + 1]);
    }
    assert forall|i: int, j: int| 0 <= i < j < rt.indices().len() implies rt.indices()[i] != rt.indices()[j] by {
        lemma_ascending(offs, i, j);
        assert(rt.indices()[i] == base + offs[i]);
        assert(rt.indices()[j] == base + offs[j]);
    }
    assert forall|i: int| 0 <= i < rt.indices().len() implies base <= #[trigger] rt.indices()[i] < base + COUNT by {
        assert(offs[i] < COUNT);
        assert(rt.indices()[i] == base + offs[i]);
    }
}

/// The index of the runtime helper at `offset` in a runtime placed at `base`.
pub open spec fn wired(base: u32, offset: u32) -> u32 {
    (base + offset) as u32
}

} // verus!
