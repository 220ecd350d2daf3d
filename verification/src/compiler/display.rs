//! Compiler-generated `display` conversions for `out`/`print` and template
//! interpolation.
//!
//! Vut has no reflection and no runtime type metadata. To print a value
//! directly (`out(User(a = 1))`, `"$data"`), the compiler generates a small
//! Vut function per concrete type that builds its textual representation and
//! rewrites the call sites to use it. Everything then flows through the normal
//! resolver/type-checker/MIR pipeline, so ownership and drops stay correct and
//! there is no new runtime or ABI surface.
use vstd::prelude::*;
use vstd::string::StringExecFns;
use crate::text::{decimal, push_char, push_decimal, str_eq};
use crate::wasm::program::TypeId;

verus! {

broadcast use vstd::seq_lib::group_seq_properties;

/// A symbol of the resolver: an index into its symbol table.
#[derive(Clone, Copy, Debug, PartialEq, Eq, Structural)]
pub struct SymbolId(pub usize);

/// A semantic type, as the display pass reads it. Types refer to their
/// components by [`TypeId`], an index into [`Semantics::types`].
pub enum Type {
    Int,
    Float,
    Bool,
    Str,
    Bytes,
    Dyn,
    Void,
    /// A sized numeric type such as `u8`, by name.
    Numeric(String),
    Optional(TypeId),
    /// `result(ok, err)`.
    ResultOf(TypeId, TypeId),
    List(TypeId),
    Array(TypeId, usize),
    /// `map(key, value)`.
    MapOf(TypeId, TypeId),
    Pointer(TypeId),
    Vutcon(TypeId),
    Future(TypeId),
    Resource(TypeId),
    Data(SymbolId),
    Enum(SymbolId),
    Applied(SymbolId, Vec<TypeId>),
    Interface(SymbolId),
    Param(SymbolId),
    Function,
    Callable,
    FunctionPointer,
    SelfType,
    Range(TypeId),
    Error,
    Null,
    Variadic(TypeId),
}

/// A named, typed field of a `data` type or an enum variant.
pub struct Field {
    pub name: String,
    pub ty: TypeId,
}

/// A variant of an enum, with its payload fields.
pub struct EnumVariant {
    pub name: String,
    pub fields: Vec<Field>,
}

/// What the display pass reads of a resolved symbol: its name, and for a
/// `data` type its fields, for an enum its variants (empty otherwise).
pub struct Nominal {
    pub name: String,
    pub fields: Vec<Field>,
    pub variants: Vec<EnumVariant>,
}

/// The interned types of a program and its resolved symbols.
pub struct Semantics {
    pub types: Vec<Type>,
    pub symbols: Vec<Nominal>,
}

/// The components of the type at `i` were interned before it.
pub open spec fn components_before(t: Type, i: int) -> bool {
    match t {
        Type::Optional(a) => a.0 < i,
        Type::ResultOf(a, b) => a.0 < i && b.0 < i,
        Type::List(a) => a.0 < i,
        Type::Array(a, _) => a.0 < i,
        Type::MapOf(a, b) => a.0 < i && b.0 < i,
        Type::Pointer(a) => a.0 < i,
        Type::Vutcon(a) => a.0 < i,
        Type::Future(a) => a.0 < i,
        Type::Resource(a) => a.0 < i,
        Type::Applied(_, args) => forall|k: int| 0 <= k < args@.len() ==> #[trigger] args@[k].0 < i,
        Type::Range(a) => a.0 < i,
        Type::Variadic(a) => a.0 < i,
        _ => true,
    }
}

/// A `data` or enum type names a resolved symbol.
pub open spec fn nominal_known(t: Type, symbols: int) -> bool {
    match t {
        Type::Data(s) => s.0 < symbols,
        Type::Enum(s) => s.0 < symbols,
        _ => true,
    }
}

/// Every field type of `nominal` is an interned type.
pub open spec fn fields_known(nominal: Nominal, types: int) -> bool {
    &&& forall|k: int| 0 <= k < nominal.fields@.len() ==> #[trigger] nominal.fields@[k].ty.0 < types
    &&& forall|v: int, k: int| 0 <= v < nominal.variants@.len() && 0 <= k < nominal.variants@[v].fields@.len()
        ==> #[trigger] nominal.variants@[v].fields@[k].ty.0 < types
}

impl Semantics {
    /// Types are interned after their components, `data` and enum types name
    /// resolved symbols, and field types are interned types.
    pub open spec fn wf(&self) -> bool {
        &&& forall|i: int| 0 <= i < self.types@.len() ==> #[trigger] components_before(self.types@[i], i)
        &&& forall|i: int| 0 <= i < self.types@.len() ==> #[trigger] nominal_known(self.types@[i], self.symbols@.len() as int)
        &&& forall|s: int| 0 <= s < self.symbols@.len() ==> #[trigger] fields_known(self.symbols@[s], self.types@.len() as int)
    }
}

/// `items` separated by `sep`.
pub open spec fn joined(items: Seq<Seq<char>>, sep: Seq<char>) -> Seq<char>
    decreases items.len(),
{
    if items.len() == 0 {
        Seq::empty()
    } else if items.len() == 1 {
        items[0]
    } else {
        joined(items.drop_last(), sep) + sep + items.last()
    }
}

proof fn lemma_joined_push(items: Seq<Seq<char>>, sep: Seq<char>, x: Seq<char>)
    ensures
        joined(items.push(x), sep) == if items.len() == 0 { x } else { joined(items, sep) + sep + x },
{
    assert(items.push(x).drop_last() =~= items);
}

/// `c` is an ASCII letter or digit.
pub open spec fn is_ascii_alphanumeric(c: char) -> bool {
    ('0' <= c && c <= '9') || ('a' <= c && c <= 'z') || ('A' <= c && c <= 'Z')
}

/// `name` with every character that is not an ASCII letter or digit
/// replaced by `_`.
pub open spec fn spec_sanitize(name: Seq<char>) -> Seq<char> {
    name.map_values(|c: char| if is_ascii_alphanumeric(c) { c } else { '_' })
}

/// Makes `name` usable inside an identifier: every character that is not an
/// ASCII letter or digit becomes `_`.
pub fn sanitize(name: &str) -> (r: String)
    ensures
        r@ == spec_sanitize(name@),
{
    let mut r = String::new();
    let n = name.unicode_len();
    let mut i: usize = 0;
    while i < n
        invariant
            n == name@.len(),
            i <= n,
            r@ == spec_sanitize(name@.take(i as int)),
        decreases n - i,
    {
        let c = name.get_char(i);
        if ('0' <= c && c <= '9') || ('a' <= c && c <= 'z') || ('A' <= c && c <= 'Z') {
            push_char(&mut r, c);
        } else {
            push_char(&mut r, '_');
        }
        proof {
            assert(spec_sanitize(name@.take(i + 1)) =~= spec_sanitize(name@.take(i as int)).push(
                if is_ascii_alphanumeric(c) { c } else { '_' },
            ));
        }
        i = i + 1;
    }
    proof {
        assert(name@.take(n as int) =~= name@);
    }
    r
}

/// The fragments `_<arg>` of the arguments of an applied type at `t`.
pub open spec fn mangle_args(types: Seq<Type>, args: Seq<TypeId>, t: int) -> Seq<char>
    decreases t, 0int, args.len(),
{
    if args.len() == 0 {
        Seq::empty()
    } else {
        let a = args.last();
        mangle_args(types, args.drop_last(), t) + "_"@
            + (if 0 <= a.0 < t { spec_mangle(types, a.0 as int) } else { Seq::empty() })
    }
}

/// The unique name fragment of the type at `t`, used in display function
/// names.
pub open spec fn spec_mangle(types: Seq<Type>, t: int) -> Seq<char>
    decreases t, 1int, 0int,
{
    if t < 0 || t >= types.len() {
        Seq::empty()
    } else {
        match types[t] {
            Type::Int => "int"@,
            Type::Float => "float"@,
            Type::Bool => "bool"@,
            Type::Str => "str"@,
            Type::Bytes => "bytes"@,
            Type::Dyn => "dyn"@,
            Type::Void => "void"@,
            Type::Numeric(name) => "num_"@ + spec_sanitize(name@),
            Type::Optional(a) => "opt_"@ + (if a.0 < t { spec_mangle(types, a.0 as int) } else { Seq::empty() }),
            Type::ResultOf(a, b) => "res_"@ + (if a.0 < t { spec_mangle(types, a.0 as int) } else { Seq::empty() })
                + "_"@ + (if b.0 < t { spec_mangle(types, b.0 as int) } else { Seq::empty() }),
            Type::List(a) => "list_"@ + (if a.0 < t { spec_mangle(types, a.0 as int) } else { Seq::empty() }),
            Type::Array(a, n) => "arr_"@ + (if a.0 < t { spec_mangle(types, a.0 as int) } else { Seq::empty() })
                + "_"@ + decimal(n as nat),
            Type::MapOf(a, b) => "map_"@ + (if a.0 < t { spec_mangle(types, a.0 as int) } else { Seq::empty() })
                + "_"@ + (if b.0 < t { spec_mangle(types, b.0 as int) } else { Seq::empty() }),
            Type::Pointer(a) => "ptr_"@ + (if a.0 < t { spec_mangle(types, a.0 as int) } else { Seq::empty() }),
            Type::Vutcon(a) => "vutcon_"@ + (if a.0 < t { spec_mangle(types, a.0 as int) } else { Seq::empty() }),
            Type::Future(a) => "future_"@ + (if a.0 < t { spec_mangle(types, a.0 as int) } else { Seq::empty() }),
            Type::Resource(a) => "resource_"@ + (if a.0 < t { spec_mangle(types, a.0 as int) } else { Seq::empty() }),
            Type::Data(s) => "d"@ + decimal(s.0 as nat),
            Type::Enum(s) => "e"@ + decimal(s.0 as nat),
            Type::Applied(s, args) => "a"@ + decimal(s.0 as nat) + mangle_args(types, args@, t),
            Type::Interface(s) => "i"@ + decimal(s.0 as nat),
            Type::Param(s) => "p"@ + decimal(s.0 as nat),
            Type::Function => "fn"@,
            Type::Callable => "fn"@,
            Type::FunctionPointer => "fn"@,
            Type::SelfType => "self"@,
            Type::Range(a) => "range_"@ + (if a.0 < t { spec_mangle(types, a.0 as int) } else { Seq::empty() }),
            Type::Error => "error"@,
            Type::Null => "null"@,
            Type::Variadic(a) => "variadic_"@ + (if a.0 < t { spec_mangle(types, a.0 as int) } else { Seq::empty() }),
        }
    }
}

/// Appends the fragments of the arguments of an applied type at `t`.
fn push_applied_args(sem: &Semantics, t: TypeId, args: &Vec<TypeId>, out: &mut String)
    requires
        sem.wf(),
        t.0 < sem.types@.len(),
        forall|k: int| 0 <= k < args@.len() ==> #[trigger] args@[k].0 < t.0,
    ensures
        final(out)@ == old(out)@ + mangle_args(sem.types@, args@, t.0 as int),
    decreases t.0, 0nat,
{
    let ghost start = out@;
    let mut k: usize = 0;
    while k < args.len()
        invariant
            sem.wf(),
            t.0 < sem.types@.len(),
            forall|k: int| 0 <= k < args@.len() ==> #[trigger] args@[k].0 < t.0,
            k <= args@.len(),
            out@ == start + mangle_args(sem.types@, args@.take(k as int), t.0 as int),
        decreases args@.len() - k,
    {
        let a = args[k];
        out.append("_");
        push_mangle(sem, a, out);
        proof {
            assert(args@.take(k + 1).drop_last() =~= args@.take(k as int));
            assert(args@.take(k + 1).last() == a);
        }
        k = k + 1;
    }
    proof {
        assert(args@.take(args@.len() as int) =~= args@);
    }
}

/// Appends the mangled fragment of the type at `t`.
#[verifier::rlimit(40)]
fn push_mangle(sem: &Semantics, t: TypeId, out: &mut String)
    requires
        sem.wf(),
        t.0 < sem.types@.len(),
    ensures
        final(out)@ == old(out)@ + spec_mangle(sem.types@, t.0 as int),
    decreases t.0, 1nat,
{
    let ghost types = sem.types@;
    proof {
        assert(components_before(types[t.0 as int], t.0 as int));
    }
    match &sem.types[t.0] {
        Type::Int => out.append("int"),
        Type::Float => out.append("float"),
        Type::Bool => out.append("bool"),
        Type::Str => out.append("str"),
        Type::Bytes => out.append("bytes"),
        Type::Dyn => out.append("dyn"),
        Type::Void => out.append("void"),
        Type::Numeric(name) => {
            out.append("num_");
            let clean = sanitize(name.as_str());
            out.append(clean.as_str());
        },
        Type::Optional(a) => {
            out.append("opt_");
            push_mangle(sem, *a, out);
        },
        Type::ResultOf(a, b) => {
            out.append("res_");
            push_mangle(sem, *a, out);
            out.append("_");
            push_mangle(sem, *b, out);
        },
        Type::List(a) => {
            out.append("list_");
            push_mangle(sem, *a, out);
        },
        Type::Array(a, n) => {
            out.append("arr_");
            push_mangle(sem, *a, out);
            out.append("_");
            push_decimal(out, *n as u64);
        },
        Type::MapOf(a, b) => {
            out.append("map_");
            push_mangle(sem, *a, out);
            out.append("_");
            push_mangle(sem, *b, out);
        },
        Type::Pointer(a) => {
            out.append("ptr_");
            push_mangle(sem, *a, out);
        },
        Type::Vutcon(a) => {
            out.append("vutcon_");
            push_mangle(sem, *a, out);
        },
        Type::Future(a) => {
            out.append("future_");
            push_mangle(sem, *a, out);
        },
        Type::Resource(a) => {
            out.append("resource_");
            push_mangle(sem, *a, out);
        },
        Type::Data(s) => {
            out.append("d");
            push_decimal(out, s.0 as u64);
        },
        Type::Enum(s) => {
            out.append("e");
            push_decimal(out, s.0 as u64);
        },
        Type::Applied(s, args) => {
            out.append("a");
            push_decimal(out, s.0 as u64);
            push_applied_args(sem, t, args, out);
            proof {
                assert(out@ =~= old(out)@ + ("a"@ + decimal(s.0 as nat) + mangle_args(types, args@, t.0 as int)));
            }
        },
        Type::Interface(s) => {
            out.append("i");
            push_decimal(out, s.0 as u64);
        },
        Type::Param(s) => {
            out.append("p");
            push_decimal(out, s.0 as u64);
        },
        Type::Function => out.append("fn"),
        Type::Callable => out.append("fn"),
        Type::FunctionPointer => out.append("fn"),
        Type::SelfType => out.append("self"),
        Type::Range(a) => {
            out.append("range_");
            push_mangle(sem, *a, out);
        },
        Type::Error => out.append("error"),
        Type::Null => out.append("null"),
        Type::Variadic(a) => {
            out.append("variadic_");
            push_mangle(sem, *a, out);
        },
    }
}

/// The mangled fragment of the type at `t`.
pub fn mangle(sem: &Semantics, t: TypeId) -> (r: String)
    requires
        sem.wf(),
        t.0 < sem.types@.len(),
    ensures
        r@ == spec_mangle(sem.types@, t.0 as int),
{
    let mut r = String::new();
    push_mangle(sem, t, &mut r);
    r
}

/// The Vut syntax of the type at `t`, as a display function's parameter type.
pub open spec fn spec_type_syntax(types: Seq<Type>, symbols: Seq<Nominal>, t: int) -> Seq<char>
    decreases t,
{
    if t < 0 || t >= types.len() {
        Seq::empty()
    } else {
        match types[t] {
            Type::Float => "float"@,
            Type::Bool => "bool"@,
            Type::Str => "str"@,
            Type::Bytes => "bytes"@,
            Type::Void => "void"@,
            Type::Dyn => "dyn"@,
            Type::Numeric(name) => name@,
            Type::List(e) => "list("@ + (if e.0 < t { spec_type_syntax(types, symbols, e.0 as int) } else { Seq::empty() })
                + ")"@,
            Type::Array(e, n) => "array("@
                + (if e.0 < t { spec_type_syntax(types, symbols, e.0 as int) } else { Seq::empty() }) + ", "@
                + decimal(n as nat) + ")"@,
            Type::Data(s) => symbols[s.0 as int].name@,
            Type::Enum(s) => symbols[s.0 as int].name@,
            Type::ResultOf(a, b) => "result("@
                + (if a.0 < t { spec_type_syntax(types, symbols, a.0 as int) } else { Seq::empty() }) + ", "@
                + (if b.0 < t { spec_type_syntax(types, symbols, b.0 as int) } else { Seq::empty() }) + ")"@,
            _ => "int"@,
        }
    }
}

/// Appends the Vut syntax of the type at `t`.
#[verifier::rlimit(20)]
fn push_type_syntax(sem: &Semantics, t: TypeId, out: &mut String)
    requires
        sem.wf(),
        t.0 < sem.types@.len(),
    ensures
        final(out)@ == old(out)@ + spec_type_syntax(sem.types@, sem.symbols@, t.0 as int),
    decreases t.0,
{
    proof {
        assert(components_before(sem.types@[t.0 as int], t.0 as int));
        assert(nominal_known(sem.types@[t.0 as int], sem.symbols@.len() as int));
    }
    match &sem.types[t.0] {
        Type::Float => out.append("float"),
        Type::Bool => out.append("bool"),
        Type::Str => out.append("str"),
        Type::Bytes => out.append("bytes"),
        Type::Void => out.append("void"),
        Type::Dyn => out.append("dyn"),
        Type::Numeric(name) => out.append(name.as_str()),
        Type::List(e) => {
            out.append("list(");
            push_type_syntax(sem, *e, out);
            out.append(")");
        },
        Type::Array(e, n) => {
            out.append("array(");
            push_type_syntax(sem, *e, out);
            out.append(", ");
            push_decimal(out, *n as u64);
            out.append(")");
        },
        Type::Data(s) => out.append(sem.symbols[s.0].name.as_str()),
        Type::Enum(s) => out.append(sem.symbols[s.0].name.as_str()),
        Type::ResultOf(a, b) => {
            out.append("result(");
            push_type_syntax(sem, *a, out);
            out.append(", ");
            push_type_syntax(sem, *b, out);
            out.append(")");
        },
        _ => out.append("int"),
    }
}

/// The Vut syntax of the type at `t`.
pub fn type_syntax(sem: &Semantics, t: TypeId) -> (r: String)
    requires
        sem.wf(),
        t.0 < sem.types@.len(),
    ensures
        r@ == spec_type_syntax(sem.types@, sem.symbols@, t.0 as int),
{
    let mut r = String::new();
    push_type_syntax(sem, t, &mut r);
    r
}

/// Whether the type at `t` is `str`.
pub fn is_str(sem: &Semantics, t: TypeId) -> (r: bool)
    requires
        t.0 < sem.types@.len(),
    ensures
        r == (sem.types@[t.0 as int] is Str),
{
    match &sem.types[t.0] {
        Type::Str => true,
        _ => false,
    }
}

/// Values of `t` need a generated display in template interpolation:
/// aggregates and bytes (numbers, `bool` and optionals keep their scalar
/// formatting).
pub open spec fn spec_needs_display(t: Type) -> bool {
    match t {
        Type::Data(_) => true,
        Type::Enum(_) => true,
        Type::List(_) => true,
        Type::Array(_, _) => true,
        Type::ResultOf(_, _) => true,
        Type::Bytes => true,
        _ => false,
    }
}

/// Whether template interpolation of the type at `t` needs a generated
/// display.
pub fn needs_display(sem: &Semantics, t: TypeId) -> (r: bool)
    requires
        t.0 < sem.types@.len(),
    ensures
        r == spec_needs_display(sem.types@[t.0 as int]),
{
    match &sem.types[t.0] {
        Type::Data(_) => true,
        Type::Enum(_) => true,
        Type::List(_) => true,
        Type::Array(_, _) => true,
        Type::ResultOf(_, _) => true,
        Type::Bytes => true,
        _ => false,
    }
}

/// The text a type without a textual form displays as.
pub open spec fn spec_placeholder(t: Type) -> Seq<char> {
    match t {
        Type::Optional(_) => "<optional>"@,
        Type::MapOf(_, _) => "<map>"@,
        Type::Function => "<function>"@,
        Type::Callable => "<function>"@,
        Type::FunctionPointer => "<function>"@,
        Type::Vutcon(_) => "<vutcon>"@,
        Type::Future(_) => "<future>"@,
        Type::Resource(_) => "<resource>"@,
        Type::Pointer(_) => "<ptr>"@,
        Type::Interface(_) => "<dyn>"@,
        Type::Dyn => "<dyn>"@,
        Type::Range(_) => "<range>"@,
        Type::Null => "null"@,
        _ => "<value>"@,
    }
}

/// The text a type without a textual form displays as.
pub fn placeholder(t: &Type) -> (r: &'static str)
    ensures
        r@ == spec_placeholder(*t),
{
    match t {
        Type::Optional(_) => "<optional>",
        Type::MapOf(_, _) => "<map>",
        Type::Function => "<function>",
        Type::Callable => "<function>",
        Type::FunctionPointer => "<function>",
        Type::Vutcon(_) => "<vutcon>",
        Type::Future(_) => "<future>",
        Type::Resource(_) => "<resource>",
        Type::Pointer(_) => "<ptr>",
        Type::Interface(_) => "<dyn>",
        Type::Dyn => "<dyn>",
        Type::Range(_) => "<range>",
        Type::Null => "null",
        _ => "<value>",
    }
}

/// The parameter shape of a display function.
#[derive(Clone, Copy, Debug, PartialEq, Eq, Structural)]
pub enum Shape {
    /// Takes `value: T` and formats it.
    Value,
    /// Takes no parameter; prints a fixed placeholder.
    Plain,
}

/// Values of `t` have a textual form (their display function takes them).
pub open spec fn has_text(t: Type) -> bool {
    match t {
        Type::Int => true,
        Type::Float => true,
        Type::Numeric(_) => true,
        Type::Bool => true,
        Type::Bytes => true,
        Type::List(_) => true,
        Type::Array(_, _) => true,
        Type::Data(_) => true,
        Type::Enum(_) => true,
        Type::ResultOf(_, _) => true,
        _ => false,
    }
}

/// The parameter shape of the display function of the type at `t`.
pub fn shape(sem: &Semantics, t: TypeId) -> (r: Shape)
    requires
        t.0 < sem.types@.len(),
    ensures
        r == (if has_text(sem.types@[t.0 as int]) { Shape::Value } else { Shape::Plain }),
{
    match &sem.types[t.0] {
        Type::Int => Shape::Value,
        Type::Float => Shape::Value,
        Type::Numeric(_) => Shape::Value,
        Type::Bool => Shape::Value,
        Type::Bytes => Shape::Value,
        Type::List(_) => Shape::Value,
        Type::Array(_, _) => Shape::Value,
        Type::Data(_) => Shape::Value,
        Type::Enum(_) => Shape::Value,
        Type::ResultOf(_, _) => Shape::Value,
        _ => Shape::Plain,
    }
}

/// The name of the shared nested-string formatting helper.
pub open spec fn str_helper() -> Seq<char> {
    "__vut_disp_str_q"@
}

/// The name of the display function of the type at `t`.
pub open spec fn display_name(types: Seq<Type>, t: int) -> Seq<char> {
    if types[t] is Str {
        str_helper()
    } else {
        "__vut_disp_"@ + spec_mangle(types, t)
    }
}

/// The call that displays `expr`, of the type at `t`.
pub open spec fn call_text(types: Seq<Type>, t: int, expr: Seq<char>) -> Seq<char> {
    if types[t] is Str {
        str_helper() + "("@ + expr + ")"@
    } else if !has_text(types[t]) {
        display_name(types, t) + "()"@
    } else {
        display_name(types, t) + "("@ + expr + ")"@
    }
}

/// The state of a generator: the display functions still to emit, each with
/// its type, and every display function name registered so far.
pub type GenState = (Seq<(Seq<char>, TypeId)>, Seq<Seq<char>>);

/// Registers the display function of the type at `t`: the string helper is
/// only marked as used; another type's function is queued for emission the
/// first time its name comes up.
pub open spec fn register(types: Seq<Type>, st: GenState, t: TypeId) -> GenState {
    let name = display_name(types, t.0 as int);
    if st.1.contains(name) {
        st
    } else if types[t.0 as int] is Str {
        (st.0, st.1.push(name))
    } else {
        (st.0.push((name, t)), st.1.push(name))
    }
}

/// Registers the display functions of `ts`, in order.
pub open spec fn register_all(types: Seq<Type>, st: GenState, ts: Seq<TypeId>) -> GenState
    decreases ts.len(),
{
    if ts.len() == 0 {
        st
    } else {
        register(types, register_all(types, st, ts.drop_last()), ts.last())
    }
}

/// The number of types among the first `n` (other than `str`) whose
/// display function name is not registered in `seen`.
pub open spec fn unseen(types: Seq<Type>, seen: Seq<Seq<char>>, n: int) -> nat
    decreases n,
{
    if n <= 0 {
        0
    } else {
        unseen(types, seen, n - 1) + (if !(types[n - 1] is Str) && !seen.contains(display_name(types, n - 1)) {
            1nat
        } else {
            0nat
        })
    }
}

/// An upper bound on the display functions a generator in state `st` may
/// still emit: those queued plus one per type whose name is unregistered.
pub open spec fn pending(types: Seq<Type>, st: GenState) -> nat {
    st.0.len() + unseen(types, st.1, types.len() as int)
}

/// Every queued display function is for an interned type.
pub open spec fn queued_known(types: Seq<Type>, st: GenState) -> bool {
    forall|k: int| 0 <= k < st.0.len() ==> #[trigger] st.0[k].1.0 < types.len()
}

proof fn lemma_unseen_push(types: Seq<Type>, seen: Seq<Seq<char>>, x: Seq<char>, n: int)
    ensures
        unseen(types, seen.push(x), n) <= unseen(types, seen, n),
    decreases n,
{
    if n > 0 {
        lemma_unseen_push(types, seen, x, n - 1);
        if seen.contains(display_name(types, n - 1)) {
            let k = choose|k: int| 0 <= k < seen.len() && seen[k] == display_name(types, n - 1);
            assert(seen.push(x)[k] == display_name(types, n - 1));
        }
    }
}

proof fn lemma_unseen_drop(types: Seq<Type>, seen: Seq<Seq<char>>, t: int, n: int)
    requires
        0 <= t < n,
        !(types[t] is Str),
        !seen.contains(display_name(types, t)),
    ensures
        unseen(types, seen.push(display_name(types, t)), n) < unseen(types, seen, n),
    decreases n,
{
    let x = display_name(types, t);
    assert(seen.push(x)[seen.len() as int] == x);
    if t == n - 1 {
        lemma_unseen_push(types, seen, x, n - 1);
    } else {
        lemma_unseen_drop(types, seen, t, n - 1);
        if seen.contains(display_name(types, n - 1)) {
            let k = choose|k: int| 0 <= k < seen.len() && seen[k] == display_name(types, n - 1);
            assert(seen.push(x)[k] == display_name(types, n - 1));
        }
    }
}

/// Registering an interned type never raises the pending bound.
proof fn lemma_register_pending(types: Seq<Type>, st: GenState, t: TypeId)
    requires
        t.0 < types.len(),
    ensures
        pending(types, register(types, st, t)) <= pending(types, st),
        queued_known(types, st) ==> queued_known(types, register(types, st, t)),
{
    let name = display_name(types, t.0 as int);
    if !st.1.contains(name) {
        if types[t.0 as int] is Str {
            lemma_unseen_push(types, st.1, name, types.len() as int);
            assert(register(types, st, t) == (st.0, st.1.push(name)));
            if queued_known(types, st) {
                assert(queued_known(types, (st.0, st.1.push(name))));
            }
        } else {
            lemma_unseen_drop(types, st.1, t.0 as int, types.len() as int);
            let q = st.0.push((name, t));
            if queued_known(types, st) {
                assert forall|k: int| 0 <= k < q.len() implies #[trigger] q[k].1.0 < types.len() by {
                    if k < st.0.len() {
                        assert(q[k] == st.0[k]);
                        assert(st.0[k].1.0 < types.len());
                    } else {
                        assert(k == st.0.len());
                        assert(q[k] == (name, t));
                        assert(q[k].1 == t);
                    }
                }
                assert(register(types, st, t) == (q, st.1.push(name)));
                assert(queued_known(types, (q, st.1.push(name))));
            }
        }
    } else {
        assert(register(types, st, t) == st);
    }
}

/// A generator of display functions.
pub struct Generator {
    worklist: Vec<(String, TypeId)>,
    seen: Vec<String>,
}

impl Generator {
    /// The functions still to emit and the names registered so far.
    pub closed spec fn state(&self) -> GenState {
        (
            self.worklist@.map_values(|e: (String, TypeId)| (e.0@, e.1)),
            self.seen@.map_values(|s: String| s@),
        )
    }

    /// A generator with nothing registered.
    pub fn new() -> (g: Generator)
        ensures
            g.state() == (Seq::<(Seq<char>, TypeId)>::empty(), Seq::<Seq<char>>::empty()),
            queue_ok(g.state()),
    {
        let g = Generator { worklist: Vec::new(), seen: Vec::new() };
        assert(g.state().0 =~= Seq::<(Seq<char>, TypeId)>::empty());
        assert(g.state().1 =~= Seq::<Seq<char>>::empty());
        assert(queue_names(g.state().0) =~= Seq::<Seq<char>>::empty());
        g
    }

    fn has_seen(&self, name: &str) -> (r: bool)
        ensures
            r == self.state().1.contains(name@),
    {
        let ghost views = self.state().1;
        let mut i: usize = 0;
        while i < self.seen.len()
            invariant
                views == self.state().1,
                i <= self.seen@.len(),
                forall|j: int| 0 <= j < i ==> views[j] != name@,
            decreases self.seen@.len() - i,
        {
            if str_eq(self.seen[i].as_str(), name) {
                assert(views[i as int] == name@);
                return true;
            }
            i = i + 1;
        }
        false
    }

    /// Registers the display function of the type at `ty` and returns its
    /// name.
    pub fn function_name(&mut self, sem: &Semantics, ty: TypeId) -> (name: String)
        requires
            sem.wf(),
            ty.0 < sem.types@.len(),
        ensures
            name@ == display_name(sem.types@, ty.0 as int),
            final(self).state() == register(sem.types@, old(self).state(), ty),
            pending(sem.types@, final(self).state()) <= pending(sem.types@, old(self).state()),
            queued_known(sem.types@, old(self).state()) ==> queued_known(sem.types@, final(self).state()),
            queue_ok(old(self).state()) ==> queue_ok(final(self).state()),
    {
        proof {
            lemma_register_pending(sem.types@, self.state(), ty);
            lemma_register_grows(sem.types@, self.state(), ty);
        }
        let mut name = String::new();
        let is_str = match &sem.types[ty.0] {
            Type::Str => true,
            _ => false,
        };
        if is_str {
            name.append("__vut_disp_str_q");
        } else {
            name.append("__vut_disp_");
            push_mangle(sem, ty, &mut name);
        }
        if !self.has_seen(name.as_str()) {
            if !is_str {
                self.worklist.push((name.clone(), ty));
            }
            self.seen.push(name.clone());
            proof {
                assert(self.state().1 =~= old(self).state().1.push(name@));
                if !is_str {
                    assert(self.state().0 =~= old(self).state().0.push((name@, ty)));
                }
            }
        }
        name
    }

    /// Registers the display function of the type at `ty` and returns the
    /// call that displays `expr`.
    pub fn display_call(&mut self, sem: &Semantics, ty: TypeId, expr: &str) -> (call: String)
        requires
            sem.wf(),
            ty.0 < sem.types@.len(),
        ensures
            call@ == call_text(sem.types@, ty.0 as int, expr@),
            final(self).state() == register(sem.types@, old(self).state(), ty),
            pending(sem.types@, final(self).state()) <= pending(sem.types@, old(self).state()),
            queued_known(sem.types@, old(self).state()) ==> queued_known(sem.types@, final(self).state()),
            queue_ok(old(self).state()) ==> queue_ok(final(self).state()),
    {
        let mut call = self.function_name(sem, ty);
        let plain = match &sem.types[ty.0] {
            Type::Str => false,
            _ => shape(sem, ty) == Shape::Plain,
        };
        if plain {
            call.append("()");
        } else {
            call.append("(");
            call.append(expr);
            call.append(")");
        }
        call
    }
}

/// Registering `a` then `b` registers `a + b`.
proof fn lemma_register_all_concat(types: Seq<Type>, st: GenState, a: Seq<TypeId>, b: Seq<TypeId>)
    ensures
        register_all(types, register_all(types, st, a), b) == register_all(types, st, a + b),
    decreases b.len(),
{
    if b.len() > 0 {
        lemma_register_all_concat(types, st, a, b.drop_last());
        assert((a + b).drop_last() =~= a + b.drop_last());
        assert((a + b).last() == b.last());
    } else {
        assert(a + b =~= a);
    }
}

proof fn lemma_register_all_push(types: Seq<Type>, st: GenState, a: Seq<TypeId>, t: TypeId)
    ensures
        register_all(types, st, a.push(t)) == register(types, register_all(types, st, a), t),
{
    assert(a.push(t).drop_last() =~= a);
}

/// Appends `items` separated by `sep`.
fn push_joined(items: &Vec<String>, sep: &str, out: &mut String)
    ensures
        final(out)@ == old(out)@ + joined(items@.map_values(|s: String| s@), sep@),
{
    let ghost views = items@.map_values(|s: String| s@);
    let ghost start = out@;
    let mut i: usize = 0;
    while i < items.len()
        invariant
            views == items@.map_values(|s: String| s@),
            i <= items@.len(),
            out@ == start + joined(views.take(i as int), sep@),
        decreases items@.len() - i,
    {
        proof {
            assert(views.take(i + 1) =~= views.take(i as int).push(views[i as int]));
            lemma_joined_push(views.take(i as int), sep@, views[i as int]);
        }
        if i > 0 {
            out.append(sep);
        }
        out.append(items[i].as_str());
        proof {
            if i == 0 {
                assert(views.take(0) =~= Seq::<Seq<char>>::empty());
            }
        }
        i = i + 1;
    }
    proof {
        assert(views.take(items@.len() as int) =~= views);
    }
}

/// The body of the display function of a list or array of `e`.
pub open spec fn sequence_text(types: Seq<Type>, e: int) -> Seq<char> {
    "  result = \"[\"\n  first = true\n  for item in value:\n    if first:\n      first = false\n    else:\n      result = result + \", \"\n    result = result + "@
        + call_text(types, e, "item"@) + "\n  result + \"]\""@
}

/// `name = $(<display of value.name>)`.
pub open spec fn field_piece(types: Seq<Type>, f: Field) -> Seq<char> {
    f.name@ + " = $("@ + call_text(types, f.ty.0 as int, "value."@ + f.name@) + ")"@
}

/// The types of `fields`, in order.
pub open spec fn field_types(fields: Seq<Field>) -> Seq<TypeId> {
    fields.map_values(|f: Field| f.ty)
}

/// The body of the display function of the `data` type `n`.
pub open spec fn data_text(types: Seq<Type>, n: Nominal) -> Seq<char> {
    if n.fields@.len() == 0 {
        "  \""@ + n.name@ + "()\""@
    } else {
        "  \""@ + n.name@ + "("@ + joined(n.fields@.map_values(|f: Field| field_piece(types, f)), ", "@) + ")\""@
    }
}

/// The name a payload field at position `i` is bound to in a match arm.
pub open spec fn binding(name: Seq<char>, i: int) -> Seq<char> {
    if name.len() == 0 || name == "_"@ {
        "field"@ + decimal(i as nat)
    } else {
        name
    }
}

/// The bindings of a variant's payload fields.
pub open spec fn bindings(fields: Seq<Field>) -> Seq<Seq<char>> {
    Seq::new(fields.len(), |i: int| binding(fields[i].name@, i))
}

/// The pieces a payload field at `i` adds to a variant's display: the
/// separator (after the first) and the field's display.
pub open spec fn payload_pieces(types: Seq<Type>, fields: Seq<Field>, i: int) -> Seq<Seq<char>> {
    let call = call_text(types, fields[i].ty.0 as int, binding(fields[i].name@, i));
    if i == 0 {
        seq![call]
    } else {
        seq!["\", \""@, call]
    }
}

/// The pieces whose sum displays a variant with payload.
pub open spec fn variant_pieces(types: Seq<Type>, v: EnumVariant) -> Seq<Seq<char>> {
    seq!["\""@ + v.name@ + "(\""@]
        + Seq::new(v.fields@.len(), |i: int| payload_pieces(types, v.fields@, i)).flatten()
        + seq!["\")\""@]
}

/// The match arm that displays the variant `v`.
pub open spec fn arm_text(types: Seq<Type>, v: EnumVariant) -> Seq<char> {
    if v.fields@.len() == 0 {
        "    "@ + v.name@ + ": \""@ + v.name@ + "\""@
    } else {
        "    "@ + v.name@ + "("@ + joined(bindings(v.fields@), ", "@) + "): "@
            + joined(variant_pieces(types, v), " + "@)
    }
}

/// The body of the display function of the enum `n`.
pub open spec fn enum_text(types: Seq<Type>, n: Nominal) -> Seq<char> {
    "  match value:\n"@ + joined(n.variants@.map_values(|v: EnumVariant| arm_text(types, v)), "\n"@)
}

/// The payload types of the variants of `n`, in order.
pub open spec fn enum_types(n: Nominal) -> Seq<TypeId> {
    n.variants@.map_values(|v: EnumVariant| field_types(v.fields@)).flatten()
}

/// The body of the display function of `result(ok, err)`.
pub open spec fn result_text(types: Seq<Type>, ok: int, err: int) -> Seq<char> {
    "  match value:\n    ok(inner): \"ok(\" + "@ + call_text(types, ok, "inner"@) + " + \")\"\n    err(error): \"err(\" + "@
        + call_text(types, err, "error"@) + " + \")\""@
}

impl Generator {
    fn sequence_body(&mut self, sem: &Semantics, e: TypeId) -> (text: String)
        requires
            sem.wf(),
            e.0 < sem.types@.len(),
        ensures
            text@ == sequence_text(sem.types@, e.0 as int),
            final(self).state() == register(sem.types@, old(self).state(), e),
            pending(sem.types@, final(self).state()) <= pending(sem.types@, old(self).state()),
            queued_known(sem.types@, old(self).state()) ==> queued_known(sem.types@, final(self).state()),
    {
        let call = self.display_call(sem, e, "item");
        let mut text = String::new();
        text.append("  result = \"[\"\n  first = true\n  for item in value:\n    if first:\n      first = false\n    else:\n      result = result + \", \"\n    result = result + ");
        text.append(call.as_str());
        text.append("\n  result + \"]\"");
        text
    }

    fn data_body(&mut self, sem: &Semantics, s: SymbolId) -> (text: String)
        requires
            sem.wf(),
            s.0 < sem.symbols@.len(),
        ensures
            text@ == data_text(sem.types@, sem.symbols@[s.0 as int]),
            final(self).state() == register_all(sem.types@, old(self).state(), field_types(sem.symbols@[s.0 as int].fields@)),
            pending(sem.types@, final(self).state()) <= pending(sem.types@, old(self).state()),
            queued_known(sem.types@, old(self).state()) ==> queued_known(sem.types@, final(self).state()),
    {
        let ghost known0 = queued_known(sem.types@, self.state());
        let ghost pending0 = pending(sem.types@, self.state());
        let nominal = &sem.symbols[s.0];
        proof {
            assert(fields_known(sem.symbols@[s.0 as int], sem.types@.len() as int));
        }
        let mut text = String::new();
        text.append("  \"");
        text.append(nominal.name.as_str());
        if nominal.fields.len() == 0 {
            text.append("()\"");
            proof {
                assert(field_types(nominal.fields@) =~= Seq::<TypeId>::empty());
            }
            return text;
        }
        let ghost st0 = self.state();
        let ghost f = |fl: Field| field_piece(sem.types@, fl);
        let mut pieces: Vec<String> = Vec::new();
        let mut k: usize = 0;
        while k < nominal.fields.len()
            invariant
                sem.wf(),
                nominal == sem.symbols@[s.0 as int],
                fields_known(*nominal, sem.types@.len() as int),
                f == (|fl: Field| field_piece(sem.types@, fl)),
                k <= nominal.fields@.len(),
                pieces@.map_values(|p: String| p@) == nominal.fields@.take(k as int).map_values(f),
                self.state() == register_all(sem.types@, st0, field_types(nominal.fields@.take(k as int))),
                pending(sem.types@, self.state()) <= pending0,
                known0 ==> queued_known(sem.types@, self.state()),
            decreases nominal.fields@.len() - k,
        {
            let field = &nominal.fields[k];
            let mut expr = String::new();
            expr.append("value.");
            expr.append(field.name.as_str());
            let call = self.display_call(sem, field.ty, expr.as_str());
            let mut piece = String::new();
            piece.append(field.name.as_str());
            piece.append(" = $(");
            piece.append(call.as_str());
            piece.append(")");
            proof {
                assert(expr@ == "value."@ + field.name@);
                assert(piece@ == field_piece(sem.types@, *field));
                assert(piece@ == f(nominal.fields@[k as int]));
            }
            let ghost before = pieces@;
            pieces.push(piece);
            proof {
                assert(nominal.fields@.take(k + 1) =~= nominal.fields@.take(k as int).push(nominal.fields@[k as int]));
                assert(pieces@ == before.push(piece));
                assert(pieces@.map_values(|p: String| p@) =~= before.map_values(|p: String| p@).push(piece@));
                assert(pieces@.map_values(|p: String| p@) =~= nominal.fields@.take(k + 1).map_values(f));
                assert(field_types(nominal.fields@.take(k + 1)) =~= field_types(nominal.fields@.take(k as int)).push(field.ty));
                lemma_register_all_push(sem.types@, st0, field_types(nominal.fields@.take(k as int)), field.ty);
            }
            k = k + 1;
        }
        text.append("(");
        push_joined(&pieces, ", ", &mut text);
        text.append(")\"");
        proof {
            assert(nominal.fields@.take(nominal.fields@.len() as int) =~= nominal.fields@);
        }
        text
    }

    fn result_body(&mut self, sem: &Semantics, ok: TypeId, err: TypeId) -> (text: String)
        requires
            sem.wf(),
            ok.0 < sem.types@.len(),
            err.0 < sem.types@.len(),
        ensures
            text@ == result_text(sem.types@, ok.0 as int, err.0 as int),
            final(self).state() == register(sem.types@, register(sem.types@, old(self).state(), ok), err),
            pending(sem.types@, final(self).state()) <= pending(sem.types@, old(self).state()),
            queued_known(sem.types@, old(self).state()) ==> queued_known(sem.types@, final(self).state()),
    {
        let ok_display = self.display_call(sem, ok, "inner");
        let err_display = self.display_call(sem, err, "error");
        let mut text = String::new();
        text.append("  match value:\n    ok(inner): \"ok(\" + ");
        text.append(ok_display.as_str());
        text.append(" + \")\"\n    err(error): \"err(\" + ");
        text.append(err_display.as_str());
        text.append(" + \")\"");
        text
    }
}

/// The name a payload field at position `i` is bound to.
fn binding_name(name: &str, i: usize) -> (b: String)
    ensures
        b@ == binding(name@, i as int),
{
    if name.unicode_len() == 0 || str_eq(name, "_") {
        let mut b = String::new();
        b.append("field");
        push_decimal(&mut b, i as u64);
        b
    } else {
        name.to_owned()
    }
}

impl Generator {
    fn variant_arm(&mut self, sem: &Semantics, variant: &EnumVariant) -> (arm: String)
        requires
            sem.wf(),
            forall|k: int| 0 <= k < variant.fields@.len() ==> #[trigger] variant.fields@[k].ty.0 < sem.types@.len(),
        ensures
            arm@ == arm_text(sem.types@, *variant),
            final(self).state() == register_all(sem.types@, old(self).state(), field_types(variant.fields@)),
            pending(sem.types@, final(self).state()) <= pending(sem.types@, old(self).state()),
            queued_known(sem.types@, old(self).state()) ==> queued_known(sem.types@, final(self).state()),
    {
        let ghost known0 = queued_known(sem.types@, self.state());
        let ghost pending0 = pending(sem.types@, self.state());
        let ghost types = sem.types@;
        let ghost fields = variant.fields@;
        let name = variant.name.as_str();
        let mut arm = String::new();
        arm.append("    ");
        arm.append(name);
        if variant.fields.len() == 0 {
            arm.append(": \"");
            arm.append(name);
            arm.append("\"");
            proof {
                assert(field_types(fields) =~= Seq::<TypeId>::empty());
            }
            return arm;
        }
        let ghost st0 = self.state();
        let ghost pf = |j: int| payload_pieces(types, fields, j);
        let ghost bf = |j: int| binding(fields[j].name@, j);
        let mut open = String::new();
        open.append("\"");
        open.append(name);
        open.append("(\"");
        let mut pieces: Vec<String> = Vec::new();
        pieces.push(open);
        let mut binds: Vec<String> = Vec::new();
        let mut i: usize = 0;
        proof {
            assert(pieces@.map_values(|p: String| p@) =~= seq!["\""@ + name@ + "(\""@] + Seq::new(0, pf).flatten());
            assert(binds@.map_values(|p: String| p@) =~= Seq::new(0, bf));
            assert(field_types(fields.take(0)) =~= Seq::<TypeId>::empty());
        }
        while i < variant.fields.len()
            invariant
                sem.wf(),
                types == sem.types@,
                fields == variant.fields@,
                forall|k: int| 0 <= k < fields.len() ==> #[trigger] fields[k].ty.0 < types.len(),
                pf == (|j: int| payload_pieces(types, fields, j)),
                bf == (|j: int| binding(fields[j].name@, j)),
                i <= fields.len(),
                pieces@.map_values(|p: String| p@) == seq!["\""@ + name@ + "(\""@] + Seq::new(i as nat, pf).flatten(),
                binds@.map_values(|p: String| p@) == Seq::new(i as nat, bf),
                self.state() == register_all(types, st0, field_types(fields.take(i as int))),
                pending(types, self.state()) <= pending0,
                known0 ==> queued_known(types, self.state()),
            decreases fields.len() - i,
        {
            let field = &variant.fields[i];
            let b = binding_name(field.name.as_str(), i);
            let call = self.display_call(sem, field.ty, b.as_str());
            let ghost before = pieces@.map_values(|p: String| p@);
            let ghost call_view = call@;
            if i > 0 {
                pieces.push("\", \"".to_owned());
            }
            pieces.push(call);
            let ghost bbefore = binds@.map_values(|p: String| p@);
            binds.push(b);
            proof {
                assert(Seq::new((i + 1) as nat, pf) =~= Seq::new(i as nat, pf).push(pf(i as int)));
                Seq::new(i as nat, pf).lemma_flatten_push(pf(i as int));
                if i > 0 {
                    assert(pf(i as int) == seq!["\", \""@, call_view]);
                    assert(pieces@.map_values(|p: String| p@) =~= before.push("\", \""@).push(call_view));
                } else {
                    assert(pf(i as int) == seq![call_view]);
                    assert(pieces@.map_values(|p: String| p@) =~= before.push(call_view));
                }
                assert(pieces@.map_values(|p: String| p@) =~= seq!["\""@ + name@ + "(\""@] + Seq::new((i + 1) as nat, pf).flatten());
                assert(binds@.map_values(|p: String| p@) =~= bbefore.push(bf(i as int)));
                assert(binds@.map_values(|p: String| p@) =~= Seq::new((i + 1) as nat, bf));
                assert(fields.take(i + 1) =~= fields.take(i as int).push(fields[i as int]));
                assert(field_types(fields.take(i + 1)) =~= field_types(fields.take(i as int)).push(field.ty));
                lemma_register_all_push(types, st0, field_types(fields.take(i as int)), field.ty);
            }
            i = i + 1;
        }
        let ghost middle = pieces@.map_values(|p: String| p@);
        pieces.push("\")\"".to_owned());
        proof {
            assert(fields.take(fields.len() as int) =~= fields);
            assert(Seq::new(fields.len(), bf) =~= bindings(fields));
            assert(pieces@.map_values(|p: String| p@) =~= middle.push("\")\""@));
            assert(pieces@.map_values(|p: String| p@) =~= variant_pieces(types, *variant));
        }
        arm.append("(");
        push_joined(&binds, ", ", &mut arm);
        arm.append("): ");
        push_joined(&pieces, " + ", &mut arm);
        arm
    }

    fn enum_body(&mut self, sem: &Semantics, s: SymbolId) -> (text: String)
        requires
            sem.wf(),
            s.0 < sem.symbols@.len(),
        ensures
            text@ == enum_text(sem.types@, sem.symbols@[s.0 as int]),
            final(self).state() == register_all(sem.types@, old(self).state(), enum_types(sem.symbols@[s.0 as int])),
            pending(sem.types@, final(self).state()) <= pending(sem.types@, old(self).state()),
            queued_known(sem.types@, old(self).state()) ==> queued_known(sem.types@, final(self).state()),
    {
        let ghost known0 = queued_known(sem.types@, self.state());
        let ghost pending0 = pending(sem.types@, self.state());
        let ghost types = sem.types@;
        let nominal = &sem.symbols[s.0];
        proof {
            assert(fields_known(sem.symbols@[s.0 as int], types.len() as int));
        }
        let ghost variants = nominal.variants@;
        let ghost af = |v: EnumVariant| arm_text(types, v);
        let ghost tf = |v: EnumVariant| field_types(v.fields@);
        let ghost st0 = self.state();
        let mut arms: Vec<String> = Vec::new();
        let mut v: usize = 0;
        proof {
            assert(variants.take(0).map_values(tf) =~= Seq::<Seq<TypeId>>::empty());
            assert(variants.take(0).map_values(tf).flatten() =~= Seq::<TypeId>::empty());
        }
        while v < nominal.variants.len()
            invariant
                sem.wf(),
                types == sem.types@,
                variants == nominal.variants@,
                fields_known(*nominal, types.len() as int),
                af == (|v: EnumVariant| arm_text(types, v)),
                tf == (|v: EnumVariant| field_types(v.fields@)),
                v <= variants.len(),
                arms@.map_values(|p: String| p@) == variants.take(v as int).map_values(af),
                self.state() == register_all(types, st0, variants.take(v as int).map_values(tf).flatten()),
                pending(types, self.state()) <= pending0,
                known0 ==> queued_known(types, self.state()),
            decreases variants.len() - v,
        {
            let variant = &nominal.variants[v];
            proof {
                assert forall|k: int| 0 <= k < variant.fields@.len() implies #[trigger] variant.fields@[k].ty.0 < types.len() by {
                    assert(nominal.variants@[v as int].fields@[k].ty.0 < types.len());
                }
            }
            let ghost mid = self.state();
            let arm = self.variant_arm(sem, variant);
            let ghost before = arms@.map_values(|p: String| p@);
            arms.push(arm);
            proof {
                assert(variants.take(v + 1) =~= variants.take(v as int).push(*variant));
                assert(arms@.map_values(|p: String| p@) =~= before.push(af(*variant)));
                assert(variants.take(v + 1).map_values(tf) =~= variants.take(v as int).map_values(tf).push(tf(*variant)));
                variants.take(v as int).map_values(tf).lemma_flatten_push(tf(*variant));
                lemma_register_all_concat(types, st0, variants.take(v as int).map_values(tf).flatten(), tf(*variant));
            }
            v = v + 1;
        }
        proof {
            assert(variants.take(variants.len() as int) =~= variants);
        }
        let mut text = String::new();
        text.append("  match value:\n");
        push_joined(&arms, "\n", &mut text);
        text
    }
}

/// The type at `i` is `list(u8)`.
pub open spec fn is_list_u8(types: Seq<Type>, i: int) -> bool {
    match types[i] {
        Type::List(e) => e.0 < types.len() && match types[e.0 as int] {
            Type::Numeric(n) => n@ == "u8"@,
            _ => false,
        },
        _ => false,
    }
}

/// The first `list(u8)` type at or after `i`, if any.
pub open spec fn list_u8_from(types: Seq<Type>, i: int) -> Option<int>
    decreases types.len() - i,
{
    if i < 0 || i >= types.len() {
        None
    } else if is_list_u8(types, i) {
        Some(i)
    } else {
        list_u8_from(types, i + 1)
    }
}

proof fn lemma_list_u8_from(types: Seq<Type>, i: int)
    requires
        0 <= i <= types.len(),
        forall|j: int| 0 <= j < i ==> !is_list_u8(types, j),
    ensures
        list_u8_from(types, i) == list_u8_from(types, 0),
    decreases i,
{
    if i > 0 {
        lemma_list_u8_from(types, i - 1);
    }
}

/// The interned `list(u8)` type that `bytes.to_list()` returns, if any.
pub fn list_u8(sem: &Semantics) -> (r: Option<usize>)
    requires
        sem.wf(),
    ensures
        r matches Some(i) ==> list_u8_from(sem.types@, 0) == Some(i as int) && i < sem.types@.len(),
        r is None ==> list_u8_from(sem.types@, 0) is None,
{
    let mut i: usize = 0;
    while i < sem.types.len()
        invariant
            sem.wf(),
            i <= sem.types@.len(),
            forall|j: int| 0 <= j < i ==> !is_list_u8(sem.types@, j),
        decreases sem.types@.len() - i,
    {
        proof {
            assert(components_before(sem.types@[i as int], i as int));
        }
        let found = match &sem.types[i] {
            Type::List(e) => match &sem.types[e.0] {
                Type::Numeric(n) => str_eq(n.as_str(), "u8"),
                _ => false,
            },
            _ => false,
        };
        if found {
            proof {
                lemma_list_u8_from(sem.types@, i as int);
            }
            return Some(i);
        }
        i = i + 1;
    }
    proof {
        lemma_list_u8_from(sem.types@, i as int);
    }
    None
}

/// The body of the display function of the type at `t`.
pub open spec fn body_text(types: Seq<Type>, symbols: Seq<Nominal>, t: int) -> Seq<char> {
    match types[t] {
        Type::Int => "  value.to_str()"@,
        Type::Float => "  value.to_str()"@,
        Type::Numeric(_) => "  value.to_str()"@,
        Type::Bool => "  text = \"false\"\n  if value:\n    text = \"true\"\n  text"@,
        Type::Bytes => match list_u8_from(types, 0) {
            Some(l) => "  "@ + display_name(types, l) + "(value.to_list())"@,
            None => "  \"<bytes>\""@,
        },
        Type::List(e) => sequence_text(types, e.0 as int),
        Type::Array(e, _) => sequence_text(types, e.0 as int),
        Type::Data(s) => data_text(types, symbols[s.0 as int]),
        Type::Enum(s) => enum_text(types, symbols[s.0 as int]),
        Type::ResultOf(a, b) => result_text(types, a.0 as int, b.0 as int),
        _ => "  \""@ + spec_placeholder(types[t]) + "\""@,
    }
}

/// The display functions the body of the type at `t` calls, in order.
pub open spec fn body_types(types: Seq<Type>, symbols: Seq<Nominal>, t: int) -> Seq<TypeId> {
    match types[t] {
        Type::Bytes => match list_u8_from(types, 0) {
            Some(l) => seq![TypeId(l as usize)],
            None => Seq::empty(),
        },
        Type::List(e) => seq![e],
        Type::Array(e, _) => seq![e],
        Type::Data(s) => field_types(symbols[s.0 as int].fields@),
        Type::Enum(s) => enum_types(symbols[s.0 as int]),
        Type::ResultOf(a, b) => seq![a, b],
        _ => Seq::empty(),
    }
}

/// The display function `name` of the type at `t`.
pub open spec fn function_text(types: Seq<Type>, symbols: Seq<Nominal>, name: Seq<char>, t: int) -> Seq<char> {
    if !has_text(types[t]) {
        "fn "@ + name + "() -> str:\n  \""@ + spec_placeholder(types[t]) + "\"\n\n"@
    } else {
        "fn "@ + name + "(value: "@ + spec_type_syntax(types, symbols, t) + ") -> str:\n"@ + body_text(types, symbols, t)
            + "\n\n"@
    }
}

/// The display functions that emitting the function of the type at `t`
/// registers, in order.
pub open spec fn function_types(types: Seq<Type>, symbols: Seq<Nominal>, t: int) -> Seq<TypeId> {
    if !has_text(types[t]) {
        Seq::empty()
    } else {
        body_types(types, symbols, t)
    }
}

proof fn lemma_register_one(types: Seq<Type>, st: GenState, t: TypeId)
    ensures
        register_all(types, st, seq![t]) == register(types, st, t),
{
    assert(seq![t].drop_last() =~= Seq::<TypeId>::empty());
    assert(register_all(types, st, Seq::<TypeId>::empty()) == st);
}

proof fn lemma_register_two(types: Seq<Type>, st: GenState, a: TypeId, b: TypeId)
    ensures
        register_all(types, st, seq![a, b]) == register(types, register(types, st, a), b),
{
    assert(seq![a, b].drop_last() =~= seq![a]);
    lemma_register_one(types, st, a);
}

impl Generator {
    fn body(&mut self, sem: &Semantics, ty: TypeId) -> (text: String)
        requires
            sem.wf(),
            ty.0 < sem.types@.len(),
        ensures
            text@ == body_text(sem.types@, sem.symbols@, ty.0 as int),
            final(self).state() == register_all(sem.types@, old(self).state(), body_types(sem.types@, sem.symbols@, ty.0 as int)),
            pending(sem.types@, final(self).state()) <= pending(sem.types@, old(self).state()),
            queued_known(sem.types@, old(self).state()) ==> queued_known(sem.types@, final(self).state()),
    {
        let ghost types = sem.types@;
        let ghost st0 = self.state();
        proof {
            assert(components_before(types[ty.0 as int], ty.0 as int));
            assert(nominal_known(types[ty.0 as int], sem.symbols@.len() as int));
            assert(register_all(types, st0, Seq::<TypeId>::empty()) == st0);
        }
        match &sem.types[ty.0] {
            Type::Int => "  value.to_str()".to_owned(),
            Type::Float => "  value.to_str()".to_owned(),
            Type::Numeric(_) => "  value.to_str()".to_owned(),
            Type::Bool => "  text = \"false\"\n  if value:\n    text = \"true\"\n  text".to_owned(),
            Type::Bytes => match list_u8(sem) {
                Some(list) => {
                    let helper = self.function_name(sem, TypeId(list));
                    let mut text = String::new();
                    text.append("  ");
                    text.append(helper.as_str());
                    text.append("(value.to_list())");
                    proof {
                        lemma_register_one(types, st0, TypeId(list));
                    }
                    text
                },
                None => "  \"<bytes>\"".to_owned(),
            },
            Type::List(e) => {
                let text = self.sequence_body(sem, *e);
                proof {
                    lemma_register_one(types, st0, *e);
                }
                text
            },
            Type::Array(e, _) => {
                let text = self.sequence_body(sem, *e);
                proof {
                    lemma_register_one(types, st0, *e);
                }
                text
            },
            Type::Data(s) => self.data_body(sem, *s),
            Type::Enum(s) => self.enum_body(sem, *s),
            Type::ResultOf(a, b) => {
                let text = self.result_body(sem, *a, *b);
                proof {
                    lemma_register_two(types, st0, *a, *b);
                }
                text
            },
            other => {
                let mut text = String::new();
                text.append("  \"");
                text.append(placeholder(other));
                text.append("\"");
                text
            },
        }
    }

    fn emit_function(&mut self, sem: &Semantics, name: &str, ty: TypeId, source: &mut String)
        requires
            sem.wf(),
            ty.0 < sem.types@.len(),
        ensures
            final(source)@ == old(source)@ + function_text(sem.types@, sem.symbols@, name@, ty.0 as int),
            final(self).state() == register_all(sem.types@, old(self).state(), function_types(sem.types@, sem.symbols@, ty.0 as int)),
            pending(sem.types@, final(self).state()) <= pending(sem.types@, old(self).state()),
            queued_known(sem.types@, old(self).state()) ==> queued_known(sem.types@, final(self).state()),
    {
        if shape(sem, ty) == Shape::Plain {
            source.append("fn ");
            source.append(name);
            source.append("() -> str:\n  \"");
            source.append(placeholder(&sem.types[ty.0]));
            source.append("\"\n\n");
            proof {
                assert(register_all(sem.types@, self.state(), Seq::<TypeId>::empty()) == self.state());
            }
            return;
        }
        let ghost start = source@;
        source.append("fn ");
        source.append(name);
        source.append("(value: ");
        push_type_syntax(sem, ty, source);
        source.append(") -> str:\n");
        let body = self.body(sem, ty);
        source.append(body.as_str());
        source.append("\n\n");
        proof {
            assert(source@ =~= start + function_text(sem.types@, sem.symbols@, name@, ty.0 as int));
        }
    }
}

/// Emits up to `fuel` queued display functions, most recently queued first,
/// registering what each one calls; the text emitted and the final state.
pub open spec fn drain(types: Seq<Type>, symbols: Seq<Nominal>, st: GenState, fuel: nat) -> (Seq<char>, GenState)
    decreases fuel,
{
    if fuel == 0 || st.0.len() == 0 {
        (Seq::empty(), st)
    } else {
        let (name, t) = st.0.last();
        let next = register_all(types, (st.0.drop_last(), st.1), function_types(types, symbols, t.0 as int));
        let rest = drain(types, symbols, next, (fuel - 1) as nat);
        (function_text(types, symbols, name, t.0 as int) + rest.0, rest.1)
    }
}

/// The shared helper that displays a nested string in quotes.
pub open spec fn str_helper_text() -> Seq<char> {
    "fn __vut_disp_str_q(value: str) -> str:\n  34.to_char() + value + 34.to_char()\n\n"@
}

/// The source that a generator in state `st` emits: every queued display
/// function and, transitively, every one they call, followed by the string
/// helper when anything registered it.
pub open spec fn generated(types: Seq<Type>, symbols: Seq<Nominal>, st: GenState) -> Seq<char> {
    let d = drain(types, symbols, st, pending(types, st));
    d.0 + (if d.1.1.contains(str_helper()) { str_helper_text() } else { Seq::empty() })
}

impl Generator {
    /// Emits the source of every registered display function and of every
    /// display function they call, draining the queue.
    pub fn generate(&mut self, sem: &Semantics) -> (source: String)
        requires
            sem.wf(),
            queued_known(sem.types@, old(self).state()),
        ensures
            source@ == generated(sem.types@, sem.symbols@, old(self).state()),
            final(self).state().0.len() == 0,
    {
        let ghost types = sem.types@;
        let ghost symbols = sem.symbols@;
        let ghost st0 = self.state();
        let ghost fuel0 = pending(types, st0);
        let ghost mut fuel: nat = fuel0;
        let mut source = String::new();
        proof {
            assert(source@ + drain(types, symbols, st0, fuel0).0 =~= drain(types, symbols, st0, fuel0).0);
        }
        while self.worklist.len() > 0
            invariant
                sem.wf(),
                types == sem.types@,
                symbols == sem.symbols@,
                queued_known(types, self.state()),
                pending(types, self.state()) <= fuel,
                drain(types, symbols, st0, fuel0).0 == source@ + drain(types, symbols, self.state(), fuel).0,
                drain(types, symbols, st0, fuel0).1 == drain(types, symbols, self.state(), fuel).1,
            decreases pending(types, self.state()),
        {
            let ghost cur = self.state();
            let entry = self.worklist.pop().unwrap();
            let (name, ty) = entry;
            proof {
                assert(cur.0.len() > 0);
                assert(cur.0.last() == (name@, ty));
                assert(self.state().0 =~= cur.0.drop_last());
                assert(self.state().1 == cur.1);
                assert(queued_known(types, self.state()));
                assert(ty.0 < types.len()) by {
                    assert(cur.0[cur.0.len() - 1].1.0 < types.len());
                }
            }
            let ghost popped = self.state();
            let ghost before = source@;
            self.emit_function(sem, name.as_str(), ty, &mut source);
            proof {
                let next = register_all(types, (cur.0.drop_last(), cur.1), function_types(types, symbols, ty.0 as int));
                assert(self.state() == next);
                let rest = drain(types, symbols, next, (fuel - 1) as nat);
                assert(drain(types, symbols, cur, fuel) == (function_text(types, symbols, name@, ty.0 as int) + rest.0, rest.1));
                assert(source@ + rest.0 =~= before + (function_text(types, symbols, name@, ty.0 as int) + rest.0));
                fuel = (fuel - 1) as nat;
            }
        }
        proof {
            assert(drain(types, symbols, self.state(), fuel) == (Seq::<char>::empty(), self.state()));
            assert(source@ =~= drain(types, symbols, st0, fuel0).0);
        }
        if self.has_seen("__vut_disp_str_q") {
            source.append("fn __vut_disp_str_q(value: str) -> str:\n  34.to_char() + value + 34.to_char()\n\n");
        }
        source
    }
}

/// The names of the display functions that `drain` emits, in order.
pub open spec fn drained_names(types: Seq<Type>, symbols: Seq<Nominal>, st: GenState, fuel: nat) -> Seq<Seq<char>>
    decreases fuel,
{
    if fuel == 0 || st.0.len() == 0 {
        Seq::empty()
    } else {
        let (name, t) = st.0.last();
        let next = register_all(types, (st.0.drop_last(), st.1), function_types(types, symbols, t.0 as int));
        seq![name] + drained_names(types, symbols, next, (fuel - 1) as nat)
    }
}

/// The names of the queued display functions.
pub open spec fn queue_names(q: Seq<(Seq<char>, TypeId)>) -> Seq<Seq<char>> {
    q.map_values(|e: (Seq<char>, TypeId)| e.0)
}

/// The queued names are distinct and registered.
pub open spec fn queue_ok(st: GenState) -> bool {
    &&& queue_names(st.0).no_duplicates()
    &&& forall|k: int| 0 <= k < st.0.len() ==> st.1.contains(#[trigger] st.0[k].0)
}

/// What registering keeps and adds: registered names stay registered, the
/// queue only grows at its end with names that were not registered, every
/// new registration is queued or is the string helper, and a consistent
/// queue stays consistent.
pub open spec fn grows(old: GenState, new: GenState) -> bool {
    &&& forall|x: Seq<char>| old.1.contains(x) ==> #[trigger] new.1.contains(x)
    &&& old.0.len() <= new.0.len()
    &&& forall|k: int| 0 <= k < old.0.len() ==> #[trigger] new.0[k] == old.0[k]
    &&& forall|k: int| old.0.len() <= k < new.0.len() ==> !old.1.contains(#[trigger] new.0[k].0)
    &&& forall|x: Seq<char>| #[trigger] new.1.contains(x) ==> old.1.contains(x) || x == str_helper()
        || queue_names(new.0).contains(x)
    &&& queue_ok(old) ==> queue_ok(new)
}

proof fn lemma_register_grows(types: Seq<Type>, st: GenState, t: TypeId)
    ensures
        grows(st, register(types, st, t)),
{
    let r = register(types, st, t);
    let name = display_name(types, t.0 as int);
    if st.1.contains(name) {
        assert(r == st);
        assert forall|x: Seq<char>| #[trigger] r.1.contains(x) implies st.1.contains(x) || x == str_helper()
            || queue_names(r.0).contains(x) by {}
    } else if types[t.0 as int] is Str {
        assert(r == (st.0, st.1.push(name)));
        assert forall|x: Seq<char>| st.1.contains(x) implies #[trigger] r.1.contains(x) by {
            let k = choose|k: int| 0 <= k < st.1.len() && st.1[k] == x;
            assert(r.1[k] == x);
        }
        assert forall|x: Seq<char>| #[trigger] r.1.contains(x) implies st.1.contains(x) || x == str_helper()
            || queue_names(r.0).contains(x) by {
            let k = choose|k: int| 0 <= k < r.1.len() && r.1[k] == x;
            if k < st.1.len() {
                assert(st.1[k] == x);
            }
        }
        if queue_ok(st) {
            assert forall|k: int| 0 <= k < r.0.len() implies r.1.contains(#[trigger] r.0[k].0) by {
                assert(st.1.contains(st.0[k].0));
            }
        }
    } else {
        let q = st.0.push((name, t));
        assert(r == (q, st.1.push(name)));
        assert forall|x: Seq<char>| st.1.contains(x) implies #[trigger] r.1.contains(x) by {
            let k = choose|k: int| 0 <= k < st.1.len() && st.1[k] == x;
            assert(r.1[k] == x);
        }
        assert(queue_names(q) =~= queue_names(st.0).push(name));
        assert forall|x: Seq<char>| #[trigger] r.1.contains(x) implies st.1.contains(x) || x == str_helper()
            || queue_names(r.0).contains(x) by {
            let k = choose|k: int| 0 <= k < r.1.len() && r.1[k] == x;
            if k < st.1.len() {
                assert(st.1[k] == x);
            } else {
                assert(queue_names(q)[st.0.len() as int] == x);
            }
        }
        assert forall|k: int| st.0.len() <= k < r.0.len() implies !st.1.contains(#[trigger] r.0[k].0) by {
            assert(k == st.0.len());
            assert(r.0[k] == (name, t));
        }
        if queue_ok(st) {
            assert forall|k: int| 0 <= k < r.0.len() implies r.1.contains(#[trigger] r.0[k].0) by {
                if k < st.0.len() {
                    assert(r.0[k] == st.0[k]);
                    let j = choose|j: int| 0 <= j < st.1.len() && st.1[j] == st.0[k].0;
                    assert(r.1[j] == st.0[k].0);
                } else {
                    assert(r.1[st.1.len() as int] == name);
                }
            }
            assert forall|i: int, j: int| 0 <= i < j < queue_names(q).len() implies queue_names(q)[i] != queue_names(q)[j] by {
                if j == st.0.len() {
                    assert(st.1.contains(st.0[i].0));
                    assert(queue_names(q)[i] == st.0[i].0);
                } else {
                    assert(queue_names(q)[i] == queue_names(st.0)[i]);
                    assert(queue_names(q)[j] == queue_names(st.0)[j]);
                }
            }
        }
    }
}

proof fn lemma_grows_trans(a: GenState, b: GenState, c: GenState)
    requires
        grows(a, b),
        grows(b, c),
    ensures
        grows(a, c),
{
    assert forall|x: Seq<char>| #[trigger] c.1.contains(x) implies a.1.contains(x) || x == str_helper()
        || queue_names(c.0).contains(x) by {
        if b.1.contains(x) && !a.1.contains(x) && x != str_helper() {
            let k = choose|k: int| 0 <= k < queue_names(b.0).len() && queue_names(b.0)[k] == x;
            assert(c.0[k] == b.0[k]);
            assert(queue_names(c.0)[k] == x);
        }
    }
    assert forall|k: int| a.0.len() <= k < c.0.len() implies !a.1.contains(#[trigger] c.0[k].0) by {
        if k < b.0.len() {
            assert(c.0[k] == b.0[k]);
        } else {
            assert(!b.1.contains(c.0[k].0));
        }
    }
}

proof fn lemma_register_all_grows(types: Seq<Type>, st: GenState, ts: Seq<TypeId>)
    ensures
        grows(st, register_all(types, st, ts)),
    decreases ts.len(),
{
    if ts.len() == 0 {
        let r = register_all(types, st, ts);
        assert(r == st);
        assert forall|x: Seq<char>| #[trigger] r.1.contains(x) implies st.1.contains(x) || x == str_helper()
            || queue_names(r.0).contains(x) by {}
    } else {
        let mid = register_all(types, st, ts.drop_last());
        lemma_register_all_grows(types, st, ts.drop_last());
        lemma_register_grows(types, mid, ts.last());
        lemma_grows_trans(st, mid, register(types, mid, ts.last()));
    }
}

proof fn lemma_pop_ok(st: GenState)
    requires
        queue_ok(st),
        st.0.len() > 0,
    ensures
        queue_ok((st.0.drop_last(), st.1)),
        !queue_names(st.0.drop_last()).contains(st.0.last().0),
        st.1.contains(st.0.last().0),
{
    let p = st.0.drop_last();
    assert(queue_names(p) =~= queue_names(st.0).drop_last());
    assert(st.1.contains(st.0[st.0.len() - 1].0));
    if queue_names(p).contains(st.0.last().0) {
        let k = choose|k: int| 0 <= k < queue_names(p).len() && queue_names(p)[k] == st.0.last().0;
        assert(queue_names(st.0)[k] == queue_names(st.0)[st.0.len() - 1]);
    }
    assert forall|k: int| 0 <= k < p.len() implies st.1.contains(#[trigger] p[k].0) by {
        assert(p[k] == st.0[k]);
    }
}

/// The display functions `drain` emits are ones queued at the start or ones
/// whose names were not registered yet.
proof fn lemma_drained_fresh(types: Seq<Type>, symbols: Seq<Nominal>, st: GenState, fuel: nat)
    ensures
        forall|x: Seq<char>| #[trigger] drained_names(types, symbols, st, fuel).contains(x)
            ==> queue_names(st.0).contains(x) || !st.1.contains(x),
    decreases fuel,
{
    if fuel > 0 && st.0.len() > 0 {
        let (name, t) = st.0.last();
        let popped = (st.0.drop_last(), st.1);
        let next = register_all(types, popped, function_types(types, symbols, t.0 as int));
        lemma_drained_fresh(types, symbols, next, (fuel - 1) as nat);
        lemma_register_all_grows(types, popped, function_types(types, symbols, t.0 as int));
        let rest = drained_names(types, symbols, next, (fuel - 1) as nat);
        assert(drained_names(types, symbols, st, fuel) == seq![name] + rest);
        assert forall|x: Seq<char>| #[trigger] drained_names(types, symbols, st, fuel).contains(x)
            implies queue_names(st.0).contains(x) || !st.1.contains(x) by {
            let d = seq![name] + rest;
            let i = choose|i: int| 0 <= i < d.len() && d[i] == x;
            if i == 0 {
                assert(queue_names(st.0)[st.0.len() - 1] == name);
            } else {
                assert(rest[i - 1] == x);
                assert(rest.contains(x));
                if queue_names(next.0).contains(x) {
                    let k = choose|k: int| 0 <= k < queue_names(next.0).len() && queue_names(next.0)[k] == x;
                    if k < popped.0.len() {
                        assert(next.0[k] == popped.0[k]);
                        assert(popped.0[k] == st.0[k]);
                        assert(queue_names(st.0)[k] == x);
                    } else {
                        assert(!popped.1.contains(next.0[k].0));
                    }
                }
            }
        }
    }
}

/// A generator emits each display function at most once: the names of the
/// functions it emits are distinct.
pub proof fn lemma_emitted_once(types: Seq<Type>, symbols: Seq<Nominal>, st: GenState, fuel: nat)
    requires
        queue_ok(st),
    ensures
        drained_names(types, symbols, st, fuel).no_duplicates(),
    decreases fuel,
{
    if fuel > 0 && st.0.len() > 0 {
        let (name, t) = st.0.last();
        let popped = (st.0.drop_last(), st.1);
        let ts = function_types(types, symbols, t.0 as int);
        let next = register_all(types, popped, ts);
        lemma_pop_ok(st);
        lemma_register_all_grows(types, popped, ts);
        lemma_emitted_once(types, symbols, next, (fuel - 1) as nat);
        lemma_drained_fresh(types, symbols, next, (fuel - 1) as nat);
        let rest = drained_names(types, symbols, next, (fuel - 1) as nat);
        assert(next.1.contains(name));
        if rest.contains(name) {
            assert(queue_names(next.0).contains(name));
            let k = choose|k: int| 0 <= k < queue_names(next.0).len() && queue_names(next.0)[k] == name;
            if k < popped.0.len() {
                assert(next.0[k] == popped.0[k]);
                assert(queue_names(popped.0)[k] == name);
            } else {
                assert(!popped.1.contains(next.0[k].0));
            }
        }
        let d = seq![name] + rest;
        assert(drained_names(types, symbols, st, fuel) == d);
        assert forall|i: int, j: int| 0 <= i < j < d.len() implies d[i] != d[j] by {
            if i == 0 {
                assert(d[j] == rest[j - 1]);
                assert(rest.contains(d[j]));
            } else {
                assert(d[i] == rest[i - 1] && d[j] == rest[j - 1]);
            }
        }
    }
}

proof fn lemma_flatten_bounded(ss: Seq<Seq<TypeId>>, n: int)
    requires
        forall|i: int, k: int| 0 <= i < ss.len() && 0 <= k < ss[i].len() ==> #[trigger] ss[i][k].0 < n,
    ensures
        forall|k: int| 0 <= k < ss.flatten().len() ==> #[trigger] ss.flatten()[k].0 < n,
    decreases ss.len(),
{
    if ss.len() > 0 {
        let rest = ss.drop_first();
        assert forall|i: int, k: int| 0 <= i < rest.len() && 0 <= k < rest[i].len() implies #[trigger] rest[i][k].0 < n by {
            assert(rest[i] == ss[i + 1]);
        }
        lemma_flatten_bounded(rest, n);
        assert(ss.flatten() == ss.first() + rest.flatten());
        assert forall|k: int| 0 <= k < ss.flatten().len() implies #[trigger] ss.flatten()[k].0 < n by {
            if k < ss.first().len() {
                assert(ss.flatten()[k] == ss[0][k]);
            } else {
                assert(ss.flatten()[k] == rest.flatten()[k - ss.first().len()]);
            }
        }
    }
}

/// The display functions a display function calls are for interned types.
proof fn lemma_function_types_known(sem: &Semantics, t: int)
    requires
        sem.wf(),
        0 <= t < sem.types@.len(),
    ensures
        forall|k: int| 0 <= k < function_types(sem.types@, sem.symbols@, t).len()
            ==> #[trigger] function_types(sem.types@, sem.symbols@, t)[k].0 < sem.types@.len(),
{
    let types = sem.types@;
    let n = types.len() as int;
    assert(components_before(types[t], t));
    assert(nominal_known(types[t], sem.symbols@.len() as int));
    match types[t] {
        Type::Bytes => {
            if list_u8_from(types, 0) is Some {
                lemma_list_u8_bounded(types, 0);
            }
        },
        Type::Data(s) => {
            assert(fields_known(sem.symbols@[s.0 as int], n));
        },
        Type::Enum(s) => {
            let nominal = sem.symbols@[s.0 as int];
            assert(fields_known(nominal, n));
            let ss = nominal.variants@.map_values(|v: EnumVariant| field_types(v.fields@));
            assert forall|i: int, k: int| 0 <= i < ss.len() && 0 <= k < ss[i].len() implies #[trigger] ss[i][k].0 < n by {
                assert(nominal.variants@[i].fields@[k].ty.0 < n);
            }
            lemma_flatten_bounded(ss, n);
        },
        _ => {},
    }
}

proof fn lemma_list_u8_bounded(types: Seq<Type>, i: int)
    requires
        list_u8_from(types, i) is Some,
    ensures
        0 <= list_u8_from(types, i)->0 < types.len(),
    decreases types.len() - i,
{
    if 0 <= i < types.len() && !is_list_u8(types, i) {
        lemma_list_u8_bounded(types, i + 1);
    }
}

proof fn lemma_register_all_pending(types: Seq<Type>, st: GenState, ts: Seq<TypeId>)
    requires
        forall|k: int| 0 <= k < ts.len() ==> #[trigger] ts[k].0 < types.len(),
    ensures
        pending(types, register_all(types, st, ts)) <= pending(types, st),
        queued_known(types, st) ==> queued_known(types, register_all(types, st, ts)),
    decreases ts.len(),
{
    if ts.len() > 0 {
        let front = ts.drop_last();
        assert forall|k: int| 0 <= k < front.len() implies #[trigger] front[k].0 < types.len() by {
            assert(front[k] == ts[k]);
        }
        lemma_register_all_pending(types, st, front);
        assert(ts.last() == ts[ts.len() - 1]);
        lemma_register_pending(types, register_all(types, st, front), ts.last());
    }
}

/// Draining with at least the pending bound as fuel empties the queue.
proof fn lemma_drain_empties(sem: &Semantics, st: GenState, fuel: nat)
    requires
        sem.wf(),
        queued_known(sem.types@, st),
        fuel >= pending(sem.types@, st),
    ensures
        drain(sem.types@, sem.symbols@, st, fuel).1.0.len() == 0,
    decreases fuel,
{
    let types = sem.types@;
    if st.0.len() > 0 {
        let (name, t) = st.0.last();
        let popped = (st.0.drop_last(), st.1);
        assert(st.0[st.0.len() - 1].1.0 < types.len());
        lemma_function_types_known(sem, t.0 as int);
        let ts = function_types(types, sem.symbols@, t.0 as int);
        lemma_register_all_pending(types, popped, ts);
        assert(queued_known(types, popped)) by {
            assert forall|k: int| 0 <= k < popped.0.len() implies #[trigger] popped.0[k].1.0 < types.len() by {
                assert(popped.0[k] == st.0[k]);
            }
        }
        lemma_drain_empties(sem, register_all(types, popped, ts), (fuel - 1) as nat);
    }
}

/// Generating emits every display function it registers: afterwards each
/// registered name is the string helper (appended whenever it is
/// registered), a function emitted by this generation, or one that was
/// registered without being queued before it started.
pub proof fn lemma_registered_are_emitted(sem: &Semantics, st: GenState, fuel: nat)
    requires
        sem.wf(),
        queued_known(sem.types@, st),
        fuel >= pending(sem.types@, st),
    ensures
        drain(sem.types@, sem.symbols@, st, fuel).1.0.len() == 0,
        forall|x: Seq<char>| #[trigger] drain(sem.types@, sem.symbols@, st, fuel).1.1.contains(x) ==> {
            ||| x == str_helper()
            ||| drained_names(sem.types@, sem.symbols@, st, fuel).contains(x)
            ||| st.1.contains(x) && !queue_names(st.0).contains(x)
        },
    decreases fuel,
{
    let types = sem.types@;
    let symbols = sem.symbols@;
    lemma_drain_empties(sem, st, fuel);
    if st.0.len() > 0 {
        let (name, t) = st.0.last();
        let popped = (st.0.drop_last(), st.1);
        assert(st.0[st.0.len() - 1].1.0 < types.len());
        lemma_function_types_known(sem, t.0 as int);
        let ts = function_types(types, symbols, t.0 as int);
        let next = register_all(types, popped, ts);
        lemma_register_all_pending(types, popped, ts);
        assert(queued_known(types, popped)) by {
            assert forall|k: int| 0 <= k < popped.0.len() implies #[trigger] popped.0[k].1.0 < types.len() by {
                assert(popped.0[k] == st.0[k]);
            }
        }
        lemma_register_all_grows(types, popped, ts);
        lemma_registered_are_emitted(sem, next, (fuel - 1) as nat);
        let rest = drained_names(types, symbols, next, (fuel - 1) as nat);
        assert(drained_names(types, symbols, st, fuel) == seq![name] + rest);
        let fin = drain(types, symbols, st, fuel).1;
        assert(fin == drain(types, symbols, next, (fuel - 1) as nat).1);
        assert forall|x: Seq<char>| #[trigger] fin.1.contains(x) implies {
            ||| x == str_helper()
            ||| drained_names(types, symbols, st, fuel).contains(x)
            ||| st.1.contains(x) && !queue_names(st.0).contains(x)
        } by {
            let d = seq![name] + rest;
            if rest.contains(x) {
                let i = choose|i: int| 0 <= i < rest.len() && rest[i] == x;
                assert(d[i + 1] == x);
            } else if x != str_helper() {
                assert(next.1.contains(x) && !queue_names(next.0).contains(x));
                assert(st.1.contains(x));
                if x == name {
                    assert(d[0] == x);
                } else if queue_names(st.0).contains(x) {
                    let k = choose|k: int| 0 <= k < queue_names(st.0).len() && queue_names(st.0)[k] == x;
                    if k == st.0.len() - 1 {
                        assert(st.0.last().0 == x);
                    } else {
                        assert(next.0[k] == popped.0[k]);
                        assert(queue_names(next.0)[k] == x);
                    }
                }
            }
        }
    }
}

} // verus!
