use vut_wasm::compiler::display::{
    list_u8, mangle, placeholder, shape, EnumVariant, Field, Generator, Nominal, Semantics, Shape,
    SymbolId, Type,
};
use vut_wasm::wasm::program::TypeId;

fn field(name: &str, ty: usize) -> Field {
    Field { name: name.to_owned(), ty: TypeId(ty) }
}

fn semantics() -> Semantics {
    Semantics {
        types: vec![
            Type::Int,                                 // 0
            Type::Str,                                 // 1
            Type::List(TypeId(0)),                     // 2
            Type::Data(SymbolId(0)),                   // 3
            Type::Numeric("u8".to_owned()),            // 4
            Type::List(TypeId(4)),                     // 5
            Type::Bytes,                               // 6
            Type::Enum(SymbolId(1)),                   // 7
            Type::ResultOf(TypeId(0), TypeId(1)),      // 8
            Type::Optional(TypeId(0)),                 // 9
            Type::Array(TypeId(1), 3),                 // 10
            Type::Applied(SymbolId(4), vec![TypeId(0), TypeId(9)]), // 11
            Type::MapOf(TypeId(1), TypeId(0)),         // 12
            Type::Data(SymbolId(2)),                   // 13
            Type::Numeric("i-32".to_owned()),          // 14
        ],
        symbols: vec![
            Nominal {
                name: "User".to_owned(),
                fields: vec![field("age", 0), field("name", 1), field("tags", 2)],
                variants: vec![],
            },
            Nominal {
                name: "Shape".to_owned(),
                fields: vec![],
                variants: vec![
                    EnumVariant { name: "point".to_owned(), fields: vec![] },
                    EnumVariant { name: "circle".to_owned(), fields: vec![field("radius", 0)] },
                    EnumVariant { name: "pair".to_owned(), fields: vec![field("", 0), field("_", 1)] },
                ],
            },
            Nominal { name: "Empty".to_owned(), fields: vec![], variants: vec![] },
        ],
    }
}

#[test]
fn mangled_names_spell_out_the_type() {
    let sem = semantics();
    assert_eq!(mangle(&sem, TypeId(0)), "int");
    assert_eq!(mangle(&sem, TypeId(2)), "list_int");
    assert_eq!(mangle(&sem, TypeId(3)), "d0");
    assert_eq!(mangle(&sem, TypeId(5)), "list_num_u8");
    assert_eq!(mangle(&sem, TypeId(8)), "res_int_str");
    assert_eq!(mangle(&sem, TypeId(10)), "arr_str_3");
    assert_eq!(mangle(&sem, TypeId(11)), "a4_int_opt_int");
    assert_eq!(mangle(&sem, TypeId(12)), "map_str_int");
    assert_eq!(mangle(&sem, TypeId(14)), "num_i_32");
}

#[test]
fn shapes_and_placeholders() {
    let sem = semantics();
    assert_eq!(shape(&sem, TypeId(0)), Shape::Value);
    assert_eq!(shape(&sem, TypeId(7)), Shape::Value);
    assert_eq!(shape(&sem, TypeId(1)), Shape::Plain);
    assert_eq!(shape(&sem, TypeId(9)), Shape::Plain);
    assert_eq!(placeholder(&Type::Optional(TypeId(0))), "<optional>");
    assert_eq!(placeholder(&Type::MapOf(TypeId(0), TypeId(0))), "<map>");
    assert_eq!(placeholder(&Type::Callable), "<function>");
    assert_eq!(placeholder(&Type::Null), "null");
    assert_eq!(placeholder(&Type::Int), "<value>");
    assert_eq!(list_u8(&sem), Some(5));
}

#[test]
fn data_display_pulls_in_its_field_displays() {
    let sem = semantics();
    let mut generator = Generator::new();
    assert_eq!(generator.function_name(&sem, TypeId(3)), "__vut_disp_d0");
    let source = generator.generate(&sem);
    let expected = [
        "fn __vut_disp_d0(value: User) -> str:\n",
        "  \"User(age = $(__vut_disp_int(value.age)), name = $(__vut_disp_str_q(value.name)), tags = $(__vut_disp_list_int(value.tags)))\"\n\n",
        "fn __vut_disp_list_int(value: list(int)) -> str:\n",
        "  result = \"[\"\n  first = true\n  for item in value:\n    if first:\n      first = false\n    else:\n      result = result + \", \"\n    result = result + __vut_disp_int(item)\n  result + \"]\"\n\n",
        "fn __vut_disp_int(value: int) -> str:\n  value.to_str()\n\n",
        "fn __vut_disp_str_q(value: str) -> str:\n  34.to_char() + value + 34.to_char()\n\n",
    ].concat();
    assert_eq!(source, expected);
}

#[test]
fn enum_display_matches_every_variant() {
    let sem = semantics();
    let mut generator = Generator::new();
    generator.function_name(&sem, TypeId(7));
    let source = generator.generate(&sem);
    let expected = [
        "fn __vut_disp_e1(value: Shape) -> str:\n",
        "  match value:\n",
        "    point: \"point\"\n",
        "    circle(radius): \"circle(\" + __vut_disp_int(radius) + \")\"\n",
        "    pair(field0, field1): \"pair(\" + __vut_disp_int(field0) + \", \" + __vut_disp_str_q(field1) + \")\"\n\n",
        "fn __vut_disp_int(value: int) -> str:\n  value.to_str()\n\n",
        "fn __vut_disp_str_q(value: str) -> str:\n  34.to_char() + value + 34.to_char()\n\n",
    ].concat();
    assert_eq!(source, expected);
}

#[test]
fn each_display_function_is_emitted_once() {
    let sem = semantics();
    let mut generator = Generator::new();
    generator.function_name(&sem, TypeId(2));
    generator.function_name(&sem, TypeId(0));
    generator.function_name(&sem, TypeId(2));
    let source = generator.generate(&sem);
    assert_eq!(source.matches("fn __vut_disp_int(").count(), 1);
    assert_eq!(source.matches("fn __vut_disp_list_int(").count(), 1);
    assert!(!source.contains("__vut_disp_str_q"));
    assert_eq!(generator.generate(&sem), "");
}

#[test]
fn plain_types_get_a_placeholder_function() {
    let sem = semantics();
    let mut generator = Generator::new();
    generator.function_name(&sem, TypeId(9));
    generator.function_name(&sem, TypeId(13));
    let source = generator.generate(&sem);
    assert_eq!(
        source,
        "fn __vut_disp_d2(value: Empty) -> str:\n  \"Empty()\"\n\nfn __vut_disp_opt_int() -> str:\n  \"<optional>\"\n\n"
    );
}

#[test]
fn results_bytes_and_arrays() {
    let sem = semantics();
    let mut generator = Generator::new();
    generator.function_name(&sem, TypeId(8));
    let source = generator.generate(&sem);
    assert!(source.starts_with(
        "fn __vut_disp_res_int_str(value: result(int, str)) -> str:\n  match value:\n    ok(inner): \"ok(\" + __vut_disp_int(inner) + \")\"\n    err(error): \"err(\" + __vut_disp_str_q(error) + \")\"\n\n"
    ));
    let mut generator = Generator::new();
    generator.function_name(&sem, TypeId(6));
    let source = generator.generate(&sem);
    assert!(source.starts_with("fn __vut_disp_bytes(value: bytes) -> str:\n  __vut_disp_list_num_u8(value.to_list())\n\n"));
    assert!(source.contains("fn __vut_disp_list_num_u8(value: list(u8)) -> str:\n"));
    assert!(source.contains("fn __vut_disp_num_u8(value: u8) -> str:\n  value.to_str()\n\n"));
    let mut generator = Generator::new();
    assert_eq!(generator.function_name(&sem, TypeId(1)), "__vut_disp_str_q");
    assert_eq!(generator.display_call(&sem, TypeId(10), "xs"), "__vut_disp_arr_str_3(xs)");
    assert_eq!(generator.display_call(&sem, TypeId(12), "m"), "__vut_disp_map_str_int()");
    let source = generator.generate(&sem);
    assert!(source.starts_with("fn __vut_disp_map_str_int() -> str:\n  \"<map>\"\n\n"));
    assert!(source.contains("fn __vut_disp_arr_str_3(value: array(str, 3)) -> str:\n"));
    assert!(source.ends_with("fn __vut_disp_str_q(value: str) -> str:\n  34.to_char() + value + 34.to_char()\n\n"));
}
