use vut_wasm::wasm::model::{Ins, MemArg};
use vut_wasm::wasm::rt_index::{SO_IS_WS, STR_IS_WS};
use vut_wasm::wasm::strings::bodies;

fn byte() -> Ins {
    Ins::I32Load8U(MemArg { offset: 0, align: 0, memory_index: 0 })
}

#[test]
fn trims_test_each_byte_for_ascii_whitespace() {
    let helpers = bodies(0);
    for trim in [&helpers[14], &helpers[15]] {
        let call = trim.code.iter().position(|i| *i == Ins::Call(STR_IS_WS)).unwrap();
        assert_eq!(trim.code[call - 1], byte());
        assert!(!trim.code.contains(&Ins::Call(SO_IS_WS)));
    }
}
