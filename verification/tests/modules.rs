use nio::wasm::binary::{emit, EncodeError, Emitter};
use nio::wasm::{
    ElemType, Export, ExportDesc, Expr, Func, FuncIdx, FuncType, Global, GlobalType, Instr, Limits,
    LocalIdx, Mem, MemType, Module, Mut, Name, ResultType, Start, Table, TableType, TypeIdx,
    ValType,
};

#[test]
fn test_emit() {
    let module = Module::new();
    let result = emit(&module);
    assert!(result.is_ok());
    assert_eq!(result.unwrap(), &[0, 97, 115, 109, 1, 0, 0, 0]);
}

#[test]
fn test_emit_module() {
    let module = Module::new();
    let mut emitter = Emitter::new();
    let result = emitter.emit_module(&module);
    assert!(result.is_ok());
    assert_eq!(emitter.out, &[0, 97, 115, 109, 1, 0, 0, 0]);
}

#[test]
fn test_emit_val_and_func_types() {
    let mut emitter = Emitter::new();
    assert!(emitter.emit_val_type(&ValType::I32).is_ok());
    assert!(emitter.emit_val_type(&ValType::I64).is_ok());
    assert!(emitter.emit_val_type(&ValType::F32).is_ok());
    assert!(emitter.emit_val_type(&ValType::F64).is_ok());
    assert_eq!(emitter.out, &[0x7f, 0x7e, 0x7d, 0x7c]);

    let mut emitter = Emitter::new();
    let ft = FuncType(
        ResultType(vec![ValType::I32, ValType::I32]),
        ResultType(vec![ValType::I32]),
    );
    assert!(emitter.emit_func_type(&ft).is_ok());
    assert_eq!(emitter.out, &[0x60, 0x02, 0x7f, 0x7f, 0x01, 0x7f]);
}

#[test]
fn test_emit_result_type() {
    let mut emitter = Emitter::new();
    assert!(emitter.emit_result_type(&ResultType(vec![])).is_ok());
    assert_eq!(emitter.out, &[0x00]);

    let mut emitter = Emitter::new();
    assert!(emitter.emit_result_type(&ResultType(vec![ValType::I64, ValType::F64])).is_ok());
    assert_eq!(emitter.out, &[0x02, 0x7e, 0x7c]);
}

/// The module of one exported add-two-locals function, written out by
/// hand against the binary format.
fn add_module() -> Module {
    let mut module = Module::new();
    module.types.push(FuncType(
        ResultType(vec![ValType::I32, ValType::I32]),
        ResultType(vec![ValType::I32]),
    ));
    module.funcs.push(Func {
        ty: TypeIdx(0),
        locals: vec![],
        body: Expr(vec![
            Instr::LocalGet(LocalIdx(0)),
            Instr::LocalGet(LocalIdx(1)),
            Instr::I32Add,
        ]),
    });
    module.exports.push(Export {
        name: Name("add".to_string()),
        desc: ExportDesc::Func(FuncIdx(0)),
    });
    module
}

#[test]
fn test_emit_add_module_bytes() {
    let bytes = emit(&add_module()).unwrap();
    let expected: Vec<u8> = vec![
        0x00, 0x61, 0x73, 0x6d, // magic
        0x01, 0x00, 0x00, 0x00, // version
        0x01, 0x07, 0x01, 0x60, 0x02, 0x7f, 0x7f, 0x01, 0x7f, // type section
        0x03, 0x02, 0x01, 0x00, // function section
        0x07, 0x07, 0x01, 0x03, 0x61, 0x64, 0x64, 0x00, 0x00, // export section
        0x0a, 0x09, 0x01, 0x07, 0x00, 0x20, 0x00, 0x20, 0x01, 0x6a, 0x0b, // code section
    ];
    assert_eq!(bytes, expected);
}

#[test]
fn test_unencoded_fields_leave_no_trace() {
    // Populating tables, memories, globals, segments, a start function
    // and imports changes nothing in the encoding: those sections are
    // never emitted.
    let plain = add_module();
    let mut loaded = add_module();
    loaded.tables.push(Table { ty: TableType(Limits { min: 1, max: None }, ElemType) });
    loaded.mems.push(Mem { ty: MemType(Limits { min: 1, max: Some(2) }) });
    loaded.globals.push(Global {
        ty: GlobalType(Mut::Const, ValType::I32),
        init: Expr(vec![Instr::I32Const(0)]),
    });
    loaded.start = Some(Start { func: FuncIdx(0) });
    assert_eq!(emit(&plain).unwrap(), emit(&loaded).unwrap());
}

#[test]
fn test_unsupported_instruction_fails() {
    let mut module = Module::new();
    module.types.push(FuncType(ResultType(vec![]), ResultType(vec![])));
    module.funcs.push(Func {
        ty: TypeIdx(0),
        locals: vec![],
        body: Expr(vec![Instr::Return, Instr::Call(FuncIdx(0))]),
    });
    assert_eq!(emit(&module), Err(EncodeError::UnsupportedInstr));
}

#[test]
fn test_export_name_utf8() {
    let mut module = Module::new();
    module.types.push(FuncType(ResultType(vec![]), ResultType(vec![])));
    module.funcs.push(Func { ty: TypeIdx(0), locals: vec![], body: Expr(vec![]) });
    module.exports.push(Export {
        name: Name("s\u{00fc}d".to_string()),
        desc: ExportDesc::Func(FuncIdx(0)),
    });
    let bytes = emit(&module).unwrap();
    // The name is length-prefixed UTF-8: 4 bytes for 3 characters.
    let expected_name: &[u8] = &[0x04, 0x73, 0xc3, 0xbc, 0x64];
    assert!(bytes.windows(expected_name.len()).any(|w| w == expected_name));
}

#[test]
fn test_locals_run_length_encoding() {
    let mut module = Module::new();
    module.types.push(FuncType(ResultType(vec![]), ResultType(vec![])));
    module.funcs.push(Func {
        ty: TypeIdx(0),
        locals: vec![ValType::I32, ValType::I32, ValType::I64],
        body: Expr(vec![]),
    });
    let bytes = emit(&module).unwrap();
    // Two runs: two i32 locals, then one i64 local.
    let expected_entry: &[u8] = &[0x06, 0x02, 0x02, 0x7f, 0x01, 0x7e, 0x0b];
    assert!(bytes.windows(expected_entry.len()).any(|w| w == expected_entry));
}
