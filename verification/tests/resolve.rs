use javap::constant_pool::{Constant, ConstantPool};
use javap::debug_info::{find_local, LocalVariable};
use javap::decoder::{decode, InstructionRecord, Operands};
use javap::opcode::OpCode;
use javap::resolver::{
    is_strictly_ascending, render_constant, resolve, resolve_operands, resolve_stream, ResolveError, ResolvedInstruction,
    ResolvedOperand, SymbolKind,
};
use javap::stream::build;
use javap::text::{decimal_text, dotted_text, push_bytes, push_decimal, quoted_text};

fn utf8(s: &str) -> Constant {
    Constant::Utf8(s.as_bytes().to_vec())
}

// 1 "java/lang/Object"   2 Class #1       3 "<init>"        4 "()V"
// 5 NameAndType #3 #4    6 Methodref #2 #5
// 7 "out"  8 "Ljava/io/PrintStream;"  9 NameAndType #7 #8  10 "java/lang/System"
// 11 Class #10  12 Fieldref #11 #9  13 Integer  14 Long 15 (unusable)  16 Float  17 Double
// 18 (unusable) 19 "he said \"hi\"\n"  20 String #19  21 InterfaceMethodref #2 #5
// 22 MethodType #4  23 MethodHandle 6 #6  24 InvokeDynamic 3 #5  25 Dynamic 0 #9
// 26 Class #99 (dangling)  27 String #2 (wrong kind)
fn pool() -> ConstantPool {
    ConstantPool {
        entries: vec![
            Constant::Unusable,
            utf8("java/lang/Object"),
            Constant::ClassRef { name_index: 1 },
            utf8("<init>"),
            utf8("()V"),
            Constant::NameAndType { name_index: 3, descriptor_index: 4 },
            Constant::MethodRef { class_index: 2, name_and_type_index: 5 },
            utf8("out"),
            utf8("Ljava/io/PrintStream;"),
            Constant::NameAndType { name_index: 7, descriptor_index: 8 },
            utf8("java/lang/System"),
            Constant::ClassRef { name_index: 10 },
            Constant::FieldRef { class_index: 11, name_and_type_index: 9 },
            Constant::Integer(-2147483648),
            Constant::Long(9223372036854775807),
            Constant::Unusable,
            Constant::Float(0x3fc00000),
            Constant::Double(0x4000000000000000),
            Constant::Unusable,
            utf8("he said \"hi\"\n"),
            Constant::StringRef { string_index: 19 },
            Constant::InterfaceMethodRef { class_index: 2, name_and_type_index: 5 },
            Constant::MethodType { descriptor_index: 4 },
            Constant::MethodHandle { reference_kind: 6, reference_index: 6 },
            Constant::InvokeDynamic { bootstrap_index: 3, name_and_type_index: 5 },
            Constant::Dynamic { bootstrap_index: 0, name_and_type_index: 9 },
            Constant::ClassRef { name_index: 99 },
            Constant::StringRef { string_index: 2 },
        ],
    }
}

fn record(pc: usize, opcode: OpCode, raw_operands: Operands, byte_length: usize) -> InstructionRecord {
    InstructionRecord { program_counter: pc, opcode, wide: false, raw_operands, byte_length }
}

fn symbol(kind: SymbolKind, text: &str) -> ResolvedOperand {
    ResolvedOperand::Symbol { kind, text: text.as_bytes().to_vec() }
}

fn literal(text: &str) -> ResolvedOperand {
    ResolvedOperand::Literal(text.as_bytes().to_vec())
}

fn with_index(opcode: OpCode, index: u16) -> InstructionRecord {
    record(0, opcode, Operands::ConstantPoolIndex(index), 3)
}

#[test]
fn decimal_text_values() {
    assert_eq!(decimal_text(0), b"0".to_vec());
    assert_eq!(decimal_text(7), b"7".to_vec());
    assert_eq!(decimal_text(10), b"10".to_vec());
    assert_eq!(decimal_text(-1), b"-1".to_vec());
    assert_eq!(decimal_text(1234567890), b"1234567890".to_vec());
    assert_eq!(decimal_text(i64::MAX), b"9223372036854775807".to_vec());
    assert_eq!(decimal_text(i64::MIN), b"-9223372036854775808".to_vec());
    for n in [-1000i64, -99, -10, -9, 9, 99, 100, 101, 65535, -32768] {
        assert_eq!(decimal_text(n), n.to_string().into_bytes());
    }
}

#[test]
fn push_decimal_and_bytes_append() {
    let mut out = b"x=".to_vec();
    push_decimal(&mut out, -42);
    push_bytes(&mut out, b";y");
    push_bytes(&mut out, b"");
    assert_eq!(out, b"x=-42;y".to_vec());
}

#[test]
fn quoted_text_escapes() {
    assert_eq!(quoted_text(b""), b"\"\"".to_vec());
    assert_eq!(quoted_text(b"hello"), b"\"hello\"".to_vec());
    assert_eq!(quoted_text(b"a\"b"), b"\"a\\\"b\"".to_vec());
    assert_eq!(quoted_text(b"a\\b"), b"\"a\\\\b\"".to_vec());
    assert_eq!(quoted_text(b"l1\nl2\r\tx"), b"\"l1\\nl2\\r\\tx\"".to_vec());
    assert_eq!(quoted_text(&[0x00, 0x1f, 0x7f, 0x0b]), b"\"\\u0000\\u001f\\u007f\\u000b\"".to_vec());
    assert_eq!(quoted_text(&[0x20, 0x7e, 0x80, 0xff]), vec![b'"', 0x20, 0x7e, 0x80, 0xff, b'"']);
}

#[test]
fn dotted_text_replaces_slashes() {
    assert_eq!(dotted_text(b"java/lang/Object"), b"java.lang.Object".to_vec());
    assert_eq!(dotted_text(b"Plain"), b"Plain".to_vec());
    assert_eq!(dotted_text(b""), b"".to_vec());
    assert_eq!(dotted_text(b"[Ljava/lang/String;"), b"[Ljava.lang.String;".to_vec());
}

#[test]
fn pool_lookups() {
    let p = pool();
    assert_eq!(p.get(0), None);
    assert_eq!(p.get(28), None);
    assert_eq!(p.get(2), Some(&Constant::ClassRef { name_index: 1 }));
    assert_eq!(p.get_utf8(1), Some(&b"java/lang/Object".to_vec()));
    assert_eq!(p.get_utf8(2), None);
    assert_eq!(p.get_utf8(0), None);
    assert_eq!(p.get_utf8(1000), None);
    assert_eq!(p.class_name(2), Some(&b"java/lang/Object".to_vec()));
    assert_eq!(p.class_name(1), None);
    assert_eq!(p.class_name(26), None);
    assert_eq!(p.name_and_type(5), Some((&b"<init>".to_vec(), &b"()V".to_vec())));
    assert_eq!(p.name_and_type(6), None);
    assert_eq!(p.member(2, 5), Some(b"java/lang/Object.<init>:()V".to_vec()));
    assert_eq!(p.member(5, 2), None);
    assert_eq!(p.member_ref(6), Some(b"java/lang/Object.<init>:()V".to_vec()));
    assert_eq!(p.member_ref(12), Some(b"java/lang/System.out:Ljava/io/PrintStream;".to_vec()));
    assert_eq!(p.member_ref(21), Some(b"java/lang/Object.<init>:()V".to_vec()));
    assert_eq!(p.member_ref(2), None);
}

#[test]
fn method_reference_is_class_name_descriptor() {
    let r = resolve(&with_index(OpCode::invokespecial, 6), &pool()).unwrap();
    assert_eq!(r.operands, vec![symbol(SymbolKind::Method, "java/lang/Object.<init>:()V")]);
    let text = match &r.operands[0] {
        ResolvedOperand::Symbol { text, .. } => String::from_utf8(text.clone()).unwrap(),
        other => panic!("{:?}", other),
    };
    let class_at = text.find("java/lang/Object").unwrap();
    let name_at = text.find("<init>").unwrap();
    let descriptor_at = text.find("()V").unwrap();
    assert!(class_at < name_at && name_at < descriptor_at);
}

#[test]
fn field_and_class_references() {
    let p = pool();
    assert_eq!(
        resolve_operands(&with_index(OpCode::getstatic, 12), &p),
        Ok(vec![symbol(SymbolKind::Field, "java/lang/System.out:Ljava/io/PrintStream;")])
    );
    assert_eq!(
        resolve_operands(&with_index(OpCode::new, 2), &p),
        Ok(vec![symbol(SymbolKind::Class, "java.lang.Object")])
    );
    assert_eq!(
        resolve_operands(&with_index(OpCode::checkcast, 11), &p),
        Ok(vec![symbol(SymbolKind::Class, "java.lang.System")])
    );
    assert_eq!(
        resolve_operands(&with_index(OpCode::ldc_w, 2), &p),
        Ok(vec![symbol(SymbolKind::Class, "java.lang.Object")])
    );
    assert_eq!(
        resolve_operands(&with_index(OpCode::invokestatic, 21), &p),
        Ok(vec![symbol(SymbolKind::InterfaceMethod, "java/lang/Object.<init>:()V")])
    );
}

#[test]
fn literal_constants() {
    let p = pool();
    assert_eq!(
        resolve_operands(&with_index(OpCode::ldc, 13), &p),
        Ok(vec![literal("-2147483648")])
    );
    assert_eq!(
        resolve_operands(&with_index(OpCode::ldc2_w, 14), &p),
        Ok(vec![literal("9223372036854775807")])
    );
    assert_eq!(
        resolve_operands(&with_index(OpCode::ldc, 16), &p),
        Ok(vec![ResolvedOperand::FloatLiteral(0x3fc00000)])
    );
    assert_eq!(f32::from_bits(0x3fc00000), 1.5f32);
    assert_eq!(
        resolve_operands(&with_index(OpCode::ldc2_w, 17), &p),
        Ok(vec![ResolvedOperand::DoubleLiteral(0x4000000000000000)])
    );
    assert_eq!(f64::from_bits(0x4000000000000000), 2.0f64);
    assert_eq!(
        resolve_operands(&with_index(OpCode::ldc, 20), &p),
        Ok(vec![literal("\"he said \\\"hi\\\"\\n\"")])
    );
}

#[test]
fn dynamic_constants_and_handles() {
    let p = pool();
    assert_eq!(
        resolve_operands(&with_index(OpCode::ldc, 22), &p),
        Ok(vec![symbol(SymbolKind::MethodType, "()V")])
    );
    assert_eq!(
        resolve_operands(&with_index(OpCode::ldc, 23), &p),
        Ok(vec![symbol(SymbolKind::MethodHandle, "6:java/lang/Object.<init>:()V")])
    );
    assert_eq!(
        resolve_operands(&with_index(OpCode::ldc, 25), &p),
        Ok(vec![symbol(SymbolKind::Dynamic, "#0:out:Ljava/io/PrintStream;")])
    );
    let call =
        record(0, OpCode::invokedynamic, Operands::DynamicCall { index: 24, reserved_pair: 0 }, 5);
    assert_eq!(
        resolve_operands(&call, &p),
        Ok(vec![symbol(SymbolKind::InvokeDynamic, "#3:<init>:()V")])
    );
}

#[test]
fn invalid_constant_pool_references() {
    let p = pool();
    let bad = |index: u16| Err(ResolveError::InvalidConstantPoolReference { index });
    // outside the pool
    assert_eq!(resolve_operands(&with_index(OpCode::ldc, 0), &p), bad(0));
    assert_eq!(resolve_operands(&with_index(OpCode::ldc_w, 28), &p), bad(28));
    assert_eq!(resolve_operands(&with_index(OpCode::ldc_w, 65535), &p), bad(65535));
    // an entry of the wrong kind for the instruction
    assert_eq!(resolve_operands(&with_index(OpCode::getstatic, 6), &p), bad(6));
    assert_eq!(resolve_operands(&with_index(OpCode::invokevirtual, 12), &p), bad(12));
    assert_eq!(resolve_operands(&with_index(OpCode::invokevirtual, 21), &p), bad(21));
    assert_eq!(resolve_operands(&with_index(OpCode::new, 6), &p), bad(6));
    assert_eq!(resolve_operands(&with_index(OpCode::ldc, 14), &p), bad(14));
    assert_eq!(resolve_operands(&with_index(OpCode::ldc2_w, 13), &p), bad(13));
    assert_eq!(resolve_operands(&with_index(OpCode::ldc, 1), &p), bad(1));
    assert_eq!(resolve_operands(&with_index(OpCode::ldc, 5), &p), bad(5));
    assert_eq!(resolve_operands(&with_index(OpCode::ldc, 15), &p), bad(15));
    assert_eq!(resolve_operands(&with_index(OpCode::ldc, 24), &p), bad(24));
    // an instruction that takes no constant
    assert_eq!(resolve_operands(&with_index(OpCode::nop, 13), &p), bad(13));
    // an entry that leads nowhere
    assert_eq!(resolve_operands(&with_index(OpCode::new, 26), &p), bad(26));
    assert_eq!(resolve_operands(&with_index(OpCode::ldc, 27), &p), bad(27));
    assert_eq!(
        resolve(&with_index(OpCode::new, 26), &p),
        Err(ResolveError::InvalidConstantPoolReference { index: 26 })
    );
}

#[test]
fn render_constant_by_kind() {
    let p = pool();
    assert_eq!(render_constant(&p, 13), Some(literal("-2147483648")));
    assert_eq!(render_constant(&p, 6), Some(symbol(SymbolKind::Method, "java/lang/Object.<init>:()V")));
    assert_eq!(render_constant(&p, 1), None);
    assert_eq!(render_constant(&p, 0), None);
    assert_eq!(render_constant(&p, 26), None);
    assert_eq!(render_constant(&p, 500), None);
}

#[test]
fn branch_targets_are_absolute() {
    let p = pool();
    assert_eq!(
        resolve_operands(&record(3, OpCode::ifeq, Operands::BranchOffset(7), 3), &p),
        Ok(vec![ResolvedOperand::BranchTarget(10)])
    );
    assert_eq!(
        resolve_operands(&record(10, OpCode::goto, Operands::BranchOffset(-10), 3), &p),
        Ok(vec![ResolvedOperand::BranchTarget(0)])
    );
    // targets outside the method are reported as they are
    assert_eq!(
        resolve_operands(&record(2, OpCode::goto, Operands::BranchOffset(-5), 3), &p),
        Ok(vec![ResolvedOperand::BranchTarget(-3)])
    );
    assert_eq!(
        resolve_operands(&record(usize::MAX, OpCode::goto_w, Operands::BranchOffset(i32::MAX), 5), &p),
        Ok(vec![ResolvedOperand::BranchTarget(usize::MAX as i128 + i32::MAX as i128)])
    );
}

#[test]
fn sipush_then_ifeq_resolved() {
    let code = [0x11u8, 0x00, 0x64, 0x99, 0x00, 0x07];
    let stream = build(&code).unwrap();
    let resolved = resolve_stream(&stream, &pool());
    assert_eq!(resolved.len(), 2);
    assert_eq!(
        resolved[0],
        Ok(ResolvedInstruction { record: stream.records[0].clone(), operands: vec![literal("100")] })
    );
    let ifeq_pc = stream.records[1].program_counter;
    assert_eq!(ifeq_pc, 3);
    assert_eq!(
        resolved[1],
        Ok(ResolvedInstruction {
            record: stream.records[1].clone(),
            operands: vec![ResolvedOperand::BranchTarget(ifeq_pc as i128 + 7)],
        })
    );
    let total: usize = stream.records.iter().map(|r| r.byte_length).sum();
    assert_eq!(total, code.len());
}

#[test]
fn slots_immediates_and_counts() {
    let p = pool();
    assert_eq!(
        resolve_operands(&record(0, OpCode::aload, Operands::LocalSlot(4), 2), &p),
        Ok(vec![ResolvedOperand::LocalSlot(4)])
    );
    assert_eq!(resolve_operands(&record(0, OpCode::nop, Operands::Absent, 1), &p), Ok(vec![]));
    assert_eq!(
        resolve_operands(&record(0, OpCode::bipush, Operands::Immediate(-128), 2), &p),
        Ok(vec![literal("-128")])
    );
    assert_eq!(
        resolve_operands(&record(0, OpCode::iinc, Operands::Increment { slot: 300, delta: -7 }, 6), &p),
        Ok(vec![ResolvedOperand::LocalSlot(300), literal("-7")])
    );
    assert_eq!(
        resolve_operands(
            &record(
                0,
                OpCode::invokeinterface,
                Operands::InterfaceCall { index: 21, count: 2, reserved: 0 },
                5
            ),
            &p
        ),
        Ok(vec![symbol(SymbolKind::InterfaceMethod, "java/lang/Object.<init>:()V"), literal("2")])
    );
    assert_eq!(
        resolve_operands(
            &record(
                0,
                OpCode::invokeinterface,
                Operands::InterfaceCall { index: 6, count: 2, reserved: 0 },
                5
            ),
            &p
        ),
        Err(ResolveError::InvalidConstantPoolReference { index: 6 })
    );
    assert_eq!(
        resolve_operands(
            &record(
                0,
                OpCode::multianewarray,
                Operands::ArrayDimensions { index: 2, dimensions: 3 },
                4
            ),
            &p
        ),
        Ok(vec![symbol(SymbolKind::Class, "java.lang.Object"), literal("3")])
    );
}

#[test]
fn table_switch_three_cases_and_default() {
    let mut code = vec![0xaau8, 0, 0, 0];
    for v in [40i32, 0, 2, 10, 20, 30] {
        code.extend_from_slice(&v.to_be_bytes());
    }
    let mut body = vec![0x00u8; 4];
    body.extend(code);
    let (rec, next) = decode(&body, 4).unwrap();
    assert_eq!(next, body.len());
    let operands = resolve_operands(&rec, &pool()).unwrap();
    assert_eq!(
        operands,
        vec![ResolvedOperand::Switch {
            default_target: 44,
            cases: vec![(0, 14), (1, 24), (2, 34)],
        }]
    );
}

#[test]
fn table_switch_negative_low() {
    let rec = record(
        100,
        OpCode::tableswitch,
        Operands::TableSwitch { default: -100, low: -1, high: 1, offsets: vec![5, -5, 0] },
        28,
    );
    assert_eq!(
        resolve_operands(&rec, &pool()),
        Ok(vec![ResolvedOperand::Switch {
            default_target: 0,
            cases: vec![(-1, 105), (0, 95), (1, 100)],
        }])
    );
    let rec = record(
        0,
        OpCode::tableswitch,
        Operands::TableSwitch { default: 1, low: i32::MAX, high: i32::MAX, offsets: vec![9] },
        20,
    );
    assert_eq!(
        resolve_operands(&rec, &pool()),
        Ok(vec![ResolvedOperand::Switch { default_target: 1, cases: vec![(i32::MAX, 9)] }])
    );
}

#[test]
fn lookup_switch_is_shown_in_ascending_order() {
    let rec = record(
        8,
        OpCode::lookupswitch,
        Operands::LookupSwitch {
            default: 50,
            pairs: vec![(7, 70), (-3, 30), (5, 50), (i32::MIN, 1), (i32::MAX, 2)],
        },
        52,
    );
    assert_eq!(
        resolve_operands(&rec, &pool()),
        Ok(vec![ResolvedOperand::Switch {
            default_target: 58,
            cases: vec![(i32::MIN, 9), (-3, 38), (5, 58), (7, 78), (i32::MAX, 10)],
        }])
    );
}

#[test]
fn lookup_switch_equal_keys_keep_their_order() {
    let rec = record(
        0,
        OpCode::lookupswitch,
        Operands::LookupSwitch { default: 0, pairs: vec![(2, 1), (1, 2), (2, 3), (1, 4), (2, 5)] },
        48,
    );
    assert_eq!(
        resolve_operands(&rec, &pool()),
        Ok(vec![ResolvedOperand::Switch {
            default_target: 0,
            cases: vec![(1, 2), (1, 4), (2, 1), (2, 3), (2, 5)],
        }])
    );
    let rec =
        record(0, OpCode::lookupswitch, Operands::LookupSwitch { default: 3, pairs: vec![] }, 12);
    assert_eq!(
        resolve_operands(&rec, &pool()),
        Ok(vec![ResolvedOperand::Switch { default_target: 3, cases: vec![] }])
    );
}

#[test]
fn resolve_keeps_the_record() {
    let rec = InstructionRecord {
        program_counter: 9,
        opcode: OpCode::iload,
        wide: true,
        raw_operands: Operands::LocalSlot(256),
        byte_length: 4,
    };
    assert_eq!(
        resolve(&rec, &pool()),
        Ok(ResolvedInstruction {
            record: rec.clone(),
            operands: vec![ResolvedOperand::LocalSlot(256)],
        })
    );
}

#[test]
fn resolve_stream_fails_one_instruction_only() {
    // aload_0; invokespecial #6; getstatic #6 (wrong kind); return
    let code = [0x2au8, 0xb7, 0x00, 0x06, 0xb2, 0x00, 0x06, 0xb1];
    let stream = build(&code).unwrap();
    let resolved = resolve_stream(&stream, &pool());
    assert_eq!(resolved.len(), 4);
    assert!(resolved[0].is_ok());
    assert_eq!(
        resolved[1].as_ref().unwrap().operands,
        vec![symbol(SymbolKind::Method, "java/lang/Object.<init>:()V")]
    );
    assert_eq!(resolved[2], Err(ResolveError::InvalidConstantPoolReference { index: 6 }));
    assert_eq!(resolved[3].as_ref().unwrap().operands, vec![]);
}

#[test]
fn decode_and_resolve_twice_are_identical() {
    let code = [0x2au8, 0xb7, 0x00, 0x06, 0x12, 0x14, 0xa7, 0xff, 0xfa, 0xb2, 0x00, 0x01];
    let p = pool();
    let first = build(&code).unwrap();
    let second = build(&code).unwrap();
    assert_eq!(first, second);
    assert_eq!(resolve_stream(&first, &p), resolve_stream(&second, &p));
    assert_eq!(resolve_stream(&first, &p), resolve_stream(&first, &p));
}

fn local(start_pc: u16, length: u16, name: &str, index: u16) -> LocalVariable {
    LocalVariable {
        start_pc,
        length,
        name: name.as_bytes().to_vec(),
        descriptor: b"I".to_vec(),
        index,
    }
}

#[test]
fn find_local_picks_the_first_entry_in_range() {
    let table =
        vec![local(0, 10, "this", 0), local(2, 4, "i", 1), local(6, 4, "j", 1), local(0, 10, "k", 1)];
    assert_eq!(find_local(&table, 0, 0), Some(0));
    assert_eq!(find_local(&table, 0, 9), Some(0));
    assert_eq!(find_local(&table, 0, 10), None);
    assert_eq!(find_local(&table, 1, 2), Some(1));
    assert_eq!(find_local(&table, 1, 5), Some(1));
    assert_eq!(find_local(&table, 1, 6), Some(2));
    assert_eq!(find_local(&table, 1, 1), Some(3));
    assert_eq!(find_local(&table, 1, 10), None);
    assert_eq!(find_local(&table, 2, 3), None);
    assert_eq!(find_local(&[], 0, 0), None);
    let edge = vec![local(65535, 65535, "far", 7)];
    assert_eq!(find_local(&edge, 7, 65535), Some(0));
    assert_eq!(find_local(&edge, 7, 131069), Some(0));
    assert_eq!(find_local(&edge, 7, 131070), None);
    assert_eq!(find_local(&edge, 7, usize::MAX), None);
}

#[test]
fn lookup_pairs_order_check() {
    assert!(is_strictly_ascending(&[]));
    assert!(is_strictly_ascending(&[(5, 0)]));
    assert!(is_strictly_ascending(&[(-3, 9), (0, 8), (7, 7)]));
    assert!(is_strictly_ascending(&[(i32::MIN, 0), (i32::MAX, 0)]));
    assert!(!is_strictly_ascending(&[(1, 0), (1, 1)]));
    assert!(!is_strictly_ascending(&[(1, 0), (3, 0), (2, 0)]));
    assert!(!is_strictly_ascending(&[(2, 0), (1, 0), (3, 0)]));
}
