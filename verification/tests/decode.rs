use javap::decoder::{decode, decode_as, DecodeError, InstructionRecord, Operands};
use javap::instruction::{
    Aconst_Null, Getstatic, If_Icmpeq, Ifeq, Iinc, Instruction, Ldc_W, Sipush, Wide,
};
use javap::opcode::{MultiLayout, OpCode, OperandFormat};
use javap::stream::{build, StreamError};

fn record(pc: usize, opcode: OpCode, raw_operands: Operands, byte_length: usize) -> InstructionRecord {
    InstructionRecord { program_counter: pc, opcode, wide: false, raw_operands, byte_length }
}

#[test]
fn opcode_table_known_bytes() {
    assert_eq!(OpCode::from_byte(0x00), OpCode::nop);
    assert_eq!(OpCode::from_byte(0x11), OpCode::sipush);
    assert_eq!(OpCode::from_byte(0x99), OpCode::ifeq);
    assert_eq!(OpCode::from_byte(0xb1), OpCode::return_void);
    assert_eq!(OpCode::from_byte(0xc4), OpCode::wide);
    assert_eq!(OpCode::from_byte(0xc9), OpCode::jsr_w);
}

#[test]
fn opcode_table_undefined_bytes_are_unknown() {
    for b in 0xcau8..=0xff {
        assert_eq!(OpCode::from_byte(b), OpCode::Unknown);
    }
    for b in 0x00u8..=0xc9 {
        assert_ne!(OpCode::from_byte(b), OpCode::Unknown);
    }
}

#[test]
fn opcode_formats() {
    assert_eq!(OpCode::nop.format(), OperandFormat::NoOperand);
    assert_eq!(OpCode::Unknown.format(), OperandFormat::NoOperand);
    assert_eq!(OpCode::bipush.format(), OperandFormat::ImmediateValue(1));
    assert_eq!(OpCode::sipush.format(), OperandFormat::ImmediateValue(2));
    assert_eq!(OpCode::ldc.format(), OperandFormat::ConstantPoolIndex(1));
    assert_eq!(OpCode::ldc2_w.format(), OperandFormat::ConstantPoolIndex(2));
    assert_eq!(OpCode::aload.format(), OperandFormat::LocalSlot(1));
    assert_eq!(OpCode::goto.format(), OperandFormat::BranchOffset(2));
    assert_eq!(OpCode::goto_w.format(), OperandFormat::BranchOffset(4));
    assert_eq!(OpCode::tableswitch.format(), OperandFormat::TableSwitch);
    assert_eq!(OpCode::lookupswitch.format(), OperandFormat::LookupSwitch);
    assert_eq!(OpCode::wide.format(), OperandFormat::WidePrefix);
    assert_eq!(OpCode::iinc.format(), OperandFormat::MultiOperand(MultiLayout::Increment));
    assert_eq!(
        OpCode::invokeinterface.format(),
        OperandFormat::MultiOperand(MultiLayout::InterfaceCall)
    );
    assert_eq!(OpCode::invokedynamic.format(), OperandFormat::MultiOperand(MultiLayout::DynamicCall));
    assert_eq!(
        OpCode::multianewarray.format(),
        OperandFormat::MultiOperand(MultiLayout::ArrayDimensions)
    );
}

#[test]
fn opcode_widths_and_names() {
    assert_eq!(OpCode::nop.format().width(), Some(0));
    assert_eq!(OpCode::sipush.format().width(), Some(2));
    assert_eq!(OpCode::goto_w.format().width(), Some(4));
    assert_eq!(OpCode::invokeinterface.format().width(), Some(4));
    assert_eq!(OpCode::multianewarray.format().width(), Some(3));
    assert_eq!(OpCode::tableswitch.format().width(), None);
    assert_eq!(OpCode::wide.format().width(), None);
    assert_eq!(OpCode::return_void.mnemonic(), "return");
    assert_eq!(OpCode::if_icmpeq.mnemonic(), "if_icmpeq");
    assert_eq!(OpCode::Unknown.mnemonic(), "unknown");
    assert!(OpCode::iload.is_widenable());
    assert!(OpCode::ret.is_widenable());
    assert!(OpCode::iinc.is_widenable());
    assert!(!OpCode::bipush.is_widenable());
    assert!(!OpCode::nop.is_widenable());
}

#[test]
fn decode_no_operand() {
    let code = [0x00u8, 0xb1];
    assert_eq!(decode(&code, 0), Ok((record(0, OpCode::nop, Operands::Absent, 1), 1)));
    assert_eq!(decode(&code, 1), Ok((record(1, OpCode::return_void, Operands::Absent, 1), 2)));
}

#[test]
fn decode_past_the_end_is_truncated() {
    let code = [0x00u8];
    assert_eq!(decode(&code, 1), Err(DecodeError::TruncatedOperand));
    assert_eq!(decode(&code, usize::MAX), Err(DecodeError::TruncatedOperand));
    assert_eq!(decode(&[], 0), Err(DecodeError::TruncatedOperand));
}

#[test]
fn decode_unknown_opcode_is_one_byte() {
    let code = [0xfeu8, 0x00];
    assert_eq!(decode(&code, 0), Ok((record(0, OpCode::Unknown, Operands::Absent, 1), 1)));
}

#[test]
fn decode_immediates() {
    assert_eq!(
        decode(&[0x10, 0xff], 0),
        Ok((record(0, OpCode::bipush, Operands::Immediate(-1), 2), 2))
    );
    assert_eq!(
        decode(&[0x10, 0x7f], 0),
        Ok((record(0, OpCode::bipush, Operands::Immediate(127), 2), 2))
    );
    assert_eq!(
        decode(&[0x11, 0x00, 0x64], 0),
        Ok((record(0, OpCode::sipush, Operands::Immediate(100), 3), 3))
    );
    assert_eq!(
        decode(&[0x11, 0x80, 0x00], 0),
        Ok((record(0, OpCode::sipush, Operands::Immediate(-32768), 3), 3))
    );
    assert_eq!(
        decode(&[0x11, 0xff, 0xfe], 0),
        Ok((record(0, OpCode::sipush, Operands::Immediate(-2), 3), 3))
    );
}

#[test]
fn decode_constant_pool_indices() {
    assert_eq!(
        decode(&[0x12, 0xff], 0),
        Ok((record(0, OpCode::ldc, Operands::ConstantPoolIndex(255), 2), 2))
    );
    assert_eq!(
        decode(&[0x00, 0xb2, 0x01, 0x02], 1),
        Ok((record(1, OpCode::getstatic, Operands::ConstantPoolIndex(0x0102), 3), 4))
    );
    assert_eq!(
        decode(&[0x13, 0xff, 0xff], 0),
        Ok((record(0, OpCode::ldc_w, Operands::ConstantPoolIndex(0xffff), 3), 3))
    );
}

#[test]
fn decode_branches() {
    assert_eq!(
        decode(&[0x99, 0x00, 0x07], 0),
        Ok((record(0, OpCode::ifeq, Operands::BranchOffset(7), 3), 3))
    );
    assert_eq!(
        decode(&[0xa7, 0xff, 0xfd], 0),
        Ok((record(0, OpCode::goto, Operands::BranchOffset(-3), 3), 3))
    );
    assert_eq!(
        decode(&[0xc8, 0x00, 0x01, 0x00, 0x00], 0),
        Ok((record(0, OpCode::goto_w, Operands::BranchOffset(65536), 5), 5))
    );
    assert_eq!(
        decode(&[0xc8, 0x80, 0x00, 0x00, 0x00], 0),
        Ok((record(0, OpCode::goto_w, Operands::BranchOffset(i32::MIN), 5), 5))
    );
    assert_eq!(
        decode(&[0xc9, 0xff, 0xff, 0xff, 0xff], 0),
        Ok((record(0, OpCode::jsr_w, Operands::BranchOffset(-1), 5), 5))
    );
}

#[test]
fn decode_multi_operand_instructions() {
    assert_eq!(
        decode(&[0x84, 0x05, 0xff], 0),
        Ok((record(0, OpCode::iinc, Operands::Increment { slot: 5, delta: -1 }, 3), 3))
    );
    assert_eq!(
        decode(&[0xb9, 0x00, 0x06, 0x02, 0x00], 0),
        Ok((
            record(
                0,
                OpCode::invokeinterface,
                Operands::InterfaceCall { index: 6, count: 2, reserved: 0 },
                5
            ),
            5
        ))
    );
    assert_eq!(
        decode(&[0xba, 0x00, 0x07, 0x00, 0x00], 0),
        Ok((
            record(0, OpCode::invokedynamic, Operands::DynamicCall { index: 7, reserved_pair: 0 }, 5),
            5
        ))
    );
    assert_eq!(
        decode(&[0xc5, 0x01, 0x00, 0x03], 0),
        Ok((
            record(
                0,
                OpCode::multianewarray,
                Operands::ArrayDimensions { index: 256, dimensions: 3 },
                4
            ),
            4
        ))
    );
}

#[test]
fn decode_fixed_width_exact_and_one_short() {
    for b in 0x00u8..=0xff {
        let op = OpCode::from_byte(b);
        if let Some(width) = op.format().width() {
            let mut code = vec![b];
            code.extend(std::iter::repeat(0xa5u8).take(width));
            let (rec, next) = decode(&code, 0).unwrap();
            assert_eq!(next, 1 + width);
            assert_eq!(rec.byte_length, 1 + width);
            assert_eq!(rec.opcode, op);
            assert_eq!(rec.program_counter, 0);
            if width > 0 {
                code.pop();
                assert_eq!(decode(&code, 0), Err(DecodeError::TruncatedOperand));
            }
        }
    }
}

#[test]
fn decode_wide_local_slot() {
    let code = [0xc4u8, 0x15, 0x01, 0x00, 0x00];
    let expected = InstructionRecord {
        program_counter: 0,
        opcode: OpCode::iload,
        wide: true,
        raw_operands: Operands::LocalSlot(0x0100),
        byte_length: 4,
    };
    assert_eq!(decode(&code, 0), Ok((expected, 4)));
    // without the prefix the same instruction reads one byte
    assert_eq!(
        decode(&code, 1),
        Ok((record(1, OpCode::iload, Operands::LocalSlot(1), 2), 3))
    );
}

#[test]
fn decode_wide_increment() {
    let code = [0xc4u8, 0x84, 0x01, 0x2c, 0x03, 0xe8];
    let expected = InstructionRecord {
        program_counter: 0,
        opcode: OpCode::iinc,
        wide: true,
        raw_operands: Operands::Increment { slot: 0x012c, delta: 1000 },
        byte_length: 6,
    };
    assert_eq!(decode(&code, 0), Ok((expected, 6)));
}

#[test]
fn decode_wide_every_widenable_target() {
    for b in [0x15u8, 0x16, 0x17, 0x18, 0x19, 0x36, 0x37, 0x38, 0x39, 0x3a, 0xa9] {
        let code = [0xc4u8, b, 0xab, 0xcd];
        let (rec, next) = decode(&code, 0).unwrap();
        assert_eq!(next, 4);
        assert!(rec.wide);
        assert_eq!(rec.opcode, OpCode::from_byte(b));
        assert_eq!(rec.raw_operands, Operands::LocalSlot(0xabcd));
    }
}

#[test]
fn decode_wide_failures() {
    assert_eq!(decode(&[0xc4, 0x00], 0), Err(DecodeError::InvalidWidePrefixTarget));
    assert_eq!(decode(&[0xc4, 0x10, 0x00, 0x00], 0), Err(DecodeError::InvalidWidePrefixTarget));
    assert_eq!(decode(&[0xc4, 0xc4, 0x15, 0x00, 0x00], 0), Err(DecodeError::InvalidWidePrefixTarget));
    assert_eq!(decode(&[0xc4], 0), Err(DecodeError::TruncatedOperand));
    assert_eq!(decode(&[0xc4, 0x15, 0x00], 0), Err(DecodeError::TruncatedOperand));
    assert_eq!(decode(&[0xc4, 0x84, 0x00, 0x01, 0x00], 0), Err(DecodeError::TruncatedOperand));
}

fn table_switch_at(pc: usize, low: i32, high: i32, offsets: &[i32]) -> Vec<u8> {
    let mut code = vec![0u8; pc];
    code.push(0xaa);
    while code.len() % 4 != 0 {
        code.push(0);
    }
    code.extend_from_slice(&40i32.to_be_bytes());
    code.extend_from_slice(&low.to_be_bytes());
    code.extend_from_slice(&high.to_be_bytes());
    for o in offsets {
        code.extend_from_slice(&o.to_be_bytes());
    }
    code
}

#[test]
fn decode_table_switch_with_each_padding() {
    for pc in 0usize..8 {
        let code = table_switch_at(pc, 0, 2, &[10, 20, 30]);
        let pad = (4 - (pc + 1) % 4) % 4;
        let expected = record(
            pc,
            OpCode::tableswitch,
            Operands::TableSwitch { default: 40, low: 0, high: 2, offsets: vec![10, 20, 30] },
            1 + pad + 12 + 12,
        );
        assert_eq!(decode(&code, pc), Ok((expected, code.len())));
    }
}

#[test]
fn decode_table_switch_negative_bounds() {
    let code = table_switch_at(0, -1, 0, &[-5, 6]);
    let expected = record(
        0,
        OpCode::tableswitch,
        Operands::TableSwitch { default: 40, low: -1, high: 0, offsets: vec![-5, 6] },
        24,
    );
    assert_eq!(decode(&code, 0), Ok((expected, 24)));
}

#[test]
fn decode_table_switch_malformed() {
    // high < low
    let code = table_switch_at(0, 3, 2, &[]);
    assert_eq!(decode(&code, 0), Err(DecodeError::MalformedSwitchTable));
    // the header does not fit
    let code = table_switch_at(0, 0, 0, &[1]);
    assert_eq!(decode(&code[..15], 0), Err(DecodeError::MalformedSwitchTable));
    assert_eq!(decode(&code[..1], 0), Err(DecodeError::MalformedSwitchTable));
    // the entries do not fit
    assert_eq!(decode(&code[..19], 0), Err(DecodeError::MalformedSwitchTable));
    assert!(decode(&code, 0).is_ok());
    // the widest possible range
    let code = table_switch_at(0, i32::MIN, i32::MAX, &[1, 2, 3]);
    assert_eq!(decode(&code, 0), Err(DecodeError::MalformedSwitchTable));
}

fn lookup_switch_at(pc: usize, count: i32, pairs: &[(i32, i32)]) -> Vec<u8> {
    let mut code = vec![0u8; pc];
    code.push(0xab);
    while code.len() % 4 != 0 {
        code.push(0);
    }
    code.extend_from_slice(&(-9i32).to_be_bytes());
    code.extend_from_slice(&count.to_be_bytes());
    for (k, o) in pairs {
        code.extend_from_slice(&k.to_be_bytes());
        code.extend_from_slice(&o.to_be_bytes());
    }
    code
}

#[test]
fn decode_lookup_switch_keeps_encoded_order() {
    for pc in 0usize..5 {
        let pairs = [(7, 70), (-3, 30), (5, 50)];
        let code = lookup_switch_at(pc, 3, &pairs);
        let pad = (4 - (pc + 1) % 4) % 4;
        let expected = record(
            pc,
            OpCode::lookupswitch,
            Operands::LookupSwitch { default: -9, pairs: pairs.to_vec() },
            1 + pad + 8 + 24,
        );
        assert_eq!(decode(&code, pc), Ok((expected, code.len())));
    }
}

#[test]
fn decode_lookup_switch_without_pairs() {
    let code = lookup_switch_at(3, 0, &[]);
    let expected =
        record(3, OpCode::lookupswitch, Operands::LookupSwitch { default: -9, pairs: vec![] }, 9);
    assert_eq!(decode(&code, 3), Ok((expected, 12)));
}

#[test]
fn decode_lookup_switch_malformed() {
    let code = lookup_switch_at(0, -1, &[]);
    assert_eq!(decode(&code, 0), Err(DecodeError::MalformedSwitchTable));
    let code = lookup_switch_at(0, 2, &[(1, 1)]);
    assert_eq!(decode(&code, 0), Err(DecodeError::MalformedSwitchTable));
    let code = lookup_switch_at(0, 1, &[(1, 1)]);
    assert_eq!(decode(&code[..11], 0), Err(DecodeError::MalformedSwitchTable));
    assert_eq!(decode(&code[..19], 0), Err(DecodeError::MalformedSwitchTable));
    assert!(decode(&code, 0).is_ok());
    let code = lookup_switch_at(0, i32::MAX, &[(1, 1)]);
    assert_eq!(decode(&code, 0), Err(DecodeError::MalformedSwitchTable));
}

#[test]
fn decode_as_ignores_the_byte_at_pc() {
    let code = [0x00u8, 0x00, 0x64];
    assert_eq!(
        decode_as(OpCode::sipush, &code, 0),
        Ok((record(0, OpCode::sipush, Operands::Immediate(100), 3), 3))
    );
    assert_eq!(decode_as(OpCode::sipush, &code, 1), Err(DecodeError::TruncatedOperand));
    assert_eq!(decode_as(OpCode::nop, &code, 3), Err(DecodeError::TruncatedOperand));
}

#[test]
fn instruction_decoders_run() {
    let code = [0x01u8, 0x11, 0x00, 0x64, 0x99, 0x00, 0x07, 0xb2, 0x00, 0x09];
    assert_eq!(
        Aconst_Null.run(&code, 0),
        Ok((record(0, OpCode::aconst_null, Operands::Absent, 1), 1))
    );
    assert_eq!(
        Sipush.run(&code, 1),
        Ok((record(1, OpCode::sipush, Operands::Immediate(100), 3), 4))
    );
    assert_eq!(Ifeq.run(&code, 4), Ok((record(4, OpCode::ifeq, Operands::BranchOffset(7), 3), 7)));
    assert_eq!(
        Getstatic.run(&code, 7),
        Ok((record(7, OpCode::getstatic, Operands::ConstantPoolIndex(9), 3), 10))
    );
    assert_eq!(Getstatic.run(&code, 8), Err(DecodeError::TruncatedOperand));
    assert_eq!(
        If_Icmpeq.run(&[0x9f, 0xff, 0xff], 0),
        Ok((record(0, OpCode::if_icmpeq, Operands::BranchOffset(-1), 3), 3))
    );
    assert_eq!(
        Ldc_W.run(&[0x13, 0x12, 0x34], 0),
        Ok((record(0, OpCode::ldc_w, Operands::ConstantPoolIndex(0x1234), 3), 3))
    );
    assert_eq!(
        Iinc.run(&[0x84, 0x01, 0x80], 0),
        Ok((record(0, OpCode::iinc, Operands::Increment { slot: 1, delta: -128 }, 3), 3))
    );
}

#[test]
fn wide_decoder_does_not_abort() {
    let expected = InstructionRecord {
        program_counter: 0,
        opcode: OpCode::astore,
        wide: true,
        raw_operands: Operands::LocalSlot(0x0203),
        byte_length: 4,
    };
    assert_eq!(Wide.run(&[0xc4, 0x3a, 0x02, 0x03], 0), Ok((expected, 4)));
    assert_eq!(Wide.run(&[0xc4, 0x57], 0), Err(DecodeError::InvalidWidePrefixTarget));
    assert_eq!(Wide.run(&[0xc4], 0), Err(DecodeError::TruncatedOperand));
}

#[test]
fn build_empty_buffer_gives_empty_stream() {
    let stream = build(&[]).unwrap();
    assert!(stream.records.is_empty());
}

fn check_tiling(code: &[u8]) {
    let stream = build(code).unwrap();
    let mut expected_pc = 0usize;
    let mut sum = 0usize;
    for r in &stream.records {
        assert_eq!(r.program_counter, expected_pc);
        assert!(r.byte_length >= 1);
        expected_pc = r.program_counter + r.byte_length;
        sum += r.byte_length;
    }
    assert_eq!(expected_pc, code.len());
    assert_eq!(sum, code.len());
    assert_eq!(stream.records.is_empty(), code.is_empty());
}

#[test]
fn build_lengths_sum_to_code_length() {
    check_tiling(&[]);
    check_tiling(&[0x00]);
    check_tiling(&[0x2a, 0xb7, 0x00, 0x01, 0xb1]);
    check_tiling(&[0x11, 0x00, 0x64, 0x99, 0x00, 0x07, 0x03, 0xac, 0x04, 0xac]);
    check_tiling(&[0xc4, 0x84, 0x01, 0x2c, 0x03, 0xe8, 0xc4, 0x15, 0x00, 0x01, 0xfe]);
    let mut code = vec![0x1au8];
    code.extend(table_switch_at(0, 1, 2, &[28, 30]));
    code.extend_from_slice(&[0x04, 0xac, 0x05, 0xac, 0x03, 0xac]);
    // the switch above was laid out for offset zero: decode it from there
    check_tiling(&code[1..]);
    let mut code = lookup_switch_at(2, 2, &[(1, 1), (2, 2)]);
    code.push(0xb1);
    check_tiling(&code);
}

#[test]
fn build_program_counters_strictly_increase() {
    let code = [0x10u8, 0x05, 0x3c, 0x1b, 0x84, 0x01, 0x01, 0xa7, 0xff, 0xfc];
    let stream = build(&code).unwrap();
    let pcs: Vec<usize> = stream.records.iter().map(|r| r.program_counter).collect();
    assert_eq!(pcs, vec![0, 2, 3, 4, 7]);
    for w in stream.records.windows(2) {
        assert!(w[0].program_counter < w[1].program_counter);
        assert_eq!(w[0].program_counter + w[0].byte_length, w[1].program_counter);
    }
}

#[test]
fn build_reports_the_failing_program_counter() {
    assert_eq!(
        build(&[0x00, 0x00, 0x11, 0x00]),
        Err(StreamError { program_counter: 2, kind: DecodeError::TruncatedOperand })
    );
    assert_eq!(
        build(&[0x00, 0xc4, 0x00]),
        Err(StreamError { program_counter: 1, kind: DecodeError::InvalidWidePrefixTarget })
    );
    assert_eq!(
        build(&[0x00, 0x00, 0x00, 0xaa, 0x00]),
        Err(StreamError { program_counter: 3, kind: DecodeError::MalformedSwitchTable })
    );
}

#[test]
fn sipush_then_ifeq_end_to_end() {
    let code = [0x11u8, 0x00, 0x64, 0x99, 0x00, 0x07];
    let stream = build(&code).unwrap();
    assert_eq!(stream.records.len(), 2);
    assert_eq!(stream.records[0], record(0, OpCode::sipush, Operands::Immediate(100), 3));
    assert_eq!(stream.records[1], record(3, OpCode::ifeq, Operands::BranchOffset(7), 3));
    let total: usize = stream.records.iter().map(|r| r.byte_length).sum();
    assert_eq!(total, code.len());
}

#[test]
fn build_twice_gives_the_same_stream() {
    let code = [0x11u8, 0x00, 0x64, 0x99, 0x00, 0x07, 0xc4, 0x15, 0x00, 0x01];
    assert_eq!(build(&code), build(&code));
    let bad = [0x11u8, 0x00];
    assert_eq!(build(&bad), build(&bad));
}

#[test]
fn record_duplicate_is_equal() {
    let code = table_switch_at(0, 0, 2, &[10, 20, 30]);
    let (rec, _) = decode(&code, 0).unwrap();
    assert_eq!(rec.duplicate(), rec);
    let code = lookup_switch_at(0, 2, &[(3, 4), (1, 2)]);
    let (rec, _) = decode(&code, 0).unwrap();
    assert_eq!(rec.duplicate(), rec);
}
