//! Decoding of one instruction: from a code buffer and a program counter to
//! an instruction record, without ever reading past the end of the buffer.

use crate::bytes::{
    be_i16, be_i32, be_u16, lemma_be_ranges, read_i16, read_i32, read_i8, read_u16, signed8,
};
use crate::opcode::{
    fixed_width, format_of, opcode_of, well_formed, MultiLayout, OpCode, OperandFormat,
    WIDE_PREFIX,
};
use vstd::prelude::*;

verus! {

/// Why a method body could not be decoded.
#[derive(Clone, Copy, Debug, PartialEq, Eq, Structural)]
pub enum DecodeError {
    /// The buffer ends before the opcode or its operand is complete.
    TruncatedOperand,
    /// A switch table with `high < low`, a negative pair count, or fewer
    /// bytes than its header and entries need.
    MalformedSwitchTable,
    /// The width-extension prefix stands before an opcode without a widened
    /// form.
    InvalidWidePrefixTarget,
    /// A decoding step did not advance, or advanced past the end of the
    /// buffer.
    StreamDesyncInvariant,
}

/// The operand values of one instruction, in their numeric form.
#[derive(Clone, Debug, PartialEq, Eq)]
pub enum Operands {
    Absent,
    LocalSlot(u16),
    ConstantPoolIndex(u16),
    /// A branch distance, counted from the first byte of the instruction.
    BranchOffset(i32),
    Immediate(i16),
    Increment { slot: u16, delta: i16 },
    InterfaceCall { index: u16, count: u8, reserved: u8 },
    DynamicCall { index: u16, reserved_pair: u16 },
    ArrayDimensions { index: u16, dimensions: u8 },
    /// `offsets[i]` is the branch distance for the value `low + i`.
    TableSwitch { default: i32, low: i32, high: i32, offsets: Vec<i32> },
    /// The pairs of match value and branch distance, in encoded order.
    LookupSwitch { default: i32, pairs: Vec<(i32, i32)> },
}

/// The mathematical value of [`Operands`].
pub enum OperandsView {
    Absent,
    LocalSlot(u16),
    ConstantPoolIndex(u16),
    BranchOffset(i32),
    Immediate(i16),
    Increment { slot: u16, delta: i16 },
    InterfaceCall { index: u16, count: u8, reserved: u8 },
    DynamicCall { index: u16, reserved_pair: u16 },
    ArrayDimensions { index: u16, dimensions: u8 },
    TableSwitch { default: i32, low: i32, high: i32, offsets: Seq<i32> },
    LookupSwitch { default: i32, pairs: Seq<(i32, i32)> },
}

impl View for Operands {
    type V = OperandsView;

    open spec fn view(&self) -> OperandsView {
        match *self {
            Operands::Absent => OperandsView::Absent,
            Operands::LocalSlot(slot) => OperandsView::LocalSlot(slot),
            Operands::ConstantPoolIndex(index) => OperandsView::ConstantPoolIndex(index),
            Operands::BranchOffset(offset) => OperandsView::BranchOffset(offset),
            Operands::Immediate(value) => OperandsView::Immediate(value),
            Operands::Increment { slot, delta } => OperandsView::Increment { slot, delta },
            Operands::InterfaceCall { index, count, reserved } => OperandsView::InterfaceCall {
                index,
                count,
                reserved,
            },
            Operands::DynamicCall { index, reserved_pair } => OperandsView::DynamicCall {
                index,
                reserved_pair,
            },
            Operands::ArrayDimensions { index, dimensions } => OperandsView::ArrayDimensions {
                index,
                dimensions,
            },
            Operands::TableSwitch { default, low, high, offsets } => OperandsView::TableSwitch {
                default,
                low,
                high,
                offsets: offsets@,
            },
            Operands::LookupSwitch { default, pairs } => OperandsView::LookupSwitch {
                default,
                pairs: pairs@,
            },
        }
    }
}

/// One decoded instruction.
#[derive(Clone, Debug, PartialEq, Eq)]
pub struct InstructionRecord {
    /// The offset of the instruction's first byte in the method body.
    pub program_counter: usize,
    /// The instruction. Behind a width-extension prefix this is the widened
    /// instruction, not the prefix.
    pub opcode: OpCode,
    /// Whether a width-extension prefix stood before the opcode.
    pub wide: bool,
    pub raw_operands: Operands,
    /// All bytes of the instruction: prefix, opcode, padding and operands.
    pub byte_length: usize,
}

/// The mathematical value of an [`InstructionRecord`].
pub struct RecordView {
    pub program_counter: int,
    pub opcode: OpCode,
    pub wide: bool,
    pub raw_operands: OperandsView,
    pub byte_length: int,
}

impl View for InstructionRecord {
    type V = RecordView;

    open spec fn view(&self) -> RecordView {
        RecordView {
            program_counter: self.program_counter as int,
            opcode: self.opcode,
            wide: self.wide,
            raw_operands: self.raw_operands@,
            byte_length: self.byte_length as int,
        }
    }
}

impl RecordView {
    /// The offset of the first byte after the instruction.
    pub open spec fn end(self) -> int {
        self.program_counter + self.byte_length
    }
}

/// The operands of a fixed-width format whose first byte stands at `at`.
pub open spec fn operands_at(format: OperandFormat, code: Seq<u8>, at: int) -> OperandsView {
    match format {
        OperandFormat::LocalSlot(w) => OperandsView::LocalSlot(
            if w == 1 {
                code[at] as u16
            } else {
                be_u16(code, at) as u16
            },
        ),
        OperandFormat::ConstantPoolIndex(w) => OperandsView::ConstantPoolIndex(
            if w == 1 {
                code[at] as u16
            } else {
                be_u16(code, at) as u16
            },
        ),
        OperandFormat::BranchOffset(w) => OperandsView::BranchOffset(
            if w == 2 {
                be_i16(code, at) as i32
            } else {
                be_i32(code, at) as i32
            },
        ),
        OperandFormat::ImmediateValue(w) => OperandsView::Immediate(
            if w == 1 {
                signed8(code[at]) as i16
            } else {
                be_i16(code, at) as i16
            },
        ),
        OperandFormat::MultiOperand(MultiLayout::Increment) => OperandsView::Increment {
            slot: code[at] as u16,
            delta: signed8(code[at + 1]) as i16,
        },
        OperandFormat::MultiOperand(MultiLayout::InterfaceCall) => OperandsView::InterfaceCall {
            index: be_u16(code, at) as u16,
            count: code[at + 2],
            reserved: code[at + 3],
        },
        OperandFormat::MultiOperand(MultiLayout::DynamicCall) => OperandsView::DynamicCall {
            index: be_u16(code, at) as u16,
            reserved_pair: be_u16(code, at + 2) as u16,
        },
        OperandFormat::MultiOperand(MultiLayout::ArrayDimensions) => OperandsView::ArrayDimensions {
            index: be_u16(code, at) as u16,
            dimensions: code[at + 2],
        },
        _ => OperandsView::Absent,
    }
}

/// The number of padding bytes between the opcode of a switch at `pc` and
/// its header: as many as bring the header to a multiple of four, counted
/// from the start of the method body.
pub open spec fn switch_padding(pc: int) -> int {
    (4 - (pc + 1) % 4) % 4
}

/// The offset of the header of a switch whose opcode stands at `pc`.
pub open spec fn switch_base(pc: int) -> int {
    pc + 1 + switch_padding(pc)
}

/// The branch distances of a table switch with `n` entries and its header at
/// `base`.
pub open spec fn table_offsets(code: Seq<u8>, base: int, n: int) -> Seq<i32> {
    Seq::new(n as nat, |i: int| be_i32(code, base + 12 + 4 * i) as i32)
}

/// The pairs of a lookup switch with `n` pairs and its header at `base`.
pub open spec fn lookup_pairs(code: Seq<u8>, base: int, n: int) -> Seq<(i32, i32)> {
    Seq::new(
        n as nat,
        |i: int| (be_i32(code, base + 8 + 8 * i) as i32, be_i32(code, base + 12 + 8 * i) as i32),
    )
}

/// What decoding a table switch at `pc` gives.
pub open spec fn table_switch_spec(op: OpCode, code: Seq<u8>, pc: int) -> Result<
    RecordView,
    DecodeError,
> {
    let base = switch_base(pc);
    if base + 12 > code.len() {
        Err(DecodeError::MalformedSwitchTable)
    } else {
        let low = be_i32(code, base + 4);
        let high = be_i32(code, base + 8);
        let n = high - low + 1;
        if high < low || base + 12 + 4 * n > code.len() {
            Err(DecodeError::MalformedSwitchTable)
        } else {
            Ok(
                RecordView {
                    program_counter: pc,
                    opcode: op,
                    wide: false,
                    raw_operands: OperandsView::TableSwitch {
                        default: be_i32(code, base) as i32,
                        low: low as i32,
                        high: high as i32,
                        offsets: table_offsets(code, base, n),
                    },
                    byte_length: base + 12 + 4 * n - pc,
                },
            )
        }
    }
}

/// What decoding a lookup switch at `pc` gives.
pub open spec fn lookup_switch_spec(op: OpCode, code: Seq<u8>, pc: int) -> Result<
    RecordView,
    DecodeError,
> {
    let base = switch_base(pc);
    if base + 8 > code.len() {
        Err(DecodeError::MalformedSwitchTable)
    } else {
        let n = be_i32(code, base + 4);
        if n < 0 || base + 8 + 8 * n > code.len() {
            Err(DecodeError::MalformedSwitchTable)
        } else {
            Ok(
                RecordView {
                    program_counter: pc,
                    opcode: op,
                    wide: false,
                    raw_operands: OperandsView::LookupSwitch {
                        default: be_i32(code, base) as i32,
                        pairs: lookup_pairs(code, base, n),
                    },
                    byte_length: base + 8 + 8 * n - pc,
                },
            )
        }
    }
}

/// What decoding behind a width-extension prefix at `pc` gives: one record
/// for the prefix and the instruction after it, named by that instruction.
pub open spec fn wide_spec(code: Seq<u8>, pc: int) -> Result<RecordView, DecodeError> {
    if pc + 2 > code.len() {
        Err(DecodeError::TruncatedOperand)
    } else {
        let target = opcode_of(code[pc + 1]);
        match format_of(target) {
            OperandFormat::LocalSlot(_) => if pc + 4 > code.len() {
                Err(DecodeError::TruncatedOperand)
            } else {
                Ok(
                    RecordView {
                        program_counter: pc,
                        opcode: target,
                        wide: true,
                        raw_operands: OperandsView::LocalSlot(be_u16(code, pc + 2) as u16),
                        byte_length: 4,
                    },
                )
            },
            OperandFormat::MultiOperand(MultiLayout::Increment) => if pc + 6 > code.len() {
                Err(DecodeError::TruncatedOperand)
            } else {
                Ok(
                    RecordView {
                        program_counter: pc,
                        opcode: target,
                        wide: true,
                        raw_operands: OperandsView::Increment {
                            slot: be_u16(code, pc + 2) as u16,
                            delta: be_i16(code, pc + 4) as i16,
                        },
                        byte_length: 6,
                    },
                )
            },
            _ => Err(DecodeError::InvalidWidePrefixTarget),
        }
    }
}

/// What decoding at `pc` gives when the instruction there is taken to be
/// `op`, whatever the byte at `pc` holds.
pub open spec fn decode_as_spec(op: OpCode, code: Seq<u8>, pc: int) -> Result<
    RecordView,
    DecodeError,
> {
    if !(0 <= pc < code.len()) {
        Err(DecodeError::TruncatedOperand)
    } else {
        match format_of(op) {
            OperandFormat::TableSwitch => table_switch_spec(op, code, pc),
            OperandFormat::LookupSwitch => lookup_switch_spec(op, code, pc),
            OperandFormat::WidePrefix => wide_spec(code, pc),
            format => {
                let width = fixed_width(format)->Some_0;
                if pc + 1 + width > code.len() {
                    Err(DecodeError::TruncatedOperand)
                } else {
                    Ok(
                        RecordView {
                            program_counter: pc,
                            opcode: op,
                            wide: false,
                            raw_operands: operands_at(format, code, pc + 1),
                            byte_length: 1 + width,
                        },
                    )
                }
            },
        }
    }
}

/// What decoding the instruction at `pc` gives: what [`decode_as_spec`]
/// gives for the opcode that the byte at `pc` encodes. The definition is
/// opaque, so that a proof unfolds the opcode table only where it asks to.
#[verifier::opaque]
pub open spec fn decode_spec(code: Seq<u8>, pc: int) -> Result<RecordView, DecodeError> {
    if !(0 <= pc < code.len()) {
        Err(DecodeError::TruncatedOperand)
    } else {
        decode_as_spec(opcode_of(code[pc]), code, pc)
    }
}

/// Whether `result` is the outcome that [`decode_as_spec`] or
/// [`decode_spec`] names in `expected`: the same record with the program
/// counter of the next instruction behind it, or the same failure.
pub open spec fn decoded(
    result: Result<(InstructionRecord, usize), DecodeError>,
    expected: Result<RecordView, DecodeError>,
) -> bool {
    match result {
        Ok((record, next_pc)) => expected == Ok::<RecordView, DecodeError>(record@) && next_pc
            == record@.end(),
        Err(e) => expected == Err::<RecordView, DecodeError>(e),
    }
}

/// A successful decoding step covers at least the opcode byte and stays
/// inside the buffer, and no step reports a desynchronised stream.
pub proof fn lemma_decode_as_advances(op: OpCode, code: Seq<u8>, pc: int)
    ensures
        match decode_as_spec(op, code, pc) {
            Ok(record) => record.program_counter == pc && 1 <= record.byte_length && record.end()
                <= code.len(),
            Err(e) => e != DecodeError::StreamDesyncInvariant,
        },
{
}

/// The same of the instruction that the byte at `pc` names.
pub proof fn lemma_decode_advances(code: Seq<u8>, pc: int)
    ensures
        match decode_spec(code, pc) {
            Ok(record) => record.program_counter == pc && 1 <= record.byte_length && record.end()
                <= code.len(),
            Err(e) => e != DecodeError::StreamDesyncInvariant,
        },
{
    reveal(decode_spec);
    if 0 <= pc < code.len() {
        lemma_decode_as_advances(opcode_of(code[pc]), code, pc);
    }
}

/// Whether a record can come from the decoder: a table switch holds one
/// branch distance for each value from `low` to `high`, and every
/// instruction has at least one byte.
pub open spec fn well_formed_record(record: RecordView) -> bool {
    &&& record.program_counter >= 0
    &&& record.byte_length >= 1
    &&& match record.raw_operands {
        OperandsView::TableSwitch { default, low, high, offsets } => low <= high && offsets.len()
            == high - low + 1,
        _ => true,
    }
}

/// Every record that decoding gives is well formed.
pub proof fn lemma_decoded_well_formed(op: OpCode, code: Seq<u8>, pc: int)
    ensures
        decode_as_spec(op, code, pc) is Ok ==> well_formed_record(decode_as_spec(op, code, pc)->Ok_0),
        decode_spec(code, pc) is Ok ==> well_formed_record(decode_spec(code, pc)->Ok_0),
{
    reveal(decode_spec);
    lemma_be_ranges(code, switch_base(pc) + 4);
    lemma_be_ranges(code, switch_base(pc) + 8);
}

/// An opcode with a fixed operand width `w`, alone in a buffer with `w`
/// bytes behind it, decodes to a record of `1 + w` bytes; with one byte
/// fewer behind it, decoding fails for want of operand bytes.
pub proof fn lemma_fixed_width_decoding(code: Seq<u8>)
    requires
        code.len() >= 1,
        fixed_width(format_of(opcode_of(code[0]))) is Some,
    ensures
        ({
            let width = fixed_width(format_of(opcode_of(code[0])))->Some_0;
            &&& code.len() == 1 + width ==> decode_spec(code, 0) is Ok && decode_spec(
                code,
                0,
            )->Ok_0.end() == 1 + width && decode_spec(code, 0)->Ok_0.opcode == opcode_of(code[0])
            &&& code.len() == width ==> decode_spec(code, 0) == Err::<RecordView, DecodeError>(
                DecodeError::TruncatedOperand,
            )
        }),
{
    reveal(decode_spec);
}

/// A width-extension prefix before an instruction that addresses a local
/// slot gives one record of four bytes, named by that instruction, whose
/// slot is read from the two bytes behind its opcode.
pub proof fn lemma_wide_local_slot(code: Seq<u8>, pc: int)
    requires
        0 <= pc,
        pc + 4 <= code.len(),
        code[pc] == WIDE_PREFIX,
        format_of(opcode_of(code[pc + 1])) == OperandFormat::LocalSlot(1),
    ensures
        decode_spec(code, pc) == Ok::<RecordView, DecodeError>(
            RecordView {
                program_counter: pc,
                opcode: opcode_of(code[pc + 1]),
                wide: true,
                raw_operands: OperandsView::LocalSlot(be_u16(code, pc + 2) as u16),
                byte_length: 4,
            },
        ),
{
    reveal(decode_spec);
}

impl Operands {
    /// A copy with the same value.
    pub fn duplicate(&self) -> (copy: Operands)
        ensures
            copy@ == self@,
    {
        match self {
            Operands::Absent => Operands::Absent,
            Operands::LocalSlot(slot) => Operands::LocalSlot(*slot),
            Operands::ConstantPoolIndex(index) => Operands::ConstantPoolIndex(*index),
            Operands::BranchOffset(offset) => Operands::BranchOffset(*offset),
            Operands::Immediate(value) => Operands::Immediate(*value),
            Operands::Increment { slot, delta } => Operands::Increment {
                slot: *slot,
                delta: *delta,
            },
            Operands::InterfaceCall { index, count, reserved } => Operands::InterfaceCall {
                index: *index,
                count: *count,
                reserved: *reserved,
            },
            Operands::DynamicCall { index, reserved_pair } => Operands::DynamicCall {
                index: *index,
                reserved_pair: *reserved_pair,
            },
            Operands::ArrayDimensions { index, dimensions } => Operands::ArrayDimensions {
                index: *index,
                dimensions: *dimensions,
            },
            Operands::TableSwitch { default, low, high, offsets } => {
                let mut copied: Vec<i32> = Vec::new();
                let mut i: usize = 0;
                while i < offsets.len()
                    invariant
                        i <= offsets.len(),
                        copied@ == offsets@.take(i as int),
                    decreases offsets.len() - i,
                {
                    copied.push(offsets[i]);
                    i += 1;
                    assert(copied@ =~= offsets@.take(i as int));
                }
                assert(offsets@.take(offsets.len() as int) =~= offsets@);
                Operands::TableSwitch { default: *default, low: *low, high: *high, offsets: copied }
            },
            Operands::LookupSwitch { default, pairs } => {
                let mut copied: Vec<(i32, i32)> = Vec::new();
                let mut i: usize = 0;
                while i < pairs.len()
                    invariant
                        i <= pairs.len(),
                        copied@ == pairs@.take(i as int),
                    decreases pairs.len() - i,
                {
                    copied.push(pairs[i]);
                    i += 1;
                    assert(copied@ =~= pairs@.take(i as int));
                }
                assert(pairs@.take(pairs.len() as int) =~= pairs@);
                Operands::LookupSwitch { default: *default, pairs: copied }
            },
        }
    }
}

impl InstructionRecord {
    /// Whether the record can come from the decoder.
    pub fn is_well_formed(&self) -> (yes: bool)
        ensures
            yes == well_formed_record(self@),
    {
        self.byte_length >= 1 && match &self.raw_operands {
            Operands::TableSwitch { default, low, high, offsets } => {
                let count: u64 = offsets.len() as u64;
                *low <= *high && count <= 0x1_0000_0000 && count as i64 == *high as i64
                    - *low as i64 + 1
            },
            _ => true,
        }
    }

    /// A copy with the same value.
    pub fn duplicate(&self) -> (copy: InstructionRecord)
        ensures
            copy@ == self@,
    {
        InstructionRecord {
            program_counter: self.program_counter,
            opcode: self.opcode,
            wide: self.wide,
            raw_operands: self.raw_operands.duplicate(),
            byte_length: self.byte_length,
        }
    }
}

/// Reads the operands of a fixed-width format whose first byte stands at
/// `at`.
fn read_operands(format: OperandFormat, code: &[u8], at: usize) -> (operands: Operands)
    requires
        well_formed(format),
        fixed_width(format) is Some,
        at + fixed_width(format)->Some_0 <= code.len(),
    ensures
        operands@ == operands_at(format, code@, at as int),
{
    match format {
        OperandFormat::LocalSlot(w) => Operands::LocalSlot(
            if w == 1 {
                code[at] as u16
            } else {
                read_u16(code, at)
            },
        ),
        OperandFormat::ConstantPoolIndex(w) => Operands::ConstantPoolIndex(
            if w == 1 {
                code[at] as u16
            } else {
                read_u16(code, at)
            },
        ),
        OperandFormat::BranchOffset(w) => Operands::BranchOffset(
            if w == 2 {
                read_i16(code, at) as i32
            } else {
                read_i32(code, at)
            },
        ),
        OperandFormat::ImmediateValue(w) => Operands::Immediate(
            if w == 1 {
                read_i8(code, at) as i16
            } else {
                read_i16(code, at)
            },
        ),
        OperandFormat::MultiOperand(MultiLayout::Increment) => Operands::Increment {
            slot: code[at] as u16,
            delta: read_i8(code, at + 1) as i16,
        },
        OperandFormat::MultiOperand(MultiLayout::InterfaceCall) => Operands::InterfaceCall {
            index: read_u16(code, at),
            count: code[at + 2],
            reserved: code[at + 3],
        },
        OperandFormat::MultiOperand(MultiLayout::DynamicCall) => Operands::DynamicCall {
            index: read_u16(code, at),
            reserved_pair: read_u16(code, at + 2),
        },
        OperandFormat::MultiOperand(MultiLayout::ArrayDimensions) => Operands::ArrayDimensions {
            index: read_u16(code, at),
            dimensions: code[at + 2],
        },
        _ => Operands::Absent,
    }
}

/// The padding after a switch opcode at `pc`.
fn padding_after(pc: usize) -> (pad: usize)
    ensures
        pad == switch_padding(pc as int),
        pad <= 3,
{
    let r: usize = pc % 4;
    // (pc + 1) % 4 without forming pc + 1
    let s: usize = if r == 3 {
        0
    } else {
        r + 1
    };
    (4 - s) % 4
}

/// Decodes the table switch whose opcode stands at `pc`.
fn decode_table_switch(op: OpCode, code: &[u8], pc: usize) -> (result: Result<
    (InstructionRecord, usize),
    DecodeError,
>)
    requires
        pc < code.len(),
    ensures
        decoded(result, table_switch_spec(op, code@, pc as int)),
{
    let pad: usize = padding_after(pc);
    if code.len() - pc - 1 < pad + 12 {
        return Err(DecodeError::MalformedSwitchTable);
    }
    let base: usize = pc + 1 + pad;
    let default: i32 = read_i32(code, base);
    let low: i32 = read_i32(code, base + 4);
    let high: i32 = read_i32(code, base + 8);
    if high < low {
        return Err(DecodeError::MalformedSwitchTable);
    }
    let entries: u64 = (high as i64 - low as i64 + 1) as u64;
    let room: usize = (code.len() - base - 12) / 4;
    if (room as u64) < entries {
        return Err(DecodeError::MalformedSwitchTable);
    }
    let n: usize = entries as usize;
    let mut offsets: Vec<i32> = Vec::new();
    let mut i: usize = 0;
    while i < n
        invariant
            i <= n,
            base + 12 + 4 * n <= code.len(),
            offsets@.len() == i,
            forall|k: int|
                0 <= k < i ==> offsets@[k] == #[trigger] table_offsets(code@, base as int, n as int)[k],
        decreases n - i,
    {
        let offset: i32 = read_i32(code, base + 12 + 4 * i);
        offsets.push(offset);
        i += 1;
    }
    assert(offsets@ =~= table_offsets(code@, base as int, n as int));
    let byte_length: usize = base + 12 + 4 * n - pc;
    let record = InstructionRecord {
        program_counter: pc,
        opcode: op,
        wide: false,
        raw_operands: Operands::TableSwitch { default, low, high, offsets },
        byte_length,
    };
    Ok((record, base + 12 + 4 * n))
}

/// Decodes the lookup switch whose opcode stands at `pc`.
fn decode_lookup_switch(op: OpCode, code: &[u8], pc: usize) -> (result: Result<
    (InstructionRecord, usize),
    DecodeError,
>)
    requires
        pc < code.len(),
    ensures
        decoded(result, lookup_switch_spec(op, code@, pc as int)),
{
    let pad: usize = padding_after(pc);
    if code.len() - pc - 1 < pad + 8 {
        return Err(DecodeError::MalformedSwitchTable);
    }
    let base: usize = pc + 1 + pad;
    let default: i32 = read_i32(code, base);
    let count: i32 = read_i32(code, base + 4);
    if count < 0 {
        return Err(DecodeError::MalformedSwitchTable);
    }
    let room: usize = (code.len() - base - 8) / 8;
    if (room as u64) < count as u64 {
        return Err(DecodeError::MalformedSwitchTable);
    }
    let n: usize = count as usize;
    let mut pairs: Vec<(i32, i32)> = Vec::new();
    let mut i: usize = 0;
    while i < n
        invariant
            i <= n,
            base + 8 + 8 * n <= code.len(),
            pairs@.len() == i,
            forall|k: int|
                0 <= k < i ==> pairs@[k] == #[trigger] lookup_pairs(code@, base as int, n as int)[k],
        decreases n - i,
    {
        let key: i32 = read_i32(code, base + 8 + 8 * i);
        let offset: i32 = read_i32(code, base + 12 + 8 * i);
        pairs.push((key, offset));
        i += 1;
    }
    assert(pairs@ =~= lookup_pairs(code@, base as int, n as int));
    let byte_length: usize = base + 8 + 8 * n - pc;
    let record = InstructionRecord {
        program_counter: pc,
        opcode: op,
        wide: false,
        raw_operands: Operands::LookupSwitch { default, pairs },
        byte_length,
    };
    Ok((record, base + 8 + 8 * n))
}

/// Decodes the instruction behind the width-extension prefix at `pc`.
fn decode_wide(code: &[u8], pc: usize) -> (result: Result<(InstructionRecord, usize), DecodeError>)
    requires
        pc < code.len(),
    ensures
        decoded(result, wide_spec(code@, pc as int)),
{
    let rest: usize = code.len() - pc;
    if rest < 2 {
        return Err(DecodeError::TruncatedOperand);
    }
    let target: OpCode = OpCode::from_byte(code[pc + 1]);
    match target.format() {
        OperandFormat::LocalSlot(_) => {
            if rest < 4 {
                return Err(DecodeError::TruncatedOperand);
            }
            let record = InstructionRecord {
                program_counter: pc,
                opcode: target,
                wide: true,
                raw_operands: Operands::LocalSlot(read_u16(code, pc + 2)),
                byte_length: 4,
            };
            Ok((record, pc + 4))
        },
        OperandFormat::MultiOperand(MultiLayout::Increment) => {
            if rest < 6 {
                return Err(DecodeError::TruncatedOperand);
            }
            let record = InstructionRecord {
                program_counter: pc,
                opcode: target,
                wide: true,
                raw_operands: Operands::Increment {
                    slot: read_u16(code, pc + 2),
                    delta: read_i16(code, pc + 4),
                },
                byte_length: 6,
            };
            Ok((record, pc + 6))
        },
        _ => Err(DecodeError::InvalidWidePrefixTarget),
    }
}

/// Decodes one instruction at `pc`, taking it to be `op` whatever byte
/// stands there. A program counter outside the buffer, or a buffer that ends
/// before the operand does, gives `TruncatedOperand`; a switch that does not
/// fit or has inconsistent bounds gives `MalformedSwitchTable`; a prefix
/// before an opcode that cannot be widened gives `InvalidWidePrefixTarget`.
pub fn decode_as(op: OpCode, code: &[u8], pc: usize) -> (result: Result<
    (InstructionRecord, usize),
    DecodeError,
>)
    ensures
        decoded(result, decode_as_spec(op, code@, pc as int)),
        result is Ok ==> well_formed_record(result->Ok_0.0@),
{
    proof {
        lemma_decoded_well_formed(op, code@, pc as int);
    }
    if pc >= code.len() {
        return Err(DecodeError::TruncatedOperand);
    }
    let format: OperandFormat = op.format();
    match format.width() {
        Some(width) => {
            if code.len() - pc - 1 < width {
                return Err(DecodeError::TruncatedOperand);
            }
            let record = InstructionRecord {
                program_counter: pc,
                opcode: op,
                wide: false,
                raw_operands: read_operands(format, code, pc + 1),
                byte_length: 1 + width,
            };
            Ok((record, pc + 1 + width))
        },
        None => match format {
            OperandFormat::TableSwitch => decode_table_switch(op, code, pc),
            OperandFormat::LookupSwitch => decode_lookup_switch(op, code, pc),
            _ => decode_wide(code, pc),
        },
    }
}

/// Decodes the instruction whose opcode byte stands at `pc`.
pub fn decode(code: &[u8], pc: usize) -> (result: Result<(InstructionRecord, usize), DecodeError>)
    ensures
        decoded(result, decode_spec(code@, pc as int)),
        result is Ok ==> well_formed_record(result->Ok_0.0@),
{
    reveal(decode_spec);
    if pc >= code.len() {
        return Err(DecodeError::TruncatedOperand);
    }
    decode_as(OpCode::from_byte(code[pc]), code, pc)
}

} // verus!
