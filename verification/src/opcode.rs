//! The instruction set: one value per mnemonic, the byte that encodes it, and
//! the shape of the operand bytes that follow it in a method body.

use vstd::prelude::*;

verus! {

/// One instruction mnemonic of the bytecode format. `Unknown` stands for every
/// byte value that the instruction set leaves undefined or reserved.
#[allow(non_camel_case_types)]
#[derive(Clone, Copy, Debug, PartialEq, Eq, Structural)]
pub enum OpCode {
    nop,
    aconst_null,
    iconst_m1,
    iconst_0,
    iconst_1,
    iconst_2,
    iconst_3,
    iconst_4,
    iconst_5,
    lconst_0,
    lconst_1,
    fconst_0,
    fconst_1,
    fconst_2,
    dconst_0,
    dconst_1,
    bipush,
    sipush,
    ldc,
    ldc_w,
    ldc2_w,
    iload,
    lload,
    fload,
    dload,
    aload,
    iload_0,
    iload_1,
    iload_2,
    iload_3,
    lload_0,
    lload_1,
    lload_2,
    lload_3,
    fload_0,
    fload_1,
    fload_2,
    fload_3,
    dload_0,
    dload_1,
    dload_2,
    dload_3,
    aload_0,
    aload_1,
    aload_2,
    aload_3,
    iaload,
    laload,
    faload,
    daload,
    aaload,
    baload,
    caload,
    saload,
    istore,
    lstore,
    fstore,
    dstore,
    astore,
    istore_0,
    istore_1,
    istore_2,
    istore_3,
    lstore_0,
    lstore_1,
    lstore_2,
    lstore_3,
    fstore_0,
    fstore_1,
    fstore_2,
    fstore_3,
    dstore_0,
    dstore_1,
    dstore_2,
    dstore_3,
    astore_0,
    astore_1,
    astore_2,
    astore_3,
    iastore,
    lastore,
    fastore,
    dastore,
    aastore,
    bastore,
    castore,
    sastore,
    pop,
    pop2,
    dup,
    dup_x1,
    dup_x2,
    dup2,
    dup2_x1,
    dup2_x2,
    swap,
    iadd,
    ladd,
    fadd,
    dadd,
    isub,
    lsub,
    fsub,
    dsub,
    imul,
    lmul,
    fmul,
    dmul,
    idiv,
    ldiv,
    fdiv,
    ddiv,
    irem,
    lrem,
    frem,
    drem,
    ineg,
    lneg,
    fneg,
    dneg,
    ishl,
    lshl,
    ishr,
    lshr,
    iushr,
    lushr,
    iand,
    land,
    ior,
    lor,
    ixor,
    lxor,
    iinc,
    i2l,
    i2f,
    i2d,
    l2i,
    l2f,
    l2d,
    f2i,
    f2l,
    f2d,
    d2i,
    d2l,
    d2f,
    i2b,
    i2c,
    i2s,
    lcmp,
    fcmpl,
    fcmpg,
    dcmpl,
    dcmpg,
    ifeq,
    ifne,
    iflt,
    ifge,
    ifgt,
    ifle,
    if_icmpeq,
    if_icmpne,
    if_icmplt,
    if_icmpge,
    if_icmpgt,
    if_icmple,
    if_acmpeq,
    if_acmpne,
    goto,
    jsr,
    ret,
    tableswitch,
    lookupswitch,
    ireturn,
    lreturn,
    freturn,
    dreturn,
    areturn,
    return_void,
    getstatic,
    putstatic,
    getfield,
    putfield,
    invokevirtual,
    invokespecial,
    invokestatic,
    invokeinterface,
    invokedynamic,
    new,
    newarray,
    anewarray,
    arraylength,
    athrow,
    checkcast,
    instanceof,
    monitorenter,
    monitorexit,
    wide,
    multianewarray,
    ifnull,
    ifnonnull,
    goto_w,
    jsr_w,
    Unknown,
}

/// The part of a multi-operand instruction's layout that its opcode fixes.
#[derive(Clone, Copy, Debug, PartialEq, Eq, Structural)]
pub enum MultiLayout {
    /// A local slot (one byte) and a signed increment (one byte); both double
    /// in width behind the width-extension prefix.
    Increment,
    /// A two-byte constant-pool index, an argument count and a reserved byte.
    InterfaceCall,
    /// A two-byte constant-pool index and two reserved bytes.
    DynamicCall,
    /// A two-byte constant-pool index and a dimension count.
    ArrayDimensions,
}

/// How the bytes after an opcode are laid out. Widths are in bytes.
#[derive(Clone, Copy, Debug, PartialEq, Eq, Structural)]
pub enum OperandFormat {
    NoOperand,
    LocalSlot(u8),
    ConstantPoolIndex(u8),
    BranchOffset(u8),
    ImmediateValue(u8),
    TableSwitch,
    LookupSwitch,
    MultiOperand(MultiLayout),
    WidePrefix,
}

/// The highest byte value that encodes a defined instruction.
pub const LAST_DEFINED: u8 = 0xc9;

/// The byte of the width-extension prefix.
pub const WIDE_PREFIX: u8 = 0xc4;

/// The opcode that a byte encodes.
pub open spec fn opcode_of(byte: u8) -> OpCode {
    match byte {
        0x00 => OpCode::nop,
        0x01 => OpCode::aconst_null,
        0x02 => OpCode::iconst_m1,
        0x03 => OpCode::iconst_0,
        0x04 => OpCode::iconst_1,
        0x05 => OpCode::iconst_2,
        0x06 => OpCode::iconst_3,
        0x07 => OpCode::iconst_4,
        0x08 => OpCode::iconst_5,
        0x09 => OpCode::lconst_0,
        0x0a => OpCode::lconst_1,
        0x0b => OpCode::fconst_0,
        0x0c => OpCode::fconst_1,
        0x0d => OpCode::fconst_2,
        0x0e => OpCode::dconst_0,
        0x0f => OpCode::dconst_1,
        0x10 => OpCode::bipush,
        0x11 => OpCode::sipush,
        0x12 => OpCode::ldc,
        0x13 => OpCode::ldc_w,
        0x14 => OpCode::ldc2_w,
        0x15 => OpCode::iload,
        0x16 => OpCode::lload,
        0x17 => OpCode::fload,
        0x18 => OpCode::dload,
        0x19 => OpCode::aload,
        0x1a => OpCode::iload_0,
        0x1b => OpCode::iload_1,
        0x1c => OpCode::iload_2,
        0x1d => OpCode::iload_3,
        0x1e => OpCode::lload_0,
        0x1f => OpCode::lload_1,
        0x20 => OpCode::lload_2,
        0x21 => OpCode::lload_3,
        0x22 => OpCode::fload_0,
        0x23 => OpCode::fload_1,
        0x24 => OpCode::fload_2,
        0x25 => OpCode::fload_3,
        0x26 => OpCode::dload_0,
        0x27 => OpCode::dload_1,
        0x28 => OpCode::dload_2,
        0x29 => OpCode::dload_3,
        0x2a => OpCode::aload_0,
        0x2b => OpCode::aload_1,
        0x2c => OpCode::aload_2,
        0x2d => OpCode::aload_3,
        0x2e => OpCode::iaload,
        0x2f => OpCode::laload,
        0x30 => OpCode::faload,
        0x31 => OpCode::daload,
        0x32 => OpCode::aaload,
        0x33 => OpCode::baload,
        0x34 => OpCode::caload,
        0x35 => OpCode::saload,
        0x36 => OpCode::istore,
        0x37 => OpCode::lstore,
        0x38 => OpCode::fstore,
        0x39 => OpCode::dstore,
        0x3a => OpCode::astore,
        0x3b => OpCode::istore_0,
        0x3c => OpCode::istore_1,
        0x3d => OpCode::istore_2,
        0x3e => OpCode::istore_3,
        0x3f => OpCode::lstore_0,
        0x40 => OpCode::lstore_1,
        0x41 => OpCode::lstore_2,
        0x42 => OpCode::lstore_3,
        0x43 => OpCode::fstore_0,
        0x44 => OpCode::fstore_1,
        0x45 => OpCode::fstore_2,
        0x46 => OpCode::fstore_3,
        0x47 => OpCode::dstore_0,
        0x48 => OpCode::dstore_1,
        0x49 => OpCode::dstore_2,
        0x4a => OpCode::dstore_3,
        0x4b => OpCode::astore_0,
        0x4c => OpCode::astore_1,
        0x4d => OpCode::astore_2,
        0x4e => OpCode::astore_3,
        0x4f => OpCode::iastore,
        0x50 => OpCode::lastore,
        0x51 => OpCode::fastore,
        0x52 => OpCode::dastore,
        0x53 => OpCode::aastore,
        0x54 => OpCode::bastore,
        0x55 => OpCode::castore,
        0x56 => OpCode::sastore,
        0x57 => OpCode::pop,
        0x58 => OpCode::pop2,
        0x59 => OpCode::dup,
        0x5a => OpCode::dup_x1,
        0x5b => OpCode::dup_x2,
        0x5c => OpCode::dup2,
        0x5d => OpCode::dup2_x1,
        0x5e => OpCode::dup2_x2,
        0x5f => OpCode::swap,
        0x60 => OpCode::iadd,
        0x61 => OpCode::ladd,
        0x62 => OpCode::fadd,
        0x63 => OpCode::dadd,
        0x64 => OpCode::isub,
        0x65 => OpCode::lsub,
        0x66 => OpCode::fsub,
        0x67 => OpCode::dsub,
        0x68 => OpCode::imul,
        0x69 => OpCode::lmul,
        0x6a => OpCode::fmul,
        0x6b => OpCode::dmul,
        0x6c => OpCode::idiv,
        0x6d => OpCode::ldiv,
        0x6e => OpCode::fdiv,
        0x6f => OpCode::ddiv,
        0x70 => OpCode::irem,
        0x71 => OpCode::lrem,
        0x72 => OpCode::frem,
        0x73 => OpCode::drem,
        0x74 => OpCode::ineg,
        0x75 => OpCode::lneg,
        0x76 => OpCode::fneg,
        0x77 => OpCode::dneg,
        0x78 => OpCode::ishl,
        0x79 => OpCode::lshl,
        0x7a => OpCode::ishr,
        0x7b => OpCode::lshr,
        0x7c => OpCode::iushr,
        0x7d => OpCode::lushr,
        0x7e => OpCode::iand,
        0x7f => OpCode::land,
        0x80 => OpCode::ior,
        0x81 => OpCode::lor,
        0x82 => OpCode::ixor,
        0x83 => OpCode::lxor,
        0x84 => OpCode::iinc,
        0x85 => OpCode::i2l,
        0x86 => OpCode::i2f,
        0x87 => OpCode::i2d,
        0x88 => OpCode::l2i,
        0x89 => OpCode::l2f,
        0x8a => OpCode::l2d,
        0x8b => OpCode::f2i,
        0x8c => OpCode::f2l,
        0x8d => OpCode::f2d,
        0x8e => OpCode::d2i,
        0x8f => OpCode::d2l,
        0x90 => OpCode::d2f,
        0x91 => OpCode::i2b,
        0x92 => OpCode::i2c,
        0x93 => OpCode::i2s,
        0x94 => OpCode::lcmp,
        0x95 => OpCode::fcmpl,
        0x96 => OpCode::fcmpg,
        0x97 => OpCode::dcmpl,
        0x98 => OpCode::dcmpg,
        0x99 => OpCode::ifeq,
        0x9a => OpCode::ifne,
        0x9b => OpCode::iflt,
        0x9c => OpCode::ifge,
        0x9d => OpCode::ifgt,
        0x9e => OpCode::ifle,
        0x9f => OpCode::if_icmpeq,
        0xa0 => OpCode::if_icmpne,
        0xa1 => OpCode::if_icmplt,
        0xa2 => OpCode::if_icmpge,
        0xa3 => OpCode::if_icmpgt,
        0xa4 => OpCode::if_icmple,
        0xa5 => OpCode::if_acmpeq,
        0xa6 => OpCode::if_acmpne,
        0xa7 => OpCode::goto,
        0xa8 => OpCode::jsr,
        0xa9 => OpCode::ret,
        0xaa => OpCode::tableswitch,
        0xab => OpCode::lookupswitch,
        0xac => OpCode::ireturn,
        0xad => OpCode::lreturn,
        0xae => OpCode::freturn,
        0xaf => OpCode::dreturn,
        0xb0 => OpCode::areturn,
        0xb1 => OpCode::return_void,
        0xb2 => OpCode::getstatic,
        0xb3 => OpCode::putstatic,
        0xb4 => OpCode::getfield,
        0xb5 => OpCode::putfield,
        0xb6 => OpCode::invokevirtual,
        0xb7 => OpCode::invokespecial,
        0xb8 => OpCode::invokestatic,
        0xb9 => OpCode::invokeinterface,
        0xba => OpCode::invokedynamic,
        0xbb => OpCode::new,
        0xbc => OpCode::newarray,
        0xbd => OpCode::anewarray,
        0xbe => OpCode::arraylength,
        0xbf => OpCode::athrow,
        0xc0 => OpCode::checkcast,
        0xc1 => OpCode::instanceof,
        0xc2 => OpCode::monitorenter,
        0xc3 => OpCode::monitorexit,
        0xc4 => OpCode::wide,
        0xc5 => OpCode::multianewarray,
        0xc6 => OpCode::ifnull,
        0xc7 => OpCode::ifnonnull,
        0xc8 => OpCode::goto_w,
        0xc9 => OpCode::jsr_w,
        _ => OpCode::Unknown,
    }
}


/// The operand layout of an opcode. An opcode that takes no operand bytes,
/// `Unknown` among them, has the format `NoOperand`.
pub open spec fn format_of(op: OpCode) -> OperandFormat {
    match op {
        OpCode::bipush | OpCode::newarray => OperandFormat::ImmediateValue(1),
        OpCode::sipush => OperandFormat::ImmediateValue(2),
        OpCode::ldc => OperandFormat::ConstantPoolIndex(1),
        OpCode::ldc_w | OpCode::ldc2_w | OpCode::getstatic | OpCode::putstatic
        | OpCode::getfield | OpCode::putfield | OpCode::invokevirtual
        | OpCode::invokespecial | OpCode::invokestatic | OpCode::new | OpCode::anewarray
        | OpCode::checkcast | OpCode::instanceof => OperandFormat::ConstantPoolIndex(2),
        OpCode::iload | OpCode::lload | OpCode::fload | OpCode::dload | OpCode::aload
        | OpCode::istore | OpCode::lstore | OpCode::fstore | OpCode::dstore | OpCode::astore
        | OpCode::ret => OperandFormat::LocalSlot(1),
        OpCode::iinc => OperandFormat::MultiOperand(MultiLayout::Increment),
        OpCode::ifeq | OpCode::ifne | OpCode::iflt | OpCode::ifge | OpCode::ifgt
        | OpCode::ifle | OpCode::if_icmpeq | OpCode::if_icmpne | OpCode::if_icmplt
        | OpCode::if_icmpge | OpCode::if_icmpgt | OpCode::if_icmple | OpCode::if_acmpeq
        | OpCode::if_acmpne | OpCode::goto | OpCode::jsr | OpCode::ifnull
        | OpCode::ifnonnull => OperandFormat::BranchOffset(2),
        OpCode::tableswitch => OperandFormat::TableSwitch,
        OpCode::lookupswitch => OperandFormat::LookupSwitch,
        OpCode::invokeinterface => OperandFormat::MultiOperand(MultiLayout::InterfaceCall),
        OpCode::invokedynamic => OperandFormat::MultiOperand(MultiLayout::DynamicCall),
        OpCode::wide => OperandFormat::WidePrefix,
        OpCode::multianewarray => OperandFormat::MultiOperand(MultiLayout::ArrayDimensions),
        OpCode::goto_w | OpCode::jsr_w => OperandFormat::BranchOffset(4),
        _ => OperandFormat::NoOperand,
    }
}

/// The number of operand bytes of a format whose length the opcode alone
/// decides; `None` for the switch tables and the width-extension prefix.
pub open spec fn fixed_width(format: OperandFormat) -> Option<int> {
    match format {
        OperandFormat::NoOperand => Some(0int),
        OperandFormat::LocalSlot(w) => Some(w as int),
        OperandFormat::ConstantPoolIndex(w) => Some(w as int),
        OperandFormat::BranchOffset(w) => Some(w as int),
        OperandFormat::ImmediateValue(w) => Some(w as int),
        OperandFormat::MultiOperand(MultiLayout::Increment) => Some(2int),
        OperandFormat::MultiOperand(MultiLayout::InterfaceCall) => Some(4int),
        OperandFormat::MultiOperand(MultiLayout::DynamicCall) => Some(4int),
        OperandFormat::MultiOperand(MultiLayout::ArrayDimensions) => Some(3int),
        OperandFormat::TableSwitch => None,
        OperandFormat::LookupSwitch => None,
        OperandFormat::WidePrefix => None,
    }
}

/// Whether a format carries one of the widths that the encoding knows for
/// its kind of operand.
pub open spec fn well_formed(format: OperandFormat) -> bool {
    match format {
        OperandFormat::LocalSlot(w) => w == 1 || w == 2,
        OperandFormat::ConstantPoolIndex(w) => w == 1 || w == 2,
        OperandFormat::BranchOffset(w) => w == 2 || w == 4,
        OperandFormat::ImmediateValue(w) => w == 1 || w == 2,
        _ => true,
    }
}

/// Whether the width-extension prefix may stand before this opcode: it may
/// before the instructions that address a local slot with one byte, and
/// before the increment.
pub open spec fn widenable(op: OpCode) -> bool {
    format_of(op) == OperandFormat::LocalSlot(1) || format_of(op) == OperandFormat::MultiOperand(
        MultiLayout::Increment,
    )
}

/// The mnemonic of an opcode as the reference listing prints it.
pub open spec fn mnemonic_of(op: OpCode) -> Seq<char> {
    match op {
        OpCode::nop => "nop"@,
        OpCode::aconst_null => "aconst_null"@,
        OpCode::iconst_m1 => "iconst_m1"@,
        OpCode::iconst_0 => "iconst_0"@,
        OpCode::iconst_1 => "iconst_1"@,
        OpCode::iconst_2 => "iconst_2"@,
        OpCode::iconst_3 => "iconst_3"@,
        OpCode::iconst_4 => "iconst_4"@,
        OpCode::iconst_5 => "iconst_5"@,
        OpCode::lconst_0 => "lconst_0"@,
        OpCode::lconst_1 => "lconst_1"@,
        OpCode::fconst_0 => "fconst_0"@,
        OpCode::fconst_1 => "fconst_1"@,
        OpCode::fconst_2 => "fconst_2"@,
        OpCode::dconst_0 => "dconst_0"@,
        OpCode::dconst_1 => "dconst_1"@,
        OpCode::bipush => "bipush"@,
        OpCode::sipush => "sipush"@,
        OpCode::ldc => "ldc"@,
        OpCode::ldc_w => "ldc_w"@,
        OpCode::ldc2_w => "ldc2_w"@,
        OpCode::iload => "iload"@,
        OpCode::lload => "lload"@,
        OpCode::fload => "fload"@,
        OpCode::dload => "dload"@,
        OpCode::aload => "aload"@,
        OpCode::iload_0 => "iload_0"@,
        OpCode::iload_1 => "iload_1"@,
        OpCode::iload_2 => "iload_2"@,
        OpCode::iload_3 => "iload_3"@,
        OpCode::lload_0 => "lload_0"@,
        OpCode::lload_1 => "lload_1"@,
        OpCode::lload_2 => "lload_2"@,
        OpCode::lload_3 => "lload_3"@,
        OpCode::fload_0 => "fload_0"@,
        OpCode::fload_1 => "fload_1"@,
        OpCode::fload_2 => "fload_2"@,
        OpCode::fload_3 => "fload_3"@,
        OpCode::dload_0 => "dload_0"@,
        OpCode::dload_1 => "dload_1"@,
        OpCode::dload_2 => "dload_2"@,
        OpCode::dload_3 => "dload_3"@,
        OpCode::aload_0 => "aload_0"@,
        OpCode::aload_1 => "aload_1"@,
        OpCode::aload_2 => "aload_2"@,
        OpCode::aload_3 => "aload_3"@,
        OpCode::iaload => "iaload"@,
        OpCode::laload => "laload"@,
        OpCode::faload => "faload"@,
        OpCode::daload => "daload"@,
        OpCode::aaload => "aaload"@,
        OpCode::baload => "baload"@,
        OpCode::caload => "caload"@,
        OpCode::saload => "saload"@,
        OpCode::istore => "istore"@,
        OpCode::lstore => "lstore"@,
        OpCode::fstore => "fstore"@,
        OpCode::dstore => "dstore"@,
        OpCode::astore => "astore"@,
        OpCode::istore_0 => "istore_0"@,
        OpCode::istore_1 => "istore_1"@,
        OpCode::istore_2 => "istore_2"@,
        OpCode::istore_3 => "istore_3"@,
        OpCode::lstore_0 => "lstore_0"@,
        OpCode::lstore_1 => "lstore_1"@,
        OpCode::lstore_2 => "lstore_2"@,
        OpCode::lstore_3 => "lstore_3"@,
        OpCode::fstore_0 => "fstore_0"@,
        OpCode::fstore_1 => "fstore_1"@,
        OpCode::fstore_2 => "fstore_2"@,
        OpCode::fstore_3 => "fstore_3"@,
        OpCode::dstore_0 => "dstore_0"@,
        OpCode::dstore_1 => "dstore_1"@,
        OpCode::dstore_2 => "dstore_2"@,
        OpCode::dstore_3 => "dstore_3"@,
        OpCode::astore_0 => "astore_0"@,
        OpCode::astore_1 => "astore_1"@,
        OpCode::astore_2 => "astore_2"@,
        OpCode::astore_3 => "astore_3"@,
        OpCode::iastore => "iastore"@,
        OpCode::lastore => "lastore"@,
        OpCode::fastore => "fastore"@,
        OpCode::dastore => "dastore"@,
        OpCode::aastore => "aastore"@,
        OpCode::bastore => "bastore"@,
        OpCode::castore => "castore"@,
        OpCode::sastore => "sastore"@,
        OpCode::pop => "pop"@,
        OpCode::pop2 => "pop2"@,
        OpCode::dup => "dup"@,
        OpCode::dup_x1 => "dup_x1"@,
        OpCode::dup_x2 => "dup_x2"@,
        OpCode::dup2 => "dup2"@,
        OpCode::dup2_x1 => "dup2_x1"@,
        OpCode::dup2_x2 => "dup2_x2"@,
        OpCode::swap => "swap"@,
        OpCode::iadd => "iadd"@,
        OpCode::ladd => "ladd"@,
        OpCode::fadd => "fadd"@,
        OpCode::dadd => "dadd"@,
        OpCode::isub => "isub"@,
        OpCode::lsub => "lsub"@,
        OpCode::fsub => "fsub"@,
        OpCode::dsub => "dsub"@,
        OpCode::imul => "imul"@,
        OpCode::lmul => "lmul"@,
        OpCode::fmul => "fmul"@,
        OpCode::dmul => "dmul"@,
        OpCode::idiv => "idiv"@,
        OpCode::ldiv => "ldiv"@,
        OpCode::fdiv => "fdiv"@,
        OpCode::ddiv => "ddiv"@,
        OpCode::irem => "irem"@,
        OpCode::lrem => "lrem"@,
        OpCode::frem => "frem"@,
        OpCode::drem => "drem"@,
        OpCode::ineg => "ineg"@,
        OpCode::lneg => "lneg"@,
        OpCode::fneg => "fneg"@,
        OpCode::dneg => "dneg"@,
        OpCode::ishl => "ishl"@,
        OpCode::lshl => "lshl"@,
        OpCode::ishr => "ishr"@,
        OpCode::lshr => "lshr"@,
        OpCode::iushr => "iushr"@,
        OpCode::lushr => "lushr"@,
        OpCode::iand => "iand"@,
        OpCode::land => "land"@,
        OpCode::ior => "ior"@,
        OpCode::lor => "lor"@,
        OpCode::ixor => "ixor"@,
        OpCode::lxor => "lxor"@,
        OpCode::iinc => "iinc"@,
        OpCode::i2l => "i2l"@,
        OpCode::i2f => "i2f"@,
        OpCode::i2d => "i2d"@,
        OpCode::l2i => "l2i"@,
        OpCode::l2f => "l2f"@,
        OpCode::l2d => "l2d"@,
        OpCode::f2i => "f2i"@,
        OpCode::f2l => "f2l"@,
        OpCode::f2d => "f2d"@,
        OpCode::d2i => "d2i"@,
        OpCode::d2l => "d2l"@,
        OpCode::d2f => "d2f"@,
        OpCode::i2b => "i2b"@,
        OpCode::i2c => "i2c"@,
        OpCode::i2s => "i2s"@,
        OpCode::lcmp => "lcmp"@,
        OpCode::fcmpl => "fcmpl"@,
        OpCode::fcmpg => "fcmpg"@,
        OpCode::dcmpl => "dcmpl"@,
        OpCode::dcmpg => "dcmpg"@,
        OpCode::ifeq => "ifeq"@,
        OpCode::ifne => "ifne"@,
        OpCode::iflt => "iflt"@,
        OpCode::ifge => "ifge"@,
        OpCode::ifgt => "ifgt"@,
        OpCode::ifle => "ifle"@,
        OpCode::if_icmpeq => "if_icmpeq"@,
        OpCode::if_icmpne => "if_icmpne"@,
        OpCode::if_icmplt => "if_icmplt"@,
        OpCode::if_icmpge => "if_icmpge"@,
        OpCode::if_icmpgt => "if_icmpgt"@,
        OpCode::if_icmple => "if_icmple"@,
        OpCode::if_acmpeq => "if_acmpeq"@,
        OpCode::if_acmpne => "if_acmpne"@,
        OpCode::goto => "goto"@,
        OpCode::jsr => "jsr"@,
        OpCode::ret => "ret"@,
        OpCode::tableswitch => "tableswitch"@,
        OpCode::lookupswitch => "lookupswitch"@,
        OpCode::ireturn => "ireturn"@,
        OpCode::lreturn => "lreturn"@,
        OpCode::freturn => "freturn"@,
        OpCode::dreturn => "dreturn"@,
        OpCode::areturn => "areturn"@,
        OpCode::return_void => "return"@,
        OpCode::getstatic => "getstatic"@,
        OpCode::putstatic => "putstatic"@,
        OpCode::getfield => "getfield"@,
        OpCode::putfield => "putfield"@,
        OpCode::invokevirtual => "invokevirtual"@,
        OpCode::invokespecial => "invokespecial"@,
        OpCode::invokestatic => "invokestatic"@,
        OpCode::invokeinterface => "invokeinterface"@,
        OpCode::invokedynamic => "invokedynamic"@,
        OpCode::new => "new"@,
        OpCode::newarray => "newarray"@,
        OpCode::anewarray => "anewarray"@,
        OpCode::arraylength => "arraylength"@,
        OpCode::athrow => "athrow"@,
        OpCode::checkcast => "checkcast"@,
        OpCode::instanceof => "instanceof"@,
        OpCode::monitorenter => "monitorenter"@,
        OpCode::monitorexit => "monitorexit"@,
        OpCode::wide => "wide"@,
        OpCode::multianewarray => "multianewarray"@,
        OpCode::ifnull => "ifnull"@,
        OpCode::ifnonnull => "ifnonnull"@,
        OpCode::goto_w => "goto_w"@,
        OpCode::jsr_w => "jsr_w"@,
        OpCode::Unknown => "unknown"@,
    }
}

impl OpCode {
    /// Looks a byte up in the instruction set. Every byte has an answer: one
    /// without a mnemonic gives `Unknown`.
    pub fn from_byte(byte: u8) -> (op: OpCode)
        ensures
            op == opcode_of(byte),
            (byte > LAST_DEFINED) == (op == OpCode::Unknown),
    {
        match byte {
            0x00 => OpCode::nop,
            0x01 => OpCode::aconst_null,
            0x02 => OpCode::iconst_m1,
            0x03 => OpCode::iconst_0,
            0x04 => OpCode::iconst_1,
            0x05 => OpCode::iconst_2,
            0x06 => OpCode::iconst_3,
            0x07 => OpCode::iconst_4,
            0x08 => OpCode::iconst_5,
            0x09 => OpCode::lconst_0,
            0x0a => OpCode::lconst_1,
            0x0b => OpCode::fconst_0,
            0x0c => OpCode::fconst_1,
            0x0d => OpCode::fconst_2,
            0x0e => OpCode::dconst_0,
            0x0f => OpCode::dconst_1,
            0x10 => OpCode::bipush,
            0x11 => OpCode::sipush,
            0x12 => OpCode::ldc,
            0x13 => OpCode::ldc_w,
            0x14 => OpCode::ldc2_w,
            0x15 => OpCode::iload,
            0x16 => OpCode::lload,
            0x17 => OpCode::fload,
            0x18 => OpCode::dload,
            0x19 => OpCode::aload,
            0x1a => OpCode::iload_0,
            0x1b => OpCode::iload_1,
            0x1c => OpCode::iload_2,
            0x1d => OpCode::iload_3,
            0x1e => OpCode::lload_0,
            0x1f => OpCode::lload_1,
            0x20 => OpCode::lload_2,
            0x21 => OpCode::lload_3,
            0x22 => OpCode::fload_0,
            0x23 => OpCode::fload_1,
            0x24 => OpCode::fload_2,
            0x25 => OpCode::fload_3,
            0x26 => OpCode::dload_0,
            0x27 => OpCode::dload_1,
            0x28 => OpCode::dload_2,
            0x29 => OpCode::dload_3,
            0x2a => OpCode::aload_0,
            0x2b => OpCode::aload_1,
            0x2c => OpCode::aload_2,
            0x2d => OpCode::aload_3,
            0x2e => OpCode::iaload,
            0x2f => OpCode::laload,
            0x30 => OpCode::faload,
            0x31 => OpCode::daload,
            0x32 => OpCode::aaload,
            0x33 => OpCode::baload,
            0x34 => OpCode::caload,
            0x35 => OpCode::saload,
            0x36 => OpCode::istore,
            0x37 => OpCode::lstore,
            0x38 => OpCode::fstore,
            0x39 => OpCode::dstore,
            0x3a => OpCode::astore,
            0x3b => OpCode::istore_0,
            0x3c => OpCode::istore_1,
            0x3d => OpCode::istore_2,
            0x3e => OpCode::istore_3,
            0x3f => OpCode::lstore_0,
            0x40 => OpCode::lstore_1,
            0x41 => OpCode::lstore_2,
            0x42 => OpCode::lstore_3,
            0x43 => OpCode::fstore_0,
            0x44 => OpCode::fstore_1,
            0x45 => OpCode::fstore_2,
            0x46 => OpCode::fstore_3,
            0x47 => OpCode::dstore_0,
            0x48 => OpCode::dstore_1,
            0x49 => OpCode::dstore_2,
            0x4a => OpCode::dstore_3,
            0x4b => OpCode::astore_0,
            0x4c => OpCode::astore_1,
            0x4d => OpCode::astore_2,
            0x4e => OpCode::astore_3,
            0x4f => OpCode::iastore,
            0x50 => OpCode::lastore,
            0x51 => OpCode::fastore,
            0x52 => OpCode::dastore,
            0x53 => OpCode::aastore,
            0x54 => OpCode::bastore,
            0x55 => OpCode::castore,
            0x56 => OpCode::sastore,
            0x57 => OpCode::pop,
            0x58 => OpCode::pop2,
            0x59 => OpCode::dup,
            0x5a => OpCode::dup_x1,
            0x5b => OpCode::dup_x2,
            0x5c => OpCode::dup2,
            0x5d => OpCode::dup2_x1,
            0x5e => OpCode::dup2_x2,
            0x5f => OpCode::swap,
            0x60 => OpCode::iadd,
            0x61 => OpCode::ladd,
            0x62 => OpCode::fadd,
            0x63 => OpCode::dadd,
            0x64 => OpCode::isub,
            0x65 => OpCode::lsub,
            0x66 => OpCode::fsub,
            0x67 => OpCode::dsub,
            0x68 => OpCode::imul,
            0x69 => OpCode::lmul,
            0x6a => OpCode::fmul,
            0x6b => OpCode::dmul,
            0x6c => OpCode::idiv,
            0x6d => OpCode::ldiv,
            0x6e => OpCode::fdiv,
            0x6f => OpCode::ddiv,
            0x70 => OpCode::irem,
            0x71 => OpCode::lrem,
            0x72 => OpCode::frem,
            0x73 => OpCode::drem,
            0x74 => OpCode::ineg,
            0x75 => OpCode::lneg,
            0x76 => OpCode::fneg,
            0x77 => OpCode::dneg,
            0x78 => OpCode::ishl,
            0x79 => OpCode::lshl,
            0x7a => OpCode::ishr,
            0x7b => OpCode::lshr,
            0x7c => OpCode::iushr,
            0x7d => OpCode::lushr,
            0x7e => OpCode::iand,
            0x7f => OpCode::land,
            0x80 => OpCode::ior,
            0x81 => OpCode::lor,
            0x82 => OpCode::ixor,
            0x83 => OpCode::lxor,
            0x84 => OpCode::iinc,
            0x85 => OpCode::i2l,
            0x86 => OpCode::i2f,
            0x87 => OpCode::i2d,
            0x88 => OpCode::l2i,
            0x89 => OpCode::l2f,
            0x8a => OpCode::l2d,
            0x8b => OpCode::f2i,
            0x8c => OpCode::f2l,
            0x8d => OpCode::f2d,
            0x8e => OpCode::d2i,
            0x8f => OpCode::d2l,
            0x90 => OpCode::d2f,
            0x91 => OpCode::i2b,
            0x92 => OpCode::i2c,
            0x93 => OpCode::i2s,
            0x94 => OpCode::lcmp,
            0x95 => OpCode::fcmpl,
            0x96 => OpCode::fcmpg,
            0x97 => OpCode::dcmpl,
            0x98 => OpCode::dcmpg,
            0x99 => OpCode::ifeq,
            0x9a => OpCode::ifne,
            0x9b => OpCode::iflt,
            0x9c => OpCode::ifge,
            0x9d => OpCode::ifgt,
            0x9e => OpCode::ifle,
            0x9f => OpCode::if_icmpeq,
            0xa0 => OpCode::if_icmpne,
            0xa1 => OpCode::if_icmplt,
            0xa2 => OpCode::if_icmpge,
            0xa3 => OpCode::if_icmpgt,
            0xa4 => OpCode::if_icmple,
            0xa5 => OpCode::if_acmpeq,
            0xa6 => OpCode::if_acmpne,
            0xa7 => OpCode::goto,
            0xa8 => OpCode::jsr,
            0xa9 => OpCode::ret,
            0xaa => OpCode::tableswitch,
            0xab => OpCode::lookupswitch,
            0xac => OpCode::ireturn,
            0xad => OpCode::lreturn,
            0xae => OpCode::freturn,
            0xaf => OpCode::dreturn,
            0xb0 => OpCode::areturn,
            0xb1 => OpCode::return_void,
            0xb2 => OpCode::getstatic,
            0xb3 => OpCode::putstatic,
            0xb4 => OpCode::getfield,
            0xb5 => OpCode::putfield,
            0xb6 => OpCode::invokevirtual,
            0xb7 => OpCode::invokespecial,
            0xb8 => OpCode::invokestatic,
            0xb9 => OpCode::invokeinterface,
            0xba => OpCode::invokedynamic,
            0xbb => OpCode::new,
            0xbc => OpCode::newarray,
            0xbd => OpCode::anewarray,
            0xbe => OpCode::arraylength,
            0xbf => OpCode::athrow,
            0xc0 => OpCode::checkcast,
            0xc1 => OpCode::instanceof,
            0xc2 => OpCode::monitorenter,
            0xc3 => OpCode::monitorexit,
            0xc4 => OpCode::wide,
            0xc5 => OpCode::multianewarray,
            0xc6 => OpCode::ifnull,
            0xc7 => OpCode::ifnonnull,
            0xc8 => OpCode::goto_w,
            0xc9 => OpCode::jsr_w,
            _ => OpCode::Unknown,
        }
    }

    /// The operand layout that follows this opcode.
    pub fn format(self) -> (format: OperandFormat)
        ensures
            format == format_of(self),
            well_formed(format),
    {
        match self {
            OpCode::bipush | OpCode::newarray => OperandFormat::ImmediateValue(1),
            OpCode::sipush => OperandFormat::ImmediateValue(2),
            OpCode::ldc => OperandFormat::ConstantPoolIndex(1),
            OpCode::ldc_w | OpCode::ldc2_w | OpCode::getstatic | OpCode::putstatic
            | OpCode::getfield | OpCode::putfield | OpCode::invokevirtual
            | OpCode::invokespecial | OpCode::invokestatic | OpCode::new | OpCode::anewarray
            | OpCode::checkcast | OpCode::instanceof => OperandFormat::ConstantPoolIndex(2),
            OpCode::iload | OpCode::lload | OpCode::fload | OpCode::dload | OpCode::aload
            | OpCode::istore | OpCode::lstore | OpCode::fstore | OpCode::dstore | OpCode::astore
            | OpCode::ret => OperandFormat::LocalSlot(1),
            OpCode::iinc => OperandFormat::MultiOperand(MultiLayout::Increment),
            OpCode::ifeq | OpCode::ifne | OpCode::iflt | OpCode::ifge | OpCode::ifgt
            | OpCode::ifle | OpCode::if_icmpeq | OpCode::if_icmpne | OpCode::if_icmplt
            | OpCode::if_icmpge | OpCode::if_icmpgt | OpCode::if_icmple | OpCode::if_acmpeq
            | OpCode::if_acmpne | OpCode::goto | OpCode::jsr | OpCode::ifnull
            | OpCode::ifnonnull => OperandFormat::BranchOffset(2),
            OpCode::tableswitch => OperandFormat::TableSwitch,
            OpCode::lookupswitch => OperandFormat::LookupSwitch,
            OpCode::invokeinterface => OperandFormat::MultiOperand(MultiLayout::InterfaceCall),
            OpCode::invokedynamic => OperandFormat::MultiOperand(MultiLayout::DynamicCall),
            OpCode::wide => OperandFormat::WidePrefix,
            OpCode::multianewarray => OperandFormat::MultiOperand(MultiLayout::ArrayDimensions),
            OpCode::goto_w | OpCode::jsr_w => OperandFormat::BranchOffset(4),
            _ => OperandFormat::NoOperand,
        }
    }

    /// The mnemonic, in lower case.
    pub fn mnemonic(self) -> (name: &'static str)
        ensures
            name@ == mnemonic_of(self),
    {
        match self {
            OpCode::nop => "nop",
            OpCode::aconst_null => "aconst_null",
            OpCode::iconst_m1 => "iconst_m1",
            OpCode::iconst_0 => "iconst_0",
            OpCode::iconst_1 => "iconst_1",
            OpCode::iconst_2 => "iconst_2",
            OpCode::iconst_3 => "iconst_3",
            OpCode::iconst_4 => "iconst_4",
            OpCode::iconst_5 => "iconst_5",
            OpCode::lconst_0 => "lconst_0",
            OpCode::lconst_1 => "lconst_1",
            OpCode::fconst_0 => "fconst_0",
            OpCode::fconst_1 => "fconst_1",
            OpCode::fconst_2 => "fconst_2",
            OpCode::dconst_0 => "dconst_0",
            OpCode::dconst_1 => "dconst_1",
            OpCode::bipush => "bipush",
            OpCode::sipush => "sipush",
            OpCode::ldc => "ldc",
            OpCode::ldc_w => "ldc_w",
            OpCode::ldc2_w => "ldc2_w",
            OpCode::iload => "iload",
            OpCode::lload => "lload",
            OpCode::fload => "fload",
            OpCode::dload => "dload",
            OpCode::aload => "aload",
            OpCode::iload_0 => "iload_0",
            OpCode::iload_1 => "iload_1",
            OpCode::iload_2 => "iload_2",
            OpCode::iload_3 => "iload_3",
            OpCode::lload_0 => "lload_0",
            OpCode::lload_1 => "lload_1",
            OpCode::lload_2 => "lload_2",
            OpCode::lload_3 => "lload_3",
            OpCode::fload_0 => "fload_0",
            OpCode::fload_1 => "fload_1",
            OpCode::fload_2 => "fload_2",
            OpCode::fload_3 => "fload_3",
            OpCode::dload_0 => "dload_0",
            OpCode::dload_1 => "dload_1",
            OpCode::dload_2 => "dload_2",
            OpCode::dload_3 => "dload_3",
            OpCode::aload_0 => "aload_0",
            OpCode::aload_1 => "aload_1",
            OpCode::aload_2 => "aload_2",
            OpCode::aload_3 => "aload_3",
            OpCode::iaload => "iaload",
            OpCode::laload => "laload",
            OpCode::faload => "faload",
            OpCode::daload => "daload",
            OpCode::aaload => "aaload",
            OpCode::baload => "baload",
            OpCode::caload => "caload",
            OpCode::saload => "saload",
            OpCode::istore => "istore",
            OpCode::lstore => "lstore",
            OpCode::fstore => "fstore",
            OpCode::dstore => "dstore",
            OpCode::astore => "astore",
            OpCode::istore_0 => "istore_0",
            OpCode::istore_1 => "istore_1",
            OpCode::istore_2 => "istore_2",
            OpCode::istore_3 => "istore_3",
            OpCode::lstore_0 => "lstore_0",
            OpCode::lstore_1 => "lstore_1",
            OpCode::lstore_2 => "lstore_2",
            OpCode::lstore_3 => "lstore_3",
            OpCode::fstore_0 => "fstore_0",
            OpCode::fstore_1 => "fstore_1",
            OpCode::fstore_2 => "fstore_2",
            OpCode::fstore_3 => "fstore_3",
            OpCode::dstore_0 => "dstore_0",
            OpCode::dstore_1 => "dstore_1",
            OpCode::dstore_2 => "dstore_2",
            OpCode::dstore_3 => "dstore_3",
            OpCode::astore_0 => "astore_0",
            OpCode::astore_1 => "astore_1",
            OpCode::astore_2 => "astore_2",
            OpCode::astore_3 => "astore_3",
            OpCode::iastore => "iastore",
            OpCode::lastore => "lastore",
            OpCode::fastore => "fastore",
            OpCode::dastore => "dastore",
            OpCode::aastore => "aastore",
            OpCode::bastore => "bastore",
            OpCode::castore => "castore",
            OpCode::sastore => "sastore",
            OpCode::pop => "pop",
            OpCode::pop2 => "pop2",
            OpCode::dup => "dup",
            OpCode::dup_x1 => "dup_x1",
            OpCode::dup_x2 => "dup_x2",
            OpCode::dup2 => "dup2",
            OpCode::dup2_x1 => "dup2_x1",
            OpCode::dup2_x2 => "dup2_x2",
            OpCode::swap => "swap",
            OpCode::iadd => "iadd",
            OpCode::ladd => "ladd",
            OpCode::fadd => "fadd",
            OpCode::dadd => "dadd",
            OpCode::isub => "isub",
            OpCode::lsub => "lsub",
            OpCode::fsub => "fsub",
            OpCode::dsub => "dsub",
            OpCode::imul => "imul",
            OpCode::lmul => "lmul",
            OpCode::fmul => "fmul",
            OpCode::dmul => "dmul",
            OpCode::idiv => "idiv",
            OpCode::ldiv => "ldiv",
            OpCode::fdiv => "fdiv",
            OpCode::ddiv => "ddiv",
            OpCode::irem => "irem",
            OpCode::lrem => "lrem",
            OpCode::frem => "frem",
            OpCode::drem => "drem",
            OpCode::ineg => "ineg",
            OpCode::lneg => "lneg",
            OpCode::fneg => "fneg",
            OpCode::dneg => "dneg",
            OpCode::ishl => "ishl",
            OpCode::lshl => "lshl",
            OpCode::ishr => "ishr",
            OpCode::lshr => "lshr",
            OpCode::iushr => "iushr",
            OpCode::lushr => "lushr",
            OpCode::iand => "iand",
            OpCode::land => "land",
            OpCode::ior => "ior",
            OpCode::lor => "lor",
            OpCode::ixor => "ixor",
            OpCode::lxor => "lxor",
            OpCode::iinc => "iinc",
            OpCode::i2l => "i2l",
            OpCode::i2f => "i2f",
            OpCode::i2d => "i2d",
            OpCode::l2i => "l2i",
            OpCode::l2f => "l2f",
            OpCode::l2d => "l2d",
            OpCode::f2i => "f2i",
            OpCode::f2l => "f2l",
            OpCode::f2d => "f2d",
            OpCode::d2i => "d2i",
            OpCode::d2l => "d2l",
            OpCode::d2f => "d2f",
            OpCode::i2b => "i2b",
            OpCode::i2c => "i2c",
            OpCode::i2s => "i2s",
            OpCode::lcmp => "lcmp",
            OpCode::fcmpl => "fcmpl",
            OpCode::fcmpg => "fcmpg",
            OpCode::dcmpl => "dcmpl",
            OpCode::dcmpg => "dcmpg",
            OpCode::ifeq => "ifeq",
            OpCode::ifne => "ifne",
            OpCode::iflt => "iflt",
            OpCode::ifge => "ifge",
            OpCode::ifgt => "ifgt",
            OpCode::ifle => "ifle",
            OpCode::if_icmpeq => "if_icmpeq",
            OpCode::if_icmpne => "if_icmpne",
            OpCode::if_icmplt => "if_icmplt",
            OpCode::if_icmpge => "if_icmpge",
            OpCode::if_icmpgt => "if_icmpgt",
            OpCode::if_icmple => "if_icmple",
            OpCode::if_acmpeq => "if_acmpeq",
            OpCode::if_acmpne => "if_acmpne",
            OpCode::goto => "goto",
            OpCode::jsr => "jsr",
            OpCode::ret => "ret",
            OpCode::tableswitch => "tableswitch",
            OpCode::lookupswitch => "lookupswitch",
            OpCode::ireturn => "ireturn",
            OpCode::lreturn => "lreturn",
            OpCode::freturn => "freturn",
            OpCode::dreturn => "dreturn",
            OpCode::areturn => "areturn",
            OpCode::return_void => "return",
            OpCode::getstatic => "getstatic",
            OpCode::putstatic => "putstatic",
            OpCode::getfield => "getfield",
            OpCode::putfield => "putfield",
            OpCode::invokevirtual => "invokevirtual",
            OpCode::invokespecial => "invokespecial",
            OpCode::invokestatic => "invokestatic",
            OpCode::invokeinterface => "invokeinterface",
            OpCode::invokedynamic => "invokedynamic",
            OpCode::new => "new",
            OpCode::newarray => "newarray",
            OpCode::anewarray => "anewarray",
            OpCode::arraylength => "arraylength",
            OpCode::athrow => "athrow",
            OpCode::checkcast => "checkcast",
            OpCode::instanceof => "instanceof",
            OpCode::monitorenter => "monitorenter",
            OpCode::monitorexit => "monitorexit",
            OpCode::wide => "wide",
            OpCode::multianewarray => "multianewarray",
            OpCode::ifnull => "ifnull",
            OpCode::ifnonnull => "ifnonnull",
            OpCode::goto_w => "goto_w",
            OpCode::jsr_w => "jsr_w",
            OpCode::Unknown => "unknown",
        }
    }

    /// Whether this opcode has a widened form.
    pub fn is_widenable(self) -> (yes: bool)
        ensures
            yes == widenable(self),
    {
        match self.format() {
            OperandFormat::LocalSlot(w) => w == 1,
            OperandFormat::MultiOperand(MultiLayout::Increment) => true,
            _ => false,
        }
    }
}

impl OperandFormat {
    /// The operand width in bytes where the opcode alone decides it.
    pub fn width(self) -> (width: Option<usize>)
        ensures
            width is Some == fixed_width(self) is Some,
            width is Some ==> width->Some_0 as int == fixed_width(self)->Some_0,
    {
        match self {
            OperandFormat::NoOperand => Some(0),
            OperandFormat::LocalSlot(w) => Some(usize_of(w)),
            OperandFormat::ConstantPoolIndex(w) => Some(usize_of(w)),
            OperandFormat::BranchOffset(w) => Some(usize_of(w)),
            OperandFormat::ImmediateValue(w) => Some(usize_of(w)),
            OperandFormat::MultiOperand(MultiLayout::Increment) => Some(2),
            OperandFormat::MultiOperand(MultiLayout::InterfaceCall) => Some(4),
            OperandFormat::MultiOperand(MultiLayout::DynamicCall) => Some(4),
            OperandFormat::MultiOperand(MultiLayout::ArrayDimensions) => Some(3),
            OperandFormat::TableSwitch => None,
            OperandFormat::LookupSwitch => None,
            OperandFormat::WidePrefix => None,
        }
    }
}

fn usize_of(w: u8) -> (r: usize)
    ensures
        r == w,
{
    w as usize
}

} // verus!
