//! Decoders for single instructions: one type for each of a number of
//! opcodes, all behind one trait. Each of them decodes at a program counter
//! as the general decoder does when it finds that opcode there.

#![allow(non_camel_case_types)]

use crate::decoder::{decode_as, decode_as_spec, decoded, DecodeError, InstructionRecord};
use crate::opcode::OpCode;
use vstd::prelude::*;

verus! {

/// The decoder of one instruction.
pub trait Instruction {
    /// The opcode that this decoder reads.
    spec fn op_code(&self) -> OpCode;

    /// Decodes the instruction at `pc`, taking the opcode there to be this
    /// decoder's own: the record and the program counter behind it, or the
    /// reason why there is none.
    fn run(&self, codes: &[u8], pc: usize) -> (result: Result<
        (InstructionRecord, usize),
        DecodeError,
    >)
        ensures
            decoded(result, decode_as_spec(self.op_code(), codes@, pc as int)),
    ;
}


#[derive(Clone, Copy, Debug)]
pub struct Aconst_Null;

impl Instruction for Aconst_Null {
    open spec fn op_code(&self) -> OpCode {
        OpCode::aconst_null
    }

    fn run(&self, codes: &[u8], pc: usize) -> (result: Result<
        (InstructionRecord, usize),
        DecodeError,
    >) {
        decode_as(OpCode::aconst_null, codes, pc)
    }
}

#[derive(Clone, Copy, Debug)]
pub struct Areturn;

impl Instruction for Areturn {
    open spec fn op_code(&self) -> OpCode {
        OpCode::areturn
    }

    fn run(&self, codes: &[u8], pc: usize) -> (result: Result<
        (InstructionRecord, usize),
        DecodeError,
    >) {
        decode_as(OpCode::areturn, codes, pc)
    }
}

#[derive(Clone, Copy, Debug)]
pub struct Astore_3;

impl Instruction for Astore_3 {
    open spec fn op_code(&self) -> OpCode {
        OpCode::astore_3
    }

    fn run(&self, codes: &[u8], pc: usize) -> (result: Result<
        (InstructionRecord, usize),
        DecodeError,
    >) {
        decode_as(OpCode::astore_3, codes, pc)
    }
}

#[derive(Clone, Copy, Debug)]
pub struct Caload;

impl Instruction for Caload {
    open spec fn op_code(&self) -> OpCode {
        OpCode::caload
    }

    fn run(&self, codes: &[u8], pc: usize) -> (result: Result<
        (InstructionRecord, usize),
        DecodeError,
    >) {
        decode_as(OpCode::caload, codes, pc)
    }
}

#[derive(Clone, Copy, Debug)]
pub struct D2L;

impl Instruction for D2L {
    open spec fn op_code(&self) -> OpCode {
        OpCode::d2l
    }

    fn run(&self, codes: &[u8], pc: usize) -> (result: Result<
        (InstructionRecord, usize),
        DecodeError,
    >) {
        decode_as(OpCode::d2l, codes, pc)
    }
}

#[derive(Clone, Copy, Debug)]
pub struct Dload_0;

impl Instruction for Dload_0 {
    open spec fn op_code(&self) -> OpCode {
        OpCode::dload_0
    }

    fn run(&self, codes: &[u8], pc: usize) -> (result: Result<
        (InstructionRecord, usize),
        DecodeError,
    >) {
        decode_as(OpCode::dload_0, codes, pc)
    }
}

#[derive(Clone, Copy, Debug)]
pub struct Dreturn;

impl Instruction for Dreturn {
    open spec fn op_code(&self) -> OpCode {
        OpCode::dreturn
    }

    fn run(&self, codes: &[u8], pc: usize) -> (result: Result<
        (InstructionRecord, usize),
        DecodeError,
    >) {
        decode_as(OpCode::dreturn, codes, pc)
    }
}

#[derive(Clone, Copy, Debug)]
pub struct Fneg;

impl Instruction for Fneg {
    open spec fn op_code(&self) -> OpCode {
        OpCode::fneg
    }

    fn run(&self, codes: &[u8], pc: usize) -> (result: Result<
        (InstructionRecord, usize),
        DecodeError,
    >) {
        decode_as(OpCode::fneg, codes, pc)
    }
}

#[derive(Clone, Copy, Debug)]
pub struct Frem;

impl Instruction for Frem {
    open spec fn op_code(&self) -> OpCode {
        OpCode::frem
    }

    fn run(&self, codes: &[u8], pc: usize) -> (result: Result<
        (InstructionRecord, usize),
        DecodeError,
    >) {
        decode_as(OpCode::frem, codes, pc)
    }
}

#[derive(Clone, Copy, Debug)]
pub struct Fstore_2;

impl Instruction for Fstore_2 {
    open spec fn op_code(&self) -> OpCode {
        OpCode::fstore_2
    }

    fn run(&self, codes: &[u8], pc: usize) -> (result: Result<
        (InstructionRecord, usize),
        DecodeError,
    >) {
        decode_as(OpCode::fstore_2, codes, pc)
    }
}

#[derive(Clone, Copy, Debug)]
pub struct Fsub;

impl Instruction for Fsub {
    open spec fn op_code(&self) -> OpCode {
        OpCode::fsub
    }

    fn run(&self, codes: &[u8], pc: usize) -> (result: Result<
        (InstructionRecord, usize),
        DecodeError,
    >) {
        decode_as(OpCode::fsub, codes, pc)
    }
}

#[derive(Clone, Copy, Debug)]
pub struct Getstatic;

impl Instruction for Getstatic {
    open spec fn op_code(&self) -> OpCode {
        OpCode::getstatic
    }

    fn run(&self, codes: &[u8], pc: usize) -> (result: Result<
        (InstructionRecord, usize),
        DecodeError,
    >) {
        decode_as(OpCode::getstatic, codes, pc)
    }
}

#[derive(Clone, Copy, Debug)]
pub struct Idiv;

impl Instruction for Idiv {
    open spec fn op_code(&self) -> OpCode {
        OpCode::idiv
    }

    fn run(&self, codes: &[u8], pc: usize) -> (result: Result<
        (InstructionRecord, usize),
        DecodeError,
    >) {
        decode_as(OpCode::idiv, codes, pc)
    }
}

#[derive(Clone, Copy, Debug)]
pub struct If_Icmpeq;

impl Instruction for If_Icmpeq {
    open spec fn op_code(&self) -> OpCode {
        OpCode::if_icmpeq
    }

    fn run(&self, codes: &[u8], pc: usize) -> (result: Result<
        (InstructionRecord, usize),
        DecodeError,
    >) {
        decode_as(OpCode::if_icmpeq, codes, pc)
    }
}

#[derive(Clone, Copy, Debug)]
pub struct If_Icmple;

impl Instruction for If_Icmple {
    open spec fn op_code(&self) -> OpCode {
        OpCode::if_icmple
    }

    fn run(&self, codes: &[u8], pc: usize) -> (result: Result<
        (InstructionRecord, usize),
        DecodeError,
    >) {
        decode_as(OpCode::if_icmple, codes, pc)
    }
}

#[derive(Clone, Copy, Debug)]
pub struct Ifeq;

impl Instruction for Ifeq {
    open spec fn op_code(&self) -> OpCode {
        OpCode::ifeq
    }

    fn run(&self, codes: &[u8], pc: usize) -> (result: Result<
        (InstructionRecord, usize),
        DecodeError,
    >) {
        decode_as(OpCode::ifeq, codes, pc)
    }
}

#[derive(Clone, Copy, Debug)]
pub struct Ifne;

impl Instruction for Ifne {
    open spec fn op_code(&self) -> OpCode {
        OpCode::ifne
    }

    fn run(&self, codes: &[u8], pc: usize) -> (result: Result<
        (InstructionRecord, usize),
        DecodeError,
    >) {
        decode_as(OpCode::ifne, codes, pc)
    }
}

#[derive(Clone, Copy, Debug)]
pub struct Ifnull;

impl Instruction for Ifnull {
    open spec fn op_code(&self) -> OpCode {
        OpCode::ifnull
    }

    fn run(&self, codes: &[u8], pc: usize) -> (result: Result<
        (InstructionRecord, usize),
        DecodeError,
    >) {
        decode_as(OpCode::ifnull, codes, pc)
    }
}

#[derive(Clone, Copy, Debug)]
pub struct Iinc;

impl Instruction for Iinc {
    open spec fn op_code(&self) -> OpCode {
        OpCode::iinc
    }

    fn run(&self, codes: &[u8], pc: usize) -> (result: Result<
        (InstructionRecord, usize),
        DecodeError,
    >) {
        decode_as(OpCode::iinc, codes, pc)
    }
}

#[derive(Clone, Copy, Debug)]
pub struct Ior;

impl Instruction for Ior {
    open spec fn op_code(&self) -> OpCode {
        OpCode::ior
    }

    fn run(&self, codes: &[u8], pc: usize) -> (result: Result<
        (InstructionRecord, usize),
        DecodeError,
    >) {
        decode_as(OpCode::ior, codes, pc)
    }
}

#[derive(Clone, Copy, Debug)]
pub struct Isub;

impl Instruction for Isub {
    open spec fn op_code(&self) -> OpCode {
        OpCode::isub
    }

    fn run(&self, codes: &[u8], pc: usize) -> (result: Result<
        (InstructionRecord, usize),
        DecodeError,
    >) {
        decode_as(OpCode::isub, codes, pc)
    }
}

#[derive(Clone, Copy, Debug)]
pub struct Lastore;

impl Instruction for Lastore {
    open spec fn op_code(&self) -> OpCode {
        OpCode::lastore
    }

    fn run(&self, codes: &[u8], pc: usize) -> (result: Result<
        (InstructionRecord, usize),
        DecodeError,
    >) {
        decode_as(OpCode::lastore, codes, pc)
    }
}

#[derive(Clone, Copy, Debug)]
pub struct Ldc_W;

impl Instruction for Ldc_W {
    open spec fn op_code(&self) -> OpCode {
        OpCode::ldc_w
    }

    fn run(&self, codes: &[u8], pc: usize) -> (result: Result<
        (InstructionRecord, usize),
        DecodeError,
    >) {
        decode_as(OpCode::ldc_w, codes, pc)
    }
}

#[derive(Clone, Copy, Debug)]
pub struct Lreturn;

impl Instruction for Lreturn {
    open spec fn op_code(&self) -> OpCode {
        OpCode::lreturn
    }

    fn run(&self, codes: &[u8], pc: usize) -> (result: Result<
        (InstructionRecord, usize),
        DecodeError,
    >) {
        decode_as(OpCode::lreturn, codes, pc)
    }
}

#[derive(Clone, Copy, Debug)]
pub struct Pop;

impl Instruction for Pop {
    open spec fn op_code(&self) -> OpCode {
        OpCode::pop
    }

    fn run(&self, codes: &[u8], pc: usize) -> (result: Result<
        (InstructionRecord, usize),
        DecodeError,
    >) {
        decode_as(OpCode::pop, codes, pc)
    }
}

#[derive(Clone, Copy, Debug)]
pub struct Sipush;

impl Instruction for Sipush {
    open spec fn op_code(&self) -> OpCode {
        OpCode::sipush
    }

    fn run(&self, codes: &[u8], pc: usize) -> (result: Result<
        (InstructionRecord, usize),
        DecodeError,
    >) {
        decode_as(OpCode::sipush, codes, pc)
    }
}

#[derive(Clone, Copy, Debug)]
pub struct Wide;

impl Instruction for Wide {
    open spec fn op_code(&self) -> OpCode {
        OpCode::wide
    }

    fn run(&self, codes: &[u8], pc: usize) -> (result: Result<
        (InstructionRecord, usize),
        DecodeError,
    >) {
        decode_as(OpCode::wide, codes, pc)
    }
}

} // verus!
