//! The code of a method as a listing shows it: the bytes are decoded into
//! records, and each record is resolved on its own against the constant
//! pool of the class.

use crate::constant_pool::{Constant, ConstantPool};
use crate::decoder::{DecodeError, InstructionRecord, RecordView};
use crate::resolver::{
    operand_views, resolve, resolve_spec, ResolveError, ResolvedOperand, ResolvedOperandView,
};
use crate::stream::{build, stream_spec, StreamError};
use vstd::prelude::*;

verus! {

/// One instruction of a listing: the record, and its symbolic operands or
/// the reference that could not be resolved. The record is there in both
/// cases, so that its raw operands can be shown where the symbolic ones are
/// missing.
#[derive(Clone, Debug, PartialEq, Eq)]
pub struct ShownInstruction {
    pub record: InstructionRecord,
    pub operands: ShownOperands,
}

/// The operands of one instruction of a listing.
#[derive(Clone, Debug, PartialEq, Eq)]
pub enum ShownOperands {
    Resolved(Vec<ResolvedOperand>),
    Unresolved(ResolveError),
}

/// The code of one method in a listing: its instructions, or the failure
/// that ended its decoding.
#[derive(Clone, Debug, PartialEq, Eq)]
pub enum CodeListing {
    Decoded(Vec<ShownInstruction>),
    Failed(StreamError),
}

/// The mathematical value of a [`ShownInstruction`].
pub struct ShownInstructionView {
    pub record: RecordView,
    pub operands: Result<Seq<ResolvedOperandView>, ResolveError>,
}

impl View for ShownInstruction {
    type V = ShownInstructionView;

    open spec fn view(&self) -> ShownInstructionView {
        ShownInstructionView {
            record: self.record@,
            operands: match self.operands {
                ShownOperands::Resolved(operands) => Ok(operand_views(operands@)),
                ShownOperands::Unresolved(e) => Err(e),
            },
        }
    }
}

/// The values of a sequence of shown instructions.
pub open spec fn instruction_views(shown: Seq<ShownInstruction>) -> Seq<ShownInstructionView> {
    Seq::new(shown.len(), |i: int| shown[i]@)
}

impl View for CodeListing {
    type V = Result<Seq<ShownInstructionView>, (int, DecodeError)>;

    open spec fn view(&self) -> Result<Seq<ShownInstructionView>, (int, DecodeError)> {
        match *self {
            CodeListing::Decoded(shown) => Ok(instruction_views(shown@)),
            CodeListing::Failed(e) => Err((e.program_counter as int, e.kind)),
        }
    }
}

/// Each record with what resolving it against `pool` gives.
pub open spec fn shown_records(records: Seq<RecordView>, pool: Seq<Constant>) -> Seq<
    ShownInstructionView,
> {
    Seq::new(
        records.len(),
        |i: int|
            (ShownInstructionView { record: records[i], operands: resolve_spec(records[i], pool) }),
    )
}

/// The listing of a method body: the records that decoding the whole body
/// gives, each with its resolved operands; or, where the body does not
/// decode, the failure and the program counter at which it happened.
pub open spec fn listing_spec(code: Seq<u8>, pool: Seq<Constant>) -> Result<
    Seq<ShownInstructionView>,
    (int, DecodeError),
> {
    match stream_spec(code, 0) {
        Ok(records) => Ok(shown_records(records, pool)),
        Err(e) => Err(e),
    }
}

/// A method without code has an empty listing, whatever the pool holds.
pub proof fn lemma_empty_code_lists_nothing(code: Seq<u8>, pool: Seq<Constant>)
    requires
        code.len() == 0,
    ensures
        listing_spec(code, pool) == Ok::<Seq<ShownInstructionView>, (int, DecodeError)>(
            Seq::empty(),
        ),
{
    assert(shown_records(Seq::empty(), pool) =~= Seq::empty());
}

/// Lists the code of one method. The body is decoded as a whole; a decode
/// failure ends the listing of this method and is returned with its program
/// counter. Each record is then resolved on its own: a reference that
/// cannot be resolved is kept with its record and fails no other
/// instruction.
pub fn disassemble_code(code: &[u8], pool: &ConstantPool) -> (listing: CodeListing)
    ensures
        listing@ == listing_spec(code@, pool@),
        code@.len() == 0 ==> listing is Decoded && listing->Decoded_0@.len() == 0,
{
    let stream = match build(code) {
        Ok(stream) => stream,
        Err(e) => {
            return CodeListing::Failed(e);
        },
    };
    let mut shown: Vec<ShownInstruction> = Vec::new();
    let mut i: usize = 0;
    while i < stream.records.len()
        invariant
            i <= stream.records@.len(),
            shown@.len() == i,
            forall|k: int|
                0 <= k < stream@.len() ==> crate::decoder::well_formed_record(
                    #[trigger] stream@[k],
                ),
            forall|k: int|
                0 <= k < i ==> (#[trigger] shown@[k])@ == shown_records(stream@, pool@)[k],
        decreases stream.records@.len() - i,
    {
        let record: &InstructionRecord = &stream.records[i];
        assert(stream@[i as int] == record@);
        let instruction = match resolve(record, pool) {
            Ok(resolved) => ShownInstruction {
                record: resolved.record,
                operands: ShownOperands::Resolved(resolved.operands),
            },
            Err(e) => ShownInstruction {
                record: record.duplicate(),
                operands: ShownOperands::Unresolved(e),
            },
        };
        shown.push(instruction);
        i += 1;
    }
    assert(instruction_views(shown@) =~= shown_records(stream@, pool@));
    CodeListing::Decoded(shown)
}

} // verus!
