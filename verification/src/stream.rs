//! Decoding of a whole method body: the decoder is run from offset zero to
//! the end of the buffer, and the records it gives tile the buffer without
//! gap or overlap.

use crate::decoder::{
    decode, decode_spec, lemma_decode_advances, well_formed_record, DecodeError,
    InstructionRecord, RecordView,
};
use vstd::prelude::*;

verus! {

/// The instructions of one method body, in the order of their program
/// counters.
#[derive(Clone, Debug, PartialEq, Eq)]
pub struct InstructionStream {
    pub records: Vec<InstructionRecord>,
}

impl View for InstructionStream {
    type V = Seq<RecordView>;

    open spec fn view(&self) -> Seq<RecordView> {
        Seq::new(self.records@.len(), |i: int| self.records@[i]@)
    }
}

/// A decode failure and the program counter of the instruction at which it
/// happened.
#[derive(Clone, Copy, Debug, PartialEq, Eq, Structural)]
pub struct StreamError {
    pub program_counter: usize,
    pub kind: DecodeError,
}

/// `prefix` followed by what `rest` holds, or the failure of `rest`.
pub open spec fn prepend(prefix: Seq<RecordView>, rest: Result<Seq<RecordView>, (int, DecodeError)>)
    -> Result<Seq<RecordView>, (int, DecodeError)> {
    match rest {
        Ok(records) => Ok(prefix + records),
        Err(e) => Err(e),
    }
}

/// What decoding `code` from `pc` to its end gives: the records in order,
/// or the first failure with the program counter at which it happened.
pub open spec fn stream_spec(code: Seq<u8>, pc: int) -> Result<Seq<RecordView>, (int, DecodeError)>
    decreases code.len() - pc,
{
    if pc == code.len() {
        Ok(Seq::empty())
    } else {
        match decode_spec(code, pc) {
            Err(e) => Err((pc, e)),
            Ok(record) => if record.end() <= pc || record.end() > code.len() {
                Err((pc, DecodeError::StreamDesyncInvariant))
            } else {
                prepend(seq![record], stream_spec(code, record.end()))
            },
        }
    }
}

/// The records tile the bytes from `start` to `end`: the first begins at
/// `start`, each has at least one byte and ends where the next begins, and
/// the last ends at `end`. Without records, `start` is `end`.
pub open spec fn covers(records: Seq<RecordView>, start: int, end: int) -> bool {
    &&& records.len() == 0 ==> start == end
    &&& records.len() > 0 ==> records[0].program_counter == start && records.last().end() == end
    &&& forall|i: int| 0 <= i < records.len() ==> (#[trigger] records[i]).byte_length >= 1
    &&& forall|i: int, j: int|
        0 <= i && j == i + 1 && j < records.len() ==> (#[trigger] records[i]).end() == (
        #[trigger] records[j]).program_counter
}

/// The sum of the byte lengths of the records.
pub open spec fn total_length(records: Seq<RecordView>) -> int
    decreases records.len(),
{
    if records.len() == 0 {
        0
    } else {
        records[0].byte_length + total_length(records.drop_first())
    }
}

/// Whether `result` is what building the stream of `code` must return.
pub open spec fn built(result: Result<InstructionStream, StreamError>, code: Seq<u8>) -> bool {
    match result {
        Ok(stream) => stream_spec(code, 0) == Ok::<Seq<RecordView>, (int, DecodeError)>(stream@),
        Err(e) => stream_spec(code, 0) == Err::<Seq<RecordView>, (int, DecodeError)>(
            (e.program_counter as int, e.kind),
        ),
    }
}

/// A stream that decodes tiles its buffer, and the byte lengths of its
/// records add up to the bytes decoded.
pub proof fn lemma_stream_covers(code: Seq<u8>, pc: int)
    requires
        0 <= pc <= code.len(),
    ensures
        match stream_spec(code, pc) {
            Ok(records) => covers(records, pc, code.len() as int) && total_length(records)
                == code.len() - pc,
            Err((at, e)) => pc <= at < code.len() && e != DecodeError::StreamDesyncInvariant,
        },
    decreases code.len() - pc,
{
    if pc < code.len() {
        lemma_decode_advances(code, pc);
        if let Ok(record) = decode_spec(code, pc) {
            lemma_stream_covers(code, record.end());
            if let Ok(rest) = stream_spec(code, record.end()) {
                let all = seq![record] + rest;
                assert(all.drop_first() =~= rest);
                assert(all[0] == record);
                assert forall|i: int, j: int| 0 <= i && j == i + 1 && j < all.len() implies (
                #[trigger] all[i]).end() == (#[trigger] all[j]).program_counter by {
                    if i > 0 {
                        assert(all[i] == rest[i - 1]);
                        assert(all[j] == rest[j - 1]);
                    } else {
                        assert(all[1] == rest[0]);
                    }
                }
                assert forall|i: int| 0 <= i < all.len() implies (#[trigger] all[i]).byte_length
                    >= 1 by {
                    if i > 0 {
                        assert(all[i] == rest[i - 1]);
                    }
                }
                if rest.len() > 0 {
                    assert(all.last() == rest.last());
                }
            }
        }
    }
}

/// In a whole method body the byte lengths of the decoded records add up
/// to the length of the code buffer.
pub proof fn lemma_lengths_sum_to_code_length(code: Seq<u8>, records: Seq<RecordView>)
    requires
        stream_spec(code, 0) == Ok::<Seq<RecordView>, (int, DecodeError)>(records),
    ensures
        total_length(records) == code.len(),
{
    lemma_stream_covers(code, 0);
}

/// Program counters rise strictly along a tiling.
pub proof fn lemma_covers_increasing(records: Seq<RecordView>, start: int, end: int, i: int, j: int)
    requires
        covers(records, start, end),
        0 <= i < j < records.len(),
    ensures
        records[i].program_counter < records[j].program_counter,
    decreases j - i,
{
    if i + 1 < j {
        lemma_covers_increasing(records, start, end, i + 1, j);
    }
    let next = i + 1;
    assert(records[i].end() == records[next].program_counter);
}

/// In a whole method body the program counters rise strictly from zero,
/// each record ends where the next begins, and the last ends with the
/// buffer.
pub proof fn lemma_program_counters_increase(code: Seq<u8>, records: Seq<RecordView>)
    requires
        stream_spec(code, 0) == Ok::<Seq<RecordView>, (int, DecodeError)>(records),
    ensures
        forall|i: int, j: int|
            0 <= i < j < records.len() ==> (#[trigger] records[i]).program_counter < (
            #[trigger] records[j]).program_counter,
        forall|i: int, j: int|
            0 <= i && j == i + 1 && j < records.len() ==> (#[trigger] records[i]).end() == (
            #[trigger] records[j]).program_counter,
        records.len() > 0 ==> records[0].program_counter == 0 && records.last().end() == code.len(),
        records.len() == 0 <==> code.len() == 0,
{
    lemma_stream_covers(code, 0);
    assert forall|i: int, j: int| 0 <= i < j < records.len() implies (
    #[trigger] records[i]).program_counter < (#[trigger] records[j]).program_counter by {
        lemma_covers_increasing(records, 0, code.len() as int, i, j);
    }
    if code.len() == 0 {
        assert(records.len() == 0);
    }
}

/// Building twice from the same code gives the same outcome: the same
/// records, or the same failure at the same program counter.
pub proof fn lemma_build_deterministic(
    code: Seq<u8>,
    first: Result<InstructionStream, StreamError>,
    second: Result<InstructionStream, StreamError>,
)
    requires
        built(first, code),
        built(second, code),
    ensures
        first is Ok <==> second is Ok,
        first is Ok ==> first->Ok_0@ == second->Ok_0@,
        first is Err ==> first->Err_0 == second->Err_0,
{
}

/// Decodes a whole method body. The decoder starts at offset zero and goes
/// on at the end of each record until it stands at the end of the buffer.
/// The first failure ends the work and is returned with the program counter
/// of the instruction that failed. An empty buffer gives an empty stream.
pub fn build(code: &[u8]) -> (result: Result<InstructionStream, StreamError>)
    ensures
        built(result, code@),
        result is Ok ==> covers(result->Ok_0@, 0, code@.len() as int) && total_length(
            result->Ok_0@,
        ) == code@.len(),
        code@.len() == 0 ==> result is Ok && result->Ok_0@.len() == 0,
        result is Err ==> result->Err_0.program_counter < code@.len() && result->Err_0.kind
            != DecodeError::StreamDesyncInvariant,
        result is Ok ==> forall|i: int|
            0 <= i < result->Ok_0@.len() ==> well_formed_record(#[trigger] result->Ok_0@[i]),
{
    let mut records: Vec<InstructionRecord> = Vec::new();
    let mut pc: usize = 0;
    proof {
        lemma_stream_covers(code@, 0);
        assert(Seq::<RecordView>::empty() + stream_spec(code@, 0)->Ok_0 =~= stream_spec(
            code@,
            0,
        )->Ok_0);
    }
    while pc < code.len()
        invariant
            pc <= code.len(),
            forall|i: int| 0 <= i < records@.len() ==> well_formed_record(#[trigger] records@[i]@),
            stream_spec(code@, 0) == prepend(
                Seq::new(records@.len(), |i: int| records@[i]@),
                stream_spec(code@, pc as int),
            ),
        decreases code.len() - pc,
    {
        let ghost done = Seq::new(records@.len(), |i: int| records@[i]@);
        proof {
            lemma_decode_advances(code@, pc as int);
        }
        match decode(code, pc) {
            Err(kind) => {
                return Err(StreamError { program_counter: pc, kind });
            },
            Ok((record, next_pc)) => {
                if next_pc <= pc || next_pc > code.len() {
                    return Err(
                        StreamError {
                            program_counter: pc,
                            kind: DecodeError::StreamDesyncInvariant,
                        },
                    );
                }
                proof {
                    let rest = stream_spec(code@, next_pc as int);
                    let now = Seq::new(records@.len() + 1, |i: int| records@.push(record)[i]@);
                    assert(now =~= done + seq![record@]);
                    if let Ok(tail) = rest {
                        assert(done + (seq![record@] + tail) =~= now + tail);
                    }
                }
                records.push(record);
                pc = next_pc;
            },
        }
    }
    proof {
        let done = Seq::new(records@.len(), |i: int| records@[i]@);
        assert(done + Seq::<RecordView>::empty() =~= done);
    }
    Ok(InstructionStream { records })
}

} // verus!
