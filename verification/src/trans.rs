//! What a class file says of a class, as far as a listing is made from it.

use crate::bytes::{be_u16, read_u16};
use crate::constant_pool::ConstantPool;
use vstd::prelude::*;

verus! {

/// A field: its access flags, its declaration and the signature of its
/// type.
#[derive(Clone, Debug, PartialEq, Eq)]
pub struct FieldSummary {
    pub access_flags: u16,
    pub desc: String,
    pub signature: String,
}

/// One entry of a line-number table.
#[derive(Clone, Copy, Debug, PartialEq, Eq, Structural)]
pub struct LineNumber {
    pub start_pc: u16,
    pub number: u16,
}

/// The table that the bytes of a line-number attribute hold: a count of two
/// bytes, then for each entry two bytes of program counter and two bytes of
/// line number. `None` unless the bytes are exactly a count and that many
/// entries.
pub open spec fn line_table_spec(info: Seq<u8>) -> Option<Seq<LineNumber>> {
    if info.len() >= 2 && info.len() == 2 + 4 * be_u16(info, 0) {
        Some(
            Seq::new(
                be_u16(info, 0) as nat,
                |i: int|
                    (LineNumber {
                        start_pc: be_u16(info, 2 + 4 * i) as u16,
                        number: be_u16(info, 4 + 4 * i) as u16,
                    }),
            ),
        )
    } else {
        None
    }
}

/// Reads a line-number table from the bytes of its attribute.
pub fn line_numbers(info: &[u8]) -> (table: Option<Vec<LineNumber>>)
    ensures
        match table {
            Some(entries) => line_table_spec(info@) == Some(entries@),
            None => line_table_spec(info@) is None,
        },
{
    if info.len() < 2 {
        return None;
    }
    let count: usize = read_u16(info, 0) as usize;
    if (info.len() - 2) / 4 != count || (info.len() - 2) % 4 != 0 {
        return None;
    }
    let mut entries: Vec<LineNumber> = Vec::new();
    let mut i: usize = 0;
    while i < count
        invariant
            i <= count,
            info@.len() == 2 + 4 * count,
            count == be_u16(info@, 0),
            entries@.len() == i,
            forall|k: int|
                0 <= k < i ==> entries@[k] == #[trigger] line_table_spec(info@)->Some_0[k],
        decreases count - i,
    {
        entries.push(
            LineNumber { start_pc: read_u16(info, 2 + 4 * i), number: read_u16(info, 4 + 4 * i) },
        );
        i += 1;
    }
    assert(entries@ =~= line_table_spec(info@)->Some_0);
    Some(entries)
}

/// A method: its access flags, its declaration, its signature, its line
/// numbers, the limits of its frame and the bytes of its code.
#[derive(Clone, Debug, PartialEq, Eq)]
pub struct MethodSummary {
    pub access_flags: u16,
    pub desc: String,
    pub line_num_table: Vec<LineNumber>,
    pub max_stack: u16,
    pub max_locals: u16,
    pub code: Vec<u8>,
    pub signature: String,
}

/// A class: the modifiers and names of its head, its source file, its
/// constant pool and its members.
#[derive(Clone, Debug, PartialEq, Eq)]
pub struct ClassSummary {
    /// The modifiers and the keyword, as in `public final class`.
    pub access_flags: String,
    pub this_class: String,
    pub super_class: String,
    pub parent_interfaces: Vec<String>,
    pub is_interface: bool,
    pub is_enum: bool,
    pub source_file: String,
    pub constant_pool: ConstantPool,
    pub fields: Vec<FieldSummary>,
    pub methods: Vec<MethodSummary>,
}

} // verus!
