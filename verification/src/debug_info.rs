//! Debug metadata of a method. It adds names to a listing and is never
//! needed to decode or resolve one.

use vstd::prelude::*;

verus! {

/// One entry of a local-variable table: the variable in slot `index` has
/// this name and type while the program counter is at least `start_pc` and
/// less than `start_pc + length`.
#[derive(Clone, Debug, PartialEq, Eq)]
pub struct LocalVariable {
    pub start_pc: u16,
    pub length: u16,
    pub name: Vec<u8>,
    pub descriptor: Vec<u8>,
    pub index: u16,
}

/// Whether the entry declares the variable that is in `slot` at `pc`.
pub open spec fn declares(entry: LocalVariable, slot: u16, pc: int) -> bool {
    entry.index == slot && entry.start_pc <= pc < entry.start_pc + entry.length
}

/// The first entry of a local-variable table that declares the variable in
/// `slot` at `pc`, by its position in the table; `None` if no entry does.
pub fn find_local(table: &[LocalVariable], slot: u16, pc: usize) -> (found: Option<usize>)
    ensures
        match found {
            Some(i) => i < table@.len() && declares(table@[i as int], slot, pc as int) && forall|
                k: int,
            | 0 <= k < i ==> !declares(#[trigger] table@[k], slot, pc as int),
            None => forall|k: int|
                0 <= k < table@.len() ==> !declares(#[trigger] table@[k], slot, pc as int),
        },
{
    let mut i: usize = 0;
    while i < table.len()
        invariant
            i <= table@.len(),
            forall|k: int| 0 <= k < i ==> !declares(#[trigger] table@[k], slot, pc as int),
        decreases table@.len() - i,
    {
        let entry: &LocalVariable = &table[i];
        let start: usize = entry.start_pc as usize;
        if entry.index == slot && start <= pc && pc - start < entry.length as usize {
            return Some(i);
        }
        i += 1;
    }
    None
}

} // verus!
