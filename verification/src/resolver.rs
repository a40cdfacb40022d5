//! Symbolic resolution: the raw operands of a decoded instruction are
//! replaced by what they refer to. Constant-pool indices become names,
//! descriptors and literals; branch distances become absolute program
//! counters; switch tables become mappings in ascending order of their
//! match values.

use crate::constant_pool::{
    class_name_at, in_pool, member_ref_at, name_and_type_at, utf8_at, Constant, ConstantPool,
};
use crate::decoder::{
    well_formed_record, InstructionRecord, Operands, OperandsView, RecordView,
};
use crate::opcode::OpCode;
use crate::stream::InstructionStream;
use crate::text::{decimal, decimal_text, dotted, dotted_text, push_bytes, push_decimal, quoted, quoted_text};
use vstd::prelude::*;

verus! {

/// What kind of thing a symbolic name refers to.
#[derive(Clone, Copy, Debug, PartialEq, Eq, Structural)]
pub enum SymbolKind {
    Class,
    Field,
    Method,
    InterfaceMethod,
    MethodHandle,
    MethodType,
    Dynamic,
    InvokeDynamic,
}

/// The symbolic form of one operand.
#[derive(Clone, Debug, PartialEq, Eq)]
pub enum ResolvedOperand {
    /// A name from the constant pool. A class is written with dots; a
    /// member as `package/Class.member:descriptor`.
    Symbol { kind: SymbolKind, text: Vec<u8> },
    /// An integer in decimal, or a string constant escaped and quoted.
    Literal(Vec<u8>),
    /// A single-precision constant, by its bit pattern.
    FloatLiteral(u32),
    /// A double-precision constant, by its bit pattern.
    DoubleLiteral(u64),
    /// The program counter that a branch leads to.
    BranchTarget(i128),
    LocalSlot(u16),
    /// The targets of a switch: `cases` pairs each match value with its
    /// target, in ascending order of the match values.
    Switch { default_target: i128, cases: Vec<(i32, i128)> },
}

/// The mathematical value of a [`ResolvedOperand`].
pub enum ResolvedOperandView {
    Symbol { kind: SymbolKind, text: Seq<u8> },
    Literal(Seq<u8>),
    FloatLiteral(u32),
    DoubleLiteral(u64),
    BranchTarget(i128),
    LocalSlot(u16),
    Switch { default_target: i128, cases: Seq<(i32, i128)> },
}

impl View for ResolvedOperand {
    type V = ResolvedOperandView;

    open spec fn view(&self) -> ResolvedOperandView {
        match *self {
            ResolvedOperand::Symbol { kind, text } => ResolvedOperandView::Symbol {
                kind,
                text: text@,
            },
            ResolvedOperand::Literal(text) => ResolvedOperandView::Literal(text@),
            ResolvedOperand::FloatLiteral(bits) => ResolvedOperandView::FloatLiteral(bits),
            ResolvedOperand::DoubleLiteral(bits) => ResolvedOperandView::DoubleLiteral(bits),
            ResolvedOperand::BranchTarget(target) => ResolvedOperandView::BranchTarget(target),
            ResolvedOperand::LocalSlot(slot) => ResolvedOperandView::LocalSlot(slot),
            ResolvedOperand::Switch { default_target, cases } => ResolvedOperandView::Switch {
                default_target,
                cases: cases@,
            },
        }
    }
}

/// A symbolic operand could not be made.
#[derive(Clone, Copy, Debug, PartialEq, Eq, Structural)]
pub enum ResolveError {
    /// The index lies outside the pool, or the entry there, or one that it
    /// leads to, is not of a kind that the instruction can take.
    InvalidConstantPoolReference { index: u16 },
}

/// A decoded instruction with the symbolic forms of its operands, in the
/// order of the operands.
#[derive(Clone, Debug, PartialEq, Eq)]
pub struct ResolvedInstruction {
    pub record: InstructionRecord,
    pub operands: Vec<ResolvedOperand>,
}

/// The mathematical value of a [`ResolvedInstruction`].
pub struct ResolvedView {
    pub record: RecordView,
    pub operands: Seq<ResolvedOperandView>,
}

/// The values of a sequence of operands.
pub open spec fn operand_views(operands: Seq<ResolvedOperand>) -> Seq<ResolvedOperandView> {
    Seq::new(operands.len(), |i: int| operands[i]@)
}

impl View for ResolvedInstruction {
    type V = ResolvedView;

    open spec fn view(&self) -> ResolvedView {
        ResolvedView { record: self.record@, operands: operand_views(self.operands@) }
    }
}

/// Whether an instruction can take a constant of this kind as its operand.
pub open spec fn accepts(op: OpCode, constant: Constant) -> bool {
    match constant {
        Constant::Integer(_) | Constant::Float(_) | Constant::StringRef { .. }
        | Constant::MethodHandle { .. } | Constant::MethodType { .. } => op == OpCode::ldc || op
            == OpCode::ldc_w,
        Constant::Long(_) | Constant::Double(_) => op == OpCode::ldc2_w,
        Constant::Dynamic { .. } => op == OpCode::ldc || op == OpCode::ldc_w || op
            == OpCode::ldc2_w,
        Constant::ClassRef { .. } => op == OpCode::ldc || op == OpCode::ldc_w || op == OpCode::new
            || op == OpCode::anewarray || op == OpCode::checkcast || op == OpCode::instanceof || op
            == OpCode::multianewarray,
        Constant::FieldRef { .. } => op == OpCode::getstatic || op == OpCode::putstatic || op
            == OpCode::getfield || op == OpCode::putfield,
        Constant::MethodRef { .. } => op == OpCode::invokevirtual || op == OpCode::invokespecial
            || op == OpCode::invokestatic,
        Constant::InterfaceMethodRef { .. } => op == OpCode::invokeinterface || op
            == OpCode::invokespecial || op == OpCode::invokestatic,
        Constant::InvokeDynamic { .. } => op == OpCode::invokedynamic,
        _ => false,
    }
}

/// A symbol of the given kind, where there is a text for it.
pub open spec fn symbol(kind: SymbolKind, text: Option<Seq<u8>>) -> Option<ResolvedOperandView> {
    match text {
        Some(text) => Some(ResolvedOperandView::Symbol { kind, text }),
        None => None,
    }
}

/// A call site or constant that is computed at run time: `#`, the index of
/// its bootstrap method, and behind a colon each its name and descriptor.
pub open spec fn dynamic_text(bootstrap_index: u16, name: Seq<u8>, descriptor: Seq<u8>) -> Seq<u8> {
    seq![35u8] + decimal(bootstrap_index as int) + seq![58u8] + name + seq![58u8] + descriptor
}

/// The text of a dynamic entry with the given bootstrap index whose name
/// and descriptor stand at `name_and_type_index`.
pub open spec fn dynamic_at(pool: Seq<Constant>, bootstrap_index: u16, name_and_type_index: int)
    -> Option<Seq<u8>> {
    match name_and_type_at(pool, name_and_type_index) {
        Some((name, descriptor)) => Some(dynamic_text(bootstrap_index, name, descriptor)),
        None => None,
    }
}

/// The text of a method handle: its kind in decimal, a colon, and the
/// member that it refers to.
pub open spec fn handle_at(pool: Seq<Constant>, reference_kind: u8, reference_index: int)
    -> Option<Seq<u8>> {
    match member_ref_at(pool, reference_index) {
        Some(member) => Some(decimal(reference_kind as int) + seq![58u8] + member),
        None => None,
    }
}

/// The symbolic form of the pool entry at `index`; `None` where the index
/// is outside the pool, where the entry has no symbolic form of its own, or
/// where an entry that it leads to is missing or of the wrong kind.
pub open spec fn rendered(pool: Seq<Constant>, index: int) -> Option<ResolvedOperandView> {
    if !in_pool(pool, index) {
        None
    } else {
        match pool[index] {
            Constant::Integer(value) => Some(ResolvedOperandView::Literal(decimal(value as int))),
            Constant::Long(value) => Some(ResolvedOperandView::Literal(decimal(value as int))),
            Constant::Float(bits) => Some(ResolvedOperandView::FloatLiteral(bits)),
            Constant::Double(bits) => Some(ResolvedOperandView::DoubleLiteral(bits)),
            Constant::StringRef { string_index } => match utf8_at(pool, string_index as int) {
                Some(text) => Some(ResolvedOperandView::Literal(quoted(text))),
                None => None,
            },
            Constant::ClassRef { name_index } => match utf8_at(pool, name_index as int) {
                Some(name) => Some(
                    ResolvedOperandView::Symbol { kind: SymbolKind::Class, text: dotted(name) },
                ),
                None => None,
            },
            Constant::FieldRef { .. } => symbol(SymbolKind::Field, member_ref_at(pool, index)),
            Constant::MethodRef { .. } => symbol(SymbolKind::Method, member_ref_at(pool, index)),
            Constant::InterfaceMethodRef { .. } => symbol(
                SymbolKind::InterfaceMethod,
                member_ref_at(pool, index),
            ),
            Constant::MethodType { descriptor_index } => symbol(
                SymbolKind::MethodType,
                utf8_at(pool, descriptor_index as int),
            ),
            Constant::MethodHandle { reference_kind, reference_index } => symbol(
                SymbolKind::MethodHandle,
                handle_at(pool, reference_kind, reference_index as int),
            ),
            Constant::Dynamic { bootstrap_index, name_and_type_index } => symbol(
                SymbolKind::Dynamic,
                dynamic_at(pool, bootstrap_index, name_and_type_index as int),
            ),
            Constant::InvokeDynamic { bootstrap_index, name_and_type_index } => symbol(
                SymbolKind::InvokeDynamic,
                dynamic_at(pool, bootstrap_index, name_and_type_index as int),
            ),
            _ => None,
        }
    }
}

/// The symbolic form of the constant at `index` as the operand of `op`:
/// that of the entry, where the instruction can take an entry of its kind.
pub open spec fn constant_operand(op: OpCode, pool: Seq<Constant>, index: u16) -> Result<
    ResolvedOperandView,
    ResolveError,
> {
    if in_pool(pool, index as int) && accepts(op, pool[index as int]) && rendered(
        pool,
        index as int,
    ) is Some {
        Ok(rendered(pool, index as int)->Some_0)
    } else {
        Err(ResolveError::InvalidConstantPoolReference { index })
    }
}

/// `sorted` with `item` put behind the last entry whose match value is not
/// greater than its own.
pub open spec fn insert_by_key(sorted: Seq<(i32, i128)>, item: (i32, i128)) -> Seq<(i32, i128)>
    decreases sorted.len(),
{
    if sorted.len() == 0 {
        seq![item]
    } else if sorted.last().0 <= item.0 {
        sorted.push(item)
    } else {
        insert_by_key(sorted.drop_last(), item).push(sorted.last())
    }
}

/// The entries in ascending order of their match values; entries with the
/// same match value keep their order.
pub open spec fn sorted_by_key(items: Seq<(i32, i128)>) -> Seq<(i32, i128)>
    decreases items.len(),
{
    if items.len() == 0 {
        Seq::empty()
    } else {
        insert_by_key(sorted_by_key(items.drop_last()), items.last())
    }
}

/// Whether the match values never fall along the sequence.
pub open spec fn ascending(items: Seq<(i32, i128)>) -> bool {
    forall|i: int, j: int| 0 <= i < j < items.len() ==> items[i].0 <= items[j].0
}

/// Whether the match values of a lookup switch rise strictly, as a well
/// formed class file has them.
pub open spec fn strictly_ascending(pairs: Seq<(i32, i32)>) -> bool {
    forall|i: int, j: int| 0 <= i < j < pairs.len() ==> pairs[i].0 < pairs[j].0
}

/// The absolute target of a branch of `offset` bytes from `pc`.
pub open spec fn target_of(pc: int, offset: i32) -> i128 {
    (pc + offset) as i128
}

/// The cases of a table switch: one for each value from `low` upwards.
pub open spec fn table_cases(pc: int, low: i32, offsets: Seq<i32>) -> Seq<(i32, i128)> {
    Seq::new(offsets.len(), |i: int| ((low + i) as i32, target_of(pc, offsets[i])))
}

/// The pairs of a lookup switch with absolute targets, in encoded order.
pub open spec fn lookup_cases(pc: int, pairs: Seq<(i32, i32)>) -> Seq<(i32, i128)> {
    Seq::new(pairs.len(), |i: int| (pairs[i].0, target_of(pc, pairs[i].1)))
}

/// The symbolic operands of a record, or the reference that has none.
pub open spec fn resolve_spec(record: RecordView, pool: Seq<Constant>) -> Result<
    Seq<ResolvedOperandView>,
    ResolveError,
> {
    let pc = record.program_counter;
    match record.raw_operands {
        OperandsView::Absent => Ok(Seq::empty()),
        OperandsView::LocalSlot(slot) => Ok(seq![ResolvedOperandView::LocalSlot(slot)]),
        OperandsView::ConstantPoolIndex(index) => match constant_operand(
            record.opcode,
            pool,
            index,
        ) {
            Ok(operand) => Ok(seq![operand]),
            Err(e) => Err(e),
        },
        OperandsView::BranchOffset(offset) => Ok(
            seq![ResolvedOperandView::BranchTarget(target_of(pc, offset))],
        ),
        OperandsView::Immediate(value) => Ok(
            seq![ResolvedOperandView::Literal(decimal(value as int))],
        ),
        OperandsView::Increment { slot, delta } => Ok(
            seq![
                ResolvedOperandView::LocalSlot(slot),
                ResolvedOperandView::Literal(decimal(delta as int)),
            ],
        ),
        OperandsView::InterfaceCall { index, count, reserved } => match constant_operand(
            record.opcode,
            pool,
            index,
        ) {
            Ok(operand) => Ok(seq![operand, ResolvedOperandView::Literal(decimal(count as int))]),
            Err(e) => Err(e),
        },
        OperandsView::DynamicCall { index, reserved_pair } => match constant_operand(
            record.opcode,
            pool,
            index,
        ) {
            Ok(operand) => Ok(seq![operand]),
            Err(e) => Err(e),
        },
        OperandsView::ArrayDimensions { index, dimensions } => match constant_operand(
            record.opcode,
            pool,
            index,
        ) {
            Ok(operand) => Ok(
                seq![operand, ResolvedOperandView::Literal(decimal(dimensions as int))],
            ),
            Err(e) => Err(e),
        },
        OperandsView::TableSwitch { default, low, high, offsets } => Ok(
            seq![
                ResolvedOperandView::Switch {
                    default_target: target_of(pc, default),
                    cases: table_cases(pc, low, offsets),
                },
            ],
        ),
        OperandsView::LookupSwitch { default, pairs } => Ok(
            seq![
                ResolvedOperandView::Switch {
                    default_target: target_of(pc, default),
                    cases: sorted_by_key(lookup_cases(pc, pairs)),
                },
            ],
        ),
    }
}

/// Whether `result` is what resolving `record` against `pool` must return.
pub open spec fn resolved(
    result: Result<ResolvedInstruction, ResolveError>,
    record: RecordView,
    pool: Seq<Constant>,
) -> bool {
    match result {
        Ok(instruction) => instruction@.record == record && resolve_spec(record, pool) == Ok::<
            Seq<ResolvedOperandView>,
            ResolveError,
        >(instruction@.operands),
        Err(e) => resolve_spec(record, pool) == Err::<Seq<ResolvedOperandView>, ResolveError>(e),
    }
}

/// Inserting at the place where the greater match values begin is what
/// [`insert_by_key`] does.
proof fn lemma_insert_position(sorted: Seq<(i32, i128)>, item: (i32, i128), at: int)
    requires
        0 <= at <= sorted.len(),
        forall|k: int| at <= k < sorted.len() ==> sorted[k].0 > item.0,
        at > 0 ==> sorted[at - 1].0 <= item.0,
    ensures
        insert_by_key(sorted, item) == sorted.insert(at, item),
    decreases sorted.len(),
{
    if sorted.len() == 0 {
        assert(sorted.insert(at, item) =~= seq![item]);
    } else if at == sorted.len() {
        assert(sorted.insert(at, item) =~= sorted.push(item));
    } else {
        lemma_insert_position(sorted.drop_last(), item, at);
        assert(sorted.drop_last().insert(at, item).push(sorted.last()) =~= sorted.insert(
            at,
            item,
        ));
    }
}

/// Putting an entry into an ascending sequence keeps it ascending, adds
/// that entry and nothing else, and moves no other entry past another.
pub proof fn lemma_insert_by_key(sorted: Seq<(i32, i128)>, item: (i32, i128))
    requires
        ascending(sorted),
    ensures
        ascending(insert_by_key(sorted, item)),
        insert_by_key(sorted, item).len() == sorted.len() + 1,
        insert_by_key(sorted, item).to_multiset() == sorted.to_multiset().insert(item),
        forall|i: int|
            0 <= i < insert_by_key(sorted, item).len() ==> #[trigger] insert_by_key(sorted, item)[i]
                == item || sorted.contains(insert_by_key(sorted, item)[i]),
    decreases sorted.len(),
{
    let result = insert_by_key(sorted, item);
    if sorted.len() == 0 {
        assert(sorted =~= Seq::empty());
        vstd::seq_lib::to_multiset_build(sorted, item);
        assert(result =~= sorted.push(item));
    } else if sorted.last().0 <= item.0 {
        vstd::seq_lib::to_multiset_build(sorted, item);
        assert forall|i: int| 0 <= i < result.len() implies #[trigger] result[i] == item
            || sorted.contains(result[i]) by {
            if i < sorted.len() {
                assert(sorted[i] == result[i]);
            }
        }
    } else {
        let front = sorted.drop_last();
        let inner = insert_by_key(front, item);
        lemma_insert_by_key(front, item);
        vstd::seq_lib::to_multiset_build(inner, sorted.last());
        vstd::seq_lib::to_multiset_build(front, sorted.last());
        assert(front.push(sorted.last()) =~= sorted);
        assert(result.to_multiset() =~= sorted.to_multiset().insert(item));
        assert forall|i: int| 0 <= i < result.len() implies #[trigger] result[i] == item
            || sorted.contains(result[i]) by {
            if i < inner.len() {
                assert(result[i] == inner[i]);
                if inner[i] != item {
                    let k = choose|k: int| 0 <= k < front.len() && front[k] == inner[i];
                    assert(sorted[k] == inner[i]);
                }
            } else {
                assert(result[i] == sorted[sorted.len() - 1]);
            }
        }
        assert forall|i: int, j: int| 0 <= i < j < result.len() implies result[i].0
            <= result[j].0 by {
            if j < inner.len() {
                assert(result[i] == inner[i] && result[j] == inner[j]);
            } else {
                assert(result[i] == inner[i]);
                if inner[i] != item {
                    let k = choose|k: int| 0 <= k < front.len() && front[k] == inner[i];
                    assert(sorted[k].0 <= sorted[sorted.len() - 1].0);
                }
            }
        }
    }
}

/// The order that a switch is shown in: ascending in the match values, with
/// exactly the entries that were given.
pub proof fn lemma_sorted_by_key(items: Seq<(i32, i128)>)
    ensures
        ascending(sorted_by_key(items)),
        sorted_by_key(items).len() == items.len(),
        sorted_by_key(items).to_multiset() == items.to_multiset(),
    decreases items.len(),
{
    if items.len() == 0 {
        assert(items =~= Seq::empty());
    } else {
        let front = items.drop_last();
        lemma_sorted_by_key(front);
        lemma_insert_by_key(sorted_by_key(front), items.last());
        vstd::seq_lib::to_multiset_build(front, items.last());
        assert(front.push(items.last()) =~= items);
    }
}

/// The cases of a table switch are as many as its branch distances and
/// ascend strictly from `low`.
pub proof fn lemma_table_cases_ascending(pc: int, low: i32, high: i32, offsets: Seq<i32>)
    requires
        low <= high,
        offsets.len() == high - low + 1,
    ensures
        table_cases(pc, low, offsets).len() == offsets.len(),
        forall|i: int|
            0 <= i < offsets.len() ==> (#[trigger] table_cases(pc, low, offsets)[i]).0 == low + i,
        ascending(table_cases(pc, low, offsets)),
{
}

/// Resolving twice against the same record and pool gives the same
/// outcome.
pub proof fn lemma_resolve_deterministic(
    record: RecordView,
    pool: Seq<Constant>,
    first: Result<ResolvedInstruction, ResolveError>,
    second: Result<ResolvedInstruction, ResolveError>,
)
    requires
        resolved(first, record, pool),
        resolved(second, record, pool),
    ensures
        first is Ok <==> second is Ok,
        first is Ok ==> first->Ok_0@ == second->Ok_0@,
        first is Err ==> first->Err_0 == second->Err_0,
{
}

/// A reference to a method resolves to the name of the owning class, a
/// dot, the name of the method, a colon and its descriptor, in this order.
pub proof fn lemma_method_reference_text(
    pool: Seq<Constant>,
    index: int,
    class: Seq<u8>,
    name: Seq<u8>,
    descriptor: Seq<u8>,
)
    requires
        in_pool(pool, index),
        pool[index] is MethodRef,
        class_name_at(pool, pool[index]->MethodRef_class_index as int) == Some(class),
        name_and_type_at(pool, pool[index]->MethodRef_name_and_type_index as int) == Some(
            (name, descriptor),
        ),
    ensures
        rendered(pool, index) == Some(
            ResolvedOperandView::Symbol {
                kind: SymbolKind::Method,
                text: class + seq![46u8] + name + seq![58u8] + descriptor,
            },
        ),
{
}

/// Whether the instruction can take the constant as its operand.
fn accepts_constant(op: OpCode, constant: &Constant) -> (yes: bool)
    ensures
        yes == accepts(op, *constant),
{
    match constant {
        Constant::Integer(_) | Constant::Float(_) | Constant::StringRef { .. }
        | Constant::MethodHandle { .. } | Constant::MethodType { .. } => op == OpCode::ldc || op
            == OpCode::ldc_w,
        Constant::Long(_) | Constant::Double(_) => op == OpCode::ldc2_w,
        Constant::Dynamic { .. } => op == OpCode::ldc || op == OpCode::ldc_w || op
            == OpCode::ldc2_w,
        Constant::ClassRef { .. } => op == OpCode::ldc || op == OpCode::ldc_w || op == OpCode::new
            || op == OpCode::anewarray || op == OpCode::checkcast || op == OpCode::instanceof || op
            == OpCode::multianewarray,
        Constant::FieldRef { .. } => op == OpCode::getstatic || op == OpCode::putstatic || op
            == OpCode::getfield || op == OpCode::putfield,
        Constant::MethodRef { .. } => op == OpCode::invokevirtual || op == OpCode::invokespecial
            || op == OpCode::invokestatic,
        Constant::InterfaceMethodRef { .. } => op == OpCode::invokeinterface || op
            == OpCode::invokespecial || op == OpCode::invokestatic,
        Constant::InvokeDynamic { .. } => op == OpCode::invokedynamic,
        _ => false,
    }
}

/// A symbol of the given kind, where there is a text for it.
fn symbol_of(kind: SymbolKind, text: Option<Vec<u8>>) -> (operand: Option<ResolvedOperand>)
    ensures
        operand is Some == text is Some,
        operand is Some ==> operand->Some_0@ == (ResolvedOperandView::Symbol {
            kind,
            text: text->Some_0@,
        }),
{
    match text {
        Some(text) => Some(ResolvedOperand::Symbol { kind, text }),
        None => None,
    }
}

/// The text of a dynamic entry.
fn dynamic_text_of(pool: &ConstantPool, bootstrap_index: u16, name_and_type_index: u16) -> (text:
    Option<Vec<u8>>)
    ensures
        text is Some == dynamic_at(pool@, bootstrap_index, name_and_type_index as int) is Some,
        text is Some ==> text->Some_0@ == dynamic_at(
            pool@,
            bootstrap_index,
            name_and_type_index as int,
        )->Some_0,
{
    match pool.name_and_type(name_and_type_index as usize) {
        Some((name, descriptor)) => {
            let mut text: Vec<u8> = Vec::new();
            text.push(35);
            push_decimal(&mut text, bootstrap_index as i64);
            text.push(58);
            push_bytes(&mut text, name.as_slice());
            text.push(58);
            push_bytes(&mut text, descriptor.as_slice());
            assert(text@ =~= dynamic_text(bootstrap_index, name@, descriptor@));
            Some(text)
        },
        None => None,
    }
}

/// The text of a method handle.
fn handle_text_of(pool: &ConstantPool, reference_kind: u8, reference_index: u16) -> (text: Option<
    Vec<u8>,
>)
    ensures
        text is Some == handle_at(pool@, reference_kind, reference_index as int) is Some,
        text is Some ==> text->Some_0@ == handle_at(
            pool@,
            reference_kind,
            reference_index as int,
        )->Some_0,
{
    match pool.member_ref(reference_index as usize) {
        Some(member) => {
            let mut text: Vec<u8> = Vec::new();
            push_decimal(&mut text, reference_kind as i64);
            text.push(58);
            push_bytes(&mut text, member.as_slice());
            assert(text@ =~= decimal(reference_kind as int) + seq![58u8] + member@);
            Some(text)
        },
        None => None,
    }
}

/// A copy of a text of the pool.
fn owned_text(text: Option<&Vec<u8>>) -> (copy: Option<Vec<u8>>)
    ensures
        copy is Some == text is Some,
        copy is Some ==> copy->Some_0@ == text->Some_0@,
{
    match text {
        Some(bytes) => {
            let mut copy: Vec<u8> = Vec::new();
            push_bytes(&mut copy, bytes.as_slice());
            assert(copy@ =~= bytes@);
            Some(copy)
        },
        None => None,
    }
}

/// The symbolic form of the pool entry at `index`.
pub fn render_constant(pool: &ConstantPool, index: u16) -> (operand: Option<ResolvedOperand>)
    ensures
        operand is Some == rendered(pool@, index as int) is Some,
        operand is Some ==> operand->Some_0@ == rendered(pool@, index as int)->Some_0,
{
    let at: usize = index as usize;
    match pool.get(at) {
        None => None,
        Some(constant) => match constant {
            Constant::Integer(value) => Some(ResolvedOperand::Literal(decimal_text(*value as i64))),
            Constant::Long(value) => Some(ResolvedOperand::Literal(decimal_text(*value))),
            Constant::Float(bits) => Some(ResolvedOperand::FloatLiteral(*bits)),
            Constant::Double(bits) => Some(ResolvedOperand::DoubleLiteral(*bits)),
            Constant::StringRef { string_index } => match pool.get_utf8(*string_index as usize) {
                Some(text) => Some(ResolvedOperand::Literal(quoted_text(text.as_slice()))),
                None => None,
            },
            Constant::ClassRef { name_index } => match pool.get_utf8(*name_index as usize) {
                Some(name) => Some(
                    ResolvedOperand::Symbol {
                        kind: SymbolKind::Class,
                        text: dotted_text(name.as_slice()),
                    },
                ),
                None => None,
            },
            Constant::FieldRef { .. } => symbol_of(SymbolKind::Field, pool.member_ref(at)),
            Constant::MethodRef { .. } => symbol_of(SymbolKind::Method, pool.member_ref(at)),
            Constant::InterfaceMethodRef { .. } => symbol_of(
                SymbolKind::InterfaceMethod,
                pool.member_ref(at),
            ),
            Constant::MethodType { descriptor_index } => symbol_of(
                SymbolKind::MethodType,
                owned_text(pool.get_utf8(*descriptor_index as usize)),
            ),
            Constant::MethodHandle { reference_kind, reference_index } => symbol_of(
                SymbolKind::MethodHandle,
                handle_text_of(pool, *reference_kind, *reference_index),
            ),
            Constant::Dynamic { bootstrap_index, name_and_type_index } => symbol_of(
                SymbolKind::Dynamic,
                dynamic_text_of(pool, *bootstrap_index, *name_and_type_index),
            ),
            Constant::InvokeDynamic { bootstrap_index, name_and_type_index } => symbol_of(
                SymbolKind::InvokeDynamic,
                dynamic_text_of(pool, *bootstrap_index, *name_and_type_index),
            ),
            _ => None,
        },
    }
}

/// The symbolic form of the constant at `index` as the operand of `op`.
fn resolve_constant(op: OpCode, pool: &ConstantPool, index: u16) -> (result: Result<
    ResolvedOperand,
    ResolveError,
>)
    ensures
        match result {
            Ok(operand) => constant_operand(op, pool@, index) == Ok::<
                ResolvedOperandView,
                ResolveError,
            >(operand@),
            Err(e) => constant_operand(op, pool@, index) == Err::<
                ResolvedOperandView,
                ResolveError,
            >(e),
        },
{
    match pool.get(index as usize) {
        Some(constant) => {
            if accepts_constant(op, constant) {
                match render_constant(pool, index) {
                    Some(operand) => Ok(operand),
                    None => Err(ResolveError::InvalidConstantPoolReference { index }),
                }
            } else {
                Err(ResolveError::InvalidConstantPoolReference { index })
            }
        },
        None => Err(ResolveError::InvalidConstantPoolReference { index }),
    }
}

/// Checks the order of the pairs of a lookup switch. The decoder takes the
/// pairs as they are encoded; this tells whether their match values rise
/// strictly.
pub fn is_strictly_ascending(pairs: &[(i32, i32)]) -> (yes: bool)
    ensures
        yes == strictly_ascending(pairs@),
{
    let mut i: usize = 1;
    while i < pairs.len()
        invariant
            1 <= i,
            forall|a: int, b: int| 0 <= a < b < i && b < pairs@.len() ==> pairs@[a].0 < pairs@[b].0,
        decreases pairs@.len() - i,
    {
        if pairs[i - 1].0 >= pairs[i].0 {
            return false;
        }
        assert forall|a: int, b: int| 0 <= a < b < i + 1 && b < pairs@.len() implies pairs@[a].0
            < pairs@[b].0 by {
            if b == i && a < i - 1 {
                assert(pairs@[a].0 < pairs@[i - 1].0);
            }
        }
        i += 1;
    }
    true
}

/// The absolute target of a branch.
fn target(pc: usize, offset: i32) -> (t: i128)
    ensures
        t == target_of(pc as int, offset),
{
    pc as i128 + offset as i128
}

/// Puts `item` behind the last entry whose match value is not greater.
fn insert_case(cases: &mut Vec<(i32, i128)>, item: (i32, i128))
    ensures
        final(cases)@ == insert_by_key(old(cases)@, item),
{
    let mut at: usize = cases.len();
    while at > 0 && cases[at - 1].0 > item.0
        invariant
            at <= cases.len(),
            cases@ == old(cases)@,
            forall|k: int| at <= k < cases.len() ==> cases@[k].0 > item.0,
        decreases at,
    {
        at -= 1;
    }
    proof {
        lemma_insert_position(cases@, item, at as int);
    }
    cases.insert(at, item);
}

/// The cases of a lookup switch in ascending order.
fn lookup_cases_of(pc: usize, pairs: &Vec<(i32, i32)>) -> (cases: Vec<(i32, i128)>)
    ensures
        cases@ == sorted_by_key(lookup_cases(pc as int, pairs@)),
{
    let ghost all = lookup_cases(pc as int, pairs@);
    let mut cases: Vec<(i32, i128)> = Vec::new();
    let mut i: usize = 0;
    assert(sorted_by_key(all.take(0)) =~= Seq::empty());
    while i < pairs.len()
        invariant
            i <= pairs.len(),
            all == lookup_cases(pc as int, pairs@),
            cases@ == sorted_by_key(all.take(i as int)),
        decreases pairs.len() - i,
    {
        let pair: (i32, i32) = pairs[i];
        proof {
            let next = all.take(i + 1);
            assert(next.drop_last() =~= all.take(i as int));
            assert(next.last() == (pair.0, target_of(pc as int, pair.1)));
        }
        insert_case(&mut cases, (pair.0, target(pc, pair.1)));
        i += 1;
    }
    assert(all.take(pairs.len() as int) =~= all);
    cases
}

/// The cases of a table switch.
fn table_cases_of(pc: usize, low: i32, high: i32, offsets: &Vec<i32>) -> (cases: Vec<(i32, i128)>)
    requires
        low <= high,
        offsets@.len() == high - low + 1,
    ensures
        cases@ == table_cases(pc as int, low, offsets@),
{
    let mut cases: Vec<(i32, i128)> = Vec::new();
    let mut i: usize = 0;
    while i < offsets.len()
        invariant
            i <= offsets.len(),
            low <= high,
            offsets@.len() == high - low + 1,
            cases@.len() == i,
            forall|k: int|
                0 <= k < i ==> cases@[k] == #[trigger] table_cases(pc as int, low, offsets@)[k],
        decreases offsets.len() - i,
    {
        let key: i32 = (low as i64 + i as i64) as i32;
        cases.push((key, target(pc, offsets[i])));
        i += 1;
    }
    assert(cases@ =~= table_cases(pc as int, low, offsets@));
    cases
}

/// Resolves the operands of one record against the constant pool of its
/// class. A constant-pool index becomes the symbolic form of its entry, or
/// the failure `InvalidConstantPoolReference` where the index is outside
/// the pool or leads to an entry of a kind that the instruction cannot
/// take. A branch distance becomes the program counter of its target,
/// whether or not that lies inside the method. A switch becomes its
/// default target and its cases in ascending order of their match values.
/// A local slot stays its number, an immediate value becomes its decimal
/// text.
pub fn resolve_operands(record: &InstructionRecord, pool: &ConstantPool) -> (result: Result<
    Vec<ResolvedOperand>,
    ResolveError,
>)
    requires
        well_formed_record(record@),
    ensures
        match result {
            Ok(operands) => resolve_spec(record@, pool@) == Ok::<
                Seq<ResolvedOperandView>,
                ResolveError,
            >(operand_views(operands@)),
            Err(e) => resolve_spec(record@, pool@) == Err::<Seq<ResolvedOperandView>, ResolveError>(
                e,
            ),
        },
        result is Ok ==> forall|i: int|
            0 <= i < result->Ok_0@.len() && (#[trigger] result->Ok_0@[i]) is Switch ==> ascending(
                result->Ok_0@[i]->Switch_cases@,
            ),
{
    proof {
        match record@.raw_operands {
            OperandsView::TableSwitch { default, low, high, offsets } => {
                lemma_table_cases_ascending(record@.program_counter, low, high, offsets);
            },
            OperandsView::LookupSwitch { default, pairs } => {
                lemma_sorted_by_key(lookup_cases(record@.program_counter, pairs));
            },
            _ => {},
        }
    }
    let pc: usize = record.program_counter;
    let mut operands: Vec<ResolvedOperand> = Vec::new();
    match &record.raw_operands {
        Operands::Absent => {},
        Operands::LocalSlot(slot) => {
            operands.push(ResolvedOperand::LocalSlot(*slot));
        },
        Operands::ConstantPoolIndex(index) => {
            match resolve_constant(record.opcode, pool, *index) {
                Ok(operand) => {
                    operands.push(operand);
                },
                Err(e) => {
                    return Err(e);
                },
            }
        },
        Operands::BranchOffset(offset) => {
            operands.push(ResolvedOperand::BranchTarget(target(pc, *offset)));
        },
        Operands::Immediate(value) => {
            operands.push(ResolvedOperand::Literal(decimal_text(*value as i64)));
        },
        Operands::Increment { slot, delta } => {
            operands.push(ResolvedOperand::LocalSlot(*slot));
            operands.push(ResolvedOperand::Literal(decimal_text(*delta as i64)));
        },
        Operands::InterfaceCall { index, count, reserved } => {
            match resolve_constant(record.opcode, pool, *index) {
                Ok(operand) => {
                    operands.push(operand);
                },
                Err(e) => {
                    return Err(e);
                },
            }
            operands.push(ResolvedOperand::Literal(decimal_text(*count as i64)));
        },
        Operands::DynamicCall { index, reserved_pair } => {
            match resolve_constant(record.opcode, pool, *index) {
                Ok(operand) => {
                    operands.push(operand);
                },
                Err(e) => {
                    return Err(e);
                },
            }
        },
        Operands::ArrayDimensions { index, dimensions } => {
            match resolve_constant(record.opcode, pool, *index) {
                Ok(operand) => {
                    operands.push(operand);
                },
                Err(e) => {
                    return Err(e);
                },
            }
            operands.push(ResolvedOperand::Literal(decimal_text(*dimensions as i64)));
        },
        Operands::TableSwitch { default, low, high, offsets } => {
            operands.push(
                ResolvedOperand::Switch {
                    default_target: target(pc, *default),
                    cases: table_cases_of(pc, *low, *high, offsets),
                },
            );
        },
        Operands::LookupSwitch { default, pairs } => {
            operands.push(
                ResolvedOperand::Switch {
                    default_target: target(pc, *default),
                    cases: lookup_cases_of(pc, pairs),
                },
            );
        },
    }
    assert(resolve_spec(record@, pool@) is Ok);
    assert(operand_views(operands@) =~= resolve_spec(record@, pool@)->Ok_0);
    Ok(operands)
}

/// Resolves one record: the record with the symbolic forms of its operands,
/// or the reference for which there is none. The record itself is not
/// changed by a failure, so a caller may still show its raw operands.
pub fn resolve(record: &InstructionRecord, pool: &ConstantPool) -> (result: Result<
    ResolvedInstruction,
    ResolveError,
>)
    requires
        well_formed_record(record@),
    ensures
        resolved(result, record@, pool@),
{
    match resolve_operands(record, pool) {
        Ok(operands) => Ok(ResolvedInstruction { record: record.duplicate(), operands }),
        Err(e) => Err(e),
    }
}

/// Resolves every record of a stream, each on its own: a reference that
/// cannot be resolved fails its instruction and no other.
pub fn resolve_stream(stream: &InstructionStream, pool: &ConstantPool) -> (results: Vec<
    Result<ResolvedInstruction, ResolveError>,
>)
    requires
        forall|i: int| 0 <= i < stream@.len() ==> well_formed_record(#[trigger] stream@[i]),
    ensures
        results@.len() == stream@.len(),
        forall|i: int|
            0 <= i < results@.len() ==> resolved(#[trigger] results@[i], stream@[i], pool@),
{
    let mut results: Vec<Result<ResolvedInstruction, ResolveError>> = Vec::new();
    let mut i: usize = 0;
    while i < stream.records.len()
        invariant
            i <= stream.records@.len(),
            results@.len() == i,
            forall|k: int| 0 <= k < stream@.len() ==> well_formed_record(#[trigger] stream@[k]),
            forall|k: int| 0 <= k < i ==> resolved(#[trigger] results@[k], stream@[k], pool@),
        decreases stream.records@.len() - i,
    {
        assert(stream@[i as int] == stream.records@[i as int]@);
        let result = resolve(&stream.records[i], pool);
        results.push(result);
        i += 1;
    }
    results
}

} // verus!
