//! The native methods of `java.io.FileInputStream`. The calls into the
//! operating system are made by the caller; what is decided between them
//! is decided here.

use crate::native::{new_fn, Exception, JNINativeMethod, NativeFn, J_IOEXCEPTION};
use crate::oop::{Heap, InstOopDesc, Oop, OopRef};
use vstd::prelude::*;

verus! {

/// The registration table of the class. The query for the bytes that can
/// still be read is registered under two names.
pub fn get_native_methods() -> (methods: Vec<JNINativeMethod>)
    ensures
        methods@.len() == 6,
        methods@[0].name@ == "initIDs"@ && methods@[0].signature@ == "()V"@ && methods@[0].native
            == NativeFn::FileInputStreamInitIds,
        methods@[1].name@ == "open0"@ && methods@[1].signature@ == "(Ljava/lang/String;)V"@
            && methods@[1].native == NativeFn::FileInputStreamOpen,
        methods@[2].name@ == "readBytes"@ && methods@[2].signature@ == "([BII)I"@
            && methods@[2].native == NativeFn::FileInputStreamReadBytes,
        methods@[3].name@ == "available0"@ && methods@[3].signature@ == "()I"@
            && methods@[3].native == NativeFn::FileInputStreamAvailable,
        methods@[4].name@ == "available"@ && methods@[4].signature@ == "()I"@
            && methods@[4].native == NativeFn::FileInputStreamAvailable,
        methods@[5].name@ == "close0"@ && methods@[5].signature@ == "()V"@ && methods@[5].native
            == NativeFn::FileInputStreamClose,
{
    let mut methods: Vec<JNINativeMethod> = Vec::new();
    methods.push(new_fn("initIDs", "()V", NativeFn::FileInputStreamInitIds));
    methods.push(new_fn("open0", "(Ljava/lang/String;)V", NativeFn::FileInputStreamOpen));
    methods.push(new_fn("readBytes", "([BII)I", NativeFn::FileInputStreamReadBytes));
    methods.push(new_fn("available0", "()I", NativeFn::FileInputStreamAvailable));
    methods.push(new_fn("available", "()I", NativeFn::FileInputStreamAvailable));
    methods.push(new_fn("close0", "()V", NativeFn::FileInputStreamClose));
    methods
}

/// Where the descriptor of an open file is found: the offset of the field
/// `fd` in a stream, which holds a file descriptor object, and the offset
/// of the field `fd` in that object, which holds the number.
#[derive(Clone, Copy, Debug, PartialEq, Eq, Structural)]
pub struct FdOffsets {
    pub file_input_stream_fd: usize,
    pub file_descriptor_fd: usize,
}

/// `initIDs`: records the two offsets.
#[allow(non_snake_case)]
pub fn jvm_initIDs(offsets: &mut FdOffsets, file_input_stream_fd: usize, file_descriptor_fd: usize)
    ensures
        *final(offsets) == (FdOffsets { file_input_stream_fd, file_descriptor_fd }),
{
    offsets.file_input_stream_fd = file_input_stream_fd;
    offsets.file_descriptor_fd = file_descriptor_fd;
}

/// The file descriptor object of the stream `fin`.
pub open spec fn descriptor_object(heap: &Heap, offsets: FdOffsets, fin: OopRef) -> Option<OopRef> {
    heap.field(fin, offsets.file_input_stream_fd as int)
}

/// The number of the descriptor of the stream `fin`; `None` where a field
/// on the way is missing or empty, or the last does not hold a number.
pub open spec fn descriptor_of(heap: &Heap, offsets: FdOffsets, fin: OopRef) -> Option<i32> {
    match descriptor_object(heap, offsets, fin) {
        Some(object) => match heap.field(object, offsets.file_descriptor_fd as int) {
            Some(number) => if heap.contains(number) {
                match heap.object(number) {
                    Oop::Int(fd) => Some(fd),
                    _ => None,
                }
            } else {
                None
            },
            None => None,
        },
        None => None,
    }
}

/// Whether `after` is the instance `before` with the field at `offset` set
/// to `value` and nothing else changed.
pub open spec fn rewritten(before: Oop, after: Oop, offset: int, value: OopRef) -> bool {
    &&& before is Inst
    &&& after is Inst
    &&& after->Inst_0.class_name@ == before->Inst_0.class_name@
    &&& after->Inst_0.field_values@ == before->Inst_0.field_values@.update(offset, Some(value))
}

/// What is found at one place of a heap.
fn int_at(heap: &Heap, v: OopRef) -> (value: Option<i32>)
    ensures
        value == (if heap.contains(v) && heap.object(v) is Int {
            Some(heap.object(v)->Int_0)
        } else {
            None
        }),
{
    if v.index < heap.objects.len() {
        match &heap.objects[v.index] {
            Oop::Int(value) => Some(*value),
            _ => None,
        }
    } else {
        None
    }
}

/// Reads the number of the descriptor of the stream `fin`, which must have
/// one.
pub fn get_file_descriptor_fd(heap: &Heap, offsets: FdOffsets, fin: OopRef) -> (fd: i32)
    requires
        descriptor_of(heap, offsets, fin) is Some,
    ensures
        Some(fd) == descriptor_of(heap, offsets, fin),
{
    let object: OopRef = heap.get_field_value2(fin, offsets.file_input_stream_fd).unwrap();
    let number: OopRef = heap.get_field_value2(object, offsets.file_descriptor_fd).unwrap();
    int_at(heap, number).unwrap()
}

/// Writes `fd` as the number of the descriptor of the stream `fin`. The
/// stream must hold a file descriptor object, other than itself, that has
/// the field for the number. A new number is put on the heap and the field
/// refers to it; no other object changes.
pub fn set_file_descriptor_fd(heap: &mut Heap, offsets: FdOffsets, fin: OopRef, fd: i32)
    requires
        descriptor_object(old(heap), offsets, fin) is Some,
        descriptor_object(old(heap), offsets, fin) != Some(fin),
        old(heap).contains(descriptor_object(old(heap), offsets, fin)->Some_0),
        old(heap).object(descriptor_object(old(heap), offsets, fin)->Some_0) is Inst,
        offsets.file_descriptor_fd < old(heap).object(
            descriptor_object(old(heap), offsets, fin)->Some_0,
        )->Inst_0.field_values@.len(),
    ensures
        descriptor_of(final(heap), offsets, fin) == Some(fd),
        final(heap).objects@.len() == old(heap).objects@.len() + 1,
        final(heap).string_value_offset == old(heap).string_value_offset,
        forall|i: int|
            0 <= i < old(heap).objects@.len() && i != descriptor_object(
                old(heap),
                offsets,
                fin,
            )->Some_0.index ==> final(heap).objects@[i] == old(heap).objects@[i],
        final(heap).object(OopRef { index: old(heap).objects.len() }) == Oop::Int(fd),
        rewritten(
            old(heap).object(descriptor_object(old(heap), offsets, fin)->Some_0),
            final(heap).object(descriptor_object(old(heap), offsets, fin)->Some_0),
            offsets.file_descriptor_fd as int,
            OopRef { index: old(heap).objects.len() },
        ),
{
    let object: OopRef = heap.get_field_value2(fin, offsets.file_input_stream_fd).unwrap();
    let number: OopRef = heap.allocate(Oop::Int(fd));
    let mut class_name: Vec<u8> = Vec::new();
    let mut field_values: Vec<Option<OopRef>> = Vec::new();
    match &heap.objects[object.index] {
        Oop::Inst(inst) => {
            let mut i: usize = 0;
            while i < inst.class_name.len()
                invariant
                    i <= inst.class_name@.len(),
                    class_name@ == inst.class_name@.take(i as int),
                decreases inst.class_name@.len() - i,
            {
                class_name.push(inst.class_name[i]);
                i += 1;
                assert(class_name@ =~= inst.class_name@.take(i as int));
            }
            let mut k: usize = 0;
            while k < inst.field_values.len()
                invariant
                    k <= inst.field_values@.len(),
                    field_values@.len() == k,
                    forall|j: int|
                        0 <= j < k ==> field_values@[j] == (if j == offsets.file_descriptor_fd {
                            Some(number)
                        } else {
                            inst.field_values@[j]
                        }),
                decreases inst.field_values@.len() - k,
            {
                field_values.push(
                    if k == offsets.file_descriptor_fd {
                        Some(number)
                    } else {
                        inst.field_values[k]
                    },
                );
                k += 1;
            }
        },
        _ => {},
    }
    proof {
        let before = heap.object(object)->Inst_0;
        assert(class_name@ =~= before.class_name@.take(before.class_name@.len() as int));
        assert(before.class_name@.take(before.class_name@.len() as int) =~= before.class_name@);
        assert(field_values@ =~= before.field_values@.update(
            offsets.file_descriptor_fd as int,
            Some(number),
        ));
    }
    heap.objects.set(object.index, Oop::Inst(InstOopDesc { class_name, field_values }));
    proof {
        assert(final(heap).field(fin, offsets.file_input_stream_fd as int) == Some(object));
        assert(final(heap).field(object, offsets.file_descriptor_fd as int) == Some(number));
    }
}

/// What `readBytes` returns for the count that the read reported: the
/// count where bytes were read, `-1` at the end of the file, and an I/O
/// exception with the message `Read Error` where the read failed with
/// `-1`.
pub fn read_bytes_result(n: isize) -> (result: Result<i32, Exception>)
    requires
        n <= i32::MAX,
    ensures
        n > 0 ==> result == Ok::<i32, Exception>(n as i32),
        n == -1 ==> result is Err && result->Err_0.class_name@ == J_IOEXCEPTION@
            && result->Err_0.message@ == "Read Error"@,
        n <= 0 && n != -1 ==> result == Ok::<i32, Exception>(-1i32),
{
    if n > 0 {
        Ok(n as i32)
    } else if n == -1 {
        Err(Exception { class_name: J_IOEXCEPTION, message: "Read Error" })
    } else {
        Ok(-1)
    }
}

/// The bits of a file mode by which the operating system tells the kinds
/// of files apart.
#[derive(Clone, Copy, Debug, PartialEq, Eq, Structural)]
pub struct ModeBits {
    pub fifo: u32,
    pub character_device: u32,
    pub socket: u32,
    pub regular: u32,
}

/// Where the query for the bytes that can still be read stands.
#[derive(Clone, Copy, Debug, PartialEq, Eq, Structural)]
pub enum AvailableState {
    /// Nothing has been asked yet.
    Start,
    /// The status of the file has been asked for.
    Status,
    /// The bytes waiting in a pipe, device or socket have been asked for.
    Waiting { size: i64 },
    /// The position in the file has been asked for.
    Position { size: i64 },
    /// The position has been moved to the end of the file.
    End { current: i64 },
    /// The position is being moved back to where it was.
    Restore { size: i64, current: i64 },
    /// The answer has been given.
    Done,
}

/// What the operating system answered to the last request.
#[derive(Clone, Copy, Debug, PartialEq, Eq, Structural)]
pub enum AvailableEvent {
    /// The query begins, on an open descriptor.
    Begin { fd: i32 },
    /// The status call returned `ret`, and on success the mode and size of
    /// the file.
    StatusResult { ret: i32, mode: u32, size: i64 },
    /// The call for the waiting bytes returned `ret`, and on success their
    /// number.
    WaitingResult { ret: i32, count: i32 },
    /// A seek returned this position, or `-1`.
    SeekResult { position: i64 },
}

/// What to ask the operating system next, or the answer of the query.
#[derive(Clone, Copy, Debug, PartialEq, Eq, Structural)]
pub enum AvailableAction {
    AskStatus,
    AskWaiting,
    SeekCurrent,
    SeekEnd,
    SeekTo { position: i64 },
    Answer { value: i32 },
}

/// Whether the mode is that of a pipe, a character device or a socket.
pub open spec fn is_stream(bits: ModeBits, mode: u32) -> bool {
    (mode & bits.fifo == bits.fifo) || (mode & bits.character_device == bits.character_device) || (
    mode & bits.socket == bits.socket)
}

/// Whether the mode is that of a regular file.
pub open spec fn is_regular(bits: ModeBits, mode: u32) -> bool {
    mode & bits.regular == bits.regular
}

/// The number in the range of `i32` that differs from `x` by a multiple of
/// 2^32.
pub open spec fn wrapped(x: int) -> int {
    (x + 0x8000_0000) % 0x1_0000_0000 - 0x8000_0000
}

/// Whether `event` is an answer to what was asked in `state`.
pub open spec fn answers(state: AvailableState, event: AvailableEvent) -> bool {
    match state {
        AvailableState::Start => event is Begin && event->fd != -1,
        AvailableState::Status => event is StatusResult,
        AvailableState::Waiting { .. } => event is WaitingResult,
        AvailableState::Position { .. } => event is SeekResult,
        AvailableState::End { .. } => event is SeekResult,
        AvailableState::Restore { .. } => event is SeekResult,
        AvailableState::Done => false,
    }
}

/// The next state and action of the query. The status of the file is asked
/// first. For a pipe, device or socket the waiting bytes are asked for, and
/// their number is the answer if the call succeeds. Otherwise the answer is
/// the distance from the position to the size of the file; where the size
/// is not known from the status, or lies before the position, it is found
/// by seeking to the end and back. A seek that fails gives the answer zero.
pub open spec fn available_step(bits: ModeBits, state: AvailableState, event: AvailableEvent) -> (
    AvailableState,
    AvailableAction,
) {
    match (state, event) {
        (AvailableState::Start, AvailableEvent::Begin { fd }) => (
            AvailableState::Status,
            AvailableAction::AskStatus,
        ),
        (AvailableState::Status, AvailableEvent::StatusResult { ret, mode, size }) => if ret != -1
            && is_stream(bits, mode) {
            (AvailableState::Waiting { size: -1i64 }, AvailableAction::AskWaiting)
        } else if ret != -1 && is_regular(bits, mode) {
            (AvailableState::Position { size }, AvailableAction::SeekCurrent)
        } else {
            (AvailableState::Position { size: -1i64 }, AvailableAction::SeekCurrent)
        },
        (AvailableState::Waiting { size }, AvailableEvent::WaitingResult { ret, count }) => if ret
            >= 0 {
            (AvailableState::Done, AvailableAction::Answer { value: count })
        } else {
            (AvailableState::Position { size }, AvailableAction::SeekCurrent)
        },
        (AvailableState::Position { size }, AvailableEvent::SeekResult { position }) => if position
            == -1 {
            (AvailableState::Done, AvailableAction::Answer { value: 0 })
        } else if size < position {
            (AvailableState::End { current: position }, AvailableAction::SeekEnd)
        } else {
            (
                AvailableState::Done,
                AvailableAction::Answer { value: wrapped(size - position) as i32 },
            )
        },
        (AvailableState::End { current }, AvailableEvent::SeekResult { position }) => if position
            == -1 {
            (AvailableState::Done, AvailableAction::Answer { value: 0 })
        } else {
            (
                AvailableState::Restore { size: position, current },
                AvailableAction::SeekTo { position: current },
            )
        },
        (AvailableState::Restore { size, current }, AvailableEvent::SeekResult { position }) => if position
            == -1 {
            (AvailableState::Done, AvailableAction::Answer { value: 0 })
        } else {
            (
                AvailableState::Done,
                AvailableAction::Answer { value: wrapped(size - current) as i32 },
            )
        },
        _ => (AvailableState::Done, AvailableAction::Answer { value: 0 }),
    }
}

/// The difference of two file offsets as the 32-bit number that is
/// returned for it.
fn wrapped_difference(size: i64, current: i64) -> (value: i32)
    ensures
        value == wrapped(size - current),
{
    let shifted: i128 = size as i128 - current as i128 + 0x8000_0000 + 0x2_0000_0000_0000_0000;
    let low: i128 = shifted % 0x1_0000_0000;
    proof {
        vstd::arithmetic::div_mod::lemma_mod_multiples_vanish(
            0x2_0000_0000,
            size - current + 0x8000_0000,
            0x1_0000_0000,
        );
    }
    (low - 0x8000_0000) as i32
}

fn mode_is_stream(bits: ModeBits, mode: u32) -> (yes: bool)
    ensures
        yes == is_stream(bits, mode),
{
    (mode & bits.fifo == bits.fifo) || (mode & bits.character_device == bits.character_device) || (
    mode & bits.socket == bits.socket)
}

fn mode_is_regular(bits: ModeBits, mode: u32) -> (yes: bool)
    ensures
        yes == is_regular(bits, mode),
{
    mode & bits.regular == bits.regular
}

/// `available0`, one step at a time: takes the answer to the last request
/// and gives the next request, or the answer of the query. The caller makes
/// the requests. A query on a closed stream, with the descriptor `-1`,
/// cannot begin.
#[allow(non_snake_case)]
pub fn jvm_available0(bits: ModeBits, state: AvailableState, event: AvailableEvent) -> (next: (
    AvailableState,
    AvailableAction,
))
    requires
        answers(state, event),
    ensures
        next == available_step(bits, state, event),
        next.1 is Answer <==> next.0 is Done,
{
    match (state, event) {
        (AvailableState::Start, AvailableEvent::Begin { fd }) => (
            AvailableState::Status,
            AvailableAction::AskStatus,
        ),
        (AvailableState::Status, AvailableEvent::StatusResult { ret, mode, size }) => {
            if ret != -1 && mode_is_stream(bits, mode) {
                (AvailableState::Waiting { size: -1 }, AvailableAction::AskWaiting)
            } else if ret != -1 && mode_is_regular(bits, mode) {
                (AvailableState::Position { size }, AvailableAction::SeekCurrent)
            } else {
                (AvailableState::Position { size: -1 }, AvailableAction::SeekCurrent)
            }
        },
        (AvailableState::Waiting { size }, AvailableEvent::WaitingResult { ret, count }) => {
            if ret >= 0 {
                (AvailableState::Done, AvailableAction::Answer { value: count })
            } else {
                (AvailableState::Position { size }, AvailableAction::SeekCurrent)
            }
        },
        (AvailableState::Position { size }, AvailableEvent::SeekResult { position }) => {
            if position == -1 {
                (AvailableState::Done, AvailableAction::Answer { value: 0 })
            } else if size < position {
                (AvailableState::End { current: position }, AvailableAction::SeekEnd)
            } else {
                (
                    AvailableState::Done,
                    AvailableAction::Answer { value: wrapped_difference(size, position) },
                )
            }
        },
        (AvailableState::End { current }, AvailableEvent::SeekResult { position }) => {
            if position == -1 {
                (AvailableState::Done, AvailableAction::Answer { value: 0 })
            } else {
                (
                    AvailableState::Restore { size: position, current },
                    AvailableAction::SeekTo { position: current },
                )
            }
        },
        (AvailableState::Restore { size, current }, AvailableEvent::SeekResult { position }) => {
            if position == -1 {
                (AvailableState::Done, AvailableAction::Answer { value: 0 })
            } else {
                (
                    AvailableState::Done,
                    AvailableAction::Answer { value: wrapped_difference(size, current) },
                )
            }
        },
        _ => (AvailableState::Done, AvailableAction::Answer { value: 0 }),
    }
}

} // verus!
