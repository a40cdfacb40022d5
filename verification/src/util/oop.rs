//! Strings as managed objects: making them, reading them, comparing and
//! hashing them.

use crate::oop::{string_class_name, Heap, InstOopDesc, Oop, OopRef, TypeArrayValue};
use std::collections::hash_map::DefaultHasher;
use std::hash::Hasher;
use vstd::prelude::*;
use vstd::std_specs::hash::DefaultHasherAdditionalSpecFns;
use vstd::utf8::encode_utf8;

verus! {

/// Whether a code unit is the first half of a surrogate pair.
pub open spec fn is_high_surrogate(unit: u16) -> bool {
    0xD800 <= unit <= 0xDBFF
}

/// Whether a code unit is the second half of a surrogate pair.
pub open spec fn is_low_surrogate(unit: u16) -> bool {
    0xDC00 <= unit <= 0xDFFF
}

/// The character that a surrogate pair stands for.
pub open spec fn paired(high: u16, low: u16) -> char {
    ((0x1_0000 + (high - 0xD800) * 0x400 + (low - 0xDC00)) as u32) as char
}

/// The replacement character, U+FFFD.
pub open spec fn replacement() -> char {
    0xFFFDu32 as char
}

/// The text that a sequence of UTF-16 code units stands for. A unit that
/// is no surrogate is the character of its value; a high surrogate with a
/// low surrogate behind it is the character of the pair; any other
/// surrogate is the replacement character.
pub open spec fn utf16_lossy(units: Seq<u16>) -> Seq<char>
    decreases units.len(),
{
    if units.len() == 0 {
        Seq::empty()
    } else if !is_high_surrogate(units[0]) && !is_low_surrogate(units[0]) {
        seq![(units[0] as u32) as char] + utf16_lossy(units.skip(1))
    } else if is_high_surrogate(units[0]) && units.len() >= 2 && is_low_surrogate(units[1]) {
        seq![paired(units[0], units[1])] + utf16_lossy(units.skip(2))
    } else {
        seq![replacement()] + utf16_lossy(units.skip(1))
    }
}

/// `String::from_utf16_lossy` of the standard library: decodes UTF-16 code
/// units, replacing each unpaired surrogate by U+FFFD. The contract claims
/// that the result is the text that [`utf16_lossy`] describes.
#[verifier::external_body]
fn string_from_utf16_lossy(units: &[u16]) -> (text: String)
    ensures
        text@ == utf16_lossy(units@),
{
    String::from_utf16_lossy(units)
}

/// The hash of a text: what the default hasher of the standard library
/// gives after the bytes of the text and one byte `0xff`.
pub open spec fn string_hash(text: Seq<char>) -> u64 {
    DefaultHasher::spec_finish(seq![encode_utf8(text), seq![0xffu8]])
}

/// Each byte as a UTF-16 code unit of the same value.
pub open spec fn widened(bytes: Seq<u8>) -> Seq<u16> {
    Seq::new(bytes.len(), |i: int| bytes[i] as u16)
}

/// Each byte as the character of the same value.
pub open spec fn byte_chars(bytes: Seq<u8>) -> Seq<char> {
    Seq::new(bytes.len(), |i: int| bytes[i] as char)
}

/// A string that was made from bytes reads back as those bytes, each as the
/// character of its value: no byte widens to a surrogate.
pub proof fn lemma_widened_reads_back(bytes: Seq<u8>)
    ensures
        utf16_lossy(widened(bytes)) == byte_chars(bytes),
    decreases bytes.len(),
{
    if bytes.len() == 0 {
        assert(utf16_lossy(widened(bytes)) =~= byte_chars(bytes));
    } else {
        let rest = bytes.skip(1);
        lemma_widened_reads_back(rest);
        assert(widened(bytes).skip(1) =~= widened(rest));
        assert((widened(bytes)[0] as u32) as char == bytes[0] as char);
        assert(seq![bytes[0] as char] + byte_chars(rest) =~= byte_chars(bytes));
    }
}

/// The hash of an object that is neither null nor a string: one more than
/// the number of its reference. It is never zero, and two references have
/// the same hash only if they are the same.
pub open spec fn identity_hash(v: OopRef) -> int {
    v.index + 1
}

/// Records at which offset an instance of the string class holds its
/// characters. No object changes.
pub fn set_java_lang_string_value_offset(heap: &mut Heap, offset: usize)
    ensures
        final(heap).string_value_offset == Some(offset),
        final(heap).objects == old(heap).objects,
{
    heap.string_value_offset = Some(offset);
}

/// Whether two byte strings are the same.
fn same_bytes(a: &[u8], b: &[u8]) -> (same: bool)
    ensures
        same == (a@ == b@),
{
    if a.len() != b.len() {
        return false;
    }
    let mut i: usize = 0;
    while i < a.len()
        invariant
            i <= a.len(),
            a.len() == b.len(),
            forall|k: int| 0 <= k < i ==> a@[k] == b@[k],
        decreases a.len() - i,
    {
        if a[i] != b[i] {
            return false;
        }
        i += 1;
    }
    assert(a@ =~= b@);
    true
}

/// The name of the string class.
fn string_class() -> (name: Vec<u8>)
    ensures
        name@ == string_class_name(),
{
    let name: Vec<u8> = vec![
        106u8, 97u8, 118u8, 97u8, 47u8, 108u8, 97u8, 110u8, 103u8, 47u8, 83u8, 116u8, 114u8, 105u8,
        110u8, 103u8,
    ];
    assert(name@ =~= string_class_name());
    name
}

/// Whether `v` refers to an instance of the class `java/lang/String`.
pub fn is_str(heap: &Heap, v: OopRef) -> (yes: bool)
    ensures
        yes == heap.is_string(v),
{
    if v.index < heap.objects.len() {
        match &heap.objects[v.index] {
            Oop::Inst(inst) => {
                let name = string_class();
                same_bytes(inst.class_name.as_slice(), name.as_slice())
            },
            _ => false,
        }
    } else {
        false
    }
}

/// The text of the string `v`, decoded from the UTF-16 code units in the
/// character array of its value field. The offset of that field must have
/// been set, and the field must hold a character array.
pub fn extract_str(heap: &Heap, v: OopRef) -> (text: String)
    requires
        heap.string_chars(v) is Some,
    ensures
        text@ == utf16_lossy(heap.string_chars(v)->Some_0),
{
    let offset: usize = heap.string_value_offset.unwrap();
    let array: OopRef = heap.get_field_value2(v, offset).unwrap();
    match &heap.objects[array.index] {
        Oop::TypeArray(TypeArrayValue::Char(chars)) => string_from_utf16_lossy(chars.as_slice()),
        _ => String::new(),
    }
}

/// Reference equality as the instruction of this name sees it: the same
/// object, or two strings with the same text.
pub fn if_acmpeq(heap: &Heap, v1: OopRef, v2: OopRef) -> (equal: bool)
    requires
        v1 != v2 && heap.is_string(v1) && heap.is_string(v2) ==> heap.string_chars(v1) is Some
            && heap.string_chars(v2) is Some,
    ensures
        equal == (v1 == v2 || (heap.is_string(v1) && heap.is_string(v2) && utf16_lossy(
            heap.string_chars(v1)->Some_0,
        ) == utf16_lossy(heap.string_chars(v2)->Some_0))),
{
    if v1.index == v2.index {
        true
    } else if is_str(heap, v2) && is_str(heap, v1) {
        let text2: String = extract_str(heap, v2);
        let text1: String = extract_str(heap, v1);
        text2 == text1
    } else {
        false
    }
}

/// Whether `string` is an instance as the string makers leave it: its
/// fields end with the value field, which refers to `array`, and the fields
/// before it hold nothing.
pub open spec fn made_string(heap: &Heap, string: OopRef, array: OopRef) -> bool {
    &&& heap.string_value_offset is Some
    &&& heap.contains(string)
    &&& heap.object(string) is Inst
    &&& heap.object(string)->Inst_0.field_values@.len() == heap.string_value_offset->Some_0 + 1
    &&& heap.field(string, heap.string_value_offset->Some_0 as int) == Some(array)
    &&& forall|i: int|
        0 <= i < heap.string_value_offset->Some_0 ==> #[trigger] heap.field(string, i) is None
}

/// The references of a new string instance: nothing up to `offset`, and
/// `array` at `offset`.
fn string_fields(offset: usize, array: OopRef) -> (fields: Vec<Option<OopRef>>)
    ensures
        fields@.len() == offset + 1,
        fields@[offset as int] == Some(array),
        forall|i: int| 0 <= i < offset ==> fields@[i] is None,
{
    let mut fields: Vec<Option<OopRef>> = Vec::new();
    let mut i: usize = 0;
    while i < offset
        invariant
            i <= offset,
            fields@.len() == i,
            forall|k: int| 0 <= k < i ==> fields@[k] is None,
        decreases offset - i,
    {
        fields.push(None);
        i += 1;
    }
    fields.push(Some(array));
    fields
}

/// Makes a string whose characters are the bytes of `v`, each as one UTF-16
/// code unit: a new character array, and a new instance of the string class
/// whose value field refers to it. The offset of the value field must have
/// been set. Every other object stays as it was.
pub fn new_java_lang_string3(heap: &mut Heap, v: &[u8]) -> (string: OopRef)
    requires
        old(heap).string_value_offset is Some,
    ensures
        final(heap).extends(old(heap)),
        final(heap).objects@.len() == old(heap).objects@.len() + 2,
        final(heap).string_value_offset == old(heap).string_value_offset,
        string.index == old(heap).objects@.len() + 1,
        final(heap).is_string(string),
        final(heap).string_chars(string) == Some(widened(v@)),
        final(heap).chars(OopRef { index: old(heap).objects.len() }) == Some(widened(v@)),
        made_string(final(heap), string, OopRef { index: old(heap).objects.len() }),
{
    let mut chars: Vec<u16> = Vec::new();
    let mut i: usize = 0;
    while i < v.len()
        invariant
            i <= v.len(),
            chars@.len() == i,
            forall|k: int| 0 <= k < i ==> chars@[k] == v@[k] as u16,
        decreases v.len() - i,
    {
        chars.push(v[i] as u16);
        i += 1;
    }
    assert(chars@ =~= widened(v@));
    let array: OopRef = heap.allocate(Oop::TypeArray(TypeArrayValue::Char(chars)));
    let offset: usize = heap.string_value_offset.unwrap();
    let instance = InstOopDesc {
        class_name: string_class(),
        field_values: string_fields(offset, array),
    };
    let string: OopRef = heap.allocate(Oop::Inst(instance));
    assert(final(heap).field(string, offset as int) == Some(array));
    string
}

/// Makes a string whose characters are the bytes of the UTF-8 form of `v`,
/// each as one UTF-16 code unit.
pub fn new_java_lang_string2(heap: &mut Heap, v: &str) -> (string: OopRef)
    requires
        old(heap).string_value_offset is Some,
    ensures
        final(heap).extends(old(heap)),
        final(heap).objects@.len() == old(heap).objects@.len() + 2,
        final(heap).string_value_offset == old(heap).string_value_offset,
        string.index == old(heap).objects@.len() + 1,
        final(heap).is_string(string),
        final(heap).string_chars(string) == Some(widened(encode_utf8(v@))),
        final(heap).chars(OopRef { index: old(heap).objects.len() }) == Some(
            widened(encode_utf8(v@)),
        ),
        made_string(final(heap), string, OopRef { index: old(heap).objects.len() }),
{
    new_java_lang_string3(heap, v.as_bytes())
}

/// The hash of an object: zero for the null object, the hash of its text
/// for a string, and for any other object a number other than zero that
/// belongs to this object alone. A number has none.
pub fn hash_code(heap: &Heap, v: OopRef) -> (hash: u64)
    requires
        heap.contains(v),
        !(heap.object(v) is Int || heap.object(v) is Long || heap.object(v) is Float
            || heap.object(v) is Double),
        heap.is_string(v) ==> heap.string_chars(v) is Some,
    ensures
        heap.object(v) is Null ==> hash == 0,
        heap.is_string(v) ==> hash == string_hash(utf16_lossy(heap.string_chars(v)->Some_0)),
        !(heap.object(v) is Null) && !heap.is_string(v) ==> hash == identity_hash(v) && hash
            != 0,
{
    match &heap.objects[v.index] {
        Oop::Null => {
            return 0;
        },
        _ => {},
    }
    if is_str(heap, v) {
        let text: String = extract_str(heap, v);
        let end: [u8; 1] = [0xff];
        let mut hasher = DefaultHasher::new();
        hasher.write(text.as_str().as_bytes());
        hasher.write(end.as_slice());
        proof {
            assert(end@ =~= seq![0xffu8]);
            assert(hasher@.len() == 2);
            assert(hasher@[0] == encode_utf8(text@));
            assert(hasher@[1] == seq![0xffu8]);
            assert(hasher@ =~= seq![encode_utf8(text@), seq![0xffu8]]);
        }
        hasher.finish()
    } else {
        let count: usize = heap.objects.len();
        assert(v.index < count);
        v.index as u64 + 1
    }
}

} // verus!
