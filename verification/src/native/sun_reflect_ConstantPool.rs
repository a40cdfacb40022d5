//! The native methods of `sun.reflect.ConstantPool`.

use crate::constant_pool::{utf8_at, ConstantPool};
use crate::native::{new_fn, JNINativeMethod, NativeFn};
use crate::oop::{Heap, OopRef};
use crate::util::oop::{new_java_lang_string3, widened};
use vstd::prelude::*;

verus! {

/// The registration table of the class: `getUTF8At0` alone.
pub fn get_native_methods() -> (methods: Vec<JNINativeMethod>)
    ensures
        methods@.len() == 1,
        methods@[0].name@ == "getUTF8At0"@,
        methods@[0].signature@ == "(Ljava/lang/Object;I)Ljava/lang/String;"@,
        methods@[0].native == NativeFn::ConstantPoolGetUtf8At,
{
    let mut methods: Vec<JNINativeMethod> = Vec::new();
    methods.push(
        new_fn(
            "getUTF8At0",
            "(Ljava/lang/Object;I)Ljava/lang/String;",
            NativeFn::ConstantPoolGetUtf8At,
        ),
    );
    methods
}

/// `getUTF8At0`: a new string with the text of the `Utf8` entry at `index`
/// of the pool, each byte of the entry as one character. The index must
/// refer to such an entry, and the offset of the value field of strings
/// must have been set.
#[allow(non_snake_case)]
pub fn jvm_getUTF8At0(heap: &mut Heap, pool: &ConstantPool, index: i32) -> (result: Option<OopRef>)
    requires
        utf8_at(pool@, index as int) is Some,
        old(heap).string_value_offset is Some,
    ensures
        result is Some,
        final(heap).extends(old(heap)),
        final(heap).string_value_offset == old(heap).string_value_offset,
        final(heap).is_string(result->Some_0),
        final(heap).string_chars(result->Some_0) == Some(
            widened(utf8_at(pool@, index as int)->Some_0),
        ),
{
    let text = pool.get_utf8(index as usize).unwrap();
    Some(new_java_lang_string3(heap, text.as_slice()))
}

} // verus!
