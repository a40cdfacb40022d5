//! The native methods of `java.lang.String`.

use crate::native::{new_fn, JNINativeMethod, NativeFn};
use crate::oop::{Heap, OopRef};
use vstd::prelude::*;

verus! {

/// The registration table of the class: `intern` alone.
pub fn get_native_methods() -> (methods: Vec<JNINativeMethod>)
    ensures
        methods@.len() == 1,
        methods@[0].name@ == "intern"@,
        methods@[0].signature@ == "()Ljava/lang/String;"@,
        methods@[0].native == NativeFn::StringIntern,
{
    let mut methods: Vec<JNINativeMethod> = Vec::new();
    methods.push(new_fn("intern", "()Ljava/lang/String;", NativeFn::StringIntern));
    methods
}

/// `intern`: the receiver itself. The receiver is the first argument and
/// must be a string held by its bytes.
pub fn jvm_intern(heap: &Heap, args: &[OopRef]) -> (result: Option<OopRef>)
    requires
        args@.len() >= 1,
        heap.contains(args@[0]),
        heap.object(args@[0]) is Str,
    ensures
        result == Some(args@[0]),
{
    Some(args[0])
}

} // verus!
