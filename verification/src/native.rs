//! The native methods of the class library, by class: for each class the
//! table under which its methods are registered, and the part of each
//! method that decides or computes.

#[allow(non_snake_case)]
pub mod java_io_FileInputStream;
#[allow(non_snake_case)]
pub mod java_lang_String;
#[allow(non_snake_case)]
pub mod sun_reflect_ConstantPool;

use vstd::prelude::*;

verus! {

/// Which native method an entry of a registration table stands for.
#[derive(Clone, Copy, Debug, PartialEq, Eq, Structural)]
pub enum NativeFn {
    FileInputStreamInitIds,
    FileInputStreamOpen,
    FileInputStreamReadBytes,
    FileInputStreamAvailable,
    FileInputStreamClose,
    ConstantPoolGetUtf8At,
    StringIntern,
}

/// One entry of a registration table: the name and the descriptor under
/// which the method is looked up, and the method itself.
#[derive(Clone, Copy, Debug, PartialEq, Eq)]
pub struct JNINativeMethod {
    pub name: &'static str,
    pub signature: &'static str,
    pub native: NativeFn,
}

/// An exception that a native method raises: the name of its class and its
/// message.
#[derive(Clone, Copy, Debug, PartialEq, Eq)]
pub struct Exception {
    pub class_name: &'static str,
    pub message: &'static str,
}

/// The class of the exception that a failed read or write raises.
pub const J_IOEXCEPTION: &'static str = "java/io/IOException";

/// An entry of a registration table.
pub fn new_fn(name: &'static str, signature: &'static str, native: NativeFn) -> (method:
    JNINativeMethod)
    ensures
        method.name == name,
        method.signature == signature,
        method.native == native,
{
    JNINativeMethod { name, signature, native }
}

} // verus!
