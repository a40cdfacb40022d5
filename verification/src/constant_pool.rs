//! A read-only view of the constant pool of one class: the indexed entries
//! that instructions refer to, already parsed.

use crate::text::push_bytes;
use vstd::prelude::*;

verus! {

/// One entry of a constant pool. Names and descriptors are the bytes of the
/// pool's own text encoding; floating-point constants are held by their bit
/// patterns.
#[derive(Clone, Debug, PartialEq, Eq)]
pub enum Constant {
    /// Index zero, and the slot behind a `Long` or `Double`.
    Unusable,
    Utf8(Vec<u8>),
    Integer(i32),
    Float(u32),
    Long(i64),
    Double(u64),
    ClassRef { name_index: u16 },
    StringRef { string_index: u16 },
    FieldRef { class_index: u16, name_and_type_index: u16 },
    MethodRef { class_index: u16, name_and_type_index: u16 },
    InterfaceMethodRef { class_index: u16, name_and_type_index: u16 },
    NameAndType { name_index: u16, descriptor_index: u16 },
    MethodHandle { reference_kind: u8, reference_index: u16 },
    MethodType { descriptor_index: u16 },
    Dynamic { bootstrap_index: u16, name_and_type_index: u16 },
    InvokeDynamic { bootstrap_index: u16, name_and_type_index: u16 },
}

/// The constant pool of a class. `entries[i]` is the entry with index `i`;
/// index zero refers to nothing.
#[derive(Clone, Debug, PartialEq, Eq)]
pub struct ConstantPool {
    pub entries: Vec<Constant>,
}

impl View for ConstantPool {
    type V = Seq<Constant>;

    open spec fn view(&self) -> Seq<Constant> {
        self.entries@
    }
}

/// Whether `index` refers to an entry of the pool.
pub open spec fn in_pool(pool: Seq<Constant>, index: int) -> bool {
    0 < index < pool.len()
}

/// The text of the `Utf8` entry at `index`.
pub open spec fn utf8_at(pool: Seq<Constant>, index: int) -> Option<Seq<u8>> {
    if in_pool(pool, index) {
        match pool[index] {
            Constant::Utf8(bytes) => Some(bytes@),
            _ => None,
        }
    } else {
        None
    }
}

/// The name of the class that the `ClassRef` entry at `index` refers to, as
/// the pool holds it, with slashes.
pub open spec fn class_name_at(pool: Seq<Constant>, index: int) -> Option<Seq<u8>> {
    if in_pool(pool, index) {
        match pool[index] {
            Constant::ClassRef { name_index } => utf8_at(pool, name_index as int),
            _ => None,
        }
    } else {
        None
    }
}

/// The name and the descriptor of the `NameAndType` entry at `index`.
pub open spec fn name_and_type_at(pool: Seq<Constant>, index: int) -> Option<(Seq<u8>, Seq<u8>)> {
    if in_pool(pool, index) {
        match pool[index] {
            Constant::NameAndType { name_index, descriptor_index } => match (
                utf8_at(pool, name_index as int),
                utf8_at(pool, descriptor_index as int),
            ) {
                (Some(name), Some(descriptor)) => Some((name, descriptor)),
                _ => None,
            },
            _ => None,
        }
    } else {
        None
    }
}

/// A member written in full: the owning class with its slashes, a dot, the
/// member's name, a colon, and its descriptor.
pub open spec fn member_text(class: Seq<u8>, name: Seq<u8>, descriptor: Seq<u8>) -> Seq<u8> {
    class + seq![46u8] + name + seq![58u8] + descriptor
}

/// The full text of the member of the class at `class_index` whose name and
/// descriptor stand at `name_and_type_index`.
pub open spec fn member_at(pool: Seq<Constant>, class_index: int, name_and_type_index: int)
    -> Option<Seq<u8>> {
    match (class_name_at(pool, class_index), name_and_type_at(pool, name_and_type_index)) {
        (Some(class), Some((name, descriptor))) => Some(member_text(class, name, descriptor)),
        _ => None,
    }
}

/// The full text of the member that the field, method or interface-method
/// reference at `index` refers to.
pub open spec fn member_ref_at(pool: Seq<Constant>, index: int) -> Option<Seq<u8>> {
    if in_pool(pool, index) {
        match pool[index] {
            Constant::FieldRef { class_index, name_and_type_index } => member_at(
                pool,
                class_index as int,
                name_and_type_index as int,
            ),
            Constant::MethodRef { class_index, name_and_type_index } => member_at(
                pool,
                class_index as int,
                name_and_type_index as int,
            ),
            Constant::InterfaceMethodRef { class_index, name_and_type_index } => member_at(
                pool,
                class_index as int,
                name_and_type_index as int,
            ),
            _ => None,
        }
    } else {
        None
    }
}

impl ConstantPool {
    /// The entry at `index`, if the index refers to one.
    pub fn get(&self, index: usize) -> (entry: Option<&Constant>)
        ensures
            entry is Some == in_pool(self@, index as int),
            entry is Some ==> *entry->Some_0 == self@[index as int],
    {
        if 0 < index && index < self.entries.len() {
            Some(&self.entries[index])
        } else {
            None
        }
    }

    /// The text of the `Utf8` entry at `index`; `None` where the index is
    /// outside the pool or the entry is of another kind.
    pub fn get_utf8(&self, index: usize) -> (text: Option<&Vec<u8>>)
        ensures
            text is Some == utf8_at(self@, index as int) is Some,
            text is Some ==> text->Some_0@ == utf8_at(self@, index as int)->Some_0,
    {
        match self.get(index) {
            Some(Constant::Utf8(bytes)) => Some(bytes),
            _ => None,
        }
    }

    /// The name of the class that the entry at `index` refers to.
    pub fn class_name(&self, index: usize) -> (name: Option<&Vec<u8>>)
        ensures
            name is Some == class_name_at(self@, index as int) is Some,
            name is Some ==> name->Some_0@ == class_name_at(self@, index as int)->Some_0,
    {
        match self.get(index) {
            Some(Constant::ClassRef { name_index }) => self.get_utf8(*name_index as usize),
            _ => None,
        }
    }

    /// The name and descriptor of the `NameAndType` entry at `index`.
    pub fn name_and_type(&self, index: usize) -> (pair: Option<(&Vec<u8>, &Vec<u8>)>)
        ensures
            pair is Some == name_and_type_at(self@, index as int) is Some,
            pair is Some ==> (pair->Some_0.0@, pair->Some_0.1@) == name_and_type_at(
                self@,
                index as int,
            )->Some_0,
    {
        match self.get(index) {
            Some(Constant::NameAndType { name_index, descriptor_index }) => {
                match (
                    self.get_utf8(*name_index as usize),
                    self.get_utf8(*descriptor_index as usize),
                ) {
                    (Some(name), Some(descriptor)) => Some((name, descriptor)),
                    _ => None,
                }
            },
            _ => None,
        }
    }

    /// The full text of a member, from the indices of its class and of its
    /// name and type.
    pub fn member(&self, class_index: usize, name_and_type_index: usize) -> (text: Option<Vec<u8>>)
        ensures
            text is Some == member_at(self@, class_index as int, name_and_type_index as int)
                is Some,
            text is Some ==> text->Some_0@ == member_at(
                self@,
                class_index as int,
                name_and_type_index as int,
            )->Some_0,
    {
        match (self.class_name(class_index), self.name_and_type(name_and_type_index)) {
            (Some(class), Some((name, descriptor))) => {
                let mut text: Vec<u8> = Vec::new();
                push_bytes(&mut text, class.as_slice());
                text.push(46);
                push_bytes(&mut text, name.as_slice());
                text.push(58);
                push_bytes(&mut text, descriptor.as_slice());
                assert(text@ =~= member_text(class@, name@, descriptor@));
                Some(text)
            },
            _ => None,
        }
    }

    /// The full text of the member that the reference at `index` refers to.
    pub fn member_ref(&self, index: usize) -> (text: Option<Vec<u8>>)
        ensures
            text is Some == member_ref_at(self@, index as int) is Some,
            text is Some ==> text->Some_0@ == member_ref_at(self@, index as int)->Some_0,
    {
        match self.get(index) {
            Some(Constant::FieldRef { class_index, name_and_type_index }) => self.member(
                *class_index as usize,
                *name_and_type_index as usize,
            ),
            Some(Constant::MethodRef { class_index, name_and_type_index }) => self.member(
                *class_index as usize,
                *name_and_type_index as usize,
            ),
            Some(Constant::InterfaceMethodRef { class_index, name_and_type_index }) => self.member(
                *class_index as usize,
                *name_and_type_index as usize,
            ),
            _ => None,
        }
    }
}

} // verus!
