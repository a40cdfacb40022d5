//! The managed objects that the string helpers and the native methods work
//! on. Objects live in a heap and are known by their references; two
//! references are the same object exactly when they are equal.

use vstd::prelude::*;

verus! {

/// A reference to an object of a [`Heap`].
#[derive(Clone, Copy, Debug, PartialEq, Eq, Structural)]
pub struct OopRef {
    pub index: usize,
}

/// The elements of an array of a primitive type.
#[derive(Clone, Debug, PartialEq, Eq)]
pub enum TypeArrayValue {
    Byte(Vec<u8>),
    Char(Vec<u16>),
    Int(Vec<i32>),
}

/// An instance of a class: the name of its class, with slashes, and the
/// values of its fields by their offsets. A field holds a reference or
/// nothing.
#[derive(Clone, Debug, PartialEq, Eq)]
pub struct InstOopDesc {
    pub class_name: Vec<u8>,
    pub field_values: Vec<Option<OopRef>>,
}

/// What a reference can lead to. Floating-point values are held by their
/// bit patterns.
#[derive(Clone, Debug, PartialEq, Eq)]
pub enum Oop {
    Null,
    Int(i32),
    Long(i64),
    Float(u32),
    Double(u64),
    Str(Vec<u8>),
    Inst(InstOopDesc),
    TypeArray(TypeArrayValue),
}

/// All objects, and what is known of the layout of the string class: the
/// offset of the field that holds a string's characters, once it has been
/// set.
#[derive(Clone, Debug, PartialEq, Eq)]
pub struct Heap {
    pub objects: Vec<Oop>,
    pub string_value_offset: Option<usize>,
}

/// The name of the string class: `java/lang/String`.
pub open spec fn string_class_name() -> Seq<u8> {
    seq![
        106u8, 97u8, 118u8, 97u8, 47u8, 108u8, 97u8, 110u8, 103u8, 47u8, 83u8, 116u8, 114u8, 105u8,
        110u8, 103u8,
    ]
}

impl Heap {
    /// Whether `v` refers to an object of this heap.
    pub open spec fn contains(&self, v: OopRef) -> bool {
        v.index < self.objects@.len()
    }

    /// The object that `v` refers to.
    pub open spec fn object(&self, v: OopRef) -> Oop {
        self.objects@[v.index as int]
    }

    /// Whether `v` refers to an instance of the string class.
    pub open spec fn is_string(&self, v: OopRef) -> bool {
        self.contains(v) && self.object(v) is Inst && self.object(v)->Inst_0.class_name@
            == string_class_name()
    }

    /// What the field at `offset` of the instance `v` holds; `None` where
    /// `v` is no instance, has no such field, or the field holds nothing.
    pub open spec fn field(&self, v: OopRef, offset: int) -> Option<OopRef> {
        if self.contains(v) && self.object(v) is Inst && 0 <= offset < self.object(
            v,
        )->Inst_0.field_values@.len() {
            self.object(v)->Inst_0.field_values@[offset]
        } else {
            None
        }
    }

    /// The elements of the character array that `v` refers to.
    pub open spec fn chars(&self, v: OopRef) -> Option<Seq<u16>> {
        if self.contains(v) {
            match self.object(v) {
                Oop::TypeArray(TypeArrayValue::Char(chars)) => Some(chars@),
                _ => None,
            }
        } else {
            None
        }
    }

    /// The characters of the string `v`: the elements of the character
    /// array in its value field. `None` until the offset of that field has
    /// been set, and where the field does not hold a character array.
    pub open spec fn string_chars(&self, v: OopRef) -> Option<Seq<u16>> {
        match self.string_value_offset {
            Some(offset) => match self.field(v, offset as int) {
                Some(array) => self.chars(array),
                None => None,
            },
            None => None,
        }
    }

    /// The same objects under the same references, and possibly more.
    pub open spec fn extends(&self, before: &Heap) -> bool {
        &&& before.objects@.len() <= self.objects@.len()
        &&& forall|i: int| 0 <= i < before.objects@.len() ==> self.objects@[i] == before.objects@[i]
    }

    /// A heap without objects, in which the layout of strings is not known
    /// yet.
    pub fn new() -> (heap: Heap)
        ensures
            heap.objects@.len() == 0,
            heap.string_value_offset is None,
    {
        Heap { objects: Vec::new(), string_value_offset: None }
    }

    /// Puts an object on the heap and gives its reference. No other object
    /// changes.
    pub fn allocate(&mut self, object: Oop) -> (v: OopRef)
        ensures
            v.index == old(self).objects@.len(),
            final(self).objects@ == old(self).objects@.push(object),
            final(self).string_value_offset == old(self).string_value_offset,
    {
        let v = OopRef { index: self.objects.len() };
        self.objects.push(object);
        v
    }

    /// What the field at `offset` of the instance `v` holds.
    pub fn get_field_value2(&self, v: OopRef, offset: usize) -> (value: Option<OopRef>)
        ensures
            value == self.field(v, offset as int),
    {
        if v.index < self.objects.len() {
            match &self.objects[v.index] {
                Oop::Inst(inst) => {
                    if offset < inst.field_values.len() {
                        inst.field_values[offset]
                    } else {
                        None
                    }
                },
                _ => None,
            }
        } else {
            None
        }
    }
}

} // verus!
