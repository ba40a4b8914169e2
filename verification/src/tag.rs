//! The object tag registry: the closed set of shapes, their tag words,
//! header widths and size formulas.

use vstd::prelude::*;
use crate::error::HeapError;
use crate::heap::Heap;

verus! {

pub const TAG_OBJECT: u32 = 1;
pub const TAG_OBJ_IND: u32 = 2;
pub const TAG_ARRAY: u32 = 3;
pub const TAG_BITS64: u32 = 4;
pub const TAG_MUTBOX: u32 = 5;
pub const TAG_CLOSURE: u32 = 6;
pub const TAG_SOME: u32 = 7;
pub const TAG_VARIANT: u32 = 8;
pub const TAG_BLOB: u32 = 9;
pub const TAG_FWD_PTR: u32 = 10;
pub const TAG_BITS32: u32 = 11;
pub const TAG_BIGINT: u32 = 12;
pub const TAG_CONCAT: u32 = 13;

/// The closed set of object shapes.
#[derive(Clone, Copy, Debug, PartialEq, Eq, Structural)]
pub enum Tag {
    /// Generic record: field count, hash-table reference, then the fields.
    Object,
    /// Boxed indirection holding one field.
    ObjInd,
    /// Homogeneous sequence: length, then the elements.
    Array,
    /// Boxed 64-bit word (two payload words, low word first).
    Bits64,
    /// Mutable captured-variable cell holding one field.
    MutBox,
    /// Callable: code reference, captured count, then the captures.
    Closure,
    /// Option wrapper holding one field.
    SomeBox,
    /// Tagged-union payload: discriminant, then one field.
    Variant,
    /// Immutable bytes: byte length, then the packed bytes. A leaf.
    Blob,
    /// Transient redirect to a relocated copy, written during compaction.
    FwdPtr,
    /// Boxed 32-bit word.
    Bits32,
    /// Arbitrary-precision integer: sign, used and allocated limb counts,
    /// then the limbs. A leaf.
    BigInt,
    /// Text rope node: total byte length, then two child text references.
    Concat,
}

/// Decode a tag word into a shape, if it names one.
pub open spec fn spec_tag_of(w: u32) -> Option<Tag> {
    if w == TAG_OBJECT {
        Some(Tag::Object)
    } else if w == TAG_OBJ_IND {
        Some(Tag::ObjInd)
    } else if w == TAG_ARRAY {
        Some(Tag::Array)
    } else if w == TAG_BITS64 {
        Some(Tag::Bits64)
    } else if w == TAG_MUTBOX {
        Some(Tag::MutBox)
    } else if w == TAG_CLOSURE {
        Some(Tag::Closure)
    } else if w == TAG_SOME {
        Some(Tag::SomeBox)
    } else if w == TAG_VARIANT {
        Some(Tag::Variant)
    } else if w == TAG_BLOB {
        Some(Tag::Blob)
    } else if w == TAG_FWD_PTR {
        Some(Tag::FwdPtr)
    } else if w == TAG_BITS32 {
        Some(Tag::Bits32)
    } else if w == TAG_BIGINT {
        Some(Tag::BigInt)
    } else if w == TAG_CONCAT {
        Some(Tag::Concat)
    } else {
        None
    }
}

/// Decode a tag word into a shape, if it names one.
pub fn decode_tag(w: u32) -> (t: Option<Tag>)
    ensures
        t == spec_tag_of(w),
{
    if w == TAG_OBJECT {
        Some(Tag::Object)
    } else if w == TAG_OBJ_IND {
        Some(Tag::ObjInd)
    } else if w == TAG_ARRAY {
        Some(Tag::Array)
    } else if w == TAG_BITS64 {
        Some(Tag::Bits64)
    } else if w == TAG_MUTBOX {
        Some(Tag::MutBox)
    } else if w == TAG_CLOSURE {
        Some(Tag::Closure)
    } else if w == TAG_SOME {
        Some(Tag::SomeBox)
    } else if w == TAG_VARIANT {
        Some(Tag::Variant)
    } else if w == TAG_BLOB {
        Some(Tag::Blob)
    } else if w == TAG_FWD_PTR {
        Some(Tag::FwdPtr)
    } else if w == TAG_BITS32 {
        Some(Tag::Bits32)
    } else if w == TAG_BIGINT {
        Some(Tag::BigInt)
    } else if w == TAG_CONCAT {
        Some(Tag::Concat)
    } else {
        None
    }
}

/// The tag word that names a shape.
pub fn tag_word(t: Tag) -> (w: u32)
    ensures
        spec_tag_of(w) == Some(t),
{
    match t {
        Tag::Object => TAG_OBJECT,
        Tag::ObjInd => TAG_OBJ_IND,
        Tag::Array => TAG_ARRAY,
        Tag::Bits64 => TAG_BITS64,
        Tag::MutBox => TAG_MUTBOX,
        Tag::Closure => TAG_CLOSURE,
        Tag::SomeBox => TAG_SOME,
        Tag::Variant => TAG_VARIANT,
        Tag::Blob => TAG_BLOB,
        Tag::FwdPtr => TAG_FWD_PTR,
        Tag::Bits32 => TAG_BITS32,
        Tag::BigInt => TAG_BIGINT,
        Tag::Concat => TAG_CONCAT,
    }
}

/// Fixed header width of a shape, in words, tag word included.
pub open spec fn spec_header_words(t: Tag) -> int {
    match t {
        Tag::Object => 3,
        Tag::ObjInd => 2,
        Tag::Array => 2,
        Tag::Bits64 => 3,
        Tag::MutBox => 2,
        Tag::Closure => 3,
        Tag::SomeBox => 2,
        Tag::Variant => 3,
        Tag::Blob => 2,
        Tag::FwdPtr => 2,
        Tag::Bits32 => 2,
        Tag::BigInt => 4,
        Tag::Concat => 4,
    }
}

/// Whether the whole fixed header of the object at `a` lies in the heap.
pub open spec fn spec_header_in_bounds(h: Heap, a: int) -> bool
    recommends
        spec_tag_of(h.word(a)) is Some,
{
    a + 4 * spec_header_words(spec_tag_of(h.word(a)).unwrap()) <= h.spec_end()
}

/// Total size in words of the object at `a`: the fixed header plus the
/// variable part driven by the header's count field.
pub open spec fn spec_size_words(h: Heap, a: int) -> int
    recommends
        h.contains(a),
        spec_tag_of(h.word(a)) is Some,
{
    match spec_tag_of(h.word(a)).unwrap() {
        Tag::Object => 3 + h.word(a + 4),
        Tag::Array => 2 + h.word(a + 4),
        Tag::Closure => 3 + h.word(a + 8),
        Tag::Blob => 2 + (h.word(a + 4) + 3) / 4,
        Tag::BigInt => 4 + h.word(a + 12),
        Tag::Bits64 => 3,
        Tag::Variant => 3,
        Tag::Concat => 4,
        Tag::ObjInd => 2,
        Tag::MutBox => 2,
        Tag::SomeBox => 2,
        Tag::FwdPtr => 2,
        Tag::Bits32 => 2,
    }
}

/// What sizing the object at `a` yields: its size in words, or the
/// integrity fault that sizing it runs into.
pub open spec fn spec_object_size(h: Heap, a: int) -> Result<int, HeapError>
    recommends
        h.contains(a),
{
    match spec_tag_of(h.word(a)) {
        None => Err(HeapError::UnknownTag),
        Some(t) => if !spec_header_in_bounds(h, a) {
            Err(HeapError::TruncatedObject)
        } else {
            Ok(spec_size_words(h, a))
        },
    }
}

/// Size of the object at `a` in words. An unregistered tag or a header
/// running past the heap is an integrity fault, not a size.
pub fn object_size(h: &Heap, a: u32) -> (r: Result<u64, HeapError>)
    requires
        h.wf(),
        h.contains(a as int),
    ensures
        match (r, spec_object_size(*h, a as int)) {
            (Ok(n), Ok(m)) => n == m,
            (Err(e1), Err(e2)) => e1 == e2,
            _ => false,
        },
{
    let tag_w = h.load(a);
    let t = match decode_tag(tag_w) {
        Some(t) => t,
        None => {
            return Err(HeapError::UnknownTag);
        },
    };
    let hw: u32 = match t {
        Tag::Object => 3,
        Tag::ObjInd => 2,
        Tag::Array => 2,
        Tag::Bits64 => 3,
        Tag::MutBox => 2,
        Tag::Closure => 3,
        Tag::SomeBox => 2,
        Tag::Variant => 3,
        Tag::Blob => 2,
        Tag::FwdPtr => 2,
        Tag::Bits32 => 2,
        Tag::BigInt => 4,
        Tag::Concat => 4,
    };
    let e = h.end();
    if a as u64 + 4 * hw as u64 > e as u64 {
        return Err(HeapError::TruncatedObject);
    }
    assert(spec_header_in_bounds(*h, a as int));
    let n: u64 = match t {
        Tag::Object => 3 + h.load(a + 4) as u64,
        Tag::Array => 2 + h.load(a + 4) as u64,
        Tag::Closure => 3 + h.load(a + 8) as u64,
        Tag::Blob => 2 + (h.load(a + 4) as u64 + 3) / 4,
        Tag::BigInt => 4 + h.load(a + 12) as u64,
        Tag::Bits64 => 3,
        Tag::Variant => 3,
        Tag::Concat => 4,
        Tag::ObjInd => 2,
        Tag::MutBox => 2,
        Tag::SomeBox => 2,
        Tag::FwdPtr => 2,
        Tag::Bits32 => 2,
    };
    Ok(n)
}

} // verus!
