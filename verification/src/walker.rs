//! The generic object walker: from a value word, discover every object
//! reachable through reference fields, depth first, fields in declared
//! order.
//!
//! The reachable graph is acyclic by construction of the source language,
//! but its depth is not bounded by the object model, so the walk carries an
//! explicit step budget instead of trusting the call stack: running out of
//! budget is a reported failure, never an overflow. A forwarding pointer is
//! not a value-bearing object: the walk follows it to the relocated copy
//! without recording the old address.

use vstd::prelude::*;
use crate::error::HeapError;
use crate::heap::Heap;
use crate::tag::{object_size, spec_object_size, spec_tag_of, decode_tag, Tag};
use crate::value::{is_scalar, unskew, spec_is_scalar, spec_is_skewed_ptr, spec_unskew};

verus! {

/// Address of the first reference field of the object at `a`.
pub open spec fn spec_field_base(t: Tag, a: int) -> int {
    match t {
        Tag::Object => a + 12,
        Tag::Closure => a + 12,
        Tag::Array => a + 8,
        Tag::Variant => a + 8,
        Tag::Concat => a + 8,
        _ => a + 4,
    }
}

/// How many reference fields the object at `a` has.
pub open spec fn spec_field_count(h: Heap, a: int) -> int
    recommends
        h.contains(a),
        spec_tag_of(h.word(a)) is Some,
{
    match spec_tag_of(h.word(a)).unwrap() {
        Tag::Object => h.word(a + 4) as int,
        Tag::Array => h.word(a + 4) as int,
        Tag::Closure => h.word(a + 8) as int,
        Tag::ObjInd => 1,
        Tag::MutBox => 1,
        Tag::SomeBox => 1,
        Tag::Variant => 1,
        Tag::Concat => 2,
        Tag::FwdPtr => 1,
        Tag::Blob => 0,
        Tag::BigInt => 0,
        Tag::Bits32 => 0,
        Tag::Bits64 => 0,
    }
}

/// The reference fields of the object at `a`, in declared order.
pub open spec fn spec_fields(h: Heap, a: int) -> Seq<u32>
    recommends
        h.contains(a),
        spec_tag_of(h.word(a)) is Some,
{
    let t = spec_tag_of(h.word(a)).unwrap();
    Seq::new(spec_field_count(h, a) as nat, |i: int| h.word(spec_field_base(t, a) + 4 * i))
}

/// What walking a value word yields: nothing for a scalar, the walk of the
/// referenced object for a pointer, a fault for a word that is neither.
pub open spec fn spec_walk_value(h: Heap, w: u32, fuel: nat) -> Result<Seq<u32>, HeapError>
    decreases fuel, 1int, 0int,
{
    if spec_is_scalar(w) {
        Ok(Seq::empty())
    } else if !spec_is_skewed_ptr(w) {
        Err(HeapError::BadReference)
    } else {
        spec_walk_addr(h, spec_unskew(w) as int, fuel)
    }
}

/// What walking the object at address `a` yields: the object's address
/// followed by the walks of its fields in declared order; a forwarding
/// pointer is followed without being recorded.
pub open spec fn spec_walk_addr(h: Heap, a: int, fuel: nat) -> Result<Seq<u32>, HeapError>
    decreases fuel, 0int, 0int,
{
    if !h.contains(a) {
        Err(HeapError::OutOfHeap)
    } else {
        match spec_object_size(h, a) {
            Err(e) => Err(e),
            Ok(n) => if a + 4 * n > h.spec_end() {
                Err(HeapError::TruncatedObject)
            } else if fuel == 0 {
                Err(HeapError::OutOfFuel)
            } else if spec_tag_of(h.word(a)) == Some(Tag::FwdPtr) {
                spec_walk_value(h, h.word(a + 4), (fuel - 1) as nat)
            } else {
                match spec_walk_fields(h, spec_fields(h, a), (fuel - 1) as nat) {
                    Err(e) => Err(e),
                    Ok(s) => Ok(seq![a as u32] + s),
                }
            },
        }
    }
}

/// Walk a run of field words left to right, concatenating what each walk
/// discovers; the first fault wins.
pub open spec fn spec_walk_fields(h: Heap, fs: Seq<u32>, fuel: nat) -> Result<Seq<u32>, HeapError>
    decreases fuel, 2int, fs.len(),
{
    if fs.len() == 0 {
        Ok(Seq::empty())
    } else {
        match spec_walk_value(h, fs[0], fuel) {
            Err(e) => Err(e),
            Ok(s1) => match spec_walk_fields(h, fs.drop_first(), fuel) {
                Err(e) => Err(e),
                Ok(s2) => Ok(s1 + s2),
            },
        }
    }
}

/// An executable walk result matches its specified one exactly.
pub open spec fn walk_agrees(r: Result<Vec<u32>, HeapError>, s: Result<Seq<u32>, HeapError>) -> bool {
    match (r, s) {
        (Ok(v), Ok(sq)) => v@ == sq,
        (Err(e1), Err(e2)) => e1 == e2,
        _ => false,
    }
}

/// Walk everything reachable from the value word `w`, spending at most
/// `fuel` object visits.
pub fn visit(h: &Heap, w: u32, fuel: u64) -> (r: Result<Vec<u32>, HeapError>)
    requires
        h.wf(),
    ensures
        walk_agrees(r, spec_walk_value(*h, w, fuel as nat)),
    decreases fuel, 1int, 0int,
{
    if is_scalar(w) {
        Ok(Vec::new())
    } else if !(w % 4 == 3 && w != 0xffff_ffffu32) {
        Err(HeapError::BadReference)
    } else {
        visit_addr(h, unskew(w), fuel)
    }
}

/// Walk the object at address `a` and everything reachable from its
/// fields, spending at most `fuel` object visits.
pub fn visit_addr(h: &Heap, a: u32, fuel: u64) -> (r: Result<Vec<u32>, HeapError>)
    requires
        h.wf(),
    ensures
        walk_agrees(r, spec_walk_addr(*h, a as int, fuel as nat)),
    decreases fuel, 0int, 0int,
{
    if !h.contains_addr(a) {
        return Err(HeapError::OutOfHeap);
    }
    let n = match object_size(h, a) {
        Ok(n) => n,
        Err(e) => {
            return Err(e);
        },
    };
    let e = h.end();
    if a as u64 + 4 * n > e as u64 {
        return Err(HeapError::TruncatedObject);
    }
    if fuel == 0 {
        return Err(HeapError::OutOfFuel);
    }
    let tag_w = h.load(a);
    let t = match decode_tag(tag_w) {
        Some(t) => t,
        None => {
            proof {
                assert(false);
            }
            return Err(HeapError::UnknownTag);
        },
    };
    let sub_fuel = fuel - 1;
    if let Tag::FwdPtr = t {
        let fw = h.load(a + 4);
        return visit(h, fw, sub_fuel);
    }
    let fld_base: u32 = match t {
        Tag::Object => a + 12,
        Tag::Closure => a + 12,
        Tag::Array => a + 8,
        Tag::Variant => a + 8,
        Tag::Concat => a + 8,
        _ => a + 4,
    };
    let count: u32 = match t {
        Tag::Object => h.load(a + 4),
        Tag::Array => h.load(a + 4),
        Tag::Closure => h.load(a + 8),
        Tag::ObjInd => 1,
        Tag::MutBox => 1,
        Tag::SomeBox => 1,
        Tag::Variant => 1,
        Tag::Concat => 2,
        Tag::Blob => 0,
        Tag::BigInt => 0,
        Tag::Bits32 => 0,
        Tag::Bits64 => 0,
        Tag::FwdPtr => 1,
    };
    let ghost fs = spec_fields(*h, a as int);
    proof {
        assert(fs.len() == count);
        assert(fld_base as int == spec_field_base(t, a as int));
        assert(fld_base as int + 4 * count <= a + 4 * n);
    }
    let mut out: Vec<u32> = Vec::new();
    out.push(a);
    let ghost done = Seq::<u32>::empty();
    proof {
        assert(forall|s: Seq<u32>| Seq::<u32>::empty() + s =~= s);
        assert(fs.skip(0) =~= fs);
    }
    let mut i: u32 = 0;
    while i < count
        invariant
            h.wf(),
            i <= count,
            fuel >= 1,
            sub_fuel == fuel - 1,
            h.contains(a as int),
            spec_object_size(*h, a as int) == Ok::<int, HeapError>(n as int),
            a + 4 * n <= h.spec_end(),
            t == spec_tag_of(h.word(a as int)).unwrap(),
            !(t is FwdPtr),
            fs == spec_fields(*h, a as int),
            fs.len() == count,
            fld_base as int == spec_field_base(t, a as int),
            fld_base as int + 4 * count <= a + 4 * n,
            out@ == seq![a] + done,
            spec_walk_fields(*h, fs, sub_fuel as nat) == (match spec_walk_fields(
                *h,
                fs.skip(i as int),
                sub_fuel as nat,
            ) {
                Err(e) => Err::<Seq<u32>, HeapError>(e),
                Ok(s) => Ok::<Seq<u32>, HeapError>(done + s),
            }),
        decreases count - i,
    {
        proof {
            assert(fs.skip(i as int).len() > 0);
            assert(fs.skip(i as int)[0] == fs[i as int]);
            assert(fs.skip(i as int).drop_first() =~= fs.skip(i as int + 1));
            assert(h.contains(fld_base as int + 4 * i));
        }
        let fw = h.load(fld_base + 4 * i);
        proof {
            assert(fw == fs[i as int]);
        }
        let mut sub = match visit(h, fw, sub_fuel) {
            Ok(v) => v,
            Err(e) => {
                return Err(e);
            },
        };
        let ghost sub_seq = sub@;
        out.append(&mut sub);
        proof {
            let old_done = done;
            done = done + sub_seq;
            assert(out@ =~= seq![a] + done);
            if spec_walk_fields(*h, fs.skip(i as int + 1), sub_fuel as nat) is Ok {
                let s2 = spec_walk_fields(*h, fs.skip(i as int + 1), sub_fuel as nat).unwrap();
                assert(old_done + (sub_seq + s2) =~= done + s2);
            }
        }
        i = i + 1;
    }
    proof {
        assert(fs.skip(count as int) =~= Seq::<u32>::empty());
        assert(spec_walk_fields(*h, fs, sub_fuel as nat) == Ok::<Seq<u32>, HeapError>(done));
    }
    Ok(out)
}

} // verus!
