//! The heap dump: a full textual rendering of the closure table, the
//! static roots and the linear heap, produced into a caller-owned bounded
//! sink. A diagnostic aid, not part of the production control path.

use vstd::prelude::*;
use crate::error::HeapError;
use crate::format::{
    ascii_bytes, push_boxed, push_value, push_hex, push_str, spec_hex_text, spec_render_boxed,
    spec_render_value,
};
use crate::heap::Heap;
use crate::roots::ClosureTable;
use crate::scan::{scan, spec_scan};
use crate::sink::{Sink, spec_appended};
use crate::tag::{object_size, decode_tag, spec_object_size, spec_tag_of, Tag};
use crate::value::{is_scalar, unskew, spec_is_scalar, spec_is_skewed_ptr, spec_unskew};

verus! {

/// What one closure-table slot contributes to the dump: nothing when the
/// slot is free or holds a scalar, otherwise an indexed line.
pub open spec fn spec_table_line(h: Heap, s: Seq<Option<u32>>, i: int) -> Seq<u8> {
    match s[i] {
        None => Seq::empty(),
        Some(w) => if spec_is_scalar(w) {
            Seq::empty()
        } else {
            spec_hex_text(i) + ascii_bytes(": "@) + spec_render_value(h, w) + ascii_bytes("\n"@)
        },
    }
}

/// The lines of the first `count` closure-table slots, in slot order.
pub open spec fn spec_table_lines(h: Heap, s: Seq<Option<u32>>, count: int) -> Seq<u8>
    decreases count,
{
    if count <= 0 {
        Seq::empty()
    } else {
        spec_table_lines(h, s, count - 1) + spec_table_line(h, s, count - 1)
    }
}

/// The closure-table section of the dump.
pub open spec fn spec_closure_table_text(h: Heap, s: Seq<Option<u32>>) -> Seq<u8> {
    if s.len() == 0 {
        ascii_bytes("Closure table empty\n"@)
    } else {
        ascii_bytes("Closure table: "@) + spec_hex_text(s.len() as int) + ascii_bytes("\n"@)
            + spec_table_lines(h, s, s.len() as int) + ascii_bytes("End of closure table\n"@)
    }
}

/// Render the closure-table section.
pub fn render_closure_table(h: &Heap, tbl: &ClosureTable) -> (out: Vec<u8>)
    requires
        h.wf(),
    ensures
        out@ == spec_closure_table_text(*h, tbl@),
{
    let mut out: Vec<u8> = Vec::new();
    let n = tbl.len();
    if n == 0 {
        proof {
            reveal_strlit("Closure table empty\n");
        }
        push_str(&mut out, "Closure table empty\n");
        proof {
            assert(out@ =~= spec_closure_table_text(*h, tbl@));
        }
        return out;
    }
    proof {
        reveal_strlit("Closure table: ");
        reveal_strlit("\n");
        reveal_strlit("End of closure table\n");
    }
    push_str(&mut out, "Closure table: ");
    push_hex(&mut out, n as u64);
    push_str(&mut out, "\n");
    let ghost head = out@;
    let mut i: usize = 0;
    proof {
        assert(head + Seq::<u8>::empty() =~= head);
    }
    while i < n
        invariant
            h.wf(),
            i <= n,
            n == tbl@.len(),
            out@ == head + spec_table_lines(*h, tbl@, i as int),
        decreases n - i,
    {
        let slot = match tbl.slot(i) {
            Ok(c) => c,
            Err(_) => {
                proof {
                    assert(false);
                }
                return out;
            },
        };
        match slot {
            Some(w) => {
                if !is_scalar(w) {
                    proof {
                        reveal_strlit(": ");
                        reveal_strlit("\n");
                    }
                    push_hex(&mut out, i as u64);
                    push_str(&mut out, ": ");
                    push_value(&mut out, h, w);
                    push_str(&mut out, "\n");
                }
            },
            None => {},
        }
        i = i + 1;
        proof {
            assert(out@ =~= head + spec_table_lines(*h, tbl@, i as int));
        }
    }
    push_str(&mut out, "End of closure table\n");
    proof {
        assert(out@ =~= spec_closure_table_text(*h, tbl@));
    }
    out
}

/// The lines of the first `count` static roots stored at `base`: each
/// carries its index, its slot's own address, and the referent's
/// rendering.
pub open spec fn spec_root_lines(h: Heap, base: int, count: int) -> Seq<u8>
    decreases count,
{
    if count <= 0 {
        Seq::empty()
    } else {
        spec_root_lines(h, base, count - 1) + spec_hex_text(count - 1) + ascii_bytes(": "@)
            + spec_hex_text(base + 4 * (count - 1)) + ascii_bytes(" --> "@) + spec_render_value(
            h,
            h.word(base + 4 * (count - 1)),
        ) + ascii_bytes("\n"@)
    }
}

/// The static-roots section: the roots value must reference an array that
/// lies whole inside the heap. A banner names the array's address; each
/// element is rendered on its own line, prefixed by its slot's address.
pub open spec fn spec_static_roots_text(h: Heap, w: u32) -> Result<Seq<u8>, HeapError> {
    if !spec_is_skewed_ptr(w) {
        Err(HeapError::BadReference)
    } else {
        let a = spec_unskew(w) as int;
        if !h.contains(a) {
            Err(HeapError::OutOfHeap)
        } else {
            match spec_object_size(h, a) {
                Err(e) => Err(e),
                Ok(n) => if a + 4 * n > h.spec_end() {
                    Err(HeapError::TruncatedObject)
                } else if spec_tag_of(h.word(a)) != Some(Tag::Array) {
                    Err(HeapError::BadReference)
                } else if h.word(a + 4) == 0 {
                    Ok(
                        ascii_bytes("Static roots at "@) + spec_hex_text(a) + ascii_bytes("\n"@)
                            + ascii_bytes("Static roots empty\n"@),
                    )
                } else {
                    Ok(
                        ascii_bytes("Static roots at "@) + spec_hex_text(a) + ascii_bytes("\n"@)
                            + ascii_bytes("Static roots: "@) + spec_hex_text(h.word(a + 4) as int)
                            + ascii_bytes("\n"@) + spec_root_lines(h, a + 8, h.word(a + 4) as int)
                            + ascii_bytes("End of static roots\n"@),
                    )
                },
            }
        }
    }
}

/// Render the static-roots section from the roots value word `w`.
pub fn render_static_roots(h: &Heap, w: u32) -> (r: Result<Vec<u8>, HeapError>)
    requires
        h.wf(),
    ensures
        match (r, spec_static_roots_text(*h, w)) {
            (Ok(v), Ok(t)) => v@ == t,
            (Err(e1), Err(e2)) => e1 == e2,
            _ => false,
        },
{
    if !(w % 4 == 3 && w != 0xffff_ffffu32) {
        return Err(HeapError::BadReference);
    }
    let a = unskew(w);
    if !h.contains_addr(a) {
        return Err(HeapError::OutOfHeap);
    }
    let n = match object_size(h, a) {
        Ok(n) => n,
        Err(e) => {
            return Err(e);
        },
    };
    let e = h.end();
    if a as u64 + 4 * n > e as u64 {
        return Err(HeapError::TruncatedObject);
    }
    let is_array = match decode_tag(h.load(a)) {
        Some(Tag::Array) => true,
        _ => false,
    };
    if !is_array {
        return Err(HeapError::BadReference);
    }
    let len = h.load(a + 4);
    let mut out: Vec<u8> = Vec::new();
    proof {
        reveal_strlit("Static roots at ");
        reveal_strlit("\n");
    }
    push_str(&mut out, "Static roots at ");
    push_hex(&mut out, a as u64);
    push_str(&mut out, "\n");
    if len == 0 {
        proof {
            reveal_strlit("Static roots empty\n");
        }
        push_str(&mut out, "Static roots empty\n");
        proof {
            assert(out@ =~= spec_static_roots_text(*h, w).unwrap());
        }
        return Ok(out);
    }
    proof {
        reveal_strlit("Static roots: ");
        reveal_strlit("End of static roots\n");
    }
    push_str(&mut out, "Static roots: ");
    push_hex(&mut out, len as u64);
    push_str(&mut out, "\n");
    let ghost head = out@;
    let base = a + 8;
    let mut i: u32 = 0;
    proof {
        assert(head + Seq::<u8>::empty() =~= head);
    }
    while i < len
        invariant
            h.wf(),
            i <= len,
            h.base <= base,
            (base - h.base) % 4 == 0,
            base + 4 * len <= h.spec_end(),
            out@ == head + spec_root_lines(*h, base as int, i as int),
        decreases len - i,
    {
        proof {
            reveal_strlit(": ");
            reveal_strlit(" --> ");
            reveal_strlit("\n");
            assert(h.contains(base as int + 4 * i));
        }
        push_hex(&mut out, i as u64);
        push_str(&mut out, ": ");
        push_hex(&mut out, (base + 4 * i) as u64);
        push_str(&mut out, " --> ");
        let elem = h.load(base + 4 * i);
        push_value(&mut out, h, elem);
        push_str(&mut out, "\n");
        i = i + 1;
        proof {
            assert(out@ =~= head + spec_root_lines(*h, base as int, i as int));
        }
    }
    push_str(&mut out, "End of static roots\n");
    proof {
        assert(out@ =~= spec_static_roots_text(*h, w).unwrap());
    }
    Ok(out)
}

/// The rendered lines of the scanned objects, in address order.
pub open spec fn spec_heap_lines(h: Heap, addrs: Seq<u32>) -> Seq<u8>
    decreases addrs.len(),
{
    if addrs.len() == 0 {
        Seq::empty()
    } else {
        spec_heap_lines(h, addrs.drop_last()) + spec_render_boxed(h, addrs.last() as int)
            + ascii_bytes("\n"@)
    }
}

/// The linear-heap section: a banner with the bounds, then one line per
/// object that the scan visits.
pub open spec fn spec_heap_text(h: Heap, base: u32, end: u32) -> Result<Seq<u8>, HeapError> {
    match spec_scan(h, base as int, end as int) {
        Err(e) => Err(e),
        Ok(addrs) => Ok(
            ascii_bytes("Heap begin="@) + spec_hex_text(base as int) + ascii_bytes(" end="@)
                + spec_hex_text(end as int) + ascii_bytes(" size="@) + spec_hex_text(
                end - base,
            ) + ascii_bytes("\n"@) + spec_heap_lines(h, addrs),
        ),
    }
}

/// Render the linear-heap section of `base .. end`.
pub fn render_heap(h: &Heap, base: u32, end: u32) -> (r: Result<Vec<u8>, HeapError>)
    requires
        h.wf(),
    ensures
        match (r, spec_heap_text(*h, base, end)) {
            (Ok(v), Ok(t)) => v@ == t,
            (Err(e1), Err(e2)) => e1 == e2,
            _ => false,
        },
{
    let addrs = match scan(h, base, end) {
        Ok(v) => v,
        Err(e) => {
            return Err(e);
        },
    };
    proof {
        if base > end {
            assert(spec_scan(*h, base as int, end as int) is Err);
            assert(false);
        }
    }
    let mut out: Vec<u8> = Vec::new();
    proof {
        reveal_strlit("Heap begin=");
        reveal_strlit(" end=");
        reveal_strlit(" size=");
        reveal_strlit("\n");
    }
    push_str(&mut out, "Heap begin=");
    push_hex(&mut out, base as u64);
    push_str(&mut out, " end=");
    push_hex(&mut out, end as u64);
    push_str(&mut out, " size=");
    push_hex(&mut out, (end - base) as u64);
    push_str(&mut out, "\n");
    let ghost head = out@;
    let mut j: usize = 0;
    proof {
        assert(addrs@.take(0) =~= Seq::<u32>::empty());
        assert(head + Seq::<u8>::empty() =~= head);
    }
    while j < addrs.len()
        invariant
            h.wf(),
            j <= addrs@.len(),
            out@ == head + spec_heap_lines(*h, addrs@.take(j as int)),
        decreases addrs@.len() - j,
    {
        proof {
            reveal_strlit("\n");
        }
        push_boxed(&mut out, h, addrs[j]);
        push_str(&mut out, "\n");
        j = j + 1;
        proof {
            assert(addrs@.take(j as int).drop_last() =~= addrs@.take(j as int - 1));
            assert(addrs@.take(j as int).last() == addrs@[j as int - 1]);
            assert(out@ =~= head + spec_heap_lines(*h, addrs@.take(j as int)));
        }
    }
    proof {
        assert(addrs@.take(addrs@.len() as int) =~= addrs@);
        assert(out@ =~= spec_heap_text(*h, base, end).unwrap());
    }
    Ok(out)
}

/// The whole dump: closure table, then static roots, then the linear
/// heap; the first integrity fault wins and produces no text at all.
pub open spec fn spec_dump_text(
    h: Heap,
    slots: Seq<Option<u32>>,
    roots_w: u32,
    base: u32,
    end: u32,
) -> Result<Seq<u8>, HeapError> {
    match spec_static_roots_text(h, roots_w) {
        Err(e) => Err(e),
        Ok(t2) => match spec_heap_text(h, base, end) {
            Err(e) => Err(e),
            Ok(t3) => Ok(spec_closure_table_text(h, slots) + t2 + t3),
        },
    }
}

/// Render the full dump into the sink: closure table, static roots, and
/// the linear heap between the given bounds. On a fault nothing is
/// written and the sink is untouched; a dump that exceeds the sink's
/// capacity is cut there, never grown.
pub fn dump_heap(
    h: &Heap,
    tbl: &ClosureTable,
    roots_w: u32,
    base: u32,
    end: u32,
    sink: &mut Sink,
) -> (r: Result<(), HeapError>)
    requires
        h.wf(),
        old(sink).wf(),
    ensures
        final(sink).wf(),
        final(sink).cap == old(sink).cap,
        match (r, spec_dump_text(*h, tbl@, roots_w, base, end)) {
            (Ok(()), Ok(t)) => {
                &&& final(sink).data@ == spec_appended(old(sink).data@, old(sink).cap as int, t)
                &&& final(sink).truncated == (old(sink).truncated || t.len() > old(sink).cap - old(
                    sink,
                ).data@.len())
            },
            (Err(e1), Err(e2)) => {
                &&& e1 == e2
                &&& final(sink).data@ == old(sink).data@
                &&& final(sink).truncated == old(sink).truncated
            },
            _ => false,
        },
{
    let mut out = render_closure_table(h, tbl);
    let mut sr = match render_static_roots(h, roots_w) {
        Ok(v) => v,
        Err(e) => {
            return Err(e);
        },
    };
    let mut hp = match render_heap(h, base, end) {
        Ok(v) => v,
        Err(e) => {
            return Err(e);
        },
    };
    out.append(&mut sr);
    out.append(&mut hp);
    proof {
        assert(out@ == spec_dump_text(*h, tbl@, roots_w, base, end).unwrap());
    }
    sink.write(out.as_slice());
    Ok(())
}

} // verus!
