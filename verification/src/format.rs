//! The diagnostic formatter: renders a value or a single heap object as
//! bounded ASCII text. Arrays show at most their first ten elements,
//! followed by an explicit truncation marker; whatever exceeds the sink's
//! capacity is dropped, never buffered.

use vstd::prelude::*;
use crate::error::HeapError;
use crate::heap::Heap;
use crate::sink::{Sink, spec_appended};
use crate::tag::{spec_tag_of, spec_object_size, decode_tag, object_size, Tag};
use crate::value::{spec_is_scalar, spec_is_skewed_ptr, spec_unskew, is_scalar, unskew};

verus! {

/// The bytes of an ASCII text, one byte per character.
pub open spec fn ascii_bytes(s: Seq<char>) -> Seq<u8> {
    Seq::new(s.len(), |i: int| s[i] as u8)
}

/// Append an ASCII text to a byte builder.
pub(crate) fn push_str(out: &mut Vec<u8>, s: &str)
    requires
        vstd::string::is_ascii(s),
    ensures
        final(out)@ == old(out)@ + ascii_bytes(s@),
{
    let b: &[u8] = s.as_bytes();
    proof {
        vstd::string::is_ascii_spec_bytes(s);
        assert(b@ =~= ascii_bytes(s@));
    }
    let mut j: usize = 0;
    proof {
        assert(old(out)@ + b@.take(0) =~= old(out)@);
    }
    while j < b.len()
        invariant
            j <= b@.len(),
            b@ == ascii_bytes(s@),
            out@ == old(out)@ + b@.take(j as int),
        decreases b@.len() - j,
    {
        out.push(b[j]);
        j = j + 1;
        proof {
            assert(out@ =~= old(out)@ + b@.take(j as int));
        }
    }
    proof {
        assert(b@.take(b@.len() as int) =~= b@);
    }
}

/// The ASCII byte of one hexadecimal digit.
pub open spec fn spec_hex_digit(d: int) -> u8 {
    if d < 10 {
        (48 + d) as u8
    } else {
        (87 + d) as u8
    }
}

/// The hexadecimal digits of `n`, most significant first, no leading
/// zeros except for zero itself.
pub open spec fn spec_hex_rep(n: int) -> Seq<u8>
    recommends
        n >= 0,
    decreases n,
{
    if n < 16 {
        seq![spec_hex_digit(if n >= 0 { n } else { 0 })]
    } else {
        spec_hex_rep(n / 16).push(spec_hex_digit(n % 16))
    }
}

/// The rendering of `n`: `0x` followed by its hexadecimal digits.
pub open spec fn spec_hex_text(n: int) -> Seq<u8> {
    ascii_bytes("0x"@) + spec_hex_rep(n)
}

/// Append the digits of `spec_hex_rep(m)` to a byte builder.
pub(crate) fn push_hex_digits(out: &mut Vec<u8>, m: u64)
    ensures
        final(out)@ == old(out)@ + spec_hex_rep(m as int),
    decreases m,
{
    if m < 16 {
        let d: u8 = if m < 10 {
            48 + m as u8
        } else {
            87 + m as u8
        };
        out.push(d);
        proof {
            assert(out@ =~= old(out)@ + spec_hex_rep(m as int));
        }
    } else {
        push_hex_digits(out, m / 16);
        let r = m % 16;
        let d: u8 = if r < 10 {
            48 + r as u8
        } else {
            87 + r as u8
        };
        out.push(d);
        proof {
            assert(out@ =~= old(out)@ + spec_hex_rep(m as int));
        }
    }
}

/// Append `0x` and the digits of `m` to a byte builder.
pub(crate) fn push_hex(out: &mut Vec<u8>, m: u64)
    ensures
        final(out)@ == old(out)@ + spec_hex_text(m as int),
{
    proof {
        reveal_strlit("0x");
    }
    push_str(out, "0x");
    push_hex_digits(out, m);
    proof {
        assert(out@ =~= old(out)@ + spec_hex_text(m as int));
    }
}

/// One rendered element of a word run: a space, then the word in hex.
/// `spec_render_elems(h, base, k)` renders the first `k` words at `base`.
pub open spec fn spec_render_elems(h: Heap, base: int, count: int) -> Seq<u8>
    decreases count,
{
    if count <= 0 {
        Seq::empty()
    } else {
        spec_render_elems(h, base, count - 1) + ascii_bytes(" "@) + spec_hex_text(
            h.word(base + 4 * (count - 1)) as int,
        )
    }
}

/// Append ` 0x..` for each of the `count` words at `base`.
pub(crate) fn push_elems(out: &mut Vec<u8>, h: &Heap, base: u32, count: u32)
    requires
        h.wf(),
        h.base <= base,
        (base - h.base) % 4 == 0,
        base + 4 * count <= h.spec_end(),
    ensures
        final(out)@ == old(out)@ + spec_render_elems(*h, base as int, count as int),
{
    let mut i: u32 = 0;
    proof {
        assert(old(out)@ + Seq::<u8>::empty() =~= old(out)@);
    }
    while i < count
        invariant
            h.wf(),
            i <= count,
            h.base <= base,
            (base - h.base) % 4 == 0,
            base + 4 * count <= h.spec_end(),
            out@ == old(out)@ + spec_render_elems(*h, base as int, i as int),
        decreases count - i,
    {
        proof {
            reveal_strlit(" ");
            assert(h.contains(base as int + 4 * i));
        }
        push_str(out, " ");
        let w = h.load(base + 4 * i);
        push_hex(out, w as u64);
        i = i + 1;
        proof {
            assert(out@ =~= old(out)@ + spec_render_elems(*h, base as int, i as int));
        }
    }
}

/// The rendered body of the object at `a`, by shape.
pub open spec fn spec_render_body(h: Heap, a: int) -> Seq<u8>
    recommends
        h.contains(a),
        spec_tag_of(h.word(a)) is Some,
{
    match spec_tag_of(h.word(a)).unwrap() {
        Tag::Object => ascii_bytes("<Object size="@) + spec_hex_text(h.word(a + 4) as int)
            + ascii_bytes(" hash="@) + spec_hex_text(h.word(a + 8) as int) + ascii_bytes(
            " fields=["@,
        ) + spec_render_elems(h, a + 12, h.word(a + 4) as int) + ascii_bytes("]>"@),
        Tag::ObjInd => ascii_bytes("<ObjInd field="@) + spec_hex_text(h.word(a + 4) as int)
            + ascii_bytes(">"@),
        Tag::Array => ascii_bytes("<Array len="@) + spec_hex_text(h.word(a + 4) as int)
            + spec_render_elems(
            h,
            a + 8,
            if h.word(a + 4) > 10 {
                10
            } else {
                h.word(a + 4) as int
            },
        ) + (if h.word(a + 4) > 10 {
            ascii_bytes(" ...>"@)
        } else {
            ascii_bytes(">"@)
        }),
        Tag::Bits64 => ascii_bytes("<Bits64 "@) + spec_hex_text(
            h.word(a + 4) + 0x1_0000_0000 * h.word(a + 8),
        ) + ascii_bytes(">"@),
        Tag::MutBox => ascii_bytes("<MutBox field="@) + spec_hex_text(h.word(a + 4) as int)
            + ascii_bytes(">"@),
        Tag::Closure => ascii_bytes("<Closure code="@) + spec_hex_text(h.word(a + 4) as int)
            + ascii_bytes(" size="@) + spec_hex_text(h.word(a + 8) as int) + ascii_bytes(">"@),
        Tag::SomeBox => ascii_bytes("<Some field="@) + spec_hex_text(h.word(a + 4) as int)
            + ascii_bytes(">"@),
        Tag::Variant => ascii_bytes("<Variant tag="@) + spec_hex_text(h.word(a + 4) as int)
            + ascii_bytes(" field="@) + spec_hex_text(h.word(a + 8) as int) + ascii_bytes(">"@),
        Tag::Blob => ascii_bytes("<Blob len="@) + spec_hex_text(h.word(a + 4) as int)
            + ascii_bytes(">"@),
        Tag::FwdPtr => ascii_bytes("<Forwarded to "@) + spec_hex_text(h.word(a + 4) as int)
            + ascii_bytes(">"@),
        Tag::Bits32 => ascii_bytes("<Bits32 "@) + spec_hex_text(h.word(a + 4) as int)
            + ascii_bytes(">"@),
        Tag::BigInt => ascii_bytes("<BigInt sign="@) + spec_hex_text(h.word(a + 4) as int)
            + ascii_bytes(" used="@) + spec_hex_text(h.word(a + 8) as int) + ascii_bytes(
            " alloc="@,
        ) + spec_hex_text(h.word(a + 12) as int) + ascii_bytes(">"@),
        Tag::Concat => ascii_bytes("<Concat len="@) + spec_hex_text(h.word(a + 4) as int)
            + ascii_bytes(" text1="@) + spec_hex_text(h.word(a + 8) as int) + ascii_bytes(
            " text2="@,
        ) + spec_hex_text(h.word(a + 12) as int) + ascii_bytes(">"@),
    }
}

/// The rendered line for the object at address `a`: the address, then the
/// body, or a distinct marker where the object cannot be read safely.
pub open spec fn spec_render_boxed(h: Heap, a: int) -> Seq<u8> {
    if !h.contains(a) {
        spec_hex_text(a) + ascii_bytes(": <out of heap>"@)
    } else {
        match spec_object_size(h, a) {
            Err(HeapError::UnknownTag) => spec_hex_text(a) + ascii_bytes(": <??? "@)
                + spec_hex_text(h.word(a) as int) + ascii_bytes(" ???>"@),
            Err(_) => spec_hex_text(a) + ascii_bytes(": <truncated object>"@),
            Ok(n) => if a + 4 * n > h.spec_end() {
                spec_hex_text(a) + ascii_bytes(": <truncated object>"@)
            } else {
                spec_hex_text(a) + ascii_bytes(": "@) + spec_render_body(h, a)
            },
        }
    }
}

/// The rendering of a value word: a scalar marker, the referenced object,
/// or an invalid-reference marker.
pub open spec fn spec_render_value(h: Heap, w: u32) -> Seq<u8> {
    if spec_is_scalar(w) {
        ascii_bytes("<Scalar "@) + spec_hex_text(w as int) + ascii_bytes(">"@)
    } else if !spec_is_skewed_ptr(w) {
        ascii_bytes("<Invalid "@) + spec_hex_text(w as int) + ascii_bytes(">"@)
    } else {
        spec_render_boxed(h, spec_unskew(w) as int)
    }
}

/// Append the rendered line for the object at `a`.
pub(crate) fn push_boxed(out: &mut Vec<u8>, h: &Heap, a: u32)
    requires
        h.wf(),
    ensures
        final(out)@ == old(out)@ + spec_render_boxed(*h, a as int),
{
    push_hex(out, a as u64);
    if !h.contains_addr(a) {
        proof {
            reveal_strlit(": <out of heap>");
        }
        push_str(out, ": <out of heap>");
        proof {
            assert(out@ =~= old(out)@ + spec_render_boxed(*h, a as int));
        }
        return ;
    }
    let n = match object_size(h, a) {
        Err(e) => {
            if let HeapError::UnknownTag = e {
                proof {
                    reveal_strlit(": <??? ");
                    reveal_strlit(" ???>");
                }
                push_str(out, ": <??? ");
                push_hex(out, h.load(a) as u64);
                push_str(out, " ???>");
            } else {
                proof {
                    reveal_strlit(": <truncated object>");
                }
                push_str(out, ": <truncated object>");
            }
            proof {
                assert(out@ =~= old(out)@ + spec_render_boxed(*h, a as int));
            }
            return ;
        },
        Ok(n) => n,
    };
    let e = h.end();
    if a as u64 + 4 * n > e as u64 {
        proof {
            reveal_strlit(": <truncated object>");
        }
        push_str(out, ": <truncated object>");
        proof {
            assert(out@ =~= old(out)@ + spec_render_boxed(*h, a as int));
        }
        return ;
    }
    proof {
        reveal_strlit(": ");
    }
    push_str(out, ": ");
    push_body(out, h, a);
    proof {
        assert(out@ =~= old(out)@ + spec_render_boxed(*h, a as int));
    }
}

/// Append the rendered body of the fully in-bounds object at `a`.
#[verifier::rlimit(60)]
pub(crate) fn push_body(out: &mut Vec<u8>, h: &Heap, a: u32)
    requires
        h.wf(),
        h.contains(a as int),
        spec_object_size(*h, a as int) is Ok,
        a + 4 * spec_object_size(*h, a as int).unwrap() <= h.spec_end(),
    ensures
        final(out)@ == old(out)@ + spec_render_body(*h, a as int),
{
    let tag_w = h.load(a);
    let t = match decode_tag(tag_w) {
        Some(t) => t,
        None => {
            proof {
                assert(false);
            }
            return ;
        },
    };
    match t {
        Tag::Object => {
            proof {
                reveal_strlit("<Object size=");
                reveal_strlit(" hash=");
                reveal_strlit(" fields=[");
                reveal_strlit("]>");
            }
            let k = h.load(a + 4);
            push_str(out, "<Object size=");
            push_hex(out, k as u64);
            push_str(out, " hash=");
            push_hex(out, h.load(a + 8) as u64);
            push_str(out, " fields=[");
            push_elems(out, h, a + 12, k);
            push_str(out, "]>");
        },
        Tag::ObjInd => {
            proof {
                reveal_strlit("<ObjInd field=");
                reveal_strlit(">");
            }
            push_str(out, "<ObjInd field=");
            push_hex(out, h.load(a + 4) as u64);
            push_str(out, ">");
        },
        Tag::Array => {
            proof {
                reveal_strlit("<Array len=");
                reveal_strlit(" ...>");
                reveal_strlit(">");
            }
            let len = h.load(a + 4);
            push_str(out, "<Array len=");
            push_hex(out, len as u64);
            let shown = if len > 10 {
                10
            } else {
                len
            };
            push_elems(out, h, a + 8, shown);
            if len > 10 {
                push_str(out, " ...>");
            } else {
                push_str(out, ">");
            }
        },
        Tag::Bits64 => {
            proof {
                reveal_strlit("<Bits64 ");
                reveal_strlit(">");
            }
            push_str(out, "<Bits64 ");
            let lo = h.load(a + 4) as u64;
            let hi = h.load(a + 8) as u64;
            push_hex(out, lo + 0x1_0000_0000u64 * hi);
            push_str(out, ">");
        },
        Tag::MutBox => {
            proof {
                reveal_strlit("<MutBox field=");
                reveal_strlit(">");
            }
            push_str(out, "<MutBox field=");
            push_hex(out, h.load(a + 4) as u64);
            push_str(out, ">");
        },
        Tag::Closure => {
            proof {
                reveal_strlit("<Closure code=");
                reveal_strlit(" size=");
                reveal_strlit(">");
            }
            push_str(out, "<Closure code=");
            push_hex(out, h.load(a + 4) as u64);
            push_str(out, " size=");
            push_hex(out, h.load(a + 8) as u64);
            push_str(out, ">");
        },
        Tag::SomeBox => {
            proof {
                reveal_strlit("<Some field=");
                reveal_strlit(">");
            }
            push_str(out, "<Some field=");
            push_hex(out, h.load(a + 4) as u64);
            push_str(out, ">");
        },
        Tag::Variant => {
            proof {
                reveal_strlit("<Variant tag=");
                reveal_strlit(" field=");
                reveal_strlit(">");
            }
            push_str(out, "<Variant tag=");
            push_hex(out, h.load(a + 4) as u64);
            push_str(out, " field=");
            push_hex(out, h.load(a + 8) as u64);
            push_str(out, ">");
        },
        Tag::Blob => {
            proof {
                reveal_strlit("<Blob len=");
                reveal_strlit(">");
            }
            push_str(out, "<Blob len=");
            push_hex(out, h.load(a + 4) as u64);
            push_str(out, ">");
        },
        Tag::FwdPtr => {
            proof {
                reveal_strlit("<Forwarded to ");
                reveal_strlit(">");
            }
            push_str(out, "<Forwarded to ");
            push_hex(out, h.load(a + 4) as u64);
            push_str(out, ">");
        },
        Tag::Bits32 => {
            proof {
                reveal_strlit("<Bits32 ");
                reveal_strlit(">");
            }
            push_str(out, "<Bits32 ");
            push_hex(out, h.load(a + 4) as u64);
            push_str(out, ">");
        },
        Tag::BigInt => {
            proof {
                reveal_strlit("<BigInt sign=");
                reveal_strlit(" used=");
                reveal_strlit(" alloc=");
                reveal_strlit(">");
            }
            push_str(out, "<BigInt sign=");
            push_hex(out, h.load(a + 4) as u64);
            push_str(out, " used=");
            push_hex(out, h.load(a + 8) as u64);
            push_str(out, " alloc=");
            push_hex(out, h.load(a + 12) as u64);
            push_str(out, ">");
        },
        Tag::Concat => {
            proof {
                reveal_strlit("<Concat len=");
                reveal_strlit(" text1=");
                reveal_strlit(" text2=");
                reveal_strlit(">");
            }
            push_str(out, "<Concat len=");
            push_hex(out, h.load(a + 4) as u64);
            push_str(out, " text1=");
            push_hex(out, h.load(a + 8) as u64);
            push_str(out, " text2=");
            push_hex(out, h.load(a + 12) as u64);
            push_str(out, ">");
        },
    }
    proof {
        assert(out@ =~= old(out)@ + spec_render_body(*h, a as int));
    }
}

/// Append the rendering of the value word `w`.
pub(crate) fn push_value(out: &mut Vec<u8>, h: &Heap, w: u32)
    requires
        h.wf(),
    ensures
        final(out)@ == old(out)@ + spec_render_value(*h, w),
{
    if is_scalar(w) {
        proof {
            reveal_strlit("<Scalar ");
            reveal_strlit(">");
        }
        push_str(out, "<Scalar ");
        push_hex(out, w as u64);
        push_str(out, ">");
        proof {
            assert(out@ =~= old(out)@ + spec_render_value(*h, w));
        }
    } else if !(w % 4 == 3 && w != 0xffff_ffffu32) {
        proof {
            reveal_strlit("<Invalid ");
            reveal_strlit(">");
        }
        push_str(out, "<Invalid ");
        push_hex(out, w as u64);
        push_str(out, ">");
        proof {
            assert(out@ =~= old(out)@ + spec_render_value(*h, w));
        }
    } else {
        push_boxed(out, h, unskew(w));
    }
}

/// Render the value word `w` as fresh bytes.
pub fn render_value(h: &Heap, w: u32) -> (out: Vec<u8>)
    requires
        h.wf(),
    ensures
        out@ == spec_render_value(*h, w),
{
    let mut out: Vec<u8> = Vec::new();
    push_value(&mut out, h, w);
    proof {
        assert(out@ =~= spec_render_value(*h, w));
    }
    out
}

/// Render the object at address `a` as fresh bytes.
pub fn render_boxed_object(h: &Heap, a: u32) -> (out: Vec<u8>)
    requires
        h.wf(),
    ensures
        out@ == spec_render_boxed(*h, a as int),
{
    let mut out: Vec<u8> = Vec::new();
    push_boxed(&mut out, h, a);
    proof {
        assert(out@ =~= spec_render_boxed(*h, a as int));
    }
    out
}

/// Render the value word `w` into a bounded sink. Whatever the rendering's
/// length and the sink's capacity, the sink never grows past its capacity.
pub fn format_value(h: &Heap, w: u32, sink: &mut Sink)
    requires
        h.wf(),
        old(sink).wf(),
    ensures
        final(sink).wf(),
        final(sink).cap == old(sink).cap,
        final(sink).data@ == spec_appended(
            old(sink).data@,
            old(sink).cap as int,
            spec_render_value(*h, w),
        ),
        final(sink).truncated == (old(sink).truncated || spec_render_value(*h, w).len() > old(
            sink,
        ).cap - old(sink).data@.len()),
{
    let v = render_value(h, w);
    sink.write(v.as_slice());
}

/// Render the object at `a` into a bounded sink, within its capacity.
pub fn format_boxed_object(h: &Heap, a: u32, sink: &mut Sink)
    requires
        h.wf(),
        old(sink).wf(),
    ensures
        final(sink).wf(),
        final(sink).cap == old(sink).cap,
        final(sink).data@ == spec_appended(
            old(sink).data@,
            old(sink).cap as int,
            spec_render_boxed(*h, a as int),
        ),
        final(sink).truncated == (old(sink).truncated || spec_render_boxed(*h, a as int).len()
            > old(sink).cap - old(sink).data@.len()),
{
    let v = render_boxed_object(h, a);
    sink.write(v.as_slice());
}

} // verus!
