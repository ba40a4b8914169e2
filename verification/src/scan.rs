//! Sequential heap scanning: walk a gap-free run of objects from a base
//! address to a limit, advancing by each object's size.

use vstd::prelude::*;
use crate::error::HeapError;
use crate::heap::Heap;
use crate::tag::{object_size, spec_object_size};

verus! {

/// What scanning `cur .. end` yields: the addresses of the objects laid
/// out back to back, or the first integrity fault. A cursor that does not
/// land exactly on `end` is a fault, and so is an object whose body runs
/// past the heap's own end even when `end` lies beyond it.
pub open spec fn spec_scan(h: Heap, cur: int, end: int) -> Result<Seq<u32>, HeapError>
    decreases end - cur,
{
    if cur == end {
        Ok(Seq::empty())
    } else if cur > end || !h.contains(cur) {
        Err(HeapError::OutOfHeap)
    } else {
        match spec_object_size(h, cur) {
            Err(e) => Err(e),
            Ok(n) => if n < 2 {
                Err(HeapError::BadSize)
            } else if cur + 4 * n > end {
                Err(HeapError::Overshoot)
            } else if cur + 4 * n > h.spec_end() {
                Err(HeapError::TruncatedObject)
            } else {
                match spec_scan(h, cur + 4 * n, end) {
                    Err(e) => Err(e),
                    Ok(s) => Ok(seq![cur as u32] + s),
                }
            },
        }
    }
}

/// Sum in bytes of the sizes of the objects at `addrs`.
pub open spec fn spec_size_sum(h: Heap, addrs: Seq<u32>) -> int
    decreases addrs.len(),
{
    if addrs.len() == 0 {
        0
    } else {
        4 * spec_object_size(h, addrs[0] as int).unwrap() + spec_size_sum(h, addrs.drop_first())
    }
}

/// Scan the objects laid out back to back in `base .. end`.
pub fn scan(h: &Heap, base: u32, end: u32) -> (r: Result<Vec<u32>, HeapError>)
    requires
        h.wf(),
    ensures
        match (r, spec_scan(*h, base as int, end as int)) {
            (Ok(v), Ok(s)) => v@ == s,
            (Err(e1), Err(e2)) => e1 == e2,
            _ => false,
        },
{
    let mut acc: Vec<u32> = Vec::new();
    let mut cur: u32 = base;
    proof {
        assert(acc@ =~= Seq::<u32>::empty());
        assert(forall|s: Seq<u32>| Seq::<u32>::empty() + s =~= s);
    }
    loop
        invariant
            h.wf(),
            spec_scan(*h, base as int, end as int) == (match spec_scan(
                *h,
                cur as int,
                end as int,
            ) {
                Err(e) => Err::<Seq<u32>, HeapError>(e),
                Ok(s) => Ok::<Seq<u32>, HeapError>(acc@ + s),
            }),
        decreases end as int - cur as int + 1,
    {
        if cur == end {
            proof {
                assert(spec_scan(*h, cur as int, end as int) == Ok::<Seq<u32>, HeapError>(
                    Seq::empty(),
                ));
                assert(acc@ + Seq::<u32>::empty() =~= acc@);
            }
            return Ok(acc);
        }
        if cur > end || !h.contains_addr(cur) {
            return Err(HeapError::OutOfHeap);
        }
        let n = match object_size(h, cur) {
            Ok(n) => n,
            Err(e) => {
                return Err(e);
            },
        };
        if n < 2 {
            return Err(HeapError::BadSize);
        }
        if cur as u64 + 4 * n > end as u64 {
            return Err(HeapError::Overshoot);
        }
        let he = h.end();
        if cur as u64 + 4 * n > he as u64 {
            return Err(HeapError::TruncatedObject);
        }
        let ghost prev = cur as int;
        let ghost prev_acc = acc@;
        acc.push(cur);
        cur = cur + 4 * (n as u32);
        proof {
            let s_cur = spec_scan(*h, cur as int, end as int);
            assert(spec_scan(*h, prev, end as int) == (match s_cur {
                Err(e) => Err::<Seq<u32>, HeapError>(e),
                Ok(s) => Ok::<Seq<u32>, HeapError>(seq![prev as u32] + s),
            }));
            if s_cur is Ok {
                assert(prev_acc + (seq![prev as u32] + s_cur.unwrap()) =~= acc@ + s_cur.unwrap());
            }
        }
    }
}

/// Size consistency: a scan that succeeds accounts for every byte of the
/// region, with no remainder.
pub proof fn lemma_scan_size_sum(h: Heap, cur: int, end: int)
    requires
        h.wf(),
        spec_scan(h, cur, end) is Ok,
    ensures
        spec_size_sum(h, spec_scan(h, cur, end).unwrap()) == end - cur,
    decreases end - cur,
{
    if cur == end {
    } else {
        let n = spec_object_size(h, cur).unwrap();
        lemma_scan_size_sum(h, cur + 4 * n, end);
        let s = spec_scan(h, cur + 4 * n, end).unwrap();
        assert(0 <= cur < 0x1_0000_0000) by {
            assert(h.contains(cur));
        }
        assert((seq![cur as u32] + s).drop_first() =~= s);
        assert((seq![cur as u32] + s)[0] == cur as u32);
        assert((cur as u32) as int == cur);
    }
}

} // verus!
