//! A fixed-capacity text sink. Writes past the capacity are dropped, never
//! buffered or grown: a heap under inspection may be mid-compaction or
//! corrupt, and rendering it must not re-enter the allocator's policy.

use vstd::prelude::*;

verus! {

/// What a bounded write leaves in the sink: the old content, extended by
/// as much of `b` as the capacity still admits.
pub open spec fn spec_appended(content: Seq<u8>, cap: int, b: Seq<u8>) -> Seq<u8> {
    let room = if cap >= content.len() {
        cap - content.len()
    } else {
        0
    };
    if b.len() <= room {
        content + b
    } else {
        content + b.take(room)
    }
}

/// A byte sink with a hard capacity and an overflow mark.
pub struct Sink {
    pub data: Vec<u8>,
    pub cap: usize,
    pub truncated: bool,
}

impl Sink {
    /// The content never exceeds the capacity.
    pub open spec fn wf(self) -> bool {
        self.data@.len() <= self.cap
    }

    /// An empty sink of capacity `cap`.
    pub fn new(cap: usize) -> (s: Sink)
        ensures
            s.wf(),
            s.cap == cap,
            s.data@ == Seq::<u8>::empty(),
            !s.truncated,
    {
        Sink { data: Vec::new(), cap, truncated: false }
    }

    /// Append `b`, dropping whatever exceeds the capacity and marking the
    /// overflow. The capacity never changes and is never exceeded.
    pub fn write(&mut self, b: &[u8])
        requires
            old(self).wf(),
        ensures
            final(self).wf(),
            final(self).cap == old(self).cap,
            final(self).data@ == spec_appended(old(self).data@, old(self).cap as int, b@),
            final(self).truncated == (old(self).truncated || b@.len() > old(self).cap
                - old(self).data@.len()),
    {
        let room = self.cap - self.data.len();
        let k = if b.len() <= room {
            b.len()
        } else {
            self.truncated = true;
            room
        };
        let mut j: usize = 0;
        proof {
            assert(old(self).data@ + b@.take(0) =~= old(self).data@);
        }
        while j < k
            invariant
                j <= k,
                k <= b@.len(),
                self.data@.len() == old(self).data@.len() + j,
                self.cap == old(self).cap,
                self.data@ == old(self).data@ + b@.take(j as int),
                self.truncated == (old(self).truncated || b@.len() > old(self).cap - old(
                    self,
                ).data@.len()),
                self.data@.len() <= self.cap,
                k <= old(self).cap - old(self).data@.len(),
            decreases k - j,
        {
            self.data.push(b[j]);
            j = j + 1;
            proof {
                assert(self.data@ =~= old(self).data@ + b@.take(j as int));
            }
        }
        proof {
            if b@.len() <= old(self).cap - old(self).data@.len() {
                assert(b@.take(k as int) =~= b@);
            }
        }
    }

    /// The bytes written so far.
    pub fn bytes(&self) -> (r: &Vec<u8>)
        ensures
            r@ == self.data@,
    {
        &self.data
    }

    /// Whether some write was cut short by the capacity.
    pub fn overflowed(&self) -> (b: bool)
        ensures
            b == self.truncated,
    {
        self.truncated
    }
}

} // verus!
