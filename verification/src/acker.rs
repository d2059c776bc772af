use vstd::prelude::*;

verus! {

/// The credit mechanism that advances the upstream buffer's read pointer.
/// Requests are numbered in submission order; responses may land in any
/// order, and the acker grants credit only for the contiguous prefix of
/// terminated requests, so the buffer's book-keeping stays FIFO.
#[derive(Clone, Debug)]
pub struct Acker {
    /// How many leading requests have been credited.
    acked: usize,
    /// Per submitted sequence number, whether that request has terminated.
    done: Vec<bool>,
}

impl Acker {
    /// The terminated requests, in submission order.
    pub closed spec fn view(self) -> Seq<bool> {
        self.done@
    }

    /// How many leading requests have been credited.
    pub closed spec fn spec_acked(self) -> int {
        self.acked as int
    }

    /// The credit always equals the length of a contiguous terminated
    /// prefix, and stops exactly at the first request still in flight.
    pub open spec fn is_valid(self) -> bool {
        &&& self.spec_acked() <= self@.len()
        &&& (forall|j: int| 0 <= j < self.spec_acked() ==> self@[j])
        &&& (self.spec_acked() < self@.len() ==> !self@[self.spec_acked()])
    }

    /// No requests submitted, no credit granted.
    pub fn new() -> (r: Self)
        ensures
            r.is_valid(),
            r@.len() == 0,
            r.spec_acked() == 0,
    {
        Acker { acked: 0, done: Vec::new() }
    }

    pub fn acked(&self) -> (r: usize)
        ensures
            r == self.spec_acked(),
    {
        self.acked
    }

    pub fn submitted(&self) -> (r: usize)
        ensures
            r == self@.len(),
    {
        self.done.len()
    }

    /// Register one submitted request; its sequence number is its position
    /// in submission order.
    pub fn submit(&mut self) -> (seq: usize)
        requires
            old(self).is_valid(),
            old(self)@.len() < usize::MAX,
        ensures
            final(self).is_valid(),
            seq == old(self)@.len(),
            final(self)@ == old(self)@.push(false),
            final(self).spec_acked() == old(self).spec_acked(),
    {
        let seq: usize = self.done.len();
        self.done.push(false);
        seq
    }

    /// Record that request `seq` terminated, and advance the credit over
    /// the now-contiguous terminated prefix.
    pub fn complete(&mut self, seq: usize)
        requires
            old(self).is_valid(),
            seq < old(self)@.len(),
        ensures
            final(self).is_valid(),
            final(self)@ == old(self)@.update(seq as int, true),
            final(self).spec_acked() >= old(self).spec_acked(),
    {
        self.done[seq] = true;
        let n: usize = self.done.len();
        let mut a: usize = self.acked;
        while a < n && self.done[a]
            invariant
                a <= n,
                n == self.done.len(),
                forall|j: int| 0 <= j < a ==> self.done@[j],
            decreases n - a,
        {
            a = a + 1;
        }
        self.acked = a;
    }
}

/// FIFO credit: the granted credit is the largest `k` such that every
/// request numbered below `k` has terminated — no fewer (this lemma) and
/// no more (validity: every credited request has terminated).
pub proof fn lemma_acker_fifo(a: Acker, k: int)
    requires
        a.is_valid(),
        0 <= k <= a@.len(),
        forall|j: int| 0 <= j < k ==> a@[j],
    ensures
        k <= a.spec_acked(),
{
    if k > a.spec_acked() {
        assert(a@[a.spec_acked()]);
        assert(false);
    }
}

} // verus!
