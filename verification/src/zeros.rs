//! Counting zero-valued bytes in an object body that arrives in chunks.

use vstd::prelude::*;

verus! {

/// The number of zero-valued bytes in `bytes`.
pub open spec fn zero_count(bytes: Seq<u8>) -> nat
    decreases bytes.len(),
{
    if bytes.len() == 0 {
        0
    } else {
        zero_count(bytes.drop_last()) + if bytes.last() == 0u8 {
            1nat
        } else {
            0nat
        }
    }
}

/// The body of an object: its chunks joined in the order they arrived.
pub open spec fn body_of(chunks: Seq<Seq<u8>>) -> Seq<u8>
    decreases chunks.len(),
{
    if chunks.len() == 0 {
        Seq::empty()
    } else {
        body_of(chunks.drop_last()) + chunks.last()
    }
}

/// The views of a vector of chunks.
pub open spec fn chunk_views(chunks: Seq<Vec<u8>>) -> Seq<Seq<u8>> {
    Seq::new(chunks.len(), |i: int| chunks[i]@)
}

/// Chunk boundaries do not matter: the zero bytes of two pieces joined are
/// the zero bytes of the first plus those of the second.
pub proof fn lemma_zero_count_concat(a: Seq<u8>, b: Seq<u8>)
    ensures
        zero_count(a + b) == zero_count(a) + zero_count(b),
    decreases b.len(),
{
    if b.len() == 0 {
        assert(a + b =~= a);
    } else {
        lemma_zero_count_concat(a, b.drop_last());
        assert((a + b).drop_last() =~= a + b.drop_last());
    }
}

/// Counts the zero-valued bytes of one chunk.
pub fn count_zeros(chunk: &[u8]) -> (n: usize)
    ensures
        n == zero_count(chunk@),
{
    let mut n: usize = 0;
    let mut i: usize = 0;
    while i < chunk.len()
        invariant
            i <= chunk.len(),
            n == zero_count(chunk@.take(i as int)),
            n <= i,
        decreases chunk.len() - i,
    {
        proof {
            assert(chunk@.take(i + 1).drop_last() =~= chunk@.take(i as int));
        }
        if chunk[i] == 0 {
            n = n + 1;
        }
        i = i + 1;
    }
    proof {
        assert(chunk@.take(i as int) =~= chunk@);
    }
    n
}

/// A running count of the zero bytes of one object while its body streams in.
pub struct ZeroTally {
    zeros: usize,
    seen: Ghost<Seq<u8>>,
}

impl ZeroTally {
    /// The bytes absorbed so far, in arrival order.
    pub closed spec fn consumed(&self) -> Seq<u8> {
        self.seen@
    }

    /// The tally agrees with the bytes absorbed so far.
    pub closed spec fn wf(&self) -> bool {
        self.zeros == zero_count(self.seen@)
    }

    /// A tally that has seen no bytes.
    pub fn new() -> (t: Self)
        ensures
            t.wf(),
            t.consumed() == Seq::<u8>::empty(),
    {
        ZeroTally { zeros: 0, seen: Ghost(Seq::empty()) }
    }

    /// Adds one chunk to the tally. Returns `false`, leaving the tally as it
    /// was, exactly when the new count would not fit in a `usize`.
    pub fn absorb(&mut self, chunk: &[u8]) -> (ok: bool)
        requires
            old(self).wf(),
        ensures
            final(self).wf(),
            ok == (zero_count(old(self).consumed() + chunk@) <= usize::MAX),
            ok ==> final(self).consumed() == old(self).consumed() + chunk@,
            !ok ==> *final(self) == *old(self),
    {
        let n = count_zeros(chunk);
        proof {
            lemma_zero_count_concat(self.seen@, chunk@);
        }
        if n > usize::MAX - self.zeros {
            false
        } else {
            self.zeros = self.zeros + n;
            self.seen = Ghost(self.seen@ + chunk@);
            true
        }
    }

    /// The number of zero bytes absorbed so far.
    pub fn zeros(&self) -> (n: usize)
        requires
            self.wf(),
        ensures
            n == zero_count(self.consumed()),
    {
        self.zeros
    }
}

/// Counts the zero bytes of a whole body given as its chunks. `None` exactly
/// when the count does not fit in a `usize`.
pub fn count_zeros_in_chunks(chunks: &Vec<Vec<u8>>) -> (r: Option<usize>)
    ensures
        r == if zero_count(body_of(chunk_views(chunks@))) <= usize::MAX {
            Some(zero_count(body_of(chunk_views(chunks@))) as usize)
        } else {
            None::<usize>
        },
{
    let mut tally = ZeroTally::new();
    let mut i: usize = 0;
    while i < chunks.len()
        invariant
            i <= chunks.len(),
            tally.wf(),
            tally.consumed() == body_of(chunk_views(chunks@).take(i as int)),
        decreases chunks.len() - i,
    {
        proof {
            let views = chunk_views(chunks@);
            assert(views.take(i + 1).drop_last() =~= views.take(i as int));
            assert(views.take(i + 1).last() == chunks@[i as int]@);
        }
        let ok = tally.absorb(chunks[i].as_slice());
        if !ok {
            proof {
                lemma_zero_count_prefix(chunk_views(chunks@), i + 1);
            }
            return None;
        }
        i = i + 1;
    }
    proof {
        assert(chunk_views(chunks@).take(i as int) =~= chunk_views(chunks@));
    }
    Some(tally.zeros())
}

/// A body holds at least as many zero bytes as any prefix of its chunks.
pub proof fn lemma_zero_count_prefix(chunks: Seq<Seq<u8>>, k: int)
    requires
        0 <= k <= chunks.len(),
    ensures
        zero_count(body_of(chunks.take(k))) <= zero_count(body_of(chunks)),
    decreases chunks.len() - k,
{
    if k == chunks.len() {
        assert(chunks.take(k) =~= chunks);
    } else {
        lemma_zero_count_prefix(chunks, k + 1);
        assert(chunks.take(k + 1).drop_last() =~= chunks.take(k));
        lemma_zero_count_concat(body_of(chunks.take(k)), chunks[k]);
    }
}

} // verus!
