//! The bounded rolling buffer of recently received output.
//!
//! A `SessionBuffer` is an append-only byte buffer with a fixed maximum
//! length. When an append would push it over that maximum, the oldest
//! bytes are discarded from the front so that only the most recent
//! `max_capacity` bytes remain. It is a pure data structure: no I/O,
//! and only one owner mutates it at a time. Received bytes are kept as
//! they arrived; decoding them for display is the presentation layer's
//! concern.

use vstd::prelude::*;

verus! {

/// What one append leaves behind: the concatenation of the old contents
/// and the new chunk, trimmed from the front to the newest `cap` bytes
/// whenever the concatenation is longer than `cap`.
pub open spec fn spec_append(buf: Seq<u8>, cap: nat, chunk: Seq<u8>) -> Seq<u8> {
    let joined = buf + chunk;
    if joined.len() <= cap {
        joined
    } else {
        joined.subrange(joined.len() - cap, joined.len() as int)
    }
}

/// What appending every chunk of `chunks`, in order, leaves behind.
pub open spec fn spec_append_all(buf: Seq<u8>, cap: nat, chunks: Seq<Seq<u8>>) -> Seq<u8>
    decreases chunks.len(),
{
    if chunks.len() == 0 {
        buf
    } else {
        spec_append_all(spec_append(buf, cap, chunks.first()), cap, chunks.drop_first())
    }
}

/// A bounded, append-only buffer of received bytes that trims from the
/// front when over capacity.
pub struct SessionBuffer {
    data: Vec<u8>,
    max_capacity: usize,
}

impl View for SessionBuffer {
    type V = Seq<u8>;

    closed spec fn view(&self) -> Seq<u8> {
        self.data@
    }
}

impl SessionBuffer {
    /// The fixed maximum length of this buffer.
    pub closed spec fn cap(&self) -> nat {
        self.max_capacity as nat
    }

    /// The buffer never holds more than its maximum length.
    pub open spec fn wf(&self) -> bool {
        self@.len() <= self.cap()
    }

    /// An empty buffer that will never hold more than `max_capacity` bytes.
    pub fn new(max_capacity: usize) -> (r: Self)
        ensures
            r@ == Seq::<u8>::empty(),
            r.cap() == max_capacity as nat,
            r.wf(),
    {
        SessionBuffer { data: Vec::new(), max_capacity }
    }

    /// The configured maximum length.
    pub fn max_capacity(&self) -> (r: usize)
        ensures
            r as nat == self.cap(),
    {
        self.max_capacity
    }

    /// How many bytes the buffer currently holds.
    pub fn len(&self) -> (r: usize)
        ensures
            r as nat == self@.len(),
    {
        self.data.len()
    }

    /// The current contents, oldest byte first.
    pub fn as_bytes(&self) -> (r: &Vec<u8>)
        ensures
            r@ == self@,
    {
        &self.data
    }

    /// Appends `chunk` at the end, then discards bytes from the front
    /// until the buffer is back within its maximum length.
    pub fn append(&mut self, chunk: &[u8])
        requires
            old(self).wf(),
        ensures
            final(self)@ == spec_append(old(self)@, old(self).cap(), chunk@),
            final(self).cap() == old(self).cap(),
            final(self).wf(),
    {
        let ghost buf0 = self.data@;
        let mut i: usize = 0;
        while i < chunk.len()
            invariant
                i <= chunk.len(),
                self.data@ == buf0 + chunk@.subrange(0, i as int),
                self.max_capacity == old(self).max_capacity,
            decreases chunk.len() - i,
        {
            self.data.push(chunk[i]);
            assert(self.data@ == buf0 + chunk@.subrange(0, (i + 1) as int));
            i += 1;
        }
        assert(chunk@.subrange(0, chunk@.len() as int) =~= chunk@);
        assert(self.data@ == buf0 + chunk@);
        if self.data.len() > self.max_capacity {
            let excess = self.data.len() - self.max_capacity;
            let ghost joined = self.data@;
            let mut trimmed: Vec<u8> = Vec::new();
            let mut j: usize = excess;
            while j < self.data.len()
                invariant
                    excess <= j <= self.data.len(),
                    self.data@ == joined,
                    trimmed@ == joined.subrange(excess as int, j as int),
                    excess as int == joined.len() - self.max_capacity,
                    self.max_capacity == old(self).max_capacity,
                decreases self.data.len() - j,
            {
                trimmed.push(self.data[j]);
                assert(trimmed@ =~= joined.subrange(excess as int, (j + 1) as int));
                j += 1;
            }
            self.data = trimmed;
        }
    }

    /// Appends every chunk of `chunks`, in arrival order, trimming after
    /// each append.
    pub fn append_all(&mut self, chunks: &Vec<Vec<u8>>)
        requires
            old(self).wf(),
        ensures
            final(self)@ == spec_append_all(old(self)@, old(self).cap(), chunks.deep_view()),
            final(self).cap() == old(self).cap(),
            final(self).wf(),
    {
        let ghost buf0 = self@;
        let ghost all = chunks.deep_view();
        let mut i: usize = 0;
        while i < chunks.len()
            invariant
                i <= chunks.len(),
                all == chunks.deep_view(),
                all.len() == chunks@.len(),
                forall|k: int| 0 <= k < all.len() ==> all[k] == chunks@[k]@,
                self@ == spec_append_all(buf0, old(self).cap(), all.take(i as int)),
                self.cap() == old(self).cap(),
                self.wf(),
            decreases chunks.len() - i,
        {
            self.append(chunks[i].as_slice());
            proof {
                lemma_append_all_step(buf0, old(self).cap(), all, i as int);
            }
            i += 1;
        }
        proof {
            assert(all.take(chunks@.len() as int) =~= all);
        }
    }
}

/// Appending the chunks of `chunks.take(i + 1)` is appending those of
/// `chunks.take(i)` and then `chunks[i]`.
proof fn lemma_append_all_step(buf: Seq<u8>, cap: nat, chunks: Seq<Seq<u8>>, i: int)
    requires
        0 <= i < chunks.len(),
    ensures
        spec_append_all(buf, cap, chunks.take(i + 1))
            == spec_append(spec_append_all(buf, cap, chunks.take(i)), cap, chunks[i]),
{
    lemma_append_all_push(buf, cap, chunks.take(i), chunks[i]);
    assert(chunks.take(i).push(chunks[i]) =~= chunks.take(i + 1));
}

/// Appending one more chunk after a batch is one more append at the end.
proof fn lemma_append_all_push(buf: Seq<u8>, cap: nat, chunks: Seq<Seq<u8>>, chunk: Seq<u8>)
    ensures
        spec_append_all(buf, cap, chunks.push(chunk))
            == spec_append(spec_append_all(buf, cap, chunks), cap, chunk),
    decreases chunks.len(),
{
    if chunks.len() == 0 {
        assert(chunks.push(chunk).first() == chunk);
        assert(chunks.push(chunk).drop_first() =~= Seq::<Seq<u8>>::empty());
        assert(spec_append_all(buf, cap, chunks.push(chunk))
            == spec_append_all(spec_append(buf, cap, chunk), cap, Seq::<Seq<u8>>::empty()));
        assert(spec_append_all(buf, cap, chunks) == buf);
    } else {
        assert(chunks.push(chunk).first() == chunks.first());
        assert(chunks.push(chunk).drop_first() =~= chunks.drop_first().push(chunk));
        lemma_append_all_push(spec_append(buf, cap, chunks.first()), cap, chunks.drop_first(), chunk);
        assert(spec_append_all(buf, cap, chunks.push(chunk))
            == spec_append_all(spec_append(buf, cap, chunks.first()), cap, chunks.drop_first().push(chunk)));
    }
}

/// However a buffer within its capacity is appended to, it stays within
/// its capacity.
pub proof fn lemma_append_bounded(buf: Seq<u8>, cap: nat, chunk: Seq<u8>)
    ensures
        buf.len() <= cap ==> spec_append(buf, cap, chunk).len() <= cap,
        spec_append(buf, cap, chunk).len() <= buf.len() + chunk.len(),
{
}

/// However many chunks are appended, a buffer within its capacity stays
/// within its capacity after every one of them.
pub proof fn lemma_append_all_bounded(buf: Seq<u8>, cap: nat, chunks: Seq<Seq<u8>>)
    requires
        buf.len() <= cap,
    ensures
        spec_append_all(buf, cap, chunks).len() <= cap,
    decreases chunks.len(),
{
    if chunks.len() > 0 {
        lemma_append_bounded(buf, cap, chunks.first());
        lemma_append_all_bounded(spec_append(buf, cap, chunks.first()), cap, chunks.drop_first());
    }
}

/// An append that fits is plain concatenation: no trimming happens.
pub proof fn lemma_append_no_trim(buf: Seq<u8>, cap: nat, chunk: Seq<u8>)
    requires
        buf.len() + chunk.len() <= cap,
    ensures
        spec_append(buf, cap, chunk) == buf + chunk,
{
}

/// An append that exceeds the capacity keeps exactly the newest `cap`
/// bytes of the concatenation: the oldest bytes are dropped and the
/// order of the rest is preserved.
pub proof fn lemma_append_trims_to_suffix(buf: Seq<u8>, cap: nat, chunk: Seq<u8>)
    requires
        buf.len() + chunk.len() > cap,
    ensures
        spec_append(buf, cap, chunk).len() == cap,
        spec_append(buf, cap, chunk)
            == (buf + chunk).subrange(buf.len() + chunk.len() - cap, (buf.len() + chunk.len()) as int),
        forall|k: int|
            0 <= k < cap ==> spec_append(buf, cap, chunk)[k]
                == (buf + chunk)[buf.len() + chunk.len() - cap + k],
{
}

/// Chunks appended in order land in the buffer in that order: as long
/// as everything fits, the result is the old contents followed by the
/// chunks' concatenation, never reordered or interleaved.
pub proof fn lemma_append_all_keeps_order(buf: Seq<u8>, cap: nat, chunks: Seq<Seq<u8>>)
    requires
        buf.len() + chunks.flatten().len() <= cap,
    ensures
        spec_append_all(buf, cap, chunks) == buf + chunks.flatten(),
    decreases chunks.len(),
{
    if chunks.len() == 0 {
        assert(buf + chunks.flatten() =~= buf);
    } else {
        assert(chunks.flatten() == chunks.first() + chunks.drop_first().flatten());
        lemma_append_no_trim(buf, cap, chunks.first());
        lemma_append_all_keeps_order(buf + chunks.first(), cap, chunks.drop_first());
        assert((buf + chunks.first()) + chunks.drop_first().flatten() =~= buf + chunks.flatten());
    }
}

} // verus!
