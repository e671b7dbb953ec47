//! The streaming queue: an ordered sequence of pending sources feeding one
//! continuous output.  Draining is destructive pop-on-exhaustion, and when the
//! head source runs out mid-pull the next head begins contributing within the
//! same pull — the mechanism for gapless continuation.

use crate::source::Source;
use vstd::prelude::*;

verus! {

/// All samples of a sequence of sources, in order.
pub open spec fn concat_sources(ss: Seq<Source>) -> Seq<i64>
    decreases ss.len(),
{
    if ss.len() == 0 {
        Seq::empty()
    } else {
        ss[0].samples@ + concat_sources(ss.skip(1))
    }
}

/// What one pull of `n` frames hands out, given the samples remaining in the
/// queue: the real frames while they last, silence afterwards.
pub open spec fn pulled_padded(rem: Seq<i64>, n: nat) -> Seq<i64> {
    Seq::new(
        n,
        |i: int|
            if i < rem.len() {
                rem[i]
            } else {
                0i64
            },
    )
}

/// The samples still queued after `k` frames were consumed.
pub open spec fn after_consuming(rem: Seq<i64>, k: nat) -> Seq<i64> {
    if k <= rem.len() {
        rem.skip(k as int)
    } else {
        Seq::empty()
    }
}

proof fn lemma_concat_push(ss: Seq<Source>, s: Source)
    ensures
        concat_sources(ss.push(s)) =~= concat_sources(ss) + s.samples@,
    decreases ss.len(),
{
    if ss.len() == 0 {
        assert(ss.push(s)[0] == s);
        assert(ss.push(s).skip(1) =~= Seq::<Source>::empty());
        assert(concat_sources(Seq::<Source>::empty()) == Seq::<i64>::empty());
        assert(concat_sources(ss.push(s)) == s.samples@ + Seq::<i64>::empty());
        assert(s.samples@ + Seq::<i64>::empty() =~= s.samples@);
        assert(concat_sources(ss) + s.samples@ =~= s.samples@);
    } else {
        assert(ss.push(s).skip(1) =~= ss.skip(1).push(s));
        lemma_concat_push(ss.skip(1), s);
        assert(concat_sources(ss.push(s)) =~= ss[0].samples@ + (concat_sources(ss.skip(1))
            + s.samples@));
    }
}

/// Holds an ordered list of pending sources for one sink, with the position
/// already consumed from the head source.
pub struct SourcesQueue {
    /// The pending sources, head first.
    pub sources: Vec<Source>,
    /// How many samples of the head source were already handed out.
    pub head_pos: usize,
}

impl SourcesQueue {
    /// The consumed position never passes the end of the head source, and
    /// every queued source is well formed.
    pub open spec fn wf(self) -> bool {
        &&& (self.sources@.len() == 0 ==> self.head_pos == 0)
        &&& (self.sources@.len() > 0 ==> self.head_pos <= self.sources@[0].samples@.len())
        &&& forall|i: int| 0 <= i < self.sources@.len() ==> (#[trigger] self.sources@[i]).wf()
    }

    /// The samples this queue has yet to hand out, in order.
    pub open spec fn remaining(self) -> Seq<i64> {
        concat_sources(self.sources@).skip(self.head_pos as int)
    }

    /// An empty queue: nothing pending.
    pub fn new() -> (r: SourcesQueue)
        ensures
            r.wf(),
            r.remaining() == Seq::<i64>::empty(),
    {
        let q = SourcesQueue { sources: Vec::new(), head_pos: 0 };
        proof {
            assert(q.remaining() =~= Seq::<i64>::empty());
        }
        q
    }

    /// Add a source at the tail.  May be called while the queue is actively
    /// draining: the pending samples grow by exactly the new source's
    /// samples, and nothing already queued moves.
    pub fn append(&mut self, source: Source)
        requires
            old(self).wf(),
            source.wf(),
        ensures
            final(self).wf(),
            final(self).remaining() == old(self).remaining() + source.samples@,
    {
        proof {
            lemma_concat_push(self.sources@, source);
            if self.sources@.len() > 0 {
                assert(concat_sources(self.sources@) == self.sources@[0].samples@ + concat_sources(
                    self.sources@.skip(1),
                ));
            }
        }
        self.sources.push(source);
        proof {
            assert(final(self).remaining() =~= old(self).remaining() + source.samples@);
        }
    }

    /// Discard everything pending.
    pub fn clear(&mut self)
        ensures
            final(self).wf(),
            final(self).remaining() == Seq::<i64>::empty(),
    {
        self.sources = Vec::new();
        self.head_pos = 0;
        proof {
            assert(final(self).remaining() =~= Seq::<i64>::empty());
        }
    }

    /// Whether nothing is pending.
    pub fn is_empty(&self) -> (r: bool)
        requires
            self.wf(),
        ensures
            r <==> self.remaining().len() == 0 && self.sources@.len() == 0,
    {
        self.sources.len() == 0
    }

    /// Whether the source now draining supports repositioning; meaningful
    /// only when the queue is not empty.
    pub fn head_seekable(&self) -> (r: bool)
        requires
            self.wf(),
        ensures
            r <==> self.sources@.len() > 0 && self.sources@[0].seekable,
    {
        if self.sources.len() == 0 {
            false
        } else {
            self.sources[0].seekable
        }
    }

    /// Retrieve the next `n` frames for the render path.  Exhausted head
    /// sources are removed and the next head contributes within the same
    /// pull, so queued tracks follow each other without one inserted silent
    /// frame; only when the whole queue is drained does silence pad the rest.
    pub fn pull(&mut self, n: usize) -> (r: Vec<i64>)
        requires
            old(self).wf(),
        ensures
            final(self).wf(),
            r@ == pulled_padded(old(self).remaining(), n as nat),
            final(self).remaining() == after_consuming(old(self).remaining(), n as nat),
    {
        let ghost orig: Seq<i64> = self.remaining();
        let mut out: Vec<i64> = Vec::new();
        while out.len() < n
            invariant
                self.wf(),
                out@.len() <= n,
                forall|i: int|
                    0 <= i < out@.len() ==> out@[i] == (if i < orig.len() {
                        orig[i]
                    } else {
                        0i64
                    }),
                self.remaining() == after_consuming(orig, out@.len() as nat),
            decreases n - out@.len(), self.sources@.len(),
        {
            let ghost k: int = out@.len() as int;
            if self.sources.len() == 0 {
                proof {
                    assert(self.remaining() =~= Seq::<i64>::empty());
                    if k < orig.len() {
                        assert(after_consuming(orig, k as nat).len() > 0);
                    }
                }
                out.push(0);
                proof {
                    assert(self.remaining() == after_consuming(orig, (k + 1) as nat));
                }
            } else {
                let head_len: usize = self.sources[0].samples.len();
                proof {
                    assert(concat_sources(self.sources@) == self.sources@[0].samples@
                        + concat_sources(self.sources@.skip(1)));
                }
                if self.head_pos == head_len {
                    let ghost pre = self.sources@;
                    self.sources.remove(0);
                    self.head_pos = 0;
                    proof {
                        assert(self.sources@ =~= pre.skip(1));
                        assert(self.remaining() =~= concat_sources(pre).skip(head_len as int));
                    }
                } else {
                    let s: i64 = self.sources[0].samples[self.head_pos];
                    proof {
                        let rem = self.remaining();
                        assert(rem.len() == concat_sources(self.sources@).len() - self.head_pos);
                        assert(rem[0] == concat_sources(self.sources@)[self.head_pos as int]);
                        assert(rem[0] == s);
                        if k >= orig.len() {
                            assert(after_consuming(orig, k as nat).len() == 0);
                        }
                        assert(k < orig.len());
                        assert(rem == orig.skip(k));
                        assert(orig[k] == s);
                    }
                    out.push(s);
                    let ghost pre_pos: int = self.head_pos as int;
                    self.head_pos = self.head_pos + 1;
                    proof {
                        assert(self.remaining() =~= orig.skip(k).skip(1));
                        assert(orig.skip(k).skip(1) =~= orig.skip(k + 1));
                        assert(self.remaining() == after_consuming(orig, (k + 1) as nat));
                    }
                }
            }
        }
        proof {
            assert(out@ =~= pulled_padded(orig, n as nat)) by {
                assert(out@.len() == n);
            };
        }
        out
    }
}

proof fn lemma_concat_bounded(ss: Seq<Source>)
    requires
        forall|i: int| 0 <= i < ss.len() ==> (#[trigger] ss[i]).wf(),
    ensures
        crate::samples_bounded(concat_sources(ss)),
    decreases ss.len(),
{
    if ss.len() > 0 {
        lemma_concat_bounded(ss.skip(1));
        assert(ss[0].wf());
        assert forall|i: int| 0 <= i < concat_sources(ss).len() implies -(crate::AMP_MAX as int)
            <= #[trigger] concat_sources(ss)[i] <= crate::AMP_MAX as int by {
            if i < ss[0].samples@.len() {
                assert(concat_sources(ss)[i] == ss[0].samples@[i]);
            } else {
                assert(concat_sources(ss)[i] == concat_sources(ss.skip(1))[i
                    - ss[0].samples@.len()]);
            }
        }
    }
}

/// A well-formed queue only holds samples within the amplitude range.
pub proof fn lemma_remaining_bounded(q: SourcesQueue)
    requires
        q.wf(),
    ensures
        crate::samples_bounded(q.remaining()),
{
    lemma_concat_bounded(q.sources@);
}

/// What a pull hands out stays within the amplitude range: real frames come
/// from the queue, the padding is silence.
pub proof fn lemma_pulled_padded_bounded(rem: Seq<i64>, n: nat)
    requires
        crate::samples_bounded(rem),
    ensures
        crate::samples_bounded(pulled_padded(rem, n)),
{
}

/// Gapless invariant: when the next track was appended while the current one
/// was still draining, the queue holds the first track's samples followed at
/// once by the second's, and a pull that crosses the boundary hands out the
/// first track's last real frame and the second track's first real frame in
/// adjacent positions — zero silent frames in between.
pub proof fn lemma_gapless_pull(a: Seq<i64>, b: Seq<i64>, n: nat)
    requires
        n <= a.len() + b.len(),
    ensures
        pulled_padded(a + b, n) =~= (a + b).take(n as int),
        forall|i: int| 0 <= i < n && i < a.len() ==> pulled_padded(a + b, n)[i] == a[i],
        forall|i: int| a.len() <= i < n ==> pulled_padded(a + b, n)[i] == b[i - a.len()],
{
}

/// Non-gapless invariant: after the queue was discarded, every frame a pull
/// yields is silence, until a new source is appended.
pub proof fn lemma_silence_when_empty(n: nat)
    ensures
        forall|i: int| 0 <= i < n ==> pulled_padded(Seq::<i64>::empty(), n)[i] == 0i64,
{
}

} // verus!
