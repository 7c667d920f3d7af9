//! Frame decoder: turns an appended raw-byte stream into complete,
//! delimiter-terminated frames, regardless of how transport reads fragment
//! or coalesce the stream. A bound on the buffered bytes of one direction
//! protects against a peer that never terminates a line.

use vstd::prelude::*;

verus! {

/// The line delimiter that terminates every frame of the wire protocol.
pub const DELIM: u8 = 10;

/// Failure of the framing layer: the buffered bytes of one direction grew
/// past the configured bound before a delimiter arrived.
#[derive(Debug, Clone, Copy, PartialEq, Eq, Structural)]
pub enum FrameError {
    FrameTooLarge,
}

/// Accumulates the unconsumed tail of one direction's byte stream and hands
/// out the earliest complete frame on demand.
pub struct FrameDecoder {
    buf: Vec<u8>,
    max_frame: usize,
}

impl FrameDecoder {
    /// The bytes received but not yet delivered as part of a frame.
    pub closed spec fn buffered(self) -> Seq<u8> {
        self.buf@
    }

    /// The configured bound on the buffered bytes of this direction.
    pub closed spec fn bound(self) -> nat {
        self.max_frame as nat
    }

    pub fn new(max_frame: usize) -> (d: FrameDecoder)
        ensures
            d.buffered() == Seq::<u8>::empty(),
            d.bound() == max_frame as nat,
    {
        FrameDecoder { buf: Vec::new(), max_frame }
    }

    /// Appends a chunk of raw bytes, exactly as read from the transport.
    pub fn feed(&mut self, chunk: &[u8])
        ensures
            final(self).buffered() == old(self).buffered() + chunk@,
            final(self).bound() == old(self).bound(),
    {
        let mut i: usize = 0;
        while i < chunk.len()
            invariant
                0 <= i <= chunk@.len(),
                self.buf@ == old(self).buf@ + chunk@.subrange(0, i as int),
                self.max_frame == old(self).max_frame,
            decreases chunk@.len() - i,
        {
            self.buf.push(chunk[i]);
            proof {
                assert(chunk@.subrange(0, i + 1) =~= chunk@.subrange(0, i as int).push(chunk@[i as int]));
            }
            i += 1;
        }
        proof {
            assert(chunk@.subrange(0, chunk@.len() as int) =~= chunk@);
        }
    }

    /// Removes and returns the earliest complete frame, without its
    /// delimiter, if one is buffered. When no delimiter is present and the
    /// buffered bytes exceed the bound, the buffer is discarded and the
    /// decoder reports `FrameTooLarge`.
    pub fn next_frame(&mut self) -> (r: Result<Option<Vec<u8>>, FrameError>)
        ensures
            final(self).bound() == old(self).bound(),
            match r {
                Ok(Some(f)) => {
                    &&& old(self).buffered() == f@ + seq![DELIM] + final(self).buffered()
                    &&& !f@.contains(DELIM)
                },
                Ok(None) => {
                    &&& final(self).buffered() == old(self).buffered()
                    &&& !old(self).buffered().contains(DELIM)
                    &&& old(self).buffered().len() <= old(self).bound()
                },
                Err(e) => {
                    &&& e == FrameError::FrameTooLarge
                    &&& !old(self).buffered().contains(DELIM)
                    &&& old(self).buffered().len() > old(self).bound()
                    &&& final(self).buffered() == Seq::<u8>::empty()
                },
            },
    {
        let n = self.buf.len();
        let mut i: usize = 0;
        while i < n
            invariant
                0 <= i <= n,
                n == self.buf@.len(),
                self == old(self),
                forall|j: int| 0 <= j < i ==> self.buf@[j] != DELIM,
            decreases n - i,
        {
            if self.buf[i] == DELIM {
                let mut frame: Vec<u8> = Vec::new();
                let mut j: usize = 0;
                while j < i
                    invariant
                        0 <= j <= i < self.buf@.len(),
                        self == old(self),
                        frame@ == self.buf@.subrange(0, j as int),
                    decreases i - j,
                {
                    frame.push(self.buf[j]);
                    proof {
                        assert(self.buf@.subrange(0, j + 1) =~= self.buf@.subrange(0, j as int).push(self.buf@[j as int]));
                    }
                    j += 1;
                }
                let mut rest: Vec<u8> = Vec::new();
                let mut k: usize = i + 1;
                while k < n
                    invariant
                        i + 1 <= k <= n,
                        n == self.buf@.len(),
                        self == old(self),
                        rest@ == self.buf@.subrange(i + 1, k as int),
                    decreases n - k,
                {
                    rest.push(self.buf[k]);
                    proof {
                        assert(self.buf@.subrange(i + 1, k + 1) =~= self.buf@.subrange(i + 1, k as int).push(self.buf@[k as int]));
                    }
                    k += 1;
                }
                proof {
                    assert(old(self).buffered() =~= frame@ + seq![DELIM] + rest@);
                    assert(forall|j: int| 0 <= j < frame@.len() ==> frame@[j] != DELIM);
                }
                self.buf = rest;
                return Ok(Some(frame));
            }
            i += 1;
        }
        proof {
            assert(!self.buf@.contains(DELIM));
        }
        if self.buf.len() > self.max_frame {
            self.buf = Vec::new();
            Err(FrameError::FrameTooLarge)
        } else {
            Ok(None)
        }
    }
}

/// The buffered bytes that a sequence of delimiter-terminated frames
/// accounts for: each frame followed by its delimiter, in emission order.
pub open spec fn concat_frames(frames: Seq<Seq<u8>>) -> Seq<u8>
    decreases frames.len(),
{
    if frames.len() == 0 {
        Seq::<u8>::empty()
    } else {
        frames[0] + seq![DELIM] + concat_frames(frames.drop_first())
    }
}

/// Every frame of a well-formed framing is free of the delimiter.
pub open spec fn frames_wf(frames: Seq<Seq<u8>>) -> bool {
    forall|i: int| 0 <= i < frames.len() ==> !(#[trigger] frames[i]).contains(DELIM)
}

pub proof fn lemma_concat_frames_push(frames: Seq<Seq<u8>>, f: Seq<u8>)
    ensures
        concat_frames(frames.push(f)) == concat_frames(frames) + f + seq![DELIM],
    decreases frames.len(),
{
    let pushed = frames.push(f);
    assert(pushed.len() > 0);
    assert(pushed[0] + seq![DELIM] + concat_frames(pushed.drop_first()) == concat_frames(pushed));
    if frames.len() == 0 {
        assert(pushed.drop_first() =~= Seq::<Seq<u8>>::empty());
        assert(pushed[0] == f);
        assert(concat_frames(pushed) =~= concat_frames(frames) + f + seq![DELIM]);
    } else {
        assert(pushed.drop_first() =~= frames.drop_first().push(f));
        lemma_concat_frames_push(frames.drop_first(), f);
        assert(pushed[0] == frames[0]);
        assert(frames[0] + seq![DELIM] + concat_frames(frames.drop_first()) == concat_frames(frames));
        assert(concat_frames(pushed) =~= concat_frames(frames) + f + seq![DELIM]);
    }
}

/// A byte stream determines its framing: there is only one way to split a
/// sequence into delimiter-free frames followed by a delimiter-free tail.
/// Together with `feed`'s contract — appending is all a delivery does —
/// this is fragmentation invariance: however reads fragment or coalesce
/// the stream, the frames that come out, and so their classifications,
/// are the same.
pub proof fn lemma_framing_unique(f1: Seq<Seq<u8>>, t1: Seq<u8>, f2: Seq<Seq<u8>>, t2: Seq<u8>)
    requires
        concat_frames(f1) + t1 == concat_frames(f2) + t2,
        frames_wf(f1),
        frames_wf(f2),
        !t1.contains(DELIM),
        !t2.contains(DELIM),
    ensures
        f1 == f2,
        t1 == t2,
    decreases f1.len(),
{
    let s = concat_frames(f1) + t1;
    if f1.len() == 0 && f2.len() == 0 {
        assert(concat_frames(f1) =~= Seq::<u8>::empty());
        assert(concat_frames(f2) =~= Seq::<u8>::empty());
        assert(t1 =~= t2);
        assert(f1 =~= f2);
    } else if f1.len() == 0 {
        assert(concat_frames(f1) =~= Seq::<u8>::empty());
        assert(s =~= t1);
        assert(concat_frames(f2) == f2[0] + seq![DELIM] + concat_frames(f2.drop_first()));
        let i = f2[0].len() as int;
        assert(s =~= f2[0] + seq![DELIM] + (concat_frames(f2.drop_first()) + t2));
        assert(s[i] == DELIM);
        assert(t1[i] == DELIM);
        assert(t1.contains(DELIM));
    } else if f2.len() == 0 {
        assert(concat_frames(f2) =~= Seq::<u8>::empty());
        assert(s =~= t2);
        assert(concat_frames(f1) == f1[0] + seq![DELIM] + concat_frames(f1.drop_first()));
        let i = f1[0].len() as int;
        assert(s =~= f1[0] + seq![DELIM] + (concat_frames(f1.drop_first()) + t1));
        assert(s[i] == DELIM);
        assert(t2[i] == DELIM);
        assert(t2.contains(DELIM));
    } else {
        let a = f1[0];
        let b = f2[0];
        assert(concat_frames(f1) == a + seq![DELIM] + concat_frames(f1.drop_first()));
        assert(concat_frames(f2) == b + seq![DELIM] + concat_frames(f2.drop_first()));
        let r1 = concat_frames(f1.drop_first()) + t1;
        let r2 = concat_frames(f2.drop_first()) + t2;
        assert(s =~= a + seq![DELIM] + r1);
        assert(s =~= b + seq![DELIM] + r2);
        assert(!a.contains(DELIM));
        assert(!b.contains(DELIM));
        if a.len() < b.len() {
            assert(s[a.len() as int] == DELIM);
            assert(b[a.len() as int] == DELIM);
            assert(b.contains(DELIM));
        }
        if b.len() < a.len() {
            assert(s[b.len() as int] == DELIM);
            assert(a[b.len() as int] == DELIM);
            assert(a.contains(DELIM));
        }
        assert(a.len() == b.len());
        assert forall|i: int| 0 <= i < a.len() implies a[i] == b[i] by {
            assert(a[i] == s[i]);
            assert(b[i] == s[i]);
        }
        assert(a =~= b);
        assert(r1.len() == s.len() - a.len() - 1);
        assert(r2.len() == s.len() - b.len() - 1);
        assert forall|k: int| 0 <= k < r1.len() implies r1[k] == r2[k] by {
            assert(r1[k] == s[a.len() + 1 + k]);
            assert(r2[k] == s[b.len() + 1 + k]);
        }
        assert(r1 =~= r2);
        assert(frames_wf(f1.drop_first())) by {
            assert forall|i: int| 0 <= i < f1.drop_first().len()
                implies !(#[trigger] f1.drop_first()[i]).contains(DELIM) by {
                assert(f1.drop_first()[i] == f1[i + 1]);
            }
        }
        assert(frames_wf(f2.drop_first())) by {
            assert forall|i: int| 0 <= i < f2.drop_first().len()
                implies !(#[trigger] f2.drop_first()[i]).contains(DELIM) by {
                assert(f2.drop_first()[i] == f2[i + 1]);
            }
        }
        lemma_framing_unique(f1.drop_first(), t1, f2.drop_first(), t2);
        assert forall|i: int| 0 <= i < f1.len() implies f1[i] == f2[i] by {
            if i > 0 {
                assert(f1.drop_first()[i - 1] == f1[i]);
                assert(f2.drop_first()[i - 1] == f2[i]);
            }
        }
        assert(f1 =~= f2);
    }
}

/// Fragmentation invariance of feeding: delivering a chunk split at any
/// offset leaves the decoder with the same buffered bytes as delivering it
/// whole, so by `next_frame`'s contract the same frames follow.
pub proof fn lemma_feed_split(base: Seq<u8>, chunk: Seq<u8>, cut: int)
    requires
        0 <= cut <= chunk.len(),
    ensures
        (base + chunk.subrange(0, cut)) + chunk.subrange(cut, chunk.len() as int) == base + chunk,
{
    assert((base + chunk.subrange(0, cut)) + chunk.subrange(cut, chunk.len() as int) =~= base + chunk);
}

} // verus!
