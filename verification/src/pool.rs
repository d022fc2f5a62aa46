use vstd::prelude::*;
use crate::buffer::FrameBuffer;

verus! {

/// The double-buffering manager: an ordered collection of at most two
/// frame buffers. The last buffer in order is the one most recently handed
/// to the compositor for presentation; a draw never targets it while a
/// second buffer is available.
pub struct BufferPool {
    bufs: Vec<FrameBuffer>,
}

impl BufferPool {
    /// The buffers in order; the presented one, if any, is last.
    pub closed spec fn view(&self) -> Seq<FrameBuffer> {
        self.bufs@
    }

    /// The pool never holds more than two buffers, and each is well formed.
    pub open spec fn wf(&self) -> bool {
        self@.len() <= 2 && forall|i: int| 0 <= i < self@.len() ==> self@[i].wf()
    }

    /// The buffer most recently presented, if any.
    pub open spec fn presented(&self) -> Option<FrameBuffer> {
        if self@.len() == 0 {
            None
        } else {
            Some(self@[self@.len() - 1])
        }
    }

    pub fn new() -> (r: BufferPool)
        ensures
            r@ == Seq::<FrameBuffer>::empty(),
            r.wf(),
    {
        BufferPool { bufs: Vec::new() }
    }

    pub fn len(&self) -> (r: usize)
        ensures
            r == self@.len(),
    {
        self.bufs.len()
    }

    /// Read one buffer's model.
    pub fn get(&self, i: usize) -> (r: FrameBuffer)
        requires
            i < self@.len(),
        ensures
            r == self@[i as int],
    {
        self.bufs[i]
    }

    /// When the pool is full, pick the buffer that is not currently
    /// presented as the next draw target and move it into the presented
    /// position; the caller draws into it and presents it. With fewer than
    /// two buffers nothing changes and the caller must allocate instead.
    pub fn rotate_for_draw(&mut self) -> (r: Option<usize>)
        requires
            old(self).wf(),
        ensures
            final(self).wf(),
            old(self)@.len() == 2 ==> r == Some(1usize)
                && final(self)@ =~= seq![old(self)@[1], old(self)@[0]]
                && final(self).presented() == Some(old(self)@[0]),
            old(self)@.len() < 2 ==> r is None && final(self)@ == old(self)@,
    {
        if self.bufs.len() == 2 {
            let b = self.bufs.remove(0);
            self.bufs.push(b);
            Some(1)
        } else {
            None
        }
    }

    /// Append a freshly allocated buffer; it becomes the presented one.
    pub fn push(&mut self, fb: FrameBuffer)
        requires
            old(self).wf(),
            old(self)@.len() < 2,
            fb.wf(),
        ensures
            final(self).wf(),
            final(self)@ =~= old(self)@.push(fb),
            final(self).presented() == Some(fb),
    {
        self.bufs.push(fb);
    }

    /// Empty the pool, handing every buffer back so the caller can release
    /// its protocol object and mapping; skipping a release leaks both.
    pub fn take_all(&mut self) -> (r: Vec<FrameBuffer>)
        requires
            old(self).wf(),
        ensures
            final(self).wf(),
            final(self)@ =~= Seq::<FrameBuffer>::empty(),
            r@ =~= old(self)@,
    {
        let mut out: Vec<FrameBuffer> = Vec::new();
        let n = self.bufs.len();
        let mut i: usize = 0;
        while i < n
            invariant
                n == self.bufs@.len(),
                0 <= i <= n,
                out@ =~= self.bufs@.subrange(0, i as int),
            decreases n - i,
        {
            out.push(self.bufs[i]);
            i += 1;
        }
        proof {
            assert(out@ =~= self.bufs@);
        }
        self.bufs.clear();
        out
    }
}

/// The pool's well-formedness bounds it to two buffers: double buffering
/// never accumulates more.
pub proof fn lemma_pool_capacity(p: &BufferPool)
    requires
        p.wf(),
    ensures
        p@.len() <= 2,
{
}

} // verus!
