use vstd::prelude::*;
use vstd::string::StringExecFns;
use crate::Rect;

verus! {

/// The model of one presentable image: its pixel dimension, the byte length
/// of the writable memory mapping that backs it, and an opaque handle under
/// which the embedding application keeps the protocol-side buffer object and
/// the mapping itself.
#[derive(Clone, Copy, PartialEq, Eq, Structural, Debug)]
pub struct FrameBuffer {
    pub dimension: Rect,
    pub map_len: usize,
    pub handle: u64,
}

/// Releasing a buffer destroys the protocol-side object and unmaps its
/// memory; the embedding application implements this for the resources it
/// holds under a buffer's handle.
pub trait Release {
    fn release(&self);
}

impl FrameBuffer {
    /// A buffer is well formed when its dimension is usable and its mapping
    /// is exactly large enough for one image: height rows of width pixels,
    /// four bytes each.
    pub open spec fn wf(self) -> bool {
        self.dimension.valid() && self.map_len == self.dimension.height * (self.dimension.width * 4)
    }

    /// Plan one buffer of the given dimension. Returns `None` exactly when
    /// the dimension has a non-positive component or the required byte
    /// length does not fit the protocol's signed 32-bit size fields; the
    /// caller must then skip the frame.
    pub fn new(dimension: Rect, handle: u64) -> (r: Option<FrameBuffer>)
        ensures
            r is Some <==> dimension.valid(),
            r is Some ==> r->0 == (FrameBuffer {
                dimension,
                map_len: (dimension.height * (dimension.width * 4)) as usize,
                handle,
            }),
            r is Some ==> r->0.wf(),
    {
        if dimension.width <= 0 || dimension.height <= 0 {
            return None;
        }
        let stride: i128 = (dimension.width as i128) * 4;
        proof {
            assert((dimension.height as int) * ((dimension.width as int) * 4) <= (i32::MAX
                as int) * ((i32::MAX as int) * 4)) by (nonlinear_arith)
                requires
                    0 < dimension.height <= i32::MAX as int,
                    0 < dimension.width <= i32::MAX as int,
            ;
        }
        let len: i128 = (dimension.height as i128) * stride;
        if len > i32::MAX as i128 {
            return None;
        }
        Some(FrameBuffer { dimension, map_len: len as usize, handle })
    }

    /// The byte stride of one pixel row.
    pub fn stride(&self) -> (r: i32)
        requires
            self.wf(),
        ensures
            r == self.dimension.width * 4,
    {
        proof {
            assert(self.dimension.width * 4 <= self.dimension.height * (self.dimension.width
                * 4)) by (nonlinear_arith)
                requires
                    self.dimension.height >= 1,
                    self.dimension.width >= 1,
            ;
        }
        self.dimension.width * 4
    }
}

/// Every well-formed buffer's mapping is exactly one image: for a w by h
/// dimension, h times (w times 4) bytes.
pub proof fn lemma_buffer_size(fb: FrameBuffer)
    requires
        fb.wf(),
    ensures
        fb.map_len == fb.dimension.height * (fb.dimension.width * 4),
        fb.map_len > 0,
{
    assert(fb.dimension.height * (fb.dimension.width * 4) > 0) by (nonlinear_arith)
        requires
            fb.dimension.height >= 1,
            fb.dimension.width >= 1,
    ;
}

/// Whether a character may appear in the random part of a shared-memory
/// object name: an ASCII letter or digit.
pub open spec fn is_alnum_char(c: char) -> bool {
    ('a' <= c && c <= 'z') || ('A' <= c && c <= 'Z') || ('0' <= c && c <= '9')
}

/// Relies on rand's `Alphanumeric` distribution: every sampled byte is an
/// ASCII letter or digit, so the returned tag holds exactly 128 such
/// characters. Nothing is assumed about which ones.
#[verifier::external_body]
fn random_alnum_tag() -> (r: String)
    ensures
        r@.len() == 128,
        forall|i: int| 0 <= i < r@.len() ==> is_alnum_char(r@[i]),
{
    rand::Rng::sample_iter(rand::thread_rng(), rand::distributions::Alphanumeric)
        .take(128)
        .map(char::from)
        .collect()
}

/// The name under which one anonymous shared-memory object is created and
/// immediately unlinked: a fixed prefix followed by a random alphanumeric
/// tag long enough to make collisions negligible.
pub fn shm_name() -> (r: String)
    ensures
        r@.len() == 136,
        r@.subrange(0, 8) == "/buffer-"@,
        forall|i: int| 8 <= i < r@.len() ==> is_alnum_char(r@[i]),
{
    let mut s = String::from_str("/buffer-");
    let tag = random_alnum_tag();
    proof {
        reveal_strlit("/buffer-");
    }
    s.append(tag.as_str());
    proof {
        assert(s@.subrange(0, 8) =~= "/buffer-"@);
    }
    s
}

} // verus!
