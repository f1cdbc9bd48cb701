//! The ownership bridge: wrapping exclusively-owned memory as a native
//! reference-counted buffer, or reusing a buffer the engine already owns.

use vstd::prelude::*;

use crate::native::{decref_spec, incref_spec, create_spec, BufModel, NativeBuffers};

verus! {

/// Something that can be bridged into a native reference-counted buffer.
///
/// A value either transfers exclusively-owned bytes across the boundary (a
/// fresh transfer, freed exactly once by the release callback), or it already
/// is backed by a native buffer, in which case the bridge reuses that buffer
/// instead of wrapping raw memory again.
pub trait Bufferable: Sized {
    /// The existing native buffer this value is backed by, if any.
    spec fn spec_alias(&self) -> Option<usize>;

    /// The exclusively-owned bytes this value hands over when bridged fresh.
    spec fn spec_raw(&self) -> Seq<u8>;

    /// Consume and turn into the exclusively-owned bytes that are handed
    /// across the boundary.  Only meaningful for values that are not already
    /// backed by a native buffer.
    fn into_raw(self) -> (r: Vec<u8>)
        requires
            self.spec_alias() is None,
        ensures
            r@ == self.spec_raw(),
    ;

    /// Internal short-circuit to reuse something that already is a native
    /// buffer.
    fn reuse_av_buffer(&self) -> (r: Option<usize>)
        ensures
            r == self.spec_alias(),
    ;
}

/// A handle to one native reference-counted buffer.  A live `Buffer` owns
/// exactly one native reference; consuming it either hands that reference on
/// (`into_handle`) or gives it back (`release`).  Because both consume the
/// handle, releasing the same reference twice is structurally impossible.
pub struct Buffer {
    /// The registry handle of the buffer this value holds a reference to.
    pub handle: usize,
}

impl Buffer {
    /// The registry handle, for specification purposes.
    pub open spec fn id(self) -> int {
        self.handle as int
    }

    /// Bridges some bufferable data into a native buffer.
    ///
    /// A fresh transfer registers the value's bytes with the engine and starts
    /// the buffer with a single reference — owned by the returned handle.  A
    /// value already backed by a native buffer hands its reference over
    /// instead; no new buffer is registered and no count changes.
    pub fn new<B: Bufferable>(bufs: &mut NativeBuffers, bufferable: B) -> (r: Buffer)
        requires
            old(bufs).wf(),
            bufferable.spec_alias() matches Some(h) ==> old(bufs).alive(h as int),
        ensures
            final(bufs).wf(),
            match bufferable.spec_alias() {
                Some(h) => r.id() == h && final(bufs)@ == old(bufs)@,
                None => r.id() == old(bufs)@.len() && final(bufs)@ == create_spec(
                    old(bufs)@,
                    bufferable.spec_raw(),
                ),
            },
            final(bufs).alive(r.id()),
    {
        let buf = if let Some(v) = bufferable.reuse_av_buffer() {
            v
        } else {
            let data = bufferable.into_raw();
            bufs.create(data)
        };
        Buffer { handle: buf }
    }

    /// Consume the handle and move its native reference out, undecremented.
    /// Models handing the buffer to an engine-facing structure that takes over
    /// the reference.
    pub fn into_handle(self) -> (r: usize)
        ensures
            r == self.id(),
    {
        self.handle
    }

    /// Take one more native reference on the same buffer (shared-ownership
    /// semantics: the buffer lives as long as its longest holder).
    pub fn clone_ref(&self, bufs: &mut NativeBuffers) -> (r: Buffer)
        requires
            old(bufs).wf(),
            old(bufs).alive(self.id()),
            old(bufs)@[self.id()].refcount < u64::MAX,
        ensures
            final(bufs).wf(),
            final(bufs)@ == incref_spec(old(bufs)@, self.id()),
            final(bufs)@[self.id()].refcount == old(bufs)@[self.id()].refcount + 1,
            r.id() == self.id(),
    {
        bufs.incref(self.handle);
        Buffer { handle: self.handle }
    }

    /// Drop a live handle: give its native reference back.  If it was the last
    /// one, the buffer's release fires now.
    pub fn release(self, bufs: &mut NativeBuffers)
        requires
            old(bufs).wf(),
            old(bufs).alive(self.id()),
        ensures
            final(bufs).wf(),
            final(bufs)@ == decref_spec(old(bufs)@, self.id()),
            final(bufs)@[self.id()].refcount == old(bufs)@[self.id()].refcount - 1,
    {
        bufs.decref(self.handle);
    }
}

/// How the registry changes when one unit is bridged and submitted: an
/// already-native payload hands its reference over, owned bytes are registered
/// fresh; the engine takes its own reference if it retains the buffer; and the
/// unit's shell gives its reference back when it is freed after the call.
pub open spec fn submit_bufs_spec(
    s: Seq<BufModel>,
    alias: Option<usize>,
    data: Seq<u8>,
    retained: bool,
) -> Seq<BufModel> {
    let h = match alias {
        Some(a) => a as int,
        None => s.len() as int,
    };
    let s1 = match alias {
        Some(a) => s,
        None => create_spec(s, data),
    };
    let s2 = if retained {
        incref_spec(s1, h)
    } else {
        s1
    };
    decref_spec(s2, h)
}

/// A [`Bufferable`] view of a buffer the engine already owns, for resubmitting
/// engine-produced data (a decoded frame, an encoded packet) without copying
/// or re-wrapping its memory.
pub struct BufferableAvBuffer {
    /// The registry handle of the aliased buffer.  This value owns one native
    /// reference to it.
    pub handle: usize,
}

impl BufferableAvBuffer {
    /// The registry handle, for specification purposes.
    pub open spec fn id(self) -> int {
        self.handle as int
    }

    /// Alias a live native buffer, taking one more reference on it: after
    /// bridging, the buffer's native count is exactly one above what it was.
    pub fn new(bufs: &mut NativeBuffers, h: usize) -> (r: BufferableAvBuffer)
        requires
            old(bufs).wf(),
            old(bufs).alive(h as int),
            old(bufs)@[h as int].refcount < u64::MAX,
        ensures
            final(bufs).wf(),
            final(bufs)@ == incref_spec(old(bufs)@, h as int),
            final(bufs)@[h as int].refcount == old(bufs)@[h as int].refcount + 1,
            r.id() == h,
    {
        bufs.incref(h);
        BufferableAvBuffer { handle: h }
    }

    /// Wrap a native reference that is already owned, without taking another:
    /// ownership of the reference moves into the returned value.
    pub(crate) fn adopt(h: usize) -> (r: BufferableAvBuffer)
        ensures
            r.id() == h,
    {
        BufferableAvBuffer { handle: h }
    }
}

impl Bufferable for BufferableAvBuffer {
    open spec fn spec_alias(&self) -> Option<usize> {
        Some(self.handle)
    }

    open spec fn spec_raw(&self) -> Seq<u8> {
        Seq::empty()
    }

    fn into_raw(self) -> (r: Vec<u8>) {
        // Never reached: this value always reports an alias, so the bridge
        // takes the reuse path.
        Vec::new()
    }

    fn reuse_av_buffer(&self) -> (r: Option<usize>) {
        Some(self.handle)
    }
}

/// Plain owned bytes bridge as a fresh transfer.
impl Bufferable for Vec<u8> {
    open spec fn spec_alias(&self) -> Option<usize> {
        None
    }

    open spec fn spec_raw(&self) -> Seq<u8> {
        self@
    }

    fn into_raw(self) -> (r: Vec<u8>) {
        self
    }

    fn reuse_av_buffer(&self) -> (r: Option<usize>) {
        None
    }
}

} // verus!
