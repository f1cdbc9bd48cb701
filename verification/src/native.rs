//! A model of the engine's reference-counted buffer registry.
//!
//! The native side keeps one reference count per buffer it was handed.  Sharing
//! increments it, dropping a holder decrements it, and when the count reaches
//! zero the engine invokes the release callback that was registered with the
//! buffer — exactly once — and the underlying allocation is freed.
//!
//! [`NativeBuffers`] makes that protocol explicit: one slot per registered
//! buffer, holding the transferred bytes, the current reference count, and how
//! many times the release fired.  The well-formedness invariant pins the
//! exactly-once discipline: the release has fired precisely when the count is
//! zero, and a released slot owns no memory.

use vstd::prelude::*;

verus! {

/// Abstract state of one registered buffer.
pub struct BufModel {
    /// Current native reference count.
    pub refcount: u64,
    /// How many times the release callback fired for this buffer.
    pub releases: u64,
    /// The bytes whose ownership was transferred into the buffer.
    pub data: Seq<u8>,
}

impl BufModel {
    /// The exactly-once release discipline for a single buffer: the release
    /// callback has fired precisely when no references remain — so never more
    /// than once — and released memory is gone.
    pub open spec fn wf(self) -> bool {
        &&& self.releases == if self.refcount == 0 { 1int } else { 0int }
        &&& self.refcount == 0 ==> self.data.len() == 0
    }
}

/// One registered buffer as the registry stores it.
pub struct Slot {
    /// Current native reference count.
    pub refcount: u64,
    /// How many times the release callback fired.
    pub releases: u64,
    /// The bytes whose ownership was transferred to the engine.  Emptied when
    /// the buffer is released.  A buffer the engine allocated for itself (a
    /// drained frame or packet) carries no transferred bytes.
    pub data: Vec<u8>,
}

impl View for Slot {
    type V = BufModel;

    open spec fn view(&self) -> BufModel {
        BufModel { refcount: self.refcount, releases: self.releases, data: self.data@ }
    }
}

/// The engine's buffer registry.  Handles are indices into the registry; a
/// handle stays valid for observation even after its buffer is released.
pub struct NativeBuffers {
    slots: Vec<Slot>,
}

impl View for NativeBuffers {
    type V = Seq<BufModel>;

    closed spec fn view(&self) -> Seq<BufModel> {
        self.slots@.map_values(|s: Slot| s@)
    }
}

/// The registry after a fresh buffer is registered around `data`: one new slot
/// with a single reference and no release fired.
pub open spec fn create_spec(s: Seq<BufModel>, data: Seq<u8>) -> Seq<BufModel> {
    s.push(BufModel { refcount: 1, releases: 0, data })
}

/// The registry after the buffer behind `h` gains a reference.
pub open spec fn incref_spec(s: Seq<BufModel>, h: int) -> Seq<BufModel> {
    s.update(
        h,
        BufModel {
            refcount: (s[h].refcount + 1) as u64,
            releases: s[h].releases,
            data: s[h].data,
        },
    )
}

/// The registry after the buffer behind `h` loses a reference.  When the last
/// reference goes, the release callback fires and the memory is freed.
pub open spec fn decref_spec(s: Seq<BufModel>, h: int) -> Seq<BufModel> {
    if s[h].refcount == 1 {
        s.update(
            h,
            BufModel {
                refcount: 0,
                releases: (s[h].releases + 1) as u64,
                data: Seq::empty(),
            },
        )
    } else {
        s.update(
            h,
            BufModel {
                refcount: (s[h].refcount - 1) as u64,
                releases: s[h].releases,
                data: s[h].data,
            },
        )
    }
}

impl NativeBuffers {
    /// Every registered buffer obeys the exactly-once release discipline.
    pub open spec fn wf(self) -> bool {
        forall|i: int| 0 <= i < self@.len() ==> (#[trigger] self@[i]).wf()
    }

    /// `h` is a handle to a registered buffer.
    pub open spec fn is_handle(self, h: int) -> bool {
        0 <= h < self@.len()
    }

    /// The buffer behind `h` still has outstanding references.
    pub open spec fn alive(self, h: int) -> bool {
        self.is_handle(h) && self@[h].refcount > 0
    }

    /// An empty registry: no buffer has been registered yet.
    pub fn new() -> (r: NativeBuffers)
        ensures
            r.wf(),
            r@ == Seq::<BufModel>::empty(),
    {
        let r = NativeBuffers { slots: Vec::new() };
        proof {
            assert(r@ =~= Seq::<BufModel>::empty());
        }
        r
    }

    /// How many buffers have ever been registered.
    pub fn count(&self) -> (r: usize)
        ensures
            r == self@.len(),
    {
        self.slots.len()
    }

    /// Observe the reference count of a buffer; `None` for a value that was
    /// never a handle.
    pub fn refcount(&self, h: usize) -> (r: Option<u64>)
        ensures
            self.is_handle(h as int) ==> r == Some(self@[h as int].refcount),
            !self.is_handle(h as int) ==> r is None,
    {
        if h < self.slots.len() {
            Some(self.slots[h].refcount)
        } else {
            None
        }
    }

    /// Observe how many times the release callback fired for a buffer; `None`
    /// for a value that was never a handle.
    pub fn releases(&self, h: usize) -> (r: Option<u64>)
        ensures
            self.is_handle(h as int) ==> r == Some(self@[h as int].releases),
            !self.is_handle(h as int) ==> r is None,
    {
        if h < self.slots.len() {
            Some(self.slots[h].releases)
        } else {
            None
        }
    }

    /// Read the bytes a live buffer owns.
    pub fn data(&self, h: usize) -> (r: &Vec<u8>)
        requires
            self.is_handle(h as int),
        ensures
            r@ == self@[h as int].data,
    {
        &self.slots[h].data
    }

    /// Models the engine registering a new reference-counted buffer around
    /// memory whose ownership is transferred to it.  The new buffer starts
    /// with a single reference, held by the caller.
    pub fn create(&mut self, data: Vec<u8>) -> (h: usize)
        requires
            old(self).wf(),
        ensures
            final(self).wf(),
            h == old(self)@.len(),
            final(self)@ == create_spec(old(self)@, data@),
            final(self).alive(h as int),
    {
        let h = self.slots.len();
        self.slots.push(Slot { refcount: 1, releases: 0, data });
        proof {
            assert(self@ =~= create_spec(old(self)@, self.slots@[h as int].data@));
        }
        h
    }

    /// Models the engine (or the bridge) taking one more reference on a live
    /// buffer.
    pub fn incref(&mut self, h: usize)
        requires
            old(self).wf(),
            old(self).alive(h as int),
            old(self)@[h as int].refcount < u64::MAX,
        ensures
            final(self).wf(),
            final(self)@ == incref_spec(old(self)@, h as int),
            final(self)@[h as int].refcount == old(self)@[h as int].refcount + 1,
    {
        let c = self.slots[h].refcount;
        self.slots[h].refcount = c + 1;
        proof {
            assert(self@ =~= incref_spec(old(self)@, h as int));
        }
    }

    /// Models one reference on a live buffer being dropped.  When the last
    /// reference goes, the release callback fires — exactly once — and the
    /// transferred memory is freed.
    pub fn decref(&mut self, h: usize)
        requires
            old(self).wf(),
            old(self).alive(h as int),
        ensures
            final(self).wf(),
            final(self)@ == decref_spec(old(self)@, h as int),
            final(self)@[h as int].refcount == old(self)@[h as int].refcount - 1,
            old(self)@[h as int].refcount == 1 ==> final(self)@[h as int].releases == 1,
            old(self)@[h as int].refcount > 1 ==> final(self)@[h as int].releases == 0,
    {
        let c = self.slots[h].refcount;
        if c == 1 {
            let r = self.slots[h].releases;
            self.slots[h].refcount = 0;
            self.slots[h].releases = r + 1;
            self.slots[h].data = Vec::new();
        } else {
            self.slots[h].refcount = c - 1;
        }
        proof {
            assert(self@ =~= decref_spec(old(self)@, h as int));
        }
    }
}

/// What the engine reports when a codec context is allocated and opened.
pub enum SetupEvent {
    /// The engine could not allocate a context.
    AllocFailed,
    /// The engine refused to open the codec: status code and decoded message.
    OpenFailed(i32, String),
    /// The context is open and ready.
    Opened,
}

/// A buffer is released exactly once, and only once no references remain: in
/// any well-formed registry state, the release callback has fired at most one
/// time for each buffer, and it has fired precisely when the buffer's
/// reference count has reached zero.
pub proof fn lemma_release_exactly_once(bufs: NativeBuffers, h: int)
    requires
        bufs.wf(),
        bufs.is_handle(h),
    ensures
        bufs@[h].releases <= 1,
        (bufs@[h].releases == 1) <==> (bufs@[h].refcount == 0),
{
}

/// Taking a reference on a live buffer and then dropping one reference returns
/// the registry to exactly the state it started in: aliasing a native buffer
/// and later dropping the bridged handle is refcount-neutral and never
/// releases the memory.
pub proof fn lemma_alias_round_trip(s: Seq<BufModel>, h: int)
    requires
        0 <= h < s.len(),
        s[h].refcount >= 1,
        s[h].refcount < u64::MAX,
    ensures
        decref_spec(incref_spec(s, h), h) =~= s,
{
    assert(decref_spec(incref_spec(s, h), h) =~= s);
}

} // verus!
