//! The decode pipeline: submit one compressed unit, drain zero or more decoded
//! frames, and re-attach the metadata that the engine's reordering stage does
//! not carry.
//!
//! The engine's part — allocating its context, accepting a packet, producing
//! frames — happens on the far side of the boundary; each of its outcomes
//! enters here as an event argument, and the pipeline functions are verified
//! for every outcome the engine may report.

use vstd::prelude::*;

use crate::buffer::{submit_bufs_spec, Buffer, BufferableAvBuffer, Bufferable};
use crate::error::Error;
use crate::native::{create_spec, decref_spec, NativeBuffers, SetupEvent};
use crate::{Codec, CodecKind, Frame, Packet, PaddedData, INPUT_BUFFER_PADDING};

verus! {

/// Engine flag: decode several frames in parallel.
pub const FF_THREAD_FRAME: i32 = 1;

/// Engine flag: decode several slices of one frame in parallel.
pub const FF_THREAD_SLICE: i32 = 2;

/// What the engine reports when one unit is submitted to it, together with
/// what it did to the bridged buffer.
pub enum SubmitEvent {
    /// The engine could not even allocate the unit's shell.
    NoPacket,
    /// The unit was handed over: the submission status (negative on reject),
    /// its decoded message, and whether the engine retained its own reference
    /// to the bridged buffer past the call.
    Sent { status: i32, detail: String, retained: bool },
}

/// Number of entries the correlation ring holds.  Correlation is only lossless
/// while no more than this many frames are in flight; the capacity must exceed
/// the engine's maximum reorder depth, which is a documented assumption of the
/// design rather than something checked at run time.
pub const RING_CAPACITY: usize = 16;

/// One ring entry matches a correlation id: it is occupied and stores that id.
pub open spec fn entry_matches(e: Option<(i64, usize)>, pts: i64) -> bool {
    e matches Some(p) && p.0 == pts
}

/// The slot scanned immediately before position `pos`, walking a ring of
/// `len` slots backwards (most recent first).
pub open spec fn prev_idx(pos: int, len: int) -> int {
    if pos == 0 {
        len - 1
    } else {
        pos - 1
    }
}

/// The slot written by the `j`-th insertion after position `cur`, for
/// `0 <= j <= len`.
pub open spec fn fwd_idx(cur: int, j: int, len: int) -> int {
    if cur + j < len {
        cur + j
    } else {
        cur + j - len
    }
}

/// The most recent value stored under `pts` among the `k` entries before
/// `pos`, scanning the ring backwards.
pub open spec fn ring_get_back(
    s: Seq<Option<(i64, usize)>>,
    pos: int,
    k: nat,
    pts: i64,
) -> Option<usize>
    decreases k,
{
    if k == 0 {
        None
    } else {
        let idx = prev_idx(pos, s.len() as int);
        match s[idx] {
            Some(p) => if p.0 == pts {
                Some(p.1)
            } else {
                ring_get_back(s, idx, (k - 1) as nat, pts)
            },
            None => ring_get_back(s, idx, (k - 1) as nat, pts),
        }
    }
}

/// Ring state (entries and write position) after storing one pair.
pub open spec fn ring_set(
    s: Seq<Option<(i64, usize)>>,
    cur: int,
    p: (i64, usize),
) -> (Seq<Option<(i64, usize)>>, int) {
    (s.update(cur, Some(p)), if cur + 1 == s.len() { 0int } else { cur + 1 })
}

/// Ring state after storing a whole sequence of pairs, oldest first.
pub open spec fn ring_set_all(
    s: Seq<Option<(i64, usize)>>,
    cur: int,
    ps: Seq<(i64, usize)>,
) -> (Seq<Option<(i64, usize)>>, int)
    decreases ps.len(),
{
    if ps.len() == 0 {
        (s, cur)
    } else {
        let (s1, c1) = ring_set(s, cur, ps[0]);
        ring_set_all(s1, c1, ps.drop_first())
    }
}

/// The slot scanned `j` steps before position `pos` (so `j` ranges over
/// `1..=len` for one full backwards walk).
pub open spec fn back_idx(pos: int, j: int, len: int) -> int {
    if pos - j >= 0 {
        pos - j
    } else {
        pos - j + len
    }
}

/// Walking one slot backwards from `pos` and then `j` more is the same as
/// walking `j + 1` slots backwards from `pos`.
proof fn lemma_back_idx_step(pos: int, j: int, len: int)
    requires
        0 <= pos < len,
        1 <= j,
        j + 1 <= len,
    ensures
        back_idx(prev_idx(pos, len), j, len) == back_idx(pos, j + 1, len),
{
}

/// An id that no occupied slot stores is not retrievable, wherever the scan
/// starts and however far it goes.
pub proof fn lemma_ring_get_none(s: Seq<Option<(i64, usize)>>, pos: int, k: nat, pts: i64)
    requires
        s.len() == RING_CAPACITY,
        0 <= pos < RING_CAPACITY,
        forall|i: int| 0 <= i < s.len() ==> !entry_matches(#[trigger] s[i], pts),
    ensures
        ring_get_back(s, pos, k, pts) is None,
    decreases k,
{
    if k > 0 {
        lemma_ring_get_none(s, prev_idx(pos, s.len() as int), (k - 1) as nat, pts);
    }
}

/// The backwards scan returns the first match it meets: if the slot `m` steps
/// back holds `pv` under the sought id and no slot nearer than that matches,
/// the scan yields `pv`'s value.
proof fn lemma_ring_get_first_match(
    s: Seq<Option<(i64, usize)>>,
    pos: int,
    k: nat,
    pts: i64,
    m: int,
    pv: (i64, usize),
)
    requires
        s.len() == RING_CAPACITY,
        0 <= pos < RING_CAPACITY,
        1 <= m <= k <= RING_CAPACITY,
        s[back_idx(pos, m, RING_CAPACITY as int)] == Some(pv),
        pv.0 == pts,
        forall|j: int|
            1 <= j < m ==> !entry_matches(
                #[trigger] s[back_idx(pos, j, RING_CAPACITY as int)],
                pts,
            ),
    ensures
        ring_get_back(s, pos, k, pts) == Some(pv.1),
    decreases m,
{
    let len = RING_CAPACITY as int;
    let idx = prev_idx(pos, len);
    if m == 1 {
        assert(back_idx(pos, 1, len) == idx);
    } else {
        assert(!entry_matches(s[back_idx(pos, 1, len)], pts));
        assert(back_idx(pos, 1, len) == idx);
        assert forall|j: int| 1 <= j < m - 1 implies !entry_matches(
            #[trigger] s[back_idx(idx, j, len)],
            pts,
        ) by {
            lemma_back_idx_step(pos, j, len);
        }
        lemma_back_idx_step(pos, m - 1, len);
        lemma_ring_get_first_match(s, idx, (k - 1) as nat, pts, m - 1, pv);
    }
}

/// Slot `i` is among the slots the next `n` insertions after `cur` write.
pub open spec fn ring_written(cur: int, n: int, i: int) -> bool {
    exists|j: int| 0 <= j < n && i == fwd_idx(cur, j, RING_CAPACITY as int)
}

/// What a run of insertions leaves behind: the final write position has moved
/// by the number of pairs stored, each stored pair occupies the slot its turn
/// wrote, and every other slot is untouched.
proof fn lemma_ring_set_all_state(
    s: Seq<Option<(i64, usize)>>,
    cur: int,
    ps: Seq<(i64, usize)>,
)
    requires
        s.len() == RING_CAPACITY,
        0 <= cur < RING_CAPACITY,
        ps.len() <= RING_CAPACITY,
    ensures
        ring_set_all(s, cur, ps).0.len() == RING_CAPACITY,
        ring_set_all(s, cur, ps).1 == fwd_idx(cur, ps.len() as int, RING_CAPACITY as int),
        forall|j: int|
            0 <= j < ps.len() ==> ring_set_all(s, cur, ps).0[fwd_idx(
                cur,
                j,
                RING_CAPACITY as int,
            )] == Some(#[trigger] ps[j]),
        forall|i: int|
            0 <= i < RING_CAPACITY && !ring_written(cur, ps.len() as int, i)
                ==> ring_set_all(s, cur, ps).0[i] == #[trigger] s[i],
    decreases ps.len(),
{
    let len = RING_CAPACITY as int;
    if ps.len() > 0 {
        let (s1, c1) = ring_set(s, cur, ps[0]);
        assert(c1 == fwd_idx(cur, 1, len));
        lemma_ring_set_all_state(s1, c1, ps.drop_first());
        let fin = ring_set_all(s, cur, ps);
        assert(fin == ring_set_all(s1, c1, ps.drop_first()));
        assert forall|j: int| 0 <= j < ps.len() implies fin.0[fwd_idx(cur, j, len)] == Some(
            #[trigger] ps[j],
        ) by {
            if j == 0 {
                // The first pair's slot is `cur`; none of the remaining
                // insertions reaches it again, because they stop one short of
                // a full turn of the ring.
                assert(!ring_written(c1, ps.len() - 1, cur)) by {
                    assert forall|jj: int| 0 <= jj < ps.len() - 1 implies fwd_idx(c1, jj, len)
                        != cur by {}
                }
                assert(fin.0[cur] == s1[cur]);
            } else {
                assert(fwd_idx(c1, j - 1, len) == fwd_idx(cur, j, len));
                assert(ps.drop_first()[j - 1] == ps[j]);
            }
        }
        assert forall|i: int|
            0 <= i < len && !ring_written(cur, ps.len() as int, i) implies fin.0[i]
            == (#[trigger] s[i]) by {
            assert(fwd_idx(cur, 0, len) == cur);
            assert(i != cur);
            assert(!ring_written(c1, ps.len() - 1, i)) by {
                assert forall|jj: int| 0 <= jj < ps.len() - 1 implies fwd_idx(c1, jj, len)
                    != i by {
                    assert(fwd_idx(c1, jj, len) == fwd_idx(cur, jj + 1, len));
                }
            }
            assert(s1[i] == s[i]);
        }
        assert(fin.1 == fwd_idx(c1, ps.len() - 1, len));
        assert(fwd_idx(c1, ps.len() - 1, len) == fwd_idx(cur, ps.len() as int, len));
    }
}

/// Correlation is lossless within the ring's capacity: storing up to
/// [`RING_CAPACITY`] pairs with pairwise distinct ids, each id afterwards
/// yields exactly the value stored with it, whatever the ring held before.
///
/// This is what makes the decode pipeline's metadata re-attachment exact:
/// [`Decoder::decode`] records each unit's `(timestamp, rotation)` with
/// [`PtsMap::set`], the engine may hand the frames back in any order, and
/// [`Decoder::next_frame`] attaches [`PtsMap::spec_get`] of the echoed
/// timestamp — which this law pins to the recorded rotation for as long as no
/// more units than the ring holds are in flight.
pub proof fn lemma_ring_lossless_within_capacity(
    s: Seq<Option<(i64, usize)>>,
    cur: int,
    ps: Seq<(i64, usize)>,
)
    requires
        s.len() == RING_CAPACITY,
        0 <= cur < RING_CAPACITY,
        ps.len() <= RING_CAPACITY,
        forall|a: int, b: int| 0 <= a < b < ps.len() ==> (#[trigger] ps[a]).0 != (#[trigger] ps[b]).0,
    ensures
        forall|j: int|
            0 <= j < ps.len() ==> ring_get_back(
                ring_set_all(s, cur, ps).0,
                ring_set_all(s, cur, ps).1,
                RING_CAPACITY as nat,
                (#[trigger] ps[j]).0,
            ) == Some(ps[j].1),
{
    let len = RING_CAPACITY as int;
    lemma_ring_set_all_state(s, cur, ps);
    let fin = ring_set_all(s, cur, ps);
    let n = ps.len() as int;
    assert forall|j: int| 0 <= j < n implies ring_get_back(fin.0, fin.1, RING_CAPACITY as nat, (
    #[trigger] ps[j]).0) == Some(ps[j].1) by {
        let m = n - j;
        // The slot the `j`-th pair occupies sits `n - j` steps behind the
        // final write position.
        assert(back_idx(fin.1, m, len) == fwd_idx(cur, j, len));
        assert(fin.0[back_idx(fin.1, m, len)] == Some(ps[j]));
        // Every slot nearer to the final position holds a later pair, whose id
        // differs.
        assert forall|jj: int| 1 <= jj < m implies !entry_matches(
            #[trigger] fin.0[back_idx(fin.1, jj, len)],
            ps[j].0,
        ) by {
            let j2 = n - jj;
            assert(back_idx(fin.1, jj, len) == fwd_idx(cur, j2, len));
            assert(fin.0[fwd_idx(cur, j2, len)] == Some(ps[j2]));
            assert(ps[j2].0 != ps[j].0);
        }
        lemma_ring_get_first_match(fin.0, fin.1, RING_CAPACITY as nat, ps[j].0, m, ps[j]);
    }
}

/// On overflow the oldest entry goes, silently: storing one pair more than the
/// ring holds, all ids pairwise distinct, the first id is no longer
/// retrievable while each of the [`RING_CAPACITY`] most recent ids still
/// yields its value.  Bounded memory is bought with exactly this loss, which
/// is acceptable only while no more frames than the ring holds are in flight.
pub proof fn lemma_ring_overwrites_oldest(
    s: Seq<Option<(i64, usize)>>,
    cur: int,
    ps: Seq<(i64, usize)>,
)
    requires
        s.len() == RING_CAPACITY,
        0 <= cur < RING_CAPACITY,
        ps.len() == RING_CAPACITY + 1,
        forall|a: int, b: int| 0 <= a < b < ps.len() ==> (#[trigger] ps[a]).0 != (#[trigger] ps[b]).0,
    ensures
        ring_get_back(
            ring_set_all(s, cur, ps).0,
            ring_set_all(s, cur, ps).1,
            RING_CAPACITY as nat,
            ps[0].0,
        ) is None,
        forall|j: int|
            1 <= j < ps.len() ==> ring_get_back(
                ring_set_all(s, cur, ps).0,
                ring_set_all(s, cur, ps).1,
                RING_CAPACITY as nat,
                (#[trigger] ps[j]).0,
            ) == Some(ps[j].1),
{
    let len = RING_CAPACITY as int;
    let (s1, c1) = ring_set(s, cur, ps[0]);
    let rest = ps.drop_first();
    let fin = ring_set_all(s, cur, ps);
    assert(fin == ring_set_all(s1, c1, rest));
    assert(0 <= c1 < len);
    lemma_ring_set_all_state(s1, c1, rest);
    // The remaining insertions fill every slot of the ring, so nothing of the
    // first write survives.
    assert forall|i: int| 0 <= i < len implies !entry_matches(#[trigger] fin.0[i], ps[0].0) by {
        let j = if i >= c1 {
            i - c1
        } else {
            i - c1 + len
        };
        assert(fwd_idx(c1, j, len) == i);
        assert(fin.0[i] == Some(rest[j]));
        assert(rest[j] == ps[j + 1]);
        assert(ps[j + 1].0 != ps[0].0);
    }
    lemma_ring_get_none(fin.0, fin.1, RING_CAPACITY as nat, ps[0].0);
    assert forall|a: int, b: int| 0 <= a < b < rest.len() implies (#[trigger] rest[a]).0 != (
    #[trigger] rest[b]).0 by {
        assert(rest[a] == ps[a + 1]);
        assert(rest[b] == ps[b + 1]);
    }
    lemma_ring_lossless_within_capacity(s1, c1, rest);
    assert forall|j: int| 1 <= j < ps.len() implies ring_get_back(
        fin.0,
        fin.1,
        RING_CAPACITY as nat,
        (#[trigger] ps[j]).0,
    ) == Some(ps[j].1) by {
        assert(rest[j - 1] == ps[j]);
    }
}

/// A fixed-capacity circular map from correlation id to metadata.  Insertion
/// order is write order; on overflow the oldest entry is silently overwritten;
/// a collision on the id is won by the later write.
pub struct PtsMap {
    map: [Option<(i64, usize)>; 16],
    cur: usize,
}

impl PtsMap {
    /// The write position always stays inside the ring.
    #[verifier::type_invariant]
    spec fn inv(self) -> bool {
        self.cur < RING_CAPACITY
    }

    /// The ring's entries, oldest-to-newest only relative to `spec_cur`.
    pub closed spec fn entries(self) -> Seq<Option<(i64, usize)>> {
        self.map@
    }

    /// The slot the next insertion writes.
    pub closed spec fn spec_cur(self) -> int {
        self.cur as int
    }

    /// The ring always holds exactly [`RING_CAPACITY`] slots.
    pub proof fn lemma_shape(&self)
        ensures
            self.entries().len() == RING_CAPACITY,
    {
    }

    /// The value most recently stored under `pts`, if it has not been
    /// overwritten since.
    pub open spec fn spec_get(self, pts: i64) -> Option<usize> {
        ring_get_back(self.entries(), self.spec_cur(), RING_CAPACITY as nat, pts)
    }

    /// Store `value` under the id `pts` at the next ring slot, overwriting the
    /// oldest entry if the ring is full.
    pub fn set(&mut self, pts: i64, value: usize)
        ensures
            (final(self).entries(), final(self).spec_cur()) == ring_set(
                old(self).entries(),
                old(self).spec_cur(),
                (pts, value),
            ),
    {
        proof {
            use_type_invariant(&*self);
        }
        self.map[self.cur] = Some((pts, value));
        self.cur = if self.cur + 1 == RING_CAPACITY {
            0
        } else {
            self.cur + 1
        };
    }

    /// Look up the metadata most recently stored under `pts`: the later write
    /// wins on a collision, and an id that was never stored (or has been
    /// overwritten) yields `None`.
    pub fn get(&self, pts: i64) -> (r: Option<usize>)
        ensures
            r == self.spec_get(pts),
    {
        proof {
            use_type_invariant(self);
        }
        let mut pos: usize = self.cur;
        let mut j: usize = 0;
        while j < RING_CAPACITY
            invariant
                j <= RING_CAPACITY,
                pos < RING_CAPACITY,
                self.entries().len() == RING_CAPACITY,
                ring_get_back(
                    self.entries(),
                    self.spec_cur(),
                    RING_CAPACITY as nat,
                    pts,
                ) == ring_get_back(
                    self.entries(),
                    pos as int,
                    (RING_CAPACITY - j) as nat,
                    pts,
                ),
            decreases RING_CAPACITY - j,
        {
            let idx = if pos == 0 {
                RING_CAPACITY - 1
            } else {
                pos - 1
            };
            if let Some(p) = self.map[idx] {
                if p.0 == pts {
                    return Some(p.1);
                }
            }
            pos = idx;
            j += 1;
        }
        None
    }
}

impl Default for PtsMap {
    /// A fresh ring: every slot unoccupied, writing starts at the first slot.
    fn default() -> (r: Self)
        ensures
            r.entries() =~= Seq::new(RING_CAPACITY as nat, |i: int| None::<(i64, usize)>),
            r.spec_cur() == 0,
    {
        PtsMap { map: [None; 16], cur: 0 }
    }
}

/// How the engine should parallelise decoding.
#[derive(Debug, Clone, PartialEq, Eq, Structural)]
pub enum DecodeThreadType {
    /// Decode more than one frame at once.
    Frame,
    /// Decode more than one part of a single frame at once.
    Slice,
    /// Whatever the decoder's default is.
    Default,
}

/// Decoder construction parameters.
#[derive(Debug, Clone, PartialEq, Eq)]
pub struct DecoderConfig {
    /// Number of decoding threads: 0 for auto (picked by the decoder).
    pub thread_count: u32,
    /// Type of threading.
    pub thread_type: DecodeThreadType,
}

impl Default for DecoderConfig {
    fn default() -> (r: Self)
        ensures
            r.thread_count == 0,
            r.thread_type == DecodeThreadType::Default,
    {
        DecoderConfig { thread_count: 0, thread_type: DecodeThreadType::Default }
    }
}

/// The pixel layout of a decoded frame.  Only planar 4:2:0 is supported; any
/// other layout is a deliberate scope limitation, and no plane of such a frame
/// is accessible.
#[derive(Debug, Clone, Copy, PartialEq, Eq, Structural)]
pub enum PixelFormat {
    /// Planar 4:2:0: one full-resolution luma plane, two half-height chroma
    /// planes.
    Yuv420p,
    /// Anything else the engine might report.
    Other,
}

/// The content of one decoded frame exactly as the engine reports it.
pub struct FrameData {
    /// Width in pixels.
    pub width: usize,
    /// Height in pixels.
    pub height: usize,
    /// Pixel layout.
    pub format: PixelFormat,
    /// Line stride of each plane, in bytes.
    pub strides: Vec<usize>,
    /// The bytes of each plane.
    pub planes: Vec<Vec<u8>>,
    /// The timestamp echoed back by the engine: the correlation id the unit
    /// this frame came from was submitted under.
    pub pts: i64,
}

impl FrameData {
    /// What the engine guarantees of a frame it hands out: a supported-layout
    /// frame carries three planes whose sizes follow from stride and height
    /// (full height for luma, half height for chroma).
    pub open spec fn wf(self) -> bool {
        self.format == PixelFormat::Yuv420p ==> {
            &&& self.strides@.len() == 3
            &&& self.planes@.len() == 3
            &&& self.planes@[0]@.len() == self.strides@[0] * self.height
            &&& self.planes@[1]@.len() == self.strides@[1] * (self.height as int / 2)
            &&& self.planes@[2]@.len() == self.strides@[2] * (self.height as int / 2)
        }
    }
}

/// A single decoded frame: the engine-reported content, the rotation metadata
/// re-attached from the correlation ring, and the engine-owned buffer backing
/// it.  The frame owns one native reference to that buffer for its lifetime.
pub struct DecodedFrame {
    data: FrameData,
    rotation: usize,
    buf: usize,
}

impl DecodedFrame {
    /// Frames only ever exist around well-formed engine output.
    #[verifier::type_invariant]
    spec fn inv(self) -> bool {
        self.data.wf()
    }

    /// The engine-reported content, for specification purposes.
    pub closed spec fn spec_data(self) -> FrameData {
        self.data
    }

    /// The registry handle of the buffer backing this frame.
    pub closed spec fn spec_buf(self) -> usize {
        self.buf
    }

    /// The rotation metadata re-attached from the correlation ring, for
    /// specification purposes.
    pub closed spec fn spec_rot(self) -> usize {
        self.rotation
    }

    /// The presentation timestamp for this frame.
    ///
    /// This is the correlation id assigned at submission, echoed back by the
    /// engine.  Not a real timestamp.
    pub fn pts(&self) -> (r: i64)
        ensures
            r == self.spec_data().pts,
    {
        self.data.pts
    }

    /// Give the frame's native reference back.  If it was the last one, the
    /// buffer's release fires now.
    pub fn release(self, bufs: &mut NativeBuffers)
        requires
            old(bufs).wf(),
            old(bufs).alive(self.spec_buf() as int),
        ensures
            final(bufs).wf(),
            final(bufs)@ == decref_spec(old(bufs)@, self.spec_buf() as int),
    {
        bufs.decref(self.buf);
    }

    /// Take the frame apart into its raw parts, keeping its native reference
    /// alive and undecremented, so it can cross into an unrelated external
    /// system.  Every such call must be matched by exactly one
    /// [`DecodedFrame::from_raw_parts`], or the reference leaks.
    pub fn into_raw_parts(self) -> (r: (FrameData, usize, usize))
        ensures
            r.0 == self.spec_data(),
            r.1 == self.spec_rotation(),
            r.2 == self.spec_buf(),
    {
        let DecodedFrame { data, rotation, buf } = self;
        (data, rotation, buf)
    }

    /// Reassemble a frame from the parts an earlier
    /// [`DecodedFrame::into_raw_parts`] produced.
    pub fn from_raw_parts(data: FrameData, rotation: usize, buf: usize) -> (r: DecodedFrame)
        requires
            data.wf(),
        ensures
            r.spec_data() == data,
            r.spec_rotation() == rotation,
            r.spec_buf() == buf,
    {
        DecodedFrame { data, rotation, buf }
    }
}

impl Frame for DecodedFrame {
    type AsBufferable = BufferableAvBuffer;

    open spec fn spec_width(&self) -> usize {
        self.spec_data().width
    }

    open spec fn spec_height(&self) -> usize {
        self.spec_data().height
    }

    /// A supported-layout frame has three planes; no plane of any other frame
    /// is accessible.
    open spec fn spec_plane_count(&self) -> usize {
        if self.spec_data().format == PixelFormat::Yuv420p {
            3
        } else {
            0
        }
    }

    open spec fn spec_plane(&self, i: int) -> Seq<u8> {
        self.spec_data().planes@[i]@
    }

    open spec fn spec_stride(&self, i: int) -> usize {
        self.spec_data().strides@[i]
    }

    open spec fn spec_rotation(&self) -> usize {
        self.spec_rot()
    }

    open spec fn spec_alias(&self) -> Option<usize> {
        Some(self.spec_buf())
    }

    open spec fn spec_bytes(&self) -> Seq<u8> {
        Seq::empty()
    }

    fn width(&self) -> (r: usize) {
        self.data.width
    }

    fn height(&self) -> (r: usize) {
        self.data.height
    }

    fn plane_count(&self) -> (r: usize) {
        match self.data.format {
            PixelFormat::Yuv420p => 3,
            PixelFormat::Other => 0,
        }
    }

    fn get_plane(&self, i: usize) -> (r: &[u8]) {
        proof {
            use_type_invariant(self);
        }
        self.data.planes[i].as_slice()
    }

    fn get_stride(&self, i: usize) -> (r: usize) {
        proof {
            use_type_invariant(self);
        }
        self.data.strides[i]
    }

    fn rotation(&self) -> (r: usize) {
        self.rotation
    }

    /// Resubmitting a decoded frame reuses its native buffer: the frame's own
    /// reference moves into the bufferable, so no count changes.
    fn into_bufferable(self) -> (r: BufferableAvBuffer) {
        BufferableAvBuffer::adopt(self.buf)
    }
}

/// The engine threading flag a configured thread type is applied as; `None`
/// leaves the engine's default untouched.
pub open spec fn spec_thread_flag(t: DecodeThreadType) -> Option<i32> {
    match t {
        DecodeThreadType::Frame => Some(FF_THREAD_FRAME),
        DecodeThreadType::Slice => Some(FF_THREAD_SLICE),
        DecodeThreadType::Default => None,
    }
}

/// What the engine reports for one pull of a decoded frame.
pub enum FrameEvent {
    /// A frame is ready.
    Ready(FrameData),
    /// No more output right now; the drain ends without error.
    Again,
    /// End of stream; the drain ends without error.
    Eof,
    /// The engine failed while producing output: status code and decoded
    /// message.  The drain ends with this one error.
    Failed(i32, String),
}

/// The decode pipeline.  Submitting a unit records its metadata in the
/// correlation ring and bridges its payload to the engine; draining pulls
/// decoded frames one event at a time and re-attaches the recorded metadata.
pub struct Decoder {
    thread_count: u32,
    thread_type: Option<i32>,
    pts_map: PtsMap,
    draining: bool,
}

impl Decoder {
    /// The thread count applied to the engine's context.
    pub closed spec fn spec_thread_count(self) -> u32 {
        self.thread_count
    }

    /// The threading flag applied to the engine's context; `None` leaves the
    /// engine's default.
    pub closed spec fn spec_thread_type(self) -> Option<i32> {
        self.thread_type
    }

    /// The correlation ring.
    pub closed spec fn ring(self) -> PtsMap {
        self.pts_map
    }

    /// Whether a submitted unit is still being drained.
    pub closed spec fn spec_draining(self) -> bool {
        self.draining
    }

    /// Create a new decoder.
    ///
    /// Fails if the codec is not a decoder, or if the engine reports that
    /// allocating or opening the context failed — each as its own error, the
    /// open failure carrying the native status.  On success the ring starts
    /// empty and nothing is draining.
    pub fn new(codec: &Codec, config: &DecoderConfig, setup: SetupEvent) -> (r: Result<
        Decoder,
        Error,
    >)
        ensures
            codec.spec_kind() != CodecKind::Decoder ==> r == Err::<Decoder, Error>(
                Error::CodecIsNotDecoder(codec.name),
            ),
            codec.spec_kind() == CodecKind::Decoder ==> match setup {
                SetupEvent::AllocFailed => r == Err::<Decoder, Error>(Error::CreateContextFailed),
                SetupEvent::OpenFailed(status, detail) => r == Err::<Decoder, Error>(
                    Error::CodecOpenError(status, detail),
                ),
                SetupEvent::Opened => r matches Ok(dec) && {
                    &&& dec.spec_thread_count() == config.thread_count
                    &&& dec.spec_thread_type() == spec_thread_flag(config.thread_type)
                    &&& dec.ring().entries() == Seq::new(
                        RING_CAPACITY as nat,
                        |i: int| None::<(i64, usize)>,
                    )
                    &&& dec.ring().spec_cur() == 0
                    &&& !dec.spec_draining()
                },
            },
    {
        if codec.kind() != CodecKind::Decoder {
            return Err(Error::CodecIsNotDecoder(codec.name.clone()));
        }
        match setup {
            SetupEvent::AllocFailed => Err(Error::CreateContextFailed),
            SetupEvent::OpenFailed(status, detail) => Err(Error::CodecOpenError(status, detail)),
            SetupEvent::Opened => {
                let thread_type = match config.thread_type {
                    DecodeThreadType::Frame => Some(FF_THREAD_FRAME),
                    DecodeThreadType::Slice => Some(FF_THREAD_SLICE),
                    DecodeThreadType::Default => None,
                };
                Ok(
                    Decoder {
                        thread_count: config.thread_count,
                        thread_type,
                        pts_map: PtsMap::default(),
                        draining: false,
                    },
                )
            },
        }
    }

    /// Submit one compressed unit.
    ///
    /// Records `(timestamp, rotation)` in the correlation ring, bridges the
    /// unit's payload into a native buffer (fresh transfer or reuse, by the
    /// unit's capability), and accounts for what the engine did with it: the
    /// engine's own reference if it retained the buffer, and the reference the
    /// unit's shell gives back when it is freed after the call — so a fresh,
    /// unretained payload is released before this returns.  A rejected
    /// submission is surfaced at once and nothing can be drained for it.
    pub fn decode<T: Packet<Data>, Data: PaddedData + ?Sized>(
        &mut self,
        bufs: &mut NativeBuffers,
        packet: T,
        submit: SubmitEvent,
    ) -> (r: Result<(), Error>)
        requires
            old(bufs).wf(),
            packet.spec_data().len() >= INPUT_BUFFER_PADDING,
            forall|i: int|
                packet.spec_data().len() - INPUT_BUFFER_PADDING <= i < packet.spec_data().len()
                    ==> packet.spec_data()[i] == 0,
            packet.spec_alias() matches Some(h) ==> old(bufs).alive(h as int) && old(bufs)@[
                h as int
            ].refcount < u64::MAX,
        ensures
            final(bufs).wf(),
            final(self).spec_thread_count() == old(self).spec_thread_count(),
            final(self).spec_thread_type() == old(self).spec_thread_type(),
            match submit {
                SubmitEvent::NoPacket => {
                    &&& r matches Err(e) && e matches Error::AlllocateFailed(m) && m@
                        == "av_malloc for Decoder::decode"@
                    &&& final(bufs)@ == old(bufs)@
                    &&& final(self).ring() == old(self).ring()
                    &&& final(self).spec_draining() == old(self).spec_draining()
                },
                SubmitEvent::Sent { status, detail, retained } => {
                    &&& (final(self).ring().entries(), final(self).ring().spec_cur()) == ring_set(
                        old(self).ring().entries(),
                        old(self).ring().spec_cur(),
                        (packet.spec_pts(), packet.spec_rotation()),
                    )
                    &&& final(bufs)@ == submit_bufs_spec(
                        old(bufs)@,
                        packet.spec_alias(),
                        packet.spec_data(),
                        retained,
                    )
                    &&& packet.spec_alias() is None && !retained ==> final(bufs)@[
                        old(bufs)@.len() as int
                    ].releases == 1
                    &&& packet.spec_alias() is None && retained ==> final(bufs)@[
                        old(bufs)@.len() as int
                    ].refcount == 1
                    &&& (status < 0 ==> r == Err::<(), Error>(
                        Error::DecodePacketFailed(status, detail),
                    ))
                    &&& (status >= 0 ==> r == Ok::<(), Error>(()))
                    &&& final(self).spec_draining() == (status >= 0)
                },
            },
    {
        let (status, detail, retained) = match submit {
            SubmitEvent::NoPacket => {
                return Err(Error::AlllocateFailed("av_malloc for Decoder::decode".to_owned()));
            },
            SubmitEvent::Sent { status, detail, retained } => (status, detail, retained),
        };

        let pts = packet.pts();
        self.pts_map.set(pts, packet.rotation());

        // Bridge the payload.  The buffer the unit rides in must carry the
        // engine's required padding beyond its logical size, which the
        // payload's requires guarantee.
        let buffer = Buffer::new(bufs, packet.into_bufferable());
        let h = buffer.into_handle();

        // The engine may take its own reference and retain the buffer until it
        // has produced a frame.
        if retained {
            bufs.incref(h);
        }

        // Whatever the status, the unit's shell is done with: freeing it gives
        // its reference back, which releases the memory unless the engine
        // still holds on.
        bufs.decref(h);

        if status < 0 {
            self.draining = false;
            return Err(Error::DecodePacketFailed(status, detail));
        }
        self.draining = true;
        Ok(())
    }

    /// Pull the next decoded frame out of the engine.
    ///
    /// `None` ends the drain: the engine has nothing more right now, reached
    /// the end of the stream, or nothing was being drained.  A ready frame is
    /// handed out with the metadata recorded for its echoed timestamp
    /// re-attached (0 if the ring no longer holds it), owning one reference to
    /// a fresh engine-allocated buffer.  Any other failure ends the drain and
    /// yields one final error.
    pub fn next_frame(&mut self, bufs: &mut NativeBuffers, ev: FrameEvent) -> (r: Option<
        Result<DecodedFrame, Error>,
    >)
        requires
            old(bufs).wf(),
            ev matches FrameEvent::Ready(fd) ==> fd.wf(),
        ensures
            final(bufs).wf(),
            final(self).ring() == old(self).ring(),
            final(self).spec_thread_count() == old(self).spec_thread_count(),
            final(self).spec_thread_type() == old(self).spec_thread_type(),
            !old(self).spec_draining() ==> {
                &&& r is None
                &&& final(bufs)@ == old(bufs)@
                &&& final(self).spec_draining() == old(self).spec_draining()
            },
            old(self).spec_draining() ==> match ev {
                FrameEvent::Ready(fd) => {
                    &&& r matches Some(res) && res matches Ok(f) && {
                        &&& f.spec_data() == fd
                        &&& f.spec_rotation() == match old(self).ring().spec_get(fd.pts) {
                            Some(v) => v,
                            None => 0usize,
                        }
                        &&& f.spec_buf() == old(bufs)@.len()
                    }
                    &&& final(bufs)@ == create_spec(old(bufs)@, Seq::empty())
                    &&& final(self).spec_draining()
                },
                FrameEvent::Again => {
                    &&& r is None
                    &&& final(bufs)@ == old(bufs)@
                    &&& !final(self).spec_draining()
                },
                FrameEvent::Eof => {
                    &&& r is None
                    &&& final(bufs)@ == old(bufs)@
                    &&& !final(self).spec_draining()
                },
                FrameEvent::Failed(status, detail) => {
                    &&& r == Some(Err::<DecodedFrame, Error>(Error::ReceiveFrameFailed(
                        status,
                        detail,
                    )))
                    &&& final(bufs)@ == old(bufs)@
                    &&& !final(self).spec_draining()
                },
            },
    {
        if !self.draining {
            return None;
        }
        match ev {
            FrameEvent::Ready(fd) => {
                // The engine allocated this frame's buffer itself; the frame
                // owns the one reference the engine handed out with it.
                let h = bufs.create(Vec::new());
                // Re-attach the metadata recorded for the echoed timestamp:
                // stream start or ring eviction leave it at 0.
                let rotation = match self.pts_map.get(fd.pts) {
                    Some(v) => v,
                    None => 0,
                };
                Some(Ok(DecodedFrame { data: fd, rotation, buf: h }))
            },
            FrameEvent::Again => {
                self.draining = false;
                None
            },
            FrameEvent::Eof => {
                self.draining = false;
                None
            },
            FrameEvent::Failed(status, detail) => {
                self.draining = false;
                Some(Err(Error::ReceiveFrameFailed(status, detail)))
            },
        }
    }
}

} // verus!
