//! A verified bridge between exclusively-owned memory and a reference-counted
//! native codec engine, together with the decode and encode pipelines that are
//! built on top of that bridge.
//!
//! The engine itself (buffer registry, codec contexts, codec registry) is a
//! black box reached over a C boundary.  Everything the engine observably does
//! to the memory this crate hands it — retain, share, release — is captured by
//! the [`native::NativeBuffers`] model, and the ownership bookkeeping of the
//! bridge is verified against that model.  Whatever the engine decides
//! (submission statuses, drained frames and packets) enters the pipelines as
//! an event argument, so each pipeline function is verified for every outcome
//! the engine may report.

use vstd::prelude::*;

pub mod buffer;
pub mod decoder;
pub mod encoder;
pub mod error;
pub mod native;

verus! {

pub use buffer::Bufferable;
pub use decoder::{Decoder, DecoderConfig};
pub use encoder::{Encoder, EncoderConfig};
pub use error::Error;
pub use native::NativeBuffers;

/// Number of bytes of zeroed slack the engine requires past the logical end of
/// any bitstream handed to a decoder: its reader may over-read up to this many
/// bytes for performance.
pub const INPUT_BUFFER_PADDING: usize = 64;

/// Maximum number of data planes a frame may carry.
pub const MAX_PLANES: usize = 8;

/// A raw frame of video that can be submitted to an encoder: planar pixel
/// data, its geometry, and per-frame rotation metadata, convertible into
/// something the buffer bridge can take ownership of.
pub trait Frame: Sized {
    /// What this frame turns into when its memory is bridged.
    type AsBufferable: Bufferable;

    /// Width in pixels.
    spec fn spec_width(&self) -> usize;

    /// Height in pixels.
    spec fn spec_height(&self) -> usize;

    /// Number of data planes.
    spec fn spec_plane_count(&self) -> usize;

    /// Bytes of plane `i`.
    spec fn spec_plane(&self, i: int) -> Seq<u8>;

    /// Line stride of plane `i`, in bytes.
    spec fn spec_stride(&self, i: int) -> usize;

    /// Rotation metadata carried alongside the pixels.
    spec fn spec_rotation(&self) -> usize;

    /// The native buffer already backing this frame, if any.
    spec fn spec_alias(&self) -> Option<usize>;

    /// The owned bytes this frame transfers when bridged fresh.
    spec fn spec_bytes(&self) -> Seq<u8>;

    fn width(&self) -> (r: usize)
        ensures
            r == self.spec_width(),
    ;

    fn height(&self) -> (r: usize)
        ensures
            r == self.spec_height(),
    ;

    fn plane_count(&self) -> (r: usize)
        ensures
            r == self.spec_plane_count(),
    ;

    fn get_plane(&self, i: usize) -> (r: &[u8])
        requires
            i < self.spec_plane_count(),
        ensures
            r@ == self.spec_plane(i as int),
    ;

    fn get_stride(&self, i: usize) -> (r: usize)
        requires
            i < self.spec_plane_count(),
        ensures
            r == self.spec_stride(i as int),
    ;

    fn rotation(&self) -> (r: usize)
        ensures
            r == self.spec_rotation(),
    ;

    /// Consume the frame and turn it into what the buffer bridge takes: either
    /// its owned memory, or the native buffer that already backs it.
    fn into_bufferable(self) -> (r: Self::AsBufferable)
        ensures
            r.spec_alias() == self.spec_alias(),
            r.spec_alias() is None ==> r.spec_raw() == self.spec_bytes(),
    ;
}

/// A compressed unit that can be submitted to a decoder: a padded payload,
/// the caller's timestamp (which doubles as the correlation id), and per-frame
/// metadata, convertible into something the buffer bridge can take ownership
/// of.
pub trait Packet<Data: ?Sized>: Sized {
    /// What this packet turns into when its memory is bridged.
    type AsBufferable: Bufferable;

    /// The full padded byte extent of the payload.
    spec fn spec_data(&self) -> Seq<u8>;

    /// The caller-supplied presentation timestamp.
    spec fn spec_pts(&self) -> i64;

    /// Rotation metadata carried alongside the payload.
    spec fn spec_rotation(&self) -> usize;

    /// Whether this packet starts at a keyframe.
    spec fn spec_keyframe(&self) -> bool;

    /// The native buffer already backing this packet, if any.
    spec fn spec_alias(&self) -> Option<usize>;

    /// Borrow the payload.
    fn data(&self) -> &Data;

    fn pts(&self) -> (r: i64)
        ensures
            r == self.spec_pts(),
    ;

    fn rotation(&self) -> (r: usize)
        ensures
            r == self.spec_rotation(),
    ;

    fn keyframe(&self) -> (r: bool)
        ensures
            r == self.spec_keyframe(),
    ;

    /// Consume the packet and turn it into what the buffer bridge takes:
    /// either its owned payload, or the native buffer that already backs it.
    fn into_bufferable(self) -> (r: Self::AsBufferable)
        ensures
            r.spec_alias() == self.spec_alias(),
            r.spec_alias() is None ==> r.spec_raw() == self.spec_data(),
    ;
}

/// A payload whose allocation extends past its logical end by the engine's
/// required padding, with the padding bytes zeroed.
#[allow(clippy::len_without_is_empty)]
pub trait PaddedData {
    /// The full allocated extent: payload followed by padding.
    spec fn spec_bytes(&self) -> Seq<u8>;

    /// Length of the full extent, padding included.  Every padded payload
    /// ends in at least [`INPUT_BUFFER_PADDING`] zero bytes; implementations
    /// must be unable to produce anything else, so observing one also
    /// establishes that.
    fn len(&self) -> (r: usize)
        ensures
            r == self.spec_bytes().len(),
            r >= INPUT_BUFFER_PADDING,
            forall|i: int|
                self.spec_bytes().len() - INPUT_BUFFER_PADDING <= i < self.spec_bytes().len()
                    ==> self.spec_bytes()[i] == 0,
    ;

    /// Borrow the full extent, padding included.
    fn as_bytes(&self) -> (r: &[u8])
        ensures
            r@ == self.spec_bytes(),
            r@.len() >= INPUT_BUFFER_PADDING,
            forall|i: int|
                self.spec_bytes().len() - INPUT_BUFFER_PADDING <= i < self.spec_bytes().len()
                    ==> self.spec_bytes()[i] == 0,
    ;
}

/// An owned byte region of length `payload + INPUT_BUFFER_PADDING` whose
/// trailing padding bytes are zero.  Produced once from caller bytes, consumed
/// once by moving it into the buffer bridge.
pub struct PaddedDataImpl {
    data: Vec<u8>,
}

impl PaddedDataImpl {
    /// A padded region always carries at least the required padding, zeroed.
    #[verifier::type_invariant]
    spec fn inv(self) -> bool {
        &&& self.data@.len() >= INPUT_BUFFER_PADDING
        &&& forall|i: int|
            self.data@.len() - INPUT_BUFFER_PADDING <= i < self.data@.len()
                ==> self.data@[i] == 0
    }

    /// Build a padded region by taking ownership of the payload and appending
    /// the zeroed padding.
    pub fn from_vec(payload: Vec<u8>) -> (r: PaddedDataImpl)
        requires
            payload@.len() + INPUT_BUFFER_PADDING <= usize::MAX,
        ensures
            r.spec_bytes().len() == payload@.len() + INPUT_BUFFER_PADDING,
            r.spec_bytes().take(payload@.len() as int) == payload@,
            forall|i: int|
                payload@.len() <= i < r.spec_bytes().len() ==> r.spec_bytes()[i] == 0,
    {
        let mut data = payload;
        let mut k: usize = 0;
        while k < INPUT_BUFFER_PADDING
            invariant
                k <= INPUT_BUFFER_PADDING,
                payload@.len() + INPUT_BUFFER_PADDING <= usize::MAX,
                data@.len() == payload@.len() + k,
                data@.take(payload@.len() as int) == payload@,
                forall|i: int| payload@.len() <= i < data@.len() ==> data@[i] == 0,
            decreases INPUT_BUFFER_PADDING - k,
        {
            data.push(0);
            proof {
                assert(data@.take(payload@.len() as int) =~= payload@);
            }
            k += 1;
        }
        let r = PaddedDataImpl { data };
        proof {
            assert(r.spec_bytes().take(payload@.len() as int) =~= payload@);
        }
        r
    }

    /// Build a padded region by copying the payload and appending the zeroed
    /// padding.
    pub fn from_slice(payload: &[u8]) -> (r: PaddedDataImpl)
        requires
            payload@.len() + INPUT_BUFFER_PADDING <= usize::MAX,
        ensures
            r.spec_bytes().len() == payload@.len() + INPUT_BUFFER_PADDING,
            r.spec_bytes().take(payload@.len() as int) == payload@,
            forall|i: int|
                payload@.len() <= i < r.spec_bytes().len() ==> r.spec_bytes()[i] == 0,
    {
        let copied = vstd::slice::slice_to_vec(payload);
        Self::from_vec(copied)
    }
}

impl PaddedData for PaddedDataImpl {
    closed spec fn spec_bytes(&self) -> Seq<u8> {
        self.data@
    }

    fn len(&self) -> (r: usize) {
        proof {
            use_type_invariant(self);
        }
        self.data.len()
    }

    fn as_bytes(&self) -> (r: &[u8]) {
        proof {
            use_type_invariant(self);
        }
        self.data.as_slice()
    }
}

/// A padded region bridges as a fresh transfer of its full extent.
impl Bufferable for PaddedDataImpl {
    open spec fn spec_alias(&self) -> Option<usize> {
        None
    }

    open spec fn spec_raw(&self) -> Seq<u8> {
        <PaddedDataImpl as PaddedData>::spec_bytes(self)
    }

    fn into_raw(self) -> (r: Vec<u8>) {
        self.data
    }

    fn reuse_av_buffer(&self) -> (r: Option<usize>) {
        None
    }
}

/// A compressed unit built from plain values: a padded payload together with
/// the timestamp it is correlated under, its rotation metadata and its
/// keyframe mark.  The simplest thing a caller can submit to a decoder.
pub struct OwnedPacket {
    /// The padded payload.
    pub data: PaddedDataImpl,
    /// The caller's timestamp: the correlation id for this unit's metadata.
    pub pts: i64,
    /// Rotation metadata to re-attach to the frames this unit decodes into.
    pub rotation: usize,
    /// Whether this unit starts at a keyframe.
    pub keyframe: bool,
}

impl Packet<PaddedDataImpl> for OwnedPacket {
    type AsBufferable = PaddedDataImpl;

    open spec fn spec_data(&self) -> Seq<u8> {
        <PaddedDataImpl as PaddedData>::spec_bytes(&self.data)
    }

    open spec fn spec_pts(&self) -> i64 {
        self.pts
    }

    open spec fn spec_rotation(&self) -> usize {
        self.rotation
    }

    open spec fn spec_keyframe(&self) -> bool {
        self.keyframe
    }

    open spec fn spec_alias(&self) -> Option<usize> {
        None
    }

    fn data(&self) -> &PaddedDataImpl {
        &self.data
    }

    fn pts(&self) -> (r: i64) {
        self.pts
    }

    fn rotation(&self) -> (r: usize) {
        self.rotation
    }

    fn keyframe(&self) -> (r: bool) {
        self.keyframe
    }

    /// An owned payload bridges as a fresh transfer of its padded extent.
    fn into_bufferable(self) -> (r: PaddedDataImpl) {
        self.data
    }
}

/// A raw planar 4:2:0 frame built from plain values the caller owns: one
/// full-resolution luma plane and two half-height chroma planes.  The simplest
/// thing a caller can submit to an encoder.
pub struct OwnedFrame {
    /// Width in pixels.
    pub width: usize,
    /// Height in pixels.
    pub height: usize,
    /// Line stride of each plane, in bytes.
    pub strides: [usize; 3],
    /// The luma plane.
    pub y: Vec<u8>,
    /// The first chroma plane.
    pub u: Vec<u8>,
    /// The second chroma plane.
    pub v: Vec<u8>,
    /// Rotation metadata carried alongside the pixels.
    pub rotation: usize,
}

impl Frame for OwnedFrame {
    type AsBufferable = Vec<u8>;

    open spec fn spec_width(&self) -> usize {
        self.width
    }

    open spec fn spec_height(&self) -> usize {
        self.height
    }

    open spec fn spec_plane_count(&self) -> usize {
        3
    }

    open spec fn spec_plane(&self, i: int) -> Seq<u8> {
        if i == 0 {
            self.y@
        } else if i == 1 {
            self.u@
        } else {
            self.v@
        }
    }

    open spec fn spec_stride(&self, i: int) -> usize {
        self.strides@[i]
    }

    open spec fn spec_rotation(&self) -> usize {
        self.rotation
    }

    open spec fn spec_alias(&self) -> Option<usize> {
        None
    }

    /// The single allocation this frame hands over: its planes, in order.
    open spec fn spec_bytes(&self) -> Seq<u8> {
        self.y@ + self.u@ + self.v@
    }

    fn width(&self) -> (r: usize) {
        self.width
    }

    fn height(&self) -> (r: usize) {
        self.height
    }

    fn plane_count(&self) -> (r: usize) {
        3
    }

    fn get_plane(&self, i: usize) -> (r: &[u8]) {
        if i == 0 {
            self.y.as_slice()
        } else if i == 1 {
            self.u.as_slice()
        } else {
            self.v.as_slice()
        }
    }

    fn get_stride(&self, i: usize) -> (r: usize) {
        self.strides[i]
    }

    fn rotation(&self) -> (r: usize) {
        self.rotation
    }

    /// An owned frame bridges as a fresh transfer of one allocation holding
    /// all of its planes.
    fn into_bufferable(self) -> (r: Vec<u8>) {
        let OwnedFrame { width: _, height: _, strides: _, y, u, v, rotation: _ } = self;
        let mut out = y;
        let mut rest = u;
        out.append(&mut rest);
        let mut rest_v = v;
        out.append(&mut rest_v);
        out
    }
}

/// The codec standard a registry entry implements, as far as the pipelines'
/// decisions depend on it.
#[derive(Debug, Clone, Copy, PartialEq, Eq, Structural)]
pub enum CodecId {
    H264,
    Vp8,
    Vp9,
    Other,
}

/// Whether a codec compresses or decompresses.
#[derive(Debug, Clone, Copy, PartialEq, Eq, Structural)]
pub enum CodecKind {
    Encoder,
    Decoder,
}

/// An immutable descriptor of one entry of the engine's static codec
/// registry: never allocated or freed by this crate.
#[derive(Debug, PartialEq, Eq)]
pub struct Codec {
    /// Short implementation name, unique within the registry.
    pub name: String,
    /// Human-readable description.
    pub long_name: String,
    /// The standard this entry implements.
    pub id: CodecId,
    /// Whether the implementation is hardware-accelerated.
    pub hw: bool,
    /// Whether this entry is an encoder (otherwise it decodes).
    pub encoder: bool,
    /// Whether this entry handles video.
    pub video: bool,
}

impl Clone for Codec {
    fn clone(&self) -> (r: Self)
        ensures
            r == *self,
    {
        Codec {
            name: self.name.clone(),
            long_name: self.long_name.clone(),
            id: self.id,
            hw: self.hw,
            encoder: self.encoder,
            video: self.video,
        }
    }
}

/// A registry entry belongs in a listing of `kind`: it handles video and its
/// direction matches.
pub open spec fn codec_wanted(c: Codec, kind: CodecKind) -> bool {
    c.video && (c.encoder <==> kind == CodecKind::Encoder)
}

impl Codec {
    /// All video codecs of the requested kind, in registry order.  The
    /// registry itself is the engine's static table, handed in by the caller.
    pub fn list(registry: &Vec<Codec>, kind: CodecKind) -> (r: Vec<Codec>)
        ensures
            r@ == registry@.filter(|c: Codec| codec_wanted(c, kind)),
    {
        let mut out: Vec<Codec> = Vec::new();
        let mut i: usize = 0;
        proof {
            assert(registry@.take(0int).filter(|c: Codec| codec_wanted(c, kind)) =~= Seq::<
                Codec,
            >::empty());
        }
        while i < registry.len()
            invariant
                i <= registry@.len(),
                out@ == registry@.take(i as int).filter(|c: Codec| codec_wanted(c, kind)),
            decreases registry@.len() - i,
        {
            let c = &registry[i];
            let is_enc = match kind {
                CodecKind::Encoder => c.encoder,
                CodecKind::Decoder => !c.encoder,
            };
            if is_enc && c.video {
                out.push(c.clone());
            }
            proof {
                reveal(Seq::filter);
                assert(registry@.take(i + 1int).drop_last() =~= registry@.take(i as int));
                assert(registry@.take(i + 1int).last() == registry@[i as int]);
            }
            i += 1;
        }
        proof {
            assert(registry@.take(registry@.len() as int) =~= registry@);
        }
        out
    }

    /// Short implementation name.
    pub fn name(&self) -> (r: &str)
        ensures
            r@ == self.name@,
    {
        self.name.as_str()
    }

    /// Human-readable description.
    pub fn long_name(&self) -> (r: &str)
        ensures
            r@ == self.long_name@,
    {
        self.long_name.as_str()
    }

    /// Whether the implementation is hardware-accelerated.
    pub fn is_hw(&self) -> (r: bool)
        ensures
            r == self.hw,
    {
        self.hw
    }

    /// Whether this codec compresses or decompresses.
    pub fn kind(&self) -> (r: CodecKind)
        ensures
            r == self.spec_kind(),
    {
        if self.encoder {
            CodecKind::Encoder
        } else {
            CodecKind::Decoder
        }
    }

    /// The direction of this codec, from its registry flag.
    pub open spec fn spec_kind(&self) -> CodecKind {
        if self.encoder {
            CodecKind::Encoder
        } else {
            CodecKind::Decoder
        }
    }
}

} // verus!
