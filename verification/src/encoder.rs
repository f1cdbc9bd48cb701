//! The encode pipeline: submit one raw frame at a time (zero-copy, its memory
//! bridged so the engine may hold it until encoding completes), drain zero or
//! more compressed packets.
//!
//! The engine's part — allocating its context, accepting a frame, producing
//! packets — happens on the far side of the boundary; each of its outcomes
//! enters here as an event argument, and the pipeline functions are verified
//! for every outcome the engine may report.

use vstd::prelude::*;

use crate::buffer::{submit_bufs_spec, Buffer, BufferableAvBuffer, Bufferable};
use crate::error::Error;
use crate::native::{create_spec, decref_spec, NativeBuffers, SetupEvent};
use crate::{Codec, CodecId, CodecKind, Frame, Packet, MAX_PLANES};

verus! {

/// Engine profile constant: H.264 constrained baseline, for WebRTC
/// compatibility.
pub const FF_PROFILE_H264_CONSTRAINED_BASELINE: i32 = 578;

/// Engine packet flag: the packet starts at a keyframe.
pub const AV_PKT_FLAG_KEY: i32 = 1;

/// Encoder construction parameters, applied to the native context before it
/// is opened.
#[derive(Debug, Clone, Copy, PartialEq, Eq)]
pub struct EncoderConfig {
    /// Target bitrate in bits per second.
    pub bitrate: u32,
    /// Frame width in pixels.
    pub width: u32,
    /// Frame height in pixels.
    pub height: u32,
    /// Frames per second; also fixes the time base.
    pub fps: u8,
    /// Number of encoding threads: 0 for auto.
    pub thread_count: u32,
    /// Maximum number of consecutive B-frames.
    pub max_b_frames: u32,
    /// Distance between forced keyframes.
    pub keyframe_distance: u32,
}

/// The implementation-specific tuning applied to the engine's private context
/// before it is opened, decided by which codec implementation was selected.
#[derive(Debug, Clone, Copy, PartialEq, Eq, Structural)]
pub enum Tuning {
    /// `h264_nvenc`: low-latency high-performance preset, variable bitrate,
    /// baseline profile.
    Nvenc,
    /// Any other H.264 encoder (libx264): ultrafast preset, zero-latency
    /// tune, and the constrained-baseline profile for WebRTC compatibility.
    X264,
    /// `libvpx` / `libvpx-vp9`: no lookahead.
    Vpx,
    /// Anything else: the engine's defaults.
    Stock,
}

/// Which tuning a codec implementation gets.  The nvenc implementation is
/// recognised before the generic H.264 case, which it would otherwise match.
pub open spec fn spec_tuning(c: Codec) -> Tuning {
    if c.name@ == "h264_nvenc"@ {
        Tuning::Nvenc
    } else if c.id == CodecId::H264 {
        Tuning::X264
    } else if c.name@ == "libvpx"@ || c.name@ == "libvpx-vp9"@ {
        Tuning::Vpx
    } else {
        Tuning::Stock
    }
}

/// The private-context options each tuning sets, as key/value pairs.
pub open spec fn spec_tuning_options(t: Tuning) -> Seq<(Seq<char>, Seq<char>)> {
    match t {
        Tuning::Nvenc => seq![
            ("preset"@, "llhp"@),
            ("rc"@, "vbr"@),
            ("profile"@, "baseline"@),
        ],
        Tuning::X264 => seq![("preset"@, "ultrafast"@), ("tune"@, "zerolatency"@)],
        Tuning::Vpx => seq![("lag_in_frames"@, "0"@)],
        Tuning::Stock => Seq::empty(),
    }
}

/// The profile each tuning forces on the context, if any.
pub open spec fn spec_tuning_profile(t: Tuning) -> Option<i32> {
    match t {
        Tuning::X264 => Some(FF_PROFILE_H264_CONSTRAINED_BASELINE),
        _ => None,
    }
}

/// Decide the tuning for a codec implementation.
pub fn tuning_of(codec: &Codec) -> (r: Tuning)
    ensures
        r == spec_tuning(*codec),
{
    if codec.name == "h264_nvenc".to_owned() {
        Tuning::Nvenc
    } else if codec.id == CodecId::H264 {
        Tuning::X264
    } else if codec.name == "libvpx".to_owned() || codec.name == "libvpx-vp9".to_owned() {
        Tuning::Vpx
    } else {
        Tuning::Stock
    }
}

/// The key/value options a tuning sets on the engine's private context.
pub fn tuning_options(t: Tuning) -> (r: Vec<(String, String)>)
    ensures
        r@.map_values(|p: (String, String)| (p.0@, p.1@)) == spec_tuning_options(t),
{
    let mut out: Vec<(String, String)> = Vec::new();
    match t {
        Tuning::Nvenc => {
            out.push(("preset".to_owned(), "llhp".to_owned()));
            out.push(("rc".to_owned(), "vbr".to_owned()));
            out.push(("profile".to_owned(), "baseline".to_owned()));
        },
        Tuning::X264 => {
            out.push(("preset".to_owned(), "ultrafast".to_owned()));
            out.push(("tune".to_owned(), "zerolatency".to_owned()));
        },
        Tuning::Vpx => {
            out.push(("lag_in_frames".to_owned(), "0".to_owned()));
        },
        Tuning::Stock => {},
    }
    proof {
        assert(out@.map_values(|p: (String, String)| (p.0@, p.1@)) =~= spec_tuning_options(t));
    }
    out
}

/// The profile a tuning forces on the engine's context, if any.
pub fn tuning_profile(t: Tuning) -> (r: Option<i32>)
    ensures
        r == spec_tuning_profile(t),
{
    match t {
        Tuning::X264 => Some(FF_PROFILE_H264_CONSTRAINED_BASELINE),
        _ => None,
    }
}

/// What the engine reports when one submitted frame is handed to it: the
/// submission status (negative on reject), its decoded message, and whether
/// the engine retained its own reference to the bridged buffer past the call.
pub struct SubmitOutcome {
    /// The native status: negative means the frame was rejected.
    pub status: i32,
    /// The decoded message for a negative status.
    pub detail: String,
    /// Whether the engine retained its own reference to the bridged buffer.
    pub retained: bool,
}

/// The descriptor stamped on the frame shell handed to the engine: the
/// geometry and strides the engine reads the planes through (zero-copy, by
/// pointer and stride), the assigned sequential timestamp, and whether the
/// output is forced to be a keyframe.
pub struct FrameSubmission {
    /// Width in pixels.
    pub width: usize,
    /// Height in pixels.
    pub height: usize,
    /// Line stride of each plane, in bytes.
    pub strides: Vec<usize>,
    /// Byte length of each plane.
    pub plane_sizes: Vec<usize>,
    /// The timestamp assigned to this frame: the encoder's own counter, not a
    /// caller value.
    pub pts: i64,
    /// Whether the engine is told to emit a keyframe for this frame.
    pub force_keyframe: bool,
}

/// What the engine reports for one pull of an encoded packet.
pub enum PacketEvent {
    /// A packet is ready.
    Ready(PacketData),
    /// No more output right now; the drain ends without error.
    Again,
    /// End of stream; the drain ends without error.
    Eof,
    /// The engine failed while producing output: status code and decoded
    /// message.  The drain ends with this one error.
    Failed(i32, String),
}

/// The content of one encoded packet exactly as the engine reports it.
pub struct PacketData {
    /// The compressed bytes.
    pub data: Vec<u8>,
    /// The timestamp of the frame this packet encodes, echoed back.
    pub pts: i64,
    /// The engine's packet flags.
    pub flags: i32,
}

/// A single encoded packet: the engine-reported content, the rotation
/// metadata forwarded from its submission, and the engine-owned buffer
/// backing it.  The packet owns one native reference to that buffer for its
/// lifetime.
pub struct EncodedPacket {
    data: PacketData,
    rotation: usize,
    buf: usize,
}

impl EncodedPacket {
    /// The engine-reported content, for specification purposes.
    pub closed spec fn spec_content(self) -> PacketData {
        self.data
    }

    /// The rotation metadata forwarded from the submission.
    pub closed spec fn spec_rot(self) -> usize {
        self.rotation
    }

    /// The registry handle of the buffer backing this packet.
    pub closed spec fn spec_buf(self) -> usize {
        self.buf
    }

    /// Give the packet's native reference back.  If it was the last one, the
    /// buffer's release fires now.
    pub fn release(self, bufs: &mut NativeBuffers)
        requires
            old(bufs).wf(),
            old(bufs).alive(self.spec_buf() as int),
        ensures
            final(bufs).wf(),
            final(bufs)@ == decref_spec(old(bufs)@, self.spec_buf() as int),
    {
        bufs.decref(self.buf);
    }

    /// Take the packet apart into its raw parts, keeping its native reference
    /// alive and undecremented, so it can cross into an unrelated external
    /// system.  Every such call must be matched by exactly one
    /// [`EncodedPacket::from_raw_parts`], or the reference leaks.
    pub fn into_raw_parts(self) -> (r: (PacketData, usize, usize))
        ensures
            r.0 == self.spec_content(),
            r.1 == self.spec_rot(),
            r.2 == self.spec_buf(),
    {
        let EncodedPacket { data, rotation, buf } = self;
        (data, rotation, buf)
    }

    /// Reassemble a packet from the parts an earlier
    /// [`EncodedPacket::into_raw_parts`] produced.
    pub fn from_raw_parts(data: PacketData, rotation: usize, buf: usize) -> (r: EncodedPacket)
        ensures
            r.spec_content() == data,
            r.spec_rot() == rotation,
            r.spec_buf() == buf,
    {
        EncodedPacket { data, rotation, buf }
    }
}

impl Packet<[u8]> for EncodedPacket {
    type AsBufferable = BufferableAvBuffer;

    open spec fn spec_data(&self) -> Seq<u8> {
        self.spec_content().data@
    }

    open spec fn spec_pts(&self) -> i64 {
        self.spec_content().pts
    }

    open spec fn spec_rotation(&self) -> usize {
        self.spec_rot()
    }

    open spec fn spec_keyframe(&self) -> bool {
        self.spec_content().flags & AV_PKT_FLAG_KEY > 0
    }

    open spec fn spec_alias(&self) -> Option<usize> {
        Some(self.spec_buf())
    }

    fn data(&self) -> &[u8] {
        self.data.data.as_slice()
    }

    fn pts(&self) -> (r: i64) {
        self.data.pts
    }

    fn rotation(&self) -> (r: usize) {
        self.rotation
    }

    fn keyframe(&self) -> (r: bool) {
        self.data.flags & AV_PKT_FLAG_KEY > 0
    }

    /// Resubmitting an encoded packet reuses its native buffer: the packet's
    /// own reference moves into the bufferable, so no count changes.
    fn into_bufferable(self) -> (r: BufferableAvBuffer) {
        BufferableAvBuffer::adopt(self.buf)
    }
}

/// The encode pipeline.  Submitting a frame bridges its memory to the engine
/// zero-copy and stamps it with the next sequential timestamp; draining pulls
/// encoded packets one event at a time, each carrying the rotation metadata
/// passed at submission (encoder output is not reordered, so no correlation
/// ring is needed on this side).
pub struct Encoder {
    codec: Codec,
    config: EncoderConfig,
    tuning: Tuning,
    pts_counter: i64,
    draining: bool,
    drain_rotation: usize,
}

impl Encoder {
    /// The codec this encoder runs.
    pub closed spec fn spec_codec(self) -> Codec {
        self.codec
    }

    /// The configuration applied to the engine's context.
    pub closed spec fn spec_config(self) -> EncoderConfig {
        self.config
    }

    /// The implementation-specific tuning applied to the engine's context.
    pub closed spec fn spec_applied_tuning(self) -> Tuning {
        self.tuning
    }

    /// The timestamp the next submitted frame gets.
    pub closed spec fn spec_pts_counter(self) -> i64 {
        self.pts_counter
    }

    /// Whether a submitted frame is still being drained.
    pub closed spec fn spec_draining(self) -> bool {
        self.draining
    }

    /// The rotation metadata attached to packets of the current drain.
    pub closed spec fn spec_drain_rotation(self) -> usize {
        self.drain_rotation
    }

    /// Create a new encoder.
    ///
    /// Fails if the codec is not an encoder, or if the engine reports that
    /// allocating or opening the context failed — each as its own error.  An
    /// open failure (an unsupported profile, for one) is surfaced with the
    /// native status, never silently ignored.  On success the configuration
    /// and the implementation-specific tuning have been applied, timestamps
    /// start at zero and nothing is draining.
    pub fn new(codec: &Codec, config: &EncoderConfig, setup: SetupEvent) -> (r: Result<
        Encoder,
        Error,
    >)
        ensures
            codec.spec_kind() != CodecKind::Encoder ==> r == Err::<Encoder, Error>(
                Error::CodecIsNotEncoder(codec.name),
            ),
            codec.spec_kind() == CodecKind::Encoder ==> match setup {
                SetupEvent::AllocFailed => r == Err::<Encoder, Error>(Error::CreateContextFailed),
                SetupEvent::OpenFailed(status, detail) => r == Err::<Encoder, Error>(
                    Error::CodecOpenError(status, detail),
                ),
                SetupEvent::Opened => r matches Ok(enc) && {
                    &&& enc.spec_codec() == *codec
                    &&& enc.spec_config() == *config
                    &&& enc.spec_applied_tuning() == spec_tuning(*codec)
                    &&& enc.spec_pts_counter() == 0
                    &&& !enc.spec_draining()
                },
            },
    {
        if codec.kind() != CodecKind::Encoder {
            return Err(Error::CodecIsNotEncoder(codec.name.clone()));
        }
        match setup {
            SetupEvent::AllocFailed => Err(Error::CreateContextFailed),
            SetupEvent::OpenFailed(status, detail) => Err(Error::CodecOpenError(status, detail)),
            SetupEvent::Opened => {
                let tuning = tuning_of(codec);
                Ok(
                    Encoder {
                        codec: codec.clone(),
                        config: *config,
                        tuning,
                        pts_counter: 0,
                        draining: false,
                        drain_rotation: 0,
                    },
                )
            },
        }
    }

    /// The configured frame width, as the engine's context holds it.
    pub fn width(&self) -> (r: usize)
        ensures
            r == self.spec_config().width as usize,
    {
        self.config.width as usize
    }

    /// The configured frame height, as the engine's context holds it.
    pub fn height(&self) -> (r: usize)
        ensures
            r == self.spec_config().height as usize,
    {
        self.config.height as usize
    }

    /// The codec this encoder runs.
    pub fn codec(&self) -> (r: Codec)
        ensures
            r == self.spec_codec(),
    {
        self.codec.clone()
    }

    /// Build the descriptor for submitting `frame` next: its geometry and per-
    /// plane strides and sizes (the engine reads the planes zero-copy through
    /// these), the next sequential timestamp, and the forced-keyframe mark.
    pub fn frame_submission<T: Frame>(&self, frame: &T, force_keyframe: bool) -> (r:
        FrameSubmission)
        requires
            frame.spec_plane_count() <= MAX_PLANES,
        ensures
            r.width == frame.spec_width(),
            r.height == frame.spec_height(),
            r.strides@.len() == frame.spec_plane_count(),
            r.plane_sizes@.len() == frame.spec_plane_count(),
            forall|i: int|
                0 <= i < frame.spec_plane_count() ==> r.strides@[i] == frame.spec_stride(i),
            forall|i: int|
                0 <= i < frame.spec_plane_count() ==> r.plane_sizes@[i] == frame.spec_plane(
                    i,
                ).len(),
            r.pts == self.spec_pts_counter(),
            r.force_keyframe == force_keyframe,
    {
        let n = frame.plane_count();
        let mut strides: Vec<usize> = Vec::new();
        let mut plane_sizes: Vec<usize> = Vec::new();
        let mut i: usize = 0;
        while i < n
            invariant
                i <= n,
                n == frame.spec_plane_count(),
                strides@.len() == i,
                plane_sizes@.len() == i,
                forall|j: int| 0 <= j < i ==> strides@[j] == frame.spec_stride(j),
                forall|j: int| 0 <= j < i ==> plane_sizes@[j] == frame.spec_plane(j).len(),
            decreases n - i,
        {
            strides.push(frame.get_stride(i));
            plane_sizes.push(frame.get_plane(i).len());
            i += 1;
        }
        FrameSubmission {
            width: frame.width(),
            height: frame.height(),
            strides,
            plane_sizes,
            pts: self.pts_counter,
            force_keyframe,
        }
    }

    /// Submit one raw frame.
    ///
    /// Stamps it with the next sequential timestamp (output order is
    /// submission order; the encoder takes no caller timestamps), bridges the
    /// frame's memory into a native buffer (fresh transfer or reuse, by the
    /// frame's capability) so the engine may hold it until encoding completes,
    /// and accounts for what the engine did with it: the engine's own
    /// reference if it retained the buffer, and the reference the frame's
    /// shell gives back when it is freed after the call.  On success the
    /// submission descriptor is returned and its packets can be drained, each
    /// carrying the frame's rotation; a rejected submission is surfaced at
    /// once and no packets are produced for it.
    pub fn encode<T: Frame>(
        &mut self,
        bufs: &mut NativeBuffers,
        frame: T,
        force_keyframe: bool,
        submit: SubmitOutcome,
    ) -> (r: Result<FrameSubmission, Error>)
        requires
            old(bufs).wf(),
            old(self).spec_pts_counter() < i64::MAX,
            frame.spec_plane_count() <= MAX_PLANES,
            frame.spec_alias() matches Some(h) ==> old(bufs).alive(h as int) && old(bufs)@[
                h as int
            ].refcount < u64::MAX,
        ensures
            final(bufs).wf(),
            final(self).spec_codec() == old(self).spec_codec(),
            final(self).spec_config() == old(self).spec_config(),
            final(self).spec_applied_tuning() == old(self).spec_applied_tuning(),
            final(self).spec_pts_counter() == old(self).spec_pts_counter() + 1,
            final(bufs)@ == submit_bufs_spec(
                old(bufs)@,
                frame.spec_alias(),
                frame.spec_bytes(),
                submit.retained,
            ),
            frame.spec_alias() is None && !submit.retained ==> final(bufs)@[
                old(bufs)@.len() as int
            ].releases == 1,
            frame.spec_alias() is None && submit.retained ==> final(bufs)@[
                old(bufs)@.len() as int
            ].refcount == 1,
            submit.status < 0 ==> {
                &&& r == Err::<FrameSubmission, Error>(
                    Error::EncodeFrameFailed(submit.status, submit.detail),
                )
                &&& !final(self).spec_draining()
            },
            submit.status >= 0 ==> {
                &&& r matches Ok(sub) && {
                    &&& sub.width == frame.spec_width()
                    &&& sub.height == frame.spec_height()
                    &&& sub.strides@.len() == frame.spec_plane_count()
                    &&& forall|i: int|
                        0 <= i < frame.spec_plane_count() ==> sub.strides@[i]
                            == frame.spec_stride(i)
                    &&& sub.pts == old(self).spec_pts_counter()
                    &&& sub.force_keyframe == force_keyframe
                }
                &&& final(self).spec_draining()
                &&& final(self).spec_drain_rotation() == frame.spec_rotation()
            },
    {
        let sub = self.frame_submission(&frame, force_keyframe);
        self.pts_counter = self.pts_counter + 1;
        let rotation = frame.rotation();

        // Bridge the frame's memory so the engine may hold it until encoding
        // completes.
        let buffer = Buffer::new(bufs, frame.into_bufferable());
        let h = buffer.into_handle();

        // The engine may take its own reference and retain the memory past
        // the call.
        if submit.retained {
            bufs.incref(h);
        }

        // Whatever the status, the frame's shell is done with: freeing it
        // gives its reference back, which releases the memory unless the
        // engine still holds on.
        bufs.decref(h);

        if submit.status < 0 {
            self.draining = false;
            return Err(Error::EncodeFrameFailed(submit.status, submit.detail));
        }
        self.draining = true;
        self.drain_rotation = rotation;
        Ok(sub)
    }

    /// Pull the next encoded packet out of the engine.
    ///
    /// `None` ends the drain: the engine has nothing more right now, reached
    /// the end of the stream, or nothing was being drained.  A ready packet is
    /// handed out carrying the rotation passed at submission, owning one
    /// reference to a fresh engine-allocated buffer.  Any other failure ends
    /// the drain and yields one final error.
    pub fn next_packet(&mut self, bufs: &mut NativeBuffers, ev: PacketEvent) -> (r: Option<
        Result<EncodedPacket, Error>,
    >)
        requires
            old(bufs).wf(),
        ensures
            final(bufs).wf(),
            final(self).spec_codec() == old(self).spec_codec(),
            final(self).spec_config() == old(self).spec_config(),
            final(self).spec_applied_tuning() == old(self).spec_applied_tuning(),
            final(self).spec_pts_counter() == old(self).spec_pts_counter(),
            final(self).spec_drain_rotation() == old(self).spec_drain_rotation(),
            !old(self).spec_draining() ==> {
                &&& r is None
                &&& final(bufs)@ == old(bufs)@
                &&& final(self).spec_draining() == old(self).spec_draining()
            },
            old(self).spec_draining() ==> match ev {
                PacketEvent::Ready(pd) => {
                    &&& r matches Some(res) && res matches Ok(p) && {
                        &&& p.spec_content() == pd
                        &&& p.spec_rot() == old(self).spec_drain_rotation()
                        &&& p.spec_buf() == old(bufs)@.len()
                    }
                    &&& final(bufs)@ == create_spec(old(bufs)@, Seq::empty())
                    &&& final(self).spec_draining()
                },
                PacketEvent::Again => {
                    &&& r is None
                    &&& final(bufs)@ == old(bufs)@
                    &&& !final(self).spec_draining()
                },
                PacketEvent::Eof => {
                    &&& r is None
                    &&& final(bufs)@ == old(bufs)@
                    &&& !final(self).spec_draining()
                },
                PacketEvent::Failed(status, detail) => {
                    &&& r == Some(Err::<EncodedPacket, Error>(Error::ReceivePacketFailed(
                        status,
                        detail,
                    )))
                    &&& final(bufs)@ == old(bufs)@
                    &&& !final(self).spec_draining()
                },
            },
    {
        if !self.draining {
            return None;
        }
        match ev {
            PacketEvent::Ready(pd) => {
                // The engine allocated this packet's buffer itself; the packet
                // owns the one reference the engine handed out with it.
                let h = bufs.create(Vec::new());
                Some(Ok(EncodedPacket { data: pd, rotation: self.drain_rotation, buf: h }))
            },
            PacketEvent::Again => {
                self.draining = false;
                None
            },
            PacketEvent::Eof => {
                self.draining = false;
                None
            },
            PacketEvent::Failed(status, detail) => {
                self.draining = false;
                Some(Err(Error::ReceivePacketFailed(status, detail)))
            },
        }
    }
}

} // verus!
