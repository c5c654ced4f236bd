use vstd::prelude::*;
use vstd::arithmetic::power2::{lemma2_to64, pow2};
use crate::codec::{
    declared_palette, encode_frame, finish_encoder, gif_encoded, gif_header_ok, has_global_table,
    open_encoder, open_session, EncodeSession, HEADER_LEN,
};
use crate::compose::{is_history, lemma_snapshot_size, reverse_frames, FrameSnapshot};
use crate::decode::{
    collect_frames, header_height, header_width, read_metadata, stream_ends_at, stream_fails_at,
    stream_frames, GifError,
};

verus! {

/// A notification for the host while an image is reversed.
#[derive(Clone, Copy, Debug, PartialEq, Eq, Structural)]
pub enum HostEvent {
    /// All frames are composited: the output will hold `total` frames.
    Register { total: usize },
    /// `written` frames of the output have been written so far.
    Progress { written: usize },
}

/// What one step of a reversal produced.
pub enum JobStep {
    /// The host is to be told of this event before the next step.
    Notify(HostEvent),
    /// The reversed image, encoded.
    Done(Vec<u8>),
}

/// The whole sequence of notifications of a reversal that yields `total`
/// frames: one registration, then one progress report per frame written,
/// counting from one.
pub open spec fn host_protocol(total: nat) -> Seq<HostEvent> {
    Seq::new(
        total + 1,
        |i: int|
            if i == 0 {
                HostEvent::Register { total: total as usize }
            } else {
                HostEvent::Progress { written: i as usize }
            },
    )
}

/// How a snapshot is handed to the encoder: (width, height, delay, pixels).
pub open spec fn snapshot_record(f: FrameSnapshot) -> (u16, u16, u16, Seq<u8>) {
    (f.width, f.height, f.delay, f.rgba@)
}

/// The records of a sequence of snapshots, in order.
pub open spec fn snapshot_records(s: Seq<FrameSnapshot>) -> Seq<(u16, u16, u16, Seq<u8>)> {
    Seq::new(s.len(), |i: int| snapshot_record(s[i]))
}

/// A reversal in progress: the composited snapshots, already in reversed
/// order, and the encoder they are written into one per step.
pub struct ReverseJob {
    frames: Vec<FrameSnapshot>,
    width: u16,
    height: u16,
    encoder: Option<EncodeSession>,
    registered: bool,
    written: usize,
    palette: Ghost<Seq<u8>>,
    history: Ghost<Seq<FrameSnapshot>>,
    events: Ghost<Seq<HostEvent>>,
}

impl ReverseJob {
    /// The snapshots in the order they are written.
    pub closed spec fn frames(&self) -> Seq<FrameSnapshot> {
        self.frames@
    }

    /// The snapshots in the order the source stream composited them.
    pub closed spec fn history(&self) -> Seq<FrameSnapshot> {
        self.history@
    }

    /// The notifications handed out so far, in order.
    pub closed spec fn events(&self) -> Seq<HostEvent> {
        self.events@
    }

    pub closed spec fn width(&self) -> u16 {
        self.width
    }

    pub closed spec fn height(&self) -> u16 {
        self.height
    }

    /// The global color table the output is written with.
    pub closed spec fn palette(&self) -> Seq<u8> {
        self.palette@
    }

    /// The frames handed to the encoder so far.
    pub closed spec fn sent(&self) -> Seq<(u16, u16, u16, Seq<u8>)> {
        snapshot_records(self.frames@.take(self.written as int))
    }

    pub closed spec fn registered(&self) -> bool {
        self.registered
    }

    pub closed spec fn written(&self) -> nat {
        self.written as nat
    }

    /// Whether the encoded output has been handed out (or its final write
    /// failed): no step is left.
    pub closed spec fn is_done(&self) -> bool {
        self.encoder is None
    }

    pub closed spec fn wf(&self) -> bool {
        &&& self.frames@ == self.history@.reverse()
        &&& forall|i: int|
            0 <= i < self.frames@.len() ==> {
                &&& (#[trigger] self.frames@[i]).width == self.width
                &&& self.frames@[i].height == self.height
                &&& self.frames@[i].rgba@.len() == (self.width as int) * (self.height as int) * 4
            }
        &&& self.written <= self.frames@.len()
        &&& self.registered || self.written == 0
        &&& self.events@ == host_protocol(self.frames@.len()).take(
            if self.registered {
                self.written + 1
            } else {
                0
            },
        )
        &&& self.encoder is None ==> self.registered && self.written == self.frames@.len()
        &&& self.encoder matches Some(e) ==> {
            &&& e.width() == self.width
            &&& e.height() == self.height
            &&& e.palette() == self.palette@
            &&& e.sent() == snapshot_records(self.frames@.take(self.written as int))
        }
    }

    /// Decodes `data`, composites every frame onto a full canvas, reverses the
    /// snapshots and opens an infinitely looping encoder with the source's
    /// canvas size and global color table. Nothing has been notified yet. It
    /// succeeds exactly when the header is accepted, the stream ends without
    /// an error and the canvas fits in memory.
    pub fn start(data: &[u8]) -> (r: Result<ReverseJob, GifError>)
        ensures
            r is Ok ==> {
                let j = r->Ok_0;
                let n = j.frames().len();
                &&& j.wf()
                &&& !j.is_done()
                &&& !j.registered()
                &&& j.events() == Seq::<HostEvent>::empty()
                &&& j.sent() == Seq::<(u16, u16, u16, Seq<u8>)>::empty()
                &&& gif_header_ok(data@)
                &&& data@.len() >= HEADER_LEN
                &&& j.width() == header_width(data@)
                &&& j.height() == header_height(data@)
                &&& j.palette() == declared_palette(data@)
                &&& stream_ends_at(data@, n)
                &&& is_history(j.history(), stream_frames(data@, n), j.width(), j.height())
                &&& j.frames() == j.history().reverse()
            },
            !gif_header_ok(data@) ==> r == Err::<ReverseJob, GifError>(GifError::Decode { frames_decoded: 0 }),
            r matches Err(GifError::Decode { frames_decoded: k }) ==> !gif_header_ok(data@) && k == 0
                || stream_fails_at(data@, k as nat),
            r == Err::<ReverseJob, GifError>(GifError::CanvasTooLarge) ==> gif_header_ok(data@)
                && (header_width(data@) as int) * (header_height(data@) as int) * 4 > usize::MAX,
            r != Err::<ReverseJob, GifError>(GifError::Callback),
            gif_header_ok(data@) && (exists|n: nat| stream_ends_at(data@, n))
                && (header_width(data@) as int) * (header_height(data@) as int) * 4 <= usize::MAX ==> r is Ok,
    {
        let mut session = match open_session(data) {
            Ok(s) => s,
            Err(_) => {
                return Err(GifError::Decode { frames_decoded: 0 });
            },
        };
        let (width, height, palette) = read_metadata(&session);
        let canvas_len = match (width as usize).checked_mul(height as usize) {
            Some(n) => match n.checked_mul(4) {
                Some(m) => m,
                None => {
                    return Err(GifError::CanvasTooLarge);
                },
            },
            None => {
                return Err(GifError::CanvasTooLarge);
            },
        };
        let mut frames = match collect_frames(&mut session, width, height, canvas_len) {
            Ok(f) => f,
            Err(e) => {
                return Err(e);
            },
        };
        let ghost history = frames@;
        let ghost fs = stream_frames(data@, history.len());
        proof {
            lemma_snapshot_size(history, fs, width, height);
            if has_global_table(data@) {
                let b: u8 = data@[10];
                let e = (b & 7u8) as nat;
                assert(b & 7u8 <= 7u8) by (bit_vector);
                lemma2_to64();
                assert(pow2(e) <= 128);
            }
        }
        reverse_frames(&mut frames);
        assert forall|i: int| 0 <= i < frames@.len() implies (#[trigger] frames@[i]) == history[history.len() - 1 - i] by {}
        let encoder = match open_encoder(width, height, &palette) {
            Ok(e) => e,
            Err(_) => {
                return Err(GifError::Decode { frames_decoded: 0 });
            },
        };
        let job = ReverseJob {
            frames,
            width,
            height,
            encoder: Some(encoder),
            registered: false,
            written: 0,
            palette: Ghost(palette@),
            history: Ghost(history),
            events: Ghost(Seq::empty()),
        };
        assert(job.events@ =~= host_protocol(job.frames@.len()).take(0));
        assert(snapshot_records(job.frames@.take(0)) =~= Seq::<(u16, u16, u16, Seq<u8>)>::empty());
        Ok(job)
    }

    /// The number of frames that the output will hold.
    pub fn total_frames(&self) -> (r: usize)
        ensures
            r == self.frames().len(),
    {
        self.frames.len()
    }

    /// The snapshot that is written at position `i` of the output.
    pub fn frame_at(&self, i: usize) -> (r: &FrameSnapshot)
        requires
            i < self.frames().len(),
        ensures
            *r == self.frames()[i as int],
    {
        &self.frames[i]
    }

    /// Does the next piece of work. The first step registers the frame count;
    /// each later step writes the next frame and reports how many are
    /// written; the step after the last frame closes the output and hands it
    /// out: the encoding of the frames in the order they were written.
    pub fn step(&mut self) -> (r: JobStep)
        requires
            old(self).wf(),
            !old(self).is_done(),
        ensures
            final(self).wf(),
            final(self).frames() == old(self).frames(),
            final(self).history() == old(self).history(),
            final(self).width() == old(self).width(),
            final(self).height() == old(self).height(),
            final(self).palette() == old(self).palette(),
            !old(self).registered() ==> r == JobStep::Notify(HostEvent::Register { total: old(self).frames().len() as usize })
                && final(self).sent() == old(self).sent(),
            old(self).registered() && old(self).written() < old(self).frames().len() ==> r == JobStep::Notify(
                HostEvent::Progress { written: (old(self).written() + 1) as usize },
            ) && final(self).sent() == old(self).sent().push(snapshot_record(old(self).frames()[old(self).written() as int])),
            old(self).registered() && old(self).written() == old(self).frames().len() ==> (r matches JobStep::Done(bytes)
                && bytes@ == gif_encoded(old(self).width(), old(self).height(), old(self).palette(), snapshot_records(old(self).frames()))),
            r matches JobStep::Notify(e) ==> !final(self).is_done() && final(self).events() == old(self).events().push(e),
            r matches JobStep::Done(_) ==> final(self).is_done() && final(self).events() == old(self).events(),
    {
        let total = self.frames.len();
        let i = self.written;
        let ghost protocol = host_protocol(total as nat);
        if !self.registered {
            let e = HostEvent::Register { total };
            self.registered = true;
            self.events = Ghost(self.events@.push(e));
            assert(self.events@ =~= protocol.take(1));
            return JobStep::Notify(e);
        }
        let mut encoder = match self.encoder.take() {
            Some(e) => e,
            None => {
                return JobStep::Done(Vec::new());
            },
        };
        if i < total {
            let snapshot = &self.frames[i];
            encode_frame(&mut encoder, snapshot.width, snapshot.height, &snapshot.rgba, snapshot.delay);
            self.encoder = Some(encoder);
            let e = HostEvent::Progress { written: i + 1 };
            self.written = i + 1;
            self.events = Ghost(self.events@.push(e));
            assert(self.events@ =~= protocol.take(i + 2));
            assert(snapshot_records(self.frames@.take(i + 1)) =~= snapshot_records(self.frames@.take(i as int)).push(
                snapshot_record(self.frames@[i as int]),
            ));
            JobStep::Notify(e)
        } else {
            assert(self.frames@.take(i as int) =~= self.frames@);
            match finish_encoder(encoder) {
                Ok(bytes) => JobStep::Done(bytes),
                Err(_) => JobStep::Done(Vec::new()),
            }
        }
    }
}

/// Once a reversal is done, the host was told exactly this: one registration
/// with the number of composited frames, first, and then one progress report
/// per frame, counting `1, 2, ..., total` in order. The registration does not
/// come again.
pub proof fn lemma_host_protocol(job: ReverseJob)
    requires
        job.wf(),
        job.is_done(),
    ensures
        job.frames().len() == job.history().len(),
        job.events().len() == job.frames().len() + 1,
        job.events()[0] == (HostEvent::Register { total: job.frames().len() as usize }),
        forall|i: int|
            1 <= i <= job.frames().len() ==> #[trigger] job.events()[i] == (HostEvent::Progress { written: i as usize }),
{
}

} // verus!
