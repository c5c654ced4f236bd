use vstd::prelude::*;
use crate::codec::{
    declared_palette, frame_record, gif_frame_read, gif_header_ok, has_gif_signature, le_u16,
    open_session, session_height, session_next_frame, session_palette, session_width,
    DecodeSession, HEADER_LEN,
};
use crate::compose::{
    canvas_after, composite, composite_frame, is_history, lemma_canvas_size, FrameSnapshot,
    FrameView,
};

verus! {

/// The canvas size of an animated image, fixed for all of its frames.
#[derive(Clone, Copy, Debug, PartialEq, Eq, Structural)]
pub struct Dimension {
    pub width: u16,
    pub height: u16,
}

/// Why reading an animated image failed.
#[derive(Clone, Copy, Debug, PartialEq, Eq, Structural)]
pub enum GifError {
    /// The input is not a readable GIF; `frames_decoded` frames were read
    /// and composited before the fault.
    Decode { frames_decoded: usize },
    /// A canvas of this size does not fit in memory on this machine.
    CanvasTooLarge,
    /// A host notification reported a failure.
    Callback,
}

/// The screen width that the header of `data` declares.
pub open spec fn header_width(data: Seq<u8>) -> u16 {
    le_u16(data, 6)
}

/// The screen height that the header of `data` declares.
pub open spec fn header_height(data: Seq<u8>) -> u16 {
    le_u16(data, 8)
}

/// A frame as the decoder's record gives it.
pub open spec fn frame_of(t: (u16, u16, u16, u16, u16, Seq<u8>)) -> FrameView {
    FrameView { left: t.0, top: t.1, width: t.2, height: t.3, delay: t.4, rgba: t.5 }
}

/// Whether the first `n` reads of a decoder on `data` each give a frame.
pub open spec fn stream_reads_frames(data: Seq<u8>, n: nat) -> bool {
    forall|i: nat| i < n ==> #[trigger] gif_frame_read(data, i) matches Some(Some(_))
}

/// Whether the stream of `data` holds exactly `n` frames and then ends.
pub open spec fn stream_ends_at(data: Seq<u8>, n: nat) -> bool {
    stream_reads_frames(data, n) && gif_frame_read(data, n) == Some(None::<(u16, u16, u16, u16, u16, Seq<u8>)>)
}

/// Whether the stream of `data` gives `n` frames and then an error.
pub open spec fn stream_fails_at(data: Seq<u8>, n: nat) -> bool {
    stream_reads_frames(data, n) && gif_frame_read(data, n) is None
}

/// The first `n` frames of the stream of `data`.
pub open spec fn stream_frames(data: Seq<u8>, n: nat) -> Seq<FrameView> {
    Seq::new(n, |i: int| frame_of(gif_frame_read(data, i as nat)->Some_0->Some_0))
}

/// A stream cannot both end after `n` frames and fail after `k`.
pub proof fn lemma_end_excludes_failure(data: Seq<u8>, n: nat, k: nat)
    ensures
        !(stream_ends_at(data, n) && stream_fails_at(data, k)),
{
    if stream_ends_at(data, n) && stream_fails_at(data, k) {
        if k < n {
            assert(gif_frame_read(data, k) matches Some(Some(_)));
        } else if n < k {
            assert(gif_frame_read(data, n) matches Some(Some(_)));
        }
    }
}

/// Reads the canvas size that the header of a GIF declares, without decoding
/// any frame. It succeeds exactly when the decoder accepts the header.
pub fn get_dimension(data: &[u8]) -> (r: Result<Dimension, GifError>)
    ensures
        r is Ok <==> gif_header_ok(data@),
        r is Ok ==> data@.len() >= HEADER_LEN && has_gif_signature(data@) && r->Ok_0 == (Dimension {
            width: header_width(data@),
            height: header_height(data@),
        }),
        r is Err ==> r == Err::<Dimension, GifError>(GifError::Decode { frames_decoded: 0 }),
        data@.len() < HEADER_LEN ==> r is Err,
{
    match open_session(data) {
        Ok(session) => Ok(Dimension { width: session_width(&session), height: session_height(&session) }),
        Err(_) => Err(GifError::Decode { frames_decoded: 0 }),
    }
}

/// Reads the canvas size and the global color table of an open session; the
/// table is passed on as the input holds it, empty when none is declared.
pub(crate) fn read_metadata(session: &DecodeSession) -> (r: (u16, u16, Vec<u8>))
    requires
        session.source().len() >= HEADER_LEN,
    ensures
        r.0 == header_width(session.source()),
        r.1 == header_height(session.source()),
        r.2@ == declared_palette(session.source()),
{
    let width = session_width(session);
    let height = session_height(session);
    let palette = match session_palette(session) {
        Some(p) => p,
        None => Vec::new(),
    };
    (width, height, palette)
}

/// Painting the first `n` frames does not depend on the frames after them.
proof fn lemma_canvas_prefix(frames: Seq<FrameView>, extra: FrameView, width: nat, height: nat, n: nat)
    requires
        n <= frames.len(),
    ensures
        canvas_after(frames.push(extra), width, height, n) == canvas_after(frames, width, height, n),
    decreases n,
{
    if n > 0 {
        lemma_canvas_prefix(frames, extra, width, height, (n - 1) as nat);
        assert(frames.push(extra)[n - 1] == frames[n - 1]);
    }
}

/// Reads every frame of a fresh session and paints each, in order, onto one
/// canvas of `width * height` pixels that starts blank; after each frame the
/// whole canvas is kept as a snapshot together with that frame's delay. It
/// succeeds exactly when the stream ends without an error; a fault ends the
/// reading with the number of frames done.
pub(crate) fn collect_frames(session: &mut DecodeSession, width: u16, height: u16, canvas_len: usize) -> (r: Result<Vec<FrameSnapshot>, GifError>)
    requires
        canvas_len == (width as int) * (height as int) * 4,
        old(session).frames_read() == 0,
        !old(session).ended(),
    ensures
        r is Ok ==> stream_ends_at(old(session).source(), r->Ok_0@.len())
            && is_history(r->Ok_0@, stream_frames(old(session).source(), r->Ok_0@.len()), width, height),
        r is Err ==> (r->Err_0 matches GifError::Decode { frames_decoded: k } && stream_fails_at(old(session).source(), k as nat)),
        (exists|n: nat| stream_ends_at(old(session).source(), n)) ==> r is Ok,
{
    let ghost w = width as nat;
    let ghost h = height as nat;
    let ghost data = old(session).source();
    let mut canvas: Vec<u8> = Vec::new();
    while canvas.len() < canvas_len
        invariant
            canvas_len == w * h * 4,
            canvas@.len() <= canvas_len,
            forall|k: int| 0 <= k < canvas@.len() ==> canvas@[k] == 0u8,
        decreases canvas_len - canvas@.len(),
    {
        canvas.push(0u8);
    }
    assert(canvas@ =~= canvas_after(Seq::<FrameView>::empty(), w, h, 0));
    let mut snaps: Vec<FrameSnapshot> = Vec::new();
    let ghost mut frames: Seq<FrameView> = Seq::empty();
    assert(frames =~= stream_frames(data, 0));
    loop
        invariant
            canvas_len == w * h * 4,
            w == width as nat,
            h == height as nat,
            session.source() == data,
            old(session).source() == data,
            !session.ended(),
            session.frames_read() == snaps@.len(),
            snaps@.len() <= data.len(),
            stream_reads_frames(data, snaps@.len() as nat),
            frames == stream_frames(data, snaps@.len() as nat),
            is_history(snaps@, frames, width, height),
            canvas@ == canvas_after(frames, w, h, frames.len()),
            canvas@.len() == canvas_len,
        decreases data.len() - snaps@.len(),
    {
        let ghost n = snaps@.len() as nat;
        match session_next_frame(session) {
            Ok(Some(frame)) => {
                let ghost prev = frames;
                if width > 0 {
                    composite_frame(&mut canvas, width, &frame);
                } else {
                    assert(composite(canvas@, w, frame@) =~= canvas@);
                }
                proof {
                    frames = frames.push(frame@);
                    assert(frame_of(frame_record(frame@)) == frame@);
                    assert(frames =~= stream_frames(data, n + 1));
                    assert(stream_reads_frames(data, n + 1)) by {
                        assert forall|i: nat| i < n + 1 implies #[trigger] gif_frame_read(data, i) matches Some(Some(_)) by {
                            if i < n {
                                assert(stream_reads_frames(data, n));
                            }
                        }
                    }
                    lemma_canvas_prefix(prev, frame@, w, h, prev.len());
                    assert forall|i: int| 0 <= i < snaps@.len() implies (#[trigger] snaps@[i]).rgba@
                        == canvas_after(frames, w, h, (i + 1) as nat) by {
                        lemma_canvas_prefix(prev, frame@, w, h, (i + 1) as nat);
                    }
                }
                let snapshot = FrameSnapshot { width, height, rgba: canvas.clone(), delay: frame.delay };
                snaps.push(snapshot);
                proof {
                    lemma_canvas_size(frames, w, h, frames.len());
                }
            },
            Ok(None) => {
                return Ok(snaps);
            },
            Err(_) => {
                proof {
                    assert forall|m: nat| !stream_ends_at(data, m) by {
                        lemma_end_excludes_failure(data, m, n);
                    }
                }
                return Err(GifError::Decode { frames_decoded: snaps.len() });
            },
        }
    }
}

} // verus!
