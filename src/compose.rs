use vstd::prelude::*;
use vstd::arithmetic::div_mod::lemma_fundamental_div_mod_converse;

verus! {

/// One decoded frame record as the decoder hands it out: its placement on the
/// canvas, its display delay and its own RGBA pixels, row by row.
pub struct RawFrame {
    pub left: u16,
    pub top: u16,
    pub width: u16,
    pub height: u16,
    pub delay: u16,
    pub rgba: Vec<u8>,
}

/// What a frame record holds, as plain values.
pub struct FrameView {
    pub left: u16,
    pub top: u16,
    pub width: u16,
    pub height: u16,
    pub delay: u16,
    pub rgba: Seq<u8>,
}

impl View for RawFrame {
    type V = FrameView;

    open spec fn view(&self) -> FrameView {
        FrameView {
            left: self.left,
            top: self.top,
            width: self.width,
            height: self.height,
            delay: self.delay,
            rgba: self.rgba@,
        }
    }
}

/// The full canvas right after one source frame was painted onto it.
pub struct FrameSnapshot {
    pub width: u16,
    pub height: u16,
    pub rgba: Vec<u8>,
    pub delay: u16,
}

/// Whether canvas pixel `p` of a canvas `width` pixels wide lies inside the
/// rectangle that frame `f` covers.
pub open spec fn covers(f: FrameView, width: nat, p: int) -> bool {
    let y = p / (width as int);
    let x = p % (width as int);
    &&& f.top <= y < f.top + f.height
    &&& f.left <= x < f.left + f.width
}

/// The index, within the frame's own pixels, of canvas pixel `p`.
pub open spec fn frame_pixel(f: FrameView, width: nat, p: int) -> int {
    let y = p / (width as int);
    let x = p % (width as int);
    (y - f.top) * (f.width as int) + (x - f.left)
}

/// The alpha channel of pixel `i` of frame `f`.
pub open spec fn alpha(f: FrameView, i: int) -> u8 {
    f.rgba[4 * i + 3]
}

/// Whether frame `f` paints canvas pixel `p`: the pixel is covered, the frame
/// holds all four channels for it, and its alpha is not zero.
pub open spec fn paints(f: FrameView, width: nat, p: int) -> bool {
    let i = frame_pixel(f, width, p);
    &&& covers(f, width, p)
    &&& 4 * i + 3 < f.rgba.len()
    &&& alpha(f, i) != 0
}

/// The canvas after painting frame `f` onto `canvas`: each byte of a painted
/// pixel comes from the frame, every other byte stays.
pub open spec fn composite(canvas: Seq<u8>, width: nat, f: FrameView) -> Seq<u8> {
    Seq::new(
        canvas.len(),
        |k: int|
            if paints(f, width, k / 4) {
                f.rgba[4 * frame_pixel(f, width, k / 4) + k % 4]
            } else {
                canvas[k]
            },
    )
}

/// A blank canvas: every channel of every pixel is zero.
pub open spec fn blank_canvas(width: nat, height: nat) -> Seq<u8> {
    Seq::new(width * height * 4, |k: int| 0u8)
}

/// The canvas after the first `n` frames of `frames` were painted, in order,
/// onto a blank canvas.
pub open spec fn canvas_after(frames: Seq<FrameView>, width: nat, height: nat, n: nat) -> Seq<u8>
    decreases n,
{
    if n == 0 || n > frames.len() {
        blank_canvas(width, height)
    } else {
        composite(canvas_after(frames, width, height, (n - 1) as nat), width, frames[n - 1])
    }
}

/// Whether `snaps` is the snapshot history of painting `frames` onto a blank
/// canvas of the given size: one snapshot per frame, in order, each with the
/// frame's delay.
pub open spec fn is_history(snaps: Seq<FrameSnapshot>, frames: Seq<FrameView>, width: u16, height: u16) -> bool {
    &&& snaps.len() == frames.len()
    &&& forall|i: int|
        0 <= i < snaps.len() ==> {
            &&& (#[trigger] snaps[i]).width == width
            &&& snaps[i].height == height
            &&& snaps[i].delay == frames[i].delay
            &&& snaps[i].rgba@ == canvas_after(frames, width as nat, height as nat, (i + 1) as nat)
        }
}

proof fn lemma_byte_of_pixel(k: int, p: int)
    requires
        4 * p <= k < 4 * p + 4,
    ensures
        k / 4 == p,
        k % 4 == k - 4 * p,
{
    lemma_fundamental_div_mod_converse(k, 4, p, k - 4 * p);
}

/// Paints `frame` onto `canvas`, a canvas `width` pixels wide: a frame pixel
/// with a non-zero alpha replaces the canvas pixel under it; a pixel with zero
/// alpha, and any canvas pixel outside the frame's rectangle, is left as it was.
pub fn composite_frame(canvas: &mut Vec<u8>, width: u16, frame: &RawFrame)
    requires
        width > 0,
        old(canvas)@.len() % 4 == 0,
    ensures
        final(canvas)@ == composite(old(canvas)@, width as nat, frame@),
{
    let ghost start = canvas@;
    let w = width as usize;
    let total = canvas.len();
    let npix = total / 4;
    let top = frame.top as usize;
    let left = frame.left as usize;
    let fw = frame.width as usize;
    let fh = frame.height as usize;
    let frame_len = frame.rgba.len();
    let frame_pixels = frame_len / 4;
    proof {
        lemma_fundamental_div_mod_converse(canvas@.len() as int, 4, npix as int, 0);
    }
    let mut p: usize = 0;
    while p < npix
        invariant
            w == width as usize,
            w > 0,
            npix * 4 == start.len(),
            total == start.len(),
            frame_len == frame.rgba@.len(),
            p <= npix,
            canvas@.len() == start.len(),
            top == frame.top,
            left == frame.left,
            fw == frame.width,
            fh == frame.height,
            frame_pixels == frame.rgba@.len() / 4,
            forall|k: int| 0 <= k < 4 * p ==> canvas@[k] == composite(start, width as nat, frame@)[k],
            forall|k: int| 4 * p <= k < start.len() ==> canvas@[k] == start[k],
        decreases npix - p,
    {
        let y = p / w;
        let x = p % w;
        let ghost before = canvas@;
        if top <= y && y < top + fh && left <= x && x < left + fw {
            let row = (y - top) as u64;
            assert(row * (fw as u64) <= 65535 * 65535) by (nonlinear_arith)
                requires row < 65536, fw < 65536;
            let i = row * (fw as u64) + ((x - left) as u64);
            if i < frame_pixels as u64 {
                assert((i as int) * 4 + 4 <= frame.rgba@.len());
                let b = (i as usize) * 4;
                if frame.rgba[b + 3] != 0 {
                    assert(p * 4 + 4 <= start.len());
                    let q = p * 4;
                    canvas.set(q, frame.rgba[b]);
                    canvas.set(q + 1, frame.rgba[b + 1]);
                    canvas.set(q + 2, frame.rgba[b + 2]);
                    canvas.set(q + 3, frame.rgba[b + 3]);
                }
            }
        }
        assert forall|k: int| 4 * p <= k < 4 * p + 4 implies canvas@[k] == composite(start, width as nat, frame@)[k] by {
            lemma_byte_of_pixel(k, p as int);
        }
        p = p + 1;
    }
}

/// Reverses the order of `frames` in place. Each snapshot is moved whole,
/// so its delay stays with its pixels.
pub fn reverse_frames(frames: &mut Vec<FrameSnapshot>)
    ensures
        final(frames)@ == old(frames)@.reverse(),
{
    let ghost start = frames@;
    let mut out: Vec<FrameSnapshot> = Vec::new();
    while frames.len() > 0
        invariant
            frames@ == start.subrange(0, frames@.len() as int),
            out@.len() + frames@.len() == start.len(),
            forall|i: int| 0 <= i < out@.len() ==> out@[i] == start[start.len() - 1 - i],
        decreases frames@.len(),
    {
        let f = frames.pop().unwrap();
        out.push(f);
    }
    assert(out@ =~= start.reverse());
    *frames = out;
}

/// Painting is size-preserving: every canvas in a history has the size of the
/// blank canvas it started from.
pub proof fn lemma_canvas_size(frames: Seq<FrameView>, width: nat, height: nat, n: nat)
    ensures
        canvas_after(frames, width, height, n).len() == width * height * 4,
    decreases n,
{
    if n > 0 && n <= frames.len() {
        lemma_canvas_size(frames, width, height, (n - 1) as nat);
    }
}

/// Every snapshot of a history holds exactly `width * height * 4` bytes.
pub proof fn lemma_snapshot_size(snaps: Seq<FrameSnapshot>, frames: Seq<FrameView>, width: u16, height: u16)
    requires
        is_history(snaps, frames, width, height),
    ensures
        forall|i: int|
            0 <= i < snaps.len() ==> (#[trigger] snaps[i]).rgba@.len() == (width as int) * (height as int) * 4,
{
    assert forall|i: int| 0 <= i < snaps.len() implies (#[trigger] snaps[i]).rgba@.len() == (width as int) * (height as int) * 4 by {
        lemma_canvas_size(frames, width as nat, height as nat, (i + 1) as nat);
    }
}

/// In a history each snapshot is the one before it (the blank canvas for the
/// first) with the matching frame painted on it; so the laws on `composite`
/// hold from snapshot to snapshot.
pub proof fn lemma_history_step(snaps: Seq<FrameSnapshot>, frames: Seq<FrameView>, width: u16, height: u16, k: int)
    requires
        is_history(snaps, frames, width, height),
        0 <= k < snaps.len(),
    ensures
        snaps[k].rgba@ == composite(
            if k == 0 {
                blank_canvas(width as nat, height as nat)
            } else {
                snaps[k - 1].rgba@
            },
            width as nat,
            frames[k],
        ),
{
    let w = width as nat;
    let h = height as nat;
    if k > 0 {
        assert(snaps[k - 1].rgba@ == canvas_after(frames, w, h, (k - 1 + 1) as nat));
    } else {
        assert(canvas_after(frames, w, h, 0) == blank_canvas(w, h));
    }
    assert(snaps[k].rgba@ == canvas_after(frames, w, h, (k + 1) as nat));
    assert(canvas_after(frames, w, h, (k + 1) as nat) == composite(canvas_after(frames, w, h, k as nat), w, frames[k]));
}

/// Reversing a sequence of snapshots twice gives back the same sequence, with
/// the same pixels and delays at each position.
pub proof fn lemma_reverse_twice(snaps: Seq<FrameSnapshot>)
    ensures
        snaps.reverse().reverse() == snaps,
{
    assert(snaps.reverse().reverse() =~= snaps);
}

/// A frame in which every pixel has alpha zero leaves the canvas exactly as
/// it was.
pub proof fn lemma_transparent_frame_keeps_canvas(canvas: Seq<u8>, width: nat, f: FrameView)
    requires
        forall|i: int| 0 <= i && 4 * i + 3 < f.rgba.len() ==> #[trigger] alpha(f, i) == 0,
    ensures
        composite(canvas, width, f) == canvas,
{
    assert(composite(canvas, width, f) =~= canvas);
}

/// Painting a frame changes no canvas pixel outside the frame's rectangle:
/// the pixel at `(row, col)` keeps all four channels when the row lies outside
/// `[top, top + height)` or the column outside `[left, left + width)`.
pub proof fn lemma_outside_frame_unchanged(canvas: Seq<u8>, width: nat, f: FrameView, row: nat, col: nat)
    requires
        col < width,
        ((row * width + col) * 4 + 4) <= canvas.len(),
        !(f.top <= row < f.top + f.height && f.left <= col < f.left + f.width),
    ensures
        forall|c: int|
            0 <= c < 4 ==> #[trigger] composite(canvas, width, f)[(row * width + col) * 4 + c]
                == canvas[(row * width + col) * 4 + c],
{
    let p = (row * width + col) as int;
    lemma_fundamental_div_mod_converse(p, width as int, row as int, col as int);
    assert forall|c: int| 0 <= c < 4 implies #[trigger] composite(canvas, width, f)[p * 4 + c] == canvas[p * 4 + c] by {
        lemma_byte_of_pixel(p * 4 + c, p);
    }
}

} // verus!
