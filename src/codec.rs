use vstd::prelude::*;
use vstd::arithmetic::power2::pow2;
use crate::compose::{FrameView, RawFrame};

verus! {

#[verifier::external_type_specification]
#[verifier::external_body]
pub struct ExDecodingError(gif::DecodingError);

#[verifier::external_type_specification]
#[verifier::external_body]
pub struct ExEncodingError(gif::EncodingError);

#[verifier::external_type_specification]
#[verifier::external_body]
pub struct ExFrame<'a>(gif::Frame<'a>);

#[verifier::external_type_specification]
#[verifier::external_body]
pub struct ExIoError(std::io::Error);

/// The unsigned 16-bit little-endian number stored at `at` and `at + 1`.
pub open spec fn le_u16(bytes: Seq<u8>, at: int) -> u16 {
    (bytes[at] as int + 256 * (bytes[at + 1] as int)) as u16
}

/// Length of a GIF's signature and logical screen descriptor together.
pub const HEADER_LEN: usize = 13;

/// Whether `data` starts with the signature `GIF87a` or `GIF89a`.
pub open spec fn has_gif_signature(data: Seq<u8>) -> bool {
    data.len() >= 6 && (data.subrange(0, 6) == seq![71u8, 73, 70, 56, 55, 97] || data.subrange(0, 6) == seq![
        71u8,
        73,
        70,
        56,
        57,
        97,
    ])
}

/// Whether the screen descriptor of `data` declares a global color table.
pub open spec fn has_global_table(data: Seq<u8>) -> bool {
    data[10] & 0x80u8 != 0
}

/// The byte length of the global color table that `data` declares: three
/// bytes for each of `2^(n + 1)` colors, `n` being the low three bits of the
/// descriptor's packed field.
pub open spec fn global_table_len(data: Seq<u8>) -> nat {
    6 * pow2((data[10] & 7u8) as nat)
}

/// The global color table of `data` as it stands in the input, or the empty
/// sequence when none is declared.
pub open spec fn declared_palette(data: Seq<u8>) -> Seq<u8> {
    if has_global_table(data) {
        data.subrange(HEADER_LEN as int, HEADER_LEN + global_table_len(data))
    } else {
        Seq::empty()
    }
}

/// Whether gif's decoder, set to RGBA output, accepts the header of `data`:
/// signature, screen descriptor, global color table and what precedes the
/// first frame.
pub uninterp spec fn gif_header_ok(data: Seq<u8>) -> bool;

/// What the `n`-th call (from zero) of gif's `Decoder::read_next_frame`
/// returns on a decoder opened on `data` with RGBA output, when the calls
/// before it all returned a frame: `None` for an error, `Some(None)` at the
/// end of the stream, else the frame as (left, top, width, height, delay,
/// pixels).
pub uninterp spec fn gif_frame_read(data: Seq<u8>, n: nat) -> Option<Option<(u16, u16, u16, u16, u16, Seq<u8>)>>;

/// The bytes that gif's encoder writes for a stream of the given screen size
/// and global color table, marked to loop forever, holding one frame per entry
/// of `frames`, each built by `Frame::from_rgba` from (width, height, delay,
/// RGBA pixels).
pub uninterp spec fn gif_encoded(width: u16, height: u16, palette: Seq<u8>, frames: Seq<(u16, u16, u16, Seq<u8>)>) -> Seq<u8>;

/// A frame read from the stream, as the decoder's record of it.
pub open spec fn frame_record(f: FrameView) -> (u16, u16, u16, u16, u16, Seq<u8>) {
    (f.left, f.top, f.width, f.height, f.delay, f.rgba)
}

/// gif's decoder over a byte slice. Verus cannot take `gif::Decoder` itself,
/// whose parameter is bound by `std::io::Read`, so it is held here unseen.
#[verifier::external_body]
pub(crate) struct GifReader<'a> {
    inner: gif::Decoder<&'a [u8]>,
}

/// gif's encoder writing into a byte buffer, held unseen for the same reason
/// (its parameter is bound by `std::io::Write`).
#[verifier::external_body]
pub(crate) struct GifWriter {
    inner: gif::Encoder<Vec<u8>>,
}

/// A frame record built by `Frame::from_rgba`; only `rgba_frame` makes one.
pub(crate) struct RgbaFrame {
    frame: gif::Frame<'static>,
}

/// An open decode session over `data` that has handed out `read` frames and,
/// once `ended`, is read no more.
pub(crate) struct DecodeSession<'a> {
    data: &'a [u8],
    reader: GifReader<'a>,
    read: usize,
    ended: bool,
}

impl<'a> DecodeSession<'a> {
    pub(crate) closed spec fn source(&self) -> Seq<u8> {
        self.data@
    }

    pub(crate) closed spec fn frames_read(&self) -> nat {
        self.read as nat
    }

    pub(crate) closed spec fn ended(&self) -> bool {
        self.ended
    }
}

/// Relies on gif's `DecodeOptions::read_info` with RGBA output. It reads the
/// signature (it must be `GIF87a` or `GIF89a`), the seven-byte screen
/// descriptor and the global color table that the descriptor declares before
/// it can succeed.
#[verifier::external_body]
fn read_info_rgba<'a>(data: &'a [u8]) -> (r: Result<GifReader<'a>, gif::DecodingError>)
    ensures
        r is Ok <==> gif_header_ok(data@),
        r is Ok ==> data@.len() >= HEADER_LEN && has_gif_signature(data@),
        r is Ok ==> (has_global_table(data@) ==> data@.len() >= HEADER_LEN + global_table_len(data@)),
{
    let mut options = gif::DecodeOptions::new();
    options.set_color_output(gif::ColorOutput::RGBA);
    match options.read_info(data) {
        Ok(inner) => Ok(GifReader { inner }),
        Err(e) => Err(e),
    }
}

/// Opens a decode session on `data`; no frame has been read yet.
pub(crate) fn open_session<'a>(data: &'a [u8]) -> (r: Result<DecodeSession<'a>, gif::DecodingError>)
    ensures
        r is Ok <==> gif_header_ok(data@),
        r is Ok ==> data@.len() >= HEADER_LEN && has_gif_signature(data@),
        r is Ok ==> (has_global_table(data@) ==> data@.len() >= HEADER_LEN + global_table_len(data@)),
        r is Ok ==> r->Ok_0.source() == data@ && r->Ok_0.frames_read() == 0 && !r->Ok_0.ended(),
{
    match read_info_rgba(data) {
        Ok(reader) => Ok(DecodeSession { data, reader, read: 0, ended: false }),
        Err(e) => Err(e),
    }
}

/// Relies on gif's `Decoder::width`: the screen width that the descriptor
/// declares, little-endian at bytes 6 and 7.
#[verifier::external_body]
pub(crate) fn session_width(s: &DecodeSession) -> (r: u16)
    requires
        s.source().len() >= HEADER_LEN,
    ensures
        r == le_u16(s.source(), 6),
{
    s.reader.inner.width()
}

/// Relies on gif's `Decoder::height`: the screen height that the descriptor
/// declares, little-endian at bytes 8 and 9.
#[verifier::external_body]
pub(crate) fn session_height(s: &DecodeSession) -> (r: u16)
    requires
        s.source().len() >= HEADER_LEN,
    ensures
        r == le_u16(s.source(), 8),
{
    s.reader.inner.height()
}

/// Relies on gif's `Decoder::global_palette`: the global color table exactly
/// as the input holds it, present when the descriptor declares one.
#[verifier::external_body]
pub(crate) fn session_palette(s: &DecodeSession) -> (r: Option<Vec<u8>>)
    requires
        s.source().len() >= HEADER_LEN,
    ensures
        r is Some <==> has_global_table(s.source()),
        r is Some ==> r->Some_0@ == declared_palette(s.source()),
{
    match s.reader.inner.global_palette() {
        Some(p) => Some(p.to_vec()),
        None => None,
    }
}

/// Relies on gif's `Decoder::read_next_frame`, called for the `read`-th time
/// on this input. A frame takes at least its ten-byte image descriptor from
/// the input, so the `n`-th frame lies beyond byte `n`.
#[verifier::external_body]
fn reader_next_frame(s: &mut DecodeSession) -> (r: Result<Option<RawFrame>, gif::DecodingError>)
    requires
        !old(s).ended(),
    ensures
        final(s).source() == old(s).source(),
        final(s).frames_read() == old(s).frames_read(),
        final(s).ended() == old(s).ended(),
        r matches Ok(Some(f)) ==> gif_frame_read(old(s).source(), old(s).frames_read()) == Some(Some(frame_record(f@)))
            && old(s).frames_read() < old(s).source().len(),
        r matches Ok(None) ==> gif_frame_read(old(s).source(), old(s).frames_read()) == Some(
            None::<(u16, u16, u16, u16, u16, Seq<u8>)>,
        ),
        r is Err ==> gif_frame_read(old(s).source(), old(s).frames_read()) is None,
{
    match s.reader.inner.read_next_frame() {
        Ok(Some(f)) => Ok(Some(RawFrame {
            left: f.left,
            top: f.top,
            width: f.width,
            height: f.height,
            delay: f.delay,
            rgba: f.buffer.to_vec(),
        })),
        Ok(None) => Ok(None),
        Err(e) => Err(e),
    }
}

/// Reads the next frame of the session: the frame that the decoder hands out
/// next, `None` at the end, or the decoder's error. After the end or an error
/// the session is read no more.
pub(crate) fn session_next_frame(s: &mut DecodeSession) -> (r: Result<Option<RawFrame>, gif::DecodingError>)
    requires
        !old(s).ended(),
    ensures
        final(s).source() == old(s).source(),
        r matches Ok(Some(f)) ==> gif_frame_read(old(s).source(), old(s).frames_read()) == Some(Some(frame_record(f@)))
            && final(s).frames_read() == old(s).frames_read() + 1 && !final(s).ended()
            && old(s).frames_read() < old(s).source().len(),
        r matches Ok(None) ==> gif_frame_read(old(s).source(), old(s).frames_read()) == Some(
            None::<(u16, u16, u16, u16, u16, Seq<u8>)>,
        ),
        r is Err ==> gif_frame_read(old(s).source(), old(s).frames_read()) is None,
{
    let len = s.data.len();
    let r = reader_next_frame(s);
    match r {
        Ok(Some(_)) => {
            s.read = s.read + 1;
        },
        _ => {
            s.ended = true;
        },
    }
    r
}

/// An open encode session of the given screen size and global color table,
/// set to loop forever, with the frames written so far as (width, height,
/// delay, RGBA pixels).
pub(crate) struct EncodeSession {
    writer: GifWriter,
    width: u16,
    height: u16,
    palette: Ghost<Seq<u8>>,
    sent: Ghost<Seq<(u16, u16, u16, Seq<u8>)>>,
}

impl EncodeSession {
    pub(crate) closed spec fn width(&self) -> u16 {
        self.width
    }

    pub(crate) closed spec fn height(&self) -> u16 {
        self.height
    }

    pub(crate) closed spec fn palette(&self) -> Seq<u8> {
        self.palette@
    }

    pub(crate) closed spec fn sent(&self) -> Seq<(u16, u16, u16, Seq<u8>)> {
        self.sent@
    }
}

/// Relies on gif's `Encoder::new`, writing into a fresh buffer: it writes the
/// screen descriptor and the global color table, and refuses a table of more
/// than 256 colors.
#[verifier::external_body]
fn new_encoder(width: u16, height: u16, palette: &Vec<u8>) -> (r: Result<GifWriter, gif::EncodingError>)
    ensures
        r is Ok <==> palette@.len() / 3 <= 256,
{
    match gif::Encoder::new(Vec::new(), width, height, palette) {
        Ok(inner) => Ok(GifWriter { inner }),
        Err(e) => Err(e),
    }
}

/// Relies on gif's `Encoder::set_repeat`, with `Repeat::Infinite`: the stream
/// is marked to loop forever; writing into a buffer does not fail.
#[verifier::external_body]
fn set_infinite_loop(e: &mut GifWriter) -> (r: Result<(), gif::EncodingError>)
    ensures
        r is Ok,
{
    e.inner.set_repeat(gif::Repeat::Infinite)
}

/// Opens an encode session; it fails only on a color table of more than 256
/// colors.
pub(crate) fn open_encoder(width: u16, height: u16, palette: &Vec<u8>) -> (r: Result<EncodeSession, gif::EncodingError>)
    ensures
        r is Ok <==> palette@.len() / 3 <= 256,
        r is Ok ==> r->Ok_0.width() == width && r->Ok_0.height() == height && r->Ok_0.palette() == palette@
            && r->Ok_0.sent() == Seq::<(u16, u16, u16, Seq<u8>)>::empty(),
{
    match new_encoder(width, height, palette) {
        Ok(mut writer) => {
            let _ = set_infinite_loop(&mut writer);
            Ok(EncodeSession { writer, width, height, palette: Ghost(palette@), sent: Ghost(Seq::empty()) })
        },
        Err(e) => Err(e),
    }
}

/// Relies on gif's `Frame::from_rgba`: a frame record of the given size built
/// from RGBA pixels, shown for `delay`. It panics unless there are exactly
/// `width * height * 4` bytes, and it may rewrite the alpha bytes of `pixels`.
#[verifier::external_body]
fn rgba_frame(width: u16, height: u16, pixels: &mut Vec<u8>, delay: u16) -> (r: RgbaFrame)
    requires
        old(pixels)@.len() == (width as int) * (height as int) * 4,
{
    let mut frame = gif::Frame::from_rgba(width, height, pixels);
    frame.delay = delay;
    RgbaFrame { frame }
}

/// Relies on gif's `Encoder::write_frame`: writes one frame record. A frame
/// from `Frame::from_rgba` holds one index per pixel, which is what the
/// encoder checks, and writing into a buffer does not fail.
#[verifier::external_body]
fn write_frame(e: &mut GifWriter, frame: &RgbaFrame) -> (r: Result<(), gif::EncodingError>)
    ensures
        r is Ok,
{
    e.inner.write_frame(&frame.frame)
}

/// Writes one frame of RGBA pixels, shown for `delay`.
pub(crate) fn encode_frame(e: &mut EncodeSession, width: u16, height: u16, rgba: &Vec<u8>, delay: u16)
    requires
        rgba@.len() == (width as int) * (height as int) * 4,
    ensures
        final(e).width() == old(e).width(),
        final(e).height() == old(e).height(),
        final(e).palette() == old(e).palette(),
        final(e).sent() == old(e).sent().push((width, height, delay, rgba@)),
{
    let mut pixels = rgba.clone();
    let frame = rgba_frame(width, height, &mut pixels, delay);
    let _ = write_frame(&mut e.writer, &frame);
    e.sent = Ghost(e.sent@.push((width, height, delay, rgba@)));
}

/// Relies on gif's `Encoder::into_inner`: writes the trailer and hands back
/// the buffer, which then holds the whole encoded stream.
#[verifier::external_body]
pub(crate) fn finish_encoder(e: EncodeSession) -> (r: Result<Vec<u8>, std::io::Error>)
    ensures
        r is Ok,
        r is Ok ==> r->Ok_0@ == gif_encoded(e.width(), e.height(), e.palette(), e.sent()),
{
    e.writer.inner.into_inner()
}

} // verus!
