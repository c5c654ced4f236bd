use gif_reverse::{
    composite_frame, get_dimension, reverse_frames, Dimension, FrameSnapshot, GifError, HostEvent,
    JobStep, RawFrame, ReverseJob,
};

const RED: [u8; 4] = [255, 0, 0, 255];
const BLUE: [u8; 4] = [0, 0, 255, 255];

fn solid(width: u16, height: u16, color: [u8; 4]) -> Vec<u8> {
    let mut v = Vec::new();
    for _ in 0..(width as usize * height as usize) {
        v.extend_from_slice(&color);
    }
    v
}

/// Encodes full-canvas RGBA frames, each with its delay, as an animated GIF.
fn encode(width: u16, height: u16, frames: &[(Vec<u8>, u16)]) -> Vec<u8> {
    let mut out = Vec::new();
    {
        let mut encoder = gif::Encoder::new(&mut out, width, height, &[]).unwrap();
        for (rgba, delay) in frames {
            let mut pixels = rgba.clone();
            let mut frame = gif::Frame::from_rgba(width, height, &mut pixels);
            frame.delay = *delay;
            encoder.write_frame(&frame).unwrap();
        }
    }
    out
}

/// Decodes a GIF into its frames as RGBA buffers with delays.
fn decode(data: &[u8]) -> Vec<(Vec<u8>, u16)> {
    let mut options = gif::DecodeOptions::new();
    options.set_color_output(gif::ColorOutput::RGBA);
    let mut decoder = options.read_info(data).unwrap();
    let mut frames = Vec::new();
    while let Some(frame) = decoder.read_next_frame().unwrap() {
        frames.push((frame.buffer.to_vec(), frame.delay));
    }
    frames
}

/// Runs a reversal to its end, collecting the notifications and the output.
fn run(data: &[u8]) -> (ReverseJob, Vec<HostEvent>, Vec<u8>) {
    let mut job = ReverseJob::start(data).unwrap();
    let mut events = Vec::new();
    loop {
        match job.step() {
            JobStep::Notify(e) => events.push(e),
            JobStep::Done(bytes) => return (job, events, bytes),
        }
    }
}

fn snapshot(rgba: Vec<u8>, delay: u16) -> FrameSnapshot {
    FrameSnapshot { width: 1, height: 1, rgba, delay }
}

#[test]
fn probe_reads_declared_size() {
    let data = encode(3, 2, &[(solid(3, 2, RED), 0)]);
    assert_eq!(get_dimension(&data), Ok(Dimension { width: 3, height: 2 }));
}

#[test]
fn probe_reads_little_endian_size() {
    let data = encode(300, 2, &[(solid(300, 2, BLUE), 5)]);
    assert_eq!(data[6], 44);
    assert_eq!(data[7], 1);
    assert_eq!(get_dimension(&data), Ok(Dimension { width: 300, height: 2 }));
}

#[test]
fn probe_refuses_truncated_header() {
    let data = encode(3, 2, &[(solid(3, 2, RED), 0)]);
    assert_eq!(get_dimension(&data[..8]), Err(GifError::Decode { frames_decoded: 0 }));
    assert_eq!(get_dimension(&[]), Err(GifError::Decode { frames_decoded: 0 }));
}

#[test]
fn probe_refuses_bad_signature() {
    let mut data = encode(3, 2, &[(solid(3, 2, RED), 0)]);
    data[0] = b'X';
    assert_eq!(get_dimension(&data), Err(GifError::Decode { frames_decoded: 0 }));
}

#[test]
fn reverse_two_frames_red_then_blue() {
    let data = encode(2, 2, &[(solid(2, 2, RED), 10), (solid(2, 2, BLUE), 20)]);
    let (job, events, bytes) = run(&data);
    assert_eq!(job.total_frames(), 2);
    assert_eq!(job.frame_at(0).rgba, solid(2, 2, BLUE));
    assert_eq!(job.frame_at(0).delay, 20);
    assert_eq!(job.frame_at(1).rgba, solid(2, 2, RED));
    assert_eq!(job.frame_at(1).delay, 10);
    assert_eq!(
        events,
        vec![
            HostEvent::Register { total: 2 },
            HostEvent::Progress { written: 1 },
            HostEvent::Progress { written: 2 },
        ]
    );
    assert_eq!(get_dimension(&bytes), Ok(Dimension { width: 2, height: 2 }));
    let out = decode(&bytes);
    assert_eq!(out.len(), 2);
    assert_eq!(out[0], (solid(2, 2, BLUE), 20));
    assert_eq!(out[1], (solid(2, 2, RED), 10));
}

#[test]
fn snapshots_hold_the_full_canvas() {
    let data = encode(3, 4, &[(solid(3, 4, RED), 1), (solid(3, 4, BLUE), 2), (solid(3, 4, RED), 3)]);
    let job = ReverseJob::start(&data).unwrap();
    assert_eq!(job.total_frames(), 3);
    for i in 0..3 {
        let f = job.frame_at(i);
        assert_eq!(f.rgba.len(), 3 * 4 * 4);
        assert_eq!((f.width, f.height), (3, 4));
    }
    assert_eq!(job.frame_at(0).delay, 3);
    assert_eq!(job.frame_at(2).delay, 1);
}

#[test]
fn register_once_then_progress_in_order() {
    let frames: Vec<(Vec<u8>, u16)> = (0..5u16).map(|d| (solid(1, 1, if d % 2 == 0 { RED } else { BLUE }), d)).collect();
    let data = encode(1, 1, &frames);
    let (_, events, _) = run(&data);
    assert_eq!(events.len(), 6);
    assert_eq!(events[0], HostEvent::Register { total: 5 });
    for i in 1..=5 {
        assert_eq!(events[i], HostEvent::Progress { written: i });
    }
}

#[test]
fn reverse_single_frame_keeps_it() {
    let data = encode(2, 1, &[(solid(2, 1, BLUE), 7)]);
    let (_, events, bytes) = run(&data);
    assert_eq!(events, vec![HostEvent::Register { total: 1 }, HostEvent::Progress { written: 1 }]);
    assert_eq!(decode(&bytes), vec![(solid(2, 1, BLUE), 7)]);
}

#[test]
fn start_refuses_truncated_header() {
    assert!(matches!(ReverseJob::start(&[0x47, 0x49, 0x46]), Err(GifError::Decode { frames_decoded: 0 })));
}

#[test]
fn start_reports_corrupt_frame() {
    let data = encode(2, 2, &[(solid(2, 2, RED), 10), (solid(2, 2, BLUE), 20)]);
    let cut = &data[..data.len() - 6];
    assert!(matches!(ReverseJob::start(cut), Err(GifError::Decode { frames_decoded: 1 })));
}

#[test]
fn reverse_twice_restores_order() {
    let mut frames = vec![snapshot(vec![1, 2, 3, 4], 5), snapshot(vec![6, 7, 8, 9], 10), snapshot(vec![0, 0, 0, 1], 15)];
    reverse_frames(&mut frames);
    assert_eq!(frames.iter().map(|f| f.delay).collect::<Vec<_>>(), vec![15, 10, 5]);
    assert_eq!(frames[0].rgba, vec![0, 0, 0, 1]);
    reverse_frames(&mut frames);
    assert_eq!(frames.iter().map(|f| f.delay).collect::<Vec<_>>(), vec![5, 10, 15]);
    assert_eq!(frames[0].rgba, vec![1, 2, 3, 4]);
    assert_eq!(frames[1].rgba, vec![6, 7, 8, 9]);
    assert_eq!(frames[2].rgba, vec![0, 0, 0, 1]);
}

#[test]
fn reverse_empty_sequence() {
    let mut frames: Vec<FrameSnapshot> = Vec::new();
    reverse_frames(&mut frames);
    assert!(frames.is_empty());
}

#[test]
fn transparent_frame_leaves_canvas() {
    let mut canvas: Vec<u8> = (0..36u8).collect();
    let before = canvas.clone();
    let frame = RawFrame { left: 0, top: 0, width: 3, height: 3, delay: 0, rgba: vec![200, 100, 50, 0].repeat(9) };
    composite_frame(&mut canvas, 3, &frame);
    assert_eq!(canvas, before);
}

#[test]
fn opaque_frame_replaces_canvas() {
    let mut canvas = solid(2, 2, RED);
    let frame = RawFrame { left: 0, top: 0, width: 2, height: 2, delay: 0, rgba: solid(2, 2, BLUE) };
    composite_frame(&mut canvas, 2, &frame);
    assert_eq!(canvas, solid(2, 2, BLUE));
}

#[test]
fn sub_region_changes_only_its_pixels() {
    let mut canvas = vec![0u8; 3 * 3 * 4];
    let frame = RawFrame {
        left: 1,
        top: 1,
        width: 2,
        height: 1,
        delay: 0,
        rgba: vec![9, 8, 7, 6, 5, 4, 3, 0],
    };
    composite_frame(&mut canvas, 3, &frame);
    let mut expected = vec![0u8; 36];
    // pixel (row 1, col 1) is painted; (row 1, col 2) has alpha zero.
    expected[16..20].copy_from_slice(&[9, 8, 7, 6]);
    assert_eq!(canvas, expected);
}

#[test]
fn frame_past_the_right_edge_does_not_wrap() {
    let mut canvas = vec![0u8; 2 * 2 * 4];
    let frame = RawFrame { left: 1, top: 0, width: 2, height: 1, delay: 0, rgba: solid(2, 1, RED) };
    composite_frame(&mut canvas, 2, &frame);
    let mut expected = vec![0u8; 16];
    expected[4..8].copy_from_slice(&RED);
    assert_eq!(canvas, expected);
}

#[test]
fn partial_frames_accumulate() {
    let mut canvas = vec![0u8; 2 * 1 * 4];
    let first = RawFrame { left: 0, top: 0, width: 1, height: 1, delay: 0, rgba: RED.to_vec() };
    let second = RawFrame { left: 1, top: 0, width: 1, height: 1, delay: 0, rgba: BLUE.to_vec() };
    composite_frame(&mut canvas, 2, &first);
    composite_frame(&mut canvas, 2, &second);
    assert_eq!(canvas, [RED, BLUE].concat());
}

#[test]
fn probe_accepts_minimal_gif() {
    let data: [u8; 43] = [
        0x47, 0x49, 0x46, 0x38, 0x39, 0x61, 0x01, 0x00, 0x01, 0x00, 0x80, 0x00, 0x00, 0xFF, 0xFF, 0xFF, 0x00, 0x00,
        0x00, 0x21, 0xF9, 0x04, 0x01, 0x00, 0x00, 0x00, 0x00, 0x2C, 0x00, 0x00, 0x00, 0x00, 0x01, 0x00, 0x01, 0x00,
        0x00, 0x02, 0x02, 0x44, 0x01, 0x00, 0x3B,
    ];
    assert_eq!(get_dimension(&data), Ok(Dimension { width: 1, height: 1 }));
}

#[test]
fn probe_ignores_corrupt_frames() {
    let data = encode(4, 3, &[(solid(4, 3, RED), 0)]);
    let mut cut = data[..13].to_vec();
    cut.extend_from_slice(&data[13..data.len() - 4]);
    assert_eq!(get_dimension(&cut), Ok(Dimension { width: 4, height: 3 }));
    assert!(matches!(ReverseJob::start(&cut), Err(GifError::Decode { .. })));
}

#[test]
fn output_keeps_palette_and_loops() {
    let data: [u8; 43] = [
        0x47, 0x49, 0x46, 0x38, 0x39, 0x61, 0x01, 0x00, 0x01, 0x00, 0x80, 0x00, 0x00, 0xFF, 0xFF, 0xFF, 0x00, 0x00,
        0x00, 0x21, 0xF9, 0x04, 0x01, 0x00, 0x00, 0x00, 0x00, 0x2C, 0x00, 0x00, 0x00, 0x00, 0x01, 0x00, 0x01, 0x00,
        0x00, 0x02, 0x02, 0x44, 0x01, 0x00, 0x3B,
    ];
    let (_, _, bytes) = run(&data);
    let decoder = gif::DecodeOptions::new().read_info(&bytes[..]).unwrap();
    assert_eq!(decoder.global_palette(), Some(&[0xFF, 0xFF, 0xFF, 0x00, 0x00, 0x00][..]));
    assert_eq!(decoder.repeat(), gif::Repeat::Infinite);
}
