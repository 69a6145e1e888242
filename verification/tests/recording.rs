use mp4::Mp4Reader;
use openh264::decoder::{DecodedYUV, Decoder};
use openh264::encoder::Encoder;
use openh264::formats::{YUVBuffer, YUVSource};
use prtsc::access_unit::AccessUnit;
use prtsc::codec::{EncodedFrame, FrameKind};
use prtsc::container::{recording_container, ContainerConfig};
use prtsc::format::{MediaSubtype, MediaType, StreamParam, VideoFormat, VideoInfo};
use prtsc::model::SHORT_SPS;
use prtsc::pixels::PixelLayout;
use prtsc::recording::{encode_frame, EncodeState};
use std::io::Cursor;
use std::time::{Duration, Instant};

#[test]
fn encodes_synthetic_frames_to_a_readable_mp4() {
    const WIDTH: usize = 64;
    const HEIGHT: usize = 64;
    const FRAME_COUNT: usize = 5;

    let config = ContainerConfig {
        major_brand: *b"isom",
        minor_version: 512,
        compatible_brands: vec![*b"isom", *b"avc1"],
        timescale: 1000,
    };
    let mut state =
        EncodeState::new(&config, (WIDTH as i32, HEIGHT as i32)).expect("set the recording up");

    for frame in 0..FRAME_COUNT {
        // A shifting solid color per frame: enough non-trivial pixel data to
        // exercise the encoder rather than a degenerate all-zero buffer.
        let shade = (frame * 40) as u8;
        let pixels = vec![shade; WIDTH * HEIGHT * 4];
        encode_frame(&mut state, PixelLayout::Bgra, WIDTH * 4, &pixels).expect("encode_frame");
    }

    assert!(state.track_added(), "no track was added - SPS/PPS never seen");
    let file = state.finish().expect("write_end");

    let size = file.len() as u64;
    let mp4 = mp4::Mp4Reader::read_header(Cursor::new(file), size)
        .expect("mp4 file failed to parse as valid MP4");

    assert_eq!(mp4.tracks().len(), 1, "expected exactly one track");
    let track = mp4.tracks().values().next().unwrap();
    assert_eq!(track.track_type().unwrap(), mp4::TrackType::Video);
    assert!(
        mp4.sample_count(1).unwrap() >= 1,
        "expected at least one sample to have been written"
    );
}

fn fresh(width: i32, height: i32) -> EncodeState {
    EncodeState::new(&recording_container(), (width, height)).expect("set the recording up")
}

fn format(format: VideoFormat, width: u32, height: u32) -> Option<StreamParam> {
    Some(StreamParam {
        is_format: true,
        media: Some((MediaType::Video, MediaSubtype::Raw)),
        video: Some(VideoInfo { format, width, height }),
    })
}

fn read(file: Vec<u8>) -> Mp4Reader<Cursor<Vec<u8>>> {
    let size = file.len() as u64;
    Mp4Reader::read_header(Cursor::new(file), size).expect("a valid MP4 file")
}

fn frame(sps: Option<Vec<u8>>, pps: Option<Vec<u8>>, sample: Vec<u8>, kind: FrameKind) -> EncodedFrame {
    EncodedFrame { unit: AccessUnit { sps, pps, sample }, kind }
}

/// The mean of the luma plane of the first frame of a recording.
fn first_luma(file: Vec<u8>) -> usize {
    let mut mp4 = read(file);
    let track = mp4.tracks().get(&1).expect("a track");
    let mut stream: Vec<u8> = Vec::new();
    for set in [track.sequence_parameter_set(), track.picture_parameter_set()] {
        stream.extend_from_slice(&[0, 0, 0, 1]);
        stream.extend_from_slice(set.expect("a parameter set"));
    }
    let sample = mp4.read_sample(1, 1).expect("read").expect("a sample");
    let mut rest = &sample.bytes[..];
    while !rest.is_empty() {
        let len = u32::from_be_bytes([rest[0], rest[1], rest[2], rest[3]]) as usize;
        stream.extend_from_slice(&[0, 0, 0, 1]);
        stream.extend_from_slice(&rest[4..4 + len]);
        rest = &rest[4 + len..];
    }
    let mut decoder = Decoder::new().expect("a decoder");
    let mut luma: Option<usize> = None;
    if let Some(picture) = decoder.decode(&stream).expect("decode") {
        luma = Some(mean_luma(&picture));
    }
    if luma.is_none() {
        let rest = decoder.flush_remaining().expect("flush");
        luma = rest.first().map(|picture| mean_luma(picture));
    }
    luma.expect("a picture")
}

fn mean_luma(picture: &DecodedYUV<'_>) -> usize {
    let (width, height) = picture.dimensions();
    let stride = picture.strides().0;
    let mut sum: usize = 0;
    for y in 0..height {
        for x in 0..width {
            sum += picture.y()[y * stride + x] as usize;
        }
    }
    sum / (width * height)
}

#[test]
fn the_negotiated_format_decides_how_pixels_are_read() {
    // Pure blue in BGRA order, pure red in RGBA order.
    let mut pixels: Vec<u8> = Vec::new();
    for _ in 0..64 * 64 {
        pixels.extend_from_slice(&[255, 0, 0, 255]);
    }
    let mut lumas: Vec<usize> = Vec::new();
    for kind in [VideoFormat::Bgrx, VideoFormat::Rgba] {
        let mut state = fresh(64, 64);
        state.param_changed(format(kind, 64, 64));
        assert!(state.can_process(256, pixels.len()));
        state.process(256, &pixels);
        lumas.push(first_luma(state.finish().expect("finish")));
    }
    assert!(lumas[0].abs_diff(40) <= 4, "luma of blue: {}", lumas[0]);
    assert!(lumas[1].abs_diff(81) <= 4, "luma of red: {}", lumas[1]);
}

#[test]
fn padding_does_not_show_in_the_recording() {
    let mut padded: Vec<u8> = Vec::new();
    let mut packed: Vec<u8> = Vec::new();
    for row in 0..32u8 {
        for column in 0..32u8 {
            let pixel = [row * 7, column * 5, row ^ column, 255];
            padded.extend_from_slice(&pixel);
            packed.extend_from_slice(&pixel);
        }
        padded.extend_from_slice(&[0xee; 20]);
    }
    let mut one = fresh(32, 32);
    encode_frame(&mut one, PixelLayout::Rgba, 32 * 4 + 20, &padded).expect("padded");
    let mut other = fresh(32, 32);
    encode_frame(&mut other, PixelLayout::Rgba, 32 * 4, &packed).expect("packed");
    assert_eq!(one.finish(), other.finish());
}

#[test]
fn the_file_holds_track_and_samples_as_given() {
    let mut state = fresh(640, 480);
    let sps = vec![0x67, 0x42, 0xc0, 0x1e, 9];
    let pps = vec![0x68, 0xce];
    let first = frame(Some(sps.clone()), Some(pps.clone()), vec![1, 2, 3], FrameKind::Idr);
    assert_eq!(state.mux(first), Ok(()));
    assert_eq!(state.mux(frame(None, None, vec![4, 5], FrameKind::P)), Ok(()));
    let mut mp4 = read(state.finish().expect("finish"));
    assert_eq!(mp4.ftyp.major_brand.value, *b"isom");
    assert_eq!(mp4.ftyp.minor_version, 512);
    let brands: Vec<[u8; 4]> = mp4.ftyp.compatible_brands.iter().map(|b| b.value).collect();
    assert_eq!(brands, vec![*b"isom", *b"iso2", *b"avc1", *b"mp41"]);
    assert_eq!(mp4.timescale(), 1000);
    let track = mp4.tracks().get(&1).expect("a track");
    assert_eq!((track.width(), track.height()), (640, 480));
    assert_eq!(track.sequence_parameter_set().expect("set"), &sps[..]);
    assert_eq!(track.picture_parameter_set().expect("set"), &pps[..]);
    assert_eq!(mp4.sample_count(1).expect("count"), 2);
    let sample = mp4.read_sample(1, 1).expect("read").expect("first");
    assert_eq!((&sample.bytes[..], sample.is_sync), (&[1u8, 2, 3][..], true));
    assert_eq!((sample.duration, sample.rendering_offset), (0, 0));
    let sample = mp4.read_sample(1, 2).expect("read").expect("second");
    assert_eq!((&sample.bytes[..], sample.is_sync), (&[4u8, 5][..], false));
}

#[test]
fn frames_before_the_parameter_sets_are_passed_over() {
    let mut state = fresh(64, 64);
    assert_eq!(state.mux(frame(None, None, vec![1], FrameKind::P)), Ok(()));
    let lone = frame(Some(vec![0x67, 1, 2, 3]), None, vec![1], FrameKind::Idr);
    assert_eq!(state.mux(lone), Ok(()));
    assert!(!state.track_added());
    let both = frame(Some(vec![0x67, 1, 2, 3]), Some(vec![0x68]), Vec::new(), FrameKind::Idr);
    assert_eq!(state.mux(both), Ok(()));
    assert!(state.track_added());
    let file = state.finish().expect("finish");
    let mp4 = read(file);
    assert_eq!(mp4.tracks().len(), 1);
    assert_eq!(mp4.sample_count(1).expect("count"), 0);
}

#[test]
fn a_track_cannot_be_started_with_a_short_parameter_set() {
    assert_eq!(SHORT_SPS, "sequence parameter set is too short");
    let mut state = fresh(64, 64);
    let short = frame(Some(vec![0x67, 1, 2]), Some(vec![0x68]), vec![1], FrameKind::Idr);
    assert_eq!(state.mux(short), Err(SHORT_SPS.to_string()));
    assert!(!state.track_added());
    let long = frame(Some(vec![0x67, 1, 2, 3]), Some(vec![0x68]), vec![1], FrameKind::Idr);
    assert_eq!(state.mux(long), Ok(()));
    let later = frame(Some(vec![0x67, 1, 2]), Some(vec![0x68]), vec![2], FrameKind::Idr);
    assert_eq!(state.mux(later), Ok(()));
    let mp4 = read(state.finish().expect("finish"));
    assert_eq!(mp4.sample_count(1).expect("count"), 2);
}

#[test]
fn a_recording_is_set_up_exactly_if_there_is_an_encoder() {
    let config = recording_container();
    let state = EncodeState::with_encoder(&config, (64, 64), Encoder::new()).expect("an encoder");
    assert!(!state.track_added());
    let mut spare = Encoder::new().expect("an encoder");
    let error = spare.encode(&YUVBuffer::new(3842, 2)).err().expect("a refusal");
    let text = error.to_string();
    let refused = EncodeState::with_encoder(&config, (64, 64), Err(error));
    assert_eq!(refused.err(), Some(text));
}

#[test]
fn a_frame_can_be_taken_in_at_a_given_time() {
    let mut state = fresh(64, 64);
    let begin = Instant::now();
    let sets = frame(Some(vec![0x67, 1, 2, 3]), Some(vec![0x68]), vec![1], FrameKind::Idr);
    assert_eq!(state.mux_at(sets, begin, begin), Ok(()));
    let later = begin + Duration::from_millis(40);
    assert_eq!(state.mux_at(frame(None, None, vec![2, 3], FrameKind::P), later, later), Ok(()));
    let mut mp4 = read(state.finish().expect("finish"));
    assert_eq!(mp4.sample_count(1).expect("count"), 2);
    let sample = mp4.read_sample(1, 2).expect("read").expect("second");
    assert_eq!(&sample.bytes[..], &[2u8, 3][..]);
}

#[test]
fn a_recording_of_nothing_is_a_file_without_tracks() {
    let mp4 = read(fresh(64, 64).finish().expect("finish"));
    assert_eq!(mp4.tracks().len(), 0);
    assert_eq!(mp4.timescale(), 1000);
}

#[test]
fn a_started_track_stays_as_it_is() {
    let mut state = fresh(64, 64);
    for level in [10u8, 20] {
        let sets = frame(
            Some(vec![0x67, 66, 0, level]),
            Some(vec![0x68, level]),
            vec![level],
            FrameKind::Idr,
        );
        assert_eq!(state.mux(sets), Ok(()));
    }
    let mp4 = read(state.finish().expect("finish"));
    assert_eq!(mp4.tracks().len(), 1);
    let track = mp4.tracks().get(&1).expect("a track");
    assert_eq!(track.sequence_parameter_set().expect("set"), &[0x67u8, 66, 0, 10][..]);
    assert_eq!(mp4.sample_count(1).expect("count"), 2);
}

#[test]
fn the_track_holds_its_size_in_sixteen_bits() {
    let mut state = fresh(65536 + 640, -7);
    assert_eq!(state.start_track(vec![0x67, 66, 0, 10], vec![0x68], Instant::now()), Ok(()));
    assert_eq!(state.append_sample(vec![1], FrameKind::Skip, Instant::now()), Ok(()));
    let mut mp4 = read(state.finish().expect("finish"));
    let track = mp4.tracks().get(&1).expect("a track");
    assert_eq!((track.width(), track.height()), (640, 0));
    let sample = mp4.read_sample(1, 1).expect("read").expect("a sample");
    assert_eq!(&sample.bytes[..], &[1u8][..]);
}

#[test]
fn buffers_are_passed_over_until_a_format_is_settled() {
    let mut state = fresh(64, 64);
    assert!(state.can_process(256, 0));
    state.process(256, &[]);
    state.param_changed(None);
    state.param_changed(format(VideoFormat::Other, 64, 64));
    assert!(state.can_process(-1, 0));
    state.process(-1, &[]);
    assert!(!state.track_added());
    assert_eq!(read(state.finish().expect("finish")).tracks().len(), 0);
}

#[test]
fn a_settled_format_replaces_the_reported_size() {
    let mut state = fresh(64, 64);
    state.param_changed(format(VideoFormat::Bgra, 32, 16));
    assert!(!state.can_process(128, 128 * 16 - 1));
    assert!(state.can_process(128, 128 * 16));
    state.process(128, &vec![128; 128 * 16]);
    let mp4 = read(state.finish().expect("finish"));
    let track = mp4.tracks().get(&1).expect("a track");
    assert_eq!((track.width(), track.height()), (32, 16));
}

#[test]
fn frames_without_pixels_add_nothing() {
    let mut state = fresh(0, 64);
    assert_eq!(encode_frame(&mut state, PixelLayout::Bgra, 0, &[]), Ok(()));
    state.param_changed(format(VideoFormat::Bgra, 64, 0));
    assert!(state.can_process(256, 0));
    state.process(256, &[]);
    assert!(!state.track_added());
}

#[test]
fn incomplete_and_odd_frames_cannot_be_processed() {
    let mut state = fresh(0, 0);
    state.param_changed(format(VideoFormat::Bgra, 64, 64));
    assert!(!state.can_process(256, 256 * 64 - 1));
    assert!(state.can_process(256, 256 * 64));
    assert!(state.can_process(260, 260 * 63 + 256));
    assert!(!state.can_process(260, 260 * 63 + 255));
    state.param_changed(format(VideoFormat::Bgra, 63, 64));
    assert!(!state.can_process(256, 256 * 64));
}

#[test]
fn rows_with_a_negative_pitch_all_start_at_the_front() {
    let mut state = fresh(0, 0);
    state.param_changed(format(VideoFormat::Bgra, 16, 16));
    assert!(state.can_process(-64, 64));
    assert!(!state.can_process(-64, 63));
    state.process(-64, &[200; 64]);
    let luma = first_luma(state.finish().expect("finish"));
    // (66 + 129 + 25) * 200 / 256 + 16
    assert!(luma.abs_diff(187) <= 4, "luma: {}", luma);
}

#[test]
fn the_first_failure_is_kept_and_ends_the_recording() {
    let mut state = fresh(0, 0);
    state.param_changed(format(VideoFormat::Bgra, 3842, 2));
    let wide = vec![0; 3842 * 2 * 4];
    assert!(state.can_process(3842 * 4, wide.len()));
    state.process(3842 * 4, &wide);
    state.param_changed(format(VideoFormat::Bgra, 64, 64));
    assert!(state.can_process(256, 0));
    state.process(256, &vec![0; 256 * 64]);
    assert!(!state.track_added());
    let reason = state.finish().expect_err("a failure");
    assert!(reason.contains("max resolution 3840x2160"), "reason: {}", reason);
}

#[test]
fn a_failed_frame_leaves_the_file_as_it_was() {
    let mut state = fresh(3842, 2);
    let wide = vec![0; 3842 * 2 * 4];
    assert!(encode_frame(&mut state, PixelLayout::Bgra, 3842 * 4, &wide).is_err());
    assert!(!state.track_added());
    assert_eq!(read(state.finish().expect("finish")).tracks().len(), 0);
}
