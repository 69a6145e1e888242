//! From raw frames to a finished recording.
//!
//! An [`EncodeState`] takes in what happens to the stream (a format is
//! negotiated, a frame arrives) and ends as the bytes of an MP4 file.

use crate::access_unit::AccessUnit;
use crate::clock::{instant_reading, start_time};
use crate::codec::{
    encode, encodings_of, failures_of, new_encoder, read_bitstream, to_yuv, EncodedFrame, Failure,
    FrameKind,
};
use crate::container::{
    add_track, container_of, mp4_file, samples_of, tracks_of, write_end, write_sample, write_start,
    AvcTrack, ContainerConfig, MemoryWriter, Sample, TRACK_ID,
};
use crate::format::{settle_format, StreamParam};
use crate::model::{
    is_codec_error, is_text_of, new_recording, non_negative, sample_for, track_for, RecordingView,
    SHORT_SPS,
};
use crate::pixels::{holds_frame, repack_rows, PixelLayout, BYTES_PER_PIXEL};
use openh264::encoder::Encoder;
use std::time::Instant;
use vstd::prelude::*;

verus! {

/// A recording in progress.
pub struct EncodeState {
    writer: MemoryWriter,
    encoder: Encoder,
    layout: Option<PixelLayout>,
    size: (usize, usize),
    track_added: bool,
    start: Option<Instant>,
    sample_count: u32,
    readings: Ghost<Seq<int>>,
    error: Option<String>,
}

impl View for EncodeState {
    type V = RecordingView;

    closed spec fn view(&self) -> RecordingView {
        RecordingView {
            layout: self.layout,
            width: self.size.0 as nat,
            height: self.size.1 as nat,
            encodings: encodings_of(self.encoder),
            failures: failures_of(self.encoder),
            container: container_of(self.writer),
            track_added: self.track_added,
            tracks: tracks_of(self.writer),
            samples: samples_of(self.writer),
            start: match self.start {
                Some(start) => Some(instant_reading(start)),
                None => None,
            },
            readings: self.readings@,
            error: match self.error {
                Some(error) => Some(error@),
                None => None,
            },
        }
    }
}

impl EncodeState {
    /// What every operation keeps.
    pub closed spec fn wf(&self) -> bool {
        &&& self@.consistent()
        &&& self.sample_count == samples_of(self.writer).len()
    }

    /// The model of a recording in progress shows the encoder, the muxer and the
    /// other fields as they are.
    proof fn law_state_shows_its_fields(&self)
        ensures
            self@.layout == self.layout,
            self@.width == self.size.0,
            self@.height == self.size.1,
            self@.encodings == encodings_of(self.encoder),
            self@.failures == failures_of(self.encoder),
            self@.container == container_of(self.writer),
            self@.tracks == tracks_of(self.writer),
            self@.samples == samples_of(self.writer),
            self@.track_added == self.track_added,
            self@.readings == self.readings@,
            self.start is None <==> self@.start is None,
            self.start matches Some(start) ==> self@.start == Some(instant_reading(start)),
            self.error is None <==> self@.error is None,
            self.error matches Some(error) ==> self@.error == Some(error@),
    {
    }

    /// Every state that the operations reach is a consistent recording.
    pub proof fn law_state_is_consistent(&self)
        requires
            self.wf(),
        ensures
            self@.consistent(),
    {
    }

    /// Sets a recording up for a stream of the reported size. Fails only if the
    /// encoder cannot be set up.
    pub fn new(config: &ContainerConfig, size: (i32, i32)) -> (r: Result<EncodeState, String>)
        ensures
            match r {
                Ok(state) => state.wf() && state@ == new_recording(config@, size),
                Err(text) => is_codec_error(text),
            },
    {
        let encoder = new_encoder();
        let ghost made = encoder;
        let r = EncodeState::with_encoder(config, size, encoder);
        proof {
            match made {
                Ok(_) => {
                    assert(r->Ok_0@ =~= new_recording(config@, size));
                },
                Err(err) => {
                    assert(is_text_of(err, r->Err_0));
                },
            }
        }
        r
    }

    /// Sets a recording up with an encoder, or with the error that came in place
    /// of one. Fails exactly if there is no encoder, with the text of that error.
    pub fn with_encoder(
        config: &ContainerConfig,
        size: (i32, i32),
        encoder: Result<Encoder, openh264::Error>,
    ) -> (r: Result<EncodeState, String>)
        ensures
            match encoder {
                Ok(encoder) => {
                    &&& r is Ok
                    &&& r->Ok_0.wf()
                    &&& r->Ok_0@ == (RecordingView {
                        encodings: encodings_of(encoder),
                        failures: failures_of(encoder),
                        ..new_recording(config@, size)
                    })
                },
                Err(err) => r is Err && is_text_of(err, r->Err_0),
            },
    {
        let writer = match write_start(config) {
            Ok(writer) => writer,
            Err(err) => return Err(err.to_string()),
        };
        let encoder = match encoder {
            Ok(encoder) => encoder,
            Err(err) => return Err(err.to_string()),
        };
        let width: usize = if size.0 < 0 { 0 } else { size.0 as usize };
        let height: usize = if size.1 < 0 { 0 } else { size.1 as usize };
        let state = EncodeState {
            writer,
            encoder,
            layout: None,
            size: (width, height),
            track_added: false,
            start: None,
            sample_count: 0,
            readings: Ghost(Seq::empty()),
            error: None,
        };
        assert(state@ =~= (RecordingView {
            encodings: encodings_of(encoder),
            failures: failures_of(encoder),
            ..new_recording(config@, size)
        }));
        Ok(state)
    }

    /// Takes in that a parameter of the stream changed.
    pub fn param_changed(&mut self, param: Option<StreamParam>)
        requires
            old(self).wf(),
        ensures
            final(self).wf(),
            final(self)@ == old(self)@.with_param(param),
    {
        if let Some((layout, width, height)) = settle_format(param) {
            self.layout = Some(layout);
            self.size = (width as usize, height as usize);
        }
        assert(self@ =~= old(self)@.with_param(param));
    }

    /// Whether a frame buffer of `len` bytes, with rows `stride` bytes apart,
    /// can be taken in.
    pub fn can_process(&self, stride: i32, len: usize) -> (can: bool)
        requires
            self.wf(),
        ensures
            can == (self@.is_live() ==> self@.takes(non_negative(stride), len as nat)),
    {
        if self.error.is_some() || self.layout.is_none() {
            return true;
        }
        let (width, height) = self.size;
        if width == 0 || height == 0 {
            return true;
        }
        let pitch: usize = if stride < 0 { 0 } else { stride as usize };
        holds_frame(width, height, pitch, len) && self.sample_count < u32::MAX - 1
    }

    /// Takes in a frame buffer: encodes the frame, unless something has gone
    /// wrong before or no layout has been negotiated yet.
    pub fn process(&mut self, stride: i32, bytes: &[u8])
        requires
            old(self).wf(),
            old(self)@.is_live() ==> old(self)@.takes(non_negative(stride), bytes@.len()),
        ensures
            final(self).wf(),
            old(self)@.processed(stride, bytes@, final(self)@),
    {
        if self.error.is_some() {
            return;
        }
        let layout = match self.layout {
            Some(layout) => layout,
            None => return,
        };
        let pitch: usize = if stride < 0 { 0 } else { stride as usize };
        if let Err(reason) = encode_frame(self, layout, pitch, bytes) {
            let ghost refused = self@;
            self.error = Some(reason);
            assert(RecordingView { error: None, ..self@ } =~= refused);
            assert(self@.error == Some(reason@));
        }
    }

    /// Whether the video track has been started.
    pub fn track_added(&self) -> (added: bool)
        ensures
            added == self@.track_added,
    {
        self.track_added
    }

    /// Ends the recording: the first failure if there was one, otherwise the
    /// finished file.
    pub fn finish(self) -> (r: Result<Vec<u8>, String>)
        requires
            self.wf(),
        ensures
            match self@.error {
                Some(reason) => r is Err && r->Err_0@ == reason,
                None => {
                    &&& r is Ok
                    &&& r->Ok_0@ == mp4_file(self@.container, self@.tracks, self@.samples)
                },
            },
    {
        let EncodeState { writer, error, .. } = self;
        if let Some(reason) = error {
            return Err(reason);
        }
        match write_end(writer) {
            Ok(file) => Ok(file),
            Err(err) => Err(err.to_string()),
        }
    }

    /// Starts the video track, and the clock with it.
    pub fn start_track(&mut self, sps: Vec<u8>, pps: Vec<u8>, begin: Instant) -> (r: Result<
        (),
        String,
    >)
        requires
            old(self).wf(),
            !old(self)@.track_added,
            sps@.len() >= 4,
        ensures
            r is Ok,
            final(self).wf(),
            final(self)@ == old(self)@.with_track(sps@, pps@, instant_reading(begin)),
    {
        let track = AvcTrack {
            width: (self.size.0 % 0x1_0000) as u16,
            height: (self.size.1 % 0x1_0000) as u16,
            seq_param_set: sps,
            pic_param_set: pps,
        };
        match add_track(&mut self.writer, &track) {
            Ok(()) => {},
            Err(err) => return Err(err.to_string()),
        }
        self.track_added = true;
        self.start = Some(begin);
        assert(track@ =~= track_for(old(self)@.width, old(self)@.height, sps@, pps@));
        assert(self@ =~= old(self)@.with_track(sps@, pps@, instant_reading(begin)));
        Ok(())
    }

    /// Appends the sample of an encoded frame. Its time is that from the start of
    /// the track to `now`.
    pub fn append_sample(&mut self, bytes: Vec<u8>, kind: FrameKind, now: Instant) -> (r: Result<
        (),
        String,
    >)
        requires
            old(self).wf(),
            old(self)@.track_added,
            bytes@.len() > 0,
            old(self)@.samples.len() + 2 <= u32::MAX,
        ensures
            r is Ok,
            final(self).wf(),
            final(self)@ == old(self)@.with_sample(bytes@, kind, instant_reading(now)),
    {
        let start = match self.start {
            Some(start) => start,
            None => now,
        };
        let sample = Sample {
            start_time: start_time(start, now),
            duration: 0,
            rendering_offset: 0,
            is_sync: kind == FrameKind::Idr,
            bytes,
        };
        let ghost view = sample@;
        match write_sample(&mut self.writer, TRACK_ID, sample) {
            Ok(()) => {},
            Err(err) => return Err(err.to_string()),
        }
        self.sample_count = self.sample_count + 1;
        self.readings = Ghost(self.readings@.push(instant_reading(now)));
        assert(view =~= sample_for(bytes@, kind, view.start_time));
        assert(self@ =~= old(self)@.with_sample(bytes@, kind, instant_reading(now)));
        Ok(())
    }

    /// Takes in an encoded frame, as [`EncodeState::mux_at`] does, at the time
    /// that the clock shows.
    pub fn mux(&mut self, frame: EncodedFrame) -> (r: Result<(), String>)
        requires
            old(self).wf(),
            old(self)@.samples.len() + 2 <= u32::MAX,
        ensures
            final(self).wf(),
            r is Err <==> old(self)@.cannot_start(frame.unit@),
            match r {
                Ok(()) => exists|begin: int, now: int|
                    final(self)@ == #[trigger] old(self)@.with_frame(
                        frame.unit@,
                        frame.kind,
                        begin,
                        now,
                    ),
                Err(reason) => reason@ == SHORT_SPS@ && final(self)@ == old(self)@,
            },
    {
        let begin = Instant::now();
        let now = Instant::now();
        self.mux_at(frame, begin, now)
    }

    /// Takes in an encoded frame: lazily, once the parameter sets are known,
    /// starts the video track, then writes the sample. Fails if the track cannot
    /// be started with a sequence parameter set like that. If the frame starts the
    /// track, the clock is taken to have shown `begin` then; if it adds a sample,
    /// the clock is taken to have shown `now`.
    pub fn mux_at(&mut self, frame: EncodedFrame, begin: Instant, now: Instant) -> (r: Result<
        (),
        String,
    >)
        requires
            old(self).wf(),
            old(self)@.samples.len() + 2 <= u32::MAX,
        ensures
            final(self).wf(),
            r is Err <==> old(self)@.cannot_start(frame.unit@),
            match r {
                Ok(()) => final(self)@ == old(self)@.with_frame(
                    frame.unit@,
                    frame.kind,
                    instant_reading(begin),
                    instant_reading(now),
                ),
                Err(reason) => reason@ == SHORT_SPS@ && final(self)@ == old(self)@,
            },
    {
        let EncodedFrame { unit, kind } = frame;
        let AccessUnit { sps, pps, sample } = unit;
        if !self.track_added {
            match (sps, pps) {
                (Some(sps), Some(pps)) => {
                    if sps.len() < 4 {
                        return Err(SHORT_SPS.to_string());
                    }
                    match self.start_track(sps, pps, begin) {
                        Ok(()) => {},
                        Err(err) => return Err(err),
                    }
                },
                _ => return Ok(()),
            }
        }
        if sample.len() == 0 {
            return Ok(());
        }
        self.append_sample(sample, kind, now)
    }
}

/// Converts one raw frame to YUV 4:2:0, encodes it, and takes the result in.
/// Fails if the encoder does, or if it hands out a sequence parameter set that
/// cannot be read.
pub fn encode_frame(
    state: &mut EncodeState,
    layout: PixelLayout,
    stride: usize,
    bytes: &[u8],
) -> (r: Result<(), String>)
    requires
        old(state).wf(),
        old(state)@.takes(stride as nat, bytes@.len()),
    ensures
        final(state).wf(),
        match r {
            Ok(()) => old(state)@.took_frame(layout, stride as nat, bytes@, final(state)@),
            Err(reason) => old(state)@.refused_frame(
                layout,
                stride as nat,
                bytes@,
                reason,
                final(state)@,
            ),
        },
{
    let (width, height) = state.size;
    if width == 0 || height == 0 {
        return Ok(());
    }
    let ghost len = bytes.len();
    let row_bytes: usize = width * BYTES_PER_PIXEL;
    let packed = repack_rows(bytes, stride, row_bytes, height);
    assert(row_bytes * height == width * height * 4) by (nonlinear_arith)
        requires
            row_bytes == width * 4,
    ;
    let yuv = to_yuv(layout, packed.as_slice(), width, height);
    let ghost picture = old(state)@.frame_picture(layout, stride as nat, bytes@);
    let frame = match encode(&mut state.encoder, &yuv) {
        Ok(bitstream) => read_bitstream(&bitstream),
        Err(err) => {
            let reason = err.to_string();
            assert(is_text_of(err, reason));
            assert(state@ =~= old(state)@.with_failure((Failure { picture, error: err })));
            return Err(reason);
        },
    };
    let ghost encoding = encodings_of(state.encoder).last();
    assert(state@ =~= old(state)@.with_encoding(encoding));
    let r = state.mux(frame);
    proof {
        let encoded = old(state)@.with_encoding(encoding);
        if r is Ok {
            let (begin, now) = choose|begin: int, now: int|
                state@ == #[trigger] encoded.with_frame(
                    encoding.unit(),
                    encoding.kind,
                    begin,
                    now,
                );
            assert(state@ == encoded.with_frame(encoding.unit(), encoding.kind, begin, now));
        }
    }
    r
}

} // verus!
