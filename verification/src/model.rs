//! What a recording is, and what a frame does to it.
//!
//! A recording is modelled by what was negotiated, what the encoder has given
//! out, and what stands in the file. The operations of
//! [`crate::recording::EncodeState`] are stated over this model, and so are the
//! laws that hold of a recording as a whole.

use crate::access_unit::{
    sample_units, law_sample_holds_sample_units, payloads_of, read_sample, AccessUnitView,
};
use crate::clock::{law_times_follow_the_clock, millis_between, start_time_at};
use crate::codec::{converted, Encoding, Failure, FrameKind, Picture};
use crate::container::{AvcTrackView, ContainerView, SampleView, TRACK_ID};
use crate::format::{settled, StreamParam};
use crate::pixels::{
    frame_fits, law_padding_is_ignored, packed_rows, PixelLayout, BYTES_PER_PIXEL,
};
use vstd::prelude::*;

verus! {

/// A recording in progress, as mathematical values.
#[verifier::ext_equal]
pub struct RecordingView {
    /// The negotiated layout of the frames' pixels.
    pub layout: Option<PixelLayout>,
    /// Width of the frames, in pixels.
    pub width: nat,
    /// Height of the frames, in pixels.
    pub height: nat,
    /// The frames that were encoded, each with what the encoder gave out for it.
    pub encodings: Seq<Encoding>,
    /// The frames that the encoder failed to encode, each with its error.
    pub failures: Seq<Failure>,
    /// The configuration of the file.
    pub container: ContainerView,
    /// Whether the video track has been started.
    pub track_added: bool,
    /// The tracks of the file.
    pub tracks: Seq<AvcTrackView>,
    /// The samples of the file, each with its track.
    pub samples: Seq<(u32, SampleView)>,
    /// What the clock showed when the track was started.
    pub start: Option<int>,
    /// What the clock showed when each of the samples was written.
    pub readings: Seq<int>,
    /// What went wrong, if something did.
    pub error: Option<Seq<char>>,
}

/// What is said of a sequence parameter set out of which profile and level
/// cannot be read.
pub const SHORT_SPS: &'static str = "sequence parameter set is too short";

impl AccessUnitView {
    /// Whether the frame carries both parameter sets that a track needs.
    pub open spec fn describes_track(self) -> bool {
        self.sps is Some && self.pps is Some
    }

    /// Whether profile and level can be read out of the sequence parameter set.
    pub open spec fn sps_is_readable(self) -> bool {
        self.sps->0.len() >= 4
    }
}

/// The track for frames of the given size. An MP4 track holds its size in 16
/// bits.
pub open spec fn track_for(width: nat, height: nat, sps: Seq<u8>, pps: Seq<u8>) -> AvcTrackView {
    AvcTrackView {
        width: (width % 0x1_0000) as u16,
        height: (height % 0x1_0000) as u16,
        seq_param_set: sps,
        pic_param_set: pps,
    }
}

/// The sample for an encoded frame. Only an instantaneous decoder refresh can
/// be decoded without what came before.
pub open spec fn sample_for(bytes: Seq<u8>, kind: FrameKind, start_time: u64) -> SampleView {
    SampleView {
        start_time,
        duration: 0,
        rendering_offset: 0,
        is_sync: kind == FrameKind::Idr,
        bytes,
    }
}

impl RecordingView {
    /// Whether the parts fit together: there is at most one track, and it is
    /// there as soon as it counts as started; all samples belong to it, are not
    /// empty, have no duration, and have for their time the whole milliseconds
    /// from the start of the track to when they were written.
    pub open spec fn consistent(self) -> bool {
        &&& self.tracks.len() == if self.track_added { 1nat } else { 0nat }
        &&& !self.track_added ==> self.samples.len() == 0
        &&& self.track_added == self.start is Some
        &&& self.readings.len() == self.samples.len()
        &&& forall|i: int|
            0 <= i < self.samples.len() ==> {
                let (track_id, sample) = #[trigger] self.samples[i];
                &&& track_id == TRACK_ID
                &&& sample.start_time == start_time_at(self.start->0, self.readings[i])
                &&& sample.duration == 0
                &&& sample.rendering_offset == 0
                &&& sample.bytes.len() > 0
            }
    }

    /// The recording with its track started when the clock showed `begin`.
    pub open spec fn with_track(self, sps: Seq<u8>, pps: Seq<u8>, begin: int) -> RecordingView {
        RecordingView {
            track_added: true,
            start: Some(begin),
            tracks: self.tracks.push(track_for(self.width, self.height, sps, pps)),
            ..self
        }
    }

    /// The recording with one more sample, written when the clock showed `now`.
    pub open spec fn with_sample(
        self,
        bytes: Seq<u8>,
        kind: FrameKind,
        now: int,
    ) -> RecordingView {
        let start_time = start_time_at(self.start->0, now);
        RecordingView {
            samples: self.samples.push((TRACK_ID, sample_for(bytes, kind, start_time))),
            readings: self.readings.push(now),
            ..self
        }
    }

    /// The recording with an encoded frame taken in. Until both parameter sets
    /// have been seen in one frame there is no track, and frames are passed
    /// over. A frame of nothing but parameter sets adds no sample. If it starts the
    /// track, it does so when the clock shows `begin`; if it adds a sample, it
    /// does so when the clock shows `now`.
    pub open spec fn with_frame(
        self,
        unit: AccessUnitView,
        kind: FrameKind,
        begin: int,
        now: int,
    ) -> RecordingView {
        if !self.track_added && !unit.describes_track() {
            self
        } else {
            let started = if self.track_added {
                self
            } else {
                self.with_track(unit.sps->0, unit.pps->0, begin)
            };
            if unit.sample.len() == 0 {
                started
            } else {
                started.with_sample(unit.sample, kind, now)
            }
        }
    }

    /// The recording with a frame encoded but not taken in yet.
    pub open spec fn with_encoding(self, encoding: Encoding) -> RecordingView {
        RecordingView { encodings: self.encodings.push(encoding), ..self }
    }

    /// The recording with a frame that the encoder failed to encode.
    pub open spec fn with_failure(self, failure: Failure) -> RecordingView {
        RecordingView { failures: self.failures.push(failure), ..self }
    }

    /// The picture that the frame in `bytes` shows: it is made of the first bytes
    /// of each row, converted as the layout demands.
    pub open spec fn frame_picture(
        self,
        layout: PixelLayout,
        stride: nat,
        bytes: Seq<u8>,
    ) -> Picture {
        let pixels = packed_rows(bytes, stride, self.width * BYTES_PER_PIXEL as nat, self.height);
        converted(layout, pixels, self.width, self.height)
    }

    /// Whether `encoding` is of the frame in `bytes`.
    pub open spec fn encodes(
        self,
        layout: PixelLayout,
        stride: nat,
        bytes: Seq<u8>,
        encoding: Encoding,
    ) -> bool {
        encoding.picture == self.frame_picture(layout, stride, bytes)
    }

    /// Whether `unit` would start the track with a sequence parameter set that
    /// cannot be read.
    pub open spec fn cannot_start(self, unit: AccessUnitView) -> bool {
        !self.track_added && unit.describes_track() && !unit.sps_is_readable()
    }

    /// Whether frames have a size at all.
    pub open spec fn is_empty(self) -> bool {
        self.width == 0 || self.height == 0
    }

    /// Whether a raw frame of `len` bytes can be taken in: it is complete, and
    /// the muxer can count one more sample.
    pub open spec fn takes(self, stride: nat, len: nat) -> bool {
        self.is_empty() || {
            &&& frame_fits(self.width, self.height, stride, len)
            &&& self.samples.len() + 2 <= u32::MAX
        }
    }

    /// Whether `after` is this recording with a raw frame encoded and taken in.
    /// What the encoder gave out for it is the last of `after.encodings`.
    pub open spec fn took_frame(
        self,
        layout: PixelLayout,
        stride: nat,
        bytes: Seq<u8>,
        after: RecordingView,
    ) -> bool {
        if self.is_empty() {
            after == self
        } else {
            exists|encoding: Encoding, begin: int, now: int|
                {
                    &&& self.encodes(layout, stride, bytes, encoding)
                    &&& !self.cannot_start(encoding.unit())
                    &&& after == #[trigger] self.with_encoding(encoding).with_frame(
                        encoding.unit(),
                        encoding.kind,
                        begin,
                        now,
                    )
                }
        }
    }

    /// Whether `after` is this recording after a raw frame failed for the given
    /// reason: either the encoder failed to encode the frame's picture, and the
    /// reason is the text of the error that it reported, or what it gave out cannot start the track. In neither
    /// case was anything taken in.
    pub open spec fn refused_frame(
        self,
        layout: PixelLayout,
        stride: nat,
        bytes: Seq<u8>,
        reason: String,
        after: RecordingView,
    ) -> bool {
        &&& !self.is_empty()
        &&& {
            ||| exists|failure: Failure|
                {
                    &&& failure.picture == self.frame_picture(layout, stride, bytes)
                    &&& is_text_of(failure.error, reason)
                    &&& after == #[trigger] self.with_failure(failure)
                }
            ||| reason@ == SHORT_SPS@ && exists|encoding: Encoding|
                {
                    &&& self.encodes(layout, stride, bytes, encoding)
                    &&& self.cannot_start(encoding.unit())
                    &&& after == #[trigger] self.with_encoding(encoding)
                }
        }
    }
}

/// `value`, or 0 if it is negative.
pub open spec fn non_negative(value: i32) -> nat {
    if value < 0 {
        0
    } else {
        value as nat
    }
}

impl RecordingView {
    /// Whether the recording goes on with a frame buffer: nothing has gone wrong
    /// yet, and a layout has been negotiated.
    pub open spec fn is_live(self) -> bool {
        self.error is None && self.layout is Some
    }

    /// Whether `after` is this recording after a frame buffer with rows `stride`
    /// bytes apart arrived. A buffer is passed over unless the recording is
    /// live. The first failure is kept.
    pub open spec fn processed(self, stride: i32, bytes: Seq<u8>, after: RecordingView) -> bool {
        if !self.is_live() {
            after == self
        } else if after.error is None {
            self.took_frame(self.layout->0, non_negative(stride), bytes, after)
        } else {
            exists|reason: String|
                {
                    &&& after.error == Some(#[trigger] reason@)
                    &&& self.refused_frame(
                        self.layout->0,
                        non_negative(stride),
                        bytes,
                        reason,
                        RecordingView { error: None, ..after },
                    )
                }
        }
    }

    /// This recording after a parameter of the stream changed.
    pub open spec fn with_param(self, param: Option<StreamParam>) -> RecordingView {
        match settled(param) {
            Some((layout, width, height)) => RecordingView {
                layout: Some(layout),
                width: width as nat,
                height: height as nat,
                ..self
            },
            None => self,
        }
    }
}

/// A recording that has only been set up.
pub open spec fn new_recording(container: ContainerView, size: (i32, i32)) -> RecordingView {
    RecordingView {
        layout: None,
        width: non_negative(size.0),
        height: non_negative(size.1),
        encodings: Seq::empty(),
        failures: Seq::empty(),
        container,
        track_added: false,
        tracks: Seq::empty(),
        samples: Seq::empty(),
        start: None,
        readings: Seq::empty(),
        error: None,
    }
}

/// Whether `text` is how an error of the encoder is displayed.
pub open spec fn is_text_of(error: openh264::Error, text: String) -> bool {
    vstd::string::to_string_from_display_ensures::<openh264::Error>(&error, text)
}

/// Whether `text` is how some error of the encoder is displayed.
pub open spec fn is_codec_error(text: String) -> bool {
    exists|error: openh264::Error| #[trigger] is_text_of(error, text)
}

/// Whether an encoded frame can start the track.
pub open spec fn starts_track(encoding: Encoding) -> bool {
    encoding.unit().describes_track() && encoding.unit().sps_is_readable()
}

/// The first encoded frame that can start the track.
pub open spec fn first_starting(encodings: Seq<Encoding>) -> Option<Encoding>
    decreases encodings.len(),
{
    if encodings.len() == 0 {
        None
    } else {
        match first_starting(encodings.drop_last()) {
            Some(encoding) => Some(encoding),
            None => if starts_track(encodings.last()) {
                Some(encodings.last())
            } else {
                None
            },
        }
    }
}

/// The track that an encoded frame starts: its own size and parameter sets.
pub open spec fn track_from(encoding: Encoding) -> AvcTrackView {
    track_for(
        encoding.picture.width,
        encoding.picture.height,
        encoding.unit().sps->0,
        encoding.unit().pps->0,
    )
}

/// Bytes and sync flag of the samples that encoded frames make: those from the
/// frame on that starts the track, except for frames of nothing but parameter
/// sets.
pub open spec fn sample_data(encodings: Seq<Encoding>) -> Seq<(Seq<u8>, bool)>
    decreases encodings.len(),
{
    if encodings.len() == 0 {
        Seq::empty()
    } else {
        let before = sample_data(encodings.drop_last());
        let last = encodings.last();
        if first_starting(encodings) is Some && last.unit().sample.len() > 0 {
            before.push((last.unit().sample, last.kind == FrameKind::Idr))
        } else {
            before
        }
    }
}

impl RecordingView {
    /// Whether the file holds what the encoder has given out, and nothing else:
    /// the track is the one that the first suitable frame starts, and the
    /// samples are those of the frames from there on.
    pub open spec fn faithful(self) -> bool {
        &&& self.track_added == first_starting(self.encodings) is Some
        &&& self.tracks == match first_starting(self.encodings) {
            Some(encoding) => seq![track_from(encoding)],
            None => Seq::empty(),
        }
        &&& self.samples.map_values(
            |entry: (u32, SampleView)| (entry.1.bytes, entry.1.is_sync),
        ) == sample_data(self.encodings)
    }
}

/// A recording that has only been set up is consistent, and its file holds
/// nothing.
pub proof fn law_new_recording_is_faithful(container: ContainerView, size: (i32, i32))
    ensures
        new_recording(container, size).consistent(),
        new_recording(container, size).faithful(),
{
    let fresh = new_recording(container, size);
    assert(fresh.samples.map_values(
        |entry: (u32, SampleView)| (entry.1.bytes, entry.1.is_sync),
    ) =~= sample_data(fresh.encodings));
}

/// Whatever a frame buffer holds and whatever the encoder makes of it, the file
/// keeps holding exactly what the encoder has given out.
pub proof fn law_file_follows_encoder(
    before: RecordingView,
    stride: i32,
    bytes: Seq<u8>,
    after: RecordingView,
)
    requires
        before.consistent(),
        before.faithful(),
        before.processed(stride, bytes, after),
    ensures
        after.consistent(),
        after.faithful(),
{
    let data = |entry: (u32, SampleView)| (entry.1.bytes, entry.1.is_sync);
    if before.is_live() && !before.is_empty() {
        let layout = before.layout->0;
        let pitch = non_negative(stride);
        if after.error is None {
            let (encoding, begin, now) = choose|encoding: Encoding, begin: int, now: int|
                {
                    &&& before.encodes(layout, pitch, bytes, encoding)
                    &&& !before.cannot_start(encoding.unit())
                    &&& after == #[trigger] before.with_encoding(encoding).with_frame(
                        encoding.unit(),
                        encoding.kind,
                        begin,
                        now,
                    )
                };
            assert(after.encodings.drop_last() =~= before.encodings);
            assert(after.encodings.last() == encoding);
            if !before.track_added && encoding.unit().describes_track() {
                assert(after.tracks =~= seq![track_from(encoding)]);
            }
            assert(after.samples.map_values(data) =~= sample_data(after.encodings));
        } else {
            let reason = choose|reason: String|
                {
                    &&& after.error == Some(#[trigger] reason@)
                    &&& before.refused_frame(
                        layout,
                        pitch,
                        bytes,
                        reason,
                        RecordingView { error: None, ..after },
                    )
                };
            let rest = RecordingView { error: None, ..after };
            if rest.encodings != before.encodings {
                let encoding = choose|encoding: Encoding|
                    {
                        &&& before.encodes(layout, pitch, bytes, encoding)
                        &&& before.cannot_start(encoding.unit())
                        &&& rest == #[trigger] before.with_encoding(encoding)
                    };
                assert(rest.encodings.drop_last() =~= before.encodings);
                assert(rest.encodings.last() == encoding);
            }
        }
    }
}

/// Nothing that is in the file goes away or changes: tracks and samples are only
/// ever added behind the earlier ones, at most one sample for a frame, and a
/// track that has been started stays the only one. The clock is started with the
/// track and never again. Size, layout and file configuration are not touched by
/// frames.
pub proof fn law_recording_only_grows(
    before: RecordingView,
    stride: i32,
    bytes: Seq<u8>,
    after: RecordingView,
)
    requires
        before.processed(stride, bytes, after),
    ensures
        before.encodings.is_prefix_of(after.encodings),
        before.failures.is_prefix_of(after.failures),
        before.readings.is_prefix_of(after.readings),
        before.tracks.is_prefix_of(after.tracks),
        before.samples.is_prefix_of(after.samples),
        after.samples.len() <= before.samples.len() + 1,
        before.track_added ==> after.track_added && after.tracks == before.tracks,
        before.track_added || !after.track_added ==> after.start == before.start,
        after.layout == before.layout,
        after.width == before.width,
        after.height == before.height,
        after.container == before.container,
{
}

/// The first failure ends the recording: from then on no frame buffer changes
/// anything, and the failure stays.
pub proof fn law_failure_is_final(
    before: RecordingView,
    stride: i32,
    bytes: Seq<u8>,
    after: RecordingView,
)
    requires
        before.error is Some,
        before.processed(stride, bytes, after),
    ensures
        after == before,
{
}

/// Frames that arrive before a format has been settled change nothing.
pub proof fn law_frames_wait_for_a_format(
    before: RecordingView,
    stride: i32,
    bytes: Seq<u8>,
    after: RecordingView,
)
    requires
        before.layout is None,
        before.processed(stride, bytes, after),
    ensures
        after == before,
{
}

/// A change of format in the middle of a recording touches neither the file nor
/// what the encoder has given out.
pub proof fn law_format_leaves_file_alone(before: RecordingView, param: Option<StreamParam>)
    ensures
        before.with_param(param).tracks == before.tracks,
        before.with_param(param).samples == before.samples,
        before.with_param(param).encodings == before.encodings,
        before.with_param(param).failures == before.failures,
        before.with_param(param).start == before.start,
        before.with_param(param).readings == before.readings,
        before.with_param(param).track_added == before.track_added,
        before.with_param(param).error == before.error,
        before.consistent() ==> before.with_param(param).consistent(),
        before.faithful() ==> before.with_param(param).faithful(),
{
}

/// The padding of a frame buffer does not show: two buffers that agree on the
/// pixels of each row show the same picture, so the encoder is given the same
/// one, and what can become of the recording is the same. Pitch, padding and what
/// lies behind the last row may differ.
pub proof fn law_padding_does_not_show(
    recording: RecordingView,
    layout: PixelLayout,
    a: Seq<u8>,
    a_stride: nat,
    b: Seq<u8>,
    b_stride: nat,
)
    requires
        forall|row: nat, col: nat|
            #![trigger a[(row * a_stride + col) as int]]
            row < recording.height && col < recording.width * BYTES_PER_PIXEL ==> a[(row * a_stride
                + col) as int] == b[(row * b_stride + col) as int],
    ensures
        recording.frame_picture(layout, a_stride, a) == recording.frame_picture(
            layout,
            b_stride,
            b,
        ),
        forall|encoding: Encoding|
            recording.encodes(layout, a_stride, a, encoding) == #[trigger] recording.encodes(
                layout,
                b_stride,
                b,
                encoding,
            ),
        forall|after: RecordingView|
            recording.took_frame(layout, a_stride, a, after) == #[trigger] recording.took_frame(
                layout,
                b_stride,
                b,
                after,
            ),
        forall|reason: String, after: RecordingView|
            recording.refused_frame(layout, a_stride, a, reason, after)
                == #[trigger] recording.refused_frame(layout, b_stride, b, reason, after),
{
    let row_bytes = recording.width * BYTES_PER_PIXEL as nat;
    law_padding_is_ignored(a, a_stride, b, b_stride, row_bytes, recording.height);
    let picture = recording.frame_picture(layout, a_stride, a);
    assert(picture == recording.frame_picture(layout, b_stride, b));
    assert forall|encoding: Encoding|
        recording.encodes(layout, a_stride, a, encoding) == #[trigger] recording.encodes(
            layout,
            b_stride,
            b,
            encoding,
        ) by {}
}

/// The times of samples never go back: of two samples the later one has no
/// smaller time, both counted in whole milliseconds from the start of the track.
/// This holds as long as the clock itself does not go back between the two, and
/// the milliseconds fit in 64 bits.
pub proof fn law_sample_times_never_go_back(recording: RecordingView, i: int, j: int)
    requires
        recording.consistent(),
        0 <= i < j < recording.samples.len(),
        recording.readings[i] <= recording.readings[j],
        millis_between(recording.start->0, recording.readings[j]) < 0x1_0000_0000_0000_0000,
    ensures
        recording.start is Some,
        recording.samples[i].1.start_time <= recording.samples[j].1.start_time,
        recording.samples[i].1.start_time == millis_between(
            recording.start->0,
            recording.readings[i],
        ),
        recording.samples[j].1.start_time == millis_between(
            recording.start->0,
            recording.readings[j],
        ),
{
    let start = recording.start->0;
    law_times_follow_the_clock(start, recording.readings[i], recording.readings[j]);
    law_times_follow_the_clock(start, recording.readings[i], recording.readings[i]);
}

/// What can happen to the stream of a recording.
pub enum StreamEvent {
    /// A parameter of the stream changed.
    Param { param: Option<StreamParam> },
    /// A frame buffer with rows `stride` bytes apart arrived.
    Frame { stride: i32, bytes: Seq<u8> },
}

impl RecordingView {
    /// Whether `after` is this recording after `event`.
    pub open spec fn reacted(self, event: StreamEvent, after: RecordingView) -> bool {
        match event {
            StreamEvent::Param { param } => after == self.with_param(param),
            StreamEvent::Frame { stride, bytes } => self.processed(stride, bytes, after),
        }
    }
}

/// Whether `states` are those that a recording passes through, from its setup
/// on, as `events` happen to its stream.
pub open spec fn is_run(
    container: ContainerView,
    size: (i32, i32),
    events: Seq<StreamEvent>,
    states: Seq<RecordingView>,
) -> bool {
    &&& states.len() == events.len() + 1
    &&& states[0] == new_recording(container, size)
    &&& forall|i: int|
        0 <= i < events.len() ==> (#[trigger] states[i]).reacted(events[i], states[i + 1])
}

/// Whatever happens to the stream, and in whatever order, the file of a
/// recording holds exactly what the encoder has given out.
pub proof fn law_every_recording_is_faithful(
    container: ContainerView,
    size: (i32, i32),
    events: Seq<StreamEvent>,
    states: Seq<RecordingView>,
)
    requires
        is_run(container, size, events, states),
    ensures
        states.last().consistent(),
        states.last().faithful(),
        states.last().container == container,
    decreases events.len(),
{
    law_new_recording_is_faithful(container, size);
    if events.len() > 0 {
        assert forall|i: int| 0 <= i < events.drop_last().len() implies (
        #[trigger] states.drop_last()[i]).reacted(
            events.drop_last()[i],
            states.drop_last()[i + 1],
        ) by {
            assert(states[i].reacted(events[i], states[i + 1]));
        }
        law_every_recording_is_faithful(container, size, events.drop_last(), states.drop_last());
        let before = states[events.len() - 1];
        assert(before == states.drop_last().last());
        let after = states.last();
        assert(before.reacted(events.last(), after));
        match events.last() {
            StreamEvent::Param { param } => law_format_leaves_file_alone(before, param),
            StreamEvent::Frame { stride, bytes } => {
                law_file_follows_encoder(before, stride, bytes, after);
                law_recording_only_grows(before, stride, bytes, after);
            },
        }
    }
}

proof fn lemma_samples_come_from_encodings(encodings: Seq<Encoding>, i: int)
    requires
        0 <= i < sample_data(encodings).len(),
    ensures
        exists|j: int|
            0 <= j < encodings.len() && sample_data(encodings)[i].0 == (
            #[trigger] encodings[j]).unit().sample,
    decreases encodings.len(),
{
    let before = encodings.drop_last();
    if i < sample_data(before).len() {
        lemma_samples_come_from_encodings(before, i);
        let j = choose|j: int|
            0 <= j < before.len() && sample_data(before)[i].0 == (
            #[trigger] before[j]).unit().sample;
        assert(encodings[j] == before[j]);
    } else {
        assert(encodings[encodings.len() - 1] == encodings.last());
    }
}

/// What a player reads out of each sample of the file is the units of a
/// frame that the encoder gave out, whole and in order.
pub proof fn law_samples_read_back(recording: RecordingView, i: int)
    requires
        recording.faithful(),
        0 <= i < recording.samples.len(),
        forall|j: int, k: int|
            0 <= j < recording.encodings.len() && 0 <= k
                < recording.encodings[j].layers.flatten().len() ==> (
            #[trigger] recording.encodings[j].layers.flatten()[k]).len() < 0x1_0000_0000,
    ensures
        exists|j: int|
            {
                &&& 0 <= j < recording.encodings.len()
                &&& read_sample(recording.samples[i].1.bytes) == Some(
                    sample_units(
                        payloads_of((#[trigger] recording.encodings[j]).layers.flatten()),
                    ),
                )
            },
{
    let data = |entry: (u32, SampleView)| (entry.1.bytes, entry.1.is_sync);
    assert(recording.samples.map_values(data)[i].0 == recording.samples[i].1.bytes);
    lemma_samples_come_from_encodings(recording.encodings, i);
    let j = choose|j: int|
        0 <= j < recording.encodings.len() && sample_data(recording.encodings)[i].0 == (
        #[trigger] recording.encodings[j]).unit().sample;
    let nals = recording.encodings[j].layers.flatten();
    assert forall|k: int| 0 <= k < nals.len() implies (#[trigger] nals[k]).len()
        < 0x1_0000_0000 by {
        assert(recording.encodings[j].layers.flatten()[k].len() < 0x1_0000_0000);
    }
    law_sample_holds_sample_units(nals);
}

} // verus!
