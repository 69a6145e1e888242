//! What the operations on a recording do to it, field by field.
//!
//! The laws here take the model of [`crate::model`] apart: they say of each
//! operation, in terms of what goes in and of the fields of the recording before
//! and after, what becomes of every field.

use crate::access_unit::AccessUnitView;
use crate::clock::{law_times_are_whole_milliseconds, start_time_at};
use crate::codec::{i420_from_bgra, i420_from_rgba, Encoding, Failure, FrameKind};
use crate::container::ContainerView;
use crate::format::{
    law_settled_goes_by_the_fields, MediaSubtype, MediaType, StreamParam, VideoFormat,
};
use crate::model::{is_codec_error, is_text_of, new_recording, non_negative, RecordingView};
use crate::pixels::{
    law_frame_fits_by_its_last_row, law_packed_position, packed_rows, PixelLayout,
};
use vstd::prelude::*;

verus! {

/// A recording that has only been set up has the reported size, or zero where
/// something negative was reported, and the given file configuration. It has no
/// layout and no failure, and nothing has been encoded or written.
pub proof fn law_setup_goes_by_the_size(container: ContainerView, size: (i32, i32))
    ensures
        ({
            let fresh = new_recording(container, size);
            &&& fresh.container == container
            &&& size.0 >= 0 ==> fresh.width == size.0
            &&& size.0 < 0 ==> fresh.width == 0
            &&& size.1 >= 0 ==> fresh.height == size.1
            &&& size.1 < 0 ==> fresh.height == 0
            &&& fresh.layout is None
            &&& fresh.error is None
            &&& fresh.start is None
            &&& !fresh.track_added
            &&& fresh.encodings.len() == 0
            &&& fresh.failures.len() == 0
            &&& fresh.tracks.len() == 0
            &&& fresh.samples.len() == 0
            &&& fresh.readings.len() == 0
        }),
{
}

/// The format of raw video in a usable pixel format is taken up: from then on the
/// recording has exactly its width, its height, and the layout of its pixels.
/// Nothing else changes.
pub proof fn law_settled_format_is_taken_up(before: RecordingView, param: StreamParam)
    requires
        param.is_format,
        param.media == Some((MediaType::Video, MediaSubtype::Raw)),
        param.video is Some,
        param.video->0.format != VideoFormat::Other,
    ensures
        ({
            let info = param.video->0;
            let after = before.with_param(Some(param));
            &&& after.width == info.width
            &&& after.height == info.height
            &&& after.layout is Some
            &&& after.layout == Some(PixelLayout::Bgra) <==> info.format == VideoFormat::Bgra
                || info.format == VideoFormat::Bgrx
            &&& after.layout == Some(PixelLayout::Rgba) <==> info.format == VideoFormat::Rgba
                || info.format == VideoFormat::Rgbx
            &&& after.container == before.container
            &&& after.error == before.error
            &&& after.start == before.start
            &&& after.track_added == before.track_added
            &&& after.encodings == before.encodings
            &&& after.failures == before.failures
            &&& after.tracks == before.tracks
            &&& after.samples == before.samples
            &&& after.readings == before.readings
        }),
{
    law_settled_goes_by_the_fields(param);
}

/// Any other parameter, and the loss of one, changes nothing.
pub proof fn law_other_params_change_nothing(before: RecordingView, param: Option<StreamParam>)
    requires
        param matches Some(param) ==> {
            ||| !param.is_format
            ||| param.media != Some((MediaType::Video, MediaSubtype::Raw))
            ||| param.video is None
            ||| param.video->0.format == VideoFormat::Other
        },
    ensures
        before.with_param(param) == before,
{
    if let Some(given) = param {
        law_settled_goes_by_the_fields(given);
    }
}

/// A frame buffer changes nothing if something has gone wrong before, if no
/// layout has been settled, or if frames have no pixels.
pub proof fn law_idle_frames_change_nothing(
    before: RecordingView,
    stride: i32,
    bytes: Seq<u8>,
    after: RecordingView,
)
    requires
        before.processed(stride, bytes, after),
        before.error is Some || before.layout is None || before.width == 0 || before.height == 0,
    ensures
        after == before,
{
}

/// Every other frame buffer, whatever has been written before, is given to the
/// encoder once: there is one more encoded frame or one more failure, and not
/// both. Its picture has the size of the recording, and its planes are those of
/// the pixels that lie in the buffer: byte `col` of row `row` is that of the
/// buffer, with rows `stride` bytes apart, or all at the front if that is negative.
pub proof fn law_every_frame_is_given_to_the_encoder(
    before: RecordingView,
    stride: i32,
    bytes: Seq<u8>,
    after: RecordingView,
    pitch: nat,
    pixels: Seq<u8>,
)
    requires
        before.processed(stride, bytes, after),
        before.error is None,
        before.layout is Some,
        before.width > 0,
        before.height > 0,
        stride >= 0 ==> pitch == stride,
        stride < 0 ==> pitch == 0,
        pixels.len() == before.width * 4 * before.height,
        forall|row: nat, col: nat|
            #![trigger bytes[(row * pitch + col) as int]]
            row < before.height && col < before.width * 4 ==> pixels[(row * (before.width * 4)
                + col) as int] == bytes[(row * pitch + col) as int],
    ensures
        after.encodings.len() + after.failures.len() == before.encodings.len()
            + before.failures.len() + 1,
        after.encodings == before.encodings || after.failures == before.failures,
        ({
            let picture = if after.failures == before.failures {
                after.encodings.last().picture
            } else {
                after.failures.last().picture
            };
            &&& after.failures == before.failures ==> after.encodings.drop_last()
                == before.encodings
            &&& after.encodings == before.encodings ==> after.failures.drop_last()
                == before.failures
            &&& picture.width == before.width
            &&& picture.height == before.height
            &&& before.layout == Some(PixelLayout::Bgra) ==> picture.planes == i420_from_bgra(
                pixels,
                before.width,
                before.height,
            )
            &&& before.layout == Some(PixelLayout::Rgba) ==> picture.planes == i420_from_rgba(
                pixels,
                before.width,
                before.height,
            )
        }),
{
    let row_bytes = before.width * 4;
    lemma_pixels_are_the_packed_rows(bytes, pitch, row_bytes, before.height, pixels);
    assert(non_negative(stride) == pitch);
    assert(before.frame_picture(before.layout->0, pitch, bytes).width == before.width);
    lemma_one_attempt(before, stride, bytes, after);
}

/// Pixels that agree with the buffer in every row and column are the packed rows.
proof fn lemma_pixels_are_the_packed_rows(
    bytes: Seq<u8>,
    pitch: nat,
    row_bytes: nat,
    height: nat,
    pixels: Seq<u8>,
)
    requires
        pixels.len() == row_bytes * height,
        forall|row: nat, col: nat|
            #![trigger bytes[(row * pitch + col) as int]]
            row < height && col < row_bytes ==> pixels[(row * row_bytes + col) as int]
                == bytes[(row * pitch + col) as int],
    ensures
        pixels == packed_rows(bytes, pitch, row_bytes, height),
{
    let packed = packed_rows(bytes, pitch, row_bytes, height);
    assert forall|k: int| 0 <= k < pixels.len() implies pixels[k] == packed[k] by {
        assert(row_bytes > 0) by (nonlinear_arith)
            requires
                0 < row_bytes * height,
        ;
        vstd::arithmetic::div_mod::lemma_fundamental_div_mod(k, row_bytes as int);
        let row = k / row_bytes as int;
        let col = k % row_bytes as int;
        assert(0 <= row < height) by (nonlinear_arith)
            requires
                0 <= k < row_bytes * height,
                k == row_bytes * row + col,
                0 <= col < row_bytes,
        ;
        assert(row * row_bytes == row_bytes * row) by (nonlinear_arith);
        law_packed_position(bytes, pitch, row_bytes, height, row as nat, col as nat);
        assert(pixels[(row as nat * row_bytes + col as nat) as int] == bytes[(row as nat * pitch
            + col as nat) as int]);
    }
    assert(pixels =~= packed);
}

/// A frame buffer with pixels, in a recording without failure and with a layout,
/// leaves one more encoded frame or one more failure.
proof fn lemma_one_attempt(
    before: RecordingView,
    stride: i32,
    bytes: Seq<u8>,
    after: RecordingView,
)
    requires
        before.processed(stride, bytes, after),
        before.error is None,
        before.layout is Some,
        before.width > 0,
        before.height > 0,
    ensures
        ({
            let picture = before.frame_picture(before.layout->0, non_negative(stride), bytes);
            ||| {
                &&& after.failures == before.failures
                &&& after.encodings == before.encodings.push(after.encodings.last())
                &&& after.encodings.len() == before.encodings.len() + 1
                &&& after.encodings.drop_last() == before.encodings
                &&& after.encodings.last().picture == picture
            }
            ||| {
                &&& after.encodings == before.encodings
                &&& after.failures == before.failures.push(after.failures.last())
                &&& after.failures.len() == before.failures.len() + 1
                &&& after.failures.drop_last() == before.failures
                &&& after.failures.last().picture == picture
            }
        }),
{
    let layout = before.layout->0;
    let pitch = non_negative(stride);
    if after.error is None {
        let (encoding, begin, now) = choose|encoding: Encoding, begin: int, now: int|
            {
                &&& before.encodes(layout, pitch, bytes, encoding)
                &&& !before.cannot_start(encoding.unit())
                &&& after == #[trigger] before.with_encoding(encoding).with_frame(
                    encoding.unit(),
                    encoding.kind,
                    begin,
                    now,
                )
            };
        assert(after.encodings == before.encodings.push(encoding));
        assert(after.encodings.drop_last() =~= before.encodings);
    } else {
        let rest = RecordingView { error: None, ..after };
        let reason = choose|reason: String|
            {
                &&& after.error == Some(#[trigger] reason@)
                &&& before.refused_frame(layout, pitch, bytes, reason, rest)
            };
        if exists|failure: Failure|
            {
                &&& failure.picture == before.frame_picture(layout, pitch, bytes)
                &&& is_text_of(failure.error, reason)
                &&& rest == #[trigger] before.with_failure(failure)
            } {
            let failure = choose|failure: Failure|
                {
                    &&& failure.picture == before.frame_picture(layout, pitch, bytes)
                    &&& is_text_of(failure.error, reason)
                    &&& rest == #[trigger] before.with_failure(failure)
                };
            assert(after.failures == before.failures.push(failure));
            assert(after.failures.drop_last() =~= before.failures);
        } else {
            let encoding = choose|encoding: Encoding|
                {
                    &&& before.encodes(layout, pitch, bytes, encoding)
                    &&& before.cannot_start(encoding.unit())
                    &&& rest == #[trigger] before.with_encoding(encoding)
                };
            assert(after.encodings == before.encodings.push(encoding));
            assert(after.encodings.drop_last() =~= before.encodings);
        }
    }
}

/// Where the encoder fails, what it reported is the recording's failure from then
/// on, and all else stays as it was.
pub proof fn law_failed_frame_only_leaves_its_error(
    before: RecordingView,
    stride: i32,
    bytes: Seq<u8>,
    after: RecordingView,
)
    requires
        before.processed(stride, bytes, after),
        after.failures != before.failures,
    ensures
        after.failures.len() == before.failures.len() + 1,
        exists|text: String|
            {
                &&& after.error == Some(#[trigger] text@)
                &&& vstd::string::to_string_from_display_ensures::<openh264::Error>(
                    &after.failures.last().error,
                    text,
                )
            },
        after.encodings == before.encodings,
        after.container == before.container,
        after.layout == before.layout,
        after.width == before.width,
        after.height == before.height,
        after.start == before.start,
        after.track_added == before.track_added,
        after.tracks == before.tracks,
        after.samples == before.samples,
        after.readings == before.readings,
{
    lemma_one_attempt(before, stride, bytes, after);
    let layout = before.layout->0;
    let pitch = non_negative(stride);
    let rest = RecordingView { error: None, ..after };
    assert(after.error is Some) by {
        if after.error is None {
            assert(after.failures =~= before.failures);
        }
    }
    let reason = choose|reason: String|
        {
            &&& after.error == Some(#[trigger] reason@)
            &&& before.refused_frame(layout, pitch, bytes, reason, rest)
        };
    let failure = choose|failure: Failure|
        {
            &&& failure.picture == before.frame_picture(layout, pitch, bytes)
            &&& is_text_of(failure.error, reason)
            &&& rest == #[trigger] before.with_failure(failure)
        };
    assert(after.failures.last() == failure);
    assert(after.error == Some(reason@));
}

/// A track is started with the size of the frames, which a track holds in 16
/// bits, and with the given parameter sets, when the clock shows `begin`. It comes
/// behind the tracks that are there, and nothing else changes.
pub proof fn law_track_has_the_size_of_the_frames(
    before: RecordingView,
    sps: Seq<u8>,
    pps: Seq<u8>,
    begin: int,
)
    ensures
        ({
            let after = before.with_track(sps, pps, begin);
            let track = after.tracks.last();
            &&& after.track_added
            &&& after.start == Some(begin)
            &&& after.tracks.len() == before.tracks.len() + 1
            &&& after.tracks.drop_last() == before.tracks
            &&& before.width < 0x1_0000 ==> track.width == before.width
            &&& before.height < 0x1_0000 ==> track.height == before.height
            &&& (before.width - track.width) % 0x1_0000 == 0
            &&& (before.height - track.height) % 0x1_0000 == 0
            &&& track.seq_param_set == sps
            &&& track.pic_param_set == pps
            &&& after.container == before.container
            &&& after.error == before.error
            &&& after.layout == before.layout
            &&& after.width == before.width
            &&& after.height == before.height
            &&& after.encodings == before.encodings
            &&& after.failures == before.failures
            &&& after.samples == before.samples
            &&& after.readings == before.readings
        }),
{
    assert(before.with_track(sps, pps, begin).tracks.drop_last() =~= before.tracks);
}

/// A sample is written to track 1, behind the samples that are there, with the
/// given bytes. It is a sync sample exactly if the frame is an instantaneous
/// decoder refresh, it has no duration and no offset, and its time is the whole
/// milliseconds from the start of the track to `now`. Nothing else changes.
pub proof fn law_sample_is_what_was_written(
    before: RecordingView,
    bytes: Seq<u8>,
    kind: FrameKind,
    now: int,
)
    requires
        before.start is Some,
    ensures
        ({
            let after = before.with_sample(bytes, kind, now);
            let (track_id, sample) = after.samples.last();
            let elapsed = now - before.start->0;
            &&& after.samples.len() == before.samples.len() + 1
            &&& after.samples.drop_last() == before.samples
            &&& track_id == 1
            &&& sample.bytes == bytes
            &&& sample.is_sync <==> kind == FrameKind::Idr
            &&& sample.duration == 0
            &&& sample.rendering_offset == 0
            &&& elapsed < 0 ==> sample.start_time == 0
            &&& 0 <= elapsed < 0x1_0000_0000_0000_0000 * 1_000_000 ==> {
                &&& sample.start_time * 1_000_000 <= elapsed
                &&& elapsed < sample.start_time * 1_000_000 + 1_000_000
            }
            &&& sample.start_time == start_time_at(before.start->0, now)
            &&& after.readings.len() == before.readings.len() + 1
            &&& after.readings.drop_last() == before.readings
            &&& after.readings.last() == now
            &&& after.container == before.container
            &&& after.error == before.error
            &&& after.layout == before.layout
            &&& after.width == before.width
            &&& after.height == before.height
            &&& after.start == before.start
            &&& after.track_added == before.track_added
            &&& after.encodings == before.encodings
            &&& after.failures == before.failures
            &&& after.tracks == before.tracks
        }),
{
    let after = before.with_sample(bytes, kind, now);
    assert(after.samples.drop_last() =~= before.samples);
    assert(after.readings.drop_last() =~= before.readings);
    law_times_are_whole_milliseconds(before.start->0, now);
}

/// What an encoded frame does to the file. While there is no track, a frame that
/// lacks either parameter set does nothing, and one with both starts the track
/// with them. Once there is a track, parameter sets do nothing. A frame that finds
/// or starts a track is written as one sample if there is anything to write.
pub proof fn law_frame_becomes_a_sample(
    before: RecordingView,
    unit: AccessUnitView,
    kind: FrameKind,
    begin: int,
    now: int,
)
    requires
        before.track_added ==> before.start is Some,
    ensures
        ({
            let after = before.with_frame(unit, kind, begin, now);
            let starts = !before.track_added && unit.sps is Some && unit.pps is Some;
            let goes_in = before.track_added || starts;
            &&& !goes_in ==> after == before
            &&& goes_in ==> after.track_added && after.start is Some
            &&& !starts ==> after.tracks == before.tracks && after.start == before.start
            &&& starts ==> {
                &&& after.start == Some(begin)
                &&& after.tracks.len() == before.tracks.len() + 1
                &&& after.tracks.drop_last() == before.tracks
                &&& before.width < 0x1_0000 ==> after.tracks.last().width == before.width
                &&& before.height < 0x1_0000 ==> after.tracks.last().height == before.height
                &&& (before.width - after.tracks.last().width) % 0x1_0000 == 0
                &&& (before.height - after.tracks.last().height) % 0x1_0000 == 0
                &&& after.tracks.last().seq_param_set == unit.sps->0
                &&& after.tracks.last().pic_param_set == unit.pps->0
            }
            &&& goes_in && unit.sample.len() == 0 ==> after.samples == before.samples
                && after.readings == before.readings
            &&& goes_in && unit.sample.len() > 0 ==> {
                let (track_id, sample) = after.samples.last();
                let elapsed = now - after.start->0;
                &&& after.samples.len() == before.samples.len() + 1
                &&& after.samples.drop_last() == before.samples
                &&& track_id == 1
                &&& sample.bytes == unit.sample
                &&& sample.is_sync <==> kind == FrameKind::Idr
                &&& sample.duration == 0
                &&& sample.rendering_offset == 0
                &&& elapsed < 0 ==> sample.start_time == 0
                &&& 0 <= elapsed < 0x1_0000_0000_0000_0000 * 1_000_000 ==> {
                    &&& sample.start_time * 1_000_000 <= elapsed
                    &&& elapsed < sample.start_time * 1_000_000 + 1_000_000
                }
                &&& sample.start_time == start_time_at(after.start->0, now)
                &&& after.readings.len() == before.readings.len() + 1
                &&& after.readings.drop_last() == before.readings
                &&& after.readings.last() == now
            }
            &&& after.container == before.container
            &&& after.error == before.error
            &&& after.layout == before.layout
            &&& after.width == before.width
            &&& after.height == before.height
            &&& after.encodings == before.encodings
            &&& after.failures == before.failures
        }),
{
    let starts = !before.track_added && unit.sps is Some && unit.pps is Some;
    if before.track_added || starts {
        if starts {
            law_track_has_the_size_of_the_frames(before, unit.sps->0, unit.pps->0, begin);
        }
        let ready = if starts {
            before.with_track(unit.sps->0, unit.pps->0, begin)
        } else {
            before
        };
        if unit.sample.len() > 0 {
            law_sample_is_what_was_written(ready, unit.sample, kind, now);
        }
    }
}

/// A frame cannot start the track exactly if it would be the one to start it and
/// its sequence parameter set has fewer than four bytes.
pub proof fn law_short_parameter_sets_start_nothing(before: RecordingView, unit: AccessUnitView)
    ensures
        before.cannot_start(unit) <==> {
            &&& !before.track_added
            &&& unit.pps is Some
            &&& unit.sps matches Some(sps) && sps.len() < 4
        },
{
}

/// What becomes of a frame buffer that was encoded. If the encoded frame would
/// start the track with a sequence parameter set of fewer than four bytes, that is
/// the recording's failure and the file stays as it was. In every other case there
/// is no failure, and the frame goes into the file: it starts the track if there
/// is none and both parameter sets are there, and it is written as one sample if
/// there is a track then and anything to write.
pub proof fn law_encoded_frame_goes_into_the_file(
    before: RecordingView,
    stride: i32,
    bytes: Seq<u8>,
    after: RecordingView,
)
    requires
        before.consistent(),
        before.processed(stride, bytes, after),
        after.encodings != before.encodings,
    ensures
        ({
            let encoding = after.encodings.last();
            let unit = encoding.unit();
            let sets = unit.sps is Some && unit.pps is Some;
            let short = !before.track_added && sets && unit.sps->0.len() < 4;
            let starts = !before.track_added && sets && !short;
            let goes_in = before.track_added || starts;
            &&& after.encodings == before.encodings.push(encoding)
            &&& after.failures == before.failures
            &&& after.container == before.container
            &&& after.layout == before.layout
            &&& after.width == before.width
            &&& after.height == before.height
            &&& short ==> after.error == Some("sequence parameter set is too short"@)
            &&& !short ==> after.error is None
            &&& after.track_added == goes_in
            &&& !starts ==> after.tracks == before.tracks && after.start == before.start
            &&& starts ==> {
                &&& after.start is Some
                &&& after.tracks.len() == before.tracks.len() + 1
                &&& before.width < 0x1_0000 ==> after.tracks.last().width == before.width
                &&& before.height < 0x1_0000 ==> after.tracks.last().height == before.height
                &&& (before.width - after.tracks.last().width) % 0x1_0000 == 0
                &&& (before.height - after.tracks.last().height) % 0x1_0000 == 0
                &&& after.tracks.last().seq_param_set == unit.sps->0
                &&& after.tracks.last().pic_param_set == unit.pps->0
            }
            &&& !goes_in || unit.sample.len() == 0 ==> after.samples == before.samples
                && after.readings == before.readings
            &&& goes_in && unit.sample.len() > 0 ==> {
                let (track_id, sample) = after.samples.last();
                let elapsed = after.readings.last() - after.start->0;
                &&& after.samples.len() == before.samples.len() + 1
                &&& after.samples.drop_last() == before.samples
                &&& track_id == 1
                &&& sample.bytes == unit.sample
                &&& sample.is_sync <==> encoding.kind == FrameKind::Idr
                &&& sample.duration == 0
                &&& sample.rendering_offset == 0
                &&& elapsed < 0 ==> sample.start_time == 0
                &&& 0 <= elapsed < 0x1_0000_0000_0000_0000 * 1_000_000 ==> {
                    &&& sample.start_time * 1_000_000 <= elapsed
                    &&& elapsed < sample.start_time * 1_000_000 + 1_000_000
                }
                &&& after.readings.len() == before.readings.len() + 1
                &&& after.readings.drop_last() == before.readings
            }
        }),
{
    let layout = before.layout->0;
    let pitch = non_negative(stride);
    lemma_one_attempt(before, stride, bytes, after);
    if after.error is None {
        let (encoding, begin, now) = choose|encoding: Encoding, begin: int, now: int|
            {
                &&& before.encodes(layout, pitch, bytes, encoding)
                &&& !before.cannot_start(encoding.unit())
                &&& after == #[trigger] before.with_encoding(encoding).with_frame(
                    encoding.unit(),
                    encoding.kind,
                    begin,
                    now,
                )
            };
        assert(after.encodings.last() == encoding);
        law_frame_becomes_a_sample(
            before.with_encoding(encoding),
            encoding.unit(),
            encoding.kind,
            begin,
            now,
        );
    } else {
        let rest = RecordingView { error: None, ..after };
        let reason = choose|reason: String|
            {
                &&& after.error == Some(#[trigger] reason@)
                &&& before.refused_frame(layout, pitch, bytes, reason, rest)
            };
        let encoding = choose|encoding: Encoding|
            {
                &&& before.encodes(layout, pitch, bytes, encoding)
                &&& before.cannot_start(encoding.unit())
                &&& rest == #[trigger] before.with_encoding(encoding)
            };
        assert(after.encodings.last() == encoding);
    }
}

/// A raw frame that is taken in, whatever the state of the recording, was encoded
/// first: there is one more encoded frame, whose planes are those of the pixels in
/// the buffer, read in the given layout. It goes into the file as
/// [`law_frame_becomes_a_sample`] says, and no failure is noted. A frame without
/// pixels changes nothing.
pub proof fn law_raw_frame_taken_in_was_encoded(
    before: RecordingView,
    layout: PixelLayout,
    stride: nat,
    bytes: Seq<u8>,
    after: RecordingView,
    pixels: Seq<u8>,
)
    requires
        before.took_frame(layout, stride, bytes, after),
        before.track_added ==> before.start is Some,
        pixels.len() == before.width * 4 * before.height,
        forall|row: nat, col: nat|
            #![trigger bytes[(row * stride + col) as int]]
            row < before.height && col < before.width * 4 ==> pixels[(row * (before.width * 4)
                + col) as int] == bytes[(row * stride + col) as int],
    ensures
        before.width == 0 || before.height == 0 ==> after == before,
        before.width > 0 && before.height > 0 ==> {
            let encoding = after.encodings.last();
            let unit = encoding.unit();
            let sets = unit.sps is Some && unit.pps is Some;
            let starts = !before.track_added && sets;
            let goes_in = before.track_added || starts;
            &&& after.encodings == before.encodings.push(encoding)
            &&& encoding.picture.width == before.width
            &&& encoding.picture.height == before.height
            &&& encoding.picture.planes == match layout {
                PixelLayout::Bgra => i420_from_bgra(pixels, before.width, before.height),
                PixelLayout::Rgba => i420_from_rgba(pixels, before.width, before.height),
            }
            &&& starts ==> unit.sps->0.len() >= 4
            &&& after.failures == before.failures
            &&& after.error == before.error
            &&& after.container == before.container
            &&& after.layout == before.layout
            &&& after.width == before.width
            &&& after.height == before.height
            &&& after.track_added == goes_in
            &&& !starts ==> after.tracks == before.tracks && after.start == before.start
            &&& starts ==> {
                &&& after.start is Some
                &&& after.tracks.len() == before.tracks.len() + 1
                &&& after.tracks.drop_last() == before.tracks
                &&& before.width < 0x1_0000 ==> after.tracks.last().width == before.width
                &&& before.height < 0x1_0000 ==> after.tracks.last().height == before.height
                &&& after.tracks.last().seq_param_set == unit.sps->0
                &&& after.tracks.last().pic_param_set == unit.pps->0
            }
            &&& !goes_in || unit.sample.len() == 0 ==> after.samples == before.samples
                && after.readings == before.readings
            &&& goes_in && unit.sample.len() > 0 ==> {
                let (track_id, sample) = after.samples.last();
                &&& after.samples.len() == before.samples.len() + 1
                &&& after.samples.drop_last() == before.samples
                &&& track_id == 1
                &&& sample.bytes == unit.sample
                &&& sample.is_sync <==> encoding.kind == FrameKind::Idr
                &&& sample.duration == 0
                &&& sample.rendering_offset == 0
                &&& sample.start_time == start_time_at(after.start->0, after.readings.last())
                &&& after.readings.len() == before.readings.len() + 1
                &&& after.readings.drop_last() == before.readings
            }
        },
{
    if before.width > 0 && before.height > 0 {
        lemma_pixels_are_the_packed_rows(bytes, stride, before.width * 4, before.height, pixels);
        let (encoding, begin, now) = choose|encoding: Encoding, begin: int, now: int|
            {
                &&& before.encodes(layout, stride, bytes, encoding)
                &&& !before.cannot_start(encoding.unit())
                &&& after == #[trigger] before.with_encoding(encoding).with_frame(
                    encoding.unit(),
                    encoding.kind,
                    begin,
                    now,
                )
            };
        assert(after.encodings == before.encodings.push(encoding));
        assert(after.encodings.last() == encoding);
        law_frame_becomes_a_sample(
            before.with_encoding(encoding),
            encoding.unit(),
            encoding.kind,
            begin,
            now,
        );
    }
}

/// A raw frame that is refused has pixels, and was given to the encoder: either
/// the encoder failed at its picture, and the reason is what it reported, or the
/// encoded frame would start the track with a sequence parameter set of fewer than
/// four bytes, and the reason says so. All else stays as it was.
pub proof fn law_raw_frame_refused_was_tried(
    before: RecordingView,
    layout: PixelLayout,
    stride: nat,
    bytes: Seq<u8>,
    reason: String,
    after: RecordingView,
    pixels: Seq<u8>,
)
    requires
        before.refused_frame(layout, stride, bytes, reason, after),
        pixels.len() == before.width * 4 * before.height,
        forall|row: nat, col: nat|
            #![trigger bytes[(row * stride + col) as int]]
            row < before.height && col < before.width * 4 ==> pixels[(row * (before.width * 4)
                + col) as int] == bytes[(row * stride + col) as int],
    ensures
        before.width > 0,
        before.height > 0,
        ({
            let failed = after.encodings == before.encodings;
            let picture = if failed {
                after.failures.last().picture
            } else {
                after.encodings.last().picture
            };
            &&& picture.width == before.width
            &&& picture.height == before.height
            &&& picture.planes == match layout {
                PixelLayout::Bgra => i420_from_bgra(pixels, before.width, before.height),
                PixelLayout::Rgba => i420_from_rgba(pixels, before.width, before.height),
            }
            &&& failed ==> {
                &&& after.failures == before.failures.push(after.failures.last())
                &&& vstd::string::to_string_from_display_ensures::<openh264::Error>(
                    &after.failures.last().error,
                    reason,
                )
            }
            &&& !failed ==> {
                &&& after.failures == before.failures
                &&& after.encodings == before.encodings.push(after.encodings.last())
                &&& !before.track_added
                &&& after.encodings.last().unit().sps is Some
                &&& after.encodings.last().unit().sps->0.len() < 4
                &&& after.encodings.last().unit().pps is Some
                &&& reason@ == "sequence parameter set is too short"@
            }
        }),
        after.error == before.error,
        after.container == before.container,
        after.layout == before.layout,
        after.width == before.width,
        after.height == before.height,
        after.start == before.start,
        after.track_added == before.track_added,
        after.tracks == before.tracks,
        after.samples == before.samples,
        after.readings == before.readings,
{
    lemma_pixels_are_the_packed_rows(bytes, stride, before.width * 4, before.height, pixels);
    if exists|failure: Failure|
        {
            &&& failure.picture == before.frame_picture(layout, stride, bytes)
            &&& is_text_of(failure.error, reason)
            &&& after == #[trigger] before.with_failure(failure)
        } {
        let failure = choose|failure: Failure|
            {
                &&& failure.picture == before.frame_picture(layout, stride, bytes)
                &&& is_text_of(failure.error, reason)
                &&& after == #[trigger] before.with_failure(failure)
            };
        assert(after.failures.last() == failure);
    } else {
        let encoding = choose|encoding: Encoding|
            {
                &&& before.encodes(layout, stride, bytes, encoding)
                &&& before.cannot_start(encoding.unit())
                &&& after == #[trigger] before.with_encoding(encoding)
            };
        assert(after.encodings.last() == encoding);
        assert(after.encodings.len() == before.encodings.len() + 1);
    }
}

/// The text of an encoder's error is how that error is displayed.
pub proof fn law_error_texts_are_displayed_errors(error: openh264::Error, text: String)
    ensures
        is_text_of(error, text) <==> vstd::string::to_string_from_display_ensures::<
            openh264::Error,
        >(&error, text),
        is_codec_error(text) ==> exists|some: openh264::Error|
            #[trigger] vstd::string::to_string_from_display_ensures::<openh264::Error>(&some, text),
{
    if is_codec_error(text) {
        let some = choose|some: openh264::Error| #[trigger] is_text_of(some, text);
        assert(vstd::string::to_string_from_display_ensures::<openh264::Error>(&some, text));
    }
}

/// The recording is live exactly as long as nothing has gone wrong and a layout
/// has been settled, whatever has been written.
pub proof fn law_live_until_something_goes_wrong(recording: RecordingView)
    ensures
        recording.is_live() <==> recording.error is None && recording.layout is Some,
{
}

/// A frame buffer can be taken in exactly if frames have no pixels, or if width
/// and height are even, the last row ends within the buffer, padded rows fit in
/// one allocation when packed, and the muxer can count one more sample.
pub proof fn law_whole_frames_are_taken(recording: RecordingView, stride: nat, len: nat)
    ensures
        recording.takes(stride, len) <==> {
            ||| recording.width == 0
            ||| recording.height == 0
            ||| {
                &&& recording.width % 2 == 0
                &&& recording.height % 2 == 0
                &&& (recording.height - 1) * stride + recording.width * 4 <= len
                &&& stride == recording.width * 4 || recording.width * 4 * recording.height
                    <= isize::MAX
                &&& recording.samples.len() + 2 <= u32::MAX
            }
        },
{
    law_frame_fits_by_its_last_row(recording.width, recording.height, stride, len);
}

} // verus!
