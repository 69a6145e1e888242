//! The MP4 file.
//!
//! The muxer is the `mp4` crate, writing into memory. It gathers the samples of
//! a track until a second's worth of them is there; the samples of a recording
//! have no duration, so all of them are gathered until the end in any case.

use mp4::{AvcConfig, FourCC, Mp4Config, Mp4Sample, Mp4Writer, TrackConfig};
use std::io::Cursor;
use vstd::prelude::*;

verus! {

/// A muxer of the `mp4` crate.
#[verifier::external_type_specification]
#[verifier::external_body]
#[verifier::reject_recursive_types(W)]
pub struct ExMp4Writer<W>(Mp4Writer<W>);

/// A position in a buffer.
#[verifier::external_type_specification]
#[verifier::external_body]
#[verifier::reject_recursive_types(T)]
pub struct ExCursor<T>(Cursor<T>);

/// What the `mp4` crate reports when it fails.
#[verifier::external_type_specification]
#[verifier::external_body]
pub struct ExMuxError(mp4::Error);

/// A muxer that writes into memory.
pub type MemoryWriter = Mp4Writer<Cursor<Vec<u8>>>;

/// MP4 track id of the only, video, track.
pub const TRACK_ID: u32 = 1;

/// MP4 timescale: units per second used for sample timestamps and durations.
pub const TIMESCALE: u32 = 1000;

/// What stands at the head of the file, and the scale of its times.
pub struct ContainerConfig {
    pub major_brand: [u8; 4],
    pub minor_version: u32,
    pub compatible_brands: Vec<[u8; 4]>,
    pub timescale: u32,
}

/// [`ContainerConfig`] as mathematical values.
pub struct ContainerView {
    pub major_brand: Seq<u8>,
    pub minor_version: u32,
    pub compatible_brands: Seq<Seq<u8>>,
    pub timescale: u32,
}

impl View for ContainerConfig {
    type V = ContainerView;

    open spec fn view(&self) -> ContainerView {
        ContainerView {
            major_brand: self.major_brand@,
            minor_version: self.minor_version,
            compatible_brands: self.compatible_brands@.map_values(|brand: [u8; 4]| brand@),
            timescale: self.timescale,
        }
    }
}

/// An H.264 track: the size of its pictures, and its parameter sets.
pub struct AvcTrack {
    pub width: u16,
    pub height: u16,
    pub seq_param_set: Vec<u8>,
    pub pic_param_set: Vec<u8>,
}

/// [`AvcTrack`] as mathematical values.
#[verifier::ext_equal]
pub struct AvcTrackView {
    pub width: u16,
    pub height: u16,
    pub seq_param_set: Seq<u8>,
    pub pic_param_set: Seq<u8>,
}

impl View for AvcTrack {
    type V = AvcTrackView;

    open spec fn view(&self) -> AvcTrackView {
        AvcTrackView {
            width: self.width,
            height: self.height,
            seq_param_set: self.seq_param_set@,
            pic_param_set: self.pic_param_set@,
        }
    }
}

/// One sample of a track.
pub struct Sample {
    pub start_time: u64,
    pub duration: u32,
    pub rendering_offset: i32,
    pub is_sync: bool,
    pub bytes: Vec<u8>,
}

/// [`Sample`] as mathematical values.
#[verifier::ext_equal]
pub struct SampleView {
    pub start_time: u64,
    pub duration: u32,
    pub rendering_offset: i32,
    pub is_sync: bool,
    pub bytes: Seq<u8>,
}

impl View for Sample {
    type V = SampleView;

    open spec fn view(&self) -> SampleView {
        SampleView {
            start_time: self.start_time,
            duration: self.duration,
            rendering_offset: self.rendering_offset,
            is_sync: self.is_sync,
            bytes: self.bytes@,
        }
    }
}

/// The configuration that a muxer was started with.
pub uninterp spec fn container_of(writer: MemoryWriter) -> ContainerView;

/// The tracks that a muxer holds, in the order in which they were added.
pub uninterp spec fn tracks_of(writer: MemoryWriter) -> Seq<AvcTrackView>;

/// The samples that were written to a muxer, oldest first, each with the id of
/// its track.
pub uninterp spec fn samples_of(writer: MemoryWriter) -> Seq<(u32, SampleView)>;

/// The file that `Mp4Writer::write_end` completes for the given configuration,
/// tracks and samples.
pub uninterp spec fn mp4_file(
    container: ContainerView,
    tracks: Seq<AvcTrackView>,
    samples: Seq<(u32, SampleView)>,
) -> Seq<u8>;

/// Calls `Mp4Writer::write_start` on an empty buffer. Taken on trust: the muxer
/// keeps the configuration, and has no track and no sample yet. The call does
/// nothing that can fail but write, and writing into memory does not.
#[verifier::external_body]
pub(crate) fn write_start(config: &ContainerConfig) -> (r: Result<MemoryWriter, mp4::Error>)
    ensures
        r is Ok,
        r matches Ok(writer) ==> {
            &&& container_of(writer) == config@
            &&& tracks_of(writer) == Seq::<AvcTrackView>::empty()
            &&& samples_of(writer) == Seq::<(u32, SampleView)>::empty()
        },
{
    let config = Mp4Config {
        major_brand: FourCC::from(config.major_brand),
        minor_version: config.minor_version,
        compatible_brands: config.compatible_brands.iter().map(|b| FourCC::from(*b)).collect(),
        timescale: config.timescale,
    };
    Mp4Writer::write_start(Cursor::new(Vec::new()), &config)
}

/// Calls `Mp4Writer::add_track` with the track as an `AvcConfig`. Taken on
/// trust: it cannot fail for such a track, and adds it behind the others. The
/// call panics on a sequence parameter set of fewer than four bytes, out of
/// which it reads profile and level.
#[verifier::external_body]
pub(crate) fn add_track(writer: &mut MemoryWriter, track: &AvcTrack) -> (r: Result<(), mp4::Error>)
    requires
        track@.seq_param_set.len() >= 4,
        tracks_of(*old(writer)).len() < u32::MAX,
    ensures
        r is Ok,
        container_of(*final(writer)) == container_of(*old(writer)),
        tracks_of(*final(writer)) == tracks_of(*old(writer)).push(track@),
        samples_of(*final(writer)) == samples_of(*old(writer)),
{
    writer.add_track(&TrackConfig::from(AvcConfig {
        width: track.width,
        height: track.height,
        seq_param_set: track.seq_param_set.clone(),
        pic_param_set: track.pic_param_set.clone(),
    }))
}

/// Calls `Mp4Writer::write_sample`. Taken on trust: it fails on a track id that
/// was not given out, and otherwise gathers the sample behind the others.
/// Samples without duration never fill a chunk, so nothing is written before
/// the end that could fail. The muxer counts samples in 32 bits, from one, and
/// the count must not overflow.
#[verifier::external_body]
pub(crate) fn write_sample(writer: &mut MemoryWriter, track_id: u32, sample: Sample) -> (r: Result<
    (),
    mp4::Error,
>)
    requires
        sample.duration == 0,
        forall|i: int|
            0 <= i < samples_of(*old(writer)).len() ==> (
            #[trigger] samples_of(*old(writer))[i]).1.duration == 0,
        samples_of(*old(writer)).len() + 2 <= u32::MAX,
    ensures
        r is Ok <==> 1 <= track_id <= tracks_of(*old(writer)).len(),
        container_of(*final(writer)) == container_of(*old(writer)),
        tracks_of(*final(writer)) == tracks_of(*old(writer)),
        samples_of(*final(writer)) == if r is Ok {
            samples_of(*old(writer)).push((track_id, sample@))
        } else {
            samples_of(*old(writer))
        },
{
    let sample = Mp4Sample {
        start_time: sample.start_time,
        duration: sample.duration,
        rendering_offset: sample.rendering_offset,
        is_sync: sample.is_sync,
        bytes: sample.bytes.into(),
    };
    writer.write_sample(track_id, &sample)
}

/// Calls `Mp4Writer::write_end` and takes the buffer out. Taken on trust: the
/// file depends on the configuration, the tracks and the samples alone. Besides
/// writing into memory, which does not fail, the call only compares the number
/// of samples with the number of their sizes, and the muxer keeps these equal.
#[verifier::external_body]
pub(crate) fn write_end(writer: MemoryWriter) -> (r: Result<Vec<u8>, mp4::Error>)
    ensures
        r is Ok,
        r matches Ok(file) ==> file@ == mp4_file(
            container_of(writer),
            tracks_of(writer),
            samples_of(writer),
        ),
{
    let mut writer = writer;
    writer.write_end()?;
    Ok(writer.into_writer().into_inner())
}

/// The configuration of a recording: an ISO base media file with H.264 video,
/// its times in milliseconds.
pub fn recording_container() -> (config: ContainerConfig)
    ensures
        config@.major_brand == "isom"@.map_values(|c: char| c as u8),
        config@.minor_version == 512,
        config@.compatible_brands == seq![
            "isom"@.map_values(|c: char| c as u8),
            "iso2"@.map_values(|c: char| c as u8),
            "avc1"@.map_values(|c: char| c as u8),
            "mp41"@.map_values(|c: char| c as u8),
        ],
        config@.timescale == TIMESCALE,
{
    let mut compatible_brands: Vec<[u8; 4]> = Vec::new();
    compatible_brands.push(['i' as u8, 's' as u8, 'o' as u8, 'm' as u8]);
    compatible_brands.push(['i' as u8, 's' as u8, 'o' as u8, '2' as u8]);
    compatible_brands.push(['a' as u8, 'v' as u8, 'c' as u8, '1' as u8]);
    compatible_brands.push(['m' as u8, 'p' as u8, '4' as u8, '1' as u8]);
    let config = ContainerConfig {
        major_brand: ['i' as u8, 's' as u8, 'o' as u8, 'm' as u8],
        minor_version: 512,
        compatible_brands,
        timescale: TIMESCALE,
    };
    proof {
        reveal_strlit("isom");
        reveal_strlit("iso2");
        reveal_strlit("avc1");
        reveal_strlit("mp41");
        assert(config@.major_brand =~= "isom"@.map_values(|c: char| c as u8));
        assert(config@.compatible_brands[0] =~= "isom"@.map_values(|c: char| c as u8));
        assert(config@.compatible_brands[1] =~= "iso2"@.map_values(|c: char| c as u8));
        assert(config@.compatible_brands[2] =~= "avc1"@.map_values(|c: char| c as u8));
        assert(config@.compatible_brands[3] =~= "mp41"@.map_values(|c: char| c as u8));
    }
    config
}

/// The model of a configuration shows its fields.
pub proof fn law_config_shows_its_fields(config: ContainerConfig)
    ensures
        config@.major_brand == config.major_brand@,
        config@.minor_version == config.minor_version,
        config@.timescale == config.timescale,
        config@.compatible_brands.len() == config.compatible_brands@.len(),
        forall|i: int|
            0 <= i < config.compatible_brands@.len() ==> #[trigger] config@.compatible_brands[i]
                == config.compatible_brands@[i]@,
{
}

/// The model of a track shows its fields.
pub proof fn law_track_shows_its_fields(track: AvcTrack)
    ensures
        track@.width == track.width,
        track@.height == track.height,
        track@.seq_param_set == track.seq_param_set@,
        track@.pic_param_set == track.pic_param_set@,
{
}

/// The model of a sample shows its fields.
pub proof fn law_sample_shows_its_fields(sample: Sample)
    ensures
        sample@.start_time == sample.start_time,
        sample@.duration == sample.duration,
        sample@.rendering_offset == sample.rendering_offset,
        sample@.is_sync == sample.is_sync,
        sample@.bytes == sample.bytes@,
{
}

} // verus!
