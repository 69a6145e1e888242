use prtsc::format::{
    format_offer, pixel_layout, settle_format, MediaSubtype, MediaType, StreamParam, VideoFormat,
    VideoInfo,
};
use prtsc::pixels::PixelLayout;

fn param(format: VideoFormat) -> StreamParam {
    StreamParam {
        is_format: true,
        media: Some((MediaType::Video, MediaSubtype::Raw)),
        video: Some(VideoInfo { format, width: 640, height: 480 }),
    }
}

#[test]
fn settles_each_usable_format() {
    for (format, layout) in [
        (VideoFormat::Bgrx, PixelLayout::Bgra),
        (VideoFormat::Bgra, PixelLayout::Bgra),
        (VideoFormat::Rgbx, PixelLayout::Rgba),
        (VideoFormat::Rgba, PixelLayout::Rgba),
    ] {
        assert_eq!(pixel_layout(format), Some(layout));
        assert_eq!(settle_format(Some(param(format))), Some((layout, 640, 480)));
    }
}

#[test]
fn settles_nothing_otherwise() {
    let good = param(VideoFormat::Bgra);
    assert_eq!(pixel_layout(VideoFormat::Other), None);
    assert_eq!(settle_format(None), None);
    assert_eq!(settle_format(Some(param(VideoFormat::Other))), None);
    assert_eq!(settle_format(Some(StreamParam { is_format: false, ..good })), None);
    assert_eq!(settle_format(Some(StreamParam { media: None, ..good })), None);
    assert_eq!(settle_format(Some(StreamParam { video: None, ..good })), None);
    let audio = Some((MediaType::Other, MediaSubtype::Raw));
    assert_eq!(settle_format(Some(StreamParam { media: audio, ..good })), None);
    let coded = Some((MediaType::Video, MediaSubtype::Other));
    assert_eq!(settle_format(Some(StreamParam { media: coded, ..good })), None);
}

#[test]
fn offers_all_usable_formats_at_the_reported_size() {
    let offer = format_offer((1920, 1080));
    assert_eq!(offer.media_type, MediaType::Video);
    assert_eq!(offer.media_subtype, MediaSubtype::Raw);
    assert_eq!(offer.default_format, VideoFormat::Bgrx);
    assert_eq!(
        offer.formats,
        vec![VideoFormat::Bgrx, VideoFormat::Bgra, VideoFormat::Rgbx, VideoFormat::Rgba]
    );
    assert_eq!((offer.width, offer.height), (1920, 1080));
}

#[test]
fn offers_at_least_one_pixel() {
    let offer = format_offer((0, -5));
    assert_eq!((offer.width, offer.height), (1, 1));
    let offer = format_offer((i32::MAX, 1));
    assert_eq!((offer.width, offer.height), (2147483647, 1));
}

#[test]
fn every_offered_format_can_be_taken_up() {
    let offer = format_offer((8, 6));
    for format in offer.formats {
        let answer = StreamParam {
            is_format: true,
            media: Some((offer.media_type, offer.media_subtype)),
            video: Some(VideoInfo { format, width: offer.width, height: offer.height }),
        };
        let (layout, width, height) = settle_format(Some(answer)).expect("usable");
        assert_eq!(Some(layout), pixel_layout(format));
        assert_eq!((width, height), (8, 6));
    }
}
