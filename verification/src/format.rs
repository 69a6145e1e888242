//! Negotiating the pixel format of the stream.
//!
//! The recorder offers the formats that the encoder takes as they are, at the
//! size that the compositor reported. The compositor answers with the format
//! that the frames will have.

use crate::pixels::PixelLayout;
use vstd::prelude::*;

verus! {

/// Pixel formats of a video stream, as far as the recorder tells them apart.
#[derive(Clone, Copy, PartialEq, Eq, Structural, Debug)]
pub enum VideoFormat {
    Bgrx,
    Bgra,
    Rgbx,
    Rgba,
    Other,
}

/// Media types, as far as the recorder tells them apart.
#[derive(Clone, Copy, PartialEq, Eq, Structural, Debug)]
pub enum MediaType {
    Video,
    Other,
}

/// Media subtypes, as far as the recorder tells them apart.
#[derive(Clone, Copy, PartialEq, Eq, Structural, Debug)]
pub enum MediaSubtype {
    Raw,
    Other,
}

/// Format and size of raw video.
#[derive(Clone, Copy, PartialEq, Eq, Structural, Debug)]
pub struct VideoInfo {
    pub format: VideoFormat,
    pub width: u32,
    pub height: u32,
}

/// A parameter of the stream that has changed.
#[derive(Clone, Copy, Debug)]
pub struct StreamParam {
    /// Whether the parameter is the stream's format.
    pub is_format: bool,
    /// Media type and subtype, if they could be read.
    pub media: Option<(MediaType, MediaSubtype)>,
    /// The video format, if it could be read.
    pub video: Option<VideoInfo>,
}

/// The formats that the recorder offers.
pub struct FormatOffer {
    pub media_type: MediaType,
    pub media_subtype: MediaSubtype,
    /// The format that is preferred.
    pub default_format: VideoFormat,
    /// All formats to choose from.
    pub formats: Vec<VideoFormat>,
    pub width: u32,
    pub height: u32,
}

/// The layout of the pixels of a format, if the encoder takes it.
pub open spec fn layout_of(format: VideoFormat) -> Option<PixelLayout> {
    match format {
        VideoFormat::Bgra | VideoFormat::Bgrx => Some(PixelLayout::Bgra),
        VideoFormat::Rgba | VideoFormat::Rgbx => Some(PixelLayout::Rgba),
        VideoFormat::Other => None,
    }
}

/// What a changed parameter settles: layout, width and height of the frames to
/// come. Only the format of a raw video stream, in one of the usable pixel
/// formats, settles anything.
pub open spec fn settled(param: Option<StreamParam>) -> Option<(PixelLayout, u32, u32)> {
    match param {
        Some(
            StreamParam {
                is_format: true,
                media: Some((MediaType::Video, MediaSubtype::Raw)),
                video: Some(info),
            },
        ) => match layout_of(info.format) {
            Some(layout) => Some((layout, info.width, info.height)),
            None => None,
        },
        _ => None,
    }
}

/// `value`, or 1 if it is smaller.
pub open spec fn at_least_one(value: i32) -> u32 {
    if value < 1 {
        1
    } else {
        value as u32
    }
}

/// Whether `offer` is what is offered for a stream of the reported size.
pub open spec fn offers(offer: FormatOffer, size: (i32, i32)) -> bool {
    &&& offer.media_type == MediaType::Video
    &&& offer.media_subtype == MediaSubtype::Raw
    &&& offer.default_format == VideoFormat::Bgrx
    &&& offer.formats@ == seq![
        VideoFormat::Bgrx,
        VideoFormat::Bgra,
        VideoFormat::Rgbx,
        VideoFormat::Rgba,
    ]
    &&& offer.width == at_least_one(size.0)
    &&& offer.height == at_least_one(size.1)
}

/// The parameter with which the compositor takes up format `i` of an offer.
pub open spec fn answer(offer: FormatOffer, i: int) -> StreamParam {
    StreamParam {
        is_format: true,
        media: Some((offer.media_type, offer.media_subtype)),
        video: Some(
            VideoInfo { format: offer.formats@[i], width: offer.width, height: offer.height },
        ),
    }
}

/// Whichever of the offered formats the compositor takes up, it settles a
/// layout that the encoder takes, at the size that was offered.
pub proof fn law_offered_formats_are_usable(offer: FormatOffer, size: (i32, i32), i: int)
    requires
        offers(offer, size),
        0 <= i < offer.formats@.len(),
    ensures
        layout_of(offer.formats@[i]) is Some,
        settled(Some(answer(offer, i))) == Some(
            (layout_of(offer.formats@[i])->0, at_least_one(size.0), at_least_one(size.1)),
        ),
{
}

/// The offer leaves no usable format out, holds no other, and its preferred
/// format is one of them.
pub proof fn law_offer_is_complete(offer: FormatOffer, size: (i32, i32), format: VideoFormat)
    requires
        offers(offer, size),
    ensures
        offer.formats@.contains(format) <==> layout_of(format) is Some,
        offer.formats@.contains(offer.default_format),
{
    assert(offer.formats@[0] == VideoFormat::Bgrx);
    assert(offer.formats@[1] == VideoFormat::Bgra);
    assert(offer.formats@[2] == VideoFormat::Rgbx);
    assert(offer.formats@[3] == VideoFormat::Rgba);
}

/// The layout of the pixels of a format, if the encoder takes it.
pub fn pixel_layout(format: VideoFormat) -> (layout: Option<PixelLayout>)
    ensures
        layout == layout_of(format),
{
    match format {
        VideoFormat::Bgra | VideoFormat::Bgrx => Some(PixelLayout::Bgra),
        VideoFormat::Rgba | VideoFormat::Rgbx => Some(PixelLayout::Rgba),
        VideoFormat::Other => None,
    }
}

/// Layout, width and height that a changed parameter settles, if it does.
pub fn settle_format(param: Option<StreamParam>) -> (r: Option<(PixelLayout, u32, u32)>)
    ensures
        r == settled(param),
{
    let param = match param {
        Some(param) => param,
        None => return None,
    };
    if !param.is_format {
        return None;
    }
    match param.media {
        Some((media_type, media_subtype)) => {
            if media_type != MediaType::Video || media_subtype != MediaSubtype::Raw {
                return None;
            }
        },
        None => return None,
    }
    match param.video {
        Some(info) => match pixel_layout(info.format) {
            Some(layout) => Some((layout, info.width, info.height)),
            None => None,
        },
        None => None,
    }
}

/// The formats to offer for a stream of the reported size: those whose pixel
/// layouts the encoder consumes directly, fixed at that size. A size without
/// pixels is offered as one pixel.
pub fn format_offer(size: (i32, i32)) -> (offer: FormatOffer)
    ensures
        offers(offer, size),
{
    let mut formats: Vec<VideoFormat> = Vec::new();
    formats.push(VideoFormat::Bgrx);
    formats.push(VideoFormat::Bgra);
    formats.push(VideoFormat::Rgbx);
    formats.push(VideoFormat::Rgba);
    assert(formats@ =~= seq![
        VideoFormat::Bgrx,
        VideoFormat::Bgra,
        VideoFormat::Rgbx,
        VideoFormat::Rgba,
    ]);
    FormatOffer {
        media_type: MediaType::Video,
        media_subtype: MediaSubtype::Raw,
        default_format: VideoFormat::Bgrx,
        formats,
        width: if size.0 < 1 { 1 } else { size.0 as u32 },
        height: if size.1 < 1 { 1 } else { size.1 as u32 },
    }
}

/// Field by field: a parameter settles something exactly if it is the format of
/// raw video in one of the four usable pixel formats. Width and height are those
/// of the format, and the layout is by which colour comes first.
pub proof fn law_settled_goes_by_the_fields(param: StreamParam)
    ensures
        settled(Some(param)) is Some <==> {
            &&& param.is_format
            &&& param.media == Some((MediaType::Video, MediaSubtype::Raw))
            &&& param.video is Some
            &&& param.video->0.format != VideoFormat::Other
        },
        settled(Some(param)) matches Some((layout, width, height)) ==> {
            let info = param.video->0;
            &&& width == info.width
            &&& height == info.height
            &&& layout == PixelLayout::Bgra <==> info.format == VideoFormat::Bgra || info.format
                == VideoFormat::Bgrx
            &&& layout == PixelLayout::Rgba <==> info.format == VideoFormat::Rgba || info.format
                == VideoFormat::Rgbx
        },
        settled(None) is None,
{
}

/// Field by field: what is offered is raw video in the four usable pixel formats,
/// the first of them preferred, at the reported width and height, or one where
/// nothing positive was reported.
pub proof fn law_offer_goes_by_the_size(offer: FormatOffer, size: (i32, i32))
    requires
        offers(offer, size),
    ensures
        offer.media_type == MediaType::Video,
        offer.media_subtype == MediaSubtype::Raw,
        offer.formats@.len() == 4,
        offer.formats@[0] == VideoFormat::Bgrx,
        offer.formats@[1] == VideoFormat::Bgra,
        offer.formats@[2] == VideoFormat::Rgbx,
        offer.formats@[3] == VideoFormat::Rgba,
        offer.default_format == VideoFormat::Bgrx,
        size.0 >= 1 ==> offer.width == size.0,
        size.0 < 1 ==> offer.width == 1,
        size.1 >= 1 ==> offer.height == size.1,
        size.1 < 1 ==> offer.height == 1,
{
}

/// The layout of a pixel format is by which colour comes first; other formats
/// have none.
pub proof fn law_layout_goes_by_the_first_colour(format: VideoFormat)
    ensures
        layout_of(format) == Some(PixelLayout::Bgra) <==> format == VideoFormat::Bgra || format
            == VideoFormat::Bgrx,
        layout_of(format) == Some(PixelLayout::Rgba) <==> format == VideoFormat::Rgba || format
            == VideoFormat::Rgbx,
        layout_of(format) is None <==> format == VideoFormat::Other,
{
}

} // verus!
