//! The H.264 encoder.
//!
//! The encoder itself is the `openh264` crate. Its types are opaque here: what
//! the recorder relies on is stated over the names below, at the functions
//! that make the calls.

use crate::access_unit::{access_unit, law_units_accumulate, AccessUnit, AccessUnitView};
use crate::pixels::PixelLayout;
use openh264::encoder::{EncodedBitStream, Encoder, EncoderConfig, FrameType, Layer};
use openh264::formats::{BgraSliceU8, RgbaSliceU8, YUVBuffer};
use openh264::OpenH264API;
use vstd::prelude::*;

verus! {

/// An `openh264` encoder.
#[verifier::external_type_specification]
#[verifier::external_body]
pub struct ExEncoder(Encoder);

/// A picture in planar YUV 4:2:0.
#[verifier::external_type_specification]
#[verifier::external_body]
pub struct ExYuvBuffer(YUVBuffer);

/// What `openh264` reports when it fails.
#[verifier::external_type_specification]
#[verifier::external_body]
pub struct ExCodecError(openh264::Error);

/// The outcome of encoding one picture.
#[verifier::external_type_specification]
#[verifier::external_body]
pub struct ExEncodedBitStream<'a>(EncodedBitStream<'a>);

/// One layer of an encoded picture.
#[verifier::external_type_specification]
#[verifier::external_body]
pub struct ExLayer<'a>(Layer<'a>);

/// What the encoder made of a frame.
#[derive(Clone, Copy, PartialEq, Eq, Structural, Debug)]
pub enum FrameKind {
    /// The encoder was not ready, or its parameters were invalid.
    Invalid,
    /// An instantaneous decoder refresh: decoding can start here.
    Idr,
    /// An intra frame.
    I,
    /// A predicted frame.
    P,
    /// The encoder skipped the frame.
    Skip,
    /// Intra and predicted slices mixed.
    IpMixed,
}

/// A picture as the encoder receives it: its size in pixels, and the bytes of
/// the Y, U and V planes one behind the other.
pub struct Picture {
    pub width: nat,
    pub height: nat,
    pub planes: Seq<u8>,
}

/// A picture that was encoded: the NAL units that came out, layer by layer, and
/// what the encoder made of the picture.
pub struct Encoding {
    pub picture: Picture,
    pub layers: Seq<Seq<Seq<u8>>>,
    pub kind: FrameKind,
}

/// A picture that the encoder failed to encode, and the error that it reported.
pub struct Failure {
    pub picture: Picture,
    pub error: openh264::Error,
}

impl Encoding {
    /// What the encoded picture contributes to the recording.
    pub open spec fn unit(self) -> AccessUnitView {
        access_unit(self.layers.flatten())
    }
}

/// The bytes that a YUV buffer holds.
pub uninterp spec fn yuv_planes(buffer: YUVBuffer) -> Seq<u8>;

/// Width and height, in pixels, that a YUV buffer was made with.
pub uninterp spec fn yuv_size(buffer: YUVBuffer) -> (nat, nat);

/// The planes that `YUVBuffer::from_bgra8_source` makes of `width` times
/// `height` pixels of four bytes each.
pub uninterp spec fn i420_from_bgra(pixels: Seq<u8>, width: nat, height: nat) -> Seq<u8>;

/// The planes that `YUVBuffer::from_rgba8_source` makes of `width` times
/// `height` pixels of four bytes each.
pub uninterp spec fn i420_from_rgba(pixels: Seq<u8>, width: nat, height: nat) -> Seq<u8>;

/// The pictures that an encoder has encoded, oldest first, each with what it
/// gave out for it.
pub uninterp spec fn encodings_of(encoder: Encoder) -> Seq<Encoding>;

/// The pictures that an encoder has failed to encode, oldest first, each with
/// the error that it reported.
pub uninterp spec fn failures_of(encoder: Encoder) -> Seq<Failure>;

/// The NAL units of an encoded picture, layer by layer.
pub uninterp spec fn bitstream_layers(bitstream: EncodedBitStream<'_>) -> Seq<Seq<Seq<u8>>>;

/// What the encoder made of the picture that `bitstream` encodes.
pub uninterp spec fn bitstream_kind(bitstream: EncodedBitStream<'_>) -> FrameKind;

/// The NAL units of a layer.
pub uninterp spec fn layer_nals(layer: Layer<'_>) -> Seq<Seq<u8>>;

/// The picture that a YUV buffer holds.
pub open spec fn picture_of(buffer: YUVBuffer) -> Picture {
    Picture { width: yuv_size(buffer).0, height: yuv_size(buffer).1, planes: yuv_planes(buffer) }
}

/// The picture that tightly packed pixels of the given layout show.
pub open spec fn converted(
    layout: PixelLayout,
    pixels: Seq<u8>,
    width: nat,
    height: nat,
) -> Picture {
    Picture {
        width,
        height,
        planes: match layout {
            PixelLayout::Bgra => i420_from_bgra(pixels, width, height),
            PixelLayout::Rgba => i420_from_rgba(pixels, width, height),
        },
    }
}

/// Calls `Encoder::with_api_config` with the built-in library and the default
/// configuration. Taken on trust: a new encoder has encoded nothing and failed at
/// nothing. Whether the call succeeds is up to the native library.
#[verifier::external_body]
pub(crate) fn new_encoder() -> (r: Result<Encoder, openh264::Error>)
    ensures
        r matches Ok(encoder) ==> {
            &&& encodings_of(encoder) == Seq::<Encoding>::empty()
            &&& failures_of(encoder) == Seq::<Failure>::empty()
        },
{
    Encoder::with_api_config(OpenH264API::from_source(), EncoderConfig::new())
}

/// Calls `YUVBuffer::from_bgra8_source` on a `BgraSliceU8` of `pixels`. Taken
/// on trust: the planes depend on the pixels and the size alone, and the
/// buffer has that size. The call panics unless both dimensions are even and
/// there are four bytes for each pixel; an empty picture of great width or
/// height is left out, since it may panic there too, or go through all rows.
#[verifier::external_body]
pub(crate) fn yuv_from_bgra(pixels: &[u8], width: usize, height: usize) -> (buffer: YUVBuffer)
    requires
        pixels@.len() == width * height * 4,
        width > 0,
        height > 0,
        width % 2 == 0,
        height % 2 == 0,
    ensures
        yuv_planes(buffer) == i420_from_bgra(pixels@, width as nat, height as nat),
        yuv_size(buffer) == (width as nat, height as nat),
{
    YUVBuffer::from_bgra8_source(BgraSliceU8::new(pixels, (width, height)))
}

/// Calls `YUVBuffer::from_rgba8_source` on an `RgbaSliceU8` of `pixels`. Taken
/// on trust: the planes depend on the pixels and the size alone, and the
/// buffer has that size. The call panics unless both dimensions are even and
/// there are four bytes for each pixel; an empty picture of great width or
/// height is left out, since it may panic there too, or go through all rows.
#[verifier::external_body]
pub(crate) fn yuv_from_rgba(pixels: &[u8], width: usize, height: usize) -> (buffer: YUVBuffer)
    requires
        pixels@.len() == width * height * 4,
        width > 0,
        height > 0,
        width % 2 == 0,
        height % 2 == 0,
    ensures
        yuv_planes(buffer) == i420_from_rgba(pixels@, width as nat, height as nat),
        yuv_size(buffer) == (width as nat, height as nat),
{
    YUVBuffer::from_rgba8_source(RgbaSliceU8::new(pixels, (width, height)))
}

/// Calls `Encoder::encode`. Taken on trust: where it succeeds, the encoder has
/// encoded this picture behind the earlier ones, and the bitstream is what it
/// gave out; where it fails, it has encoded nothing, and has failed at this
/// picture with the error that is returned. Which bits come out, and
/// whether any do, is not stated: that is the native library's doing, which
/// keeps its own state and fits its threads to the machine.
#[verifier::external_body]
pub(crate) fn encode<'a>(encoder: &'a mut Encoder, picture: &YUVBuffer) -> (r: Result<
    EncodedBitStream<'a>,
    openh264::Error,
>)
    ensures
        r matches Ok(bitstream) ==> encodings_of(*final(encoder)) == encodings_of(
            *old(encoder),
        ).push(
            (Encoding {
                picture: picture_of(*picture),
                layers: bitstream_layers(bitstream),
                kind: bitstream_kind(bitstream),
            }),
        ),
        r is Ok ==> failures_of(*final(encoder)) == failures_of(*old(encoder)),
        r matches Err(error) ==> {
            &&& encodings_of(*final(encoder)) == encodings_of(*old(encoder))
            &&& failures_of(*final(encoder)) == failures_of(*old(encoder)).push(
                (Failure { picture: picture_of(*picture), error }),
            )
        },
{
    encoder.encode(picture)
}

/// `EncodedBitStream::num_layers`. Taken on trust: it is the number of layers.
pub assume_specification<'a>[ EncodedBitStream::<'a>::num_layers ](
    bitstream: &EncodedBitStream<'a>,
) -> (count: usize)
    ensures
        count == bitstream_layers(*bitstream).len(),
;

/// `EncodedBitStream::layer`. Taken on trust: below the number of layers it
/// gives the layer at that place, from there on nothing.
pub assume_specification<'a>[ EncodedBitStream::<'a>::layer ](
    bitstream: &EncodedBitStream<'a>,
    i: usize,
) -> (r: Option<Layer<'a>>)
    ensures
        r is Some <==> i < bitstream_layers(*bitstream).len(),
        r matches Some(layer) ==> layer_nals(layer) == bitstream_layers(*bitstream)[i as int],
;

/// `Layer::nal_count`. Taken on trust: it is the number of the layer's NAL
/// units.
pub assume_specification<'a>[ Layer::<'a>::nal_count ](layer: &Layer<'a>) -> (count: usize)
    ensures
        count == layer_nals(*layer).len(),
;

/// `Layer::nal_unit`. Taken on trust: below the number of NAL units it gives
/// the bytes of the unit at that place, from there on nothing.
pub assume_specification<'a, 'b>[ Layer::<'a>::nal_unit ](layer: &'b Layer<'a>, i: usize) -> (r:
    Option<&'b [u8]>)
    ensures
        r is Some <==> i < layer_nals(*layer).len(),
        r matches Some(nal) ==> nal@ == layer_nals(*layer)[i as int],
;

/// Calls `EncodedBitStream::frame_type`. Taken on trust: it is a property of
/// the bitstream, one of the six below.
#[verifier::external_body]
pub(crate) fn frame_kind(bitstream: &EncodedBitStream<'_>) -> (kind: FrameKind)
    ensures
        kind == bitstream_kind(*bitstream),
{
    match bitstream.frame_type() {
        FrameType::Invalid => FrameKind::Invalid,
        FrameType::IDR => FrameKind::Idr,
        FrameType::I => FrameKind::I,
        FrameType::P => FrameKind::P,
        FrameType::Skip => FrameKind::Skip,
        FrameType::IPMixed => FrameKind::IpMixed,
    }
}

/// Converts tightly packed pixels to planar YUV, as their layout demands.
pub(crate) fn to_yuv(layout: PixelLayout, pixels: &[u8], width: usize, height: usize) -> (buffer:
    YUVBuffer)
    requires
        pixels@.len() == width * height * 4,
        width > 0,
        height > 0,
        width % 2 == 0,
        height % 2 == 0,
    ensures
        picture_of(buffer) == converted(layout, pixels@, width as nat, height as nat),
{
    match layout {
        PixelLayout::Bgra => yuv_from_bgra(pixels, width, height),
        PixelLayout::Rgba => yuv_from_rgba(pixels, width, height),
    }
}

/// An encoded frame: its sorted NAL units, and what the encoder made of it.
pub struct EncodedFrame {
    pub unit: AccessUnit,
    pub kind: FrameKind,
}

/// Sorts the NAL units of all layers of an encoded picture.
pub fn read_bitstream(bitstream: &EncodedBitStream<'_>) -> (frame: EncodedFrame)
    ensures
        frame.unit@ == access_unit(bitstream_layers(*bitstream).flatten()),
        frame.kind == bitstream_kind(*bitstream),
{
    let ghost layers = bitstream_layers(*bitstream);
    let mut unit = AccessUnit::new();
    let count: usize = bitstream.num_layers();
    let mut l: usize = 0;
    assert(layers.take(0).flatten() =~= Seq::<Seq<u8>>::empty());
    while l < count
        invariant
            l <= count,
            layers == bitstream_layers(*bitstream),
            count == layers.len(),
            unit@ == access_unit(layers.take(l as int).flatten()),
        decreases count - l,
    {
        let ghost done = layers.take(l as int).flatten();
        if let Some(layer) = bitstream.layer(l) {
            let ghost nals = layer_nals(layer);
            let nal_count: usize = layer.nal_count();
            let mut n: usize = 0;
            assert(done + nals.take(0) =~= done);
            while n < nal_count
                invariant
                    n <= nal_count,
                    nals == layer_nals(layer),
                    nal_count == nals.len(),
                    unit@ == access_unit(done + nals.take(n as int)),
                decreases nal_count - n,
            {
                if let Some(nal) = layer.nal_unit(n) {
                    unit.push_nal(nal);
                }
                proof {
                    let before = done + nals.take(n as int);
                    law_units_accumulate(before, nals[n as int]);
                    assert(before.push(nals[n as int]) =~= done + nals.take(n + 1));
                }
                n += 1;
            }
            proof {
                assert(nals.take(nal_count as int) =~= nals);
                layers.take(l as int).lemma_flatten_push(nals);
                assert(layers.take(l as int).push(nals) =~= layers.take(l + 1));
            }
        }
        l += 1;
    }
    assert(layers.take(count as int) =~= layers);
    EncodedFrame { unit, kind: frame_kind(bitstream) }
}

/// Every NAL unit of every layer is taken in, in order: one more at the end of
/// the last layer, or in a layer of its own, is one more for the frame.
pub proof fn law_every_unit_is_taken_in(encoding: Encoding, last: Seq<Seq<u8>>, nal: Seq<u8>)
    ensures
        ({
            let before = Encoding { layers: encoding.layers.push(last), ..encoding };
            let after = Encoding { layers: encoding.layers.push(last.push(nal)), ..encoding };
            after.unit() == before.unit().with_nal(nal)
        }),
        ({
            let after = Encoding { layers: encoding.layers.push(Seq::empty()), ..encoding };
            after.unit() == encoding.unit()
        }),
        encoding.layers.len() == 0 ==> encoding.unit() == access_unit(Seq::empty()),
{
    let done = encoding.layers.flatten();
    encoding.layers.lemma_flatten_push(last);
    encoding.layers.lemma_flatten_push(last.push(nal));
    encoding.layers.lemma_flatten_push(Seq::empty());
    assert(done + last.push(nal) =~= (done + last).push(nal));
    assert(done + Seq::<Seq<u8>>::empty() =~= done);
    law_units_accumulate(done + last, nal);
    if encoding.layers.len() == 0 {
        assert(done =~= Seq::<Seq<u8>>::empty());
    }
}

/// The picture of a buffer shows the buffer's size and bytes.
pub proof fn law_picture_shows_the_buffer(buffer: YUVBuffer)
    ensures
        picture_of(buffer).width == yuv_size(buffer).0,
        picture_of(buffer).height == yuv_size(buffer).1,
        picture_of(buffer).planes == yuv_planes(buffer),
{
}

} // verus!
