//! NAL units of an H.264 stream.
//!
//! An encoder hands NAL units out in Annex-B form: a start code, then the
//! payload. An MP4 sample holds them length-prefixed: four bytes of length,
//! most significant first, then the payload. The parameter sets do not go into
//! the samples at all: they describe the track.

use vstd::prelude::*;
use vstd::slice::slice_subrange;

verus! {

/// NAL unit type of a sequence parameter set.
pub const NAL_TYPE_SPS: u8 = 7;

/// NAL unit type of a picture parameter set.
pub const NAL_TYPE_PPS: u8 = 8;

/// The four-byte start code.
pub open spec fn long_start_code() -> Seq<u8> {
    seq![0u8, 0u8, 0u8, 1u8]
}

/// The three-byte start code.
pub open spec fn short_start_code() -> Seq<u8> {
    seq![0u8, 0u8, 1u8]
}

/// What stands behind the start code of `nal`, if it begins with one.
pub open spec fn annex_b_payload(nal: Seq<u8>) -> Option<Seq<u8>> {
    if long_start_code().is_prefix_of(nal) {
        Some(nal.skip(4))
    } else if short_start_code().is_prefix_of(nal) {
        Some(nal.skip(3))
    } else {
        None
    }
}

/// The type of a NAL unit: the low five bits of its first byte.
pub open spec fn nal_type(payload: Seq<u8>) -> u8
    recommends
        payload.len() > 0,
{
    payload[0] & 0x1F
}

/// Type and payload of an Annex-B NAL unit. A unit without a start code, and
/// one with nothing behind it, has neither.
pub open spec fn split(nal: Seq<u8>) -> Option<(u8, Seq<u8>)> {
    match annex_b_payload(nal) {
        Some(payload) => if payload.len() > 0 {
            Some((nal_type(payload), payload))
        } else {
            None
        },
        None => None,
    }
}

/// Strips a leading Annex-B start code (`00 00 01` or `00 00 00 01`) off
/// `nal`, returning its NAL unit type and the remaining payload.
pub fn split_annex_b_nal(nal: &[u8]) -> (r: Option<(u8, &[u8])>)
    ensures
        r is Some <==> split(nal@) is Some,
        r matches Some((kind, payload)) ==> split(nal@) == Some((kind, payload@)),
{
    let n: usize = nal.len();
    let payload = if n >= 4 && nal[0] == 0 && nal[1] == 0 && nal[2] == 0 && nal[3] == 1 {
        assert(long_start_code().is_prefix_of(nal@));
        slice_subrange(nal, 4, n)
    } else if n >= 3 && nal[0] == 0 && nal[1] == 0 && nal[2] == 1 {
        assert(short_start_code().is_prefix_of(nal@));
        assert(!long_start_code().is_prefix_of(nal@)) by {
            assert(long_start_code()[2] != nal@[2]);
        }
        slice_subrange(nal, 3, n)
    } else {
        assert(!long_start_code().is_prefix_of(nal@)) by {
            if long_start_code().is_prefix_of(nal@) {
                assert forall|i: int| 0 <= i < 4 implies nal@[i] == long_start_code()[i] by {
                    assert(nal@.subrange(0, 4)[i] == nal@[i]);
                }
            }
        }
        assert(!short_start_code().is_prefix_of(nal@)) by {
            if short_start_code().is_prefix_of(nal@) {
                assert forall|i: int| 0 <= i < 3 implies nal@[i] == short_start_code()[i] by {
                    assert(nal@.subrange(0, 3)[i] == nal@[i]);
                }
            }
        }
        return None;
    };
    if payload.len() == 0 {
        return None;
    }
    Some((payload[0] & 0x1F, payload))
}

/// Prefixing a payload with either start code and splitting the result gives
/// the payload back, with its type.
pub proof fn law_split_undoes_start_code(payload: Seq<u8>)
    requires
        payload.len() > 0,
    ensures
        split(long_start_code() + payload) == Some((nal_type(payload), payload)),
        split(short_start_code() + payload) == Some((nal_type(payload), payload)),
{
    let long = long_start_code() + payload;
    let short = short_start_code() + payload;
    assert(long_start_code().is_prefix_of(long)) by {
        assert(long.subrange(0, 4) =~= long_start_code());
    }
    assert(long.skip(4) =~= payload);
    assert(short_start_code().is_prefix_of(short)) by {
        assert(short.subrange(0, 3) =~= short_start_code());
    }
    assert(!long_start_code().is_prefix_of(short)) by {
        assert(short[2] == 1);
        assert(short.subrange(0, 4)[2] == short[2] || short.len() < 4);
    }
    assert(short.skip(3) =~= payload);
}

/// Nothing is lost in a split: the unit is one of the two start codes with the
/// payload behind it, the payload is not empty, and its type fits in five bits.
pub proof fn law_split_keeps_payload(nal: Seq<u8>)
    requires
        split(nal) is Some,
    ensures
        ({
            let (kind, payload) = split(nal)->0;
            &&& nal == long_start_code() + payload || nal == short_start_code() + payload
            &&& payload.len() > 0
            &&& kind == nal_type(payload)
            &&& kind < 32
        }),
{
    let (kind, payload) = split(nal)->0;
    if long_start_code().is_prefix_of(nal) {
        assert(nal =~= long_start_code() + payload);
    } else {
        assert(nal =~= short_start_code() + payload);
    }
    let first: u8 = payload[0];
    assert(first & 0x1F < 32) by (bit_vector);
}

/// Byte by byte: a unit is split if it begins with 0, 0, 0, 1 or with 0, 0, 1 and
/// goes on behind that. The payload is all that follows, and the type is its
/// first byte modulo 32.
pub proof fn law_split_goes_by_the_bytes(nal: Seq<u8>)
    ensures
        ({
            let long = nal.len() >= 4 && nal[0] == 0 && nal[1] == 0 && nal[2] == 0 && nal[3] == 1;
            let short = nal.len() >= 3 && nal[0] == 0 && nal[1] == 0 && nal[2] == 1;
            let skipped = if long {
                4int
            } else {
                3int
            };
            match split(nal) {
                Some((kind, payload)) => {
                    &&& long || short
                    &&& payload.len() > 0
                    &&& payload.len() == nal.len() - skipped
                    &&& forall|i: int|
                        0 <= i < payload.len() ==> #[trigger] payload[i] == nal[i + skipped]
                    &&& kind as int == nal[skipped] as int % 32
                },
                None => !(long && nal.len() > 4) && !(short && nal.len() > 3),
            }
        }),
{
    let long = nal.len() >= 4 && nal[0] == 0 && nal[1] == 0 && nal[2] == 0 && nal[3] == 1;
    let short = nal.len() >= 3 && nal[0] == 0 && nal[1] == 0 && nal[2] == 1;
    if long {
        assert(nal.subrange(0, 4) =~= long_start_code());
    } else if long_start_code().is_prefix_of(nal) {
        assert(nal.subrange(0, 4)[0] == nal[0] && nal.subrange(0, 4)[1] == nal[1]);
        assert(nal.subrange(0, 4)[2] == nal[2] && nal.subrange(0, 4)[3] == nal[3]);
    }
    if short {
        assert(nal.subrange(0, 3) =~= short_start_code());
    } else if short_start_code().is_prefix_of(nal) {
        assert(nal.subrange(0, 3)[0] == nal[0] && nal.subrange(0, 3)[1] == nal[1]);
        assert(nal.subrange(0, 3)[2] == nal[2]);
    }
    if split(nal) is Some {
        let first: u8 = (split(nal)->0).1[0];
        assert(first & 0x1F == first % 32) by (bit_vector);
    }
}

} // verus!
