//! What one encoded frame contributes to the recording.
//!
//! The NAL units of a frame are sorted into the two kinds of parameter sets,
//! which describe the track, and the rest, which becomes the frame's sample.

use crate::nal::{split_annex_b_nal, NAL_TYPE_PPS, NAL_TYPE_SPS};
use vstd::prelude::*;
use vstd::slice::slice_to_vec;

verus! {

/// The parameter sets and the sample bytes found in the NAL units of a frame.
pub struct AccessUnit {
    /// The last sequence parameter set, if there was one.
    pub sps: Option<Vec<u8>>,
    /// The last picture parameter set, if there was one.
    pub pps: Option<Vec<u8>>,
    /// All other NAL units, length-prefixed.
    pub sample: Vec<u8>,
}

/// [`AccessUnit`] as mathematical values.
#[verifier::ext_equal]
pub struct AccessUnitView {
    pub sps: Option<Seq<u8>>,
    pub pps: Option<Seq<u8>>,
    pub sample: Seq<u8>,
}

impl View for AccessUnit {
    type V = AccessUnitView;

    open spec fn view(&self) -> AccessUnitView {
        AccessUnitView {
            sps: match self.sps {
                Some(sps) => Some(sps@),
                None => None,
            },
            pps: match self.pps {
                Some(pps) => Some(pps@),
                None => None,
            },
            sample: self.sample@,
        }
    }
}

/// The four bytes of `n`, most significant first.
pub open spec fn big_endian(n: u32) -> Seq<u8> {
    seq![
        (n / 0x100_0000) as u8,
        (n / 0x1_0000 % 0x100) as u8,
        (n / 0x100 % 0x100) as u8,
        (n % 0x100) as u8,
    ]
}

/// The length that is written in front of a unit of `len` bytes: its low 32
/// bits.
pub open spec fn prefix_of_length(len: nat) -> u32 {
    (len % 0x1_0000_0000) as u32
}

/// `payload` with its length in front.
pub open spec fn length_prefixed(payload: Seq<u8>) -> Seq<u8> {
    big_endian(prefix_of_length(payload.len())) + payload
}

/// The length-prefixed payloads, one behind the other.
pub open spec fn sample_of(payloads: Seq<Seq<u8>>) -> Seq<u8>
    decreases payloads.len(),
{
    if payloads.len() == 0 {
        Seq::empty()
    } else {
        sample_of(payloads.drop_last()) + length_prefixed(payloads.last())
    }
}

/// The payloads of those units that begin with a start code and hold
/// something behind it.
pub open spec fn payloads_of(nals: Seq<Seq<u8>>) -> Seq<Seq<u8>>
    decreases nals.len(),
{
    if nals.len() == 0 {
        Seq::empty()
    } else {
        match crate::nal::split(nals.last()) {
            Some((_, payload)) => payloads_of(nals.drop_last()).push(payload),
            None => payloads_of(nals.drop_last()),
        }
    }
}

/// The last payload of the given type.
pub open spec fn last_of_type(payloads: Seq<Seq<u8>>, kind: u8) -> Option<Seq<u8>>
    decreases payloads.len(),
{
    if payloads.len() == 0 {
        None
    } else if crate::nal::nal_type(payloads.last()) == kind {
        Some(payloads.last())
    } else {
        last_of_type(payloads.drop_last(), kind)
    }
}

/// Whether a payload is one of the two kinds of parameter sets.
pub open spec fn is_parameter_set(payload: Seq<u8>) -> bool {
    crate::nal::nal_type(payload) == NAL_TYPE_SPS || crate::nal::nal_type(payload) == NAL_TYPE_PPS
}

/// The payloads that go into the sample: those that are no parameter sets, in
/// order.
pub open spec fn sample_units(payloads: Seq<Seq<u8>>) -> Seq<Seq<u8>> {
    payloads.filter(|payload: Seq<u8>| !is_parameter_set(payload))
}

/// What the NAL units `nals` of one frame contribute.
pub open spec fn access_unit(nals: Seq<Seq<u8>>) -> AccessUnitView {
    AccessUnitView {
        sps: last_of_type(payloads_of(nals), NAL_TYPE_SPS),
        pps: last_of_type(payloads_of(nals), NAL_TYPE_PPS),
        sample: sample_of(sample_units(payloads_of(nals))),
    }
}

impl AccessUnitView {
    /// This unit with one more NAL unit taken in.
    pub open spec fn with_nal(self, nal: Seq<u8>) -> AccessUnitView {
        match crate::nal::split(nal) {
            Some((kind, payload)) => if kind == NAL_TYPE_SPS {
                AccessUnitView { sps: Some(payload), ..self }
            } else if kind == NAL_TYPE_PPS {
                AccessUnitView { pps: Some(payload), ..self }
            } else {
                AccessUnitView { sample: self.sample + length_prefixed(payload), ..self }
            },
            None => self,
        }
    }
}

/// Taking in the units of a frame one by one gives what the whole frame
/// contributes.
pub proof fn law_units_accumulate(nals: Seq<Seq<u8>>, nal: Seq<u8>)
    ensures
        access_unit(nals.push(nal)) == access_unit(nals).with_nal(nal),
{
    assert(nals.push(nal).drop_last() =~= nals);
    match crate::nal::split(nal) {
        Some((_, payload)) => {
            let before = payloads_of(nals);
            assert(before.push(payload).drop_last() =~= before);
            let keep = |p: Seq<u8>| !is_parameter_set(p);
            reveal(Seq::filter);
            if !is_parameter_set(payload) {
                assert(before.push(payload).filter(keep) == before.filter(keep).push(payload));
                assert(before.filter(keep).push(payload).drop_last() =~= before.filter(keep));
            }
        },
        None => {},
    }
}

/// The number that the first four bytes spell, most significant first.
pub open spec fn big_endian_value(bytes: Seq<u8>) -> nat
    recommends
        bytes.len() >= 4,
{
    (bytes[0] * 0x100_0000 + bytes[1] * 0x1_0000 + bytes[2] * 0x100 + bytes[3]) as nat
}

/// A sample as a player reads it: a length, that many bytes, the next length,
/// and so on to the end. `None` where the last unit is cut short.
pub open spec fn read_sample(bytes: Seq<u8>) -> Option<Seq<Seq<u8>>>
    decreases bytes.len(),
{
    if bytes.len() == 0 {
        Some(Seq::empty())
    } else if bytes.len() < 4 || bytes.len() < 4 + big_endian_value(bytes) {
        None
    } else {
        let end = 4 + big_endian_value(bytes);
        match read_sample(bytes.skip(end as int)) {
            Some(rest) => Some(seq![bytes.subrange(4, end as int)] + rest),
            None => None,
        }
    }
}

proof fn lemma_sample_of_first(first: Seq<u8>, rest: Seq<Seq<u8>>)
    ensures
        sample_of(seq![first] + rest) == length_prefixed(first) + sample_of(rest),
    decreases rest.len(),
{
    let all = seq![first] + rest;
    if rest.len() == 0 {
        assert(all =~= seq![first]);
        assert(all.drop_last() =~= Seq::<Seq<u8>>::empty());
        assert(sample_of(all.drop_last()) =~= Seq::<u8>::empty());
        assert(sample_of(all) =~= length_prefixed(first) + sample_of(rest));
    } else {
        assert(all.drop_last() =~= seq![first] + rest.drop_last());
        lemma_sample_of_first(first, rest.drop_last());
        assert(all.last() == rest.last());
        assert(sample_of(all) =~= length_prefixed(first) + sample_of(rest));
    }
}

/// A player reads back exactly the payloads that a sample was made of, as long
/// as each is short enough for its length to fit in the four bytes.
pub proof fn law_sample_reads_back(payloads: Seq<Seq<u8>>)
    requires
        forall|i: int| 0 <= i < payloads.len() ==> (#[trigger] payloads[i]).len() < 0x1_0000_0000,
    ensures
        read_sample(sample_of(payloads)) == Some(payloads),
    decreases payloads.len(),
{
    if payloads.len() > 0 {
        let first = payloads[0];
        let rest = payloads.drop_first();
        assert(payloads =~= seq![first] + rest);
        lemma_sample_of_first(first, rest);
        let bytes = sample_of(payloads);
        let n = prefix_of_length(first.len());
        assert(bytes[0] == (n / 0x100_0000) as u8);
        assert(bytes[1] == (n / 0x1_0000 % 0x100) as u8);
        assert(bytes[2] == (n / 0x100 % 0x100) as u8);
        assert(bytes[3] == (n % 0x100) as u8);
        assert(big_endian_value(bytes) == first.len());
        let end = 4 + first.len();
        assert(bytes.subrange(4, end as int) =~= first);
        assert(bytes.skip(end as int) =~= sample_of(rest));
        assert forall|i: int| 0 <= i < rest.len() implies (#[trigger] rest[i]).len()
            < 0x1_0000_0000 by {
            assert(rest[i] == payloads[i + 1]);
        }
        law_sample_reads_back(rest);
    }
}

/// What a player reads out of the sample of a frame is the frame's payloads
/// without the parameter sets, in the order in which the encoder gave them.
pub proof fn law_sample_holds_sample_units(nals: Seq<Seq<u8>>)
    requires
        forall|i: int| 0 <= i < nals.len() ==> (#[trigger] nals[i]).len() < 0x1_0000_0000,
    ensures
        read_sample(access_unit(nals).sample) == Some(sample_units(payloads_of(nals))),
{
    let payloads = payloads_of(nals);
    lemma_payload_lengths(nals);
    let keep = |payload: Seq<u8>| !is_parameter_set(payload);
    assert forall|i: int| 0 <= i < sample_units(payloads).len() implies (
    #[trigger] sample_units(payloads)[i]).len() < 0x1_0000_0000 by {
        payloads.lemma_filter_contains_rev(keep, payloads.filter(keep)[i]);
    }
    law_sample_reads_back(sample_units(payloads));
}

proof fn lemma_payload_lengths(nals: Seq<Seq<u8>>)
    requires
        forall|i: int| 0 <= i < nals.len() ==> (#[trigger] nals[i]).len() < 0x1_0000_0000,
    ensures
        forall|i: int|
            0 <= i < payloads_of(nals).len() ==> (#[trigger] payloads_of(nals)[i]).len()
                < 0x1_0000_0000,
    decreases nals.len(),
{
    if nals.len() > 0 {
        assert forall|i: int| 0 <= i < nals.drop_last().len() implies (
        #[trigger] nals.drop_last()[i]).len() < 0x1_0000_0000 by {
            assert(nals.drop_last()[i] == nals[i]);
        }
        lemma_payload_lengths(nals.drop_last());
        let before = payloads_of(nals.drop_last());
        match crate::nal::split(nals.last()) {
            Some((_, payload)) => {
                crate::nal::law_split_keeps_payload(nals.last());
                assert(payload.len() < nals[nals.len() - 1].len());
                assert(payloads_of(nals) == before.push(payload));
            },
            None => {
                assert(payloads_of(nals) == before);
            },
        }
    }
}

/// The parameter set that is kept of a type is the last one of that type, and
/// none is kept only if the frame has none.
pub proof fn law_last_parameter_set_wins(payloads: Seq<Seq<u8>>, kind: u8)
    ensures
        match last_of_type(payloads, kind) {
            Some(set) => exists|i: int|
                {
                    &&& 0 <= i < payloads.len()
                    &&& #[trigger] payloads[i] == set
                    &&& crate::nal::nal_type(set) == kind
                    &&& forall|j: int|
                        i < j < payloads.len() ==> crate::nal::nal_type(#[trigger] payloads[j])
                            != kind
                },
            None => forall|i: int|
                0 <= i < payloads.len() ==> crate::nal::nal_type(#[trigger] payloads[i]) != kind,
        },
    decreases payloads.len(),
{
    if payloads.len() > 0 {
        if crate::nal::nal_type(payloads.last()) == kind {
            assert(payloads[payloads.len() - 1] == payloads.last());
        } else {
            let before = payloads.drop_last();
            law_last_parameter_set_wins(before, kind);
            assert forall|j: int|
                0 <= j < payloads.len() && j != payloads.len() - 1 implies #[trigger] payloads[j]
                == before[j] by {}
            match last_of_type(before, kind) {
                Some(set) => {
                    let i = choose|i: int|
                        {
                            &&& 0 <= i < before.len()
                            &&& #[trigger] before[i] == set
                            &&& crate::nal::nal_type(set) == kind
                            &&& forall|j: int|
                                i < j < before.len() ==> crate::nal::nal_type(#[trigger] before[j])
                                    != kind
                        };
                    assert(payloads[i] == set);
                },
                None => {},
            }
        }
    }
}

/// Appends the four bytes of `n`, most significant first.
fn push_big_endian(out: &mut Vec<u8>, n: u32)
    ensures
        final(out)@ == old(out)@ + big_endian(n),
{
    out.push((n / 0x100_0000) as u8);
    out.push((n / 0x1_0000 % 0x100) as u8);
    out.push((n / 0x100 % 0x100) as u8);
    out.push((n % 0x100) as u8);
    assert(out@ =~= old(out)@ + big_endian(n));
}

impl AccessUnit {
    /// The unit of a frame of which no NAL unit has been seen yet.
    pub fn new() -> (unit: AccessUnit)
        ensures
            unit@ == access_unit(Seq::empty()),
    {
        let unit = AccessUnit { sps: None, pps: None, sample: Vec::new() };
        proof {
            reveal(Seq::filter);
            assert(unit@ =~= access_unit(Seq::empty()));
        }
        unit
    }

    /// Takes in one NAL unit in Annex-B form. A parameter set replaces an
    /// earlier one of its type; one without a start code is passed over.
    pub fn push_nal(&mut self, nal: &[u8])
        ensures
            final(self)@ == old(self)@.with_nal(nal@),
    {
        if let Some((kind, payload)) = split_annex_b_nal(nal) {
            if kind == NAL_TYPE_SPS {
                self.sps = Some(slice_to_vec(payload));
            } else if kind == NAL_TYPE_PPS {
                self.pps = Some(slice_to_vec(payload));
            } else {
                let len: u64 = payload.len() as u64;
                push_big_endian(&mut self.sample, (len % 0x1_0000_0000) as u32);
                self.sample.extend_from_slice(payload);
                assert(self.sample@ =~= old(self).sample@ + length_prefixed(payload@));
            }
        }
    }
}

/// In front of a payload stand four bytes that spell its length, most
/// significant first, or the length's low 32 bits where it has more.
pub proof fn law_length_stands_in_front(payload: Seq<u8>)
    ensures
        ({
            let bytes = length_prefixed(payload);
            &&& bytes.len() == 4 + payload.len()
            &&& bytes[0] * 0x100_0000 + bytes[1] * 0x1_0000 + bytes[2] * 0x100 + bytes[3]
                == payload.len() % 0x1_0000_0000
            &&& forall|i: int| 0 <= i < payload.len() ==> #[trigger] payload[i] == bytes[4 + i]
        }),
{
    let bytes = length_prefixed(payload);
    let n = prefix_of_length(payload.len());
    assert(bytes[0] == (n / 0x100_0000) as u8);
    assert(bytes[1] == (n / 0x1_0000 % 0x100) as u8);
    assert(bytes[2] == (n / 0x100 % 0x100) as u8);
    assert(bytes[3] == (n % 0x100) as u8);
}

/// What a payload behind a start code does to the unit of its frame depends on
/// its first byte modulo 32: at 7 it becomes the sequence parameter set, at 8 the
/// picture parameter set, and otherwise it is appended to the sample with its
/// length in front. Nothing else changes.
pub proof fn law_payload_goes_by_its_type(unit: AccessUnitView, code: Seq<u8>, payload: Seq<u8>)
    requires
        code == seq![0u8, 0u8, 0u8, 1u8] || code == seq![0u8, 0u8, 1u8],
        payload.len() > 0,
    ensures
        ({
            let after = unit.with_nal(code + payload);
            let kind = payload[0] as int % 32;
            let end = unit.sample.len() as int;
            &&& after.sps == if kind == 7 {
                Some(payload)
            } else {
                unit.sps
            }
            &&& after.pps == if kind == 8 {
                Some(payload)
            } else {
                unit.pps
            }
            &&& kind == 7 || kind == 8 ==> after.sample == unit.sample
            &&& kind != 7 && kind != 8 ==> {
                &&& after.sample.len() == end + 4 + payload.len()
                &&& after.sample.take(end) == unit.sample
                &&& after.sample[end] * 0x100_0000 + after.sample[end + 1] * 0x1_0000
                    + after.sample[end + 2] * 0x100 + after.sample[end + 3] == payload.len() % 0x1_0000_0000
                &&& after.sample.skip(end + 4) == payload
            }
        }),
{
    let nal = code + payload;
    crate::nal::law_split_undoes_start_code(payload);
    crate::nal::law_split_goes_by_the_bytes(nal);
    law_length_stands_in_front(payload);
    let first: u8 = payload[0];
    assert(first & 0x1F == first % 32) by (bit_vector);
    let after = unit.with_nal(nal);
    if first % 32 != 7 && first % 32 != 8 {
        assert(after.sample == unit.sample + length_prefixed(payload));
        assert(after.sample.take(unit.sample.len() as int) =~= unit.sample);
        assert(after.sample.skip((unit.sample.len() + 4) as int) =~= payload);
    }
}

/// A unit that does not begin with a start code, and one with nothing behind it,
/// contributes nothing.
pub proof fn law_other_units_contribute_nothing(unit: AccessUnitView, nal: Seq<u8>)
    requires
        !(nal.len() > 4 && nal[0] == 0 && nal[1] == 0 && nal[2] == 0 && nal[3] == 1),
        !(nal.len() > 3 && nal[0] == 0 && nal[1] == 0 && nal[2] == 1),
    ensures
        unit.with_nal(nal) == unit,
{
    crate::nal::law_split_goes_by_the_bytes(nal);
}

/// A frame without NAL units has no parameter sets and an empty sample.
pub proof fn law_no_units_contribute_nothing()
    ensures
        access_unit(Seq::empty()).sps is None,
        access_unit(Seq::empty()).pps is None,
        access_unit(Seq::empty()).sample.len() == 0,
{
    reveal(Seq::filter);
}

/// The model of a unit shows its fields.
pub proof fn law_unit_shows_its_fields(unit: AccessUnit)
    ensures
        unit@.sample == unit.sample@,
        unit.sps is Some <==> unit@.sps is Some,
        unit.sps matches Some(sps) ==> unit@.sps == Some(sps@),
        unit.pps is Some <==> unit@.pps is Some,
        unit.pps matches Some(pps) ==> unit@.pps == Some(pps@),
{
}

} // verus!
