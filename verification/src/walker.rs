//! The volume descriptor sequence walker: decodes successive descriptor
//! sectors, tracks the extended descriptor area bracket, and classifies the
//! image.
//!
//! The walker works on sectors already read by the caller: sector `i` of the
//! input stands for the `i`-th sector of the volume descriptor area (the area
//! conventionally starts at absolute disc sector 16, but the walker only ever
//! sees indexes relative to its start). Reading the sectors is the caller's
//! business; running out of input stands for end-of-data or a short read.

use vstd::prelude::*;

use crate::header::DecodeError;
use crate::header::VDHeader;
use crate::header::VDIdentifier;
use crate::header::VDType;
use crate::header::spec_decode_header;
use crate::util::Parse;

verus! {

/// Upper bound on the number of sectors the walker examines, so that a
/// malformed image without a terminator cannot draw the scan out forever.
/// The descriptor area of real images is tens of sectors at most.
pub const MAX_DESCRIPTOR_SECTORS: usize = 64;

/// State accumulated while walking a descriptor sequence. Created fresh per
/// scan.
#[derive(Clone, Copy, Debug, PartialEq, Eq, Structural)]
pub struct SequenceState {
    /// Whether the walk is currently between a `BEA01` and a `TEA01` marker.
    pub inside_extended_area: bool,
    /// Whether a `CD001` identifier has been seen.
    pub has_iso9660: bool,
    /// Whether an `NSR02` or `NSR03` identifier has been seen inside the
    /// extended descriptor area.
    pub udf_detected: bool,
    /// Whether a `Terminator` descriptor has been seen.
    pub terminated: bool,
    /// How many descriptors decoded successfully so far.
    pub sectors_consumed: usize,
}

/// Classification of a volume descriptor sequence.
#[derive(Clone, Copy, Debug, PartialEq, Eq, Structural)]
pub struct ScanResult {
    /// A `CD001` descriptor was seen: the image carries an ISO 9660 filesystem.
    pub has_iso9660: bool,
    /// An `NSR02`/`NSR03` marker was seen inside the extended descriptor
    /// area: the image carries a UDF filesystem.
    pub has_udf: bool,
    /// Number of descriptors decoded, the terminator included.
    pub descriptor_count: usize,
}

/// Why a scan failed.
#[derive(Clone, Copy, Debug, PartialEq, Eq, Structural)]
pub enum ScanError {
    /// The input ran out before a single descriptor decoded.
    NoDescriptorsFound,
    /// A sector inside the sequence is not a valid descriptor. A valid
    /// sequence is contiguous, so the scan stops at the first such sector;
    /// `descriptor_count` counts the valid descriptors before it.
    MalformedSequence { sector_index: usize, descriptor_count: usize },
    /// No terminator within the sector bound.
    SequenceTooLong,
}

/// The state at the start of a scan.
pub open spec fn spec_init_state() -> SequenceState {
    SequenceState {
        inside_extended_area: false,
        has_iso9660: false,
        udf_detected: false,
        terminated: false,
        sectors_consumed: 0,
    }
}

/// How one successfully decoded header updates the walk state. A UDF marker
/// counts only while inside the extended descriptor area; `BEA01` and
/// `TEA01` open and close that area; repeats of `CD001` are harmless because
/// the first sighting already set the flag.
pub open spec fn spec_step(st: SequenceState, h: VDHeader) -> SequenceState {
    SequenceState {
        inside_extended_area: if h.identifier is BEA01 {
            true
        } else if h.identifier is TEA01 {
            false
        } else {
            st.inside_extended_area
        },
        has_iso9660: st.has_iso9660 || h.identifier is CD001,
        udf_detected: st.udf_detected || ((h.identifier is NSR02 || h.identifier is NSR03)
            && st.inside_extended_area),
        terminated: st.terminated || h.vd_type is Terminator,
        sectors_consumed: (st.sectors_consumed + 1) as usize,
    }
}

/// The classification a state yields.
pub open spec fn spec_result_of(st: SequenceState) -> ScanResult {
    ScanResult {
        has_iso9660: st.has_iso9660,
        has_udf: st.udf_detected,
        descriptor_count: st.sectors_consumed,
    }
}

/// What a scan returns when the input runs out: the accumulated state,
/// unless nothing at all decoded.
pub open spec fn spec_finish(st: SequenceState) -> Result<ScanResult, ScanError> {
    if st.sectors_consumed == 0 {
        Err(ScanError::NoDescriptorsFound)
    } else {
        Ok(spec_result_of(st))
    }
}

/// What the walk yields from sector `i` onward, in state `st`.
pub open spec fn spec_scan_from(
    sectors: Seq<Seq<u8>>,
    max: usize,
    i: usize,
    st: SequenceState,
) -> Result<ScanResult, ScanError>
    decreases max - i,
{
    if i >= max {
        Err(ScanError::SequenceTooLong)
    } else if sectors.len() <= i || spec_decode_header(sectors[i as int]) == Err::<
        VDHeader,
        DecodeError,
    >(DecodeError::Incomplete) {
        spec_finish(st)
    } else {
        match spec_decode_header(sectors[i as int]) {
            Err(e) => Err(
                ScanError::MalformedSequence {
                    sector_index: i,
                    descriptor_count: st.sectors_consumed,
                },
            ),
            Ok(h) => {
                let st2 = spec_step(st, h);
                if h.vd_type is Terminator {
                    Ok(spec_result_of(st2))
                } else {
                    spec_scan_from(sectors, max, (i + 1) as usize, st2)
                }
            },
        }
    }
}

/// What scanning a descriptor sequence yields.
pub open spec fn spec_scan(sectors: Seq<Seq<u8>>, max: usize) -> Result<ScanResult, ScanError> {
    spec_scan_from(sectors, max, 0, spec_init_state())
}

/// The byte sequences held by a list of sector buffers.
pub open spec fn sectors_view(sectors: Seq<Vec<u8>>) -> Seq<Seq<u8>> {
    Seq::new(sectors.len(), |j: int| sectors[j]@)
}

impl SequenceState {
    /// A fresh state, all flags clear.
    pub fn new() -> (st: SequenceState)
        ensures
            st == spec_init_state(),
    {
        SequenceState {
            inside_extended_area: false,
            has_iso9660: false,
            udf_detected: false,
            terminated: false,
            sectors_consumed: 0,
        }
    }

    /// Folds one decoded header into the state.
    pub fn step(self, h: &VDHeader) -> (st: SequenceState)
        requires
            self.sectors_consumed < usize::MAX,
        ensures
            st == spec_step(self, *h),
    {
        SequenceState {
            inside_extended_area: if h.identifier == VDIdentifier::BEA01 {
                true
            } else if h.identifier == VDIdentifier::TEA01 {
                false
            } else {
                self.inside_extended_area
            },
            has_iso9660: self.has_iso9660 || h.identifier == VDIdentifier::CD001,
            udf_detected: self.udf_detected || ((h.identifier == VDIdentifier::NSR02
                || h.identifier == VDIdentifier::NSR03) && self.inside_extended_area),
            terminated: self.terminated || h.vd_type == VDType::Terminator,
            sectors_consumed: self.sectors_consumed + 1,
        }
    }

    /// The classification this state yields.
    pub fn result(&self) -> (r: ScanResult)
        ensures
            r == spec_result_of(*self),
    {
        ScanResult {
            has_iso9660: self.has_iso9660,
            has_udf: self.udf_detected,
            descriptor_count: self.sectors_consumed,
        }
    }

    /// The scan outcome when the input runs out in this state.
    pub fn finish(&self) -> (r: Result<ScanResult, ScanError>)
        ensures
            r == spec_finish(*self),
    {
        if self.sectors_consumed == 0 {
            Err(ScanError::NoDescriptorsFound)
        } else {
            Ok(self.result())
        }
    }
}

/// Sector `k` decodes successfully and carries identifier `id`.
pub open spec fn sector_has_ident(sectors: Seq<Seq<u8>>, k: int, id: VDIdentifier) -> bool {
    &&& 0 <= k < sectors.len()
    &&& spec_decode_header(sectors[k]) matches Ok(h) && h.identifier == id
}

/// Sector `k` decodes successfully and carries a UDF marker.
pub open spec fn sector_has_udf_marker(sectors: Seq<Seq<u8>>, k: int) -> bool {
    ||| sector_has_ident(sectors, k, VDIdentifier::NSR02)
    ||| sector_has_ident(sectors, k, VDIdentifier::NSR03)
}

proof fn lemma_no_terminator_from(sectors: Seq<Seq<u8>>, max: usize, i: usize, st: SequenceState)
    requires
        sectors.len() >= max,
        forall|k: int|
            0 <= k < max ==> ((#[trigger] spec_decode_header(sectors[k])) matches Ok(h) && !(
            h.vd_type is Terminator)),
        i <= max,
    ensures
        spec_scan_from(sectors, max, i, st) == Err::<ScanResult, ScanError>(
            ScanError::SequenceTooLong,
        ),
    decreases max - i,
{
    if i < max {
        match spec_decode_header(sectors[i as int]) {
            Ok(h) => {
                lemma_no_terminator_from(sectors, max, (i + 1) as usize, spec_step(st, h));
            },
            Err(_) => {
                assert(false);
            },
        }
    }
}

/// Law: when every sector within the bound decodes successfully and none is
/// a terminator descriptor, the scan reports `SequenceTooLong` — a missing
/// terminator is never a silent success.
pub proof fn lemma_missing_terminator_too_long(sectors: Seq<Seq<u8>>, max: usize)
    requires
        sectors.len() >= max,
        forall|k: int|
            0 <= k < max ==> ((#[trigger] spec_decode_header(sectors[k])) matches Ok(h) && !(
            h.vd_type is Terminator)),
    ensures
        spec_scan(sectors, max) == Err::<ScanResult, ScanError>(ScanError::SequenceTooLong),
{
    lemma_no_terminator_from(sectors, max, 0, spec_init_state());
}

proof fn lemma_udf_marker_outside_area_from(
    sectors: Seq<Seq<u8>>,
    max: usize,
    i: usize,
    st: SequenceState,
)
    requires
        forall|j: int, k: int|
            #[trigger] sector_has_udf_marker(sectors, j) && #[trigger] sector_has_ident(
                sectors,
                k,
                VDIdentifier::BEA01,
            ) ==> j < k,
        !st.udf_detected,
        st.inside_extended_area ==> (exists|k0: int|
            0 <= k0 < i && sector_has_ident(sectors, k0, VDIdentifier::BEA01)),
        i <= max,
    ensures
        (spec_scan_from(sectors, max, i, st) matches Ok(res) ==> !res.has_udf),
    decreases max - i,
{
    if i < max && i < sectors.len() && spec_decode_header(sectors[i as int]) != Err::<
        VDHeader,
        DecodeError,
    >(DecodeError::Incomplete) {
        match spec_decode_header(sectors[i as int]) {
            Ok(h) => {
                let st2 = spec_step(st, h);
                if (h.identifier is NSR02 || h.identifier is NSR03) && st.inside_extended_area {
                    assert(sector_has_udf_marker(sectors, i as int));
                    let k0 = choose|k0: int|
                        0 <= k0 < i && sector_has_ident(sectors, k0, VDIdentifier::BEA01);
                    assert(false);
                }
                if h.identifier is BEA01 {
                    assert(sector_has_ident(sectors, i as int, VDIdentifier::BEA01));
                }
                if !(h.vd_type is Terminator) {
                    lemma_udf_marker_outside_area_from(sectors, max, (i + 1) as usize, st2);
                }
            },
            Err(_) => {},
        }
    }
}

/// Law: UDF markers are authoritative only inside the extended descriptor
/// area. When every sector carrying an `NSR02`/`NSR03` marker comes before
/// every sector carrying a `BEA01` marker — so each marker lies outside the
/// bracketed area — a successful scan reports `has_udf == false`.
pub proof fn lemma_udf_marker_outside_area_ignored(sectors: Seq<Seq<u8>>, max: usize)
    requires
        forall|j: int, k: int|
            #[trigger] sector_has_udf_marker(sectors, j) && #[trigger] sector_has_ident(
                sectors,
                k,
                VDIdentifier::BEA01,
            ) ==> j < k,
    ensures
        (spec_scan(sectors, max) matches Ok(res) ==> !res.has_udf),
{
    lemma_udf_marker_outside_area_from(sectors, max, 0, spec_init_state());
}

/// Walks the volume descriptor sequence held in `sectors`, where sector `i`
/// is the `i`-th sector of the descriptor area, and classifies the image.
///
/// The walk decodes the seven-byte header of each sector in turn and stops at
/// the first terminator descriptor, which is counted. Running out of sectors,
/// or a sector too short to hold a header, ends the walk with the
/// classification accumulated so far — unless nothing decoded at all
/// (`NoDescriptorsFound`). A sector that fails to decode structurally is
/// `MalformedSequence`; a walk that has not terminated within
/// `MAX_DESCRIPTOR_SECTORS` sectors is `SequenceTooLong`.
pub fn scan_volume_descriptors(sectors: &Vec<Vec<u8>>) -> (r: Result<ScanResult, ScanError>)
    ensures
        r == spec_scan(sectors_view(sectors@), MAX_DESCRIPTOR_SECTORS),
{
    let ghost all = sectors_view(sectors@);
    let mut st = SequenceState::new();
    let mut i: usize = 0;
    loop
        invariant
            i <= MAX_DESCRIPTOR_SECTORS,
            st.sectors_consumed == i,
            all == sectors_view(sectors@),
            spec_scan(all, MAX_DESCRIPTOR_SECTORS) == spec_scan_from(
                all,
                MAX_DESCRIPTOR_SECTORS,
                i,
                st,
            ),
        decreases MAX_DESCRIPTOR_SECTORS - i,
    {
        if i >= MAX_DESCRIPTOR_SECTORS {
            return Err(ScanError::SequenceTooLong);
        }
        if i >= sectors.len() {
            return st.finish();
        }
        let sector: &Vec<u8> = &sectors[i];
        assert(all[i as int] == sector@);
        match VDHeader::parse(sector.as_slice()) {
            Err(e) => {
                if e == DecodeError::Incomplete {
                    return st.finish();
                } else {
                    return Err(
                        ScanError::MalformedSequence {
                            sector_index: i,
                            descriptor_count: st.sectors_consumed,
                        },
                    );
                }
            },
            Ok((h, _consumed)) => {
                st = st.step(&h);
                if h.vd_type == VDType::Terminator {
                    return Ok(st.result());
                }
                i = i + 1;
            },
        }
    }
}

} // verus!
