//! The seven-byte header that opens every volume descriptor sector:
//! one type byte, a five-byte identifier tag, and a version byte that must
//! equal 1.

use vstd::prelude::*;

use crate::utf8::is_utf8;
use crate::utf8::is_utf8_bytes;
use crate::utf8::lemma_ascii_is_utf8;
use crate::util::Parse;
use vstd::slice::slice_subrange;

verus! {

/// Type of a volume descriptor, tagged on disc by a single byte:
/// 0, 1, 2, 3 or 255 respectively. Any other byte value is invalid.
#[derive(Clone, Copy, Debug, PartialEq, Eq, Structural)]
pub enum VDType {
    Boot,
    Primary,
    Supplementary,
    Partition,
    Terminator,
}

/// Identifier of a volume descriptor: one of exactly six known five-byte
/// ASCII tags. Any other five-byte value is invalid.
#[derive(Clone, Copy, Debug, PartialEq, Eq, Structural)]
pub enum VDIdentifier {
    /// Indicates that this volume contains an ISO 9660 file system.
    CD001,
    /// Denotes the beginning of the extended descriptor section.
    BEA01,
    /// Indicates that this volume contains a UDF file system.
    NSR02,
    /// Indicates that this volume contains a UDF file system.
    NSR03,
    /// Includes information concerning boot loader location and entry point address.
    BOOT2,
    /// Denotes the end of the extended descriptor section.
    TEA01,
}

/// Header of a volume descriptor. Version is always 1.
#[derive(Clone, Copy, Debug, PartialEq, Eq, Structural)]
pub struct VDHeader {
    pub vd_type: VDType,
    pub identifier: VDIdentifier,
}

/// Why a header failed to decode. `Incomplete` (too few bytes; more data may
/// help) is distinct from the four structural errors, which say which field
/// of a full seven-byte header was invalid.
#[derive(Clone, Copy, Debug, PartialEq, Eq, Structural)]
pub enum DecodeError {
    Incomplete,
    InvalidDescriptorType,
    InvalidIdentifierEncoding,
    UnknownIdentifier,
    UnsupportedVersion,
}

/// The descriptor type encoded by a type byte, if any.
pub open spec fn spec_type_of_byte(b: u8) -> Option<VDType> {
    if b == 0 {
        Some(VDType::Boot)
    } else if b == 1 {
        Some(VDType::Primary)
    } else if b == 2 {
        Some(VDType::Supplementary)
    } else if b == 3 {
        Some(VDType::Partition)
    } else if b == 255 {
        Some(VDType::Terminator)
    } else {
        None
    }
}

/// The byte that encodes a descriptor type.
pub open spec fn spec_byte_of_type(t: VDType) -> u8 {
    match t {
        VDType::Boot => 0,
        VDType::Primary => 1,
        VDType::Supplementary => 2,
        VDType::Partition => 3,
        VDType::Terminator => 255,
    }
}

/// The five tag bytes of an identifier.
pub open spec fn spec_ident_bytes(id: VDIdentifier) -> Seq<u8> {
    match id {
        // Tag bytes are ASCII: "CD001", "BEA01", "NSR02", "NSR03", "BOOT2", "TEA01".
        VDIdentifier::CD001 => seq![0x43u8, 0x44u8, 0x30u8, 0x30u8, 0x31u8],
        VDIdentifier::BEA01 => seq![0x42u8, 0x45u8, 0x41u8, 0x30u8, 0x31u8],
        VDIdentifier::NSR02 => seq![0x4Eu8, 0x53u8, 0x52u8, 0x30u8, 0x32u8],
        VDIdentifier::NSR03 => seq![0x4Eu8, 0x53u8, 0x52u8, 0x30u8, 0x33u8],
        VDIdentifier::BOOT2 => seq![0x42u8, 0x4Fu8, 0x4Fu8, 0x54u8, 0x32u8],
        VDIdentifier::TEA01 => seq![0x54u8, 0x45u8, 0x41u8, 0x30u8, 0x31u8],
    }
}

/// The identifier whose tag is `s`, if any.
pub open spec fn spec_ident_of_bytes(s: Seq<u8>) -> Option<VDIdentifier> {
    if s == spec_ident_bytes(VDIdentifier::CD001) {
        Some(VDIdentifier::CD001)
    } else if s == spec_ident_bytes(VDIdentifier::BEA01) {
        Some(VDIdentifier::BEA01)
    } else if s == spec_ident_bytes(VDIdentifier::NSR02) {
        Some(VDIdentifier::NSR02)
    } else if s == spec_ident_bytes(VDIdentifier::NSR03) {
        Some(VDIdentifier::NSR03)
    } else if s == spec_ident_bytes(VDIdentifier::BOOT2) {
        Some(VDIdentifier::BOOT2)
    } else if s == spec_ident_bytes(VDIdentifier::TEA01) {
        Some(VDIdentifier::TEA01)
    } else {
        None
    }
}

impl VDType {
    /// Decodes a type byte: the inverse of `to_byte` on the five valid values.
    pub fn try_from(b: u8) -> (r: Result<VDType, DecodeError>)
        ensures
            (match spec_type_of_byte(b) {
                Some(t) => r == Ok::<VDType, DecodeError>(t),
                None => r == Err::<VDType, DecodeError>(DecodeError::InvalidDescriptorType),
            }),
    {
        match b {
            0 => Ok(VDType::Boot),
            1 => Ok(VDType::Primary),
            2 => Ok(VDType::Supplementary),
            3 => Ok(VDType::Partition),
            255 => Ok(VDType::Terminator),
            _ => Err(DecodeError::InvalidDescriptorType),
        }
    }

    /// The byte this descriptor type is tagged by on disc.
    pub fn to_byte(self) -> (b: u8)
        ensures
            b == spec_byte_of_type(self),
            spec_type_of_byte(b) == Some(self),
    {
        match self {
            VDType::Boot => 0,
            VDType::Primary => 1,
            VDType::Supplementary => 2,
            VDType::Partition => 3,
            VDType::Terminator => 255,
        }
    }
}

impl VDIdentifier {
    /// Decodes an identifier from raw bytes: the bytes must be UTF-8 text
    /// equal to one of the six known tags (case-sensitive, no trimming).
    pub fn try_from(value: &[u8]) -> (r: Result<VDIdentifier, DecodeError>)
        ensures
            !is_utf8(value@) ==> r == Err::<VDIdentifier, DecodeError>(
                DecodeError::InvalidIdentifierEncoding,
            ),
            is_utf8(value@) && spec_ident_of_bytes(value@) is None ==> r == Err::<
                VDIdentifier,
                DecodeError,
            >(DecodeError::UnknownIdentifier),
            (match spec_ident_of_bytes(value@) {
                Some(id) => is_utf8(value@) ==> r == Ok::<VDIdentifier, DecodeError>(id),
                None => true,
            }),
    {
        if !is_utf8_bytes(value) {
            return Err(DecodeError::InvalidIdentifierEncoding);
        }
        if value.len() != 5 {
            return Err(DecodeError::UnknownIdentifier);
        }
        let b0 = value[0];
        let b1 = value[1];
        let b2 = value[2];
        let b3 = value[3];
        let b4 = value[4];
        if b0 == 0x43 && b1 == 0x44 && b2 == 0x30 && b3 == 0x30 && b4 == 0x31 {
            proof {
                assert(value@ =~= spec_ident_bytes(VDIdentifier::CD001));
            }
            Ok(VDIdentifier::CD001)
        } else if b0 == 0x42 && b1 == 0x45 && b2 == 0x41 && b3 == 0x30 && b4 == 0x31 {
            proof {
                assert(value@ =~= spec_ident_bytes(VDIdentifier::BEA01));
            }
            Ok(VDIdentifier::BEA01)
        } else if b0 == 0x4E && b1 == 0x53 && b2 == 0x52 && b3 == 0x30 && b4 == 0x32 {
            proof {
                assert(value@ =~= spec_ident_bytes(VDIdentifier::NSR02));
            }
            Ok(VDIdentifier::NSR02)
        } else if b0 == 0x4E && b1 == 0x53 && b2 == 0x52 && b3 == 0x30 && b4 == 0x33 {
            proof {
                assert(value@ =~= spec_ident_bytes(VDIdentifier::NSR03));
            }
            Ok(VDIdentifier::NSR03)
        } else if b0 == 0x42 && b1 == 0x4F && b2 == 0x4F && b3 == 0x54 && b4 == 0x32 {
            proof {
                assert(value@ =~= spec_ident_bytes(VDIdentifier::BOOT2));
            }
            Ok(VDIdentifier::BOOT2)
        } else if b0 == 0x54 && b1 == 0x45 && b2 == 0x41 && b3 == 0x30 && b4 == 0x31 {
            proof {
                assert(value@ =~= spec_ident_bytes(VDIdentifier::TEA01));
            }
            Ok(VDIdentifier::TEA01)
        } else {
            Err(DecodeError::UnknownIdentifier)
        }
    }
}

/// What decoding the seven-byte header at the start of `s` yields: the type
/// byte, the five identifier bytes and the version byte are each validated,
/// in that order, and the first invalid field names the error.
pub open spec fn spec_decode_header(s: Seq<u8>) -> Result<VDHeader, DecodeError> {
    if s.len() < 7 {
        Err(DecodeError::Incomplete)
    } else {
        match spec_type_of_byte(s[0]) {
            None => Err(DecodeError::InvalidDescriptorType),
            Some(t) => {
                if !is_utf8(s.subrange(1, 6)) {
                    Err(DecodeError::InvalidIdentifierEncoding)
                } else {
                    match spec_ident_of_bytes(s.subrange(1, 6)) {
                        None => Err(DecodeError::UnknownIdentifier),
                        Some(id) => {
                            if s[6] != 1 {
                                Err(DecodeError::UnsupportedVersion)
                            } else {
                                Ok(VDHeader { vd_type: t, identifier: id })
                            }
                        },
                    }
                }
            },
        }
    }
}

/// Each identifier tag is five ASCII bytes, is well-formed UTF-8, and is
/// recovered exactly by `spec_ident_of_bytes`: the six tags are distinct.
pub proof fn lemma_ident_bytes_roundtrip(id: VDIdentifier)
    ensures
        spec_ident_bytes(id).len() == 5,
        is_utf8(spec_ident_bytes(id)),
        spec_ident_of_bytes(spec_ident_bytes(id)) == Some(id),
{
    let s = spec_ident_bytes(id);
    assert(s.len() == 5 && s[0] < 0x80 && s[1] < 0x80 && s[2] < 0x80 && s[3] < 0x80 && s[4]
        < 0x80);
    assert(forall|k: int| 0 <= k < s.len() ==> s[k] < 0x80);
    lemma_ascii_is_utf8(s);
}

/// Law: a seven-byte buffer whose type byte encodes `t`, whose next five
/// bytes are the tag of `id`, and whose version byte is 1, decodes to
/// exactly the pair encoded.
pub proof fn lemma_decode_valid_header(s: Seq<u8>, t: VDType, id: VDIdentifier)
    requires
        s.len() == 7,
        s[0] == spec_byte_of_type(t),
        s.subrange(1, 6) == spec_ident_bytes(id),
        s[6] == 1,
    ensures
        spec_decode_header(s) == Ok::<VDHeader, DecodeError>(
            VDHeader { vd_type: t, identifier: id },
        ),
{
    assert(spec_type_of_byte(spec_byte_of_type(t)) == Some(t));
    lemma_ident_bytes_roundtrip(id);
}

/// Law: a seven-byte buffer that is not a valid header fails with the error
/// that names the first invalid field — the type byte, the identifier
/// encoding, the identifier tag, or the version byte — never a generic one.
pub proof fn lemma_decode_error_classification(s: Seq<u8>)
    requires
        s.len() == 7,
    ensures
        spec_type_of_byte(s[0]) is None ==> spec_decode_header(s) == Err::<VDHeader, DecodeError>(
            DecodeError::InvalidDescriptorType,
        ),
        spec_type_of_byte(s[0]) is Some && !is_utf8(s.subrange(1, 6)) ==> spec_decode_header(s)
            == Err::<VDHeader, DecodeError>(DecodeError::InvalidIdentifierEncoding),
        spec_type_of_byte(s[0]) is Some && is_utf8(s.subrange(1, 6)) && spec_ident_of_bytes(
            s.subrange(1, 6),
        ) is None ==> spec_decode_header(s) == Err::<VDHeader, DecodeError>(
            DecodeError::UnknownIdentifier,
        ),
        spec_type_of_byte(s[0]) is Some && spec_ident_of_bytes(s.subrange(1, 6)) is Some && s[6]
            != 1 ==> spec_decode_header(s) == Err::<VDHeader, DecodeError>(
            DecodeError::UnsupportedVersion,
        ),
{
    match spec_ident_of_bytes(s.subrange(1, 6)) {
        Some(id) => lemma_ident_bytes_roundtrip(id),
        None => (),
    }
}

/// Law: a buffer shorter than seven bytes yields `Incomplete`, never a
/// structural error.
pub proof fn lemma_short_buffer_incomplete(s: Seq<u8>)
    requires
        s.len() < 7,
    ensures
        spec_decode_header(s) == Err::<VDHeader, DecodeError>(DecodeError::Incomplete),
{
}

impl Parse for VDType {
    open spec fn spec_parse(input: Seq<u8>) -> Result<(VDType, int), DecodeError> {
        if input.len() < 1 {
            Err(DecodeError::Incomplete)
        } else {
            match spec_type_of_byte(input[0]) {
                Some(t) => Ok((t, 1)),
                None => Err(DecodeError::InvalidDescriptorType),
            }
        }
    }

    fn parse(input: &[u8]) -> (r: Result<(VDType, usize), DecodeError>) {
        if input.len() < 1 {
            return Err(DecodeError::Incomplete);
        }
        match VDType::try_from(input[0]) {
            Ok(t) => Ok((t, 1)),
            Err(e) => Err(e),
        }
    }
}

impl Parse for VDIdentifier {
    open spec fn spec_parse(input: Seq<u8>) -> Result<(VDIdentifier, int), DecodeError> {
        if input.len() < 5 {
            Err(DecodeError::Incomplete)
        } else if !is_utf8(input.subrange(0, 5)) {
            Err(DecodeError::InvalidIdentifierEncoding)
        } else {
            match spec_ident_of_bytes(input.subrange(0, 5)) {
                Some(id) => Ok((id, 5)),
                None => Err(DecodeError::UnknownIdentifier),
            }
        }
    }

    fn parse(input: &[u8]) -> (r: Result<(VDIdentifier, usize), DecodeError>) {
        if input.len() < 5 {
            return Err(DecodeError::Incomplete);
        }
        let id5 = slice_subrange(input, 0, 5);
        match VDIdentifier::try_from(id5) {
            Ok(id) => Ok((id, 5)),
            Err(e) => Err(e),
        }
    }
}

impl Parse for VDHeader {
    open spec fn spec_parse(input: Seq<u8>) -> Result<(VDHeader, int), DecodeError> {
        match spec_decode_header(input) {
            Ok(h) => Ok((h, 7)),
            Err(e) => Err(e),
        }
    }

    fn parse(input: &[u8]) -> (r: Result<(VDHeader, usize), DecodeError>) {
        if input.len() < 7 {
            return Err(DecodeError::Incomplete);
        }
        let vd_type = match VDType::try_from(input[0]) {
            Ok(t) => t,
            Err(e) => {
                return Err(e);
            },
        };
        let ident_bytes = slice_subrange(input, 1, 6);
        let identifier = match VDIdentifier::try_from(ident_bytes) {
            Ok(id) => id,
            Err(e) => {
                return Err(e);
            },
        };
        if input[6] != 1 {
            return Err(DecodeError::UnsupportedVersion);
        }
        Ok((VDHeader { vd_type, identifier }, 7))
    }
}

} // verus!
