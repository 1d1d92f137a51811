//! Fallible decoding of values from byte buffers.

use vstd::prelude::*;

use crate::header::DecodeError;

verus! {

/// A value that can be decoded from the beginning of a byte buffer.
///
/// `spec_parse` pins the whole behaviour of the decoder: on success it gives
/// the decoded value together with the exact number of bytes consumed, and on
/// failure the error that describes the first invalid field. A decoder never
/// reads past the bytes it consumes.
pub trait Parse: Sized {
    /// What `parse` returns on `input`.
    spec fn spec_parse(input: Seq<u8>) -> Result<(Self, int), DecodeError>;

    /// Decodes a value from the beginning of `input`.
    fn parse(input: &[u8]) -> (r: Result<(Self, usize), DecodeError>)
        ensures
            (match Self::spec_parse(input@) {
                Ok(p) => r matches Ok(q) && q.0 == p.0 && q.1 as int == p.1,
                Err(e) => r matches Err(e2) && e2 == e,
            }),
    ;
}

} // verus!
