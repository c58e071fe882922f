//! Transparent compression of stored documents, built on zstd frames.

use vstd::prelude::*;

verus! {

/// The effort level used for every compression: moderate, favouring speed.
pub const COMPRESSION_LEVEL: i32 = 3;

/// The zstd frame that `zstd::stream::copy_encode` writes for `b` at `level`.
pub uninterp spec fn zstd_frame(b: Seq<u8>, level: i32) -> Seq<u8>;

/// What `zstd::stream::copy_decode` yields for `b`: `None` where `b` is not
/// a sequence of well-formed zstd frames.
pub uninterp spec fn zstd_content(b: Seq<u8>) -> Option<Seq<u8>>;

#[verifier::external_type_specification]
#[verifier::external_body]
pub struct ExIoError(std::io::Error);

/// Why the codec could not transform its input.
#[derive(Debug, Clone, Copy, PartialEq, Eq, Structural)]
pub enum CodecError {
    /// The compressor reported an error; compressing into memory does not.
    Encode,
    /// The input is not a valid compressed frame.
    Decode,
}

/// Relies on `zstd::stream::copy_encode`: reading from a slice and writing
/// into a `Vec` cannot fail, so it succeeds, and the destination holds the
/// zstd frame of the source at the given level.
#[verifier::external_body]
fn zstd_copy_encode(source: &[u8], level: i32) -> (r: Result<Vec<u8>, std::io::Error>)
    ensures
        r is Ok && r->Ok_0@ == zstd_frame(source@, level),
{
    let mut out = Vec::new();
    match zstd::stream::copy_encode(source, &mut out, level) {
        Ok(()) => Ok(out),
        Err(e) => Err(e),
    }
}

/// Relies on `zstd::stream::copy_decode`: it decodes the frames of the source
/// into the destination, and a frame written by zstd's encoder at a regular
/// level (1 to 19) decodes to exactly the bytes that were encoded.
#[verifier::external_body]
fn zstd_copy_decode(source: &[u8]) -> (r: Result<Vec<u8>, std::io::Error>)
    ensures
        r matches Ok(v) ==> zstd_content(source@) == Some(v@),
        r is Err ==> zstd_content(source@) is None,
        forall|p: (Seq<u8>, i32)|
            1 <= p.1 <= 19 && source@ == #[trigger] zstd_frame(p.0, p.1) ==> r is Ok
                && r->Ok_0@ == p.0,
{
    let mut out = Vec::new();
    match zstd::stream::copy_decode(source, &mut out) {
        Ok(()) => Ok(out),
        Err(e) => Err(e),
    }
}

/// Compresses `b` into one zstd frame at [`COMPRESSION_LEVEL`]; this always
/// succeeds. The input is left untouched.
pub fn encode(b: &[u8]) -> (r: Result<Vec<u8>, CodecError>)
    ensures
        r matches Ok(v) && v@ == zstd_frame(b@, COMPRESSION_LEVEL),
{
    match zstd_copy_encode(b, COMPRESSION_LEVEL) {
        Ok(v) => Ok(v),
        Err(_) => Err(CodecError::Encode),
    }
}

/// Decompresses `b` in full; nothing is returned unless all of it decoded.
/// What [`encode`] produced decodes to the bytes it was given.
pub fn decode(b: &[u8]) -> (r: Result<Vec<u8>, CodecError>)
    ensures
        r matches Ok(v) ==> zstd_content(b@) == Some(v@),
        r is Err <==> zstd_content(b@) is None,
        r matches Err(e) ==> e == CodecError::Decode,
        forall|x: Seq<u8>| b@ == #[trigger] zstd_frame(x, COMPRESSION_LEVEL) ==> (r matches Ok(v)
            && v@ == x),
{
    let decoded = zstd_copy_decode(b);
    proof {
        assert forall|x: Seq<u8>| b@ == #[trigger] zstd_frame(x, COMPRESSION_LEVEL) implies (
        decoded matches Ok(v) && v@ == x) by {
            let p = (x, COMPRESSION_LEVEL);
            assert(zstd_frame(p.0, p.1) == zstd_frame(x, COMPRESSION_LEVEL));
        }
    }
    match decoded {
        Ok(v) => Ok(v),
        Err(_) => Err(CodecError::Decode),
    }
}

} // verus!
