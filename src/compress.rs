use crate::error::ErrorKind;
use vstd::prelude::*;

verus! {

/// The longest input that lz4 compresses into one block, in bytes.
pub const LZ4_MAX_INPUT_SIZE: usize = 0x7E00_0000;

/// The LZ4 block that lz4's default mode makes of `input`, without a size
/// prefix.
pub uninterp spec fn lz4_block(input: Seq<u8>) -> Seq<u8>;

/// Relies on `lz4::block::compress` in the default mode without a size
/// prefix: the block depends on the input alone. It refuses exactly the
/// inputs longer than lz4's `LZ4_MAX_INPUT_SIZE`, for which the compress
/// bound is 0; any other input fits the buffer of the bound's size, into
/// which compression is documented to succeed.
#[verifier::external_body]
fn lz4_block_compress(input: &[u8]) -> (r: Option<Vec<u8>>)
    ensures
        r matches Some(block) ==> block@ == lz4_block(input@),
        r is Some <==> input@.len() <= LZ4_MAX_INPUT_SIZE,
{
    lz4::block::compress(input, Some(lz4::block::CompressionMode::DEFAULT), false).ok()
}

/// Compresses a payload into one LZ4 block. Inputs longer than lz4's
/// limit are refused with a compression error; all others succeed.
pub fn lz4_compress(input: &[u8]) -> (r: Result<Vec<u8>, ErrorKind>)
    ensures
        r matches Ok(block) ==> block@ == lz4_block(input@),
        r is Err ==> r == Err::<Vec<u8>, ErrorKind>(ErrorKind::Compression),
        r is Ok <==> input@.len() <= LZ4_MAX_INPUT_SIZE,
{
    match lz4_block_compress(input) {
        Some(block) => Ok(block),
        None => Err(ErrorKind::Compression),
    }
}

} // verus!
