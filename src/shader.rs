//! Shader blobs: precompiled SPIR-V handed over as bytes, consumed as
//! little-endian 32-bit words.
use vstd::prelude::*;

use crate::error::SetupError;

verus! {

/// The little-endian word stored at bytes `i .. i + 4`.
pub open spec fn le_word(bytes: Seq<u8>, i: int) -> int {
    bytes[i] + 256 * bytes[i + 1] + 65536 * bytes[i + 2] + 16777216 * bytes[i + 3]
}

pub open spec fn words_of(bytes: Seq<u8>, words: Seq<u32>) -> bool {
    &&& words.len() * 4 == bytes.len()
    &&& forall|k: int| 0 <= k < words.len() ==> #[trigger] words[k] as int == le_word(bytes, 4 * k)
}

fn read_le_u32(b0: u8, b1: u8, b2: u8, b3: u8) -> (r: u32)
    ensures
        r as int == b0 + 256 * b1 + 65536 * b2 + 16777216 * b3,
{
    b0 as u32 + 256 * (b1 as u32) + 65536 * (b2 as u32) + 16777216 * (b3 as u32)
}

/// Splits a shader blob into words; a length that is not a multiple of four
/// is a shader load error.
pub fn shader_words(bytes: &Vec<u8>) -> (r: Result<Vec<u32>, SetupError>)
    ensures
        r is Ok <==> bytes@.len() % 4 == 0,
        r matches Err(e) ==> e is ShaderLoad,
        r matches Ok(words) ==> words_of(bytes@, words@),
{
    if bytes.len() % 4 != 0 {
        return Err(SetupError::ShaderLoad);
    }
    let mut words: Vec<u32> = Vec::new();
    let mut i: usize = 0;
    while i < bytes.len()
        invariant
            bytes@.len() % 4 == 0,
            i == 4 * words@.len(),
            i <= bytes@.len(),
            forall|k: int|
                0 <= k < words@.len() ==> #[trigger] words@[k] as int == le_word(bytes@, 4 * k),
        decreases bytes@.len() - i,
    {
        let w = read_le_u32(bytes[i], bytes[i + 1], bytes[i + 2], bytes[i + 3]);
        words.push(w);
        i = i + 4;
    }
    Ok(words)
}

} // verus!
