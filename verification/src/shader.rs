//! Compiled shader modules: from the bytes of a SPIR-V binary to its words.

use vstd::prelude::*;

verus! {

/// The first word of every SPIR-V module.
pub const SPIRV_MAGIC: u32 = 0x0723_0203;

/// Why bytes are no SPIR-V module.
#[derive(Clone, Copy, Debug, PartialEq, Eq, Structural)]
pub enum ShaderError {
    /// The length is no multiple of four.
    Misaligned,
    /// There are no bytes.
    Empty,
    /// The first word is not the magic number, in either byte order.
    BadMagic,
}

/// `std::io::Error`, the error of the decoder; nothing is said of what it
/// holds.
#[verifier::external_type_specification]
#[verifier::external_body]
pub struct ExIoError(std::io::Error);

/// Word `i` of `bytes`, least significant byte first.
pub open spec fn word_le(bytes: Seq<u8>, i: int) -> u32 {
    (bytes[4 * i] as u32) | (bytes[4 * i + 1] as u32) << 8 | (bytes[4 * i + 2] as u32) << 16 | (
    bytes[4 * i + 3] as u32) << 24
}

/// Word `i` of `bytes`, most significant byte first.
pub open spec fn word_be(bytes: Seq<u8>, i: int) -> u32 {
    (bytes[4 * i] as u32) << 24 | (bytes[4 * i + 1] as u32) << 16 | (bytes[4 * i + 2] as u32) << 8
        | (bytes[4 * i + 3] as u32)
}

/// The words of a SPIR-V binary: the bytes taken four at a time, in the
/// byte order in which the first word is the magic number. `None` where the
/// length is no positive multiple of four or the first word is the magic
/// number in neither order.
pub open spec fn spirv_words(bytes: Seq<u8>) -> Option<Seq<u32>> {
    if bytes.len() % 4 != 0 || bytes.len() == 0 {
        None
    } else if word_le(bytes, 0) == SPIRV_MAGIC {
        Some(Seq::new(bytes.len() / 4, |i: int| word_le(bytes, i)))
    } else if word_be(bytes, 0) == SPIRV_MAGIC {
        Some(Seq::new(bytes.len() / 4, |i: int| word_be(bytes, i)))
    } else {
        None
    }
}

/// The reason for which `bytes` are no SPIR-V module.
pub open spec fn shader_error(bytes: Seq<u8>) -> ShaderError {
    if bytes.len() % 4 != 0 {
        ShaderError::Misaligned
    } else if bytes.len() == 0 {
        ShaderError::Empty
    } else {
        ShaderError::BadMagic
    }
}

/// `ash::util::read_spv` on a cursor over `bytes`.
///
/// Claimed of it: it succeeds exactly on input whose length is a positive
/// multiple of four and whose first word is the SPIR-V magic number in one
/// of the two byte orders, and it then returns the words of the input in
/// that byte order.
#[verifier::external_body]
fn read_spv(bytes: &Vec<u8>) -> (r: Result<Vec<u32>, std::io::Error>)
    ensures
        r is Ok <==> spirv_words(bytes@) is Some,
        r is Ok ==> r->Ok_0@ == spirv_words(bytes@).unwrap(),
{
    ash::util::read_spv(&mut std::io::Cursor::new(bytes.as_slice()))
}

/// The words of a compiled shader module.
///
/// Succeeds exactly on a SPIR-V binary: a positive number of whole words,
/// the first of which is the magic number in either byte order. The words
/// are returned in the byte order of the machine, so that the first is the
/// magic number itself.
pub fn decode_shader(bytes: &Vec<u8>) -> (r: Result<Vec<u32>, ShaderError>)
    ensures
        r is Ok <==> spirv_words(bytes@) is Some,
        r is Ok ==> {
            let words = r->Ok_0@;
            &&& words == spirv_words(bytes@).unwrap()
            &&& words.len() * 4 == bytes.len()
            &&& words.len() >= 1
            &&& words[0] == SPIRV_MAGIC
        },
        r is Err ==> r->Err_0 == shader_error(bytes@),
{
    match read_spv(bytes) {
        Ok(words) => Ok(words),
        Err(_) => {
            if bytes.len() % 4 != 0 {
                Err(ShaderError::Misaligned)
            } else if bytes.len() == 0 {
                Err(ShaderError::Empty)
            } else {
                Err(ShaderError::BadMagic)
            }
        },
    }
}

} // verus!
