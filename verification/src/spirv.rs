//! Decoding SPIR-V shader binaries into the 32-bit words a shader module is
//! created from.

use vstd::prelude::*;

verus! {

/// `std::io::Error`, the error the SPIR-V reader of the Vulkan bindings reports.
#[verifier::external_type_specification]
#[verifier::external_body]
pub struct ExIoError(std::io::Error);

/// The SPIR-V magic number, the first word of every module.
pub const SPIRV_MAGIC: u32 = 0x0723_0203;

/// The little-endian word at byte `at` of `b`.
pub open spec fn le_word(b: Seq<u8>, at: int) -> int {
    b[at] as int + b[at + 1] as int * 0x100 + b[at + 2] as int * 0x1_0000 + b[at + 3] as int * 0x100_0000
}

/// The big-endian word at byte `at` of `b`.
pub open spec fn be_word(b: Seq<u8>, at: int) -> int {
    b[at + 3] as int + b[at + 2] as int * 0x100 + b[at + 1] as int * 0x1_0000 + b[at] as int * 0x100_0000
}

/// The bytes start with the magic number stored little-endian.
pub open spec fn starts_le_magic(b: Seq<u8>) -> bool {
    b.len() >= 4 && b[0] == 0x03u8 && b[1] == 0x02u8 && b[2] == 0x23u8 && b[3] == 0x07u8
}

/// The bytes start with the magic number stored big-endian.
pub open spec fn starts_be_magic(b: Seq<u8>) -> bool {
    b.len() >= 4 && b[0] == 0x07u8 && b[1] == 0x23u8 && b[2] == 0x02u8 && b[3] == 0x03u8
}

/// The words of a SPIR-V binary: the bytes taken four at a time, in the byte
/// order its magic number is stored in.
pub open spec fn spirv_words(b: Seq<u8>) -> Seq<u32> {
    Seq::new(
        (b.len() / 4) as nat,
        |i: int| if starts_le_magic(b) { le_word(b, 4 * i) as u32 } else { be_word(b, 4 * i) as u32 },
    )
}

/// A byte string is a SPIR-V binary the reader accepts: a whole number of words,
/// starting with the magic number in either byte order.
pub open spec fn is_spirv(b: Seq<u8>) -> bool {
    b.len() % 4 == 0 && (starts_le_magic(b) || starts_be_magic(b))
}

/// Reads SPIR-V with `ash::util::read_spv` from an in-memory cursor. Its source
/// shows: the input is refused when its length is not a multiple of 4; otherwise
/// it is read as native-endian words, all words are byte-swapped when the first
/// one is the byte-swapped magic number, and the input is refused unless the
/// first word then is the magic number. Whatever the machine's byte order, this
/// accepts exactly the inputs starting with the magic number in either byte
/// order and decodes the words in that order.
#[verifier::external_body]
fn read_spv(bytes: &[u8]) -> (r: Result<Vec<u32>, std::io::Error>)
    ensures
        is_spirv(bytes@) ==> r.is_ok() && r.unwrap()@ == spirv_words(bytes@),
        !is_spirv(bytes@) ==> r.is_err(),
{
    ash::util::read_spv(&mut std::io::Cursor::new(bytes))
}

/// Why bytes are not a SPIR-V binary.
#[derive(Clone, Copy, PartialEq, Eq, Structural, Debug)]
pub enum SpirvError {
    /// The length is not a whole number of 32-bit words.
    LengthNotMultipleOfFour,
    /// The first word is not the SPIR-V magic number in either byte order.
    MissingMagicNumber,
}

/// Decodes the bytes of a SPIR-V file into its words.
pub fn decode_spirv(bytes: &Vec<u8>) -> (r: Result<Vec<u32>, SpirvError>)
    ensures
        is_spirv(bytes@) ==> (r matches Ok(w) && w@ == spirv_words(bytes@)),
        bytes@.len() % 4 != 0 ==> r == Err::<Vec<u32>, SpirvError>(SpirvError::LengthNotMultipleOfFour),
        bytes@.len() % 4 == 0 && !is_spirv(bytes@) ==> r == Err::<Vec<u32>, SpirvError>(SpirvError::MissingMagicNumber),
{
    match read_spv(bytes.as_slice()) {
        Ok(words) => Ok(words),
        Err(_) => {
            if bytes.len() % 4 != 0 {
                Err(SpirvError::LengthNotMultipleOfFour)
            } else {
                Err(SpirvError::MissingMagicNumber)
            }
        },
    }
}

/// A decoded binary has one word per four bytes and starts with the magic number.
pub proof fn lemma_spirv_words_shape(b: Seq<u8>)
    requires
        is_spirv(b),
    ensures
        spirv_words(b).len() * 4 == b.len(),
        spirv_words(b)[0] == SPIRV_MAGIC,
{
    let w = spirv_words(b);
    if starts_le_magic(b) {
        assert(le_word(b, 0) == 0x0723_0203);
    } else {
        assert(be_word(b, 0) == 0x0723_0203);
    }
    assert(w[0] == SPIRV_MAGIC);
}

} // verus!
