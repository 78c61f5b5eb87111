//! Shader modules, validated from their compiled SPIR-V bytes.
//!
//! The pipelines consume shaders as SPIR-V word streams. Reading the
//! compiled artifacts from disk is the caller's business; this module does
//! the checking and conversion: the byte stream must be word-aligned, must
//! hold at least the header word, and must open with the SPIR-V magic
//! number. The functions in the submodules build the module for one known
//! pipeline stage each.

pub mod herbivore_geometry_pass;
pub mod herbivores;
pub mod lighting_pass;
pub mod predator_geometry_pass;
pub mod predators;

use vstd::bytes::{spec_u32_from_le_bytes, u32_from_le_bytes};
use vstd::prelude::*;
use vstd::slice::slice_subrange;

verus! {

/// The first word of every valid SPIR-V module.
pub const SPIRV_MAGIC: u32 = 0x0723_0203;

/// The words encoded little-endian in `b`, one per four bytes.
pub open spec fn spirv_words(b: Seq<u8>) -> Seq<u32> {
    Seq::new((b.len() / 4) as nat, |i: int| spec_u32_from_le_bytes(b.subrange(4 * i, 4 * i + 4)))
}

/// Whether `b` is a well-formed SPIR-V byte stream: word-aligned, at least
/// one word long, and opening with the magic number.
pub open spec fn valid_spirv(b: Seq<u8>) -> bool {
    &&& b.len() % 4 == 0
    &&& b.len() >= 4
    &&& spirv_words(b)[0] == SPIRV_MAGIC
}

/// Why a byte stream was rejected as a shader module.
#[derive(Clone, Copy, Debug, PartialEq, Eq, Structural)]
pub enum SpirvError {
    /// The stream's length is not a multiple of the word size.
    NotWordAligned,
    /// The stream is aligned but too short to hold the header word.
    MissingHeader,
    /// The stream does not open with the SPIR-V magic number.
    WrongMagic,
}

/// What building a shader module from a byte stream returns: the decoded
/// words exactly when the stream is well formed, and otherwise the one
/// error matching what is wrong with it.
pub open spec fn spirv_result_is_exact(r: Result<SpirvModule, SpirvError>, b: Seq<u8>) -> bool {
    match r {
        Ok(m) => valid_spirv(b) && m.words@ == spirv_words(b),
        Err(SpirvError::NotWordAligned) => b.len() % 4 != 0,
        Err(SpirvError::MissingHeader) => b.len() % 4 == 0 && b.len() < 4,
        Err(SpirvError::WrongMagic) => b.len() % 4 == 0 && b.len() >= 4 && spirv_words(b)[0]
            != SPIRV_MAGIC,
    }
}

/// A validated shader module: the SPIR-V word stream ready to be handed to
/// a device.
#[derive(Debug)]
pub struct SpirvModule {
    pub words: Vec<u32>,
}

impl SpirvModule {
    /// Decode and validate a SPIR-V byte stream.
    pub fn from_bytes(bytes: &[u8]) -> (r: Result<SpirvModule, SpirvError>)
        ensures
            spirv_result_is_exact(r, bytes@),
    {
        let n = bytes.len();
        if n % 4 != 0 {
            return Err(SpirvError::NotWordAligned);
        }
        if n < 4 {
            return Err(SpirvError::MissingHeader);
        }
        let count = n / 4;
        let mut words: Vec<u32> = Vec::new();
        let mut i: usize = 0;
        while i < count
            invariant
                bytes@.len() == n,
                n % 4 == 0,
                4 <= n <= usize::MAX,
                count == n / 4,
                i <= count,
                words@ =~= spirv_words(bytes@).subrange(0, i as int),
            decreases count - i,
        {
            let w = u32_from_le_bytes(slice_subrange(bytes, 4 * i, 4 * i + 4));
            words.push(w);
            i = i + 1;
            proof {
                assert(words@ =~= spirv_words(bytes@).subrange(0, i as int));
            }
        }
        proof {
            assert(words@ =~= spirv_words(bytes@));
        }
        if *words_first(&words) != SPIRV_MAGIC {
            return Err(SpirvError::WrongMagic);
        }
        Ok(SpirvModule { words })
    }

    /// How many words the module holds.
    pub fn word_count(&self) -> (n: usize)
        ensures
            n == self.words@.len(),
    {
        self.words.len()
    }
}

/// The shader responsible for weaving in data and updating the simulation
/// plane, built from its compiled SPIR-V bytes.
pub fn update_plane(bytes: &[u8]) -> (r: Result<SpirvModule, SpirvError>)
    ensures
        spirv_result_is_exact(r, bytes@),
{
    SpirvModule::from_bytes(bytes)
}

/// Reads the first word of a non-empty word stream.
fn words_first(words: &Vec<u32>) -> (w: &u32)
    requires
        words@.len() > 0,
    ensures
        *w == words@[0],
{
    &words[0]
}

} // verus!
