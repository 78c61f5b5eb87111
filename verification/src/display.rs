//! Model data laid out for the renderer.
//!
//! A model's vertex bytes and index bytes travel in one combined buffer:
//! the vertex data first, the index data after it, with the split point
//! recorded. The renderer binds the two halves of the very same buffer as
//! its vertex and index ranges, so the split arithmetic here is what keeps
//! draws reading the bytes they were given.

use vstd::prelude::*;
use vstd::slice::slice_subrange;

verus! {

/// Model data in its combined buffer, ready to be uploaded and bound.
#[derive(Debug)]
pub struct Model {
    /// The combined buffer: vertex bytes, then index bytes.
    pub buffer: Vec<u8>,
    /// How many indices the index range holds (one per four bytes).
    pub index_count: u32,
    /// Where the index range begins: the length of the vertex range.
    pub index: u64,
}

impl Model {
    /// The split point lies within the buffer, so both ranges exist.
    pub open spec fn wf(self) -> bool {
        self.index <= self.buffer@.len()
    }

    /// Create a new model from the given index and vertex data.
    pub fn new(indices: &[u8], vertices: &[u8]) -> (m: Model)
        requires
            indices@.len() + vertices@.len() <= usize::MAX,
            indices@.len() / 4 <= u32::MAX,
        ensures
            m.wf(),
            m.buffer@ == vertices@ + indices@,
            m.index == vertices@.len(),
            m.index_count == indices@.len() / 4,
    {
        let index_count = (indices.len() / 4) as u32;
        let index = vertices.len() as u64;

        let mut buf: Vec<u8> = Vec::new();
        extend_bytes(&mut buf, vertices);
        extend_bytes(&mut buf, indices);

        Model { buffer: buf, index_count, index }
    }

    /// The part of the combined buffer holding the index data.
    pub fn indices(&self) -> (r: &[u8])
        requires
            self.wf(),
        ensures
            r@ == self.buffer@.subrange(self.index as int, self.buffer@.len() as int),
    {
        slice_subrange(self.buffer.as_slice(), self.index as usize, self.buffer.len())
    }

    /// Number of indices in the model.
    pub fn index_count(&self) -> (n: u32)
        ensures
            n == self.index_count,
    {
        self.index_count
    }

    /// The part of the combined buffer holding the vertex data.
    pub fn vertices(&self) -> (r: &[u8])
        requires
            self.wf(),
        ensures
            r@ == self.buffer@.subrange(0, self.index as int),
    {
        proof {
            vstd::std_specs::vec::axiom_spec_len(&self.buffer);
        }
        slice_subrange(self.buffer.as_slice(), 0, self.index as usize)
    }
}

/// Appends the bytes of `data` to `buf`.
fn extend_bytes(buf: &mut Vec<u8>, data: &[u8])
    requires
        old(buf)@.len() + data@.len() <= usize::MAX,
    ensures
        final(buf)@ == old(buf)@ + data@,
{
    let mut i: usize = 0;
    while i < data.len()
        invariant
            i <= data@.len(),
            old(buf)@.len() + data@.len() <= usize::MAX,
            buf@ == old(buf)@ + data@.subrange(0, i as int),
        decreases data@.len() - i,
    {
        buf.push(*vstd::slice::slice_index_get(data, i));
        i = i + 1;
        proof {
            assert(buf@ =~= old(buf)@ + data@.subrange(0, i as int));
        }
    }
    proof {
        assert(buf@ =~= old(buf)@ + data@);
    }
}

} // verus!
