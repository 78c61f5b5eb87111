//! The back-channel record that rides alongside each data slot, and its
//! fixed-layout byte codec.
//!
//! The back channel tells the host how many individuals of each group are
//! currently alive, as one half-open index range per group. It is encoded as
//! four unsigned 32-bit little-endian words: herbivore start, herbivore end,
//! predator start, predator end.

use vstd::bytes::{
    lemma_auto_spec_u32_to_from_le_bytes, spec_u32_from_le_bytes, spec_u32_to_le_bytes,
    u32_from_le_bytes, u32_to_le_bytes,
};
use vstd::prelude::*;
use vstd::slice::slice_subrange;

verus! {

/// A half-open range `[start, end)` of individuals alive in one group.
#[derive(Clone, Copy, Debug, PartialEq, Eq, Structural)]
pub struct AliveRange {
    pub start: u32,
    pub end: u32,
}

/// The back channel the compute pipelines use to report alive-entity ranges
/// back to the host: one range for the herbivore group, one for the predator
/// group.
#[derive(Clone, Copy, Debug, PartialEq, Eq, Structural)]
pub struct BackChannel {
    /// Herbivore dispatch range for the next iteration.
    pub herbivores: AliveRange,
    /// Predator dispatch range for the next iteration.
    pub predators: AliveRange,
}

/// The fixed 16-byte encoding of a back-channel record.
pub open spec fn back_channel_bytes(c: BackChannel) -> Seq<u8> {
    spec_u32_to_le_bytes(c.herbivores.start) + spec_u32_to_le_bytes(c.herbivores.end)
        + spec_u32_to_le_bytes(c.predators.start) + spec_u32_to_le_bytes(c.predators.end)
}

/// The back-channel record held in the first 16 bytes of `b`.
pub open spec fn decoded_back_channel(b: Seq<u8>) -> BackChannel
    recommends
        b.len() >= 16,
{
    BackChannel {
        herbivores: AliveRange {
            start: spec_u32_from_le_bytes(b.subrange(0, 4)),
            end: spec_u32_from_le_bytes(b.subrange(4, 8)),
        },
        predators: AliveRange {
            start: spec_u32_from_le_bytes(b.subrange(8, 12)),
            end: spec_u32_from_le_bytes(b.subrange(12, 16)),
        },
    }
}

/// Both ranges of `c` are well formed: the lower bound does not exceed the
/// upper bound.
pub open spec fn ranges_ordered(c: BackChannel) -> bool {
    c.herbivores.start <= c.herbivores.end && c.predators.start <= c.predators.end
}

/// Both ranges of `c` stay within the per-group individual budgets.
pub open spec fn within_budgets(c: BackChannel, herbivore_budget: u32, predator_budget: u32) -> bool {
    c.herbivores.end <= herbivore_budget && c.predators.end <= predator_budget
}

impl BackChannel {
    /// Decodes a back-channel record from the first 16 bytes of a buffer.
    ///
    /// The bytes must have been produced by this channel's own encoder, so a
    /// buffer that is too short or holds an inverted range is a fatal
    /// data-corruption condition and is excluded up front; `try_from_bytes`
    /// accepts arbitrary bytes instead.
    pub fn from_bytes(bytes: &[u8]) -> (r: Self)
        requires
            bytes@.len() >= 16,
            ranges_ordered(decoded_back_channel(bytes@)),
        ensures
            r == decoded_back_channel(bytes@),
    {
        let a = u32_from_le_bytes(slice_subrange(bytes, 0, 4));
        let b = u32_from_le_bytes(slice_subrange(bytes, 4, 8));
        let c = u32_from_le_bytes(slice_subrange(bytes, 8, 12));
        let d = u32_from_le_bytes(slice_subrange(bytes, 12, 16));
        Self {
            herbivores: AliveRange { start: a, end: b },
            predators: AliveRange { start: c, end: d },
        }
    }

    /// Decodes a back-channel record, detecting corruption instead of
    /// excluding it: returns `None` exactly when the buffer is shorter than
    /// the fixed layout or a decoded range has its lower bound above its
    /// upper bound.
    pub fn try_from_bytes(bytes: &[u8]) -> (r: Option<Self>)
        ensures
            match r {
                Some(c) => bytes@.len() >= 16 && c == decoded_back_channel(bytes@)
                    && ranges_ordered(c),
                None => bytes@.len() < 16 || !ranges_ordered(decoded_back_channel(bytes@)),
            },
    {
        if bytes.len() < 16 {
            return None;
        }
        let a = u32_from_le_bytes(slice_subrange(bytes, 0, 4));
        let b = u32_from_le_bytes(slice_subrange(bytes, 4, 8));
        let c = u32_from_le_bytes(slice_subrange(bytes, 8, 12));
        let d = u32_from_le_bytes(slice_subrange(bytes, 12, 16));
        if a > b || c > d {
            return None;
        }
        Some(Self {
            herbivores: AliveRange { start: a, end: b },
            predators: AliveRange { start: c, end: d },
        })
    }

    /// Appends the 16-byte encoding of this record to `buf` and returns how
    /// many bytes were written.
    pub fn bytes(&self, buf: &mut Vec<u8>) -> (n: usize)
        requires
            old(buf)@.len() + 16 <= usize::MAX,
        ensures
            final(buf)@ == old(buf)@ + back_channel_bytes(*self),
            n == 16,
    {
        let mut n: usize = 0;
        n = n + write_u32(buf, self.herbivores.start);
        n = n + write_u32(buf, self.herbivores.end);
        n = n + write_u32(buf, self.predators.start);
        n = n + write_u32(buf, self.predators.end);
        proof {
            assert(buf@ =~= old(buf)@ + back_channel_bytes(*self));
        }
        n
    }
}

/// Appends `size` zero bytes to the buffer, as layout padding.
pub fn write_pad(buf: &mut Vec<u8>, size: usize) -> (n: usize)
    requires
        old(buf)@.len() + size <= usize::MAX,
    ensures
        final(buf)@ == old(buf)@ + Seq::new(size as nat, |i: int| 0u8),
        n == size,
{
    let mut i: usize = 0;
    while i < size
        invariant
            i <= size,
            old(buf)@.len() + size <= usize::MAX,
            buf@.len() == old(buf)@.len() + i,
            buf@ == old(buf)@ + Seq::new(i as nat, |j: int| 0u8),
        decreases size - i,
    {
        buf.push(0);
        i = i + 1;
        proof {
            assert(buf@ =~= old(buf)@ + Seq::new(i as nat, |j: int| 0u8));
        }
    }
    size
}

/// Appends the four little-endian bytes of `val` to the buffer.
pub fn write_u32(buf: &mut Vec<u8>, val: u32) -> (n: usize)
    requires
        old(buf)@.len() + 4 <= usize::MAX,
    ensures
        final(buf)@ == old(buf)@ + spec_u32_to_le_bytes(val),
        final(buf)@.len() == old(buf)@.len() + 4,
        n == 4,
{
    let bytes = u32_to_le_bytes(val);
    buf.push(bytes[0]);
    buf.push(bytes[1]);
    buf.push(bytes[2]);
    buf.push(bytes[3]);
    proof {
        assert(buf@ =~= old(buf)@ + spec_u32_to_le_bytes(val));
    }
    4
}

/// Law: decoding an encoded back-channel record gives the record back, for
/// every record; on well-formed records this is the round trip the channel
/// relies on when it reads back what it wrote.
pub proof fn lemma_back_channel_round_trip(c: BackChannel)
    ensures
        decoded_back_channel(back_channel_bytes(c)) == c,
{
    lemma_auto_spec_u32_to_from_le_bytes();
    let b = back_channel_bytes(c);
    assert(b.subrange(0, 4) =~= spec_u32_to_le_bytes(c.herbivores.start));
    assert(b.subrange(4, 8) =~= spec_u32_to_le_bytes(c.herbivores.end));
    assert(b.subrange(8, 12) =~= spec_u32_to_le_bytes(c.predators.start));
    assert(b.subrange(12, 16) =~= spec_u32_to_le_bytes(c.predators.end));
}

/// Law: encoding the record decoded from a 16-byte buffer reproduces the
/// buffer, so a slot's back-channel bytes are exactly determined by the
/// record they hold.
pub proof fn lemma_back_channel_bytes_of_decoded(b: Seq<u8>)
    requires
        b.len() == 16,
    ensures
        back_channel_bytes(decoded_back_channel(b)) == b,
{
    lemma_auto_spec_u32_to_from_le_bytes();
    assert(back_channel_bytes(decoded_back_channel(b)) =~= b);
}

} // verus!
