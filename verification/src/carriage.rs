//! The packed-word variant of the recency index.
//!
//! Instead of a table guarded by a lock, each role's `(slot, timestamp)`
//! pointer is packed into a single 64-bit word, so that a role can be read
//! or replaced in one atomic operation. The packing is laid out so that
//! comparing two packed words as plain unsigned integers ranks them first by
//! timestamp and then, for equal timestamps, by slot index. The full
//! compare-and-swap protocol over these words is an optional upgrade to the
//! locked index; the encoding itself, its limits and its ordering are what
//! this module establishes.

use vstd::prelude::*;

verus! {

/// The largest timestamp a packed pointer can carry: 56 bits of nanoseconds
/// (about 2.3 years past the carriage's baseline instant).
pub const MAX_PACKED_TIMESTAMP: u64 = 0x00ff_ffff_ffff_ffff;

/// The value a pointer packs to: the timestamp in the high 56 bits, the
/// slot index in the low 8.
pub open spec fn packed(index: u8, timestamp: u64) -> u64
    recommends
        timestamp <= MAX_PACKED_TIMESTAMP,
{
    (timestamp * 256 + index) as u64
}

/// A pointer adapter, responsible for packing internal pointers of the
/// carriage into `u64` values so that they may be used for atomic
/// operations. A pointer, in this context, is an index into the storage
/// array of the carriage along with a nanosecond-precise timestamp.
#[derive(Clone, Copy, Debug, PartialEq, Eq, Structural)]
pub struct U64PointerPacker {
    pub index: u8,
    pub timestamp: u64,
}

impl U64PointerPacker {
    /// Creates a new pointer from an index and a timestamp, in nanoseconds
    /// past the carriage's baseline.
    ///
    /// As this type is intended for packing data into one word, its values
    /// have limits: the index must fit in 8 bits and the timestamp in 56.
    /// Values beyond either limit are a fatal configuration error and are
    /// excluded up front.
    pub fn new(index: usize, timestamp: u64) -> (p: Self)
        requires
            index <= 0xff,
            timestamp <= MAX_PACKED_TIMESTAMP,
        ensures
            p.index == index,
            p.timestamp == timestamp,
    {
        Self { index: index as u8, timestamp }
    }

    /// The carriage storage index this points to.
    pub fn index(&self) -> (i: usize)
        ensures
            i == self.index,
    {
        self.index as usize
    }

    /// The timestamp associated with this pointer, in nanoseconds past the
    /// carriage's baseline; usually the time at which the pointer was last
    /// moved by one of the carriage's modification operations.
    pub fn timestamp(&self) -> (t: u64)
        ensures
            t == self.timestamp,
    {
        self.timestamp
    }

    /// Packs this pointer into a single word: the timestamp occupies the
    /// high 56 bits (shifted up by 8), the index the low 8.
    pub fn pack(self) -> (w: u64)
        requires
            self.timestamp <= MAX_PACKED_TIMESTAMP,
        ensures
            w == packed(self.index, self.timestamp),
    {
        self.timestamp * 256 + (self.index as u64)
    }

    /// Unpacks a word into the pointer it encodes: the low 8 bits name the
    /// slot, the rest is the timestamp.
    pub fn unpack(val: u64) -> (p: Self)
        ensures
            p.index == val % 256,
            p.timestamp == val / 256,
            p.timestamp <= MAX_PACKED_TIMESTAMP,
    {
        let index = (val % 256) as u8;
        let timestamp = val / 256;
        Self { index, timestamp }
    }
}

/// Law (round trip): unpacking a packed pointer gives back the index and
/// the timestamp, for every pointer within the packing limits.
pub proof fn lemma_pointer_pack_round_trip(index: u8, timestamp: u64)
    requires
        timestamp <= MAX_PACKED_TIMESTAMP,
    ensures
        packed(index, timestamp) % 256 == index,
        packed(index, timestamp) / 256 == timestamp,
{
}

/// Law (ordering): comparing two packed words as plain unsigned integers
/// ranks them first by timestamp and then, for equal timestamps, by slot
/// index. A single unsigned comparison of packed words therefore decides
/// recency.
pub proof fn lemma_packed_ordering(i1: u8, t1: u64, i2: u8, t2: u64)
    requires
        t1 <= MAX_PACKED_TIMESTAMP,
        t2 <= MAX_PACKED_TIMESTAMP,
    ensures
        packed(i1, t1) < packed(i2, t2) <==> (t1 < t2 || (t1 == t2 && i1 < i2)),
{
}

/// The storage array and the three packed role pointers of the lock-free
/// index variant. The baseline is the process instant the packed
/// timestamps are measured from; callers must pick it recently enough that
/// no timestamp outgrows 56 bits over the life of the process.
pub struct Carriage<T> {
    pub storage: [T; 3],
    pub baseline_nanos: u64,
    pub producer: u64,
    pub consumer: u64,
    pub limbo: u64,
}

/// The carriage invariant: the three packed pointers name three distinct
/// slots of the storage array.
pub open spec fn carriage_wf<T>(c: Carriage<T>) -> bool {
    &&& c.producer % 256 < 3
    &&& c.consumer % 256 < 3
    &&& c.limbo % 256 < 3
    &&& c.producer % 256 != c.consumer % 256
    &&& c.producer % 256 != c.limbo % 256
    &&& c.consumer % 256 != c.limbo % 256
}

impl<T> Carriage<T> {
    /// Creates a new carriage over the given storage, with the three role
    /// pointers assigned to slots 0, 1 and 2 and all timestamps at the
    /// baseline.
    pub fn new(storage: [T; 3], baseline_nanos: u64) -> (c: Self)
        ensures
            carriage_wf(c),
            c.storage == storage,
            c.baseline_nanos == baseline_nanos,
            c.producer == packed(0, 0),
            c.consumer == packed(1, 0),
            c.limbo == packed(2, 0),
    {
        let producer = U64PointerPacker::new(0, 0).pack();
        let consumer = U64PointerPacker::new(1, 0).pack();
        let limbo = U64PointerPacker::new(2, 0).pack();
        Self { storage, baseline_nanos, producer, consumer, limbo }
    }
}

} // verus!
