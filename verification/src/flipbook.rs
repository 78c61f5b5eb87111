//! The recency-tracked triple-buffer channel between the simulation backend
//! (producer) and the renderer (consumer).
//!
//! Three fixed slots each hold one complete copy of the dataset: the two
//! population payloads, the simulation-plane field grid, and the back-channel
//! record. A role table assigns the roles producer, storage relay and
//! consumer to the three slots once, at construction; the roles never move.
//! Publishing a frame copies payload bytes from the producer slot into the
//! storage slot, and a snapshot pulls the storage slot into the consumer slot
//! exactly when the storage slot was stamped more recently than the
//! consumer's current copy.
//!
//! Recency is tracked with a logical clock: every publish and every snapshot
//! stamp draws a fresh, strictly larger tick. An execution interleaves the
//! producer's and the consumer's operations in some order; the contracts
//! below describe each operation as one step on the channel state, and the
//! law lemmas state the guarantees that hold along every such interleaving.
//!
//! Exclusive write access for a frame and exclusive read access for a
//! snapshot are expressed through the open-frame protocol: `begin_frame`
//! demands that no frame is open, the mutating frame operations demand an
//! open frame, and `end_frame` publishes and closes it. Callers that verify
//! against these contracts can never overlap two frames.

use crate::dataset::{
    back_channel_bytes, decoded_back_channel, lemma_back_channel_round_trip, ranges_ordered,
    within_budgets, AliveRange, BackChannel,
};
use vstd::prelude::*;

verus! {

/// The payload bytes one slot holds: both population buffers, the field
/// grid, and the encoded back-channel record.
#[verifier::ext_equal]
pub struct PayloadView {
    pub herbivores: Seq<u8>,
    pub predators: Seq<u8>,
    pub plane: Seq<u8>,
    pub back: Seq<u8>,
}

/// The model of one slot: its payload plus the fixed shape parameters the
/// slot was allocated with.
#[verifier::ext_equal]
pub struct SlotView {
    pub payload: PayloadView,
    pub plane_width: u32,
    pub plane_height: u32,
    pub herbivore_budget: u32,
    pub predator_budget: u32,
}

/// The model of the whole channel: the three slots, the role table with its
/// stamps, the logical clock, and whether a frame is open.
#[verifier::ext_equal]
pub struct ChannelView {
    pub slots: Seq<SlotView>,
    pub producer_slot: int,
    pub producer_time: int,
    pub storage_slot: int,
    pub storage_time: int,
    pub consumer_slot: int,
    pub consumer_time: int,
    pub clock: int,
    pub frame_open: bool,
}

/// A slot is well formed when its back-channel bytes hold a valid record
/// within the slot's budgets, and its shape agrees with the reference slot
/// `s0` (all three slots of a channel are same-shaped, so payload copies
/// always fit).
pub open spec fn slot_wf(s: SlotView, s0: SlotView) -> bool {
    &&& s.payload.back.len() == 16
    &&& ranges_ordered(decoded_back_channel(s.payload.back))
    &&& within_budgets(decoded_back_channel(s.payload.back), s.herbivore_budget, s.predator_budget)
    &&& s.plane_width == s0.plane_width
    &&& s.plane_height == s0.plane_height
    &&& s.herbivore_budget == s0.herbivore_budget
    &&& s.predator_budget == s0.predator_budget
    &&& s.payload.herbivores.len() == s0.payload.herbivores.len()
    &&& s.payload.predators.len() == s0.payload.predators.len()
    &&& s.payload.plane.len() == s.plane_width * s.plane_height * 16
}

/// The channel invariant: exactly three slots, the roles a permutation of
/// the slots, producer and storage stamped together, all stamps within the
/// clock, and every slot well formed.
pub open spec fn inv(v: ChannelView) -> bool {
    &&& v.slots.len() == 3
    &&& 0 <= v.producer_slot < 3
    &&& 0 <= v.storage_slot < 3
    &&& 0 <= v.consumer_slot < 3
    &&& v.producer_slot != v.storage_slot
    &&& v.producer_slot != v.consumer_slot
    &&& v.storage_slot != v.consumer_slot
    &&& v.producer_time == v.storage_time
    &&& 0 <= v.storage_time <= v.clock
    &&& 0 <= v.consumer_time <= v.clock
    &&& forall|i: int| 0 <= i < 3 ==> slot_wf(#[trigger] v.slots[i], v.slots[0])
}

/// The slot `dst` after the payload of `src` was copied into it; the shape
/// parameters belong to the destination and stay.
pub open spec fn copied_into(src: SlotView, dst: SlotView) -> SlotView {
    SlotView { payload: src.payload, ..dst }
}

/// One `bundle_copy(source, target)` step on the model.
pub open spec fn with_copy(v: ChannelView, source: int, target: int) -> ChannelView {
    ChannelView {
        slots: v.slots.update(target, copied_into(v.slots[source], v.slots[target])),
        ..v
    }
}

/// The `begin_frame` step: the open-frame mark is set; nothing else moves.
pub open spec fn began(v: ChannelView) -> ChannelView {
    ChannelView { frame_open: true, ..v }
}

/// The frame-completion step (the write guard going out of scope): a fresh
/// tick stamps the producer and storage roles, the producer slot's payload
/// is copied into the storage slot, and the frame closes.
pub open spec fn published(v: ChannelView) -> ChannelView {
    ChannelView {
        slots: v.slots.update(
            v.storage_slot,
            copied_into(v.slots[v.producer_slot], v.slots[v.storage_slot]),
        ),
        producer_time: v.clock + 1,
        storage_time: v.clock + 1,
        clock: v.clock + 1,
        frame_open: false,
        ..v
    }
}

/// The snapshot step: when the storage slot was stamped more recently than
/// the consumer's copy, the storage payload is pulled into the consumer slot
/// and the consumer role is stamped with a fresh tick; otherwise the
/// consumer's copy is already the latest available and nothing is copied.
pub open spec fn refreshed(v: ChannelView) -> ChannelView {
    if v.storage_time > v.consumer_time {
        ChannelView {
            slots: v.slots.update(
                v.consumer_slot,
                copied_into(v.slots[v.storage_slot], v.slots[v.consumer_slot]),
            ),
            consumer_time: v.clock + 1,
            clock: v.clock + 1,
            ..v
        }
    } else {
        ChannelView { clock: v.clock + 1, ..v }
    }
}

/// One storage slot with its payload buffers, shape parameters and encoded
/// back-channel record.
#[derive(Debug)]
pub struct Bundle {
    /// Herbivore population payload bytes.
    pub herbivores: Vec<u8>,
    /// Predator population payload bytes.
    pub predators: Vec<u8>,
    /// Field-grid payload bytes, one 16-byte texel per cell.
    pub plane: Vec<u8>,
    /// The encoded back-channel record, 16 bytes.
    pub back_channel: Vec<u8>,
    /// Width of the field grid, in cells.
    pub plane_width: u32,
    /// Height of the field grid, in cells.
    pub plane_height: u32,
    /// Largest number of herbivore individuals the slot can hold.
    pub herbivore_budget: u32,
    /// Largest number of predator individuals the slot can hold.
    pub predator_budget: u32,
}

impl View for Bundle {
    type V = SlotView;

    open spec fn view(&self) -> SlotView {
        SlotView {
            payload: PayloadView {
                herbivores: self.herbivores@,
                predators: self.predators@,
                plane: self.plane@,
                back: self.back_channel@,
            },
            plane_width: self.plane_width,
            plane_height: self.plane_height,
            herbivore_budget: self.herbivore_budget,
            predator_budget: self.predator_budget,
        }
    }
}

/// The shape a channel is created with: field-grid dimensions and, for each
/// group, how many individuals start out alive and how many the slots are
/// sized for.
#[derive(Clone, Copy, Debug, PartialEq, Eq, Structural)]
pub struct ChannelConfig {
    pub plane_width: u32,
    pub plane_height: u32,
    pub herbivore_individuals: u32,
    pub herbivore_budget: u32,
    pub predator_individuals: u32,
    pub predator_budget: u32,
}

/// The back-channel record every slot starts with: all initially spawned
/// individuals alive, starting at index zero.
pub open spec fn initial_back_channel(config: ChannelConfig) -> BackChannel {
    BackChannel {
        herbivores: AliveRange { start: 0, end: config.herbivore_individuals },
        predators: AliveRange { start: 0, end: config.predator_individuals },
    }
}

/// The slot every bundle of a fresh channel holds: the given population
/// payloads, an all-zero field grid, and the initial back-channel record.
pub open spec fn initial_slot(config: ChannelConfig, herbivores: Seq<u8>, predators: Seq<u8>) -> SlotView {
    SlotView {
        payload: PayloadView {
            herbivores: herbivores,
            predators: predators,
            plane: Seq::new((config.plane_width * config.plane_height * 16) as nat, |i: int| 0u8),
            back: back_channel_bytes(initial_back_channel(config)),
        },
        plane_width: config.plane_width,
        plane_height: config.plane_height,
        herbivore_budget: config.herbivore_budget,
        predator_budget: config.predator_budget,
    }
}

/// A fresh channel: three identical slots, the roles assigned in order, all
/// stamps equal (which avoids a spurious copy on first use), and no frame
/// open.
pub open spec fn initial_view(config: ChannelConfig, herbivores: Seq<u8>, predators: Seq<u8>) -> ChannelView {
    ChannelView {
        slots: Seq::new(3, |i: int| initial_slot(config, herbivores, predators)),
        producer_slot: 0,
        producer_time: 0,
        storage_slot: 1,
        storage_time: 0,
        consumer_slot: 2,
        consumer_time: 0,
        clock: 0,
        frame_open: false,
    }
}

/// The demands `channel` and the bundle builders place on a configuration
/// and its initial payloads: the initially alive ranges must fit the
/// budgets, and the field grid must be addressable.
pub open spec fn config_fits(config: ChannelConfig) -> bool {
    &&& config.herbivore_individuals <= config.herbivore_budget
    &&& config.predator_individuals <= config.predator_budget
    &&& config.plane_width * config.plane_height * 16 <= usize::MAX
}

/// A fresh channel satisfies the invariant: the roles are a permutation,
/// all stamps are zero, and every slot is well formed.
pub proof fn lemma_initial_inv(config: ChannelConfig, herbivores: Seq<u8>, predators: Seq<u8>)
    requires
        config_fits(config),
    ensures
        inv(initial_view(config, herbivores, predators)),
{
    vstd::bytes::lemma_auto_spec_u32_to_from_le_bytes();
    lemma_back_channel_round_trip(initial_back_channel(config));
    let v = initial_view(config, herbivores, predators);
    assert(v.slots[0].payload.back.len() == 16);
    assert forall|i: int| 0 <= i < 3 implies slot_wf(#[trigger] v.slots[i], v.slots[0]) by {
        assert(v.slots[i] == initial_slot(config, herbivores, predators));
    }
}

impl Bundle {
    /// Create a new bundle with the given shape and the given initial
    /// population payload bytes.
    pub fn new_with_populations(config: &ChannelConfig, herbivores: &[u8], predators: &[u8]) -> (b: Bundle)
        requires
            config_fits(*config),
        ensures
            b@ == initial_slot(*config, herbivores@, predators@),
    {
        let mut plane: Vec<u8> = Vec::new();
        let plane_len: usize =
            (config.plane_width as usize) * (config.plane_height as usize) * 16;
        crate::dataset::write_pad(&mut plane, plane_len);

        let initial = BackChannel {
            herbivores: AliveRange { start: 0, end: config.herbivore_individuals },
            predators: AliveRange { start: 0, end: config.predator_individuals },
        };
        let mut back: Vec<u8> = Vec::new();
        initial.bytes(&mut back);

        let b = Bundle {
            herbivores: slice_to_vec_u8(herbivores),
            predators: slice_to_vec_u8(predators),
            plane,
            back_channel: back,
            plane_width: config.plane_width,
            plane_height: config.plane_height,
            herbivore_budget: config.herbivore_budget,
            predator_budget: config.predator_budget,
        };
        proof {
            assert(b@ =~~= initial_slot(*config, herbivores@, predators@));
        }
        b
    }

    /// Decode the back-channel record this bundle carries.
    ///
    /// The bytes should only ever have been written by the channel's own
    /// encoder, so a malformed record is a fatal corruption condition and is
    /// excluded up front.
    pub fn read_back_channel(&self) -> (c: BackChannel)
        requires
            self@.payload.back.len() >= 16,
            ranges_ordered(decoded_back_channel(self@.payload.back)),
        ensures
            c == decoded_back_channel(self@.payload.back),
    {
        BackChannel::from_bytes(self.back_channel.as_slice())
    }

    /// Encode the given record into this bundle's back-channel bytes,
    /// replacing the previous record; returns how many bytes were written.
    pub fn write_back_channel(&mut self, data: BackChannel) -> (n: usize)
        ensures
            final(self)@ == (SlotView {
                payload: PayloadView { back: back_channel_bytes(data), ..old(self)@.payload },
                ..old(self)@
            }),
            n == 16,
    {
        let mut buf: Vec<u8> = Vec::new();
        let n = data.bytes(&mut buf);
        self.back_channel = buf;
        proof {
            assert(self@ =~~= (SlotView {
                payload: PayloadView { back: back_channel_bytes(data), ..old(self)@.payload },
                ..old(self)@
            }));
        }
        n
    }
}

/// Copies a byte slice into a fresh vector.
fn slice_to_vec_u8(s: &[u8]) -> (r: Vec<u8>)
    ensures
        r@ == s@,
{
    let r = vstd::slice::slice_to_vec(s);
    proof {
        assert(r@ =~= s@);
    }
    r
}

/// Copies a byte vector.
fn clone_bytes(v: &Vec<u8>) -> (r: Vec<u8>)
    ensures
        r@ == v@,
{
    let r = v.clone();
    proof {
        assert(r@ =~= v@);
    }
    r
}

/// Yields any number of identical bundles, all built from one configuration
/// and one pair of initial population payloads.
pub struct BundleFactory {
    pub config: ChannelConfig,
    pub herbivores: Vec<u8>,
    pub predators: Vec<u8>,
}

impl BundleFactory {
    /// Create a new factory with the given parameters.
    pub fn new(config: ChannelConfig, herbivores: Vec<u8>, predators: Vec<u8>) -> (f: BundleFactory)
        ensures
            f.config == config,
            f.herbivores@ == herbivores@,
            f.predators@ == predators@,
    {
        BundleFactory { config, herbivores, predators }
    }

    /// Build the next bundle; every bundle from one factory is identical.
    pub fn next(&self) -> (b: Bundle)
        requires
            config_fits(self.config),
        ensures
            b@ == initial_slot(self.config, self.herbivores@, self.predators@),
    {
        Bundle::new_with_populations(
            &self.config,
            self.herbivores.as_slice(),
            self.predators.as_slice(),
        )
    }
}

/// The stamp one role carries: which slot the role is assigned to, and the
/// logical tick of its last update.
#[derive(Clone, Copy, Debug)]
pub struct RoleStamp {
    pub slot: u8,
    pub time: u64,
}

/// The role table: one stamped slot assignment per role.
#[derive(Clone, Copy, Debug)]
pub struct Index {
    pub producer: RoleStamp,
    pub storage: RoleStamp,
    pub consumer: RoleStamp,
}

/// The channel itself: three same-shaped slots, the role table, the logical
/// clock, and the open-frame mark.
pub struct Flipbook {
    pub bundles: Vec<Bundle>,
    pub index: Index,
    pub clock: u64,
    pub frame_open: bool,
}

impl View for Flipbook {
    type V = ChannelView;

    open spec fn view(&self) -> ChannelView {
        ChannelView {
            slots: Seq::new(self.bundles@.len(), |i: int| self.bundles@[i]@),
            producer_slot: self.index.producer.slot as int,
            producer_time: self.index.producer.time as int,
            storage_slot: self.index.storage.slot as int,
            storage_time: self.index.storage.time as int,
            consumer_slot: self.index.consumer.slot as int,
            consumer_time: self.index.consumer.time as int,
            clock: self.clock as int,
            frame_open: self.frame_open,
        }
    }
}

/// Creates a new channel, with all the required backing slots built from the
/// given configuration and initial population payloads.
///
/// The channel is made up of three slots, each holding a complete copy of
/// the dataset at one point in time. All three role stamps start out equal,
/// so the first snapshot before any completed frame copies nothing.
pub fn channel(config: ChannelConfig, herbivores: Vec<u8>, predators: Vec<u8>) -> (book: Flipbook)
    requires
        config_fits(config),
    ensures
        book.wf(),
        book@ == initial_view(config, herbivores@, predators@),
{
    let factory = BundleFactory::new(config, herbivores, predators);
    let mut bundles: Vec<Bundle> = Vec::new();
    bundles.push(factory.next());
    bundles.push(factory.next());
    bundles.push(factory.next());

    let now: u64 = 0;
    let book = Flipbook {
        bundles,
        index: Index {
            producer: RoleStamp { slot: 0, time: now },
            storage: RoleStamp { slot: 1, time: now },
            consumer: RoleStamp { slot: 2, time: now },
        },
        clock: now,
        frame_open: false,
    };
    proof {
        assert(book@ =~~= initial_view(config, factory.herbivores@, factory.predators@));
        lemma_initial_inv(config, factory.herbivores@, factory.predators@);
    }
    book
}

impl Flipbook {
    /// The channel invariant, on the model of this value.
    pub open spec fn wf(self) -> bool {
        inv(self@)
    }

    /// Copies the payload of the bundle at the first index into the bundle
    /// at the second index. Both indices must name one of the three slots.
    pub fn bundle_copy(&mut self, source: u8, target: u8)
        requires
            old(self).wf(),
            source < 3,
            target < 3,
        ensures
            final(self).wf(),
            final(self)@ == with_copy(old(self)@, source as int, target as int),
    {
        let s = source as usize;
        let t = target as usize;
        let herbivores = clone_bytes(&self.bundles[s].herbivores);
        let predators = clone_bytes(&self.bundles[s].predators);
        let plane = clone_bytes(&self.bundles[s].plane);
        let back_channel = clone_bytes(&self.bundles[s].back_channel);
        let fresh = Bundle {
            herbivores,
            predators,
            plane,
            back_channel,
            plane_width: self.bundles[t].plane_width,
            plane_height: self.bundles[t].plane_height,
            herbivore_budget: self.bundles[t].herbivore_budget,
            predator_budget: self.bundles[t].predator_budget,
        };
        self.bundles.set(t, fresh);
        proof {
            assert(self@ =~~= with_copy(old(self)@, source as int, target as int));
        }
    }

    /// The budget for individuals in the herbivore group in each slot.
    pub fn herbivore_budget(&self) -> (n: u32)
        requires
            self.wf(),
        ensures
            n == self@.slots[0].herbivore_budget,
    {
        self.bundles[0].herbivore_budget
    }

    /// The budget for individuals in the predator group in each slot.
    pub fn predator_budget(&self) -> (n: u32)
        requires
            self.wf(),
        ensures
            n == self@.slots[0].predator_budget,
    {
        self.bundles[0].predator_budget
    }

    /// Width of the simulation plane, in storage units.
    pub fn plane_width(&self) -> (n: u32)
        requires
            self.wf(),
        ensures
            n == self@.slots[0].plane_width,
    {
        self.bundles[0].plane_width
    }

    /// Height of the simulation plane, in storage units.
    pub fn plane_height(&self) -> (n: u32)
        requires
            self.wf(),
        ensures
            n == self@.slots[0].plane_height,
    {
        self.bundles[0].plane_height
    }

    /// Acquire write access for one frame: returns the producer slot, whose
    /// payload the frame operations below mutate. No frame may already be
    /// open, which keeps writers exclusive.
    ///
    /// Reads the producer's slot assignment; no stamp moves until the frame
    /// is completed by `end_frame`.
    pub fn begin_frame(&mut self) -> (slot: u8)
        requires
            old(self).wf(),
            !old(self)@.frame_open,
        ensures
            final(self).wf(),
            final(self)@ == began(old(self)@),
            slot as int == old(self)@.producer_slot,
    {
        self.frame_open = true;
        proof {
            assert(self@ =~~= began(old(self)@));
        }
        self.index.producer.slot
    }

    /// Read the back-channel record of the open frame's slot.
    pub fn alive_ranges(&self) -> (c: BackChannel)
        requires
            self.wf(),
            self@.frame_open,
        ensures
            c == decoded_back_channel(self@.slots[self@.producer_slot].payload.back),
    {
        let p = self.index.producer.slot as usize;
        proof {
            assert(slot_wf(self@.slots[p as int], self@.slots[0]));
        }
        self.bundles[p].read_back_channel()
    }

    /// Read-only view of the herbivore payload of the open frame's slot,
    /// for a producer that steps the previous state in place.
    pub fn frame_herbivores(&self) -> (r: &Vec<u8>)
        requires
            self.wf(),
            self@.frame_open,
        ensures
            r@ == self@.slots[self@.producer_slot].payload.herbivores,
    {
        let p = self.index.producer.slot as usize;
        &self.bundles[p].herbivores
    }

    /// Read-only view of the predator payload of the open frame's slot.
    pub fn frame_predators(&self) -> (r: &Vec<u8>)
        requires
            self.wf(),
            self@.frame_open,
        ensures
            r@ == self@.slots[self@.producer_slot].payload.predators,
    {
        let p = self.index.producer.slot as usize;
        &self.bundles[p].predators
    }

    /// Read-only view of the field-grid payload of the open frame's slot.
    pub fn frame_plane(&self) -> (r: &Vec<u8>)
        requires
            self.wf(),
            self@.frame_open,
        ensures
            r@ == self@.slots[self@.producer_slot].payload.plane,
    {
        let p = self.index.producer.slot as usize;
        &self.bundles[p].plane
    }

    /// Set the back-channel record of the open frame's slot.
    ///
    /// Fails with `RangeError::InvertedRange` exactly when a range's lower
    /// bound exceeds its upper bound, and otherwise with
    /// `RangeError::BeyondBudget` exactly when a range's upper bound exceeds
    /// that group's budget; on failure the channel is unchanged.
    pub fn set_alive_ranges(&mut self, ranges: BackChannel) -> (r: Result<(), RangeError>)
        requires
            old(self).wf(),
            old(self)@.frame_open,
        ensures
            final(self).wf(),
            !ranges_ordered(ranges) ==> r == Result::<(), RangeError>::Err(RangeError::InvertedRange)
                && final(self)@ == old(self)@,
            ranges_ordered(ranges) && !within_budgets(
                ranges,
                old(self)@.slots[0].herbivore_budget,
                old(self)@.slots[0].predator_budget,
            ) ==> r == Result::<(), RangeError>::Err(RangeError::BeyondBudget)
                && final(self)@ == old(self)@,
            ranges_ordered(ranges) && within_budgets(
                ranges,
                old(self)@.slots[0].herbivore_budget,
                old(self)@.slots[0].predator_budget,
            ) ==> r == Result::<(), RangeError>::Ok(())
                && final(self)@ == with_back(old(self)@, back_channel_bytes(ranges)),
    {
        if ranges.herbivores.start > ranges.herbivores.end
            || ranges.predators.start > ranges.predators.end {
            return Err(RangeError::InvertedRange);
        }
        let p = self.index.producer.slot as usize;
        proof {
            assert(slot_wf(self@.slots[p as int], self@.slots[0]));
        }
        if ranges.herbivores.end > self.bundles[p].herbivore_budget
            || ranges.predators.end > self.bundles[p].predator_budget {
            return Err(RangeError::BeyondBudget);
        }
        let mut fresh = Vec::new();
        ranges.bytes(&mut fresh);
        let b = &mut self.bundles[p];
        b.back_channel = fresh;
        proof {
            lemma_back_channel_round_trip(ranges);
            vstd::bytes::lemma_auto_spec_u32_to_from_le_bytes();
            assert(self@ =~~= with_back(old(self)@, back_channel_bytes(ranges)));
        }
        Ok(())
    }

    /// Replace the herbivore payload of the open frame's slot. The slots are
    /// resource-identity-fixed, so a write must keep the payload's size.
    pub fn write_herbivores(&mut self, data: &[u8])
        requires
            old(self).wf(),
            old(self)@.frame_open,
            data@.len() == old(self)@.slots[old(self)@.producer_slot].payload.herbivores.len(),
        ensures
            final(self).wf(),
            final(self)@ == with_herbivores(old(self)@, data@),
    {
        let p = self.index.producer.slot as usize;
        let fresh = slice_to_vec_u8(data);
        let b = &mut self.bundles[p];
        b.herbivores = fresh;
        proof {
            assert(self@ =~~= with_herbivores(old(self)@, data@));
        }
    }

    /// Replace the predator payload of the open frame's slot, keeping its
    /// size.
    pub fn write_predators(&mut self, data: &[u8])
        requires
            old(self).wf(),
            old(self)@.frame_open,
            data@.len() == old(self)@.slots[old(self)@.producer_slot].payload.predators.len(),
        ensures
            final(self).wf(),
            final(self)@ == with_predators(old(self)@, data@),
    {
        let p = self.index.producer.slot as usize;
        let fresh = slice_to_vec_u8(data);
        let b = &mut self.bundles[p];
        b.predators = fresh;
        proof {
            assert(self@ =~~= with_predators(old(self)@, data@));
        }
    }

    /// Replace the field-grid payload of the open frame's slot, keeping its
    /// size.
    pub fn write_plane(&mut self, data: &[u8])
        requires
            old(self).wf(),
            old(self)@.frame_open,
            data@.len() == old(self)@.slots[old(self)@.producer_slot].payload.plane.len(),
        ensures
            final(self).wf(),
            final(self)@ == with_plane(old(self)@, data@),
    {
        let p = self.index.producer.slot as usize;
        let fresh = slice_to_vec_u8(data);
        let b = &mut self.bundles[p];
        b.plane = fresh;
        proof {
            assert(self@ =~~= with_plane(old(self)@, data@));
        }
    }

    /// Complete the open frame: stamp the producer and storage roles with a
    /// fresh tick and copy the frame's payload into the storage slot, which
    /// publishes it for the consumer. This is the only step that makes new
    /// data visible.
    pub fn end_frame(&mut self)
        requires
            old(self).wf(),
            old(self)@.frame_open,
            old(self).clock < u64::MAX,
        ensures
            final(self).wf(),
            final(self)@ == published(old(self)@),
    {
        let now = self.clock + 1;
        self.clock = now;
        self.index.producer.time = now;
        self.index.storage.time = now;
        self.frame_open = false;
        let source = self.index.producer.slot;
        let target = self.index.storage.slot;
        self.bundle_copy(source, target);
        proof {
            assert(self@ =~~= published(old(self)@));
        }
    }

    /// Acquire read access to the freshest available slot.
    ///
    /// Runs the freshness rule: when the storage slot was stamped more
    /// recently than the consumer's current copy, the storage payload is
    /// pulled into the consumer slot and the consumer role is stamped with a
    /// fresh tick; otherwise the consumer's existing copy is already the
    /// latest available and nothing moves. Never waits for the producer.
    pub fn snapshot(&mut self) -> (s: Snapshot)
        requires
            old(self).wf(),
            old(self).clock < u64::MAX,
        ensures
            final(self).wf(),
            final(self)@ == refreshed(old(self)@),
            s.slot as int == final(self)@.consumer_slot,
            s.time as int == final(self)@.consumer_time,
    {
        let now = self.clock + 1;
        self.clock = now;
        if self.index.storage.time > self.index.consumer.time {
            let source = self.index.storage.slot;
            let target = self.index.consumer.slot;
            self.bundle_copy(source, target);
            self.index.consumer.time = now;
        }
        proof {
            assert(self@ =~~= refreshed(old(self)@));
        }
        Snapshot { slot: self.index.consumer.slot, time: self.index.consumer.time }
    }

    /// Read-only view of the herbivore payload of the consumer slot, the
    /// slot the latest `snapshot` resolved to.
    pub fn snapshot_herbivores(&self) -> (r: &Vec<u8>)
        requires
            self.wf(),
        ensures
            r@ == self@.slots[self@.consumer_slot].payload.herbivores,
    {
        let c = self.index.consumer.slot as usize;
        &self.bundles[c].herbivores
    }

    /// Read-only view of the predator payload of the consumer slot.
    pub fn snapshot_predators(&self) -> (r: &Vec<u8>)
        requires
            self.wf(),
        ensures
            r@ == self@.slots[self@.consumer_slot].payload.predators,
    {
        let c = self.index.consumer.slot as usize;
        &self.bundles[c].predators
    }

    /// Read-only view of the field-grid payload of the consumer slot.
    pub fn snapshot_plane(&self) -> (r: &Vec<u8>)
        requires
            self.wf(),
        ensures
            r@ == self@.slots[self@.consumer_slot].payload.plane,
    {
        let c = self.index.consumer.slot as usize;
        &self.bundles[c].plane
    }

    /// Decode the back-channel record of the consumer slot.
    pub fn snapshot_alive_ranges(&self) -> (c: BackChannel)
        requires
            self.wf(),
        ensures
            c == decoded_back_channel(self@.slots[self@.consumer_slot].payload.back),
    {
        let i = self.index.consumer.slot as usize;
        proof {
            assert(slot_wf(self@.slots[i as int], self@.slots[0]));
        }
        self.bundles[i].read_back_channel()
    }
}

/// The `set_alive_ranges` step on the model: the producer slot's
/// back-channel bytes are replaced.
pub open spec fn with_back(v: ChannelView, back: Seq<u8>) -> ChannelView {
    let s = v.slots[v.producer_slot];
    ChannelView {
        slots: v.slots.update(
            v.producer_slot,
            SlotView { payload: PayloadView { back: back, ..s.payload }, ..s },
        ),
        ..v
    }
}

/// A frame write on the model: the producer slot's herbivore payload is
/// replaced.
pub open spec fn with_herbivores(v: ChannelView, data: Seq<u8>) -> ChannelView {
    let s = v.slots[v.producer_slot];
    ChannelView {
        slots: v.slots.update(
            v.producer_slot,
            SlotView { payload: PayloadView { herbivores: data, ..s.payload }, ..s },
        ),
        ..v
    }
}

/// A frame write on the model: the producer slot's predator payload is
/// replaced.
pub open spec fn with_predators(v: ChannelView, data: Seq<u8>) -> ChannelView {
    let s = v.slots[v.producer_slot];
    ChannelView {
        slots: v.slots.update(
            v.producer_slot,
            SlotView { payload: PayloadView { predators: data, ..s.payload }, ..s },
        ),
        ..v
    }
}

/// A frame write on the model: the producer slot's field-grid payload is
/// replaced.
pub open spec fn with_plane(v: ChannelView, data: Seq<u8>) -> ChannelView {
    let s = v.slots[v.producer_slot];
    ChannelView {
        slots: v.slots.update(
            v.producer_slot,
            SlotView { payload: PayloadView { plane: data, ..s.payload }, ..s },
        ),
        ..v
    }
}

/// Why `set_alive_ranges` rejected a record.
#[derive(Clone, Copy, Debug, PartialEq, Eq, Structural)]
pub enum RangeError {
    /// A range's lower bound exceeds its upper bound.
    InvertedRange,
    /// A range's upper bound exceeds that group's budget.
    BeyondBudget,
}

/// A read guard descriptor: which slot the snapshot resolved to and the
/// recency stamp of the data it holds.
#[derive(Clone, Copy, Debug, PartialEq, Eq, Structural)]
pub struct Snapshot {
    pub slot: u8,
    pub time: u64,
}

/// A payload copy between any two slots preserves the channel invariant.
pub proof fn lemma_copy_preserves_inv(v: ChannelView, source: int, target: int)
    requires
        inv(v),
        0 <= source < 3,
        0 <= target < 3,
    ensures
        inv(with_copy(v, source, target)),
{
    let w = with_copy(v, source, target);
    assert forall|i: int| 0 <= i < 3 implies slot_wf(#[trigger] w.slots[i], w.slots[0]) by {
        assert(slot_wf(v.slots[i], v.slots[0]));
        assert(slot_wf(v.slots[source], v.slots[0]));
        assert(slot_wf(v.slots[target], v.slots[0]));
    }
}

/// Completing a frame preserves the channel invariant.
pub proof fn lemma_published_inv(v: ChannelView)
    requires
        inv(v),
    ensures
        inv(published(v)),
{
    lemma_copy_preserves_inv(v, v.producer_slot, v.storage_slot);
    assert(published(v).slots == with_copy(v, v.producer_slot, v.storage_slot).slots);
}

/// Taking a snapshot preserves the channel invariant.
pub proof fn lemma_refreshed_inv(v: ChannelView)
    requires
        inv(v),
    ensures
        inv(refreshed(v)),
{
    if v.storage_time > v.consumer_time {
        lemma_copy_preserves_inv(v, v.storage_slot, v.consumer_slot);
        assert(refreshed(v).slots == with_copy(v, v.storage_slot, v.consumer_slot).slots);
    }
}

/// The channel after `n` consecutive snapshot steps with no completed frame
/// in between.
pub open spec fn refreshed_n(v: ChannelView, n: nat) -> ChannelView
    decreases n,
{
    if n == 0 {
        v
    } else {
        refreshed(refreshed_n(v, (n - 1) as nat))
    }
}

/// Any number of snapshot steps preserves the channel invariant.
pub proof fn lemma_refreshed_n_inv(v: ChannelView, n: nat)
    requires
        inv(v),
    ensures
        inv(refreshed_n(v, n)),
    decreases n,
{
    if n > 0 {
        lemma_refreshed_n_inv(v, (n - 1) as nat);
        lemma_refreshed_inv(refreshed_n(v, (n - 1) as nat));
    }
}

/// Law (monotonic freshness): along any sequence of snapshot calls with no
/// intervening completed frame, the recency stamp the consumer observes
/// never decreases.
pub proof fn lemma_snapshot_monotonic(v: ChannelView, m: nat, n: nat)
    requires
        inv(v),
        m <= n,
    ensures
        refreshed_n(v, m).consumer_time <= refreshed_n(v, n).consumer_time,
    decreases n,
{
    if m < n {
        lemma_snapshot_monotonic(v, m, (n - 1) as nat);
        lemma_refreshed_n_inv(v, (n - 1) as nat);
    }
}

/// Law (eventual visibility): after a frame completes, the very next
/// snapshot observes a stamp at least as recent as the frame's completion
/// stamp, and its payload is exactly the payload the frame published —
/// stale data is never served when fresher data is available.
pub proof fn lemma_eventual_visibility(v: ChannelView)
    requires
        inv(v),
    ensures
        refreshed(published(v)).consumer_time >= published(v).storage_time,
        refreshed(published(v)).slots[refreshed(published(v)).consumer_slot].payload
            == v.slots[v.producer_slot].payload,
{
    let w = published(v);
    assert(w.storage_time > w.consumer_time);
}

/// Snapshot steps never move the role table, never touch the producer or
/// storage slots, and never change the publication stamp: everything the
/// producer side owns is left alone, however often the consumer polls.
pub proof fn lemma_refreshed_n_static(v: ChannelView, n: nat)
    requires
        inv(v),
    ensures
        refreshed_n(v, n).producer_slot == v.producer_slot,
        refreshed_n(v, n).storage_slot == v.storage_slot,
        refreshed_n(v, n).consumer_slot == v.consumer_slot,
        refreshed_n(v, n).producer_time == v.producer_time,
        refreshed_n(v, n).storage_time == v.storage_time,
        refreshed_n(v, n).frame_open == v.frame_open,
        refreshed_n(v, n).slots[v.producer_slot] == v.slots[v.producer_slot],
        refreshed_n(v, n).slots[v.storage_slot] == v.slots[v.storage_slot],
    decreases n,
{
    if n > 0 {
        lemma_refreshed_n_static(v, (n - 1) as nat);
        lemma_refreshed_n_inv(v, (n - 1) as nat);
    }
}

/// Law (eventual visibility, lasting): after a frame completes, every later
/// snapshot — not only the first — observes a stamp at least as recent as
/// the frame's completion stamp, and its payload is the payload that frame
/// published, until another frame completes.
pub proof fn lemma_eventual_visibility_lasting(v: ChannelView, n: nat)
    requires
        inv(v),
        n >= 1,
    ensures
        refreshed_n(published(v), n).consumer_time >= published(v).storage_time,
        refreshed_n(published(v), n).slots[refreshed_n(published(v), n).consumer_slot].payload
            == v.slots[v.producer_slot].payload,
    decreases n,
{
    let w = published(v);
    lemma_published_inv(v);
    if n == 1 {
        lemma_eventual_visibility(v);
        assert(refreshed_n(w, 1) == refreshed(refreshed_n(w, 0)));
    } else {
        lemma_eventual_visibility_lasting(v, (n - 1) as nat);
        lemma_refreshed_n_inv(w, (n - 1) as nat);
        lemma_refreshed_n_static(w, (n - 1) as nat);
    }
}

/// Law (idempotent re-snapshot): two snapshot steps with no completed frame
/// in between resolve to the same slot, the same payload, and the same
/// recency stamp.
pub proof fn lemma_idempotent_resnapshot(v: ChannelView)
    requires
        inv(v),
    ensures
        refreshed(refreshed(v)).consumer_time == refreshed(v).consumer_time,
        refreshed(refreshed(v)).consumer_slot == refreshed(v).consumer_slot,
        refreshed(refreshed(v)).slots[refreshed(refreshed(v)).consumer_slot]
            == refreshed(v).slots[refreshed(v).consumer_slot],
{
    let w = refreshed(v);
    assert(w.storage_time <= w.consumer_time);
}

/// Law (no tearing, consumer side): a snapshot never resolves to the
/// producer's slot, leaves the producer's slot untouched, and serves either
/// the payload the storage slot held or the payload the consumer slot
/// already held — never the bytes of a frame still being written.
pub proof fn lemma_no_tearing(v: ChannelView)
    requires
        inv(v),
    ensures
        refreshed(v).consumer_slot != v.producer_slot,
        refreshed(v).slots[v.producer_slot] == v.slots[v.producer_slot],
        refreshed(v).slots[refreshed(v).consumer_slot].payload == v.slots[v.storage_slot].payload
            || refreshed(v).slots[refreshed(v).consumer_slot].payload
                == v.slots[v.consumer_slot].payload,
{
}

/// A frame write preserves the channel invariant when it keeps the
/// payload's size, as the write operations demand.
pub proof fn lemma_frame_writes_preserve_inv(v: ChannelView, data: Seq<u8>)
    requires
        inv(v),
    ensures
        data.len() == v.slots[v.producer_slot].payload.herbivores.len() ==> inv(
            with_herbivores(v, data),
        ),
        data.len() == v.slots[v.producer_slot].payload.predators.len() ==> inv(
            with_predators(v, data),
        ),
        data.len() == v.slots[v.producer_slot].payload.plane.len() ==> inv(with_plane(v, data)),
{
    assert(slot_wf(v.slots[v.producer_slot], v.slots[0]));
    if data.len() == v.slots[v.producer_slot].payload.herbivores.len() {
        let w = with_herbivores(v, data);
        assert forall|i: int| 0 <= i < 3 implies slot_wf(#[trigger] w.slots[i], w.slots[0]) by {
            assert(slot_wf(v.slots[i], v.slots[0]));
        }
    }
    if data.len() == v.slots[v.producer_slot].payload.predators.len() {
        let w = with_predators(v, data);
        assert forall|i: int| 0 <= i < 3 implies slot_wf(#[trigger] w.slots[i], w.slots[0]) by {
            assert(slot_wf(v.slots[i], v.slots[0]));
        }
    }
    if data.len() == v.slots[v.producer_slot].payload.plane.len() {
        let w = with_plane(v, data);
        assert forall|i: int| 0 <= i < 3 implies slot_wf(#[trigger] w.slots[i], w.slots[0]) by {
            assert(slot_wf(v.slots[i], v.slots[0]));
        }
    }
}

/// Law (the last completed frame wins): a frame cycle that writes all three
/// payload parts and completes is exactly what the next snapshot serves,
/// whatever the channel held before — a snapshot never observes a mix of
/// frames.
pub proof fn lemma_frame_cycle_visible(v: ChannelView, herb: Seq<u8>, pred: Seq<u8>, plane: Seq<u8>)
    requires
        inv(v),
        herb.len() == v.slots[v.producer_slot].payload.herbivores.len(),
        pred.len() == v.slots[v.producer_slot].payload.predators.len(),
        plane.len() == v.slots[v.producer_slot].payload.plane.len(),
    ensures
        ({
            let f = with_plane(with_predators(with_herbivores(began(v), herb), pred), plane);
            let r = refreshed(published(f));
            &&& r.consumer_time >= published(f).storage_time
            &&& r.slots[r.consumer_slot].payload.herbivores == herb
            &&& r.slots[r.consumer_slot].payload.predators == pred
            &&& r.slots[r.consumer_slot].payload.plane == plane
        }),
{
    let b = began(v);
    assert(inv(b));
    let f1 = with_herbivores(b, herb);
    lemma_frame_writes_preserve_inv(b, herb);
    let f2 = with_predators(f1, pred);
    lemma_frame_writes_preserve_inv(f1, pred);
    let f3 = with_plane(f2, plane);
    lemma_frame_writes_preserve_inv(f2, plane);
    lemma_eventual_visibility(f3);
}

/// Law (no tearing, producer side): while a frame is open, its writes touch
/// only the producer's slot; the storage and consumer slots — everything a
/// snapshot can observe — keep their contents.
pub proof fn lemma_frame_writes_stay_private(v: ChannelView, data: Seq<u8>)
    requires
        inv(v),
    ensures
        with_herbivores(v, data).slots[v.storage_slot] == v.slots[v.storage_slot],
        with_herbivores(v, data).slots[v.consumer_slot] == v.slots[v.consumer_slot],
        with_predators(v, data).slots[v.storage_slot] == v.slots[v.storage_slot],
        with_predators(v, data).slots[v.consumer_slot] == v.slots[v.consumer_slot],
        with_plane(v, data).slots[v.storage_slot] == v.slots[v.storage_slot],
        with_plane(v, data).slots[v.consumer_slot] == v.slots[v.consumer_slot],
        with_back(v, data).slots[v.storage_slot] == v.slots[v.storage_slot],
        with_back(v, data).slots[v.consumer_slot] == v.slots[v.consumer_slot],
{
}

} // verus!
