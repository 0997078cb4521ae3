//! Accelerator buffers as the host sees them: a usage, a capacity and the
//! size in use, and the rule by which a buffer is kept or replaced.
//!
//! A buffer is kept while its capacity covers what is asked of it. Otherwise
//! it is replaced by one with a fifth more room than asked, rounded up to
//! whole words, so that workloads that grow a little at a time do not force
//! a new allocation on every call.

use vstd::prelude::*;

verus! {

/// What the accelerator may do with a buffer.
#[derive(Clone, Copy, Debug, PartialEq, Eq, Structural)]
pub enum BufferUsage {
    /// Kernel storage that the host writes into.
    Upload,
    /// Kernel storage that the kernel writes and that is copied out.
    ComputeOutput,
    /// Destination of that copy, mapped for reading by the host.
    Readback,
}

/// The five buffers of a session.
#[derive(Clone, Copy, Debug, PartialEq, Eq, Structural)]
pub enum BufferSlot {
    Atoms,
    Residues,
    Settings,
    Output,
    Readback,
}

impl BufferSlot {
    /// The usage that a buffer in this slot is created with.
    pub open spec fn usage_spec(self) -> BufferUsage {
        match self {
            BufferSlot::Atoms => BufferUsage::Upload,
            BufferSlot::Residues => BufferUsage::Upload,
            BufferSlot::Settings => BufferUsage::Upload,
            BufferSlot::Output => BufferUsage::ComputeOutput,
            BufferSlot::Readback => BufferUsage::Readback,
        }
    }

    /// The binding index under which the kernel finds this slot; the
    /// readback slot is not bound.
    pub open spec fn binding_spec(self) -> Option<u32> {
        match self {
            BufferSlot::Atoms => Some(0u32),
            BufferSlot::Residues => Some(1u32),
            BufferSlot::Settings => Some(2u32),
            BufferSlot::Output => Some(3u32),
            BufferSlot::Readback => None,
        }
    }

    #[verifier::when_used_as_spec(usage_spec)]
    pub fn usage(self) -> (usage: BufferUsage)
        ensures
            usage == self.usage_spec(),
    {
        match self {
            BufferSlot::Atoms => BufferUsage::Upload,
            BufferSlot::Residues => BufferUsage::Upload,
            BufferSlot::Settings => BufferUsage::Upload,
            BufferSlot::Output => BufferUsage::ComputeOutput,
            BufferSlot::Readback => BufferUsage::Readback,
        }
    }

    #[verifier::when_used_as_spec(binding_spec)]
    pub fn binding(self) -> (binding: Option<u32>)
        ensures
            binding == self.binding_spec(),
    {
        match self {
            BufferSlot::Atoms => Some(0),
            BufferSlot::Residues => Some(1),
            BufferSlot::Settings => Some(2),
            BufferSlot::Output => Some(3),
            BufferSlot::Readback => None,
        }
    }
}

/// An allocation on the accelerator.
#[derive(Clone, Copy, Debug, PartialEq, Eq, Structural)]
pub struct BufferHandle {
    pub usage: BufferUsage,
    /// Bytes allocated.
    pub capacity: u64,
    /// Bytes in use by the current call.
    pub size: u64,
}

impl BufferHandle {
    /// The bytes in use lie within the allocation.
    pub open spec fn wf(self) -> bool {
        self.size <= self.capacity
    }
}

/// Whether a slot kept its allocation or got a new one.
#[derive(Clone, Copy, Debug, PartialEq, Eq, Structural)]
pub enum Placement {
    Reused,
    Allocated,
}

/// What the five slots of a session hold.
#[derive(Clone, Copy, Debug, PartialEq, Eq, Structural)]
pub struct BufferCache {
    pub atoms: Option<BufferHandle>,
    pub residues: Option<BufferHandle>,
    pub settings: Option<BufferHandle>,
    pub output: Option<BufferHandle>,
    pub readback: Option<BufferHandle>,
}

impl BufferCache {
    /// The cache of a new session: no slot holds a buffer.
    pub open spec fn empty_spec() -> BufferCache {
        BufferCache { atoms: None, residues: None, settings: None, output: None, readback: None }
    }

    /// What `slot` holds.
    pub open spec fn slot_spec(self, slot: BufferSlot) -> Option<BufferHandle> {
        match slot {
            BufferSlot::Atoms => self.atoms,
            BufferSlot::Residues => self.residues,
            BufferSlot::Settings => self.settings,
            BufferSlot::Output => self.output,
            BufferSlot::Readback => self.readback,
        }
    }

    /// Whether `slot` holds nothing, or a handle whose size lies within its
    /// capacity and whose usage is that of the slot.
    pub open spec fn slot_wf(self, slot: BufferSlot) -> bool {
        self.slot_spec(slot) matches Some(handle) ==> handle.wf() && handle.usage == slot.usage()
    }

    /// Every slot is in order, and the readback buffer mirrors the output
    /// buffer, so that the whole output buffer can be copied into it.
    pub open spec fn wf(self) -> bool {
        &&& self.slot_wf(BufferSlot::Atoms)
        &&& self.slot_wf(BufferSlot::Residues)
        &&& self.slot_wf(BufferSlot::Settings)
        &&& self.slot_wf(BufferSlot::Output)
        &&& self.slot_wf(BufferSlot::Readback)
        &&& self.output is Some <==> self.readback is Some
        &&& self.output matches Some(output) ==> self.readback matches Some(readback)
            && output.capacity == readback.capacity && output.size == readback.size
    }

    /// The cache of a new session.
    #[verifier::when_used_as_spec(empty_spec)]
    pub fn empty() -> (cache: BufferCache)
        ensures
            cache == BufferCache::empty_spec(),
            cache.wf(),
    {
        BufferCache { atoms: None, residues: None, settings: None, output: None, readback: None }
    }

    /// What `slot` holds.
    #[verifier::when_used_as_spec(slot_spec)]
    pub fn slot(self, slot: BufferSlot) -> (held: Option<BufferHandle>)
        ensures
            held == self.slot_spec(slot),
    {
        match slot {
            BufferSlot::Atoms => self.atoms,
            BufferSlot::Residues => self.residues,
            BufferSlot::Settings => self.settings,
            BufferSlot::Output => self.output,
            BufferSlot::Readback => self.readback,
        }
    }
}

/// `required` and a fifth of it, rounded up to a whole byte.
pub open spec fn scaled_size(required: nat) -> nat {
    (6 * required + 4) / 5
}

/// `size` rounded up to a multiple of four.
pub open spec fn round_up_to_word(size: nat) -> nat {
    (size + 3) / 4 * 4
}

/// The capacity of a buffer newly allocated for `required` bytes.
#[verifier::opaque]
pub open spec fn grown_capacity(required: nat) -> nat {
    round_up_to_word(scaled_size(required))
}

/// A new allocation is whole words, covers what was asked, and wastes less
/// than a fifth of it plus one word.
pub proof fn lemma_grown_capacity_bounds(required: nat)
    ensures
        grown_capacity(required) % 4 == 0,
        required <= grown_capacity(required),
        5 * grown_capacity(required) < 6 * required + 20,
{
    reveal(grown_capacity);
    let scaled = scaled_size(required);
    assert(6 * required <= 5 * scaled <= 6 * required + 4);
    assert(scaled <= round_up_to_word(scaled) <= scaled + 3);
}

/// The capacity in closed form: four times the rounded-up three tenths of
/// what was asked.
pub proof fn lemma_grown_capacity_closed_form(required: nat)
    ensures
        grown_capacity(required) == 4 * ((3 * required + 9) / 10),
{
    reveal(grown_capacity);
    let tens = required / 10;
    let units = required % 10;
    let scaled = scaled_size(required);
    assert(scaled == 12 * tens + (6 * units + 4) / 5);
    assert(round_up_to_word(scaled) == 4 * (3 * tens + ((6 * units + 4) / 5 + 3) / 4));
    assert((3 * required + 9) / 10 == 3 * tens + (3 * units + 9) / 10);
    assert(((6 * units + 4) / 5 + 3) / 4 == (3 * units + 9) / 10);
}

/// Asking for more never yields a smaller allocation.
pub proof fn lemma_grown_capacity_monotonic(smaller: nat, larger: nat)
    requires
        smaller <= larger,
    ensures
        grown_capacity(smaller) <= grown_capacity(larger),
{
    lemma_grown_capacity_closed_form(smaller);
    lemma_grown_capacity_closed_form(larger);
}

/// The capacity to allocate for `required` bytes; `None` where it does not
/// fit the accelerator's 64-bit sizes.
pub fn grow(required: u64) -> (capacity: Option<u64>)
    ensures
        capacity is Some <==> grown_capacity(required as nat) <= u64::MAX,
        capacity matches Some(c) ==> c == grown_capacity(required as nat),
{
    let fifth: u64 = required / 5;
    let extra: u64 = if required % 5 == 0 {
        fifth
    } else {
        fifth + 1
    };
    proof {
        reveal(grown_capacity);
        lemma_scaled_size_split(required as nat);
    }
    match required.checked_add(extra) {
        None => {
            proof {
                lemma_round_up_split(scaled_size(required as nat));
            }
            None
        },
        Some(scaled) => {
            proof {
                lemma_round_up_split(scaled as nat);
            }
            let rest: u64 = scaled % 4;
            if rest == 0 {
                Some(scaled)
            } else {
                scaled.checked_add(4 - rest)
            }
        },
    }
}

/// A fifth more, rounded up, is the size plus its rounded-up fifth.
proof fn lemma_scaled_size_split(required: nat)
    ensures
        scaled_size(required) == required + required / 5 + if required % 5 == 0 {
            0nat
        } else {
            1nat
        },
{
}

/// Rounding up to a word adds what is missing to the next multiple of four.
proof fn lemma_round_up_split(size: nat)
    ensures
        round_up_to_word(size) == if size % 4 == 0 {
            size
        } else {
            (size + 4 - size % 4) as nat
        },
{
}

/// Whether the allocation in `slot` can serve `required` bytes.
pub open spec fn reusable(slot: Option<BufferHandle>, required: u64) -> bool {
    slot matches Some(handle) && handle.capacity >= required
}

/// The handle that serves `required` bytes given what `slot` holds: the
/// allocation of `slot` where that suffices, else a new one.
pub open spec fn ensured(slot: Option<BufferHandle>, required: u64, usage: BufferUsage) -> BufferHandle
    recommends
        reusable(slot, required) || grown_capacity(required as nat) <= u64::MAX,
{
    if reusable(slot, required) {
        BufferHandle { usage: slot->0.usage, capacity: slot->0.capacity, size: required }
    } else {
        BufferHandle { usage, capacity: grown_capacity(required as nat) as u64, size: required }
    }
}

/// Whether serving `required` bytes keeps the allocation of `slot` or makes
/// a new one.
pub open spec fn placement_of(slot: Option<BufferHandle>, required: u64) -> Placement {
    if reusable(slot, required) {
        Placement::Reused
    } else {
        Placement::Allocated
    }
}

/// Whether `required` bytes can be served given what `slot` holds.
pub open spec fn servable(slot: Option<BufferHandle>, required: u64) -> bool {
    reusable(slot, required) || grown_capacity(required as nat) <= u64::MAX
}

/// Makes `slot` hold a buffer of at least `required` bytes, given the
/// capacity `fresh` that a new allocation for them would have. Returns
/// what was done and the handle that the slot holds afterwards.
///
/// An allocation that is large enough is kept as it is, whatever it was
/// used for before; otherwise the slot gets a new allocation of `fresh`
/// bytes with the given usage.
pub fn place(slot: &mut Option<BufferHandle>, required: u64, fresh: u64, usage: BufferUsage) -> (served:
    (Placement, BufferHandle))
    requires
        fresh == grown_capacity(required as nat),
    ensures
        *final(slot) == Some(served.1),
        served.0 == placement_of(*old(slot), required),
        served.1 == ensured(*old(slot), required, usage),
{
    match *slot {
        Some(held) if held.capacity >= required => {
            let handle = BufferHandle { usage: held.usage, capacity: held.capacity, size: required };
            *slot = Some(handle);
            (Placement::Reused, handle)
        },
        _ => {
            let handle = BufferHandle { usage, capacity: fresh, size: required };
            *slot = Some(handle);
            (Placement::Allocated, handle)
        },
    }
}

/// Makes `slot` hold a buffer of at least `required` bytes. Returns what
/// was done and the handle that the slot holds afterwards.
///
/// An allocation that is large enough is kept; otherwise the slot gets a
/// new allocation of `grown_capacity` bytes with the given usage. Where that
/// capacity does not fit 64 bits the slot is left as it was and `None` is
/// returned.
pub fn ensure(slot: &mut Option<BufferHandle>, required: u64, usage: BufferUsage) -> (served: Option<
    (Placement, BufferHandle),
>)
    ensures
        served is Some <==> servable(*old(slot), required),
        served matches Some((placement, handle)) ==> *final(slot) == Some(handle) && handle
            == ensured(*old(slot), required, usage) && placement == placement_of(
            *old(slot),
            required,
        ),
        served is None ==> *final(slot) == *old(slot),
{
    match *slot {
        Some(held) if held.capacity >= required => {
            let handle = BufferHandle { usage: held.usage, capacity: held.capacity, size: required };
            *slot = Some(handle);
            Some((Placement::Reused, handle))
        },
        _ => match grow(required) {
            Some(fresh) => Some(place(slot, required, fresh, usage)),
            None => None,
        },
    }
}

/// A served slot covers what was asked, and no slot ever shrinks.
pub proof fn lemma_ensured_covers(slot: Option<BufferHandle>, required: u64, usage: BufferUsage)
    requires
        servable(slot, required),
    ensures
        ensured(slot, required, usage).wf(),
        ensured(slot, required, usage).size == required,
        ensured(slot, required, usage).capacity >= required,
        slot matches Some(before) ==> ensured(slot, required, usage).capacity >= before.capacity,
{
    lemma_grown_capacity_bounds(required as nat);
}

/// What a slot holds after serving each of `requests` in turn, starting
/// from `slot`.
pub open spec fn after_requests(slot: Option<BufferHandle>, requests: Seq<u64>, usage: BufferUsage)
    -> Option<BufferHandle>
    decreases requests.len(),
{
    if requests.len() == 0 {
        slot
    } else {
        let before = after_requests(slot, requests.drop_last(), usage);
        if servable(before, requests.last()) {
            Some(ensured(before, requests.last(), usage))
        } else {
            before
        }
    }
}

/// The largest of `requests`, or zero where there is none.
pub open spec fn largest_request(requests: Seq<u64>) -> u64
    decreases requests.len(),
{
    if requests.len() == 0 {
        0
    } else if largest_request(requests.drop_last()) >= requests.last() {
        largest_request(requests.drop_last())
    } else {
        requests.last()
    }
}

/// Whatever the order of the sizes asked for, once all have been served the
/// slot covers the largest of them: a smaller request in between does not
/// shrink the allocation.
pub proof fn lemma_capacity_covers_every_request(requests: Seq<u64>, usage: BufferUsage)
    requires
        requests.len() > 0,
        forall|i: int| 0 <= i < requests.len() ==> grown_capacity(requests[i] as nat) <= u64::MAX,
    ensures
        after_requests(None, requests, usage) matches Some(handle) && handle.wf() && handle.size
            == requests.last() && handle.capacity >= largest_request(requests),
    decreases requests.len(),
{
    let earlier = requests.drop_last();
    let before = after_requests(None, earlier, usage);
    if earlier.len() > 0 {
        lemma_capacity_covers_every_request(earlier, usage);
    } else {
        assert(largest_request(earlier) == 0);
    }
    lemma_ensured_covers(before, requests.last(), usage);
}

} // verus!
