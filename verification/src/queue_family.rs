//! Resolving the graphics and the transfer queue family of a device.

use crate::error::BootstrapError;
use vstd::prelude::*;

verus! {

/// The capability bit of a family whose queues take graphics work.
pub const GRAPHICS_BIT: u32 = 1;

/// The capability bit of a family whose queues take transfer (copy) work.
pub const TRANSFER_BIT: u32 = 4;

/// What the resolver reads of one queue family.
#[derive(Clone, Copy, Debug, PartialEq, Eq, Structural)]
pub struct QueueFamilyInfo {
    /// The number of queues in the family.
    pub queue_count: u32,
    /// The family's capability bits.
    pub queue_flags: u32,
}

/// The two resolved families, by their position in the device's list.
#[derive(Clone, Copy, Debug, PartialEq, Eq, Structural)]
pub struct QueueFamilyIndices {
    pub graphics: usize,
    pub transfer: usize,
}

/// Calls `ash::vk::QueueFlags::contains` on the two raw masks: whether every
/// bit of `wanted` is set in `flags`.
#[verifier::external_body]
fn flags_contain(flags: u32, wanted: u32) -> (yes: bool)
    ensures
        yes == (flags & wanted == wanted),
{
    ash::vk::QueueFlags::from_raw(flags).contains(ash::vk::QueueFlags::from_raw(wanted))
}

impl QueueFamilyInfo {
    /// The family has the graphics bit.
    pub open spec fn has_graphics_bit(&self) -> bool {
        self.queue_flags & GRAPHICS_BIT == GRAPHICS_BIT
    }

    /// The family has the transfer bit.
    pub open spec fn has_transfer_bit(&self) -> bool {
        self.queue_flags & TRANSFER_BIT == TRANSFER_BIT
    }

    /// The family has a queue and takes graphics work.
    pub open spec fn graphics_capable(&self) -> bool {
        self.queue_count > 0 && self.has_graphics_bit()
    }

    /// The family has a queue and takes transfer work.
    pub open spec fn transfer_capable(&self) -> bool {
        self.queue_count > 0 && self.has_transfer_bit()
    }

    /// The family has a queue and takes transfer work but no graphics work.
    pub open spec fn dedicated_transfer(&self) -> bool {
        self.transfer_capable() && !self.has_graphics_bit()
    }

    pub fn new(queue_count: u32, queue_flags: u32) -> (family: QueueFamilyInfo)
        ensures
            family == (QueueFamilyInfo { queue_count, queue_flags }),
    {
        QueueFamilyInfo { queue_count, queue_flags }
    }

    /// Whether the family has a queue and takes graphics work.
    pub fn supports_graphics(&self) -> (yes: bool)
        ensures
            yes == self.graphics_capable(),
    {
        self.queue_count > 0 && flags_contain(self.queue_flags, GRAPHICS_BIT)
    }

    /// Whether the family has a queue and takes transfer work.
    pub fn supports_transfer(&self) -> (yes: bool)
        ensures
            yes == self.transfer_capable(),
    {
        self.queue_count > 0 && flags_contain(self.queue_flags, TRANSFER_BIT)
    }

    /// Whether the family has a queue and takes transfer but no graphics work.
    pub fn is_dedicated_transfer(&self) -> (yes: bool)
        ensures
            yes == self.dedicated_transfer(),
    {
        self.supports_transfer() && !flags_contain(self.queue_flags, GRAPHICS_BIT)
    }
}

/// Some family can take graphics work.
pub open spec fn has_graphics_family(families: Seq<QueueFamilyInfo>) -> bool {
    exists|j: int| 0 <= j < families.len() && (#[trigger] families[j]).graphics_capable()
}

/// Some family can take transfer work.
pub open spec fn has_transfer_family(families: Seq<QueueFamilyInfo>) -> bool {
    exists|j: int| 0 <= j < families.len() && (#[trigger] families[j]).transfer_capable()
}

/// Some family takes transfer work and no graphics work.
pub open spec fn has_dedicated_transfer_family(families: Seq<QueueFamilyInfo>) -> bool {
    exists|j: int| 0 <= j < families.len() && (#[trigger] families[j]).dedicated_transfer()
}

/// The graphics family is the first one that can take graphics work.
pub open spec fn is_graphics_choice(families: Seq<QueueFamilyInfo>, g: int) -> bool {
    &&& 0 <= g < families.len()
    &&& families[g].graphics_capable()
    &&& forall|j: int| 0 <= j < g ==> !(#[trigger] families[j]).graphics_capable()
}

/// The transfer family is the last dedicated transfer family where there is
/// one, and else the first family that can take transfer work.
pub open spec fn is_transfer_choice(families: Seq<QueueFamilyInfo>, t: int) -> bool {
    &&& 0 <= t < families.len()
    &&& families[t].transfer_capable()
    &&& if has_dedicated_transfer_family(families) {
        &&& families[t].dedicated_transfer()
        &&& forall|j: int| t < j < families.len() ==> !(#[trigger] families[j]).dedicated_transfer()
    } else {
        forall|j: int| 0 <= j < t ==> !(#[trigger] families[j]).transfer_capable()
    }
}

/// The two families that the resolver returns, if it returns any.
pub open spec fn resolved_families(families: Seq<QueueFamilyInfo>) -> Option<QueueFamilyIndices> {
    if has_graphics_family(families) && has_transfer_family(families) {
        Some(
            choose|ix: QueueFamilyIndices|
                is_graphics_choice(families, ix.graphics as int) && is_transfer_choice(
                    families,
                    ix.transfer as int,
                ),
        )
    } else {
        None
    }
}

/// A family list admits at most one graphics choice and one transfer choice.
pub proof fn lemma_choices_are_unique(
    families: Seq<QueueFamilyInfo>,
    g1: int,
    t1: int,
    g2: int,
    t2: int,
)
    requires
        is_graphics_choice(families, g1),
        is_transfer_choice(families, t1),
        is_graphics_choice(families, g2),
        is_transfer_choice(families, t2),
    ensures
        g1 == g2,
        t1 == t2,
{
}

/// Where a family with a queue takes transfer work and no graphics work, the
/// transfer choice is such a family, and so differs from the graphics choice.
pub proof fn lemma_dedicated_family_preferred(families: Seq<QueueFamilyInfo>, g: int, t: int)
    requires
        is_graphics_choice(families, g),
        is_transfer_choice(families, t),
        has_dedicated_transfer_family(families),
    ensures
        families[t].dedicated_transfer(),
        t != g,
{
}

/// Where no family with a queue takes transfer work without graphics work,
/// and the graphics choice has the transfer bit, one family serves both.
pub proof fn lemma_shared_family(families: Seq<QueueFamilyInfo>, g: int, t: int)
    requires
        is_graphics_choice(families, g),
        is_transfer_choice(families, t),
        !has_dedicated_transfer_family(families),
        families[g].has_transfer_bit(),
    ensures
        t == g,
{
    if t < g {
        assert(families[t].graphics_capable());
    }
}

/// Resolves the graphics and the transfer family of a device from its queue
/// family list, scanned once in index order.
///
/// Only families with at least one queue count. The graphics family is the
/// first with the graphics bit. The transfer family is the last family with
/// the transfer bit and without the graphics bit; where the device has no
/// such dedicated family it is the first family with the transfer bit, which
/// may be the graphics family itself. The device is unsuitable when either
/// family is missing.
pub fn resolve_queue_families(families: &Vec<QueueFamilyInfo>) -> (resolved: Result<
    QueueFamilyIndices,
    BootstrapError,
>)
    ensures
        resolved is Ok <==> has_graphics_family(families@) && has_transfer_family(families@),
        resolved matches Ok(ix) ==> is_graphics_choice(families@, ix.graphics as int)
            && is_transfer_choice(families@, ix.transfer as int),
        resolved matches Err(e) ==> e == BootstrapError::NoSuitableQueueFamily,
        resolved.ok() == resolved_families(families@),
        resolved matches Ok(ix) ==> (has_dedicated_transfer_family(families@)
            ==> families@[ix.transfer as int].dedicated_transfer() && ix.transfer != ix.graphics),
        resolved matches Ok(ix) ==> (!has_dedicated_transfer_family(families@)
            && families@[ix.graphics as int].has_transfer_bit() ==> ix.transfer == ix.graphics),
{
    let mut graphics: Option<usize> = None;
    let mut transfer: Option<usize> = None;
    let mut i: usize = 0;
    while i < families.len()
        invariant
            i <= families.len(),
            graphics is None ==> forall|j: int|
                0 <= j < i ==> !(#[trigger] families@[j]).graphics_capable(),
            graphics matches Some(g) ==> is_graphics_choice(families@.take(i as int), g as int),
            transfer is None ==> forall|j: int|
                0 <= j < i ==> !(#[trigger] families@[j]).transfer_capable(),
            transfer matches Some(t) ==> is_transfer_choice(families@.take(i as int), t as int),
        decreases families.len() - i,
    {
        let family = &families[i];
        let ghost before = families@.take(i as int);
        let ghost after = families@.take(i + 1);
        proof {
            assert(forall|j: int| 0 <= j < i ==> before[j] == after[j]);
            assert(after[i as int] == families@[i as int]);
            if has_dedicated_transfer_family(before) {
                let w = choose|j: int|
                    0 <= j < before.len() && (#[trigger] before[j]).dedicated_transfer();
                assert(after[w].dedicated_transfer());
            }
            if has_dedicated_transfer_family(after) && !family.dedicated_transfer() {
                let w = choose|j: int|
                    0 <= j < after.len() && (#[trigger] after[j]).dedicated_transfer();
                assert(before[w].dedicated_transfer());
            }
        }
        if graphics.is_none() && family.supports_graphics() {
            graphics = Some(i);
        }
        if family.supports_transfer() {
            if transfer.is_none() || family.is_dedicated_transfer() {
                transfer = Some(i);
            }
        }
        i += 1;
    }
    proof {
        assert(families@.take(i as int) == families@);
    }
    match (graphics, transfer) {
        (Some(g), Some(t)) => {
            let found = QueueFamilyIndices { graphics: g, transfer: t };
            proof {
                let picked = choose|ix: QueueFamilyIndices|
                    is_graphics_choice(families@, ix.graphics as int) && is_transfer_choice(
                        families@,
                        ix.transfer as int,
                    );
                assert(is_graphics_choice(families@, found.graphics as int) && is_transfer_choice(
                    families@,
                    found.transfer as int,
                ));
                lemma_choices_are_unique(
                    families@,
                    g as int,
                    t as int,
                    picked.graphics as int,
                    picked.transfer as int,
                );
                if has_dedicated_transfer_family(families@) {
                    lemma_dedicated_family_preferred(families@, g as int, t as int);
                } else if families@[g as int].has_transfer_bit() {
                    lemma_shared_family(families@, g as int, t as int);
                }
            }
            Ok(found)
        },
        _ => Err(BootstrapError::NoSuitableQueueFamily),
    }
}

} // verus!
