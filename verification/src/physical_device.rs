//! Choosing the physical device.

use crate::error::BootstrapError;
use vstd::prelude::*;

verus! {

/// The device type code that the API reports for a discrete GPU.
pub const DISCRETE_GPU: i32 = 2;

/// What the selector reads of one enumerated adapter.
#[derive(Clone, Debug)]
pub struct PhysicalDeviceInfo {
    /// The API's device type code.
    pub device_type: i32,
    /// The adapter's name as the driver reports it.
    pub name: String,
}

impl PhysicalDeviceInfo {
    pub open spec fn is_discrete(&self) -> bool {
        self.device_type == DISCRETE_GPU
    }

    pub fn new(device_type: i32, name: String) -> (info: PhysicalDeviceInfo)
        ensures
            info.device_type == device_type,
            info.name == name,
    {
        PhysicalDeviceInfo { device_type, name }
    }

    /// Whether the adapter is a discrete GPU.
    pub fn discrete(&self) -> (yes: bool)
        ensures
            yes == self.is_discrete(),
    {
        self.device_type == DISCRETE_GPU
    }
}

/// Whether some enumerated adapter is a discrete GPU.
pub open spec fn has_discrete(devices: Seq<PhysicalDeviceInfo>) -> bool {
    exists|j: int| 0 <= j < devices.len() && (#[trigger] devices[j]).is_discrete()
}

/// `chosen` is the position of the last discrete GPU of the enumeration.
pub open spec fn is_last_discrete(devices: Seq<PhysicalDeviceInfo>, chosen: int) -> bool {
    &&& 0 <= chosen < devices.len()
    &&& devices[chosen].is_discrete()
    &&& forall|j: int| chosen < j < devices.len() ==> !(#[trigger] devices[j]).is_discrete()
}

/// The position of the adapter that the selector picks, if it picks one.
pub open spec fn selected_device(devices: Seq<PhysicalDeviceInfo>) -> Option<usize> {
    if has_discrete(devices) {
        Some(choose|i: usize| is_last_discrete(devices, i as int))
    } else {
        None
    }
}

/// An enumeration has at most one last discrete GPU.
pub proof fn lemma_last_discrete_is_unique(devices: Seq<PhysicalDeviceInfo>, i: int, j: int)
    requires
        is_last_discrete(devices, i),
        is_last_discrete(devices, j),
    ensures
        i == j,
{
}

/// A policy that rates the enumerated adapters. The selector takes the
/// adapter with the highest rating, and the last of them where several have
/// it; an adapter without a rating is never taken.
pub trait DeviceScorer {
    /// The rating of an adapter, if the policy admits it at all.
    spec fn rating(&self, device: &PhysicalDeviceInfo) -> Option<u64>;

    /// Rates an adapter.
    fn score(&self, device: &PhysicalDeviceInfo) -> (rating: Option<u64>)
        ensures
            rating == self.rating(device),
    ;
}

/// The default policy: every discrete GPU rates the same, nothing else rates.
#[derive(Clone, Copy, Debug)]
pub struct LastDiscrete;

impl DeviceScorer for LastDiscrete {
    open spec fn rating(&self, device: &PhysicalDeviceInfo) -> Option<u64> {
        if device.is_discrete() {
            Some(0)
        } else {
            None
        }
    }

    fn score(&self, device: &PhysicalDeviceInfo) -> (rating: Option<u64>) {
        if device.discrete() {
            Some(0)
        } else {
            None
        }
    }
}

/// Whether the policy admits some enumerated adapter.
pub open spec fn has_rated<S: DeviceScorer>(scorer: &S, devices: Seq<PhysicalDeviceInfo>) -> bool {
    exists|j: int| 0 <= j < devices.len() && scorer.rating(#[trigger] &devices[j]) is Some
}

/// `chosen` is the position of the last of the adapters that the policy
/// rates highest.
pub open spec fn is_best_rated<S: DeviceScorer>(
    scorer: &S,
    devices: Seq<PhysicalDeviceInfo>,
    chosen: int,
) -> bool {
    &&& 0 <= chosen < devices.len()
    &&& scorer.rating(&devices[chosen]) is Some
    &&& forall|j: int|
        0 <= j < chosen ==> (scorer.rating(#[trigger] &devices[j]) matches Some(other)
            ==> other <= scorer.rating(&devices[chosen]).unwrap())
    &&& forall|j: int|
        chosen < j < devices.len() ==> (scorer.rating(#[trigger] &devices[j]) matches Some(other)
            ==> other < scorer.rating(&devices[chosen]).unwrap())
}

/// Under the default policy the best rated adapter is the last discrete GPU.
pub proof fn lemma_default_policy_takes_last_discrete(
    devices: Seq<PhysicalDeviceInfo>,
    chosen: int,
)
    ensures
        is_best_rated(&LastDiscrete, devices, chosen) <==> is_last_discrete(devices, chosen),
        has_rated(&LastDiscrete, devices) <==> has_discrete(devices),
{
    let scorer = LastDiscrete;
    if is_best_rated(&scorer, devices, chosen) {
        assert forall|j: int| chosen < j < devices.len() implies !(#[trigger] devices[j]).is_discrete(
        ) by {
            assert(scorer.rating(&devices[j]) is None);
        }
    }
    if has_rated(&scorer, devices) {
        let j = choose|j: int|
            0 <= j < devices.len() && scorer.rating(#[trigger] &devices[j]) is Some;
        assert(devices[j].is_discrete());
    }
    if has_discrete(devices) {
        let j = choose|j: int| 0 <= j < devices.len() && (#[trigger] devices[j]).is_discrete();
        assert(scorer.rating(&devices[j]) is Some);
    }
}

/// Picks the adapter that the policy rates highest, by its position; of
/// several with the highest rating, the last. Where the policy admits no
/// adapter, an empty enumeration included, there is no suitable device.
pub fn select_with<S: DeviceScorer>(scorer: &S, devices: &Vec<PhysicalDeviceInfo>) -> (chosen:
    Result<usize, BootstrapError>)
    ensures
        chosen is Ok <==> has_rated(scorer, devices@),
        chosen matches Ok(i) ==> is_best_rated(scorer, devices@, i as int),
        chosen matches Err(e) ==> e == BootstrapError::NoSuitableDevice,
{
    let mut best: Option<(usize, u64)> = None;
    let mut i: usize = 0;
    while i < devices.len()
        invariant
            i <= devices.len(),
            best is None ==> forall|j: int|
                0 <= j < i ==> scorer.rating(#[trigger] &devices@[j]) is None,
            best matches Some((k, top)) ==> k < i && scorer.rating(&devices@[k as int]) == Some(top)
                && is_best_rated(scorer, devices@.take(i as int), k as int),
        decreases devices.len() - i,
    {
        let ghost before = devices@.take(i as int);
        let ghost after = devices@.take(i + 1);
        proof {
            assert(forall|j: int| 0 <= j < i ==> before[j] == after[j]);
            assert(after[i as int] == devices@[i as int]);
        }
        match scorer.score(&devices[i]) {
            Some(rating) => {
                let better = match best {
                    Some((_, top)) => rating >= top,
                    None => true,
                };
                if better {
                    best = Some((i, rating));
                }
            },
            None => {},
        }
        i += 1;
    }
    proof {
        assert(devices@.take(i as int) == devices@);
    }
    match best {
        Some((k, _)) => Ok(k),
        None => Err(BootstrapError::NoSuitableDevice),
    }
}

/// Picks the adapter to use: the last discrete GPU of the enumeration, by its
/// position. An enumeration without a discrete GPU, an empty one included, has
/// no suitable device; integrated, virtual and other adapters are never
/// returned.
pub fn select_physical_device(devices: &Vec<PhysicalDeviceInfo>) -> (chosen: Result<
    usize,
    BootstrapError,
>)
    ensures
        chosen is Ok <==> has_discrete(devices@),
        chosen matches Ok(i) ==> is_last_discrete(devices@, i as int),
        chosen matches Err(e) ==> e == BootstrapError::NoSuitableDevice,
        chosen.ok() == selected_device(devices@),
{
    let chosen = select_with(&LastDiscrete, devices);
    proof {
        match chosen {
            Ok(k) => {
                lemma_default_policy_takes_last_discrete(devices@, k as int);
                let picked = choose|i: usize| is_last_discrete(devices@, i as int);
                lemma_last_discrete_is_unique(devices@, k as int, picked as int);
            },
            Err(_) => {
                lemma_default_policy_takes_last_discrete(devices@, 0);
            },
        }
    }
    chosen
}

} // verus!
