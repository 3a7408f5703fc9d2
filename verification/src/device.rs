//! The logical device request and the queues retrieved from the device.

use crate::error::BootstrapError;
use crate::queue_family::QueueFamilyIndices;
use vstd::prelude::*;

verus! {

/// One entry of the device request: queues asked of one family.
#[derive(Clone, Copy, Debug, PartialEq, Eq, Structural)]
pub struct QueueRequest {
    /// The family's position in the device's queue family list.
    pub family: usize,
    /// The number of queues asked of the family, each with its priority.
    pub queue_count: u32,
}

/// The place of a queue in a logical device.
#[derive(Clone, Copy, Debug, PartialEq, Eq, Structural)]
pub struct QueueSlot {
    pub family: usize,
    pub index: u32,
}

/// The request handed to logical device creation.
#[derive(Debug)]
pub struct DeviceRequest {
    /// One entry for each distinct family.
    pub queues: Vec<QueueRequest>,
    /// The layers to enable on the device: those of the instance.
    pub layers: Vec<String>,
}

/// The places of the two queues that the application receives.
#[derive(Clone, Copy, Debug, PartialEq, Eq, Structural)]
pub struct DeviceQueues {
    pub graphics: QueueSlot,
    pub transfer: QueueSlot,
}

/// The entries of the request: one queue of the graphics family, and one of
/// the transfer family where that is another family.
pub open spec fn queue_request_entries(indices: QueueFamilyIndices) -> Seq<QueueRequest> {
    if indices.graphics == indices.transfer {
        seq![QueueRequest { family: indices.graphics, queue_count: 1 }]
    } else {
        seq![
            QueueRequest { family: indices.graphics, queue_count: 1 },
            QueueRequest { family: indices.transfer, queue_count: 1 },
        ]
    }
}

/// Builds the queue entries of the device request: one queue from each
/// distinct family. Where one family serves graphics and transfer it is named
/// once, since the driver rejects a family that is named twice.
pub fn build_queue_requests(indices: QueueFamilyIndices) -> (entries: Vec<QueueRequest>)
    ensures
        entries@ == queue_request_entries(indices),
        forall|i: int, j: int|
            0 <= i < j < entries@.len() ==> entries@[i].family != entries@[j].family,
{
    let mut entries: Vec<QueueRequest> = Vec::new();
    entries.push(QueueRequest { family: indices.graphics, queue_count: 1 });
    if indices.transfer != indices.graphics {
        entries.push(QueueRequest { family: indices.transfer, queue_count: 1 });
    }
    assert(entries@ =~= queue_request_entries(indices));
    entries
}

/// Builds the logical device request for the resolved families, with the
/// instance's layers.
pub fn build_device_request(indices: QueueFamilyIndices, layers: Vec<String>) -> (request:
    DeviceRequest)
    ensures
        request.queues@ == queue_request_entries(indices),
        request.layers == layers,
{
    DeviceRequest { queues: build_queue_requests(indices), layers }
}

/// The queues retrieved from the device: the first queue of the graphics
/// family and the first queue of the transfer family.
pub fn queue_slots(indices: QueueFamilyIndices) -> (queues: DeviceQueues)
    ensures
        queues.graphics == (QueueSlot { family: indices.graphics, index: 0 }),
        queues.transfer == (QueueSlot { family: indices.transfer, index: 0 }),
{
    DeviceQueues {
        graphics: QueueSlot { family: indices.graphics, index: 0 },
        transfer: QueueSlot { family: indices.transfer, index: 0 },
    }
}

/// Concludes device creation from the driver's answer: an accepted request
/// yields the two queues, a rejected one is a device creation error.
pub fn device_outcome(indices: QueueFamilyIndices, accepted: bool) -> (outcome: Result<
    DeviceQueues,
    BootstrapError,
>)
    ensures
        outcome is Ok <==> accepted,
        outcome matches Ok(queues) ==> queues.graphics == (QueueSlot {
            family: indices.graphics,
            index: 0,
        }) && queues.transfer == (QueueSlot { family: indices.transfer, index: 0 }),
        outcome matches Err(e) ==> e == BootstrapError::DeviceCreation,
{
    if accepted {
        Ok(queue_slots(indices))
    } else {
        Err(BootstrapError::DeviceCreation)
    }
}

} // verus!
