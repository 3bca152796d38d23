//! Split virtqueue transport core: descriptor chains, the available and used
//! rings, notification suppression, and a block request parser built on top.
pub mod memory;
pub mod descriptor;
pub mod chain;
pub mod queue;
pub mod request;
pub mod virtq_desc;

pub use chain::DescriptorChain;
pub use descriptor::{
    Descriptor, QueueError, VIRTQ_DESC_F_INDIRECT, VIRTQ_DESC_F_NEXT, VIRTQ_DESC_F_WRITE,
};
pub use queue::{AvailIter, Queue};
pub use request::{Error, Request, RequestHeader, RequestType};
pub use virtq_desc::VirtqDesc;
