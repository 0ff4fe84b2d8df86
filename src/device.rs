use vstd::prelude::*;

verus! {

/// A device-attachment request for the guest.
#[derive(Debug, Clone, PartialEq, Eq)]
pub enum DeviceType {
    /// A block device backed by a host path.
    Block { path: String, read_only: bool },
    /// A network interface bound to a host device.
    Network { host_dev_name: String, guest_mac: String },
    /// A host directory shared under a mount tag.
    ShareFs { mount_tag: String, host_path: String },
    /// A vsock device with the given guest context id.
    Vsock { guest_cid: u32 },
}

/// Device requests gathered before the guest has booted, kept in the order
/// they came.
pub struct PendingDevices {
    items: Vec<DeviceType>,
}

impl View for PendingDevices {
    type V = Seq<DeviceType>;

    closed spec fn view(&self) -> Seq<DeviceType> {
        self.items@
    }
}

impl PendingDevices {
    /// An empty queue.
    pub fn new() -> (r: Self)
        ensures
            r@ == Seq::<DeviceType>::empty(),
    {
        PendingDevices { items: Vec::new() }
    }

    /// Appends `device` at the back.
    pub fn enqueue(&mut self, device: DeviceType)
        ensures
            final(self)@ == old(self)@.push(device),
    {
        self.items.push(device);
    }

    /// Hands out every queued request, oldest first, and leaves the queue
    /// empty.
    pub fn drain(&mut self) -> (r: Vec<DeviceType>)
        ensures
            r@ == old(self)@,
            final(self)@ == Seq::<DeviceType>::empty(),
    {
        let mut out: Vec<DeviceType> = Vec::new();
        core::mem::swap(&mut self.items, &mut out);
        out
    }

    /// Number of queued requests.
    pub fn len(&self) -> (r: usize)
        ensures
            r == self@.len(),
    {
        self.items.len()
    }

    /// Whether nothing is queued.
    pub fn is_empty(&self) -> (r: bool)
        ensures
            r == (self@.len() == 0),
    {
        self.items.len() == 0
    }
}

/// Enqueuing three requests on an empty queue and draining gives exactly
/// those three, in order; draining again gives nothing.  Each step is related
/// to the next as `enqueue` and `drain` state.
pub proof fn lemma_drain_in_order(
    q0: Seq<DeviceType>,
    q1: Seq<DeviceType>,
    q2: Seq<DeviceType>,
    q3: Seq<DeviceType>,
    first: Seq<DeviceType>,
    q4: Seq<DeviceType>,
    second: Seq<DeviceType>,
    d1: DeviceType,
    d2: DeviceType,
    d3: DeviceType,
)
    requires
        q0 == Seq::<DeviceType>::empty(),
        q1 == q0.push(d1),
        q2 == q1.push(d2),
        q3 == q2.push(d3),
        first == q3,
        q4 == Seq::<DeviceType>::empty(),
        second == q4,
    ensures
        first == seq![d1, d2, d3],
        second.len() == 0,
{
    assert(first =~= seq![d1, d2, d3]);
}

} // verus!
