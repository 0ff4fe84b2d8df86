use vstd::prelude::*;

verus! {

/// The backend can attach block devices.
pub const BLOCK_DEVICE_SUPPORT: u32 = 1;

/// The backend can hot-plug block devices into a running guest.
pub const BLOCK_DEVICE_HOTPLUG_SUPPORT: u32 = 2;

/// The backend can give a device several queues.
pub const MULTI_QUEUE_SUPPORT: u32 = 4;

/// The backend can share a host directory with the guest.
pub const FS_SHARING_SUPPORT: u32 = 8;

/// Every bit of `bits` is set in `flags`.
pub open spec fn has_bits(flags: u32, bits: u32) -> bool {
    flags & bits == bits
}

/// The fixed set this backend advertises.
pub open spec fn ch_flags() -> u32 {
    BLOCK_DEVICE_SUPPORT | BLOCK_DEVICE_HOTPLUG_SUPPORT | FS_SHARING_SUPPORT
}

/// A set of capability bits.
pub struct Capabilities {
    flags: u32,
}

impl View for Capabilities {
    type V = u32;

    closed spec fn view(&self) -> u32 {
        self.flags
    }
}

impl Capabilities {
    /// An empty set.
    pub fn new() -> (r: Self)
        ensures
            r@ == 0u32,
    {
        Capabilities { flags: 0 }
    }

    /// Replaces the set by `flags`.
    pub fn set(&mut self, flags: u32)
        ensures
            final(self)@ == flags,
    {
        self.flags = flags;
    }

    /// Whether every bit of `bits` is in the set.
    pub fn is_set(&self, bits: u32) -> (r: bool)
        ensures
            r == has_bits(self@, bits),
    {
        self.flags & bits == bits
    }

    /// Whether block devices can be attached.
    pub fn is_block_device_supported(&self) -> (r: bool)
        ensures
            r == has_bits(self@, BLOCK_DEVICE_SUPPORT),
    {
        self.is_set(BLOCK_DEVICE_SUPPORT)
    }

    /// Whether block devices can be hot-plugged.
    pub fn is_block_device_hotplug_supported(&self) -> (r: bool)
        ensures
            r == has_bits(self@, BLOCK_DEVICE_HOTPLUG_SUPPORT),
    {
        self.is_set(BLOCK_DEVICE_HOTPLUG_SUPPORT)
    }

    /// Whether several queues per device are supported.
    pub fn is_multi_queue_supported(&self) -> (r: bool)
        ensures
            r == has_bits(self@, MULTI_QUEUE_SUPPORT),
    {
        self.is_set(MULTI_QUEUE_SUPPORT)
    }

    /// Whether a host directory can be shared with the guest.
    pub fn is_fs_sharing_supported(&self) -> (r: bool)
        ensures
            r == has_bits(self@, FS_SHARING_SUPPORT),
    {
        self.is_set(FS_SHARING_SUPPORT)
    }
}

/// The capability set of this backend: block devices, their hot-plug and
/// file-system sharing, and nothing else.
pub fn ch_capabilities() -> (r: Capabilities)
    ensures
        r@ == ch_flags(),
        has_bits(r@, BLOCK_DEVICE_SUPPORT),
        has_bits(r@, BLOCK_DEVICE_HOTPLUG_SUPPORT),
        has_bits(r@, FS_SHARING_SUPPORT),
        !has_bits(r@, MULTI_QUEUE_SUPPORT),
{
    let mut c = Capabilities::new();
    c.set(BLOCK_DEVICE_SUPPORT | BLOCK_DEVICE_HOTPLUG_SUPPORT | FS_SHARING_SUPPORT);
    assert(ch_flags() == 11u32) by (bit_vector)
        requires
            ch_flags() == 1u32 | 2u32 | 8u32,
    ;
    assert(11u32 & 1u32 == 1u32 && 11u32 & 2u32 == 2u32 && 11u32 & 8u32 == 8u32
        && 11u32 & 4u32 != 4u32) by (bit_vector);
    c
}

} // verus!
