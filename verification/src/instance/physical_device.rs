//! Physical devices: memory types, queue families and limits.
use vstd::prelude::*;
use crate::format::has_flag;
use crate::buffer::MemoryRequirements;

verus! {

/// The device limits that the interface reads.
#[derive(Clone, Copy, Debug, PartialEq, Eq, Structural)]
pub struct Limits {
    pub min_texel_buffer_offset_alignment: u64,
    pub min_uniform_buffer_offset_alignment: u64,
    pub min_storage_buffer_offset_alignment: u64,
}

/// The maximum number of memory types of a physical device (`VK_MAX_MEMORY_TYPES`).
pub const MAX_MEMORY_TYPES: u32 = 32;

/// A memory type of a physical device: its index and its property flags
/// (`VkMemoryPropertyFlags`).
#[derive(Clone, Copy, Debug, PartialEq, Eq, Structural)]
pub struct MemoryType {
    index: u32,
    property_flags: u32,
}

impl View for MemoryType {
    /// Index and property flags.
    type V = (u32, u32);

    closed spec fn view(&self) -> (u32, u32) {
        (self.index, self.property_flags)
    }
}

impl MemoryType {
    #[verifier::type_invariant]
    closed spec fn inv(self) -> bool {
        self.index < MAX_MEMORY_TYPES
    }

    /// The memory type of the given index, with the given property flags.
    pub fn new(index: u32, property_flags: u32) -> (m: MemoryType)
        requires
            index < MAX_MEMORY_TYPES,
        ensures
            m@ == (index, property_flags),
    {
        MemoryType { index, property_flags }
    }

    pub fn index(&self) -> (i: u32)
        ensures
            i == self@.0,
            i < MAX_MEMORY_TYPES,
    {
        proof {
            use_type_invariant(self);
        }
        self.index
    }

    /// True when resources with the given requirements may live in memory of this type.
    pub fn satisfies(&self, reqs: &MemoryRequirements) -> (b: bool)
        ensures
            b == reqs.spec_contains_memory_type_index(self@.0),
    {
        proof {
            use_type_invariant(self);
        }
        reqs.contains_memory_type_index(self.index)
    }

    /// Returns true if the memory type is located on the device.
    ///
    /// This is the most efficient for GPU accesses.
    pub fn is_device_local(&self) -> (b: bool)
        ensures
            b == has_flag(self@.1, 0x1),
    {
        self.property_flags & 0x1 == 0x1
    }

    /// Returns true if the memory type can be accessed by the host.
    pub fn is_host_visible(&self) -> (b: bool)
        ensures
            b == has_flag(self@.1, 0x2),
    {
        self.property_flags & 0x2 == 0x2
    }

    /// Returns `true` if modifications made by the host or the GPU on this memory type are
    /// instantaneously visible to the other party.
    /// Otherwise, changes have to be flushed.
    pub fn is_host_coherent(&self) -> (b: bool)
        ensures
            b == has_flag(self@.1, 0x4),
    {
        self.property_flags & 0x4 == 0x4
    }

    /// Returns true if memory of this memory type is cached by the host.
    ///
    /// Host memory accesses to cached memory is faster than for uncached memory.
    /// However you are not guaranteed that it is coherent.
    pub fn is_host_cached(&self) -> (b: bool)
        ensures
            b == has_flag(self@.1, 0x8),
    {
        self.property_flags & 0x8 == 0x8
    }

    /// Returns true if allocations made to this memory type is lazy.
    ///
    /// This means that no actual allocation is performed.
    /// Instead memory is automatically allocated by the Vulkan implementation.
    pub fn is_lazily_allocated(&self) -> (b: bool)
        ensures
            b == has_flag(self@.1, 0x10),
    {
        self.property_flags & 0x10 == 0x10
    }
}

/// A queue family of a physical device: its index, its capability flags
/// (`VkQueueFlags`), its number of queues, and the index of the physical
/// device it belongs to.
#[derive(Clone, Copy, Debug, PartialEq, Eq, Structural)]
pub struct QueueFamily {
    index: u32,
    queue_flags: u32,
    queue_count: u32,
    physical_device: u32,
}

impl View for QueueFamily {
    /// Index, capability flags, queue count and physical device index.
    type V = (u32, u32, u32, u32);

    closed spec fn view(&self) -> (u32, u32, u32, u32) {
        (self.index, self.queue_flags, self.queue_count, self.physical_device)
    }
}

impl QueueFamily {
    pub fn new(index: u32, queue_flags: u32, queue_count: u32, physical_device: u32) -> (q: QueueFamily)
        ensures
            q@ == (index, queue_flags, queue_count, physical_device),
    {
        QueueFamily { index, queue_flags, queue_count, physical_device }
    }

    /// Index of the physical device this queue family is attached to.
    pub fn physical_device_index(&self) -> (i: u32)
        ensures
            i == self@.3,
    {
        self.physical_device
    }

    /// Index of the queue family in the physical device.
    pub fn index(&self) -> (i: u32)
        ensures
            i == self@.0,
    {
        self.index
    }

    /// Number of queues of this family.
    pub fn queue_count(&self) -> (n: u32)
        ensures
            n == self@.2,
    {
        self.queue_count
    }

    /// Queue family supports graphics operations.
    pub fn supports_graphics(&self) -> (b: bool)
        ensures
            b == has_flag(self@.1, 0x1),
    {
        self.queue_flags & 0x1 == 0x1
    }

    /// Queue family supports compute operations.
    pub fn supports_compute(&self) -> (b: bool)
        ensures
            b == has_flag(self@.1, 0x2),
    {
        self.queue_flags & 0x2 == 0x2
    }

    /// Queue family supports transfer operations.
    pub fn supports_transfer(&self) -> (b: bool)
        ensures
            b == has_flag(self@.1, 0x4),
    {
        self.queue_flags & 0x4 == 0x4
    }

    /// Queue family supports sparse resource memory management operations.
    pub fn supports_sparse_binding(&self) -> (b: bool)
        ensures
            b == has_flag(self@.1, 0x8),
    {
        self.queue_flags & 0x8 == 0x8
    }
}

/// What the interface knows of a physical device: its index among the
/// devices of its instance, the property flags of its memory types, the
/// capability flags and queue counts of its queue families, and its limits.
#[derive(Debug)]
pub struct PhysicalDevice {
    index: u32,
    memory_types: Vec<u32>,
    queue_families: Vec<(u32, u32)>,
    limits: Limits,
}

impl PhysicalDevice {
    #[verifier::type_invariant]
    closed spec fn inv(self) -> bool {
        &&& self.memory_types@.len() <= MAX_MEMORY_TYPES
        &&& self.queue_families@.len() <= u32::MAX
    }

    pub closed spec fn spec_index(&self) -> u32 {
        self.index
    }

    /// Property flags of the memory types, by index.
    pub closed spec fn spec_memory_types(&self) -> Seq<u32> {
        self.memory_types@
    }

    /// Capability flags and queue counts of the queue families, by index.
    pub closed spec fn spec_queue_families(&self) -> Seq<(u32, u32)> {
        self.queue_families@
    }

    pub closed spec fn spec_limits(&self) -> Limits {
        self.limits
    }

    pub fn new(index: u32, memory_types: Vec<u32>, queue_families: Vec<(u32, u32)>, limits: Limits) -> (p:
        PhysicalDevice)
        requires
            memory_types@.len() <= MAX_MEMORY_TYPES,
            queue_families@.len() <= u32::MAX,
        ensures
            p.spec_index() == index,
            p.spec_memory_types() == memory_types@,
            p.spec_queue_families() == queue_families@,
            p.spec_limits() == limits,
    {
        PhysicalDevice { index, memory_types, queue_families, limits }
    }

    /// Index of the device among the physical devices of its instance.
    pub fn index(&self) -> (i: u32)
        ensures
            i == self.spec_index(),
    {
        self.index
    }

    pub fn limits(&self) -> (l: Limits)
        ensures
            l == self.spec_limits(),
    {
        self.limits
    }

    pub fn memory_type_count(&self) -> (n: u32)
        ensures
            n == self.spec_memory_types().len(),
            n <= MAX_MEMORY_TYPES,
    {
        proof {
            use_type_invariant(self);
        }
        self.memory_types.len() as u32
    }

    /// The memory type of the given index, if the device has one.
    pub fn memory_type(&self, index: u32) -> (m: Option<MemoryType>)
        ensures
            m is Some <==> index < self.spec_memory_types().len(),
            m matches Some(t) ==> t@ == (index, self.spec_memory_types()[index as int]),
    {
        proof {
            use_type_invariant(self);
        }
        if index < self.memory_type_count() {
            Some(MemoryType::new(index, self.memory_types[index as usize]))
        } else {
            None
        }
    }

    /// All the memory types of the device, by index.
    pub fn memory_types(&self) -> (ms: Vec<MemoryType>)
        ensures
            ms@.len() == self.spec_memory_types().len(),
            forall|i: int| 0 <= i < ms@.len() ==> #[trigger] ms@[i]@ == (i as u32, self.spec_memory_types()[i]),
    {
        proof {
            use_type_invariant(self);
        }
        let mut ms: Vec<MemoryType> = Vec::new();
        let mut i: usize = 0;
        while i < self.memory_types.len()
            invariant
                i <= self.memory_types@.len() <= MAX_MEMORY_TYPES,
                ms@.len() == i,
                forall|j: int| 0 <= j < i ==> #[trigger] ms@[j]@ == (j as u32, self.memory_types@[j]),
            decreases self.memory_types@.len() - i,
        {
            ms.push(MemoryType::new(i as u32, self.memory_types[i]));
            i = i + 1;
        }
        ms
    }

    /// The queue family of the given index, if the device has one.
    pub fn queue_family(&self, id: u32) -> (q: Option<QueueFamily>)
        ensures
            q is Some <==> id < self.spec_queue_families().len(),
            q matches Some(f) ==> f@ == (
                id,
                self.spec_queue_families()[id as int].0,
                self.spec_queue_families()[id as int].1,
                self.spec_index(),
            ),
    {
        if (id as usize) < self.queue_families.len() {
            let (flags, count) = self.queue_families[id as usize];
            Some(QueueFamily::new(id, flags, count, self.index))
        } else {
            None
        }
    }

    /// All the queue families of the device, by index.
    pub fn queue_families(&self) -> (qs: Vec<QueueFamily>)
        ensures
            qs@.len() == self.spec_queue_families().len(),
            forall|i: int| 0 <= i < qs@.len() ==> #[trigger] qs@[i]@ == (
                i as u32,
                self.spec_queue_families()[i].0,
                self.spec_queue_families()[i].1,
                self.spec_index(),
            ),
    {
        proof {
            use_type_invariant(self);
        }
        let mut qs: Vec<QueueFamily> = Vec::new();
        let mut i: usize = 0;
        while i < self.queue_families.len()
            invariant
                i <= self.queue_families@.len() <= u32::MAX,
                qs@.len() == i,
                forall|j: int| 0 <= j < i ==> #[trigger] qs@[j]@ == (
                    j as u32,
                    self.queue_families@[j].0,
                    self.queue_families@[j].1,
                    self.index,
                ),
            decreases self.queue_families@.len() - i,
        {
            let (flags, count) = self.queue_families[i];
            qs.push(QueueFamily::new(i as u32, flags, count, self.index));
            i = i + 1;
        }
        qs
    }
}

} // verus!
