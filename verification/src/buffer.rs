//! Buffers: usage flags, memory requirements and the checks made when a
//! buffer is bound to memory.
use vstd::prelude::*;
use crate::OomError;
use crate::codes;
use crate::format::has_flag;
use crate::instance::physical_device::Limits;

verus! {

/// A single buffer usage.
#[derive(Clone, Copy, Debug, PartialEq, Eq, Structural)]
pub enum Usage {
    TransferSource,
    TransferDestination,
    UniformTexelBuffer,
    StorageTexelBuffer,
    UniformBuffer,
    StorageBuffer,
    IndexBuffer,
    VertexBuffer,
    IndirectBuffer,
}

impl Usage {
    /// The Vulkan flag bit of this usage (`VkBufferUsageFlagBits`).
    pub open spec fn spec_bit(self) -> u32 {
        match self {
            Usage::TransferSource => 0x1,
            Usage::TransferDestination => 0x2,
            Usage::UniformTexelBuffer => 0x4,
            Usage::StorageTexelBuffer => 0x8,
            Usage::UniformBuffer => 0x10,
            Usage::StorageBuffer => 0x20,
            Usage::IndexBuffer => 0x40,
            Usage::VertexBuffer => 0x80,
            Usage::IndirectBuffer => 0x100,
        }
    }

    /// Returns the Vulkan flag bit of this usage.
    pub fn into_vulkan(self) -> (b: u32)
        ensures
            b == self.spec_bit(),
    {
        match self {
            Usage::TransferSource => 0x1,
            Usage::TransferDestination => 0x2,
            Usage::UniformTexelBuffer => 0x4,
            Usage::StorageTexelBuffer => 0x8,
            Usage::UniformBuffer => 0x10,
            Usage::StorageBuffer => 0x20,
            Usage::IndexBuffer => 0x40,
            Usage::VertexBuffer => 0x80,
            Usage::IndirectBuffer => 0x100,
        }
    }
}

/// A set of buffer usages, held as Vulkan flags (`VkBufferUsageFlags`).
#[derive(Clone, Copy, Debug, PartialEq, Eq, Structural)]
pub struct Usages(pub u32);

impl View for Usages {
    type V = u32;

    open spec fn view(&self) -> u32 {
        self.0
    }
}

impl Usages {
    /// The set that holds the given flags.
    pub fn from_vulkan(flags: u32) -> (r: Usages)
        ensures
            r@ == flags,
    {
        Usages(flags)
    }

    /// True when no usage is in the set.
    pub fn is_empty(&self) -> (b: bool)
        ensures
            b == (self@ == 0),
    {
        self.0 == 0
    }

    /// The Vulkan flags of this set.
    pub fn into_vulkan(self) -> (f: u32)
        ensures
            f == self@,
    {
        self.0
    }

    /// True when the given usage is in the set.
    pub open spec fn spec_contains(self, u: Usage) -> bool {
        has_flag(self@, u.spec_bit())
    }

    /// True when the given usage is in the set.
    pub fn contains(&self, u: Usage) -> (b: bool)
        ensures
            b == self.spec_contains(u),
    {
        let bit = u.into_vulkan();
        self.0 & bit == bit
    }

    pub fn transfer_source(&self) -> (b: bool)
        ensures
            b == self.spec_contains(Usage::TransferSource),
    {
        self.contains(Usage::TransferSource)
    }

    pub fn transfer_destination(&self) -> (b: bool)
        ensures
            b == self.spec_contains(Usage::TransferDestination),
    {
        self.contains(Usage::TransferDestination)
    }

    pub fn uniform_texel_buffer(&self) -> (b: bool)
        ensures
            b == self.spec_contains(Usage::UniformTexelBuffer),
    {
        self.contains(Usage::UniformTexelBuffer)
    }

    pub fn storage_texel_buffer(&self) -> (b: bool)
        ensures
            b == self.spec_contains(Usage::StorageTexelBuffer),
    {
        self.contains(Usage::StorageTexelBuffer)
    }

    pub fn uniform_buffer(&self) -> (b: bool)
        ensures
            b == self.spec_contains(Usage::UniformBuffer),
    {
        self.contains(Usage::UniformBuffer)
    }

    pub fn storage_buffer(&self) -> (b: bool)
        ensures
            b == self.spec_contains(Usage::StorageBuffer),
    {
        self.contains(Usage::StorageBuffer)
    }

    pub fn index_buffer(&self) -> (b: bool)
        ensures
            b == self.spec_contains(Usage::IndexBuffer),
    {
        self.contains(Usage::IndexBuffer)
    }

    pub fn vertex_buffer(&self) -> (b: bool)
        ensures
            b == self.spec_contains(Usage::VertexBuffer),
    {
        self.contains(Usage::VertexBuffer)
    }

    pub fn indirect_buffer(&self) -> (b: bool)
        ensures
            b == self.spec_contains(Usage::IndirectBuffer),
    {
        self.contains(Usage::IndirectBuffer)
    }

    /// Adds every usage of `rhs` to this set.
    pub fn insert_all(&mut self, rhs: Usages)
        ensures
            final(self)@ == old(self)@ | rhs@,
    {
        self.0 = self.0 | rhs.0;
    }

    /// Adds the usage `rhs` to this set.
    pub fn insert(&mut self, rhs: Usage)
        ensures
            final(self)@ == old(self)@ | rhs.spec_bit(),
    {
        self.0 = self.0 | rhs.into_vulkan();
    }
}

impl From<Usage> for Usages {
    fn from(u: Usage) -> (r: Usages) {
        Usages(u.into_vulkan())
    }
}

impl vstd::std_specs::convert::FromSpecImpl<Usage> for Usages {
    open spec fn obeys_from_spec() -> bool {
        true
    }

    open spec fn from_spec(u: Usage) -> Usages {
        Usages(u.spec_bit())
    }
}

impl core::ops::BitOr for Usage {
    type Output = Usages;

    fn bitor(self, rhs: Usage) -> (r: Usages) {
        Usages(self.into_vulkan() | rhs.into_vulkan())
    }
}

impl vstd::std_specs::ops::BitOrSpecImpl for Usage {
    open spec fn obeys_bitor_spec() -> bool {
        true
    }

    open spec fn bitor_req(self, rhs: Usage) -> bool {
        true
    }

    open spec fn bitor_spec(self, rhs: Usage) -> Usages {
        Usages(self.spec_bit() | rhs.spec_bit())
    }
}

impl core::ops::BitOr<Usages> for Usage {
    type Output = Usages;

    fn bitor(self, rhs: Usages) -> (r: Usages) {
        Usages(self.into_vulkan() | rhs.0)
    }
}

impl vstd::std_specs::ops::BitOrSpecImpl<Usages> for Usage {
    open spec fn obeys_bitor_spec() -> bool {
        true
    }

    open spec fn bitor_req(self, rhs: Usages) -> bool {
        true
    }

    open spec fn bitor_spec(self, rhs: Usages) -> Usages {
        Usages(self.spec_bit() | rhs.0)
    }
}

impl core::ops::BitOr for Usages {
    type Output = Usages;

    fn bitor(self, rhs: Usages) -> (r: Usages) {
        Usages(self.0 | rhs.0)
    }
}

impl vstd::std_specs::ops::BitOrSpecImpl for Usages {
    open spec fn obeys_bitor_spec() -> bool {
        true
    }

    open spec fn bitor_req(self, rhs: Usages) -> bool {
        true
    }

    open spec fn bitor_spec(self, rhs: Usages) -> Usages {
        Usages(self.0 | rhs.0)
    }
}

impl core::ops::BitOr<Usage> for Usages {
    type Output = Usages;

    fn bitor(self, rhs: Usage) -> (r: Usages) {
        Usages(self.0 | rhs.into_vulkan())
    }
}

impl vstd::std_specs::ops::BitOrSpecImpl<Usage> for Usages {
    open spec fn obeys_bitor_spec() -> bool {
        true
    }

    open spec fn bitor_req(self, rhs: Usage) -> bool {
        true
    }

    open spec fn bitor_spec(self, rhs: Usage) -> Usages {
        Usages(self.0 | rhs.spec_bit())
    }
}

/// The flag bits of the buffer usages.
pub open spec fn is_usage_bit(b: u32) -> bool {
    b == 0x1 || b == 0x2 || b == 0x4 || b == 0x8 || b == 0x10 || b == 0x20 || b == 0x40 || b == 0x80
        || b == 0x100
}

/// Single bits: `x | y` holds `b` exactly when `x` or `y` does.
proof fn lemma_or_bit(x: u32, y: u32, b: u32)
    requires
        is_usage_bit(b),
    ensures
        has_flag(x | y, b) <==> has_flag(x, b) || has_flag(y, b),
{
    assert(has_flag(x | y, b) <==> has_flag(x, b) || has_flag(y, b)) by (bit_vector)
        requires
            b == 0x1 || b == 0x2 || b == 0x4 || b == 0x8 || b == 0x10 || b == 0x20 || b == 0x40
                || b == 0x80 || b == 0x100,
    ;
}

/// Distinct usage bits do not hold each other.
proof fn lemma_bits_distinct(a: u32, b: u32)
    requires
        is_usage_bit(a),
        is_usage_bit(b),
    ensures
        has_flag(a, b) <==> a == b,
{
    assert(has_flag(a, b) <==> a == b) by (bit_vector)
        requires
            a == 0x1 || a == 0x2 || a == 0x4 || a == 0x8 || a == 0x10 || a == 0x20 || a == 0x40
                || a == 0x80 || a == 0x100,
            b == 0x1 || b == 0x2 || b == 0x4 || b == 0x8 || b == 0x10 || b == 0x20 || b == 0x40
                || b == 0x80 || b == 0x100,
    ;
}

/// A usage is in the union of two sets exactly when it is in either set.
pub proof fn lemma_union_contains(a: Usages, b: Usages, u: Usage)
    ensures
        Usages(a@ | b@).spec_contains(u) <==> a.spec_contains(u) || b.spec_contains(u),
{
    lemma_or_bit(a@, b@, u.spec_bit());
}

/// An offset suits a set of buffer usages exactly when it is a multiple of
/// the texel buffer alignment if the set holds a uniform or storage texel
/// buffer usage (flag bits `0x4`, `0x8`), of the storage buffer alignment if
/// it holds the storage buffer usage (`0x20`), and of the uniform buffer
/// alignment if it holds the uniform buffer usage (`0x10`); the other usages
/// impose nothing.
pub proof fn lemma_offset_alignment(u: Usages, offset: u64, limits: Limits)
    ensures
        u.spec_offset_aligned(offset, limits) <==> {
            &&& (has_flag(u@, 0x4) || has_flag(u@, 0x8)) ==> offset
                % limits.min_texel_buffer_offset_alignment == 0
            &&& has_flag(u@, 0x20) ==> offset % limits.min_storage_buffer_offset_alignment == 0
            &&& has_flag(u@, 0x10) ==> offset % limits.min_uniform_buffer_offset_alignment == 0
        },
{
}

/// An offset suits the union of two sets of usages exactly when it suits both.
pub proof fn lemma_offset_alignment_union(a: Usages, b: Usages, offset: u64, limits: Limits)
    ensures
        Usages(a@ | b@).spec_offset_aligned(offset, limits) <==> a.spec_offset_aligned(offset, limits)
            && b.spec_offset_aligned(offset, limits),
{
    lemma_union_contains(a, b, Usage::UniformTexelBuffer);
    lemma_union_contains(a, b, Usage::StorageTexelBuffer);
    lemma_union_contains(a, b, Usage::StorageBuffer);
    lemma_union_contains(a, b, Usage::UniformBuffer);
}

/// The set made of one usage holds that usage and no other.
pub proof fn lemma_single_contains(u: Usage, v: Usage)
    ensures
        Usages(u.spec_bit()).spec_contains(v) <==> u == v,
{
    lemma_bits_distinct(u.spec_bit(), v.spec_bit());
}

/// The union of two usages holds exactly those two usages.
pub proof fn lemma_pair_contains(u: Usage, v: Usage, w: Usage)
    ensures
        Usages(u.spec_bit() | v.spec_bit()).spec_contains(w) <==> (w == u || w == v),
{
    lemma_or_bit(u.spec_bit(), v.spec_bit(), w.spec_bit());
    lemma_bits_distinct(u.spec_bit(), w.spec_bit());
    lemma_bits_distinct(v.spec_bit(), w.spec_bit());
}

/// Union of usage sets is commutative, associative and idempotent, and the
/// empty set is its identity.
pub proof fn lemma_union_laws(a: Usages, b: Usages, c: Usages)
    ensures
        a@ | b@ == b@ | a@,
        (a@ | b@) | c@ == a@ | (b@ | c@),
        a@ | a@ == a@,
        a@ | 0 == a@,
{
    let (x, y, z) = (a@, b@, c@);
    assert(x | y == y | x) by (bit_vector);
    assert((x | y) | z == x | (y | z)) by (bit_vector);
    assert(x | x == x) by (bit_vector);
    assert(x | 0 == x) by (bit_vector);
}

impl Usages {
    /// True when a memory offset meets the alignments that the device
    /// limits impose on buffers with these usages.
    pub open spec fn spec_offset_aligned(self, offset: u64, limits: Limits) -> bool {
        &&& (self.spec_contains(Usage::UniformTexelBuffer) || self.spec_contains(
            Usage::StorageTexelBuffer,
        )) ==> offset % limits.min_texel_buffer_offset_alignment == 0
        &&& self.spec_contains(Usage::StorageBuffer) ==> offset
            % limits.min_storage_buffer_offset_alignment == 0
        &&& self.spec_contains(Usage::UniformBuffer) ==> offset
            % limits.min_uniform_buffer_offset_alignment == 0
    }

    /// Checks that a memory offset meets the alignments that the device
    /// limits impose on buffers with these usages.
    pub fn offset_aligned(&self, offset: u64, limits: &Limits) -> (b: bool)
        requires
            limits.min_texel_buffer_offset_alignment > 0,
            limits.min_storage_buffer_offset_alignment > 0,
            limits.min_uniform_buffer_offset_alignment > 0,
        ensures
            b == self.spec_offset_aligned(offset, *limits),
    {
        if (self.uniform_texel_buffer() || self.storage_texel_buffer()) && offset
            % limits.min_texel_buffer_offset_alignment != 0 {
            return false;
        }
        if self.storage_buffer() && offset % limits.min_storage_buffer_offset_alignment != 0 {
            return false;
        }
        if self.uniform_buffer() && offset % limits.min_uniform_buffer_offset_alignment != 0 {
            return false;
        }
        true
    }
}

/// Memory requirements of a resource (`VkMemoryRequirements`).
#[derive(Clone, Copy, Debug, PartialEq, Eq, Structural)]
pub struct MemoryRequirements {
    size: u64,
    alignment: u64,
    memory_type_bits: u32,
}

impl View for MemoryRequirements {
    /// Size, alignment and memory type bits.
    type V = (u64, u64, u32);

    closed spec fn view(&self) -> (u64, u64, u32) {
        (self.size, self.alignment, self.memory_type_bits)
    }
}

impl MemoryRequirements {
    pub fn new(size: u64, alignment: u64, memory_type_bits: u32) -> (r: MemoryRequirements)
        ensures
            r@ == (size, alignment, memory_type_bits),
    {
        MemoryRequirements { size, alignment, memory_type_bits }
    }

    pub fn size(&self) -> (s: u64)
        ensures
            s == self@.0,
    {
        self.size
    }

    pub fn alignment(&self) -> (a: u64)
        ensures
            a == self@.1,
    {
        self.alignment
    }

    pub fn memory_type_bits(&self) -> (b: u32)
        ensures
            b == self@.2,
    {
        self.memory_type_bits
    }

    /// True when the memory type of the given index may hold the resource.
    pub open spec fn spec_contains_memory_type_index(self, index: u32) -> bool {
        self@.2 & (1u32 << index) != 0
    }

    /// True when the memory type of the given index may hold the resource.
    pub fn contains_memory_type_index(&self, index: u32) -> (b: bool)
        requires
            index < 32,
        ensures
            b == self.spec_contains_memory_type_index(index),
    {
        self.memory_type_bits & (1u32 << index) != 0
    }

    /// True when a slot of memory type `memory_type_index`, at `offset` in a
    /// memory region of `memory_size` bytes, can hold the resource: the rest
    /// of the region is large enough, the offset is aligned and the memory
    /// type is allowed.
    pub open spec fn spec_satisfied_by(self, memory_size: u64, offset: u64, memory_type_index: u32) -> bool {
        &&& self@.0 <= memory_size - offset
        &&& offset % self@.1 == 0
        &&& self.spec_contains_memory_type_index(memory_type_index)
    }

    /// Checks that a slot of memory type `memory_type_index`, at `offset` in a
    /// memory region of `memory_size` bytes, can hold the resource.
    pub fn satisfied_by(&self, memory_size: u64, offset: u64, memory_type_index: u32) -> (b: bool)
        requires
            offset <= memory_size,
            self@.1 > 0,
            memory_type_index < 32,
        ensures
            b == self.spec_satisfied_by(memory_size, offset, memory_type_index),
    {
        self.size <= memory_size - offset && offset % self.alignment == 0
            && self.contains_memory_type_index(memory_type_index)
    }
}

/// The size and usage flags (`VkBufferCreateInfo`) of a buffer created with
/// `size` bytes and the usages `usage`. A buffer has at least one usage.
pub fn creation_info(size: u64, usage: Usages) -> (r: (u64, u32))
    requires
        usage@ != 0,
    ensures
        r == (size, usage@),
{
    (size, usage.into_vulkan())
}

/// Buffer creation error.
#[derive(Debug, Clone, Copy, PartialEq, Eq, Structural)]
pub enum CreationError {
    OutOfMemory(OomError),
    InvalidOpaqueCaptureAddress,
}

impl CreationError {
    /// The error that a Vulkan result code denotes; `None` for the codes
    /// that buffer creation cannot return.
    pub fn from_vk_result(code: i32) -> (r: Option<CreationError>)
        ensures
            r == (match codes::spec_oom(code) {
                Some(e) => Some(CreationError::OutOfMemory(e)),
                None => if code == codes::ERROR_INVALID_OPAQUE_CAPTURE_ADDRESS {
                    Some(CreationError::InvalidOpaqueCaptureAddress)
                } else {
                    None
                },
            }),
    {
        match codes::oom(code) {
            Some(e) => Some(CreationError::OutOfMemory(e)),
            None => if code == codes::ERROR_INVALID_OPAQUE_CAPTURE_ADDRESS {
                Some(CreationError::InvalidOpaqueCaptureAddress)
            } else {
                None
            },
        }
    }
}

/// Buffer memory binding error.
#[derive(Debug, Clone, Copy, PartialEq, Eq, Structural)]
pub enum BindError {
    OutOfMemory(OomError),
    InvalidOpaqueCaptureAddress,
}

impl BindError {
    /// The error that a Vulkan result code denotes; `None` for the codes
    /// that memory binding cannot return.
    pub fn from_vk_result(code: i32) -> (r: Option<BindError>)
        ensures
            r == (match codes::spec_oom(code) {
                Some(e) => Some(BindError::OutOfMemory(e)),
                None => if code == codes::ERROR_INVALID_OPAQUE_CAPTURE_ADDRESS {
                    Some(BindError::InvalidOpaqueCaptureAddress)
                } else {
                    None
                },
            }),
    {
        match codes::oom(code) {
            Some(e) => Some(BindError::OutOfMemory(e)),
            None => if code == codes::ERROR_INVALID_OPAQUE_CAPTURE_ADDRESS {
                Some(BindError::InvalidOpaqueCaptureAddress)
            } else {
                None
            },
        }
    }
}

} // verus!
