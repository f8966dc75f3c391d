//! Logical devices: the extensions they load, the queues they are created
//! with, and the errors of device operations.
use vstd::prelude::*;
use crate::OomError;
use crate::codes;

pub mod extension;
pub mod memory;
pub mod queue;

pub use extension::{Extension, Extensions};

verus! {

/// Device creation error.
#[derive(Debug, Clone, Copy, PartialEq, Eq, Structural)]
pub enum CreationError {
    OutOfMemory(OomError),
    /// A queue priority outside of `[0, 1]` was requested; the bit pattern
    /// (`f32::to_bits`) of that priority.
    InvalidQueuePriority(u32),
    InitializationFailed,
    MissingExtension(Extension),
    TooManyObjets,
    DeviceLost,
}

impl CreationError {
    /// The error that a Vulkan result code denotes; `None` for the codes
    /// that device creation cannot return, and for a missing extension or
    /// feature, which must have been checked before creation.
    pub fn from_vk_result(code: i32) -> (r: Option<CreationError>)
        ensures
            r == (match codes::spec_oom(code) {
                Some(e) => Some(CreationError::OutOfMemory(e)),
                None => if code == codes::ERROR_INITIALIZATION_FAILED {
                    Some(CreationError::InitializationFailed)
                } else if code == codes::ERROR_TOO_MANY_OBJECTS {
                    Some(CreationError::TooManyObjets)
                } else if code == codes::ERROR_DEVICE_LOST {
                    Some(CreationError::DeviceLost)
                } else {
                    None
                },
            }),
    {
        match codes::oom(code) {
            Some(e) => Some(CreationError::OutOfMemory(e)),
            None => if code == codes::ERROR_INITIALIZATION_FAILED {
                Some(CreationError::InitializationFailed)
            } else if code == codes::ERROR_TOO_MANY_OBJECTS {
                Some(CreationError::TooManyObjets)
            } else if code == codes::ERROR_DEVICE_LOST {
                Some(CreationError::DeviceLost)
            } else {
                None
            },
        }
    }
}

/// Device memory allocation error.
#[derive(Debug, Clone, Copy, PartialEq, Eq, Structural)]
pub enum AllocationError {
    OutOfMemory(OomError),
    InvalidExternalHandle,
    InvalidOpaqueCaptureAddress,
}

impl AllocationError {
    /// The error that a Vulkan result code denotes; `None` for the codes
    /// that memory allocation cannot return.
    pub fn from_vk_result(code: i32) -> (r: Option<AllocationError>)
        ensures
            r == (match codes::spec_oom(code) {
                Some(e) => Some(AllocationError::OutOfMemory(e)),
                None => if code == codes::ERROR_INVALID_EXTERNAL_HANDLE {
                    Some(AllocationError::InvalidExternalHandle)
                } else if code == codes::ERROR_INVALID_OPAQUE_CAPTURE_ADDRESS {
                    Some(AllocationError::InvalidOpaqueCaptureAddress)
                } else {
                    None
                },
            }),
    {
        match codes::oom(code) {
            Some(e) => Some(AllocationError::OutOfMemory(e)),
            None => if code == codes::ERROR_INVALID_EXTERNAL_HANDLE {
                Some(AllocationError::InvalidExternalHandle)
            } else if code == codes::ERROR_INVALID_OPAQUE_CAPTURE_ADDRESS {
                Some(AllocationError::InvalidOpaqueCaptureAddress)
            } else {
                None
            },
        }
    }
}

/// Error returned when a device extension that was not loaded is used.
#[derive(Debug, Clone, Copy, PartialEq, Eq, Structural)]
pub struct MissingExtensionError(pub Extension);

/// Checks that an extension is loaded.
pub fn check_extension(loaded: &Extensions, ext: Extension) -> (r: Result<(), MissingExtensionError>)
    ensures
        r is Ok <==> loaded.has(ext),
        r matches Err(e) ==> e == MissingExtensionError(ext),
{
    if loaded.contains(ext) {
        Ok(())
    } else {
        Err(MissingExtensionError(ext))
    }
}

/// The extensions that a device loads when `required` are asked for: each of them.
pub fn load_extensions(required: &Vec<Extension>) -> (loaded: Extensions)
    ensures
        forall|e: Extension| loaded.has(e) <==> required@.contains(e),
{
    let mut loaded = Extensions::none();
    let mut i: usize = 0;
    while i < required.len()
        invariant
            i <= required@.len(),
            forall|e: Extension| loaded.has(e) <==> required@.take(i as int).contains(e),
        decreases required@.len() - i,
    {
        let ext = required[i];
        loaded.insert(ext);
        proof {
            assert(required@.take(i + 1) == required@.take(i as int).push(ext));
            assert forall|e: Extension| loaded.has(e) <==> required@.take(i + 1).contains(e) by {
                if e == ext {
                    assert(required@.take(i + 1)[i as int] == ext);
                } else if required@.take(i + 1).contains(e) {
                    let k = choose|k: int| 0 <= k < i + 1 && #[trigger] required@.take(i + 1)[k] == e;
                    assert(required@.take(i as int)[k] == e);
                }
            }
        }
        i = i + 1;
    }
    assert(required@.take(i as int) == required@);
    loaded
}

/// The priorities of the queues requested of one family, in request order.
pub open spec fn family_requests<T>(requests: Seq<(u32, T)>, family: u32) -> Seq<T>
    decreases requests.len(),
{
    if requests.len() == 0 {
        Seq::empty()
    } else {
        let prev = family_requests(requests.drop_last(), family);
        if requests.last().0 == family {
            prev.push(requests.last().1)
        } else {
            prev
        }
    }
}

/// One more than the largest family index requested; zero when nothing is requested.
pub open spec fn family_bound<T>(requests: Seq<(u32, T)>) -> nat
    decreases requests.len(),
{
    if requests.len() == 0 {
        0
    } else {
        let prev = family_bound(requests.drop_last());
        if requests.last().0 + 1 > prev {
            (requests.last().0 + 1) as nat
        } else {
            prev
        }
    }
}

proof fn lemma_family_bound_le<T>(requests: Seq<(u32, T)>)
    ensures
        family_bound(requests) <= u32::MAX + 1,
    decreases requests.len(),
{
    if requests.len() > 0 {
        lemma_family_bound_le(requests.drop_last());
    }
}

/// Each request is served: the queue that request `i` becomes, at index
/// `family_requests(requests.take(i), family).len()` of its family, has the
/// priority that the request asked for.
pub proof fn lemma_request_priority<T>(requests: Seq<(u32, T)>, i: int)
    requires
        0 <= i < requests.len(),
    ensures
        ({
            let family = requests[i].0;
            let index = family_requests(requests.take(i), family).len();
            &&& index < family_requests(requests, family).len()
            &&& family_requests(requests, family)[index as int] == requests[i].1
        }),
    decreases requests.len(),
{
    let family = requests[i].0;
    if i == requests.len() - 1 {
        assert(requests.drop_last() == requests.take(i));
    } else {
        let prefix = requests.drop_last();
        lemma_request_priority(prefix, i);
        assert(prefix.take(i) == requests.take(i));
        assert(prefix[i] == requests[i]);
    }
}

/// How the requested queues are created: the priorities of the queues of
/// each family, by family index, and for each request, in request order,
/// the family index and the index of the queue within its family.
pub struct QueuePlan<T> {
    pub priorities: Vec<Vec<T>>,
    pub queues: Vec<(u32, u32)>,
}

proof fn lemma_family_requests_len<T>(requests: Seq<(u32, T)>, family: u32)
    ensures
        family_requests(requests, family).len() <= requests.len(),
        family >= family_bound(requests) ==> family_requests(requests, family).len() == 0,
    decreases requests.len(),
{
    if requests.len() > 0 {
        lemma_family_requests_len(requests.drop_last(), family);
    }
}

/// Groups queue requests by family. Request `i` asks for a queue of family
/// `requests[i].0` with priority `requests[i].1`; it becomes the queue whose
/// index in its family is the number of earlier requests of that family.
pub fn plan_queues<T: Copy>(requests: &Vec<(u32, T)>) -> (p: QueuePlan<T>)
    requires
        forall|i: int| 0 <= i < requests@.len() ==> (#[trigger] requests@[i]).0 < usize::MAX,
    ensures
        p.priorities@.len() == family_bound(requests@),
        forall|f: int| 0 <= f < p.priorities@.len() ==> #[trigger] p.priorities@[f]@ == family_requests(requests@, f as u32),
        p.queues@.len() == requests@.len(),
        forall|i: int| 0 <= i < requests@.len() ==> #[trigger] p.queues@[i] == (
            requests@[i].0,
            family_requests(requests@.take(i), requests@[i].0).len() as u32,
        ),
{
    let mut priorities: Vec<Vec<T>> = Vec::new();
    let mut queues: Vec<(u32, u32)> = Vec::new();
    let mut i: usize = 0;
    while i < requests.len()
        invariant
            i <= requests@.len(),
            forall|j: int| 0 <= j < requests@.len() ==> (#[trigger] requests@[j]).0 < usize::MAX,
            priorities@.len() == family_bound(requests@.take(i as int)),
            forall|f: int| 0 <= f < priorities@.len() ==> #[trigger] priorities@[f]@ == family_requests(
                requests@.take(i as int),
                f as u32,
            ),
            queues@.len() == i,
            forall|j: int| 0 <= j < i ==> #[trigger] queues@[j] == (
                requests@[j].0,
                family_requests(requests@.take(j), requests@[j].0).len() as u32,
            ),
        decreases requests@.len() - i,
    {
        let (family, priority) = requests[i];
        let ghost before = requests@.take(i as int);
        let ghost after = requests@.take(i + 1);
        assert(after.drop_last() == before);
        assert(after.last() == (family, priority));
        let ghost old_priorities = priorities@;
        while priorities.len() <= family as usize
            invariant
                old_priorities.len() <= priorities@.len(),
                priorities@.len() <= family as int + 1 || priorities@.len() == old_priorities.len(),
                forall|f: int| 0 <= f < old_priorities.len() ==> #[trigger] priorities@[f] == old_priorities[f],
                forall|f: int| old_priorities.len() <= f < priorities@.len() ==> (#[trigger] priorities@[f])@.len() == 0,
            decreases family as int + 1 - priorities@.len(),
        {
            priorities.push(Vec::new());
        }
        proof {
            lemma_family_requests_len(before, family);
            assert forall|f: int| old_priorities.len() <= f < priorities@.len() implies #[trigger] priorities@[f]@ == family_requests(
                before,
                f as u32,
            ) by {
                lemma_family_requests_len(before, f as u32);
            }
        }
        let queue_index = priorities[family as usize].len() as u32;
        queues.push((family, queue_index));
        priorities[family as usize].push(priority);
        proof {
            lemma_family_bound_le(after);
            assert forall|f: int| 0 <= f < priorities@.len() implies #[trigger] priorities@[f]@ == family_requests(
                after,
                f as u32,
            ) by {
                if f != family as int {
                    assert(f as u32 != family);
                }
            }
            assert forall|j: int| 0 <= j < i + 1 implies #[trigger] queues@[j] == (
                requests@[j].0,
                family_requests(requests@.take(j), requests@[j].0).len() as u32,
            ) by {
                if j == i {
                    assert(requests@.take(j) == before);
                }
            }
        }
        i = i + 1;
    }
    assert(requests@.take(i as int) == requests@);
    QueuePlan { priorities, queues }
}

/// The queue families that get queues, with the number of queues of each
/// (as a 32-bit Vulkan count): one entry per family index that has at least
/// one queue, in index order.
pub fn queue_create_counts<T>(priorities: &Vec<Vec<T>>) -> (counts: Vec<(u32, u32)>)
    requires
        priorities@.len() <= u32::MAX + 1,
    ensures
        forall|k: int| 0 <= k < counts@.len() ==> {
            let (family, count) = #[trigger] counts@[k];
            &&& family < priorities@.len()
            &&& count == priorities@[family as int]@.len() as u32
            &&& priorities@[family as int]@.len() > 0
        },
        forall|k: int, l: int| 0 <= k < l < counts@.len() ==> (#[trigger] counts@[k]).0 < (#[trigger] counts@[l]).0,
        forall|f: int| 0 <= f < priorities@.len() && (#[trigger] priorities@[f])@.len() > 0 ==> exists|k: int|
            0 <= k < counts@.len() && (#[trigger] counts@[k]).0 == f,
{
    let mut counts: Vec<(u32, u32)> = Vec::new();
    let mut f: usize = 0;
    while f < priorities.len()
        invariant
            f <= priorities@.len() <= u32::MAX + 1,
            forall|k: int| 0 <= k < counts@.len() ==> {
                let (family, count) = #[trigger] counts@[k];
                &&& family < f
                &&& count == priorities@[family as int]@.len() as u32
                &&& priorities@[family as int]@.len() > 0
            },
            forall|k: int, l: int| 0 <= k < l < counts@.len() ==> (#[trigger] counts@[k]).0 < (#[trigger] counts@[l]).0,
            forall|g: int| 0 <= g < f && (#[trigger] priorities@[g])@.len() > 0 ==> exists|k: int|
                0 <= k < counts@.len() && (#[trigger] counts@[k]).0 == g,
        decreases priorities@.len() - f,
    {
        let n = priorities[f].len();
        let ghost old_counts = counts@;
        if n > 0 {
            counts.push((f as u32, n as u32));
            assert forall|g: int| 0 <= g < f + 1 && (#[trigger] priorities@[g])@.len() > 0 implies exists|k: int|
                0 <= k < counts@.len() && (#[trigger] counts@[k]).0 == g by {
                if g < f {
                    let k = choose|k: int| 0 <= k < old_counts.len() && (#[trigger] old_counts[k]).0 == g;
                    assert(counts@[k] == old_counts[k]);
                } else {
                    assert(counts@[counts@.len() - 1].0 == f);
                }
            }
        }
        f = f + 1;
    }
    counts
}

/// Whether a request asks for a queue of `family`.
pub open spec fn of_family<T>(family: u32) -> spec_fn((u32, T)) -> bool {
    |r: (u32, T)| r.0 == family
}

/// The number of queues of a family that the requests ask for is the number
/// of requests of that family.
pub proof fn lemma_family_requests_count<T>(requests: Seq<(u32, T)>, family: u32)
    ensures
        family_requests(requests, family).len() == requests.filter(of_family(family)).len(),
    decreases requests.len(),
{
    reveal_with_fuel(Seq::filter, 1);
    if requests.len() > 0 {
        lemma_family_requests_count(requests.drop_last(), family);
    }
}

/// The queue that request `k` becomes: one of the family it asks for, whose
/// index in that family is the number of earlier requests of that family.
pub proof fn lemma_queue_of_request<T>(requests: Seq<(u32, T)>, queues: Seq<(u32, u32)>, k: int)
    requires
        queues.len() == requests.len(),
        forall|i: int| 0 <= i < requests.len() ==> #[trigger] queues[i] == (
            requests[i].0,
            family_requests(requests.take(i), requests[i].0).len() as u32,
        ),
        0 <= k < requests.len(),
    ensures
        queues[k] == (
            requests[k].0,
            requests.take(k).filter(of_family(requests[k].0)).len() as u32,
        ),
{
    assert(queues[k] == (requests[k].0, family_requests(requests.take(k), requests[k].0).len() as u32));
    lemma_family_requests_count(requests.take(k), requests[k].0);
}

/// The queues of a created device, handed out in request order: each is
/// given by its family index and its index within that family.
pub struct Queues {
    order: Vec<(u32, u32)>,
    position: usize,
}

impl Queues {
    /// The queues, in the order they are handed out.
    pub closed spec fn spec_order(&self) -> Seq<(u32, u32)> {
        self.order@
    }

    /// The number of queues handed out so far.
    pub closed spec fn spec_position(&self) -> nat {
        self.position as nat
    }

    #[verifier::type_invariant]
    closed spec fn inv(self) -> bool {
        self.position <= self.order@.len()
    }

    /// The queues of a plan (`QueuePlan::queues`), none handed out yet.
    pub fn new(order: Vec<(u32, u32)>) -> (q: Queues)
        ensures
            q.spec_order() == order@,
            q.spec_position() == 0,
    {
        Queues { order, position: 0 }
    }

    /// The next queue, or `None` once every queue has been handed out.
    pub fn next(&mut self) -> (r: Option<(u32, u32)>)
        ensures
            final(self).spec_order() == old(self).spec_order(),
            old(self).spec_position() < old(self).spec_order().len() ==> {
                &&& r == Some(old(self).spec_order()[old(self).spec_position() as int])
                &&& final(self).spec_position() == old(self).spec_position() + 1
            },
            old(self).spec_position() >= old(self).spec_order().len() ==> {
                &&& r is None
                &&& final(self).spec_position() == old(self).spec_position()
            },
    {
        proof {
            use_type_invariant(&*self);
        }
        if self.position < self.order.len() {
            let q = self.order[self.position];
            self.position = self.position + 1;
            Some(q)
        } else {
            None
        }
    }
}

} // verus!
