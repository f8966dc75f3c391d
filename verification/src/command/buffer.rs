//! Command buffers: the resources a recording uses, and the errors of
//! their creation and recording.
use vstd::prelude::*;
use crate::OomError;
use crate::codes;

verus! {

/// Command buffer creation error.
#[derive(Debug, Clone, Copy, PartialEq, Eq, Structural)]
pub enum CreationError {
    OutOfMemory(OomError),
}

impl CreationError {
    /// The error that a Vulkan result code denotes; `None` for the codes
    /// that command buffer creation cannot return.
    pub fn from_vk_result(code: i32) -> (r: Option<CreationError>)
        ensures
            r == (match codes::spec_oom(code) {
                Some(e) => Some(CreationError::OutOfMemory(e)),
                None => None,
            }),
    {
        match codes::oom(code) {
            Some(e) => Some(CreationError::OutOfMemory(e)),
            None => None,
        }
    }
}

/// Command buffer recording error.
#[derive(Debug, Clone, Copy, PartialEq, Eq, Structural)]
pub enum RecordError {
    OutOfMemory(OomError),
}

impl RecordError {
    /// The error that a Vulkan result code denotes; `None` for the codes
    /// that recording cannot return.
    pub fn from_vk_result(code: i32) -> (r: Option<RecordError>)
        ensures
            r == (match codes::spec_oom(code) {
                Some(e) => Some(RecordError::OutOfMemory(e)),
                None => None,
            }),
    {
        match codes::oom(code) {
            Some(e) => Some(RecordError::OutOfMemory(e)),
            None => None,
        }
    }
}

/// The resources that a recorded command buffer uses, each named by the
/// 64-bit value of its Vulkan handle. Each resource is held once.
pub struct Resources {
    uids: Vec<u64>,
}

impl View for Resources {
    type V = Set<u64>;

    closed spec fn view(&self) -> Set<u64> {
        self.uids@.to_set()
    }
}

impl Resources {
    #[verifier::type_invariant]
    closed spec fn inv(self) -> bool {
        self.uids@.no_duplicates()
    }

    /// No resource.
    pub fn new() -> (r: Resources)
        ensures
            r@ == Set::<u64>::empty(),
    {
        let r = Resources { uids: Vec::new() };
        assert(r.uids@.to_set() =~= Set::<u64>::empty());
        r
    }

    /// Whether the resource `uid` is used.
    pub fn uses(&self, uid: u64) -> (b: bool)
        ensures
            b == self@.contains(uid),
    {
        let mut i: usize = 0;
        while i < self.uids.len()
            invariant
                i <= self.uids@.len(),
                forall|j: int| 0 <= j < i ==> self.uids@[j] != uid,
            decreases self.uids@.len() - i,
        {
            if self.uids[i] == uid {
                assert(self.uids@.to_set().contains(uid)) by {
                    assert(self.uids@.contains(uid));
                }
                return true;
            }
            i = i + 1;
        }
        assert(!self.uids@.contains(uid));
        false
    }

    /// Records that the resource `uid` is used.
    pub fn insert(&mut self, uid: u64)
        ensures
            final(self)@ == old(self)@.insert(uid),
    {
        if !self.uses(uid) {
            proof {
                use_type_invariant(&*self);
            }
            let ghost before = self.uids@;
            let mut uids = Vec::new();
            std::mem::swap(&mut uids, &mut self.uids);
            uids.push(uid);
            assert(uids@ == before.push(uid));
            assert(uids@.no_duplicates()) by {
                assert forall|a: int, b: int| 0 <= a < b < uids@.len() implies uids@[a] != uids@[b] by {
                    if b == before.len() {
                        assert(before.contains(before[a]));
                    }
                }
            }
            assert(uids@.to_set() =~= before.to_set().insert(uid)) by {
                assert forall|x: u64| uids@.to_set().contains(x) <==> before.to_set().insert(uid).contains(x) by {
                    if uids@.contains(x) && x != uid {
                        let k = choose|k: int| 0 <= k < uids@.len() && uids@[k] == x;
                        assert(before[k] == x);
                    }
                    if before.contains(x) {
                        let k = choose|k: int| 0 <= k < before.len() && before[k] == x;
                        assert(uids@[k] == x);
                    }
                    if x == uid {
                        assert(uids@[before.len() as int] == uid);
                    }
                }
            }
            self.uids = uids;
        } else {
            assert(old(self)@.insert(uid) =~= old(self)@);
        }
    }

    /// The number of resources used.
    pub fn len(&self) -> (n: usize)
        ensures
            n == self@.len(),
    {
        proof {
            use_type_invariant(&*self);
            self.uids@.unique_seq_to_set();
        }
        self.uids.len()
    }
}

} // verus!
