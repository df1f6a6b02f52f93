//! Queue submissions: the renderer's description of a batch, and its layout as
//! the parallel arrays the driver takes.

use vstd::prelude::*;

verus! {

/// A batch of command buffers to submit, the semaphores (with the stage that
/// waits for each) it waits on, and the semaphores it signals. Handles are the
/// raw Vulkan handles.
#[derive(Debug)]
pub struct SubmitInfo {
    pub command_buffers: Vec<u64>,
    pub wait_info: Vec<(u32, u64)>,
    pub signal_info: Vec<u64>,
}

/// A batch laid out as the driver's submit info wants it.
#[derive(Debug)]
pub struct SubmitBatch {
    pub command_buffers: Vec<u64>,
    pub wait_stages: Vec<u32>,
    pub wait_semaphores: Vec<u64>,
    pub signal_semaphores: Vec<u64>,
}

fn copy_handles(v: &Vec<u64>) -> (r: Vec<u64>)
    ensures
        r@ == v@,
{
    let mut r: Vec<u64> = Vec::new();
    let mut i: usize = 0;
    while i < v.len()
        invariant
            i <= v.len(),
            r@ == v@.take(i as int),
        decreases v.len() - i,
    {
        r.push(v[i]);
        i = i + 1;
        assert(r@ =~= v@.take(i as int));
    }
    assert(v@.take(i as int) == v@);
    r
}

impl SubmitInfo {
    /// Lays the batch out for the driver: the command buffers and signal
    /// semaphores as they are, the waits split into a list of stages and a
    /// list of semaphores of the same length, pair by pair.
    pub fn to_vk_batch(&self) -> (b: SubmitBatch)
        ensures
            b.command_buffers@ == self.command_buffers@,
            b.signal_semaphores@ == self.signal_info@,
            b.wait_stages@.len() == self.wait_info@.len(),
            b.wait_semaphores@.len() == self.wait_info@.len(),
            forall|i: int| 0 <= i < self.wait_info@.len() ==>
                (#[trigger] self.wait_info@[i]) == (b.wait_stages@[i], b.wait_semaphores@[i]),
    {
        let mut wait_stages: Vec<u32> = Vec::new();
        let mut wait_semaphores: Vec<u64> = Vec::new();
        let mut i: usize = 0;
        while i < self.wait_info.len()
            invariant
                i <= self.wait_info.len(),
                wait_stages@.len() == i,
                wait_semaphores@.len() == i,
                forall|j: int| 0 <= j < i ==> (#[trigger] self.wait_info@[j]) == (wait_stages@[j], wait_semaphores@[j]),
            decreases self.wait_info.len() - i,
        {
            let (stage, semaphore) = self.wait_info[i];
            wait_stages.push(stage);
            wait_semaphores.push(semaphore);
            i = i + 1;
        }
        SubmitBatch {
            command_buffers: copy_handles(&self.command_buffers),
            wait_stages,
            wait_semaphores,
            signal_semaphores: copy_handles(&self.signal_info),
        }
    }
}

} // verus!
