//! The dispatch queue: batches commands and post-submission callbacks.
//!
//! Commands are recorded either queued (held until the next flush) or
//! immediately (everything pending is flushed at once). One flush hands the
//! whole batch to the device in recording order and registers the batch's
//! completion callbacks behind it, so callers composing several uploads,
//! dispatches and a render pass in one frame pay a single submission.
//!
//! The `submitted` and `submitted_callbacks` logs record everything ever
//! handed to the device, in order; the driver performs exactly what the logs
//! gain and fires the real closures its callback tokens stand for.

use vstd::prelude::*;

use crate::ids::PipelineId;

verus! {

/// One indexed draw recorded into a render pass, identified by the device
/// allocations it reads.
pub struct DrawCall {
    pub pipeline: u64,
    pub index_buffer: u64,
    pub vertex_buffer: u64,
    pub instance_buffer: Option<u64>,
    pub first_index: u32,
    pub index_count: u32,
    pub first_instance: u32,
    pub instance_count: u32,
}

/// One recorded command, in terms of the device allocations it touches.
pub enum Command {
    CopyBufferToBuffer { src: u64, dst: u64, bytes: u64 },
    CopyTextureToBuffer { texture: u64, buffer: u64 },
    ComputeDispatch { pipeline: PipelineId, x: u32, y: u32, z: u32 },
    BuildAccelerationStructures { tlas: u64 },
    RenderPass { color: u64, depth: u64, draws: Vec<DrawCall> },
}

/// Pending work plus the log of everything already handed to the device.
pub struct DispatchQueue {
    pub pending: Vec<Command>,
    pub pending_callbacks: Vec<u64>,
    pub submitted: Vec<Command>,
    pub submitted_callbacks: Vec<u64>,
}

impl DispatchQueue {
    pub fn new() -> (r: DispatchQueue)
        ensures
            r.pending@.len() == 0,
            r.pending_callbacks@.len() == 0,
            r.submitted@.len() == 0,
            r.submitted_callbacks@.len() == 0,
    {
        DispatchQueue {
            pending: Vec::new(),
            pending_callbacks: Vec::new(),
            submitted: Vec::new(),
            submitted_callbacks: Vec::new(),
        }
    }

    /// Records a command without submitting it.
    pub fn queue(&mut self, command: Command)
        ensures
            final(self).pending@ == old(self).pending@.push(command),
            final(self).pending_callbacks == old(self).pending_callbacks,
            final(self).submitted == old(self).submitted,
            final(self).submitted_callbacks == old(self).submitted_callbacks,
    {
        self.pending.push(command);
    }

    /// Records a command and a completion callback token; the token is
    /// registered with the device when the batch holding the command is
    /// flushed.
    pub fn queue_with_callback(&mut self, command: Command, callback: u64)
        ensures
            final(self).pending@ == old(self).pending@.push(command),
            final(self).pending_callbacks@ == old(self).pending_callbacks@.push(callback),
            final(self).submitted == old(self).submitted,
            final(self).submitted_callbacks == old(self).submitted_callbacks,
    {
        self.pending.push(command);
        self.pending_callbacks.push(callback);
    }

    /// Submits everything pending as one batch, preserving recording order,
    /// then registers the batch's callbacks, preserving their order.
    pub fn flush(&mut self)
        ensures
            final(self).pending@.len() == 0,
            final(self).pending_callbacks@.len() == 0,
            final(self).submitted@ == old(self).submitted@ + old(self).pending@,
            final(self).submitted_callbacks@ == old(self).submitted_callbacks@ + old(
                self,
            ).pending_callbacks@,
    {
        self.submitted.append(&mut self.pending);
        self.submitted_callbacks.append(&mut self.pending_callbacks);
    }
}

} // verus!
