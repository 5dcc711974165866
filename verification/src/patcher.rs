//! Handoff channel between the compile-and-patch thread and the render
//! thread.
//!
//! The channel is single-producer/single-consumer and delivers shader-module
//! handles in production order. The consumer drains every queued handle per
//! poll and keeps only the most recent one, so a burst of edits costs at
//! most one pipeline rebuild and the applied patch is always the freshest
//! compiled one.

use crate::errors::PassError;
use vstd::prelude::*;

verus! {

/// A GPU-resident shader-module object, identified by the serialized
/// patched-module bytes it was built from.
pub struct ShaderModuleHandle {
    /// The serialized module the graphics runtime built this object from.
    pub code: Vec<u8>,
}

/// The watcher-side producer and render-side consumer of freshly built
/// shader modules. The first queued handle is always the baseline built
/// with its own default function body (the identity pass).
pub struct Patcher {
    /// Handles published and not yet consumed, oldest first.
    pub queue: Vec<ShaderModuleHandle>,
    /// Whether the consumer still exists. Once false, publishing fails and
    /// hot reloading is lost for the rest of the process.
    pub connected: bool,
}

impl Patcher {
    /// A channel holding the pre-published baseline module.
    pub fn new(baseline_module: ShaderModuleHandle) -> (p: Patcher)
        ensures
            p.queue@.len() == 1,
            p.queue@[0].code@ == baseline_module.code@,
            p.connected,
    {
        let mut queue: Vec<ShaderModuleHandle> = Vec::new();
        queue.push(baseline_module);
        Patcher { queue, connected: true }
    }

    /// Publishes one freshly built handle, non-blocking. Fails only when the
    /// consumer is gone; nothing is queued then.
    pub fn send(&mut self, h: ShaderModuleHandle) -> (r: Result<(), PassError>)
        ensures
            old(self).connected ==> r is Ok && final(self).queue@ == old(self).queue@.push(h),
            !old(self).connected ==> (r matches Err(e) && e is ChannelDisconnected)
                && final(self).queue@ == old(self).queue@,
            final(self).connected == old(self).connected,
    {
        if self.connected {
            self.queue.push(h);
            Ok(())
        } else {
            Err(PassError::ChannelDisconnected)
        }
    }

    /// Drains every currently queued handle and returns only the most
    /// recent one; `None` when nothing arrived since the last poll. Once the
    /// producer is gone this keeps returning `None` rather than erroring.
    pub fn fetch_new_module(&mut self) -> (r: Option<ShaderModuleHandle>)
        ensures
            old(self).queue@.len() == 0 ==> r is None,
            old(self).queue@.len() > 0 ==> r == Some(old(self).queue@.last()),
            final(self).queue@.len() == 0,
            final(self).connected == old(self).connected,
    {
        let latest = self.queue.pop();
        self.queue.clear();
        latest
    }

    /// Marks the consumer as gone; every later publish fails.
    pub fn disconnect(&mut self)
        ensures
            final(self).queue@ == old(self).queue@,
            !final(self).connected,
    {
        self.connected = false;
    }
}

} // verus!
