//! The handle through which the renderer reads the remote GPU load.
use vstd::prelude::*;
use std::sync::Arc;
use std::sync::atomic::{AtomicBool, AtomicU32};

verus! {

/// The latest GPU load reading and connection status, shared with the
/// background thread that polls the remote host.
pub struct GpuSshMonitor {
    gpu_usage: Arc<AtomicU32>,
    is_connected: Arc<AtomicBool>,
}

impl GpuSshMonitor {
    /// The cell that holds the latest GPU load.
    pub closed spec fn usage_cell(&self) -> Arc<AtomicU32> {
        self.gpu_usage
    }

    /// The cell that holds the connection status.
    pub closed spec fn connected_cell(&self) -> Arc<AtomicBool> {
        self.is_connected
    }

    /// A monitor that reads the values which the polling thread publishes
    /// through `gpu_usage` and `is_connected`.
    pub fn from_shared(gpu_usage: Arc<AtomicU32>, is_connected: Arc<AtomicBool>) -> (m: Self)
        ensures
            m.usage_cell() == gpu_usage,
            m.connected_cell() == is_connected,
    {
        GpuSshMonitor { gpu_usage, is_connected }
    }

    /// Nothing to do: the polling thread publishes its readings itself.
    pub fn refresh(&mut self)
        ensures
            *final(self) == *old(self),
    {
    }

    /// Whether the polling thread is connected and receiving readings: the
    /// flag that thread last stored, read with a relaxed load. That thread
    /// stores what `PollAction::connection_update` gives for each action (see
    /// `law_connected_only_while_reading`); the value read here belongs to
    /// another thread, so nothing is stated of it.
    pub fn is_connected(&self) -> bool {
        self.is_connected.load(std::sync::atomic::Ordering::Relaxed)
    }

    /// The latest GPU load, in whole percent: the value the polling thread
    /// last stored, read with a relaxed load. That thread stores what
    /// `PollAction::usage_update` gives for each action (see
    /// `law_usage_kept_until_reading`); the value read here belongs to
    /// another thread, so nothing is stated of it.
    pub fn usage_percent(&self) -> u32 {
        self.gpu_usage.load(std::sync::atomic::Ordering::Relaxed)
    }
}

} // verus!
