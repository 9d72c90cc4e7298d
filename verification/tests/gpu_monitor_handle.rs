use starcore::gpu_monitor::GpuSshMonitor;
use std::sync::atomic::{AtomicBool, AtomicU32, Ordering};
use std::sync::Arc;

#[test]
fn monitor_reads_shared_cells() {
    let usage = Arc::new(AtomicU32::new(0));
    let connected = Arc::new(AtomicBool::new(false));
    let mut m = GpuSshMonitor::from_shared(usage.clone(), connected.clone());
    assert_eq!(m.usage_percent(), 0);
    assert!(!m.is_connected());
    usage.store(73, Ordering::Relaxed);
    connected.store(true, Ordering::Relaxed);
    m.refresh();
    assert_eq!(m.usage_percent(), 73);
    assert!(m.is_connected());
    connected.store(false, Ordering::Relaxed);
    assert!(!m.is_connected());
}
