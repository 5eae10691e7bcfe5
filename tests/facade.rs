use psh::cache::SnapshotSource;
use psh::error::MetricError;
use psh::facade::{info_handle, stat_handle, MetricsFacade};
use psh::network::NetDevStat;
use psh::records::{CPUArch, InterruptDetails, IrqDetails, MemInfo, MemoryModule, X86_64CpuInfo};
use std::sync::atomic::{AtomicU64, Ordering};
use std::sync::Arc;

#[derive(Default)]
struct Probe {
    cpu_parses: Arc<AtomicU64>,
    irq_parses: Arc<AtomicU64>,
    stat_parses: AtomicU64,
    net_reads: AtomicU64,
}

fn bump(c: &AtomicU64) -> u64 {
    c.fetch_add(1, Ordering::SeqCst) + 1
}

impl SnapshotSource<CPUArch> for Probe {
    fn capture(&self) -> Result<CPUArch, MetricError> {
        bump(&self.cpu_parses);
        Ok(CPUArch::X86_64(vec![X86_64CpuInfo::new(), X86_64CpuInfo::new()]))
    }
}

impl SnapshotSource<MemInfo> for Probe {
    fn capture(&self) -> Result<MemInfo, MetricError> {
        let mut m = MemInfo::new();
        m.mem_total = 16_000_000;
        Ok(m)
    }
}

impl SnapshotSource<Vec<MemoryModule>> for Probe {
    fn capture(&self) -> Result<Vec<MemoryModule>, MetricError> {
        Err(MetricError::UnsupportedPlatform)
    }
}

impl SnapshotSource<Vec<IrqDetails>> for Probe {
    fn capture(&self) -> Result<Vec<IrqDetails>, MetricError> {
        bump(&self.irq_parses);
        Ok(vec![IrqDetails::new("1".to_string())])
    }
}

impl SnapshotSource<Vec<InterruptDetails>> for Probe {
    fn capture(&self) -> Result<Vec<InterruptDetails>, MetricError> {
        let n = bump(&self.stat_parses);
        Ok(vec![InterruptDetails::new(vec![n], "LOC".to_string(), "Local timer".to_string())])
    }
}

impl SnapshotSource<Vec<NetDevStat>> for Probe {
    fn capture(&self) -> Result<Vec<NetDevStat>, MetricError> {
        if bump(&self.net_reads) > 1 {
            return Err(MetricError::SourceUnavailable);
        }
        Ok(vec![])
    }
}

#[test]
fn clones_share_one_cpu_parse() {
    let probe = Probe::default();
    let cpu_parses = probe.cpu_parses.clone();
    let irq_parses = probe.irq_parses.clone();
    let f = MetricsFacade::new(probe);
    let g = f.share();
    assert_eq!(cpu_parses.load(Ordering::SeqCst), 0);
    let a = f.cpu_info().unwrap();
    let b = g.cpu_info().unwrap();
    assert_eq!(a, b);
    assert!(matches!(&*a, CPUArch::X86_64(v) if v.len() == 2));
    assert_eq!(cpu_parses.load(Ordering::SeqCst), 1);
    let h = info_handle(&f);
    h.get().unwrap();
    g.irq_info().unwrap();
    f.irq_info().unwrap();
    assert_eq!(irq_parses.load(Ordering::SeqCst), 1);
}

#[test]
fn irq_handle_is_shared_with_facade() {
    let f = MetricsFacade::new(Probe::default());
    let h = info_handle(&f);
    let from_handle = h.get().unwrap();
    let from_facade = f.irq_info().unwrap();
    assert_eq!(from_handle, from_facade);
    assert_eq!(from_facade[0].irq_number, "1");
}

#[test]
fn stat_handle_refresh_is_seen_by_facade() {
    let f = MetricsFacade::new(Probe::default());
    let h = stat_handle(&f);
    assert_eq!(f.interrupt_info().unwrap()[0].cpu_counts, vec![1]);
    assert_eq!(h.get().unwrap()[0].cpu_counts, vec![1]);
    h.refresh();
    assert_eq!(f.interrupt_info().unwrap()[0].cpu_counts, vec![2]);
}

#[test]
fn failure_reaches_every_clone() {
    let f = MetricsFacade::new(Probe::default());
    let g = f.share();
    assert_eq!(f.memory_modules().err(), Some(MetricError::UnsupportedPlatform));
    assert_eq!(g.memory_modules().err(), Some(MetricError::UnsupportedPlatform));
}

#[test]
fn mem_info_is_read_each_time() {
    let f = MetricsFacade::new(Probe::default());
    assert_eq!(f.mem_info().unwrap().mem_total, 16_000_000);
}

#[test]
fn network_snapshot_is_stamped() {
    let f = MetricsFacade::new(Probe::default());
    let s = f.network_snapshot(77).unwrap();
    assert_eq!(s.captured_at_ns, 77);
    assert!(f.network_snapshot(78).is_err());
    let t = f.interrupt_snapshot(5).unwrap();
    assert_eq!(t.captured_at_ns, 5);
}

#[test]
fn two_info_handles_share_one_cache() {
    let probe = Probe::default();
    let irq_parses = probe.irq_parses.clone();
    let f = MetricsFacade::new(probe);
    let a = info_handle(&f);
    let b = info_handle(&f.share());
    assert_eq!(a.get().unwrap(), b.get().unwrap());
    assert_eq!(irq_parses.load(Ordering::SeqCst), 1);
    b.refresh();
    a.get().unwrap();
    assert_eq!(irq_parses.load(Ordering::SeqCst), 2);
}
