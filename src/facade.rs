use vstd::prelude::*;
use std::sync::Arc;
use crate::cache::{unshared, CachedHandle, SnapshotSource};
use crate::error::MetricError;
use crate::network::NetDevStat;
use crate::records::{CPUArch, InterruptDetails, IrqDetails, MemInfo, MemoryModule};
use crate::sampling::Snapshot;

verus! {

/// The one surface that callers query: a cache per rarely-changing category,
/// and fresh captures for the categories that are sampled over time. Clones
/// share every cache, so a refresh through one is seen by all.
pub struct MetricsFacade<P> where
    P: SnapshotSource<CPUArch> + SnapshotSource<MemInfo> + SnapshotSource<Vec<MemoryModule>>
        + SnapshotSource<Vec<IrqDetails>> + SnapshotSource<Vec<InterruptDetails>>
        + SnapshotSource<Vec<NetDevStat>>,
 {
    probe: Arc<P>,
    cpu: CachedHandle<CPUArch, P>,
    memory_modules: CachedHandle<Vec<MemoryModule>, P>,
    irq_info: CachedHandle<Vec<IrqDetails>, P>,
    interrupt_info: CachedHandle<Vec<InterruptDetails>, P>,
}

impl<P> MetricsFacade<P> where
    P: SnapshotSource<CPUArch> + SnapshotSource<MemInfo> + SnapshotSource<Vec<MemoryModule>>
        + SnapshotSource<Vec<IrqDetails>> + SnapshotSource<Vec<InterruptDetails>>
        + SnapshotSource<Vec<NetDevStat>>,
 {
    /// The probe that all categories read from.
    pub closed spec fn probe(&self) -> P {
        *self.probe
    }

    /// The cache of the CPU table.
    pub closed spec fn cpu_handle(&self) -> CachedHandle<CPUArch, P> {
        self.cpu
    }

    /// The cache of the memory-module inventory.
    pub closed spec fn memory_modules_handle(&self) -> CachedHandle<Vec<MemoryModule>, P> {
        self.memory_modules
    }

    /// The cache of the IRQ table.
    pub closed spec fn irq_handle(&self) -> CachedHandle<Vec<IrqDetails>, P> {
        self.irq_info
    }

    /// The cache of the interrupt table.
    pub closed spec fn interrupt_handle(&self) -> CachedHandle<Vec<InterruptDetails>, P> {
        self.interrupt_info
    }

    /// Every cache is bound to the facade's probe and vouches for its outcomes.
    pub open spec fn wf(&self) -> bool {
        &&& self.cpu_handle().wf() && *self.cpu_handle().source() == self.probe()
        &&& self.memory_modules_handle().wf() && *self.memory_modules_handle().source()
            == self.probe()
        &&& self.irq_handle().wf() && *self.irq_handle().source() == self.probe()
        &&& self.interrupt_handle().wf() && *self.interrupt_handle().source() == self.probe()
    }

    /// Whether every cache of `self` is shared with `other`.
    pub open spec fn shares_with(&self, other: &MetricsFacade<P>) -> bool {
        &&& self.probe() == other.probe()
        &&& self.cpu_handle().shares_with(&other.cpu_handle())
        &&& self.memory_modules_handle().shares_with(&other.memory_modules_handle())
        &&& self.irq_handle().shares_with(&other.irq_handle())
        &&& self.interrupt_handle().shares_with(&other.interrupt_handle())
    }

    /// A facade over `probe` with every cache empty; nothing is read yet.
    pub fn new(probe: P) -> (r: MetricsFacade<P>)
        ensures
            r.probe() == probe,
            *r.cpu_handle().source() == probe,
            *r.memory_modules_handle().source() == probe,
            *r.irq_handle().source() == probe,
            *r.interrupt_handle().source() == probe,
            r.wf(),
    {
        let probe = Arc::new(probe);
        MetricsFacade {
            cpu: CachedHandle::new(Arc::clone(&probe)),
            memory_modules: CachedHandle::new(Arc::clone(&probe)),
            irq_info: CachedHandle::new(Arc::clone(&probe)),
            interrupt_info: CachedHandle::new(Arc::clone(&probe)),
            probe,
        }
    }

    /// A second facade over the same caches; no source is invoked.
    pub fn share(&self) -> (r: MetricsFacade<P>)
        ensures
            r.shares_with(self),
            self.wf() ==> r.wf(),
    {
        MetricsFacade {
            probe: Arc::clone(&self.probe),
            cpu: self.cpu.share(),
            memory_modules: self.memory_modules.share(),
            irq_info: self.irq_info.share(),
            interrupt_info: self.interrupt_info.share(),
        }
    }

    /// The CPU table, read once and then served from the cache.
    pub fn cpu_info(&self) -> (r: Result<Arc<CPUArch>, MetricError>)
        requires
            self.wf(),
        ensures
            <P as SnapshotSource<CPUArch>>::may_produce(&self.probe(), unshared(r)),
    {
        self.cpu.get()
    }

    /// The memory-module inventory, read once and then served from the cache.
    pub fn memory_modules(&self) -> (r: Result<Arc<Vec<MemoryModule>>, MetricError>)
        requires
            self.wf(),
        ensures
            <P as SnapshotSource<Vec<MemoryModule>>>::may_produce(&self.probe(), unshared(r)),
    {
        self.memory_modules.get()
    }

    /// The IRQ table, read once and then served from the cache.
    pub fn irq_info(&self) -> (r: Result<Arc<Vec<IrqDetails>>, MetricError>)
        requires
            self.wf(),
        ensures
            <P as SnapshotSource<Vec<IrqDetails>>>::may_produce(&self.probe(), unshared(r)),
    {
        self.irq_info.get()
    }

    /// The interrupt table, read once and then served from the cache.
    pub fn interrupt_info(&self) -> (r: Result<Arc<Vec<InterruptDetails>>, MetricError>)
        requires
            self.wf(),
        ensures
            <P as SnapshotSource<Vec<InterruptDetails>>>::may_produce(&self.probe(), unshared(r)),
    {
        self.interrupt_info.get()
    }

    /// Current memory totals, read afresh.
    pub fn mem_info(&self) -> (r: Result<MemInfo, MetricError>)
        ensures
            <P as SnapshotSource<MemInfo>>::may_produce(&self.probe(), r),
    {
        <P as SnapshotSource<MemInfo>>::capture(&*self.probe)
    }

    /// A capture of the network counters, stamped with `now_ns`, the monotonic
    /// clock's reading taken just before it; a failed capture is passed on as is.
    pub fn network_snapshot(&self, now_ns: u64) -> (r: Result<Snapshot<Vec<NetDevStat>>, MetricError>)
        ensures
            r matches Ok(s) ==> s.captured_at_ns == now_ns,
            r matches Ok(s) ==> <P as SnapshotSource<Vec<NetDevStat>>>::may_produce(
                &self.probe(),
                Ok(s.payload),
            ),
            r matches Err(e) ==> <P as SnapshotSource<Vec<NetDevStat>>>::may_produce(&self.probe(), Err(e)),
    {
        match <P as SnapshotSource<Vec<NetDevStat>>>::capture(&*self.probe) {
            Ok(payload) => Ok(Snapshot { captured_at_ns: now_ns, payload }),
            Err(e) => Err(e),
        }
    }

    /// A capture of the interrupt table for sampling, stamped with `now_ns`; it
    /// bypasses the cache, and a failed capture is passed on as is.
    pub fn interrupt_snapshot(&self, now_ns: u64) -> (r: Result<
        Snapshot<Vec<InterruptDetails>>,
        MetricError,
    >)
        ensures
            r matches Ok(s) ==> s.captured_at_ns == now_ns,
            r matches Ok(s) ==> <P as SnapshotSource<Vec<InterruptDetails>>>::may_produce(
                &self.probe(),
                Ok(s.payload),
            ),
            r matches Err(e) ==> <P as SnapshotSource<Vec<InterruptDetails>>>::may_produce(&self.probe(), Err(e)),
    {
        match <P as SnapshotSource<Vec<InterruptDetails>>>::capture(&*self.probe) {
            Ok(payload) => Ok(Snapshot { captured_at_ns: now_ns, payload }),
            Err(e) => Err(e),
        }
    }
}

/// The IRQ cache of `facade`, shared with it.
pub fn info_handle<P>(facade: &MetricsFacade<P>) -> (r: CachedHandle<Vec<IrqDetails>, P>) where
    P: SnapshotSource<CPUArch> + SnapshotSource<MemInfo> + SnapshotSource<Vec<MemoryModule>>
        + SnapshotSource<Vec<IrqDetails>> + SnapshotSource<Vec<InterruptDetails>>
        + SnapshotSource<Vec<NetDevStat>>,

    ensures
        r.shares_with(&facade.irq_handle()),
        facade.wf() ==> r.wf(),
{
    facade.irq_info.share()
}

/// The interrupt-table cache of `facade`, shared with it.
pub fn stat_handle<P>(facade: &MetricsFacade<P>) -> (r: CachedHandle<Vec<InterruptDetails>, P>) where
    P: SnapshotSource<CPUArch> + SnapshotSource<MemInfo> + SnapshotSource<Vec<MemoryModule>>
        + SnapshotSource<Vec<IrqDetails>> + SnapshotSource<Vec<InterruptDetails>>
        + SnapshotSource<Vec<NetDevStat>>,

    ensures
        r.shares_with(&facade.interrupt_handle()),
        facade.wf() ==> r.wf(),
{
    facade.interrupt_info.share()
}

/// Any two handles that `info_handle` gave out for one facade (or for clones of
/// it) share one cache: what one computes or refreshes, the other observes.
pub proof fn lemma_irq_handles_share<P>(
    f: MetricsFacade<P>,
    a: CachedHandle<Vec<IrqDetails>, P>,
    b: CachedHandle<Vec<IrqDetails>, P>,
) where
    P: SnapshotSource<CPUArch> + SnapshotSource<MemInfo> + SnapshotSource<Vec<MemoryModule>>
        + SnapshotSource<Vec<IrqDetails>> + SnapshotSource<Vec<InterruptDetails>>
        + SnapshotSource<Vec<NetDevStat>>,

    requires
        a.shares_with(&f.irq_handle()),
        b.shares_with(&f.irq_handle()),
    ensures
        a.shares_with(&b),
{
}

/// Any two handles that `stat_handle` gave out for one facade (or for clones
/// of it) share one cache.
pub proof fn lemma_stat_handles_share<P>(
    f: MetricsFacade<P>,
    a: CachedHandle<Vec<InterruptDetails>, P>,
    b: CachedHandle<Vec<InterruptDetails>, P>,
) where
    P: SnapshotSource<CPUArch> + SnapshotSource<MemInfo> + SnapshotSource<Vec<MemoryModule>>
        + SnapshotSource<Vec<IrqDetails>> + SnapshotSource<Vec<InterruptDetails>>
        + SnapshotSource<Vec<NetDevStat>>,

    requires
        a.shares_with(&f.interrupt_handle()),
        b.shares_with(&f.interrupt_handle()),
    ensures
        a.shares_with(&b),
{
}

/// A clone of a facade hands out handles that share the cache of the
/// original's handles.
pub proof fn lemma_clone_shares_irq_cache<P>(
    f: MetricsFacade<P>,
    g: MetricsFacade<P>,
    a: CachedHandle<Vec<IrqDetails>, P>,
    b: CachedHandle<Vec<IrqDetails>, P>,
) where
    P: SnapshotSource<CPUArch> + SnapshotSource<MemInfo> + SnapshotSource<Vec<MemoryModule>>
        + SnapshotSource<Vec<IrqDetails>> + SnapshotSource<Vec<InterruptDetails>>
        + SnapshotSource<Vec<NetDevStat>>,

    requires
        g.shares_with(&f),
        a.shares_with(&f.irq_handle()),
        b.shares_with(&g.irq_handle()),
    ensures
        a.shares_with(&b),
{
}

} // verus!
