use psh::args::Args;
use psh::records::{
    AddressSizes, Arm64CpuInfo, CPUArch, InterruptDetails, IrqDetails, MemInfo, MemoryModule, TlbSize,
    X86_64CpuInfo,
};

#[test]
fn blank_arm64_entry() {
    let c = Arm64CpuInfo::new();
    assert_eq!(c.processor, 0);
    assert_eq!(c.bogomips_centi, 0);
    assert!(c.features.is_empty());
    assert_eq!(c.address_sizes, AddressSizes { phy: 0, virt: 0 });
    assert_eq!(c.cpu_part, 0);
}

#[test]
fn blank_x86_64_entry() {
    let c = X86_64CpuInfo::new();
    assert!(c.vendor_id.is_empty());
    assert!(c.model_name.is_empty());
    assert_eq!(c.cpu_khz, 0);
    assert!(!c.fpu && !c.fpu_exception && !c.wp);
    assert_eq!(c.tlb_size, TlbSize { count: 0, unit: 0 });
    assert!(c.flags.is_empty() && c.bugs.is_empty() && c.power_management.is_empty());
    assert_eq!(c, X86_64CpuInfo::new());
}

#[test]
fn blank_memory_module() {
    let m = MemoryModule::new();
    assert_eq!(m.array_handle, 0);
    assert_eq!(m.size, 0);
    assert!(m.form_factor.is_empty());
    assert!(m.locator.is_empty());
    assert_eq!(m.error_info_handle, None);
    assert_eq!(m.rank, None);
    assert_eq!(m.serial_number, None);
    assert_eq!(m.logical_size, None);
}

#[test]
fn blank_mem_info() {
    let m = MemInfo::new();
    assert_eq!(m.mem_total, 0);
    assert_eq!(m.huge_page_size, 0);
    assert_eq!(m.cma_total, None);
    assert_eq!(m.direct_map1_g, None);
}

#[test]
fn absent_differs_from_zero() {
    let mut m = MemInfo::new();
    m.cma_free = Some(0);
    assert_ne!(m.cma_free, MemInfo::new().cma_free);
}

#[test]
fn interrupt_row_keeps_its_parts() {
    let r = InterruptDetails::new(vec![1, 2, 3], "NMI".to_string(), "Non-maskable interrupts".to_string());
    assert_eq!(r.cpu_counts, vec![1, 2, 3]);
    assert_eq!(r.interrupt_type, "NMI");
    assert_eq!(r.description, "Non-maskable interrupts");
}

#[test]
fn irq_starts_without_affinity() {
    let r = IrqDetails::new("42".to_string());
    assert_eq!(r.irq_number, "42");
    assert_eq!(r.smp_affinity, None);
    assert_eq!(r.smp_affinity_list, None);
    assert_eq!(r.node, None);
}

#[test]
fn cpu_table_variants() {
    let t = CPUArch::Arm64(vec![Arm64CpuInfo::new()]);
    assert!(matches!(t, CPUArch::Arm64(ref v) if v.len() == 1));
    assert_ne!(CPUArch::Unknown("riscv64".to_string()), CPUArch::X86_64(vec![]));
}

#[test]
fn args_hold_their_settings() {
    let a = Args { netdata_plugin: None, netdata_freq: 1, install: Some("/tmp/i.sh".to_string()), get_sysinfo: None };
    assert_eq!(a.clone(), a);
}
