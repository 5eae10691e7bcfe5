use vstd::prelude::*;

verus! {

/// Size of the translation lookaside buffer: `count` entries of `unit` pages.
#[derive(Debug, Clone, Copy, PartialEq, Eq, Structural)]
pub struct TlbSize {
    pub count: u32,
    pub unit: u32,
}

/// Widths of physical and virtual addresses, in bits.
#[derive(Debug, Clone, Copy, PartialEq, Eq, Structural)]
pub struct AddressSizes {
    pub phy: u8,
    pub virt: u8,
}

/// One processor entry of an arm64 CPU table.
#[derive(Debug, Clone, PartialEq)]
pub struct Arm64CpuInfo {
    pub processor: usize,
    /// BogoMIPS in hundredths, as the kernel prints it with two decimals.
    pub bogomips_centi: u32,
    pub features: Vec<String>,
    pub cpu_implementer: u16,
    pub cpu_architecture: u16,
    pub cpu_variant: u16,
    pub cpu_part: u16,
    pub cpu_revision: u16,
    pub address_sizes: AddressSizes,
}

impl Arm64CpuInfo {
    /// An entry with every field zero or empty.
    pub fn new() -> (r: Arm64CpuInfo)
        ensures
            r.processor == 0,
            r.bogomips_centi == 0,
            r.features@.len() == 0,
            r.cpu_implementer == 0,
            r.cpu_architecture == 0,
            r.cpu_variant == 0,
            r.cpu_part == 0,
            r.cpu_revision == 0,
            r.address_sizes.phy == 0 && r.address_sizes.virt == 0,
    {
        Arm64CpuInfo {
            processor: 0,
            bogomips_centi: 0,
            features: Vec::new(),
            cpu_implementer: 0,
            cpu_architecture: 0,
            cpu_variant: 0,
            cpu_part: 0,
            cpu_revision: 0,
            address_sizes: AddressSizes { phy: 0, virt: 0 },
        }
    }
}

/// One processor entry of an x86_64 CPU table.
#[derive(Debug, Clone, PartialEq)]
pub struct X86_64CpuInfo {
    pub processor: usize,
    pub vendor_id: String,
    pub model_name: String,
    pub cpu_family: usize,
    pub model: usize,
    pub stepping: usize,
    pub microcode: String,
    /// Clock rate in kHz: the kernel prints MHz with three decimals.
    pub cpu_khz: u64,
    pub cache_size: u32,
    pub physical_id: usize,
    pub siblings: usize,
    pub core_id: usize,
    pub cpu_cores: usize,
    pub apicid: usize,
    pub initial_apicid: usize,
    pub fpu: bool,
    pub fpu_exception: bool,
    pub cpuid_level: usize,
    /// Write-protect bit honoured in supervisor mode.
    pub wp: bool,
    pub flags: Vec<String>,
    pub bugs: Vec<String>,
    /// BogoMIPS in hundredths, as the kernel prints it with two decimals.
    pub bogomips_centi: u32,
    pub tlb_size: TlbSize,
    pub clflush_size: u8,
    pub cache_alignment: u8,
    pub address_sizes: AddressSizes,
    pub power_management: Vec<String>,
}

impl X86_64CpuInfo {
    /// An entry with every field zero, false or empty.
    pub fn new() -> (r: X86_64CpuInfo)
        ensures
            r.processor == 0,
            r.vendor_id@.len() == 0,
            r.model_name@.len() == 0,
            r.cpu_family == 0,
            r.model == 0,
            r.stepping == 0,
            r.microcode@.len() == 0,
            r.cpu_khz == 0,
            r.cache_size == 0,
            r.physical_id == 0,
            r.siblings == 0,
            r.core_id == 0,
            r.cpu_cores == 0,
            r.apicid == 0,
            r.initial_apicid == 0,
            !r.fpu,
            !r.fpu_exception,
            r.cpuid_level == 0,
            !r.wp,
            r.flags@.len() == 0,
            r.bugs@.len() == 0,
            r.bogomips_centi == 0,
            r.tlb_size.count == 0 && r.tlb_size.unit == 0,
            r.clflush_size == 0,
            r.cache_alignment == 0,
            r.address_sizes.phy == 0 && r.address_sizes.virt == 0,
            r.power_management@.len() == 0,
    {
        X86_64CpuInfo {
            processor: 0,
            vendor_id: String::new(),
            model_name: String::new(),
            cpu_family: 0,
            model: 0,
            stepping: 0,
            microcode: String::new(),
            cpu_khz: 0,
            cache_size: 0,
            physical_id: 0,
            siblings: 0,
            core_id: 0,
            cpu_cores: 0,
            apicid: 0,
            initial_apicid: 0,
            fpu: false,
            fpu_exception: false,
            cpuid_level: 0,
            wp: false,
            flags: Vec::new(),
            bugs: Vec::new(),
            bogomips_centi: 0,
            tlb_size: TlbSize { count: 0, unit: 0 },
            clflush_size: 0,
            cache_alignment: 0,
            address_sizes: AddressSizes { phy: 0, virt: 0 },
            power_management: Vec::new(),
        }
    }
}

/// One memory device of the firmware's hardware inventory. A `None` field was absent from the source.
#[derive(Debug, Clone, PartialEq)]
pub struct MemoryModule {
    pub array_handle: u32,
    pub error_info_handle: Option<u32>,
    pub total_width: Option<u8>,
    pub data_width: Option<u8>,
    pub size: u64,
    pub form_factor: String,
    pub set: Option<String>,
    pub locator: String,
    pub bank_locator: Option<String>,
    pub memory_type: String,
    pub type_detail: String,
    pub speed: Option<String>,
    pub manufacturer: Option<String>,
    pub serial_number: Option<String>,
    pub asset_tag: Option<String>,
    pub part_number: Option<String>,
    pub rank: Option<u16>,
    pub configured_memory_speed: Option<String>,
    pub min_voltage: Option<String>,
    pub max_voltage: Option<String>,
    pub configured_voltage: Option<String>,
    pub memory_technology: Option<String>,
    pub memory_operating_mode_capability: Option<String>,
    pub firmware_version: Option<String>,
    pub module_manufacturer_id: Option<String>,
    pub module_product_id: Option<String>,
    pub memory_subsystem_controller_manufacturer_id: Option<String>,
    pub memory_subsystem_controller_product_id: Option<String>,
    pub non_volatile_size: Option<u64>,
    pub volatile_size: Option<u64>,
    pub cache_size: Option<u64>,
    pub logical_size: Option<u64>,
}

impl MemoryModule {
    /// A module with every required field zero or empty and every optional field absent.
    pub fn new() -> (r: MemoryModule)
        ensures
            r.array_handle == 0,
            r.error_info_handle is None,
            r.total_width is None,
            r.data_width is None,
            r.size == 0,
            r.form_factor@.len() == 0,
            r.set is None,
            r.locator@.len() == 0,
            r.bank_locator is None,
            r.memory_type@.len() == 0,
            r.type_detail@.len() == 0,
            r.speed is None,
            r.manufacturer is None,
            r.serial_number is None,
            r.asset_tag is None,
            r.part_number is None,
            r.rank is None,
            r.configured_memory_speed is None,
            r.min_voltage is None,
            r.max_voltage is None,
            r.configured_voltage is None,
            r.memory_technology is None,
            r.memory_operating_mode_capability is None,
            r.firmware_version is None,
            r.module_manufacturer_id is None,
            r.module_product_id is None,
            r.memory_subsystem_controller_manufacturer_id is None,
            r.memory_subsystem_controller_product_id is None,
            r.non_volatile_size is None,
            r.volatile_size is None,
            r.cache_size is None,
            r.logical_size is None,
    {
        MemoryModule {
            array_handle: 0,
            error_info_handle: None,
            total_width: None,
            data_width: None,
            size: 0,
            form_factor: String::new(),
            set: None,
            locator: String::new(),
            bank_locator: None,
            memory_type: String::new(),
            type_detail: String::new(),
            speed: None,
            manufacturer: None,
            serial_number: None,
            asset_tag: None,
            part_number: None,
            rank: None,
            configured_memory_speed: None,
            min_voltage: None,
            max_voltage: None,
            configured_voltage: None,
            memory_technology: None,
            memory_operating_mode_capability: None,
            firmware_version: None,
            module_manufacturer_id: None,
            module_product_id: None,
            memory_subsystem_controller_manufacturer_id: None,
            memory_subsystem_controller_product_id: None,
            non_volatile_size: None,
            volatile_size: None,
            cache_size: None,
            logical_size: None,
        }
    }
}

/// System-wide memory totals.
#[derive(Debug, Clone, PartialEq)]
pub struct MemInfo {
    /// Values are in kB, as the kernel reports them; a `None` field was absent from the source.
    pub mem_total: u64,
    pub mem_free: u64,
    pub mem_available: u64,
    pub buffers: u64,
    pub cached: u64,
    pub swap_cached: u64,
    pub active: u64,
    pub inactive: u64,
    pub active_anon: u64,
    pub inactive_anon: u64,
    pub active_file: u64,
    pub inactive_file: u64,
    pub unevictable: u64,
    pub mlocked: u64,
    pub swap_total: u64,
    pub swap_free: u64,
    pub dirty: u64,
    pub writeback: u64,
    pub anon_pages: u64,
    pub mapped: u64,
    pub shmem: u64,
    pub kreclaimable: u64,
    pub slab: u64,
    pub sreclaimable: u64,
    pub sunreclaim: u64,
    pub kernel_stack: u64,
    pub page_tables: u64,
    pub nfs_unstable: u64,
    pub bounce: u64,
    pub writeback_tmp: u64,
    pub commit_limit: u64,
    pub committed_as: u64,
    pub vmalloc_total: u64,
    pub vmalloc_used: u64,
    pub vmalloc_chunk: u64,
    pub percpu: u64,
    pub cma_total: Option<u64>,
    pub cma_free: Option<u64>,
    pub hardware_corrupted: Option<u64>,
    pub anon_huge_pages: Option<u64>,
    pub shmem_huge_pages: Option<u64>,
    pub shmem_pmd_mapped: Option<u64>,
    pub file_huge_pages: Option<u64>,
    pub file_pmd_mapped: Option<u64>,
    pub huge_pages_total: u64,
    pub huge_pages_free: u64,
    pub huge_pages_rsvd: u64,
    pub huge_pages_surp: u64,
    pub huge_page_size: u64,
    pub huge_tlb: u64,
    pub direct_map4k: Option<u64>,
    pub direct_map2_m: Option<u64>,
    pub direct_map1_g: Option<u64>,
}

impl MemInfo {
    /// Totals with every required field zero and every optional field absent.
    pub fn new() -> (r: MemInfo)
        ensures
            r.mem_total == 0,
            r.mem_free == 0,
            r.mem_available == 0,
            r.buffers == 0,
            r.cached == 0,
            r.swap_cached == 0,
            r.active == 0,
            r.inactive == 0,
            r.active_anon == 0,
            r.inactive_anon == 0,
            r.active_file == 0,
            r.inactive_file == 0,
            r.unevictable == 0,
            r.mlocked == 0,
            r.swap_total == 0,
            r.swap_free == 0,
            r.dirty == 0,
            r.writeback == 0,
            r.anon_pages == 0,
            r.mapped == 0,
            r.shmem == 0,
            r.kreclaimable == 0,
            r.slab == 0,
            r.sreclaimable == 0,
            r.sunreclaim == 0,
            r.kernel_stack == 0,
            r.page_tables == 0,
            r.nfs_unstable == 0,
            r.bounce == 0,
            r.writeback_tmp == 0,
            r.commit_limit == 0,
            r.committed_as == 0,
            r.vmalloc_total == 0,
            r.vmalloc_used == 0,
            r.vmalloc_chunk == 0,
            r.percpu == 0,
            r.cma_total is None,
            r.cma_free is None,
            r.hardware_corrupted is None,
            r.anon_huge_pages is None,
            r.shmem_huge_pages is None,
            r.shmem_pmd_mapped is None,
            r.file_huge_pages is None,
            r.file_pmd_mapped is None,
            r.huge_pages_total == 0,
            r.huge_pages_free == 0,
            r.huge_pages_rsvd == 0,
            r.huge_pages_surp == 0,
            r.huge_page_size == 0,
            r.huge_tlb == 0,
            r.direct_map4k is None,
            r.direct_map2_m is None,
            r.direct_map1_g is None,
    {
        MemInfo {
            mem_total: 0,
            mem_free: 0,
            mem_available: 0,
            buffers: 0,
            cached: 0,
            swap_cached: 0,
            active: 0,
            inactive: 0,
            active_anon: 0,
            inactive_anon: 0,
            active_file: 0,
            inactive_file: 0,
            unevictable: 0,
            mlocked: 0,
            swap_total: 0,
            swap_free: 0,
            dirty: 0,
            writeback: 0,
            anon_pages: 0,
            mapped: 0,
            shmem: 0,
            kreclaimable: 0,
            slab: 0,
            sreclaimable: 0,
            sunreclaim: 0,
            kernel_stack: 0,
            page_tables: 0,
            nfs_unstable: 0,
            bounce: 0,
            writeback_tmp: 0,
            commit_limit: 0,
            committed_as: 0,
            vmalloc_total: 0,
            vmalloc_used: 0,
            vmalloc_chunk: 0,
            percpu: 0,
            cma_total: None,
            cma_free: None,
            hardware_corrupted: None,
            anon_huge_pages: None,
            shmem_huge_pages: None,
            shmem_pmd_mapped: None,
            file_huge_pages: None,
            file_pmd_mapped: None,
            huge_pages_total: 0,
            huge_pages_free: 0,
            huge_pages_rsvd: 0,
            huge_pages_surp: 0,
            huge_page_size: 0,
            huge_tlb: 0,
            direct_map4k: None,
            direct_map2_m: None,
            direct_map1_g: None,
        }
    }
}

/// One row of the interrupt table.
#[derive(Debug, Clone, PartialEq)]
pub struct InterruptDetails {
    /// Count of this interrupt on each CPU, in CPU order.
    pub cpu_counts: Vec<u64>,
    pub interrupt_type: String,
    pub description: String,
}

impl InterruptDetails {
    /// A row of the given per-CPU counts, type and description.
    pub fn new(cpu_counts: Vec<u64>, interrupt_type: String, description: String) -> (r: InterruptDetails)
        ensures
            r.cpu_counts@ == cpu_counts@,
            r.interrupt_type@ == interrupt_type@,
            r.description@ == description@,
    {
        InterruptDetails {
            cpu_counts: cpu_counts,
            interrupt_type: interrupt_type,
            description: description,
        }
    }
}

/// Static information on one IRQ line; a `None` field was absent from the source.
#[derive(Debug, Clone, PartialEq)]
pub struct IrqDetails {
    pub irq_number: String,
    pub smp_affinity: Option<String>,
    pub smp_affinity_list: Option<String>,
    pub node: Option<String>,
}

impl IrqDetails {
    /// An IRQ with the given number and no affinity or node information.
    pub fn new(irq_number: String) -> (r: IrqDetails)
        ensures
            r.irq_number@ == irq_number@,
            r.smp_affinity is None,
            r.smp_affinity_list is None,
            r.node is None,
    {
        IrqDetails {
            irq_number: irq_number,
            smp_affinity: None,
            smp_affinity_list: None,
            node: None,
        }
    }
}

/// The CPU table of the host, by architecture.
#[derive(Debug, Clone, PartialEq)]
pub enum CPUArch {
    X86_64(Vec<X86_64CpuInfo>),
    Arm64(Vec<Arm64CpuInfo>),
    /// An architecture with no table of its own: its name.
    Unknown(String),
}

} // verus!
