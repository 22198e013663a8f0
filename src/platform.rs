//! Memory maps and configuration tables of the supported targets.
use vstd::prelude::*;
use crate::scheduler::MAX_TASKS;

verus! {

/// The targets the kernel is built for.
#[derive(Clone, Copy, PartialEq, Eq, Structural, Debug)]
pub enum TargetArch {
    /// ARM Cortex-M (LM3S6965EVB).
    Arm,
    /// RISC-V 32 on the QEMU virt machine.
    Riscv32,
    /// A host build, used for testing.
    Host,
}

/// RAM and flash windows of a target.
#[derive(Clone, Copy, Debug)]
pub struct MemoryRegions {
    pub ram_start: usize,
    pub ram_size: usize,
    pub flash_start: usize,
    pub flash_size: usize,
}

/// Memory windows of `target`; a host build has none.
pub fn get_memory_regions(target: TargetArch) -> (r: MemoryRegions)
    ensures
        r.wf(),
        target == TargetArch::Arm ==> r == (MemoryRegions {
            ram_start: 0x2000_0000,
            ram_size: 0x1_0000,
            flash_start: 0,
            flash_size: 0x4_0000,
        }),
        target == TargetArch::Riscv32 ==> r == (MemoryRegions {
            ram_start: 0x8000_0000,
            ram_size: 0x2_0000,
            flash_start: 0x2000_0000,
            flash_size: 0x8_0000,
        }),
        target == TargetArch::Host ==> r == (MemoryRegions {
            ram_start: 0,
            ram_size: 0,
            flash_start: 0,
            flash_size: 0,
        }),
{
    match target {
        TargetArch::Arm => MemoryRegions {
            ram_start: 0x2000_0000,
            ram_size: 64 * 1024,
            flash_start: 0,
            flash_size: 256 * 1024,
        },
        TargetArch::Riscv32 => MemoryRegions {
            ram_start: 0x8000_0000,
            ram_size: 128 * 1024,
            flash_start: 0x2000_0000,
            flash_size: 512 * 1024,
        },
        TargetArch::Host => MemoryRegions { ram_start: 0, ram_size: 0, flash_start: 0, flash_size: 0 },
    }
}

impl MemoryRegions {
    /// Both windows end within the address space.
    pub open spec fn wf(&self) -> bool {
        self.ram_start + self.ram_size <= usize::MAX && self.flash_start + self.flash_size
            <= usize::MAX
    }

    /// First address after RAM.
    pub fn ram_end(&self) -> (r: usize)
        requires
            self.wf(),
        ensures
            r == self.ram_start + self.ram_size,
    {
        self.ram_start + self.ram_size
    }

    /// First address after flash.
    pub fn flash_end(&self) -> (r: usize)
        requires
            self.wf(),
        ensures
            r == self.flash_start + self.flash_size,
    {
        self.flash_start + self.flash_size
    }

    /// The initial stack pointer: the top of RAM.
    pub fn stack_top(&self) -> (r: usize)
        requires
            self.wf(),
        ensures
            r == self.ram_start + self.ram_size,
    {
        self.ram_start + self.ram_size
    }

    /// The heap starts in the middle of RAM.
    pub fn heap_start(&self) -> (r: usize)
        requires
            self.wf(),
        ensures
            r == self.ram_start + self.ram_size / 2,
    {
        self.ram_start + self.ram_size / 2
    }

    /// The heap takes a quarter of RAM.
    pub fn heap_size(&self) -> (r: usize)
        ensures
            r == self.ram_size / 4,
    {
        self.ram_size / 4
    }
}

/// Name and toolchain target of a platform.
pub struct TargetInfo {
    pub arch: &'static str,
    pub platform: &'static str,
    pub features: Vec<&'static str>,
}

/// Describes `target`.
pub fn get_target_info(target: TargetArch) -> (r: TargetInfo)
    ensures
        target == TargetArch::Arm ==> r.arch@ == "ARM Cortex-M"@ && r.platform@
            == "thumbv7m-none-eabi"@ && r.features@.len() == 2 && r.features@[0]@ == "arm"@
            && r.features@[1]@ == "cortex-m"@,
        target == TargetArch::Riscv32 ==> r.arch@ == "RISC-V"@ && r.platform@
            == "riscv32imac-unknown-none-elf"@ && r.features@.len() == 2 && r.features@[0]@
            == "riscv"@ && r.features@[1]@ == "riscv32"@,
        target == TargetArch::Host ==> r.arch@ == "Host"@ && r.platform@ == "host"@
            && r.features@.len() == 1 && r.features@[0]@ == "std"@,
{
    match target {
        TargetArch::Arm => TargetInfo {
            arch: "ARM Cortex-M",
            platform: "thumbv7m-none-eabi",
            features: vec!["arm", "cortex-m"],
        },
        TargetArch::Riscv32 => TargetInfo {
            arch: "RISC-V",
            platform: "riscv32imac-unknown-none-elf",
            features: vec!["riscv", "riscv32"],
        },
        TargetArch::Host => TargetInfo { arch: "Host", platform: "host", features: vec!["std"] },
    }
}

/// Switches and sizes the kernel runs with.
#[derive(Clone, Copy, Debug)]
pub struct RuntimeConfig {
    pub enable_scheduler_stats: bool,
    pub enable_debug_output: bool,
    pub max_tasks: usize,
    pub timer_frequency: u32,
}

/// Statistics and debug output on, the default task table, a 1 kHz tick.
pub fn get_runtime_config() -> (r: RuntimeConfig)
    ensures
        r.enable_scheduler_stats,
        r.enable_debug_output,
        r.max_tasks == MAX_TASKS,
        r.timer_frequency == 1000,
{
    RuntimeConfig {
        enable_scheduler_stats: true,
        enable_debug_output: true,
        max_tasks: MAX_TASKS,
        timer_frequency: 1000,
    }
}

/// What the build target offers.
#[derive(Clone, Copy, Debug)]
pub struct BuildConfig {
    pub has_fpu: bool,
    pub has_mmu: bool,
    pub pointer_width: usize,
    pub endianness: &'static str,
}

/// No FPU or MMU in use, 32-bit little-endian on the embedded targets; a host
/// build reports its own pointer width.
pub fn get_build_config(target: TargetArch) -> (r: BuildConfig)
    ensures
        !r.has_fpu,
        !r.has_mmu,
        r.endianness@ == "little"@,
        target != TargetArch::Host ==> r.pointer_width == 32,
        target == TargetArch::Host ==> r.pointer_width == usize::BITS,
{
    let pointer_width: usize = match target {
        TargetArch::Host => usize::BITS as usize,
        _ => 32,
    };
    BuildConfig { has_fpu: false, has_mmu: false, pointer_width, endianness: "little" }
}

/// Where a board's peripherals sit.
#[derive(Clone, Copy, Debug)]
pub struct DeviceConfig {
    pub uart_base: usize,
    pub uart_type: &'static str,
    pub timer_base: Option<usize>,
    pub memory_base: usize,
    pub memory_size: usize,
}

/// A board: its name, its device map and its peripherals.
pub struct BoardConfig {
    pub board_name: &'static str,
    pub device_config: DeviceConfig,
    pub peripherals: Vec<&'static str>,
}

/// Board bring-up (clocks, power); the supported boards need none.
pub fn init_board(target: TargetArch) {
}

/// The generic board of `target`.
pub fn get_board_config(target: TargetArch) -> (r: BoardConfig)
    ensures
        target == TargetArch::Arm ==> r.board_name@ == "Generic ARM Board"@
            && r.device_config.uart_base == 0x4000_C000 && r.device_config.uart_type@ == "PL011"@
            && r.device_config.timer_base == Some(0x4003_0000usize)
            && r.device_config.memory_base == 0x2000_0000 && r.device_config.memory_size == 64
            * 1024 && r.peripherals@.len() == 2 && r.peripherals@[0]@ == "UART"@
            && r.peripherals@[1]@ == "TIMER"@,
        target == TargetArch::Riscv32 ==> r.board_name@ == "Generic RISC-V Board"@
            && r.device_config.uart_base == 0x1000_0000 && r.device_config.uart_type@
            == "NS16550A"@ && r.device_config.timer_base == Some(0x0200_0000usize)
            && r.device_config.memory_base == 0x8000_0000 && r.device_config.memory_size == 128
            * 1024 * 1024 && r.peripherals@.len() == 2 && r.peripherals@[0]@ == "UART"@
            && r.peripherals@[1]@ == "TIMER"@,
        target == TargetArch::Host ==> r.board_name@ == "Host Test Board"@
            && r.device_config.uart_base == 0 && r.device_config.uart_type@ == "HOST"@
            && r.device_config.timer_base is None && r.device_config.memory_base == 0
            && r.device_config.memory_size == 1024 * 1024 * 1024 && r.peripherals@.len() == 1
            && r.peripherals@[0]@ == "HOST"@,
{
    match target {
        TargetArch::Arm => BoardConfig {
            board_name: "Generic ARM Board",
            device_config: DeviceConfig {
                uart_base: 0x4000_C000,
                uart_type: "PL011",
                timer_base: Some(0x4003_0000),
                memory_base: 0x2000_0000,
                memory_size: 64 * 1024,
            },
            peripherals: vec!["UART", "TIMER"],
        },
        TargetArch::Riscv32 => BoardConfig {
            board_name: "Generic RISC-V Board",
            device_config: DeviceConfig {
                uart_base: 0x1000_0000,
                uart_type: "NS16550A",
                timer_base: Some(0x0200_0000),
                memory_base: 0x8000_0000,
                memory_size: 128 * 1024 * 1024,
            },
            peripherals: vec!["UART", "TIMER"],
        },
        TargetArch::Host => BoardConfig {
            board_name: "Host Test Board",
            device_config: DeviceConfig {
                uart_base: 0,
                uart_type: "HOST",
                timer_base: None,
                memory_base: 0,
                memory_size: 1024 * 1024 * 1024,
            },
            peripherals: vec!["HOST"],
        },
    }
}

/// Device map of the ARM virt platform.
pub struct ArmConfig;

impl ArmConfig {
    /// PL011 UART, generic timer, 128 MiB of RAM at 1 GiB.
    pub fn device_config() -> (r: DeviceConfig)
        ensures
            r.uart_base == 0x0900_0000,
            r.uart_type@ == "pl011"@,
            r.timer_base == Some(0x01C2_0C00usize),
            r.memory_base == 0x4000_0000,
            r.memory_size == 128 * 1024 * 1024,
    {
        DeviceConfig {
            uart_base: 0x0900_0000,
            uart_type: "pl011",
            timer_base: Some(0x01C2_0C00),
            memory_base: 0x4000_0000,
            memory_size: 128 * 1024 * 1024,
        }
    }

    /// Platform bring-up; nothing to do here.
    pub fn platform_init() {
    }
}

/// Device map of the RISC-V virt platform.
pub struct RiscvConfig;

impl RiscvConfig {
    /// NS16550A UART, CLINT timer, 128 MiB of RAM at 2 GiB.
    pub fn device_config() -> (r: DeviceConfig)
        ensures
            r.uart_base == 0x1000_0000,
            r.uart_type@ == "ns16550a"@,
            r.timer_base == Some(0x0200_0000usize),
            r.memory_base == 0x8000_0000,
            r.memory_size == 128 * 1024 * 1024,
    {
        DeviceConfig {
            uart_base: 0x1000_0000,
            uart_type: "ns16550a",
            timer_base: Some(0x0200_0000),
            memory_base: 0x8000_0000,
            memory_size: 128 * 1024 * 1024,
        }
    }

    /// Platform bring-up (PLIC, CLINT); nothing to do here.
    pub fn platform_init() {
    }
}

/// The device map of `target`'s platform; `None` for a host build.
pub fn get_device_config(target: TargetArch) -> (r: Option<DeviceConfig>)
    ensures
        target == TargetArch::Arm ==> r is Some && r.unwrap().uart_base == 0x0900_0000,
        target == TargetArch::Riscv32 ==> r is Some && r.unwrap().uart_base == 0x1000_0000,
        target == TargetArch::Host ==> r is None,
{
    match target {
        TargetArch::Arm => Some(ArmConfig::device_config()),
        TargetArch::Riscv32 => Some(RiscvConfig::device_config()),
        TargetArch::Host => None,
    }
}

/// Runs the bring-up of `target`'s platform.
pub fn init_platform(target: TargetArch) {
    match target {
        TargetArch::Arm => ArmConfig::platform_init(),
        TargetArch::Riscv32 => RiscvConfig::platform_init(),
        TargetArch::Host => {},
    }
}

/// Memory map of an architecture, as associated functions.
pub trait MemoryLayout {
    fn ram_start() -> usize;

    fn ram_size() -> usize;

    fn flash_start() -> usize;

    fn flash_size() -> usize;

    /// Top of RAM.
    fn stack_top() -> usize;

    /// Middle of RAM.
    fn heap_start() -> usize;

    /// A quarter of RAM.
    fn heap_size() -> usize;
}

const ARM_RAM_START: usize = 0x2000_0000;

const ARM_RAM_SIZE: usize = 64 * 1024;

const RISCV_RAM_START: usize = 0x8000_0000;

const RISCV_RAM_SIZE: usize = 128 * 1024;

/// Memory map of the LM3S6965 Cortex-M3.
pub struct ArmMemoryLayout;

impl MemoryLayout for ArmMemoryLayout {
    fn ram_start() -> usize {
        ARM_RAM_START
    }

    fn ram_size() -> usize {
        ARM_RAM_SIZE
    }

    fn flash_start() -> usize {
        0
    }

    fn flash_size() -> usize {
        256 * 1024
    }

    fn stack_top() -> usize {
        ARM_RAM_START + ARM_RAM_SIZE
    }

    fn heap_start() -> usize {
        ARM_RAM_START + ARM_RAM_SIZE / 2
    }

    fn heap_size() -> usize {
        ARM_RAM_SIZE / 4
    }
}

/// Memory map of the RISC-V virt machine.
pub struct RiscvMemoryLayout;

impl MemoryLayout for RiscvMemoryLayout {
    fn ram_start() -> usize {
        RISCV_RAM_START
    }

    fn ram_size() -> usize {
        RISCV_RAM_SIZE
    }

    fn flash_start() -> usize {
        0x2000_0000
    }

    fn flash_size() -> usize {
        512 * 1024
    }

    fn stack_top() -> usize {
        RISCV_RAM_START + RISCV_RAM_SIZE
    }

    fn heap_start() -> usize {
        RISCV_RAM_START + RISCV_RAM_SIZE / 2
    }

    fn heap_size() -> usize {
        RISCV_RAM_SIZE / 4
    }
}

} // verus!
