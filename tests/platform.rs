use karatos::console::UartResponses;
use karatos::platform::{ArmMemoryLayout, MemoryLayout, RiscvMemoryLayout};
use karatos::timer::{str_eq, TimerDriver, TimerError, TimerType, DEFAULT_TIMER_BASE};
use karatos::uart::{UartDriver, UartError, UartType};
use karatos::platform::{
    get_board_config, get_build_config, get_device_config, get_memory_regions, get_runtime_config,
    get_target_info, init_board, init_platform, ArmConfig, RiscvConfig, TargetArch,
};

#[test]
fn memory_regions_of_targets() {
    let arm = get_memory_regions(TargetArch::Arm);
    assert_eq!(arm.ram_start, 0x2000_0000);
    assert_eq!(arm.ram_end(), 0x2001_0000);
    assert_eq!(arm.stack_top(), 0x2001_0000);
    assert_eq!(arm.heap_start(), 0x2000_8000);
    assert_eq!(arm.heap_size(), 0x4000);
    assert_eq!(arm.flash_end(), 0x4_0000);
    let rv = get_memory_regions(TargetArch::Riscv32);
    assert_eq!(rv.ram_end(), 0x8002_0000);
    assert_eq!(rv.flash_end(), 0x2008_0000);
    assert_eq!(rv.heap_size(), 0x8000);
    let host = get_memory_regions(TargetArch::Host);
    assert_eq!(host.ram_end(), 0);
}

#[test]
fn configuration_tables() {
    let info = get_target_info(TargetArch::Riscv32);
    assert_eq!(info.arch, "RISC-V");
    assert_eq!(info.features, vec!["riscv", "riscv32"]);
    assert_eq!(get_target_info(TargetArch::Host).platform, "host");
    let rc = get_runtime_config();
    assert_eq!(rc.max_tasks, 8);
    assert_eq!(rc.timer_frequency, 1000);
    let bc = get_build_config(TargetArch::Arm);
    assert_eq!(bc.pointer_width, 32);
    assert_eq!(bc.endianness, "little");
    assert_eq!(get_build_config(TargetArch::Host).pointer_width, usize::BITS as usize);
    let board = get_board_config(TargetArch::Arm);
    assert_eq!(board.board_name, "Generic ARM Board");
    assert_eq!(board.device_config.timer_base, Some(0x4003_0000));
    assert_eq!(get_board_config(TargetArch::Host).device_config.timer_base, None);
    assert_eq!(get_board_config(TargetArch::Host).peripherals, vec!["HOST"]);
    assert_eq!(board.peripherals, vec!["UART", "TIMER"]);
    assert_eq!(ArmConfig::device_config().uart_type, "pl011");
    assert_eq!(RiscvConfig::device_config().timer_base, Some(0x0200_0000));
    assert_eq!(get_device_config(TargetArch::Riscv32).unwrap().uart_base, 0x1000_0000);
    assert!(get_device_config(TargetArch::Host).is_none());
    init_board(TargetArch::Arm);
    init_platform(TargetArch::Riscv32);
}

#[test]
fn console_texts() {
    assert_eq!(UartResponses::prompt(), "UART> ");
    assert!(UartResponses::welcome_message().ends_with("UART> "));
    assert!(UartResponses::help_response().starts_with("Available Commands:\n- status"));
    assert!(UartResponses::status_response().ends_with("Ready.\n"));
    assert_eq!(
        UartResponses::exit_response(),
        "System shutdown initiated...\nStopping all tasks...\nHalting system.\n"
    );
    assert!(UartResponses::restart_response().contains("Rebooting"));
}

#[test]
fn memory_layout_traits() {
    assert_eq!(ArmMemoryLayout::stack_top(), 0x2001_0000);
    assert_eq!(ArmMemoryLayout::heap_start(), 0x2000_8000);
    assert_eq!(ArmMemoryLayout::heap_size(), 0x4000);
    assert_eq!(ArmMemoryLayout::flash_size(), 256 * 1024);
    assert_eq!(RiscvMemoryLayout::stack_top(), 0x8002_0000);
    assert_eq!(RiscvMemoryLayout::flash_start(), 0x2000_0000);
    assert_eq!(RiscvMemoryLayout::heap_size(), 0x8000);
}

#[test]
fn timer_selection() {
    let t = TimerDriver::new(0x100, "riscv,clint").unwrap();
    assert_eq!(t.timer_type, TimerType::RiscvClint);
    assert_eq!(t.base_addr, 0x100);
    assert_eq!(t.get_time(), 123);
    let a = TimerDriver::new(0x200, "arm,generic-timer").unwrap();
    assert_eq!(a.get_time(), 42);
    a.set_timeout(10);
    assert_eq!(TimerDriver::new(0, "riscv,clin").unwrap_err(), TimerError::UnsupportedType);
    assert_eq!(TimerDriver::new(0, "").unwrap_err(), TimerError::UnsupportedType);
    let arm = ArmConfig::device_config();
    let from_map = TimerDriver::init(&arm).unwrap();
    assert_eq!(from_map.timer_type, TimerType::ArmGeneric);
    assert_eq!(from_map.base_addr, 0x01C2_0C00);
    let host = get_board_config(TargetArch::Host).device_config;
    assert!(!TimerDriver::probe(&host));
    let h = TimerDriver::init(&host).unwrap();
    assert_eq!(h.timer_type, TimerType::RiscvClint);
    assert_eq!(h.base_addr, DEFAULT_TIMER_BASE);
    assert!(str_eq("abc", "abc"));
    assert!(!str_eq("abc", "abd"));
}

#[test]
fn uart_register_decisions() {
    let pl = UartDriver::init(&ArmConfig::device_config()).unwrap();
    assert_eq!(pl.uart_type, UartType::Pl011);
    assert_eq!(pl.base_addr, 0x0900_0000);
    assert_eq!(pl.status_offset(), 0x18);
    assert!(pl.data_available(0));
    assert!(!pl.data_available(0x10));
    assert_eq!(pl.read_char(0, 0x1_41), Some(0x41));
    assert_eq!(pl.read_char(0x10, 0x41), None);
    assert_eq!(pl.write_char(0, b'x'), Some(b'x' as u32));
    assert_eq!(pl.write_char(0x20, b'x'), None);
    let ns = UartDriver::init(&RiscvConfig::device_config()).unwrap();
    assert_eq!(ns.uart_type, UartType::Ns16550a);
    assert_eq!(ns.status_offset(), 5);
    assert!(ns.data_available(1));
    assert!(!ns.tx_ready(0));
    assert!(ns.tx_ready(0x20));
    assert_eq!(ns.write_str("ok\n"), vec![b'o', b'k', b'\n']);
    assert!(UartDriver::probe(&RiscvConfig::device_config()));
    let board = get_board_config(TargetArch::Arm).device_config;
    assert!(!UartDriver::probe(&board));
    assert_eq!(UartDriver::init(&board).unwrap_err(), UartError::UnsupportedType);
}
