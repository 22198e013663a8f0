//! Fixed texts of the serial console.
use vstd::prelude::*;

verus! {

/// The console's canned replies.
pub struct UartResponses;

impl UartResponses {
    /// Reply to `status`.
    pub fn status_response() -> (r: &'static str)
        ensures
            r@ == "RTOS Status:\n- Kernel: Async Event-Driven RTOS v0.1.0\n- Scheduler: Priority-based Cooperative Multitasking\n- Architecture: ARM Cortex-M / RISC-V\n- Tasks: Active and running\n- Events: Processing normally\n- UART: Interface active\nReady.\n"@,
    {
        "RTOS Status:\n- Kernel: Async Event-Driven RTOS v0.1.0\n- Scheduler: Priority-based Cooperative Multitasking\n- Architecture: ARM Cortex-M / RISC-V\n- Tasks: Active and running\n- Events: Processing normally\n- UART: Interface active\nReady.\n"
    }

    /// Reply to `help`.
    pub fn help_response() -> (r: &'static str)
        ensures
            r@ == "Available Commands:\n- status    : Show system status\n- exit      : Halt and exit system\n- restart   : Reboot system\n- help      : Show this help message\n\nType command and press Enter.\n"@,
    {
        "Available Commands:\n- status    : Show system status\n- exit      : Halt and exit system\n- restart   : Reboot system\n- help      : Show this help message\n\nType command and press Enter.\n"
    }

    /// Reply to `exit`.
    pub fn exit_response() -> (r: &'static str)
        ensures
            r@ == "System shutdown initiated...\nStopping all tasks...\nHalting system.\n"@,
    {
        "System shutdown initiated...\nStopping all tasks...\nHalting system.\n"
    }

    /// Reply to `restart`.
    pub fn restart_response() -> (r: &'static str)
        ensures
            r@ == "System restart initiated...\nStopping all tasks...\nRebooting system...\n"@,
    {
        "System restart initiated...\nStopping all tasks...\nRebooting system...\n"
    }

    /// Banner shown when the console starts.
    pub fn welcome_message() -> (r: &'static str)
        ensures
            r@ == "\n=== UART Interface Active ===\nAsync Event-Driven RTOS Kernel\nType 'help' for available commands.\nUART> "@,
    {
        "\n=== UART Interface Active ===\nAsync Event-Driven RTOS Kernel\nType 'help' for available commands.\nUART> "
    }

    /// The command prompt.
    pub fn prompt() -> (r: &'static str)
        ensures
            r@ == "UART> "@,
    {
        "UART> "
    }
}

} // verus!
