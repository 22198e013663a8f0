//! Selection of the system timer from a device description.
use vstd::prelude::*;
use vstd::string::StrSliceExecFns;
use crate::platform::DeviceConfig;

verus! {

/// Whether two strings hold the same characters.
pub fn str_eq(a: &str, b: &str) -> (r: bool)
    ensures
        r == (a@ == b@),
{
    let n = a.unicode_len();
    if n != b.unicode_len() {
        return false;
    }
    let mut i: usize = 0;
    while i < n
        invariant
            n == a@.len(),
            n == b@.len(),
            i <= n,
            forall|j: int| 0 <= j < i ==> a@[j] == b@[j],
        decreases n - i,
    {
        if a.get_char(i) != b.get_char(i) {
            return false;
        }
        i = i + 1;
    }
    assert(a@ =~= b@);
    true
}

/// Timer hardware families.
#[derive(Clone, Copy, PartialEq, Eq, Structural, Debug)]
pub enum TimerType {
    /// ARM generic timer.
    ArmGeneric,
    /// RISC-V CLINT machine timer.
    RiscvClint,
}

#[derive(Clone, Copy, PartialEq, Eq, Structural, Debug)]
pub enum TimerError {
    /// The compatible string names no supported timer.
    UnsupportedType,
    InitializationFailed,
}

/// Base address used when a device map names no timer.
pub const DEFAULT_TIMER_BASE: usize = 0x1000_0000;

/// A timer at a base address.
#[derive(Clone, Copy, Debug)]
pub struct TimerDriver {
    pub base_addr: usize,
    pub timer_type: TimerType,
}

impl TimerDriver {
    /// A driver for the timer whose compatible string is `timer_type`:
    /// `"arm,generic-timer"` or `"riscv,clint"`; any other is unsupported.
    pub fn new(base_addr: usize, timer_type: &str) -> (r: Result<TimerDriver, TimerError>)
        ensures
            timer_type@ == "arm,generic-timer"@ ==> r == Ok::<TimerDriver, TimerError>(
                TimerDriver { base_addr, timer_type: TimerType::ArmGeneric },
            ),
            timer_type@ == "riscv,clint"@ ==> r == Ok::<TimerDriver, TimerError>(
                TimerDriver { base_addr, timer_type: TimerType::RiscvClint },
            ),
            timer_type@ != "arm,generic-timer"@ && timer_type@ != "riscv,clint"@ ==> r == Err::<
                TimerDriver,
                TimerError,
            >(TimerError::UnsupportedType),
    {
        proof {
            reveal_strlit("arm,generic-timer");
            reveal_strlit("riscv,clint");
            assert("arm,generic-timer"@.len() != "riscv,clint"@.len());
        }
        if str_eq(timer_type, "arm,generic-timer") {
            Ok(TimerDriver { base_addr, timer_type: TimerType::ArmGeneric })
        } else if str_eq(timer_type, "riscv,clint") {
            Ok(TimerDriver { base_addr, timer_type: TimerType::RiscvClint })
        } else {
            Err(TimerError::UnsupportedType)
        }
    }

    /// The timer of a device map: the ARM timer beside a `"pl011"` UART, the
    /// RISC-V one otherwise, at the map's timer base or `DEFAULT_TIMER_BASE`.
    pub fn init(config: &DeviceConfig) -> (r: Result<TimerDriver, TimerError>)
        ensures
            r is Ok,
            config.uart_type@ == "pl011"@ ==> r.unwrap().timer_type == TimerType::ArmGeneric,
            config.uart_type@ != "pl011"@ ==> r.unwrap().timer_type == TimerType::RiscvClint,
            config.timer_base matches Some(b) ==> r.unwrap().base_addr == b,
            config.timer_base is None ==> r.unwrap().base_addr == DEFAULT_TIMER_BASE,
    {
        let timer_type = if str_eq(config.uart_type, "pl011") {
            "arm,generic-timer"
        } else {
            "riscv,clint"
        };
        let base_addr = match config.timer_base {
            Some(b) => b,
            None => DEFAULT_TIMER_BASE,
        };
        proof {
            reveal_strlit("arm,generic-timer");
            reveal_strlit("riscv,clint");
        }
        TimerDriver::new(base_addr, timer_type)
    }

    /// Whether the device map names a timer.
    pub fn probe(config: &DeviceConfig) -> (r: bool)
        ensures
            r == config.timer_base is Some,
    {
        config.timer_base.is_some()
    }

    /// The counter reading this driver reports: a fixed value per timer family,
    /// 42 for the ARM timer and 123 for the CLINT.
    pub fn get_time(&self) -> (r: u64)
        ensures
            self.timer_type == TimerType::ArmGeneric ==> r == 42,
            self.timer_type == TimerType::RiscvClint ==> r == 123,
    {
        match self.timer_type {
            TimerType::ArmGeneric => 42,
            TimerType::RiscvClint => 123,
        }
    }

    /// Arms the next timeout; this driver programs no compare register.
    pub fn set_timeout(&self, timeout: u64) {
    }
}

} // verus!
