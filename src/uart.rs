//! Register-level decisions of the UART driver. The caller performs the
//! volatile register accesses; these functions say what to read and write.
use vstd::prelude::*;
use vstd::string::StringSliceAdditionalSpecFns;
use crate::platform::DeviceConfig;
use crate::timer::str_eq;

verus! {

/// UART hardware families.
#[derive(Clone, Copy, PartialEq, Eq, Structural, Debug)]
pub enum UartType {
    /// ARM PL011.
    Pl011,
    /// NS16550A-compatible.
    Ns16550a,
}

#[derive(Clone, Copy, PartialEq, Eq, Structural, Debug)]
pub enum UartError {
    /// The device map names no supported UART.
    UnsupportedType,
    InitializationFailed,
}

/// A UART at a base address.
#[derive(Clone, Copy, Debug)]
pub struct UartDriver {
    pub base_addr: usize,
    pub uart_type: UartType,
}

/// PL011 flag register: receive FIFO empty.
pub const PL011_RXFE: u32 = 0x10;

/// PL011 flag register: transmit FIFO full.
pub const PL011_TXFF: u32 = 0x20;

/// NS16550A line status register: data ready.
pub const NS16550A_DR: u32 = 0x01;

/// NS16550A line status register: transmit holding register empty.
pub const NS16550A_THRE: u32 = 0x20;

impl UartDriver {
    /// The UART of a device map: `"pl011"` or `"ns16550a"`; any other type is
    /// unsupported.
    pub fn init(config: &DeviceConfig) -> (r: Result<UartDriver, UartError>)
        ensures
            config.uart_type@ == "pl011"@ ==> r == Ok::<UartDriver, UartError>(
                UartDriver { base_addr: config.uart_base, uart_type: UartType::Pl011 },
            ),
            config.uart_type@ == "ns16550a"@ ==> r == Ok::<UartDriver, UartError>(
                UartDriver { base_addr: config.uart_base, uart_type: UartType::Ns16550a },
            ),
            config.uart_type@ != "pl011"@ && config.uart_type@ != "ns16550a"@ ==> r == Err::<
                UartDriver,
                UartError,
            >(UartError::UnsupportedType),
    {
        proof {
            reveal_strlit("pl011");
            reveal_strlit("ns16550a");
            assert("pl011"@.len() != "ns16550a"@.len());
        }
        if str_eq(config.uart_type, "pl011") {
            Ok(UartDriver { base_addr: config.uart_base, uart_type: UartType::Pl011 })
        } else if str_eq(config.uart_type, "ns16550a") {
            Ok(UartDriver { base_addr: config.uart_base, uart_type: UartType::Ns16550a })
        } else {
            Err(UartError::UnsupportedType)
        }
    }

    /// Whether the device map names a supported UART.
    pub fn probe(config: &DeviceConfig) -> (r: bool)
        ensures
            r == (config.uart_type@ == "pl011"@ || config.uart_type@ == "ns16550a"@),
    {
        str_eq(config.uart_type, "pl011") || str_eq(config.uart_type, "ns16550a")
    }

    /// Offset of the status register: the PL011 flag register or the
    /// NS16550A line status register.
    pub fn status_offset(&self) -> (r: usize)
        ensures
            self.uart_type == UartType::Pl011 ==> r == 0x18,
            self.uart_type == UartType::Ns16550a ==> r == 5,
    {
        match self.uart_type {
            UartType::Pl011 => 0x18,
            UartType::Ns16550a => 5,
        }
    }

    /// Whether a received byte waits, given the status register's value.
    pub fn data_available(&self, status: u32) -> (r: bool)
        ensures
            self.uart_type == UartType::Pl011 ==> r == (status & PL011_RXFE == 0),
            self.uart_type == UartType::Ns16550a ==> r == (status & NS16550A_DR != 0),
    {
        match self.uart_type {
            UartType::Pl011 => status & PL011_RXFE == 0,
            UartType::Ns16550a => status & NS16550A_DR != 0,
        }
    }

    /// The received byte, given the status and data register values: the low
    /// byte of `data` when a byte waits, else nothing.
    pub fn read_char(&self, status: u32, data: u32) -> (r: Option<u8>)
        ensures
            self.uart_type == UartType::Pl011 ==> (r is Some <==> status & PL011_RXFE == 0),
            self.uart_type == UartType::Ns16550a ==> (r is Some <==> status & NS16550A_DR != 0),
            r matches Some(b) ==> b == data % 256,
    {
        if self.data_available(status) {
            Some((data % 256) as u8)
        } else {
            None
        }
    }

    /// Whether the transmitter takes a byte, given the status register's value.
    pub fn tx_ready(&self, status: u32) -> (r: bool)
        ensures
            self.uart_type == UartType::Pl011 ==> r == (status & PL011_TXFF == 0),
            self.uart_type == UartType::Ns16550a ==> r == (status & NS16550A_THRE != 0),
    {
        match self.uart_type {
            UartType::Pl011 => status & PL011_TXFF == 0,
            UartType::Ns16550a => status & NS16550A_THRE != 0,
        }
    }

    /// The word to store in the data register to send `c`, once the
    /// transmitter is ready; nothing while it is busy.
    pub fn write_char(&self, status: u32, c: u8) -> (r: Option<u32>)
        ensures
            self.uart_type == UartType::Pl011 ==> (r is Some <==> status & PL011_TXFF == 0),
            self.uart_type == UartType::Ns16550a ==> (r is Some <==> status & NS16550A_THRE != 0),
            r matches Some(w) ==> w == c as u32,
    {
        if self.tx_ready(status) {
            Some(c as u32)
        } else {
            None
        }
    }

    /// The bytes to send for `s`, in order.
    pub fn write_str(&self, s: &str) -> (r: Vec<u8>)
        ensures
            r@ == s.spec_bytes(),
    {
        let bytes = s.as_bytes();
        let mut out: Vec<u8> = Vec::new();
        let mut i: usize = 0;
        while i < bytes.len()
            invariant
                bytes@ == s.spec_bytes(),
                i <= bytes@.len(),
                out@ == bytes@.subrange(0, i as int),
            decreases bytes@.len() - i,
        {
            out.push(bytes[i]);
            i = i + 1;
            assert(out@ =~= bytes@.subrange(0, i as int));
        }
        assert(out@ =~= bytes@);
        out
    }
}

} // verus!
