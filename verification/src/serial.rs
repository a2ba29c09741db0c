//! The early diagnostic console.
//!
//! The functions here compose the bytes that go out on the boot serial port.
//! They append to a transmit buffer; moving the buffer to the port's data
//! register is left to the caller.

use vstd::prelude::*;
use vstd::string::StringSliceAdditionalSpecFns;

verus! {

/// Port address of the boot serial line.
pub const BOOT_SERIAL_BASE: usize = 0x3f8;

/// Number of system registers that `print_el1_reg` dumps.
pub const EL1_REG_COUNT: usize = 34;

/// A NS16550A UART peripheral.
#[derive(Copy, Clone, Debug)]
pub struct Uart {
    /// Base address of the peripheral
    base_address: usize,
}

impl Uart {
    /// The base address that the peripheral was made with.
    pub closed spec fn spec_base_address(&self) -> usize {
        self.base_address
    }

    /// Creates a new instance of `Uart` with the given base address.
    pub fn new(base_address: usize) -> (uart: Self)
        ensures
            uart.spec_base_address() == base_address,
    {
        Self { base_address }
    }

    /// The base address of the peripheral.
    #[verifier::when_used_as_spec(spec_base_address)]
    pub fn base_address(&self) -> (address: usize)
        ensures
            address == self.spec_base_address(),
    {
        self.base_address
    }

    /// Queues `c` for the transmitter holding register and returns `c`.
    pub fn put(&self, wire: &mut Vec<u8>, c: u8) -> (sent: Option<u8>)
        ensures
            sent == Some(c),
            final(wire)@ == old(wire)@.push(c),
    {
        wire.push(c);
        Some(c)
    }
}

/// Sends one byte on the boot serial line.
pub fn boot_serial_send(wire: &mut Vec<u8>, data: u8)
    ensures
        final(wire)@ == old(wire)@.push(data),
{
    let boot_serial = Uart::new(BOOT_SERIAL_BASE);
    let _ = boot_serial.put(wire, data);
}

/// Sends the bytes of `data` in order.
pub fn boot_print_str(wire: &mut Vec<u8>, data: &str)
    ensures
        final(wire)@ == old(wire)@ + data.spec_bytes(),
{
    let bytes = data.as_bytes();
    let mut i: usize = 0;
    while i < bytes.len()
        invariant
            i <= bytes.len(),
            bytes@ == data.spec_bytes(),
            wire@ == old(wire)@ + bytes@.take(i as int),
        decreases bytes.len() - i,
    {
        boot_serial_send(wire, bytes[i]);
        i = i + 1;
    }
}

/// The lower-case hexadecimal digit of a value below 16.
pub open spec fn hex_digit(n: nat) -> u8 {
    if n < 10 {
        (n + 0x30) as u8
    } else {
        (n - 10 + 0x61) as u8
    }
}

/// The hexadecimal digits of `n`, most significant first, without leading
/// zeros: none for zero.
pub open spec fn hex_digits(n: nat) -> Seq<u8>
    decreases n,
{
    if n == 0 {
        Seq::empty()
    } else {
        hex_digits(n / 16).push(hex_digit(n % 16))
    }
}

/// The line that shows `num`: `0x`, its hexadecimal digits (`0` for zero),
/// carriage return and line feed.
pub open spec fn usize_text(num: usize) -> Seq<u8> {
    seq![0x30u8, 0x78u8] + (if num == 0 {
        seq![0x30u8]
    } else {
        hex_digits(num as nat)
    }) + seq![0x0du8, 0x0au8]
}

/// Sends `num` in hexadecimal, followed by a line break.
pub fn _boot_print_usize(wire: &mut Vec<u8>, num: usize)
    ensures
        final(wire)@ == old(wire)@ + usize_text(num),
{
    let mut msg: Vec<u8> = Vec::new();
    let mut num: usize = num;
    let ghost value: usize = num;

    boot_serial_send(wire, 0x30);
    boot_serial_send(wire, 0x78);
    if num == 0 {
        boot_serial_send(wire, 0x30);
    } else {
        while num != 0
            invariant
                hex_digits(value as nat) =~= hex_digits(num as nat) + Seq::new(
                    msg@.len(),
                    |k: int| msg@[msg@.len() - 1 - k],
                ),
            decreases num,
        {
            let nibble: u8 = (num % 16) as u8;
            if nibble < 10 {
                msg.push(nibble + 0x30);
            } else {
                msg.push(nibble - 10 + 0x61);
            }
            num = num / 16;
        }
        let cnt: usize = msg.len();
        let ghost head = wire@;
        let mut i: usize = 0;
        while i < cnt
            invariant
                cnt == msg@.len(),
                i <= cnt,
                wire@ == head + Seq::new(i as nat, |k: int| msg@[cnt - 1 - k]),
            decreases cnt - i,
        {
            boot_serial_send(wire, msg[cnt - i - 1]);
            i = i + 1;
        }
    }
    boot_serial_send(wire, 0x0d);
    boot_serial_send(wire, 0x0a);
}

/// Sends `num` in hexadecimal, followed by a line break.
pub fn boot_print_usize(wire: &mut Vec<u8>, num: usize)
    ensures
        final(wire)@ == old(wire)@ + usize_text(num),
{
    _boot_print_usize(wire, num);
}

/// The system registers that `print_el1_reg` dumps, in order.
pub open spec fn el1_reg_names() -> Seq<&'static str> {
    seq![
        "SCTLR_EL1",
        "SPSR_EL1",
        "TCR_EL1",
        "VBAR_EL1",
        "MAIR_EL1",
        "MPIDR_EL1",
        "TTBR0_EL1",
        "TTBR1_EL1",
        "ID_AA64AFR0_EL1",
        "ID_AA64AFR1_EL1",
        "ID_AA64DFR0_EL1",
        "ID_AA64DFR1_EL1",
        "ID_AA64ISAR0_EL1",
        "ID_AA64ISAR1_EL1",
        "ID_AA64ISAR2_EL1",
        "ID_AA64MMFR0_EL1",
        "ID_AA64MMFR1_EL1",
        "ID_AA64MMFR2_EL1",
        "ID_AA64PFR0_EL1",
        "ID_AA64PFR1_EL1",
        "ICC_AP0R0_EL1",
        "ICC_AP1R0_EL1",
        "ICC_BPR0_EL1",
        "ICC_BPR1_EL1",
        "ICC_CTLR_EL1",
        "ICC_HPPIR0_EL1",
        "ICC_HPPIR1_EL1",
        "ICC_IAR0_EL1",
        "ICC_IAR1_EL1",
        "ICC_IGRPEN0_EL1",
        "ICC_IGRPEN1_EL1",
        "ICC_PMR_EL1",
        "ICC_RPR_EL1",
        "ICC_SRE_EL1",
    ]
}

/// The name of the `index`-th dumped register.
pub fn el1_reg_name(index: usize) -> (name: &'static str)
    requires
        index < EL1_REG_COUNT,
    ensures
        name == el1_reg_names()[index as int],
{
    let names: [&'static str; 34] = [
        "SCTLR_EL1",
        "SPSR_EL1",
        "TCR_EL1",
        "VBAR_EL1",
        "MAIR_EL1",
        "MPIDR_EL1",
        "TTBR0_EL1",
        "TTBR1_EL1",
        "ID_AA64AFR0_EL1",
        "ID_AA64AFR1_EL1",
        "ID_AA64DFR0_EL1",
        "ID_AA64DFR1_EL1",
        "ID_AA64ISAR0_EL1",
        "ID_AA64ISAR1_EL1",
        "ID_AA64ISAR2_EL1",
        "ID_AA64MMFR0_EL1",
        "ID_AA64MMFR1_EL1",
        "ID_AA64MMFR2_EL1",
        "ID_AA64PFR0_EL1",
        "ID_AA64PFR1_EL1",
        "ICC_AP0R0_EL1",
        "ICC_AP1R0_EL1",
        "ICC_BPR0_EL1",
        "ICC_BPR1_EL1",
        "ICC_CTLR_EL1",
        "ICC_HPPIR0_EL1",
        "ICC_HPPIR1_EL1",
        "ICC_IAR0_EL1",
        "ICC_IAR1_EL1",
        "ICC_IGRPEN0_EL1",
        "ICC_IGRPEN1_EL1",
        "ICC_PMR_EL1",
        "ICC_RPR_EL1",
        "ICC_SRE_EL1",
    ];
    names[index]
}

/// The line that shows one register: its name, a colon and a space, and its
/// value.
pub open spec fn reg_line(name: &str, value: usize) -> Seq<u8> {
    name.spec_bytes() + seq![0x3au8, 0x20u8] + usize_text(value)
}

/// The lines of the first `count` registers, with `values[i]` as the value
/// of the `i`-th.
pub open spec fn el1_reg_text(values: Seq<usize>, count: nat) -> Seq<u8>
    decreases count,
{
    if count == 0 {
        Seq::empty()
    } else {
        el1_reg_text(values, (count - 1) as nat) + reg_line(
            el1_reg_names()[count - 1],
            values[count - 1],
        )
    }
}

/// Sends one line per register with the values read from them, if `switch`
/// is set, and nothing otherwise.
pub fn print_el1_reg(wire: &mut Vec<u8>, switch: bool, values: &[usize; 34])
    ensures
        final(wire)@ == old(wire)@ + (if switch {
            el1_reg_text(values@, EL1_REG_COUNT as nat)
        } else {
            Seq::empty()
        }),
{
    if !switch {
        return ;
    }
    let mut i: usize = 0;
    while i < EL1_REG_COUNT
        invariant
            i <= EL1_REG_COUNT,
            wire@ == old(wire)@ + el1_reg_text(values@, i as nat),
        decreases EL1_REG_COUNT - i,
    {
        let name = el1_reg_name(i);
        boot_print_str(wire, name);
        boot_serial_send(wire, 0x3a);
        boot_serial_send(wire, 0x20);
        boot_print_usize(wire, values[i]);
        i = i + 1;
    }
}

} // verus!
