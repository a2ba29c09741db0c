use pkvm_plat::serial::{
    _boot_print_usize, boot_print_str, boot_print_usize, boot_serial_send, el1_reg_name,
    print_el1_reg, Uart, BOOT_SERIAL_BASE, EL1_REG_COUNT,
};

fn shown(num: usize) -> String {
    let mut wire = Vec::new();
    boot_print_usize(&mut wire, num);
    String::from_utf8(wire).unwrap()
}

#[test]
fn uart_keeps_its_base_address() {
    assert_eq!(Uart::new(0x3f8).base_address(), 0x3f8);
    assert_eq!(Uart::new(0).base_address(), 0);
    assert_eq!(Uart::new(usize::MAX).base_address(), usize::MAX);
    assert_eq!(BOOT_SERIAL_BASE, 0x3f8);
}

#[test]
fn uart_put_queues_the_byte_and_returns_it() {
    let uart = Uart::new(0x3f8);
    let mut wire = vec![1u8];
    assert_eq!(uart.put(&mut wire, 0x41), Some(0x41));
    assert_eq!(uart.put(&mut wire, 0), Some(0));
    assert_eq!(wire, vec![1, 0x41, 0]);
}

#[test]
fn serial_send_appends_one_byte() {
    let mut wire = Vec::new();
    boot_serial_send(&mut wire, b'a');
    boot_serial_send(&mut wire, b'b');
    assert_eq!(wire, b"ab".to_vec());
}

#[test]
fn print_str_sends_the_bytes_in_order() {
    let mut wire = b"x".to_vec();
    boot_print_str(&mut wire, "[boot] init boot page table\r\n");
    assert_eq!(wire, b"x[boot] init boot page table\r\n".to_vec());
    boot_print_str(&mut wire, "");
    assert_eq!(wire.len(), 30);
}

#[test]
fn print_str_sends_the_encoding_of_other_characters() {
    let mut wire = Vec::new();
    boot_print_str(&mut wire, "é→");
    assert_eq!(wire, vec![0xc3, 0xa9, 0xe2, 0x86, 0x92]);
}

#[test]
fn zero_is_shown_as_one_digit() {
    assert_eq!(shown(0), "0x0\r\n");
}

#[test]
fn numbers_are_shown_in_lower_case_hexadecimal() {
    assert_eq!(shown(1), "0x1\r\n");
    assert_eq!(shown(9), "0x9\r\n");
    assert_eq!(shown(10), "0xa\r\n");
    assert_eq!(shown(15), "0xf\r\n");
    assert_eq!(shown(16), "0x10\r\n");
    assert_eq!(shown(4096), "0x1000\r\n");
    assert_eq!(shown(0xdead_beef), "0xdeadbeef\r\n");
    assert_eq!(shown(0x0123_4567_89ab_cdef), "0x123456789abcdef\r\n");
    assert_eq!(shown(usize::MAX), format!("0x{:x}\r\n", usize::MAX));
}

#[test]
fn numbers_agree_with_the_standard_formatter() {
    let mut n: usize = 1;
    for _ in 0..60 {
        assert_eq!(shown(n), format!("0x{:x}\r\n", n));
        assert_eq!(shown(n - 1), format!("0x{:x}\r\n", n - 1));
        n = n.wrapping_mul(3).wrapping_add(n >> 2) | 1;
    }
}

#[test]
fn both_print_functions_send_the_same() {
    let mut a = Vec::new();
    let mut b = Vec::new();
    boot_print_usize(&mut a, 0xc600_000a);
    _boot_print_usize(&mut b, 0xc600_000a);
    assert_eq!(a, b);
    assert_eq!(a, b"0xc600000a\r\n".to_vec());
}

#[test]
fn register_names_come_in_dump_order() {
    assert_eq!(EL1_REG_COUNT, 34);
    assert_eq!(el1_reg_name(0), "SCTLR_EL1");
    assert_eq!(el1_reg_name(5), "MPIDR_EL1");
    assert_eq!(el1_reg_name(19), "ID_AA64PFR1_EL1");
    assert_eq!(el1_reg_name(20), "ICC_AP0R0_EL1");
    assert_eq!(el1_reg_name(33), "ICC_SRE_EL1");
}

#[test]
fn register_dump_is_silent_when_switched_off() {
    let mut wire = b"keep".to_vec();
    print_el1_reg(&mut wire, false, &[7; 34]);
    assert_eq!(wire, b"keep".to_vec());
}

#[test]
fn register_dump_has_one_line_per_register() {
    let mut values = [0usize; 34];
    for (i, v) in values.iter_mut().enumerate() {
        *v = i * 0x1111;
    }
    let mut wire = Vec::new();
    print_el1_reg(&mut wire, true, &values);
    let mut expected = String::new();
    for i in 0..34 {
        expected.push_str(&format!("{}: 0x{:x}\r\n", el1_reg_name(i), values[i]));
    }
    assert_eq!(String::from_utf8(wire).unwrap(), expected);
    assert!(expected.starts_with("SCTLR_EL1: 0x0\r\nSPSR_EL1: 0x1111\r\nTCR_EL1: 0x2222\r\n"));
    assert!(expected.ends_with("ICC_SRE_EL1: 0x23331\r\n"));
}
