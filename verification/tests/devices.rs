use rax::devices::pl011::{
    Pl011, Pl011MmioDevice, FR_RXFE, FR_TXFE, INT_RX, INT_TX, UARTCR, UARTDR, UARTFR, UARTICR,
    UARTIMSC, UARTMIS, UARTRIS,
};
use rax::devices::s3c64xx::{
    Pl192Vic, S3cPwmTimer, S3cSyscon, S3cUart, TCON, TINT_CSTAT, UINTM, UINTP, URXH, UTRSTAT,
    UTXH,
};

#[test]
fn amba_ids_probe() {
    let mut uart = Pl011::new();
    assert_eq!(uart.read_reg(0xFE0), 0x11);
    assert_eq!(uart.read_reg(0xFE8), 0x14);
    assert_eq!(uart.read_reg(0xFF0), 0x0D);
    assert_eq!(uart.read_reg(0xFFC), 0xB1);
}

#[test]
fn rx_flow_and_interrupt() {
    let mut uart = Pl011::new();
    assert!(!uart.irq_pending());
    assert_eq!(uart.read_reg(UARTFR) & FR_RXFE, FR_RXFE);

    uart.queue_input(b"a");
    // Unmasked: no interrupt yet.
    assert!(!uart.irq_pending());
    uart.write_reg(UARTIMSC, INT_RX);
    assert!(uart.irq_pending());
    assert_eq!(uart.read_reg(UARTFR) & FR_RXFE, 0);

    assert_eq!(uart.read_reg(UARTDR), u32::from(b'a'));
    assert!(!uart.irq_pending());
    assert_eq!(uart.read_reg(UARTFR) & FR_RXFE, FR_RXFE);
}

#[test]
fn tx_interrupt_when_unmasked() {
    let mut uart = Pl011::new();
    assert_eq!(uart.read_reg(UARTRIS) & INT_TX, INT_TX);
    assert_eq!(uart.read_reg(UARTMIS), 0);
    uart.write_reg(UARTIMSC, INT_TX);
    assert_eq!(uart.read_reg(UARTMIS) & INT_TX, INT_TX);
    assert!(uart.irq_pending());
}

#[test]
fn uart_rx_irq_flow() {
    let mut u = S3cUart::new();
    assert!(!u.irq_pending());
    u.queue_input(b"a");
    assert!(u.irq_pending() == (u.uintm() & 1 == 0));
    u.write(UINTM, 0xE); // unmask RXD
    assert!(u.irq_pending());
    assert_eq!(u.read(URXH), u32::from(b'a'));
    assert!(!u.irq_pending());
    assert_eq!(u.read(UTRSTAT) & 1, 0);
}

#[test]
fn vic_enable_and_status() {
    let mut v = Pl192Vic::new();
    v.set_line(5, true);
    assert!(!v.irq_asserted());
    v.write(0x010, 1 << 5);
    assert!(v.irq_asserted());
    assert_eq!(v.read(0x000), 1 << 5);
    v.write(0x014, 1 << 5);
    assert!(!v.irq_asserted());
}

#[test]
fn pwm_timer4_event() {
    let mut t = S3cPwmTimer::new();
    t.write(0x3C, 100); // TCNTB4
    t.write(TCON, 1 << 21); // manual update timer4
    t.write(TCON, (1 << 20) | (1 << 22)); // start + auto-reload
    t.write(TINT_CSTAT, 1 << 4); // enable timer4 int
    t.tick(50);
    assert!(!t.irq_pending(4));
    t.tick(60);
    assert!(t.irq_pending(4));
    // ack
    t.write(TINT_CSTAT, (1 << 4) | (1 << 9));
    assert!(!t.irq_pending(4));
}

#[test]
fn pl011_tx_byte_is_handed_back() {
    let mut uart = Pl011::new();
    assert_eq!(uart.write_reg(UARTDR, 0x141), Some(0x41));
    assert_eq!(uart.write_reg(UARTCR, 0x301), None);
    assert_eq!(uart.read_reg(UARTCR), 0x301);
    // TX FIFO always empty.
    assert_eq!(uart.read_reg(UARTFR) & FR_TXFE, FR_TXFE);
}

#[test]
fn pl011_icr_clears_rx_until_more_input() {
    let mut uart = Pl011::new();
    uart.write_reg(UARTIMSC, INT_RX);
    uart.queue_input(b"xy");
    assert!(uart.irq_pending());
    assert_eq!(uart.read_reg(UARTDR), u32::from(b'x'));
    // One byte left: RX still raised.
    assert!(uart.irq_pending());
    assert_eq!(uart.read_reg(UARTDR), u32::from(b'y'));
    assert!(!uart.irq_pending());
    // Empty queue reads as zero.
    assert_eq!(uart.read_reg(UARTDR), 0);
    uart.write_reg(UARTICR, INT_TX);
    assert_eq!(uart.read_reg(UARTRIS) & INT_TX, INT_TX);
}

#[test]
fn pl011_mmio_lane_access() {
    let mut dev = Pl011MmioDevice::new(0x0900_0000, Pl011::new());
    // A byte write to the second lane of IMSC folds into the register.
    assert_eq!(dev.write(0x0900_0000 + UARTIMSC + 1, &[0x01]), None);
    assert_eq!(dev.device().read_reg(UARTIMSC), 0x100);
    // A word read of the PrimeCell ID byte.
    let mut buf = [0u8; 4];
    dev.read(0x0900_0000 + 0xFE0, &mut buf);
    assert_eq!(buf, [0x11, 0, 0, 0]);
    // CR keeps 16 bits: a word write drops the upper lanes.
    dev.write(0x0900_0000 + UARTCR, &[0x01, 0x03, 0xAA, 0x55]);
    let mut half = [0u8; 2];
    dev.read(0x0900_0000 + UARTCR, &mut half);
    assert_eq!(half, [0x01, 0x03]);
    dev.read(0x0900_0000 + UARTCR + 2, &mut half);
    assert_eq!(half, [0, 0]);
    // DR write on lane 0 transmits.
    assert_eq!(dev.write(0x0900_0000, &[b'z']), Some(b'z'));
    assert_eq!(dev.write(0x0900_0001, &[b'z']), None);
}

#[test]
fn s3c_uart_tx_and_pending_clear() {
    let mut u = S3cUart::new();
    assert_eq!(u.write(UTXH, 0x1_42), Some(0x42));
    assert_eq!(u.read(UINTP) & 4, 4);
    // Write-1-to-clear re-latches TXD.
    assert_eq!(u.write(UINTP, 0xF), None);
    assert_eq!(u.read(UINTP), 4);
    u.queue_input(b"q");
    u.write(UINTP, 1);
    assert_eq!(u.read(UINTP) & 1, 1);
    assert_eq!(u.read(UTRSTAT), 7);
    assert_eq!(u.read(URXH), u32::from(b'q'));
    assert_eq!(u.read(UTRSTAT), 6);
}

#[test]
fn vic_fiq_routing_and_soft() {
    let mut v = Pl192Vic::new();
    v.write(0x018, 1 << 3); // soft interrupt 3
    v.write(0x010, 1 << 3);
    assert!(v.irq_asserted());
    v.write(0x00C, 1 << 3); // route to FIQ
    assert!(!v.irq_asserted());
    assert!(v.fiq_asserted());
    assert_eq!(v.read(0x004), 1 << 3);
    v.write(0x01C, 1 << 3);
    assert!(!v.fiq_asserted());
    assert_eq!(v.read(0xFE0), 0x92);
}

#[test]
fn pwm_one_shot_stops() {
    let mut t = S3cPwmTimer::new();
    t.write(0x3C, 10);
    t.write(TCON, 1 << 21);
    t.write(TCON, 1 << 20); // start, no auto-reload
    assert_eq!(t.read(0x40), 10);
    t.tick(4);
    assert_eq!(t.read(0x40), 6);
    t.tick(100);
    assert_eq!(t.read(0x40), 0);
    // One-shot expiry clears the start bit.
    assert_eq!(t.read(TCON) & (1 << 20), 0);
    t.write(TINT_CSTAT, 1 << 4);
    assert!(t.irq_pending(4));
}

#[test]
fn syscon_reset_values_and_storage() {
    let mut s = S3cSyscon::new();
    assert_eq!(s.read(0x118), 0x3641_0101);
    assert_eq!(s.read(0x0C), 0x810A_0301);
    assert_eq!(s.read(0x14), 0x8020_0102);
    assert_eq!(s.read(0x1C), 0x7);
    // Chip ID is read-only.
    s.write(0x118, 0);
    assert_eq!(s.read(0x118), 0x3641_0101);
    s.write(0x20, 0xDEAD_BEEF);
    assert_eq!(s.read(0x20), 0xDEAD_BEEF);
    // Out-of-window accesses read zero and are dropped.
    s.write(0x10_0000, 5);
    assert_eq!(s.read(0x10_0000), 0);
}

#[test]
fn pwm_timer4_auto_reload_keeps_running() {
    let mut t = S3cPwmTimer::new();
    t.write(0x3C, 100);
    t.write(TCON, 1 << 21);
    t.write(TCON, (1 << 20) | (1 << 22));
    t.write(TINT_CSTAT, 1 << 4);
    t.tick(50);
    let p1 = t.irq_pending(4);
    t.tick(60);
    assert!(!p1 && t.irq_pending(4));
    assert_eq!(t.read(0x40), 90);
    assert_eq!((t.read(TCON) >> 20) & 1, 1);
}
