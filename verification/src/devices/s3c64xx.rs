//! Samsung S3C64xx platform devices for the ARMv6 machine.
//!
//! Enough of the SoC for an `s3c6400_defconfig` kernel booting the
//! `s3c6410-smdk6410` device tree on the software emulator:
//!
//! - [`S3cUart`]: the Samsung SoC UART (`samsung,s3c6400-uart`), console
//!   `ttySAC0`. A write of the TX register hands the byte to transmit back
//!   to the caller; RX is fed by the VMM console mux and raises a VIC line.
//! - [`Pl192Vic`]: ARM PL192 vectored interrupt controller (the kernel's
//!   `irq-vic` driver only uses the status/enable register interface).
//! - [`S3cPwmTimer`]: the PWM timer block used by `samsung_pwm_timer` as
//!   clocksource + clockevents (timer 4 events, timer 3 source).
//! - [`S3cSyscon`]: RAM-backed system controller (PLL/clock registers with
//!   sane reset values, chip ID) for the `samsung,s3c6410-clock` driver.

use std::collections::VecDeque;
use vstd::prelude::*;

verus! {

// =============================================================================
// Samsung UART (S3C6400 style)
// =============================================================================

pub const ULCON: u32 = 0x00;
pub const UCON: u32 = 0x04;
pub const UFCON: u32 = 0x08;
pub const UMCON: u32 = 0x0C;
pub const UTRSTAT: u32 = 0x10;
pub const UERSTAT: u32 = 0x14;
pub const UFSTAT: u32 = 0x18;
pub const UMSTAT: u32 = 0x1C;
pub const UTXH: u32 = 0x20;
pub const URXH: u32 = 0x24;
pub const UBRDIV: u32 = 0x28;
pub const UDIVSLOT: u32 = 0x2C;
pub const UINTP: u32 = 0x30;
pub const UINTSP: u32 = 0x34;
pub const UINTM: u32 = 0x38;

/// Samsung SoC UART. Interrupt model is the S3C64xx style with the
/// per-UART UINTP/UINTM (pending/mask) registers feeding one VIC line.
pub struct S3cUart {
    rx: VecDeque<u8>,
    ulcon: u32,
    ucon: u32,
    ufcon: u32,
    umcon: u32,
    ubrdiv: u32,
    udivslot: u32,
    /// Interrupt pending (bit0 RXD, bit1 ERROR, bit2 TXD, bit3 MODEM).
    uintp: u32,
    uintm: u32,
}

/// Abstract state of the UART.
pub struct UartState {
    pub rx: Seq<u8>,
    pub ulcon: u32,
    pub ucon: u32,
    pub ufcon: u32,
    pub umcon: u32,
    pub ubrdiv: u32,
    pub udivslot: u32,
    pub uintp: u32,
    pub uintm: u32,
}

impl View for S3cUart {
    type V = UartState;

    closed spec fn view(&self) -> UartState {
        UartState {
            rx: self.rx@,
            ulcon: self.ulcon,
            ucon: self.ucon,
            ufcon: self.ufcon,
            umcon: self.umcon,
            ubrdiv: self.ubrdiv,
            udivslot: self.udivslot,
            uintp: self.uintp,
            uintm: self.uintm,
        }
    }
}

/// Value a UART register read returns.
pub open spec fn uart_read_value(s: UartState, offset: u32) -> u32 {
    if offset == ULCON {
        s.ulcon
    } else if offset == UCON {
        s.ucon
    } else if offset == UFCON {
        s.ufcon
    } else if offset == UMCON {
        s.umcon
    } else if offset == UTRSTAT {
        // TX buffer + transmitter always empty; RX ready when queued.
        if s.rx.len() > 0 {
            7
        } else {
            6
        }
    } else if offset == UFSTAT {
        // RX FIFO count in [5:0].
        if s.rx.len() < 63 {
            s.rx.len() as u32
        } else {
            63
        }
    } else if offset == URXH {
        if s.rx.len() > 0 {
            s.rx[0] as u32
        } else {
            0
        }
    } else if offset == UBRDIV {
        s.ubrdiv
    } else if offset == UDIVSLOT {
        s.udivslot
    } else if offset == UINTP || offset == UINTSP {
        s.uintp
    } else if offset == UINTM {
        s.uintm
    } else {
        0
    }
}

/// State after a UART register read: URXH pops the oldest byte and RXD
/// pending follows whether more remain.
pub open spec fn uart_after_read(s: UartState, offset: u32) -> UartState {
    if offset == URXH {
        let rx = if s.rx.len() > 0 {
            s.rx.drop_first()
        } else {
            s.rx
        };
        UartState {
            rx,
            uintp: if rx.len() == 0 {
                s.uintp & !1u32
            } else {
                s.uintp | 1
            },
            ..s
        }
    } else {
        s
    }
}

/// State after a UART register write.
pub open spec fn uart_after_write(s: UartState, offset: u32, value: u32) -> UartState {
    if offset == ULCON {
        UartState { ulcon: value, ..s }
    } else if offset == UCON {
        UartState { ucon: value, ..s }
    } else if offset == UFCON {
        UartState { ufcon: value, ..s }
    } else if offset == UMCON {
        UartState { umcon: value, ..s }
    } else if offset == UTXH {
        // TX completes instantly; TXD pending is latched.
        UartState { uintp: s.uintp | 4, ..s }
    } else if offset == UBRDIV {
        UartState { ubrdiv: value, ..s }
    } else if offset == UDIVSLOT {
        UartState { udivslot: value, ..s }
    } else if offset == UINTP || offset == UINTSP {
        // Write-1-to-clear; RX re-latches while bytes are queued, TX always.
        let p = s.uintp & !value;
        let p1 = if s.rx.len() > 0 {
            p | 1
        } else {
            p
        };
        UartState { uintp: p1 | 4, ..s }
    } else if offset == UINTM {
        UartState { uintm: value, ..s }
    } else {
        s
    }
}

impl S3cUart {
    pub fn new() -> (r: Self)
        ensures
            r@ == (UartState {
                rx: Seq::empty(),
                ulcon: 0,
                ucon: 0,
                ufcon: 0,
                umcon: 0,
                ubrdiv: 0,
                udivslot: 0,
                uintp: 4,
                uintm: 0xF,
            }),
    {
        S3cUart {
            rx: VecDeque::new(),
            ulcon: 0,
            ucon: 0,
            ufcon: 0,
            umcon: 0,
            ubrdiv: 0,
            udivslot: 0,
            // TXD pending is level-like: our TX path completes instantly,
            // so "FIFO below trigger" is always true. The driver gates it
            // with UINTM (start_tx unmasks, stop_tx masks).
            uintp: 4,
            uintm: 0xF,
        }
    }

    /// The interrupt mask register.
    pub fn uintm(&self) -> (r: u32)
        ensures
            r == self@.uintm,
    {
        self.uintm
    }

    /// Queue host console input; non-empty input raises RXD pending.
    pub fn queue_input(&mut self, bytes: &[u8])
        ensures
            bytes@.len() == 0 ==> final(self)@ == old(self)@,
            bytes@.len() > 0 ==> final(self)@ == (UartState {
                rx: old(self)@.rx + bytes@,
                uintp: old(self)@.uintp | 1,
                ..old(self)@
            }),
    {
        if bytes.len() != 0 {
            let mut i: usize = 0;
            while i < bytes.len()
                invariant
                    i <= bytes.len(),
                    self@ == (UartState { rx: old(self)@.rx + bytes@.take(i as int), ..old(self)@ }),
                decreases bytes.len() - i,
            {
                self.rx.push_back(bytes[i]);
                i += 1;
                assert(self@.rx =~= old(self)@.rx + bytes@.take(i as int));
            }
            assert(bytes@.take(i as int) =~= bytes@);
            self.uintp |= 1;  // RXD pending
        }
    }

    /// Level of the UART's VIC line.
    pub fn irq_pending(&self) -> (r: bool)
        ensures
            r == (self@.uintp & !self@.uintm != 0),
    {
        self.uintp & !self.uintm != 0
    }

    pub fn read(&mut self, offset: u32) -> (r: u32)
        ensures
            r == uart_read_value(old(self)@, offset),
            final(self)@ == uart_after_read(old(self)@, offset),
    {
        match offset {
            0x00 => self.ulcon,
            0x04 => self.ucon,
            0x08 => self.ufcon,
            0x0C => self.umcon,
            // UTRSTAT: TX buffer + transmitter always empty; RX ready when queued.
            0x10 => if self.rx.len() != 0 {
                7
            } else {
                6
            },
            // UFSTAT: RX FIFO count in [5:0] (s3c64xx layout: [6] full).
            0x18 => if self.rx.len() < 63 {
                self.rx.len() as u32
            } else {
                63
            },
            // URXH
            0x24 => {
                let b = match self.rx.pop_front() {
                    Some(b) => b as u32,
                    None => 0,
                };
                if self.rx.len() == 0 {
                    self.uintp &= !1;
                } else {
                    self.uintp |= 1;
                }
                b
            },
            0x28 => self.ubrdiv,
            0x2C => self.udivslot,
            0x30 | 0x34 => self.uintp,  // UINTP / UINTSP
            0x38 => self.uintm,
            _ => 0,
        }
    }

    /// Write a register. A write of UTXH returns the byte to transmit.
    pub fn write(&mut self, offset: u32, value: u32) -> (tx: Option<u8>)
        ensures
            final(self)@ == uart_after_write(old(self)@, offset, value),
            tx == if offset == UTXH {
                Some(value as u8)
            } else {
                None::<u8>
            },
    {
        match offset {
            0x00 => self.ulcon = value,
            0x04 => self.ucon = value,
            0x08 => self.ufcon = value,
            0x0C => self.umcon = value,
            0x20 => {
                // UTXH: TX completes instantly; latch TXD pending so
                // irq-driven transmit makes progress when unmasked.
                self.uintp |= 4;
                return Some(value as u8);
            },
            0x28 => self.ubrdiv = value,
            0x2C => self.udivslot = value,
            // UINTP/UINTSP: write-1-to-clear; level-style sources re-latch
            // immediately (RX while the queue is non-empty, TX always since
            // the FIFO is always empty).
            0x30 | 0x34 => {
                self.uintp &= !value;
                if self.rx.len() != 0 {
                    self.uintp |= 1;
                }
                self.uintp |= 4;
            },
            0x38 => self.uintm = value,
            _ => {},
        }
        None
    }
}

impl Default for S3cUart {
    fn default() -> (r: Self)
        ensures
            r@.rx.len() == 0,
            r@.uintp == 4,
            r@.uintm == 0xF,
    {
        Self::new()
    }
}

// =============================================================================
// PL192 Vectored Interrupt Controller
// =============================================================================

/// ARM PL192 VIC. The Linux `irq-vic` driver uses IRQSTATUS + the enable
/// registers; vectored operation is not required.
pub struct Pl192Vic {
    raw: u32,
    soft: u32,
    /// 1 = FIQ
    select: u32,
    enable: u32,
}

/// Abstract state of the VIC: raw lines, soft interrupts, FIQ select,
/// enables.
pub struct VicState {
    pub raw: u32,
    pub soft: u32,
    pub select: u32,
    pub enable: u32,
}

impl View for Pl192Vic {
    type V = VicState;

    closed spec fn view(&self) -> VicState {
        VicState { raw: self.raw, soft: self.soft, select: self.select, enable: self.enable }
    }
}

/// Enabled active sources routed to IRQ.
pub open spec fn irq_status(s: VicState) -> u32 {
    (s.raw | s.soft) & s.enable & !s.select
}

/// Enabled active sources routed to FIQ.
pub open spec fn fiq_status(s: VicState) -> u32 {
    (s.raw | s.soft) & s.enable & s.select
}

/// Value of a VIC register read.
pub open spec fn vic_read_value(s: VicState, offset: u32) -> u32 {
    if offset == 0x000 {
        irq_status(s)
    } else if offset == 0x004 {
        fiq_status(s)
    } else if offset == 0x008 {
        s.raw | s.soft
    } else if offset == 0x00C {
        s.select
    } else if offset == 0x010 {
        s.enable
    } else if offset == 0x018 {
        s.soft
    } else if offset == 0xFE0 {
        0x92
    } else if offset == 0xFE4 {
        0x11
    } else if offset == 0xFE8 {
        0x04
    } else if offset == 0xFF0 {
        0x0D
    } else if offset == 0xFF4 {
        0xF0
    } else if offset == 0xFF8 {
        0x05
    } else if offset == 0xFFC {
        0xB1
    } else {
        0
    }
}

/// State after a VIC register write.
pub open spec fn vic_after_write(s: VicState, offset: u32, value: u32) -> VicState {
    if offset == 0x00C {
        VicState { select: value, ..s }
    } else if offset == 0x010 {
        VicState { enable: s.enable | value, ..s }
    } else if offset == 0x014 {
        VicState { enable: s.enable & !value, ..s }
    } else if offset == 0x018 {
        VicState { soft: s.soft | value, ..s }
    } else if offset == 0x01C {
        VicState { soft: s.soft & !value, ..s }
    } else {
        s
    }
}

impl Pl192Vic {
    pub fn new() -> (r: Self)
        ensures
            r@ == (VicState { raw: 0, soft: 0, select: 0, enable: 0 }),
    {
        Pl192Vic { raw: 0, soft: 0, select: 0, enable: 0 }
    }

    /// Drive a peripheral input line level.
    pub fn set_line(&mut self, line: u32, level: bool)
        requires
            line < 32,
        ensures
            final(self)@ == (VicState {
                raw: if level {
                    old(self)@.raw | (1u32 << line)
                } else {
                    old(self)@.raw & !(1u32 << line)
                },
                ..old(self)@
            }),
    {
        if level {
            self.raw |= 1 << line;
        } else {
            self.raw &= !(1 << line);
        }
    }

    pub fn irq_asserted(&self) -> (r: bool)
        ensures
            r == (irq_status(self@) != 0),
    {
        (self.raw | self.soft) & self.enable & !self.select != 0
    }

    pub fn fiq_asserted(&self) -> (r: bool)
        ensures
            r == (fiq_status(self@) != 0),
    {
        (self.raw | self.soft) & self.enable & self.select != 0
    }

    pub fn read(&mut self, offset: u32) -> (r: u32)
        ensures
            r == vic_read_value(old(self)@, offset),
            final(self)@ == old(self)@,
    {
        match offset {
            0x000 => (self.raw | self.soft) & self.enable & !self.select,  // IRQSTATUS
            0x004 => (self.raw | self.soft) & self.enable & self.select,  // FIQSTATUS
            0x008 => self.raw | self.soft,  // RAWINTR
            0x00C => self.select,
            0x010 => self.enable,
            0x018 => self.soft,
            // Peripheral/PrimeCell IDs (PL192).
            0xFE0 => 0x92,
            0xFE4 => 0x11,
            0xFE8 => 0x04,
            0xFEC => 0x00,
            0xFF0 => 0x0D,
            0xFF4 => 0xF0,
            0xFF8 => 0x05,
            0xFFC => 0xB1,
            _ => 0,
        }
    }

    pub fn write(&mut self, offset: u32, value: u32)
        ensures
            final(self)@ == vic_after_write(old(self)@, offset, value),
    {
        match offset {
            0x00C => self.select = value,
            0x010 => self.enable |= value,  // INTENABLE: set bits
            0x014 => self.enable &= !value,  // INTENCLEAR
            0x018 => self.soft |= value,
            0x01C => self.soft &= !value,
            _ => {},
        }
    }
}

impl Default for Pl192Vic {
    fn default() -> (r: Self)
        ensures
            r@ == (VicState { raw: 0, soft: 0, select: 0, enable: 0 }),
    {
        Self::new()
    }
}

// =============================================================================
// Samsung PWM timer block (clocksource / clockevents)
// =============================================================================

pub const TCFG0: u32 = 0x00;
pub const TCFG1: u32 = 0x04;
pub const TCON: u32 = 0x08;
pub const TINT_CSTAT: u32 = 0x44;

/// PWM timer block. Timers count DOWN from TCNTB at a rate derived from
/// pclk/prescaler/divider; we advance them from the vCPU's instruction
/// clock via [`Self::tick`]. Timer 4 raises its TINT_CSTAT status (the
/// clockevent); the others mostly serve as the free-running clocksource.
pub struct S3cPwmTimer {
    tcfg0: u32,
    tcfg1: u32,
    tcon: u32,
    tcntb: [u32; 5],
    tcomp: [u32; 4],
    /// Current down-counters (fixed point: 32.16 fractional ticks).
    tcnt: [u64; 5],
    tint_cstat: u32,
}

/// Abstract state of the timer block.
pub struct PwmState {
    pub tcfg0: u32,
    pub tcfg1: u32,
    pub tcon: u32,
    pub tcntb: Seq<u32>,
    pub tcomp: Seq<u32>,
    pub tcnt: Seq<u64>,
    pub tint_cstat: u32,
}

impl View for S3cPwmTimer {
    type V = PwmState;

    closed spec fn view(&self) -> PwmState {
        PwmState {
            tcfg0: self.tcfg0,
            tcfg1: self.tcfg1,
            tcon: self.tcon,
            tcntb: self.tcntb@,
            tcomp: self.tcomp@,
            tcnt: self.tcnt@,
            tint_cstat: self.tint_cstat,
        }
    }
}

/// TCON bit of timer `t`'s start control.
pub open spec fn start_bit_of(t: int) -> u32 {
    if t == 0 {
        0
    } else if t == 1 {
        8
    } else if t == 2 {
        12
    } else if t == 3 {
        16
    } else {
        20
    }
}

/// Count `remaining` ticks down by `budget`: on each expiry the counter
/// reloads from `rl` (when auto-reload is on and `rl` is not zero) or stops
/// at zero. Result: (remaining, whether it expired, whether it stopped).
pub open spec fn count_down(remaining: u64, budget: u64, reload: bool, rl: u64) -> (u64, bool, bool)
    decreases budget, (if remaining == 0 {
        1int
    } else {
        0int
    }),
{
    if remaining >= budget {
        ((remaining - budget) as u64, false, false)
    } else if !reload || rl == 0 {
        (0, true, true)
    } else {
        let r = count_down(rl, (budget - remaining) as u64, reload, rl);
        (r.0, true, r.2)
    }
}

/// TCON bit that turns on auto-reload for timer `t`: start + 3 for timers
/// 0..3; timer 4 has no inverter bit, so its auto-reload is start + 2.
pub open spec fn reload_bit_of(t: int) -> int {
    if t == 4 {
        start_bit_of(t) + 2
    } else {
        start_bit_of(t) + 3
    }
}

/// Whether timer `t` auto-reloads.
pub open spec fn auto_reload(tcon: u32, t: int) -> bool {
    (tcon >> (reload_bit_of(t) as u32)) & 1 == 1 || (t == 0 && (tcon >> 3) & 1 == 1)
}

/// The timer block after advancing timer `t` by `ticks`.
pub open spec fn timer_advanced(s: PwmState, t: int, ticks: u64) -> PwmState {
    let start = start_bit_of(t);
    if (s.tcon >> start) & 1 == 0 {
        s
    } else {
        let (rem, expired, stopped) = count_down(
            s.tcnt[t] >> 16,
            ticks,
            auto_reload(s.tcon, t),
            s.tcntb[t] as u64,
        );
        PwmState {
            tcnt: s.tcnt.update(t, rem << 16),
            tint_cstat: if expired {
                s.tint_cstat | (1u32 << ((5 + t) as u32))
            } else {
                s.tint_cstat
            },
            tcon: if stopped {
                s.tcon & !(1u32 << start)
            } else {
                s.tcon
            },
            ..s
        }
    }
}

/// The timer block after advancing timers `0..t` by `ticks`, in order.
pub open spec fn timers_advanced(s: PwmState, t: nat, ticks: u64) -> PwmState
    decreases t,
{
    if t == 0 {
        s
    } else {
        timer_advanced(timers_advanced(s, (t - 1) as nat, ticks), t - 1, ticks)
    }
}

/// Value of a timer register read.
pub open spec fn pwm_read_value(s: PwmState, offset: u32) -> u32 {
    if offset == TCFG0 {
        s.tcfg0
    } else if offset == TCFG1 {
        s.tcfg1
    } else if offset == TCON {
        s.tcon
    } else if offset == 0x0C {
        s.tcntb[0]
    } else if offset == 0x10 {
        s.tcomp[0]
    } else if offset == 0x14 {
        (s.tcnt[0] >> 16) as u32
    } else if offset == 0x18 {
        s.tcntb[1]
    } else if offset == 0x1C {
        s.tcomp[1]
    } else if offset == 0x20 {
        (s.tcnt[1] >> 16) as u32
    } else if offset == 0x24 {
        s.tcntb[2]
    } else if offset == 0x28 {
        s.tcomp[2]
    } else if offset == 0x2C {
        (s.tcnt[2] >> 16) as u32
    } else if offset == 0x30 {
        s.tcntb[3]
    } else if offset == 0x34 {
        s.tcomp[3]
    } else if offset == 0x38 {
        (s.tcnt[3] >> 16) as u32
    } else if offset == 0x3C {
        s.tcntb[4]
    } else if offset == 0x40 {
        (s.tcnt[4] >> 16) as u32
    } else if offset == TINT_CSTAT {
        s.tint_cstat
    } else {
        0
    }
}

/// Whether a TCON value requests a manual update of timer `t`.
pub open spec fn manual_update(value: u32, t: int) -> bool {
    if t == 0 {
        (value >> 1) & 1 == 1
    } else {
        (value >> ((start_bit_of(t) + 1) as u32)) & 1 == 1
    }
}

/// Counters after a TCON write: timers with the manual-update bit get
/// their TCNTB (timers `0..t` considered).
pub open spec fn manual_loaded(s: PwmState, value: u32, t: nat) -> Seq<u64>
    decreases t,
{
    if t == 0 {
        s.tcnt
    } else {
        let prev = manual_loaded(s, value, (t - 1) as nat);
        if manual_update(value, t - 1) {
            prev.update(t - 1, (s.tcntb[t - 1] as u64) << 16)
        } else {
            prev
        }
    }
}

/// State after a timer register write.
pub open spec fn pwm_after_write(s: PwmState, offset: u32, value: u32) -> PwmState {
    if offset == TCFG0 {
        PwmState { tcfg0: value, ..s }
    } else if offset == TCFG1 {
        PwmState { tcfg1: value, ..s }
    } else if offset == TCON {
        PwmState { tcnt: manual_loaded(s, value, 5), tcon: value, ..s }
    } else if offset == 0x0C {
        PwmState { tcntb: s.tcntb.update(0, value), ..s }
    } else if offset == 0x10 {
        PwmState { tcomp: s.tcomp.update(0, value), ..s }
    } else if offset == 0x18 {
        PwmState { tcntb: s.tcntb.update(1, value), ..s }
    } else if offset == 0x1C {
        PwmState { tcomp: s.tcomp.update(1, value), ..s }
    } else if offset == 0x24 {
        PwmState { tcntb: s.tcntb.update(2, value), ..s }
    } else if offset == 0x28 {
        PwmState { tcomp: s.tcomp.update(2, value), ..s }
    } else if offset == 0x30 {
        PwmState { tcntb: s.tcntb.update(3, value), ..s }
    } else if offset == 0x34 {
        PwmState { tcomp: s.tcomp.update(3, value), ..s }
    } else if offset == 0x3C {
        PwmState { tcntb: s.tcntb.update(4, value), ..s }
    } else if offset == TINT_CSTAT {
        // [4:0] enables (RW), [9:5] status (write-1-to-clear).
        let ena = value & 0x1F;
        let clr = (value >> 5) & 0x1F;
        PwmState { tint_cstat: (s.tint_cstat & !0x1Fu32 & !(clr << 5)) | ena, ..s }
    } else {
        s
    }
}

impl S3cPwmTimer {
    pub fn new() -> (r: Self)
        ensures
            r@.tcfg0 == 0x0101,
            r@.tcfg1 == 0,
            r@.tcon == 0,
            r@.tcntb == Seq::new(5, |i: int| 0u32),
            r@.tcomp == Seq::new(4, |i: int| 0u32),
            r@.tcnt == Seq::new(5, |i: int| 0u64),
            r@.tint_cstat == 0,
    {
        let r = S3cPwmTimer {
            tcfg0: 0x0101,
            tcfg1: 0,
            tcon: 0,
            tcntb: [0;5],
            tcomp: [0;4],
            tcnt: [0;5],
            tint_cstat: 0,
        };
        assert(r@.tcntb =~= Seq::new(5, |i: int| 0u32));
        assert(r@.tcomp =~= Seq::new(4, |i: int| 0u32));
        assert(r@.tcnt =~= Seq::new(5, |i: int| 0u64));
        r
    }

    fn start_bit(timer: usize) -> (r: u32)
        ensures
            r == start_bit_of(timer as int),
            r <= 20,
    {
        match timer {
            0 => 0,
            1 => 8,
            2 => 12,
            3 => 16,
            _ => 20,
        }
    }

    /// Count down `remaining` by `budget` ticks (see `count_down`).
    fn count_down(start: u64, ticks: u64, reload: bool, rl: u64) -> (r: (u64, bool, bool))
        ensures
            r == count_down(start, ticks, reload, rl),
    {
        let mut remaining = start;
        let mut budget = ticks;
        let mut expired = false;
        loop
            invariant
                ({
                    let x = count_down(remaining, budget, reload, rl);
                    count_down(start, ticks, reload, rl) == (x.0, x.1 || expired, x.2)
                }),
            decreases budget, (if remaining == 0 {
                1int
            } else {
                0int
            }),
        {
            if remaining >= budget {
                remaining -= budget;
                return (remaining, expired, false);
            }
            budget -= remaining;
            // expiry
            expired = true;
            if !reload || rl == 0 {
                // auto-stop without reload
                return (0, true, true);
            }
            remaining = rl;
        }
    }

    /// Advance all running timers by `ticks` timer-input cycles (we use a
    /// fixed ratio from the instruction clock; precise PLL math is not
    /// needed for a functional clocksource).
    pub fn tick(&mut self, ticks: u64)
        ensures
            final(self)@ == timers_advanced(old(self)@, 5, ticks),
    {
        let mut t: usize = 0;
        while t < 5
            invariant
                t <= 5,
                self@ == timers_advanced(old(self)@, t as nat, ticks),
            decreases 5 - t,
        {
            let start = Self::start_bit(t);
            if (self.tcon >> start) & 1 != 0 {
                let reload_bit = if t == 4 {
                    start + 2
                } else {
                    start + 3
                };
                let reload = (self.tcon >> reload_bit) & 1 == 1 || (t == 0 && (self.tcon >> 3) & 1
                    == 1);
                let (remaining, expired, stopped) = Self::count_down(
                    self.tcnt[t] >> 16,
                    ticks,
                    reload,
                    self.tcntb[t] as u64,
                );
                if expired {
                    // status bit for the timer
                    self.tint_cstat |= 1 << (5 + t as u32);
                }
                if stopped {
                    // auto-stop without reload
                    self.tcon &= !(1 << start);
                }
                self.tcnt[t] = remaining << 16;
            }
            t += 1;
            assert(self@.tcnt =~= timers_advanced(old(self)@, t as nat, ticks).tcnt);
        }
    }

    /// Any enabled timer interrupt pending? (One VIC line per timer; the
    /// caller maps them.)
    pub fn irq_pending(&self, timer: usize) -> (r: bool)
        requires
            timer < 5,
        ensures
            r == ((self@.tint_cstat >> (timer as u32)) & 1 == 1 && (self@.tint_cstat >> ((5
                + timer) as u32)) & 1 == 1),
    {
        let ena = (self.tint_cstat >> timer as u32) & 1 == 1;
        let sta = (self.tint_cstat >> (5 + timer as u32)) & 1 == 1;
        ena && sta
    }

    pub fn read(&mut self, offset: u32) -> (r: u32)
        ensures
            r == pwm_read_value(old(self)@, offset),
            final(self)@ == old(self)@,
    {
        match offset {
            0x00 => self.tcfg0,
            0x04 => self.tcfg1,
            0x08 => self.tcon,
            // TCNTB / compare buffer / TCNTO per timer.
            0x0C => self.tcntb[0],
            0x10 => self.tcomp[0],
            0x14 => (self.tcnt[0] >> 16) as u32,
            0x18 => self.tcntb[1],
            0x1C => self.tcomp[1],
            0x20 => (self.tcnt[1] >> 16) as u32,
            0x24 => self.tcntb[2],
            0x28 => self.tcomp[2],
            0x2C => (self.tcnt[2] >> 16) as u32,
            0x30 => self.tcntb[3],
            0x34 => self.tcomp[3],
            0x38 => (self.tcnt[3] >> 16) as u32,
            0x3C => self.tcntb[4],
            0x40 => (self.tcnt[4] >> 16) as u32,
            0x44 => self.tint_cstat,
            _ => 0,
        }
    }

    pub fn write(&mut self, offset: u32, value: u32)
        ensures
            final(self)@ == pwm_after_write(old(self)@, offset, value),
    {
        match offset {
            0x00 => self.tcfg0 = value,
            0x04 => self.tcfg1 = value,
            0x08 => {
                // Manual update bits copy TCNTB into the live counter.
                let mut t: usize = 0;
                while t < 5
                    invariant
                        t <= 5,
                        self@ == (PwmState {
                            tcnt: manual_loaded(old(self)@, value, t as nat),
                            ..old(self)@
                        }),
                    decreases 5 - t,
                {
                    let start = Self::start_bit(t);
                    let manual = if t == 0 {
                        (value >> 1) & 1 == 1
                    } else {
                        (value >> (start + 1)) & 1 == 1
                    };
                    if manual {
                        self.tcnt[t] = (self.tcntb[t] as u64) << 16;
                    }
                    t += 1;
                    assert(self@.tcnt =~= manual_loaded(old(self)@, value, t as nat));
                }
                self.tcon = value;
            },
            0x0C => self.tcntb[0] = value,
            0x10 => self.tcomp[0] = value,
            0x18 => self.tcntb[1] = value,
            0x1C => self.tcomp[1] = value,
            0x24 => self.tcntb[2] = value,
            0x28 => self.tcomp[2] = value,
            0x30 => self.tcntb[3] = value,
            0x34 => self.tcomp[3] = value,
            0x3C => self.tcntb[4] = value,
            0x44 => {
                // [4:0] enables (RW), [9:5] status (write-1-to-clear).
                let ena = value & 0x1F;
                let clr = (value >> 5) & 0x1F;
                self.tint_cstat = (self.tint_cstat & !(0x1F) & !(clr << 5)) | ena;
            },
            _ => {},
        }
    }
}

impl Default for S3cPwmTimer {
    fn default() -> (r: Self)
        ensures
            r@.tcon == 0,
            r@.tint_cstat == 0,
    {
        Self::new()
    }
}

// =============================================================================
// System controller (clock/PLL block + chip ID)
// =============================================================================

/// RAM-backed SYSCON at 0x7E00F000 with reset values the
/// `samsung,s3c6410-clock` driver can work with (fin = 12 MHz).
pub struct S3cSyscon {
    regs: Vec<u32>,
}

/// Reset value of SYSCON word `i` (byte offset `4 * i`).
pub open spec fn syscon_reset(i: int) -> u32 {
    if i == 3 || i == 4 {
        // APLL/MPLL: enabled, 532 MHz from 12 MHz fin (m=266, p=3, s=1).
        0x810A_0301
    } else if i == 5 {
        // EPLL: ~96 MHz (m=32, p=1, s=2).
        0x8020_0102
    } else if i == 7 {
        // CLK_SRC: APLL/MPLL/EPLL selected as PLL outputs.
        0x7
    } else if i == 8 {
        // CLK_DIV0: ARM /1, HCLKx2 /2, HCLK /2, PCLK /4.
        0x0105_1000
    } else if i == 70 {
        // Chip ID (S3C6410 rev 1).
        0x3641_0101
    } else {
        0
    }
}

impl S3cSyscon {
    /// The register words.
    pub closed spec fn words(&self) -> Seq<u32> {
        self.regs@
    }

    pub fn new() -> (r: Self)
        ensures
            r.words() == Seq::new(0x400, |i: int| syscon_reset(i)),
    {
        let mut regs: Vec<u32> = Vec::new();
        let mut i: usize = 0;
        while i < 0x400
            invariant
                i <= 0x400,
                regs@ == Seq::new(i as nat, |k: int| 0u32),
            decreases 0x400 - i,
        {
            regs.push(0);
            i += 1;
            assert(regs@ =~= Seq::new(i as nat, |k: int| 0u32));
        }
        regs.set(0x0C / 4, 0x810A_0301);
        regs.set(0x10 / 4, 0x810A_0301);
        regs.set(0x14 / 4, 0x8020_0102);
        regs.set(0x18 / 4, 0);
        regs.set(0x1C / 4, 0x7);
        regs.set(0x20 / 4, 0x0105_1000);
        regs.set(0x118 / 4, 0x3641_0101);
        assert(regs@ =~= Seq::new(0x400, |i: int| syscon_reset(i)));
        S3cSyscon { regs }
    }

    pub fn read(&mut self, offset: u32) -> (r: u32)
        ensures
            r == if ((offset / 4) as int) < old(self).words().len() {
                old(self).words()[(offset / 4) as int]
            } else {
                0
            },
            final(self).words() == old(self).words(),
    {
        let idx = (offset / 4) as usize;
        if idx < self.regs.len() {
            self.regs[idx]
        } else {
            0
        }
    }

    pub fn write(&mut self, offset: u32, value: u32)
        ensures
            final(self).words() == if offset != 0x118 && ((offset / 4) as int) < old(
                self,
            ).words().len() {
                old(self).words().update((offset / 4) as int, value)
            } else {
                old(self).words()
            },
    {
        // Chip ID is read-only; everything else is writable RAM.
        if offset == 0x118 {
            return;
        }
        let idx = (offset / 4) as usize;
        if idx < self.regs.len() {
            self.regs.set(idx, value);
        }
    }
}

impl Default for S3cSyscon {
    fn default() -> (r: Self)
        ensures
            r.words() == Seq::new(0x400, |i: int| syscon_reset(i)),
    {
        Self::new()
    }
}

} // verus!
