//! ARM PrimeCell PL011 UART.
//!
//! Minimal-but-honest PL011 model for the AArch64 machine: enough for the
//! Linux `amba-pl011` driver (and `earlycon=pl011`) to probe and run an
//! interactive console. A write of the data register hands the byte to
//! transmit back to the caller, which sends it to the host console; RX
//! bytes are queued by the VMM's console mux.
//!
//! The transmitter is always ready (FIFO never fills), so the TX interrupt
//! is raised whenever it is unmasked. The RX interrupt is level: asserted
//! while the RX queue is non-empty and unmasked.

use std::collections::VecDeque;
use vstd::prelude::*;

verus! {

// Register offsets (byte offsets from the 4KB APB window base).
pub const UARTDR: u64 = 0x000;
pub const UARTRSR_ECR: u64 = 0x004;
pub const UARTFR: u64 = 0x018;
pub const UARTILPR: u64 = 0x020;
pub const UARTIBRD: u64 = 0x024;
pub const UARTFBRD: u64 = 0x028;
pub const UARTLCR_H: u64 = 0x02C;
pub const UARTCR: u64 = 0x030;
pub const UARTIFLS: u64 = 0x034;
pub const UARTIMSC: u64 = 0x038;
pub const UARTRIS: u64 = 0x03C;
pub const UARTMIS: u64 = 0x040;
pub const UARTICR: u64 = 0x044;
pub const UARTDMACR: u64 = 0x048;

/// Flag register: RX FIFO empty.
pub const FR_RXFE: u32 = 0x10;

/// Flag register: TX FIFO empty.
pub const FR_TXFE: u32 = 0x80;

/// Interrupt bit of the receiver (RIS/MIS/IMSC/ICR).
pub const INT_RX: u32 = 0x10;

/// Interrupt bit of the transmitter.
pub const INT_TX: u32 = 0x20;

/// AMBA PrimeCell identification byte `idx` (registers 0xFE0..0xFFC, one
/// byte per word): PL011 (r1p5) peripheral ID followed by the PrimeCell
/// cell ID. The Linux amba bus reads these to match the driver.
pub open spec fn amba_id(idx: u64) -> u8 {
    if idx == 0 {
        0x11
    } else if idx == 1 {
        0x10
    } else if idx == 2 {
        0x14
    } else if idx == 3 {
        0x00
    } else if idx == 4 {
        0x0D
    } else if idx == 5 {
        0xF0
    } else if idx == 6 {
        0x05
    } else if idx == 7 {
        0xB1
    } else {
        0
    }
}

/// Splitting a bus offset into a word-aligned register and a byte lane.
proof fn lemma_lane_split(offset: u64)
    by (bit_vector)
    ensures
        offset & !0x3u64 == offset - offset % 4,
        offset & 0x3 == offset % 4,
        offset >> 2 == offset / 4,
{
}

fn amba_id_byte(idx: u64) -> (r: u8)
    ensures
        r == amba_id(idx),
{
    match idx {
        0 => 0x11,
        1 => 0x10,
        2 => 0x14,
        3 => 0x00,
        4 => 0x0D,
        5 => 0xF0,
        6 => 0x05,
        7 => 0xB1,
        _ => 0,
    }
}

/// PL011 UART device state.
pub struct Pl011 {
    /// Received bytes waiting for the guest.
    rx_queue: VecDeque<u8>,
    /// Interrupt mask (UARTIMSC).
    imsc: u32,
    /// Control register (UARTCR).
    cr: u32,
    /// Line control (UARTLCR_H).
    lcr_h: u32,
    /// Integer/fractional baud divisors (latched, otherwise unused).
    ibrd: u32,
    fbrd: u32,
    /// FIFO level select.
    ifls: u32,
    /// DMA control (unused).
    dmacr: u32,
}

/// Abstract state of a PL011.
pub struct Pl011State {
    pub rx: Seq<u8>,
    pub imsc: u32,
    pub cr: u32,
    pub lcr_h: u32,
    pub ibrd: u32,
    pub fbrd: u32,
    pub ifls: u32,
    pub dmacr: u32,
}

impl View for Pl011 {
    type V = Pl011State;

    closed spec fn view(&self) -> Pl011State {
        Pl011State {
            rx: self.rx_queue@,
            imsc: self.imsc,
            cr: self.cr,
            lcr_h: self.lcr_h,
            ibrd: self.ibrd,
            fbrd: self.fbrd,
            ifls: self.ifls,
            dmacr: self.dmacr,
        }
    }
}

/// State out of reset: nothing queued, TX and RX enabled.
pub open spec fn pl011_reset() -> Pl011State {
    Pl011State {
        rx: Seq::empty(),
        imsc: 0,
        cr: 0x300,
        lcr_h: 0,
        ibrd: 0,
        fbrd: 0,
        ifls: 0x12,
        dmacr: 0,
    }
}

/// Raw interrupt status: TX always, RX while bytes are queued.
pub open spec fn raw_status(s: Pl011State) -> u32 {
    if s.rx.len() > 0 {
        INT_TX | INT_RX
    } else {
        INT_TX
    }
}

/// Value of a state register, without side effects (0 for the others).
pub open spec fn state_value(s: Pl011State, offset: u64) -> u32 {
    if offset == UARTIBRD {
        s.ibrd
    } else if offset == UARTFBRD {
        s.fbrd
    } else if offset == UARTLCR_H {
        s.lcr_h
    } else if offset == UARTCR {
        s.cr
    } else if offset == UARTIFLS {
        s.ifls
    } else if offset == UARTIMSC {
        s.imsc
    } else if offset == UARTDMACR {
        s.dmacr
    } else {
        0
    }
}

/// Value a register read returns (DR: the oldest queued byte, or 0).
pub open spec fn read_value(s: Pl011State, offset: u64) -> u32 {
    if offset == UARTDR {
        if s.rx.len() > 0 {
            s.rx[0] as u32
        } else {
            0
        }
    } else if offset == UARTFR {
        if s.rx.len() == 0 {
            FR_TXFE | FR_RXFE
        } else {
            FR_TXFE
        }
    } else if offset == UARTRIS {
        raw_status(s)
    } else if offset == UARTMIS {
        raw_status(s) & s.imsc
    } else if 0xFE0 <= offset <= 0xFFC {
        amba_id((offset - 0xFE0) as u64 / 4) as u32
    } else {
        state_value(s, offset)
    }
}

/// State after a register read: reading DR pops the oldest queued byte.
pub open spec fn after_read(s: Pl011State, offset: u64) -> Pl011State {
    if offset == UARTDR && s.rx.len() > 0 {
        Pl011State { rx: s.rx.drop_first(), ..s }
    } else {
        s
    }
}

/// State after a register write (writable bits only; DR and ICR leave it).
pub open spec fn after_write(s: Pl011State, offset: u64, value: u32) -> Pl011State {
    if offset == UARTIBRD {
        Pl011State { ibrd: value & 0xFFFF, ..s }
    } else if offset == UARTFBRD {
        Pl011State { fbrd: value & 0x3F, ..s }
    } else if offset == UARTLCR_H {
        Pl011State { lcr_h: value & 0xFF, ..s }
    } else if offset == UARTCR {
        Pl011State { cr: value & 0xFFFF, ..s }
    } else if offset == UARTIFLS {
        Pl011State { ifls: value & 0x3F, ..s }
    } else if offset == UARTIMSC {
        Pl011State { imsc: value & 0x7FF, ..s }
    } else if offset == UARTDMACR {
        Pl011State { dmacr: value & 0x7, ..s }
    } else {
        s
    }
}

impl Pl011 {
    pub fn new() -> (r: Self)
        ensures
            r@ == pl011_reset(),
    {
        Pl011 {
            rx_queue: VecDeque::new(),
            imsc: 0,
            cr: 0x300,  // TXE | RXE (reset value per TRM)
            lcr_h: 0,
            ibrd: 0,
            fbrd: 0,
            ifls: 0x12,
            dmacr: 0,
        }
    }

    /// Queue host console input for the guest.
    pub fn queue_input(&mut self, bytes: &[u8])
        ensures
            final(self)@ == (Pl011State { rx: old(self)@.rx + bytes@, ..old(self)@ }),
    {
        let mut i: usize = 0;
        while i < bytes.len()
            invariant
                i <= bytes.len(),
                self@ == (Pl011State { rx: old(self)@.rx + bytes@.take(i as int), ..old(self)@ }),
            decreases bytes.len() - i,
        {
            self.rx_queue.push_back(bytes[i]);
            i += 1;
            assert(self@.rx =~= old(self)@.rx + bytes@.take(i as int));
        }
        assert(bytes@.take(i as int) =~= bytes@);
    }

    /// Raw interrupt status.
    fn ris(&self) -> (r: u32)
        ensures
            r == raw_status(self@),
    {
        let mut ris = INT_TX;  // transmitter is always empty
        if self.rx_queue.len() != 0 {
            ris |= INT_RX;
        }
        ris
    }

    /// Masked interrupt status: drives the UART's SPI line (level).
    pub fn irq_pending(&self) -> (r: bool)
        ensures
            r == (raw_status(self@) & self@.imsc != 0),
    {
        self.ris() & self.imsc != 0
    }

    /// Read a register (DR pops the oldest queued byte).
    pub fn read_reg(&mut self, offset: u64) -> (r: u32)
        ensures
            r == read_value(old(self)@, offset),
            final(self)@ == after_read(old(self)@, offset),
    {
        match offset {
            0x000 => match self.rx_queue.pop_front() {
                // UARTDR
                Some(b) => b as u32,
                None => 0,
            },
            0x004 => 0,  // UARTRSR_ECR
            0x018 => {
                // UARTFR
                let mut fr = FR_TXFE;
                if self.rx_queue.len() == 0 {
                    fr |= FR_RXFE;
                }
                fr
            },
            0x020 => 0,  // UARTILPR
            0x03C => self.ris(),  // UARTRIS
            0x040 => self.ris() & self.imsc,  // UARTMIS
            0xFE0..=0xFFC => {
                let d = offset - 0xFE0;
                let idx = d >> 2;
                proof {
                    lemma_lane_split(d);
                }
                amba_id_byte(idx) as u32
            },
            _ => self.state_reg(offset),
        }
    }

    /// Current value of a state register, without read side effects. Used to
    /// fold partial-width bus writes into the full register.
    pub fn state_reg(&self, offset: u64) -> (r: u32)
        ensures
            r == state_value(self@, offset),
    {
        match offset {
            0x024 => self.ibrd,  // UARTIBRD
            0x028 => self.fbrd,  // UARTFBRD
            0x02C => self.lcr_h,  // UARTLCR_H
            0x030 => self.cr,  // UARTCR
            0x034 => self.ifls,  // UARTIFLS
            0x038 => self.imsc,  // UARTIMSC
            0x048 => self.dmacr,  // UARTDMACR
            _ => 0,
        }
    }

    /// Write a register. A write of DR returns the byte to transmit.
    pub fn write_reg(&mut self, offset: u64, value: u32) -> (tx: Option<u8>)
        ensures
            final(self)@ == after_write(old(self)@, offset, value),
            tx == if offset == UARTDR {
                Some(value as u8)
            } else {
                None::<u8>
            },
    {
        match offset {
            0x000 => {
                // UARTDR
                return Some(value as u8);
            },
            0x024 => self.ibrd = value & 0xFFFF,
            0x028 => self.fbrd = value & 0x3F,
            0x02C => self.lcr_h = value & 0xFF,
            0x030 => self.cr = value & 0xFFFF,
            0x034 => self.ifls = value & 0x3F,
            0x038 => self.imsc = value & 0x7FF,
            // ICR clears edge-latched sources; ours are level-derived, so the
            // write is accepted and status recomputes from current state.
            0x044 => {},
            0x048 => self.dmacr = value & 0x7,
            _ => {},
        }
        None
    }
}

impl Default for Pl011 {
    fn default() -> (r: Self)
        ensures
            r@ == pl011_reset(),
    {
        Self::new()
    }
}

/// Byte `i` (little-endian) of a word, 0 past the word.
pub open spec fn le_byte(v: u32, i: int) -> u8 {
    if 0 <= i < 4 {
        ((v >> ((8 * i) as u32)) & 0xFF) as u8
    } else {
        0
    }
}

/// A word with byte lanes `lane..` replaced by `data` (lanes past 3 are
/// dropped).
pub open spec fn fold_lanes(v: u32, lane: int, data: Seq<u8>) -> u32
    decreases data.len(),
{
    if data.len() == 0 {
        v
    } else {
        let prev = fold_lanes(v, lane, data.drop_last());
        let l = lane + data.len() - 1;
        if l < 4 {
            (prev & !((0xFFu32) << ((8 * l) as u32))) | ((data.last() as u32) << ((8 * l) as u32))
        } else {
            prev
        }
    }
}

/// MMIO adapter exposing a PL011 at `base` on the bus: byte-lane accesses
/// of any width are folded into the 32-bit registers.
pub struct Pl011MmioDevice {
    base: u64,
    inner: Pl011,
}

impl Pl011MmioDevice {
    pub fn new(base: u64, inner: Pl011) -> (r: Self)
        ensures
            r.base() == base,
            r.uart()@ == inner@,
    {
        Pl011MmioDevice { base, inner }
    }

    /// Base address of the register window.
    pub closed spec fn base(&self) -> u64 {
        self.base
    }

    /// The UART behind the window.
    pub closed spec fn uart(&self) -> Pl011 {
        self.inner
    }

    /// Base address of the register window.
    pub fn base_addr(&self) -> (r: u64)
        ensures
            r == self.base(),
    {
        self.base
    }

    /// The UART behind the window.
    pub fn device(&mut self) -> (r: &mut Pl011)
        ensures
            *r == old(self).uart(),
            final(self).uart() == *final(r),
            final(self).base() == old(self).base(),
    {
        &mut self.inner
    }

    /// Bus read of `data.len()` bytes at `addr`: the bytes of the register
    /// starting at the addressed lane. Registers with read side effects (DR)
    /// are only read by the lane-0 access.
    pub fn read(&mut self, addr: u64, data: &mut [u8])
        requires
            addr >= old(self).base(),
        ensures
            ({
                let offset = (addr - old(self).base()) as u64;
                let reg = (offset - offset % 4) as u64;
                let lane = offset % 4;
                let s = old(self).uart()@;
                let dr_side = reg == UARTDR && lane != 0;
                let value = if dr_side {
                    0
                } else {
                    read_value(s, reg)
                };
                &&& final(self).uart()@ == if dr_side {
                    s
                } else {
                    after_read(s, reg)
                }
                &&& final(data)@.len() == old(data)@.len()
                &&& forall|i: int|
                    0 <= i < final(data)@.len() ==> final(data)@[i] == le_byte(value, lane + i)
            }),
            final(self).base() == old(self).base(),
    {
        let offset = addr - self.base;
        let reg = offset & !0x3;
        let lane = offset & 0x3;
        proof {
            lemma_lane_split(offset);
        }
        let value = if reg == UARTDR && lane != 0 {
            0
        } else {
            self.inner.read_reg(reg)
        };
        let mut i: usize = 0;
        while i < data.len()
            invariant
                i <= data.len(),
                data@.len() == old(data)@.len(),
                lane < 4,
                forall|j: int| 0 <= j < i ==> data@[j] == le_byte(value, lane + j),
            decreases data.len() - i,
        {
            data[i] = if (i as u64) < 4 - lane {
                let l = lane + i as u64;
                ((value >> (8 * l as u32)) & 0xFF) as u8
            } else {
                0
            };
            i += 1;
        }
    }

    /// Bus write of `data` at `addr`. DR is write-to-transmit (only the low
    /// byte lane carries data; the byte to send is returned); state
    /// registers get the written lanes folded into their current value.
    pub fn write(&mut self, addr: u64, data: &[u8]) -> (tx: Option<u8>)
        requires
            addr >= old(self).base(),
        ensures
            ({
                let offset = (addr - old(self).base()) as u64;
                let reg = (offset - offset % 4) as u64;
                let lane = offset % 4;
                let s = old(self).uart()@;
                if reg == UARTDR {
                    &&& final(self).uart()@ == s
                    &&& tx == if lane == 0 && data@.len() > 0 {
                        Some(data@[0])
                    } else {
                        None::<u8>
                    }
                } else {
                    &&& final(self).uart()@ == after_write(
                        s,
                        reg,
                        fold_lanes(state_value(s, reg), lane as int, data@),
                    )
                    &&& tx is None
                }
            }),
            final(self).base() == old(self).base(),
    {
        let offset = addr - self.base;
        let reg = offset & !0x3;
        let lane = offset & 0x3;
        proof {
            lemma_lane_split(offset);
        }
        // DR is write-to-transmit: only the low byte lane carries data.
        if reg == UARTDR {
            if lane == 0 && data.len() > 0 {
                return self.inner.write_reg(UARTDR, data[0] as u32);
            }
            return None;
        }
        // State registers: fold the written lanes into the current value so
        // both whole-word writes and the bus's byte-split dispatch work.
        let mut value = self.inner.state_reg(reg);
        let mut i: usize = 0;
        while i < data.len()
            invariant
                i <= data.len(),
                lane < 4,
                value == fold_lanes(state_value(old(self).uart()@, reg), lane as int, data@.take(
                    i as int,
                )),
                self.inner@ == old(self).uart()@,
                self.base == old(self).base(),
            decreases data.len() - i,
        {
            proof {
                assert(data@.take(i as int + 1).drop_last() =~= data@.take(i as int));
            }
            if (i as u64) < 4 - lane {
                let l = lane + i as u64;
                value = (value & !(0xFFu32 << (8 * l as u32))) | ((data[i] as u32) << (8 * l as u32));
            }
            i += 1;
        }
        proof {
            assert(data@.take(i as int) =~= data@);
        }
        self.inner.write_reg(reg, value)
    }
}

} // verus!
