//! VEX byte-mask extract (VPMOVMSKB) and masked moves (VPMASKMOVD/Q,
//! VMASKMOVPS/PD).
//!
//! Each element of the vector moves only if the sign bit of the matching
//! element of the mask register (VEX.vvvv) is set. A masked-off element is
//! not accessed, so it cannot fault. Loads zero masked-off elements and
//! fault at the first selected element outside memory, changing nothing;
//! stores write selected elements in order and stop at the first one
//! outside memory.

use crate::backend::emulator::x86_64::cpu::{
    adv, gpr, le_bytes, merge_sized, modrm_result, qwords, store_le, to_bytes, vbytes, vreg_of,
    widen, with_gpr, with_vreg, EmuError, InsnContext, MemStep, Modrm, X86_64Vcpu,
};
use crate::cpu::VcpuExit;
use vstd::prelude::*;

verus! {

/// The vector operand named by a decoded ModRM: `n` quadwords of memory
/// (zero above), or the whole rm register; `None` where memory ends first.
pub open spec fn vec_operand(m: Seq<u8>, regs: crate::cpu::Registers, d: Modrm, n: nat) -> Option<
    Seq<u64>,
> {
    if d.is_memory {
        if d.addr + 8 * n > m.len() {
            None
        } else {
            Some(widen(qwords(m, d.addr as int, n), n))
        }
    } else {
        Some(vreg_of(regs, d.rm as int))
    }
}

impl X86_64Vcpu {
    /// Fetch the vector operand a decoded ModRM names.
    pub fn fetch_vec_operand(&self, d: &Modrm, n: usize) -> (r: Result<[u64; 4], EmuError>)
        requires
            n == 2 || n == 4,
            d.rm < 16,
        ensures
            match vec_operand(self.memory(), self.regs, *d, n as nat) {
                Some(q) => r is Ok && r->Ok_0@ == q,
                None => r == Err::<[u64; 4], EmuError>(EmuError::MemoryFault(d.addr)),
            },
    {
        if d.is_memory {
            self.read_qwords(d.addr, n)
        } else {
            Ok(self.vreg(d.rm))
        }
    }
}

/// 2 to the power `n`.
pub open spec fn weight(n: nat) -> nat
    decreases n,
{
    if n == 0 {
        1
    } else {
        2 * weight((n - 1) as nat)
    }
}

/// Sign bits of the first `n` bytes of `b`, byte `i` in bit `i`.
pub open spec fn byte_sign_mask(b: Seq<u8>, n: nat) -> nat
    decreases n,
{
    if n == 0 {
        0
    } else {
        byte_sign_mask(b, (n - 1) as nat) + if b[n - 1] >= 0x80 {
            weight((n - 1) as nat)
        } else {
            0
        }
    }
}

/// VPMOVMSKB r32, xmm/ymm/mem (VEX.66.0F D7): the sign bit of each of the
/// 16 (or 32) source bytes, zero-extended into the destination; VEX.vvvv
/// must be 1111b.
pub open spec fn pmovmskb_effect(v: X86_64Vcpu, ctx: InsnContext, l: u8, vvvv: u8) -> MemStep {
    let regs = v.regs;
    let m = v.memory();
    if vvvv != 0 {
        (regs, m, Err(EmuError::Unsupported(ctx.opcode)))
    } else {
        match modrm_result(regs, v.sregs, ctx, 0) {
            Err(e) => (regs, m, Err(e)),
            Ok(d) => {
                let n: nat = if l == 0 {
                    2
                } else {
                    4
                };
                match vec_operand(m, regs, d, n) {
                    None => (regs, m, Err(EmuError::MemoryFault(d.addr))),
                    Some(src) => {
                        let mask = byte_sign_mask(vbytes(src), 8 * n) as u64;
                        (
                            adv(
                                with_gpr(
                                    regs,
                                    d.reg as int,
                                    merge_sized(gpr(regs, d.reg as int), mask, 4),
                                ),
                                regs.rip,
                                ctx.cursor + d.len,
                            ),
                            m,
                            Ok(None),
                        )
                    },
                }
            },
        }
    }
}

impl X86_64Vcpu {
    /// VPMOVMSKB r32, xmm/ymm/mem.
    pub fn execute_vex_pmovmskb(&mut self, ctx: &mut InsnContext, vex_l: u8, vvvv: u8) -> (r:
        Result<Option<VcpuExit>, EmuError>)
        requires
            old(ctx).wf(),
        ensures
            final(self).sregs == old(self).sregs,
            (final(self).regs, final(self).memory(), r) == pmovmskb_effect(
                *old(self),
                *old(ctx),
                vex_l,
                vvvv,
            ),
    {
        if vvvv != 0 {
            return Err(EmuError::Unsupported(ctx.opcode));
        }
        let d = self.decode_modrm(ctx, 0)?;
        let n: usize = if vex_l == 0 {
            2
        } else {
            4
        };
        let src = self.fetch_vec_operand(&d, n)?;
        let b = to_bytes(&src);
        let mut result: u64 = 0;
        let mut w: u64 = 1;
        let mut i: usize = 0;
        while i < 8 * n
            invariant
                n == 2 || n == 4,
                i <= 8 * n,
                b@ == vbytes(src@),
                result as nat == byte_sign_mask(b@, i as nat),
                w as nat == weight(i as nat),
                result < w,
                w <= 0x1_0000_0000,
            decreases 8 * n - i,
        {
            proof {
                lemma_weight_bound(i as nat);
            }
            if b[i] >= 0x80 {
                result = result + w;
            }
            w = w * 2;
            i += 1;
        }
        self.set_reg(d.reg, result, 4);
        self.advance(ctx.cursor);
        Ok(None)
    }
}

proof fn lemma_weight_mono(i: nat, j: nat)
    requires
        i <= j,
    ensures
        weight(i) <= weight(j),
    decreases j - i,
{
    if i < j {
        lemma_weight_mono(i, (j - 1) as nat);
    }
}

proof fn lemma_weight_bound(i: nat)
    requires
        i < 32,
    ensures
        weight(i + 1) == 2 * weight(i),
        weight(i + 1) <= 0x1_0000_0000,
{
    assert(weight(32) == 0x1_0000_0000) by {
        reveal_with_fuel(weight, 33);
    }
    lemma_weight_mono(i + 1, 32);
}

/// Element `e` of a vector of quadwords `q`, for 4- or 8-byte elements.
pub open spec fn elem(q: Seq<u64>, e: int, size: nat) -> nat {
    if size == 4 {
        if e % 2 == 0 {
            (q[e / 2] % 0x1_0000_0000) as nat
        } else {
            (q[e / 2] / 0x1_0000_0000) as nat
        }
    } else {
        q[e] as nat
    }
}

/// The sign bit of element `e`.
pub open spec fn elem_neg(q: Seq<u64>, e: int, size: nat) -> bool {
    if size == 4 {
        elem(q, e, size) >= 0x8000_0000
    } else {
        elem(q, e, size) >= 0x8000_0000_0000_0000
    }
}

/// Number of elements of `size` bytes in a 128-bit (`l == 0`) or 256-bit
/// vector.
pub open spec fn elem_count(l: u8, size: nat) -> nat {
    if l == 1 {
        if size == 4 {
            8
        } else {
            4
        }
    } else {
        if size == 4 {
            4
        } else {
            2
        }
    }
}

/// Byte offset of element `e`.
pub open spec fn elem_off(size: nat, e: int) -> int {
    if size == 4 {
        4 * e
    } else {
        8 * e
    }
}

/// Address of element `e`.
pub open spec fn elem_addr(addr: u64, e: nat, size: nat) -> u64 {
    addr.wrapping_add(elem_off(size, e as int) as u64)
}

/// The first selected element from `e` on whose bytes leave memory.
pub open spec fn masked_fault(len: nat, addr: u64, mask: Seq<u64>, size: nat, e: nat, count: nat)
    -> Option<nat>
    decreases count - e,
{
    if e >= count {
        None
    } else if elem_neg(mask, e as int, size) && addr + elem_off(size, e as int) + size > len {
        Some(e)
    } else {
        masked_fault(len, addr, mask, size, e + 1, count)
    }
}

/// Quadwords built from elements `es` of `size` bytes.
pub open spec fn compose(es: Seq<nat>, size: nat) -> Seq<u64> {
    Seq::new(
        4,
        |k: int|
            if size == 4 {
                (es[2 * k] + es[2 * k + 1] * 0x1_0000_0000) as u64
            } else {
                es[k] as u64
            },
    )
}

/// A sequence of quadwords as naturals.
pub open spec fn as_nats(s: Seq<u64>) -> Seq<nat> {
    Seq::new(s.len(), |i: int| s[i] as nat)
}

/// Elements of a masked load: selected ones from memory, others zero.
pub open spec fn masked_load_elems(m: Seq<u8>, addr: u64, mask: Seq<u64>, size: nat, count: nat)
    -> Seq<nat> {
    Seq::new(
        8,
        |e: int|
            if e < count && elem_neg(mask, e, size) {
                le_bytes(m, addr + elem_off(size, e), size)
            } else {
                0
            },
    )
}

/// Memory after storing the selected elements from `e` on, in order, and
/// the first element that did not fit.
pub open spec fn masked_store(
    m: Seq<u8>,
    addr: u64,
    src: Seq<u64>,
    mask: Seq<u64>,
    size: nat,
    e: nat,
    count: nat,
) -> (Seq<u8>, Option<nat>)
    decreases count - e,
{
    if e >= count {
        (m, None)
    } else if !elem_neg(mask, e as int, size) {
        masked_store(m, addr, src, mask, size, e + 1, count)
    } else if addr + elem_off(size, e as int) + size > m.len() {
        (m, Some(e))
    } else {
        masked_store(
            store_le(m, addr + elem_off(size, e as int), elem(src, e as int, size), size),
            addr,
            src,
            mask,
            size,
            e + 1,
            count,
        )
    }
}

/// A masked move with `size`-byte elements: `load` moves memory into the
/// ModRM reg register, else the reg register into memory; the mask is
/// vector register `vvvv`; the operand must be memory. With `low_first`, a
/// 256-bit load fills the low 128 bits of the register before it loads the
/// upper elements, so a fault among those leaves the low half loaded.
pub open spec fn masked_move_effect(
    v: X86_64Vcpu,
    ctx: InsnContext,
    l: u8,
    size: nat,
    vvvv: u8,
    load: bool,
    low_first: bool,
) -> MemStep {
    let regs = v.regs;
    let m = v.memory();
    match modrm_result(regs, v.sregs, ctx, 0) {
        Err(e) => (regs, m, Err(e)),
        Ok(d) => {
            let count = elem_count(l, size);
            let mask = vreg_of(regs, vvvv as int);
            let len = ctx.cursor + d.len;
            if !d.is_memory {
                (regs, m, Err(EmuError::Unsupported(ctx.opcode)))
            } else if load {
                match masked_fault(m.len(), d.addr, mask, size, 0, count) {
                    Some(e) => (
                        if low_first && l == 1 && masked_fault(
                            m.len(),
                            d.addr,
                            mask,
                            size,
                            0,
                            count / 2,
                        ) is None {
                            with_vreg(
                                regs,
                                d.reg as int,
                                low_half_over(
                                    vreg_of(regs, d.reg as int),
                                    compose(masked_load_elems(m, d.addr, mask, size, count / 2), size),
                                ),
                            )
                        } else {
                            regs
                        },
                        m,
                        Err(EmuError::MemoryFault(elem_addr(d.addr, e, size))),
                    ),
                    None => (
                        adv(
                            with_vreg(
                                regs,
                                d.reg as int,
                                compose(masked_load_elems(m, d.addr, mask, size, count), size),
                            ),
                            regs.rip,
                            len,
                        ),
                        m,
                        Ok(None),
                    ),
                }
            } else {
                let (m2, fault) = masked_store(
                    m,
                    d.addr,
                    vreg_of(regs, d.reg as int),
                    mask,
                    size,
                    0,
                    count,
                );
                match fault {
                    Some(e) => (regs, m2, Err(EmuError::MemoryFault(elem_addr(d.addr, e, size)))),
                    None => (adv(regs, regs.rip, len), m2, Ok(None)),
                }
            }
        },
    }
}

/// The low two quadwords of `q` over the high two of `old`.
pub open spec fn low_half_over(old: Seq<u64>, q: Seq<u64>) -> Seq<u64> {
    seq![q[0], q[1], old[2], old[3]]
}

/// A fault among the first `c2` elements is the first fault among any
/// longer run of them.
proof fn lemma_masked_fault_prefix(
    len: nat,
    addr: u64,
    mask: Seq<u64>,
    size: nat,
    j: nat,
    c2: nat,
    count: nat,
)
    requires
        masked_fault(len, addr, mask, size, j, c2) is Some,
        c2 <= count,
    ensures
        masked_fault(len, addr, mask, size, j, count) == masked_fault(len, addr, mask, size, j, c2),
    decreases c2 - j,
{
    if j < c2 && !(elem_neg(mask, j as int, size) && addr + elem_off(size, j as int) + size > len) {
        lemma_masked_fault_prefix(len, addr, mask, size, j + 1, c2, count);
    }
}

/// Element `e` of a vector held as four quadwords.
fn elem_exec(q: &[u64; 4], e: usize, size: u8) -> (r: u64)
    requires
        size == 4 || size == 8,
        e < 32int / (size as int),
    ensures
        r as nat == elem(q@, e as int, size as nat),
{
    if size == 4 {
        if e % 2 == 0 {
            q[e / 2] % 0x1_0000_0000
        } else {
            q[e / 2] / 0x1_0000_0000
        }
    } else {
        q[e]
    }
}

fn elem_neg_exec(q: &[u64; 4], e: usize, size: u8) -> (r: bool)
    requires
        size == 4 || size == 8,
        e < 32int / (size as int),
    ensures
        r == elem_neg(q@, e as int, size as nat),
{
    let x = elem_exec(q, e, size);
    if size == 4 {
        x >= 0x8000_0000
    } else {
        x >= 0x8000_0000_0000_0000
    }
}

/// Quadwords from eight element slots.
fn compose_exec(es: &[u64; 8], size: u8) -> (r: [u64; 4])
    requires
        size == 4 || size == 8,
        size == 4 ==> forall|i: int| 0 <= i < 8 ==> #[trigger] es[i] < 0x1_0000_0000,
    ensures
        r@ == compose(as_nats(es@), size as nat),
{
    let r = if size == 4 {
        [
            es[0] + es[1] * 0x1_0000_0000,
            es[2] + es[3] * 0x1_0000_0000,
            es[4] + es[5] * 0x1_0000_0000,
            es[6] + es[7] * 0x1_0000_0000,
        ]
    } else {
        [es[0], es[1], es[2], es[3]]
    };
    assert(r@ =~= compose(as_nats(es@), size as nat));
    r
}

impl X86_64Vcpu {
    /// The elements of a masked load at `addr`, or the fault of the first
    /// selected element outside memory.
    fn masked_load(&self, addr: u64, mask: &[u64; 4], size: u8, count: usize) -> (r: Result<
        [u64; 8],
        EmuError,
    >)
        requires
            size == 4 || size == 8,
            count == 8 || count == 4 || count == 2,
            size == 8 ==> count <= 4,
        ensures
            match masked_fault(self.memory().len(), addr, mask@, size as nat, 0, count as nat) {
                Some(e) => r == Err::<[u64; 8], EmuError>(
                    EmuError::MemoryFault(elem_addr(addr, e, size as nat)),
                ),
                None => r is Ok && as_nats(r->Ok_0@) == masked_load_elems(
                    self.memory(),
                    addr,
                    mask@,
                    size as nat,
                    count as nat,
                ) && (size == 4 ==> forall|i: int|
                    0 <= i < 8 ==> #[trigger] r->Ok_0[i] < 0x1_0000_0000),
            },
    {
        let len = self.mem.len();
        let mut es = [0u64; 8];
        let mut e: usize = 0;
        while e < count
            invariant
                size == 4 || size == 8,
                count == 8 || count == 4 || count == 2,
                size == 8 ==> count <= 4,
                e <= count,
                self.mem@.len() == len,
                masked_fault(len as nat, addr, mask@, size as nat, 0, count as nat) == masked_fault(
                    len as nat,
                    addr,
                    mask@,
                    size as nat,
                    e as nat,
                    count as nat,
                ),
                forall|k: int|
                    0 <= k < 8 ==> (#[trigger] es[k] as nat) == (if k < e && elem_neg(
                        mask@,
                        k,
                        size as nat,
                    ) {
                        le_bytes(self.mem@, addr + elem_off(size as nat, k), size as nat)
                    } else {
                        0
                    }),
                forall|k: int| 0 <= k < 8 && size == 4 ==> #[trigger] es[k] < 0x1_0000_0000,
            decreases count - e,
        {
            if elem_neg_exec(mask, e, size) {
                let off: u64 = if size == 4 {
                    4 * e as u64
                } else {
                    8 * e as u64
                };
                if addr as u128 + off as u128 + size as u128 > len as u128 {
                    return Err(EmuError::MemoryFault(addr.wrapping_add(off)));
                }
                let x = self.read_mem(addr + off, size);
                match x {
                    Ok(val) => {
                        proof {
                            lemma_le_bound4(self.mem@, addr + off, size as nat);
                        }
                        es[e] = val;
                    },
                    Err(_) => {
                        assert(false);
                    },
                }
            }
            e += 1;
        }
        assert(as_nats(es@) =~= masked_load_elems(self.mem@, addr, mask@, size as nat, count as nat));
        Ok(es)
    }

    /// Store the selected elements of `src` at `addr` in order, stopping at
    /// the first one outside memory.
    fn masked_store_run(&mut self, addr: u64, src: &[u64; 4], mask: &[u64; 4], size: u8, count: usize)
        -> (r: Result<(), EmuError>)
        requires
            size == 4 || size == 8,
            count == 8 || count == 4 || count == 2,
            size == 8 ==> count <= 4,
        ensures
            final(self).regs == old(self).regs,
            final(self).sregs == old(self).sregs,
            ({
                let (m2, fault) = masked_store(old(self).memory(), addr, src@, mask@, size as nat, 0, count as nat);
                &&& final(self).memory() == m2
                &&& match fault {
                    Some(e) => r == Err::<(), EmuError>(EmuError::MemoryFault(elem_addr(addr, e, size as nat))),
                    None => r is Ok,
                }
            }),
    {
        let len = self.mem.len();
        let mut e: usize = 0;
        while e < count
            invariant
                size == 4 || size == 8,
                count == 8 || count == 4 || count == 2,
                size == 8 ==> count <= 4,
                e <= count,
                self.mem@.len() == len,
                self.regs == old(self).regs,
                self.sregs == old(self).sregs,
                masked_store(self.mem@, addr, src@, mask@, size as nat, e as nat, count as nat)
                    == masked_store(old(self).mem@, addr, src@, mask@, size as nat, 0, count as nat),
            decreases count - e,
        {
            if elem_neg_exec(mask, e, size) {
                let off: u64 = if size == 4 {
                    4 * e as u64
                } else {
                    8 * e as u64
                };
                if addr as u128 + off as u128 + size as u128 > len as u128 {
                    return Err(EmuError::MemoryFault(addr.wrapping_add(off)));
                }
                let x = elem_exec(src, e, size);
                let ghost before = self.mem@;
                let w = self.write_mem(addr + off, x, size);
                match w {
                    Ok(()) => {},
                    Err(_) => {
                        assert(false);
                    },
                }
                proof {
                    crate::backend::emulator::x86_64::cpu::lemma_store_frame(
                        before,
                        addr + off,
                        x as nat,
                        size as nat,
                        0,
                    );
                }
            }
            e += 1;
        }
        Ok(())
    }

    /// Shared body of the masked moves.
    fn masked_move(
        &mut self,
        ctx: &mut InsnContext,
        vex_l: u8,
        size: u8,
        vvvv: u8,
        load: bool,
        low_first: bool,
    ) -> (r: Result<Option<VcpuExit>, EmuError>)
        requires
            old(ctx).wf(),
            size == 4 || size == 8,
            vvvv < 16,
        ensures
            final(self).sregs == old(self).sregs,
            (final(self).regs, final(self).memory(), r) == masked_move_effect(
                *old(self),
                *old(ctx),
                vex_l,
                size as nat,
                vvvv,
                load,
                low_first,
            ),
    {
        let d = self.decode_modrm(ctx, 0)?;
        if !d.is_memory {
            return Err(EmuError::Unsupported(ctx.opcode));
        }
        let count: usize = if vex_l == 1 {
            if size == 4 {
                8
            } else {
                4
            }
        } else {
            if size == 4 {
                4
            } else {
                2
            }
        };
        let mask = self.vreg(vvvv);
        if load && low_first && vex_l == 1 {
            let lo = match self.masked_load(d.addr, &mask, size, count / 2) {
                Ok(es) => es,
                Err(e) => {
                    proof {
                        lemma_masked_fault_prefix(
                            self.memory().len(),
                            d.addr,
                            mask@,
                            size as nat,
                            0,
                            (count / 2) as nat,
                            count as nat,
                        );
                    }
                    return Err(e);
                },
            };
            match self.masked_load(d.addr, &mask, size, count) {
                Ok(es) => {
                    let q = compose_exec(&es, size);
                    self.set_vreg(d.reg, q);
                },
                Err(e) => {
                    let ql = compose_exec(&lo, size);
                    let old = self.vreg(d.reg);
                    let q = [ql[0], ql[1], old[2], old[3]];
                    assert(q@ =~= low_half_over(old@, ql@));
                    self.set_vreg(d.reg, q);
                    return Err(e);
                },
            }
        } else if load {
            let es = self.masked_load(d.addr, &mask, size, count)?;
            let q = compose_exec(&es, size);
            self.set_vreg(d.reg, q);
        } else {
            let src = self.vreg(d.reg);
            self.masked_store_run(d.addr, &src, &mask, size, count)?;
        }
        self.advance(ctx.cursor);
        Ok(None)
    }

    /// VPMASKMOVD/Q (VEX.66.0F38 8C load, 8E store): VEX.W selects
    /// quadword elements.
    pub fn execute_vex_pmaskmov(
        &mut self,
        ctx: &mut InsnContext,
        vex_l: u8,
        vex_w: u8,
        vvvv: u8,
        opcode: u8,
    ) -> (r: Result<Option<VcpuExit>, EmuError>)
        requires
            old(ctx).wf(),
            vvvv < 16,
        ensures
            final(self).sregs == old(self).sregs,
            (final(self).regs, final(self).memory(), r) == masked_move_effect(
                *old(self),
                *old(ctx),
                vex_l,
                if vex_w == 0 {
                    4
                } else {
                    8
                },
                vvvv,
                opcode == 0x8C,
                true,
            ),
    {
        let size: u8 = if vex_w == 0 {
            4
        } else {
            8
        };
        self.masked_move(ctx, vex_l, size, vvvv, opcode == 0x8C, true)
    }

    /// VMASKMOVPS/PD (VEX.66.0F38 2C/2D loads, 2E/2F stores; 2C and 2E are
    /// the single-precision forms).
    pub fn execute_vex_maskmov_fp(
        &mut self,
        ctx: &mut InsnContext,
        vex_l: u8,
        vvvv: u8,
        opcode: u8,
    ) -> (r: Result<Option<VcpuExit>, EmuError>)
        requires
            old(ctx).wf(),
            vvvv < 16,
        ensures
            final(self).sregs == old(self).sregs,
            (final(self).regs, final(self).memory(), r) == masked_move_effect(
                *old(self),
                *old(ctx),
                vex_l,
                if opcode == 0x2C || opcode == 0x2E {
                    4
                } else {
                    8
                },
                vvvv,
                opcode == 0x2C || opcode == 0x2D,
                false,
            ),
    {
        let size: u8 = if opcode == 0x2C || opcode == 0x2E {
            4
        } else {
            8
        };
        self.masked_move(ctx, vex_l, size, vvvv, opcode == 0x2C || opcode == 0x2D, false)
    }
}

/// A 4-byte little-endian value is below 2^32.
proof fn lemma_le_bound4(m: Seq<u8>, at: int, size: nat)
    requires
        size == 4 || size == 8,
    ensures
        size == 4 ==> le_bytes(m, at, size) < 0x1_0000_0000,
        le_bytes(m, at, size) < 0x1_0000_0000_0000_0000,
{
    reveal_with_fuel(le_bytes, 9);
}

} // verus!
