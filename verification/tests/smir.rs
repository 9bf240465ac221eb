use rax::smir::ir::{Condition, SmirOp};
use rax::smir::lift::{ControlFlow, LiftContext, LiftResult};
use rax::smir::types::{ArchReg, OpId, SourceArch, VReg};

#[test]
fn test_lift_context() {
    let mut ctx = LiftContext::new(SourceArch::Hexagon);

    let v0 = ctx.alloc_vreg();
    let v1 = ctx.alloc_vreg();
    assert_ne!(v0, v1);

    let b0 = ctx.alloc_block();
    let b1 = ctx.alloc_block();
    assert_ne!(b0, b1);

    // Test block caching
    let cached = ctx.get_or_create_block(0x1000);
    let cached2 = ctx.get_or_create_block(0x1000);
    assert_eq!(cached, cached2);
}

#[test]
fn test_extended_imm() {
    let mut ctx = LiftContext::new(SourceArch::Hexagon);

    // Without extension
    assert_eq!(ctx.extend_imm(0x20), 0x20);

    // With extension
    ctx.set_extended_imm(0x12345);
    assert_eq!(ctx.extend_imm(0x20), (0x12345 << 6) as i32 | 0x20);

    // Extension consumed
    assert_eq!(ctx.extend_imm(0x20), 0x20);
}

#[test]
fn test_control_flow() {
    assert!(!ControlFlow::Fallthrough.ends_block());
    assert!(ControlFlow::Branch { target: 0x1000 }.ends_block());
    assert!(ControlFlow::Return.ends_function());
    assert!(!ControlFlow::Branch { target: 0x1000 }.ends_function());
}

#[test]
fn block_cache_distinct_addresses() {
    let mut ctx = LiftContext::default();
    let a = ctx.get_or_create_block(0x1000);
    let b = ctx.get_or_create_block(0x2000);
    assert_ne!(a, b);
    assert_eq!(ctx.get_or_create_block(0x1000), a);
    // A fresh block continues the allocator.
    assert_eq!(ctx.alloc_block().0, b.0 + 1);
}

#[test]
fn arch_register_bindings() {
    let mut ctx = LiftContext::new(SourceArch::Aarch64);
    let r0 = ctx.get_arch_reg(ArchReg(0));
    assert_eq!(ctx.get_arch_reg(ArchReg(0)), r0);
    let r0b = ctx.define_arch_reg(ArchReg(0));
    assert_ne!(r0, r0b);
    assert_eq!(ctx.get_arch_reg(ArchReg(0)), r0b);
    assert_eq!(ctx.alloc_vreg(), VReg(r0b.0 + 1));
}

#[test]
fn extension_keeps_low_six_bits_of_negative_base() {
    let mut ctx = LiftContext::new(SourceArch::Hexagon);
    ctx.set_extended_imm(0x3FF_FFFF);
    // -1 has all low bits set; the extender fills the rest.
    assert_eq!(ctx.extend_imm(-1), -1);
    ctx.set_extended_imm(1);
    assert_eq!(ctx.take_extended_imm(), Some(1));
    assert_eq!(ctx.take_extended_imm(), None);
}

#[test]
fn direct_targets_and_results() {
    let cf = ControlFlow::CondBranch { cond: Condition::Ne, target: 0x40, fallthrough: 0x44 };
    assert_eq!(cf.direct_targets(), vec![0x40, 0x44]);
    assert_eq!(ControlFlow::DirectBranch(0x80).direct_targets(), vec![0x80]);
    assert!(ControlFlow::Syscall.direct_targets().is_empty());
    assert!(ControlFlow::NextInsn.direct_targets().is_empty());

    let op = SmirOp { id: OpId(7), guest_pc: 0x40 };
    let r = LiftResult::cond_branch(vec![op], 4, Condition::Eq, 0x100, 0x44);
    assert_eq!(r.branch_targets, vec![0x100, 0x44]);
    assert_eq!(r.bytes_consumed, 4);
    assert!(r.control_flow.ends_block());
    let r = LiftResult::branch(vec![], 2, 0x10);
    assert_eq!(r.branch_targets, vec![0x10]);
    assert!(LiftResult::fallthrough(vec![], 4).branch_targets.is_empty());
    assert!(LiftResult::ret(vec![], 4).control_flow.ends_function());
}

#[test]
fn op_ids_count_up_and_wrap() {
    let mut ctx = LiftContext::new(SourceArch::X86_64);
    assert_eq!(ctx.next_op_id(), OpId(0));
    assert_eq!(ctx.next_op_id(), OpId(1));
    ctx.op_counter = u16::MAX;
    assert_eq!(ctx.next_op_id(), OpId(u16::MAX));
    assert_eq!(ctx.next_op_id(), OpId(0));
}
