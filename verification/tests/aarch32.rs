use rax::arm::decoder::aarch32::Aarch32Decoder;
use rax::arm::decoder::{Condition, DecodeError, DecodedInsn, Immediate, Mnemonic, Operand};

fn decode_bytes(bytes: &[u8; 4]) -> Result<DecodedInsn, DecodeError> {
    let raw = u32::from_le_bytes(*bytes);
    Aarch32Decoder::decode(raw)
}

#[test]
fn test_nop() {
    let insn = decode_bytes(&[0x00, 0xf0, 0x20, 0xe3]).unwrap();
    assert_eq!(insn.mnemonic, Mnemonic::NOP);
}

#[test]
fn test_mov_imm() {
    let insn = decode_bytes(&[0x01, 0x00, 0xa0, 0xe3]).unwrap();
    assert_eq!(insn.mnemonic, Mnemonic::MOV);
}

#[test]
fn test_mov_reg() {
    let insn = decode_bytes(&[0x01, 0x00, 0xa0, 0xe1]).unwrap();
    assert_eq!(insn.mnemonic, Mnemonic::MOV);
}

#[test]
fn test_add_reg() {
    let insn = decode_bytes(&[0x02, 0x00, 0x81, 0xe0]).unwrap();
    assert_eq!(insn.mnemonic, Mnemonic::ADD);
}

#[test]
fn test_add_imm() {
    let insn = decode_bytes(&[0x10, 0x00, 0x81, 0xe2]).unwrap();
    assert_eq!(insn.mnemonic, Mnemonic::ADD);
}

#[test]
fn test_sub_reg() {
    let insn = decode_bytes(&[0x02, 0x00, 0x41, 0xe0]).unwrap();
    assert_eq!(insn.mnemonic, Mnemonic::SUB);
}

#[test]
fn test_cmp_reg() {
    let insn = decode_bytes(&[0x01, 0x00, 0x50, 0xe1]).unwrap();
    assert_eq!(insn.mnemonic, Mnemonic::CMP);
}

#[test]
fn test_and_reg() {
    let insn = decode_bytes(&[0x02, 0x00, 0x01, 0xe0]).unwrap();
    assert_eq!(insn.mnemonic, Mnemonic::AND);
}

#[test]
fn test_orr_reg() {
    let insn = decode_bytes(&[0x02, 0x00, 0x81, 0xe1]).unwrap();
    assert_eq!(insn.mnemonic, Mnemonic::ORR);
}

#[test]
fn test_b() {
    let insn = decode_bytes(&[0x3e, 0x00, 0x00, 0xea]).unwrap();
    assert_eq!(insn.mnemonic, Mnemonic::B);
}

#[test]
fn test_bl() {
    let insn = decode_bytes(&[0x3e, 0x00, 0x00, 0xeb]).unwrap();
    assert_eq!(insn.mnemonic, Mnemonic::BL);
}

#[test]
fn test_bx() {
    let insn = decode_bytes(&[0x1e, 0xff, 0x2f, 0xe1]).unwrap();
    assert_eq!(insn.mnemonic, Mnemonic::BX);
}

#[test]
fn test_ldr_imm() {
    let insn = decode_bytes(&[0x00, 0x00, 0x91, 0xe5]).unwrap();
    assert_eq!(insn.mnemonic, Mnemonic::LDR);
}

#[test]
fn test_str_imm() {
    let insn = decode_bytes(&[0x00, 0x00, 0x81, 0xe5]).unwrap();
    assert_eq!(insn.mnemonic, Mnemonic::STR);
}

#[test]
fn test_ldrb() {
    let insn = decode_bytes(&[0x00, 0x00, 0xd1, 0xe5]).unwrap();
    assert_eq!(insn.mnemonic, Mnemonic::LDRB);
}

#[test]
fn test_push() {
    let insn = decode_bytes(&[0x00, 0x40, 0x2d, 0xe9]).unwrap();
    assert_eq!(insn.mnemonic, Mnemonic::PUSH);
}

#[test]
fn test_pop() {
    let insn = decode_bytes(&[0x00, 0x80, 0xbd, 0xe8]).unwrap();
    assert_eq!(insn.mnemonic, Mnemonic::POP);
}

#[test]
fn aarch32_test_mul() {
    let insn = decode_bytes(&[0x91, 0x02, 0x00, 0xe0]).unwrap();
    assert_eq!(insn.mnemonic, Mnemonic::MUL);
}

#[test]
fn aarch32_test_svc() {
    let insn = decode_bytes(&[0x00, 0x00, 0x00, 0xef]).unwrap();
    assert_eq!(insn.mnemonic, Mnemonic::SVC);
}

#[test]
fn test_mvn() {
    let insn = decode_bytes(&[0x01, 0x00, 0xe0, 0xe1]).unwrap();
    assert_eq!(insn.mnemonic, Mnemonic::MVN);
}

#[test]
fn test_clz() {
    let insn = decode_bytes(&[0x11, 0x0f, 0x6f, 0xe1]).unwrap();
    assert_eq!(insn.mnemonic, Mnemonic::CLZ);
}

#[test]
fn test_conditional() {
    // MOVEQ R0, #1
    let insn = decode_bytes(&[0x01, 0x00, 0xa0, 0x03]).unwrap();
    assert_eq!(insn.mnemonic, Mnemonic::MOV);
    assert_eq!(insn.cond, Some(Condition::EQ));
}

#[test]
fn test_shifted_reg() {
    // ADD R0, R1, R2, LSL #4
    let insn = decode_bytes(&[0x02, 0x01, 0x81, 0xe0]).unwrap();
    assert_eq!(insn.mnemonic, Mnemonic::ADD);
    assert_eq!(insn.operands.len(), 3);
}

#[test]
fn rotated_immediate_value() {
    // MOV R0, #0xFF000000 (imm8 = 0xFF, rotate = 4 -> ror 8)
    let insn = Aarch32Decoder::decode(0xe3a004ff).unwrap();
    assert_eq!(insn.mnemonic, Mnemonic::MOV);
    assert_eq!(insn.operands[1], Operand::Imm(Immediate { value: 0xFF00_0000 }));
}

#[test]
fn branch_offset_is_sign_extended() {
    // B with imm24 = 0xFFFFFE -> offset -8
    let insn = Aarch32Decoder::decode(0xeafffffe).unwrap();
    assert_eq!(insn.operands[0], Operand::Label(-8));
}
