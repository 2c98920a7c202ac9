use nx_lifter::decode::decode_word;
use nx_lifter::inst::ExtendKind;
use nx_lifter::inst::FLAG_SET_FLAGS;
use nx_lifter::inst::FLAG_W32;
use nx_lifter::inst::InvalidReason;
use nx_lifter::inst::Payload;
use nx_lifter::inst::ShiftKind;
use nx_lifter::opcode::Op;

#[test]
fn orr_with_zero_register_source_becomes_mov() {
    // mov x0, x1 is orr x0, xzr, x1 with a zero shift.
    let i = decode_word(0xaa0103e0);
    assert_eq!(i.op, Op::MovReg);
    assert_eq!(i.rd, 0);
    assert_eq!(i.rt, 1);
    assert_eq!(i.payload, Payload::Empty);
}

#[test]
fn orn_with_zero_register_source_becomes_mvn() {
    // mvn w3, w4 is orn w3, wzr, w4.
    let i = decode_word(0x2a2403e3);
    assert_eq!(i.op, Op::Mvn);
    assert_eq!(i.rd, 3);
    assert_eq!(i.rt, 4);
    assert_eq!(i.flags, FLAG_W32);
    assert_eq!(i.payload, Payload::ShiftDesc { kind: ShiftKind::Lsl, amount: 0 });
}

#[test]
fn ands_with_zero_destination_becomes_tst() {
    // tst x1, x2 is ands xzr, x1, x2.
    let i = decode_word(0xea02003f);
    assert_eq!(i.op, Op::TstShifted);
    assert_eq!(i.rn, 1);
    assert_eq!(i.rt, 2);
    assert_eq!(i.flags, FLAG_SET_FLAGS);
}

#[test]
fn shifted_and_keeps_its_shift_descriptor() {
    // and w1, w2, w3, lsr #5
    let i = decode_word(0x0a431441);
    assert_eq!(i.op, Op::AndShifted);
    assert_eq!(i.payload, Payload::ShiftDesc { kind: ShiftKind::Lsr, amount: 5 });
}

#[test]
fn word_sized_shift_past_the_width_is_invalid() {
    // A 32-bit logical operation naming shift amount 32.
    let i = decode_word(0x0a038041);
    assert_eq!(i.op, Op::Invalid);
    assert_eq!(i.payload, Payload::Reason { why: InvalidReason::ShiftAmountRange });
}

#[test]
fn rotate_shift_kind_on_add_subtract_is_invalid() {
    // The add/subtract shifted-register group reserves the rotate kind.
    let i = decode_word(0x0bc00000);
    assert_eq!(i.op, Op::Invalid);
    assert_eq!(i.payload, Payload::Reason { why: InvalidReason::ShiftKindRange });
}

#[test]
fn flag_setting_shifted_subtract_with_zero_destination_is_cmp() {
    // cmp x1, x2 is subs xzr, x1, x2.
    let i = decode_word(0xeb02003f);
    assert_eq!(i.op, Op::CmpShifted);
    assert_eq!(i.rn, 1);
    assert_eq!(i.rt, 2);
}

#[test]
fn subtract_from_zero_register_is_neg() {
    // neg w5, w6 is sub w5, wzr, w6.
    let i = decode_word(0x4b0603e5);
    assert_eq!(i.op, Op::Neg);
    assert_eq!(i.rd, 5);
    assert_eq!(i.rt, 6);
    assert_eq!(i.flags, FLAG_W32);
}

#[test]
fn flag_setting_shifted_add_with_zero_destination_is_cmn() {
    // cmn x3, x4 is adds xzr, x3, x4.
    let i = decode_word(0xab04007f);
    assert_eq!(i.op, Op::CmnShifted);
    assert_eq!(i.rn, 3);
}

#[test]
fn extended_add_keeps_its_extension_descriptor() {
    // add x1, x2, w3, uxtw #2
    let i = decode_word(0x8b234841);
    assert_eq!(i.op, Op::AddExt);
    assert_eq!(i.payload, Payload::ExtendDesc { kind: ExtendKind::Uxtw, lsl: 2 });
}

#[test]
fn flag_setting_extended_subtract_against_sp_is_cmp() {
    // cmp sp, x0, uxtx
    let i = decode_word(0xeb2063ff);
    assert_eq!(i.op, Op::CmpExt);
    assert_eq!(i.rn, 31);
    assert_eq!(i.payload, Payload::ExtendDesc { kind: ExtendKind::Uxtx, lsl: 0 });
}

#[test]
fn extract_with_equal_sources_becomes_ror() {
    // ror x1, x2, #4 is extr x1, x2, x2, #4.
    let i = decode_word(0x93c21041);
    assert_eq!(i.op, Op::RorImm);
    assert_eq!(i.payload, Payload::Imm { imm: 4 });
    // extr x1, x2, x3, #8 keeps the generic opcode.
    let e = decode_word(0x93c32041);
    assert_eq!(e.op, Op::Extr);
    assert_eq!(e.payload, Payload::Imm { imm: 8 });
}

#[test]
fn multiply_add_with_zero_addend_becomes_mul() {
    // mul w1, w2, w3 is madd w1, w2, w3, wzr.
    let i = decode_word(0x1b037c41);
    assert_eq!(i.op, Op::Mul);
    assert_eq!(i.payload, Payload::Empty);
    // madd x1, x2, x3, x4 keeps its extra source.
    let m = decode_word(0x9b031041);
    assert_eq!(m.op, Op::Madd);
    assert_eq!(m.payload, Payload::RegExtra { ra: 4 });
}

#[test]
fn long_and_high_multiplies_canonicalize() {
    // mneg x0, x1, x2 is msub with the zero register.
    assert_eq!(decode_word(0x9b02fc20).op, Op::Mneg);
    // smull x0, w1, w2 is smaddl with the zero register.
    assert_eq!(decode_word(0x9b227c20).op, Op::Smull);
    assert_eq!(decode_word(0x9bc27c20).op, Op::Umulh);
}

#[test]
fn conditional_select_aliases_invert_the_condition() {
    // cset w0, eq encodes as csinc w0, wzr, wzr, ne.
    let cset = decode_word(0x1a9f17e0);
    assert_eq!(cset.op, Op::Cset);
    assert_eq!(cset.cond(), 0); // eq again after inversion
    // cinc w0, w1, lt encodes as csinc w0, w1, w1, ge.
    let cinc = decode_word(0x1a81a420);
    assert_eq!(cinc.op, Op::Cinc);
    assert_eq!(cinc.cond(), 0xB); // lt
    // cneg x0, x1, cc encodes as csneg x0, x1, x1, cs.
    let cneg = decode_word(0xda812420);
    assert_eq!(cneg.op, Op::Cneg);
    assert_eq!(cneg.cond(), 3); // cc
}

#[test]
fn generic_conditional_select_keeps_its_condition() {
    // csel x1, x2, x3, ne
    let i = decode_word(0x9a831041);
    assert_eq!(i.op, Op::Csel);
    assert_eq!(i.cond(), 1);
    assert_eq!(i.rd, 1);
    assert_eq!(i.rn, 2);
    assert_eq!(i.rt, 3);
}

#[test]
fn conditional_compare_carries_flags_and_operand() {
    // ccmp w1, #5, #0xb, ne
    let imm = decode_word(0x7a45182b);
    assert_eq!(imm.op, Op::CcmpImm);
    assert_eq!(imm.cond(), 1);
    assert_eq!(imm.payload, Payload::CondCompare { nzcv: 0xB, imm5: 5 });
    // ccmn x2, x3, #0, ge
    let reg = decode_word(0xba43a040);
    assert_eq!(reg.op, Op::CcmnReg);
    assert_eq!(reg.cond(), 0xA);
    assert_eq!(reg.payload, Payload::CondCompare { nzcv: 0, imm5: 3 });
}

#[test]
fn carry_arithmetic_canonicalizes_ngc() {
    assert_eq!(decode_word(0x1a020020).op, Op::Adc);
    // ngc x0, x1 is sbc x0, xzr, x1.
    assert_eq!(decode_word(0xda0103e0).op, Op::Ngc);
    let sbcs = decode_word(0xfa020020);
    assert_eq!(sbcs.op, Op::Sbc);
    assert_eq!(sbcs.flags, FLAG_SET_FLAGS);
}

#[test]
fn two_source_operations_decode() {
    assert_eq!(decode_word(0x1ac20820).op, Op::Udiv);
    assert_eq!(decode_word(0x9ac50c83).op, Op::Sdiv);
    assert_eq!(decode_word(0x1ac32041).op, Op::Lslv);
    assert_eq!(decode_word(0x1ac24820).op, Op::Crc32w);
}

#[test]
fn one_source_operations_decode() {
    assert_eq!(decode_word(0x5ac00020).op, Op::Rbit);
    assert_eq!(decode_word(0x5ac010c5).op, Op::Clz);
    // The byte-reversal row splits on operand width.
    assert_eq!(decode_word(0x5ac00820).op, Op::Rev);
    assert_eq!(decode_word(0xdac00820).op, Op::Rev32);
    assert_eq!(decode_word(0xdac00c20).op, Op::Rev);
}
