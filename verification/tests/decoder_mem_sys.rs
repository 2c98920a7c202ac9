use nx_lifter::decode::decode_word;
use nx_lifter::inst::AddrMode;
use nx_lifter::inst::ExtendKind;
use nx_lifter::inst::FLAG_W32;
use nx_lifter::inst::Payload;
use nx_lifter::opcode::Op;

#[test]
fn logical_immediates_expand_the_bitmask() {
    // and w0, w0, #1
    let and = decode_word(0x12000000);
    assert_eq!(and.op, Op::AndImm);
    assert_eq!(and.payload, Payload::Imm { imm: 1 });
    // eor x0, x1, #3
    let eor = decode_word(0xd2400420);
    assert_eq!(eor.op, Op::EorImm);
    assert_eq!(eor.payload, Payload::Imm { imm: 3 });
    // A replicated element: orr w0, wzr, #0xf0f0f0f0 moves a constant.
    let mov = decode_word(0x3204cfe0);
    assert_eq!(mov.op, Op::MovImm);
    assert_eq!(mov.payload, Payload::Imm { imm: 0xf0f0f0f0 });
}

#[test]
fn bitmask_move_collapses_with_the_wide_moves() {
    // orr x0, xzr, #0x0101010101010101: the third move encoding.
    let i = decode_word(0xb200c3e0);
    assert_eq!(i.op, Op::MovImm);
    assert_eq!(i.payload, Payload::Imm { imm: 0x0101010101010101 });
}

#[test]
fn flag_setting_logical_immediate_with_zero_destination_is_tst() {
    // tst w1, #3
    let i = decode_word(0x7200043f);
    assert_eq!(i.op, Op::TstImm);
    assert_eq!(i.rn, 1);
    assert_eq!(i.payload, Payload::Imm { imm: 3 });
}

#[test]
fn reserved_logical_immediates_are_unknown() {
    // The 32-bit form with the size bit set.
    assert_eq!(decode_word(0x12400000).op, Op::Unknown);
    // A full-width run of ones has no allocated encoding.
    assert_eq!(decode_word(0x9240fc00).op, Op::Unknown);
}

#[test]
fn signed_bitfield_canonicalizes_to_asr() {
    // asr w1, w2, #3 is sbfm w1, w2, #3, #31.
    let i = decode_word(0x13037c41);
    assert_eq!(i.op, Op::AsrImm);
    assert_eq!(i.rd, 1);
    assert_eq!(i.rn, 2);
    assert_eq!(i.payload, Payload::Bitfield { lsb: 3, width: 29 });
}

#[test]
fn unsigned_bitfield_canonicalizes_to_shifts() {
    // lsl w0, w1, #8 is ubfm w0, w1, #24, #23.
    let lsl = decode_word(0x53185c20);
    assert_eq!(lsl.op, Op::LslImm);
    assert_eq!(lsl.payload, Payload::Bitfield { lsb: 8, width: 24 });
    // lsr x2, x3, #4 is ubfm x2, x3, #4, #63.
    let lsr = decode_word(0xd344fc62);
    assert_eq!(lsr.op, Op::LsrImm);
    assert_eq!(lsr.payload, Payload::Bitfield { lsb: 4, width: 60 });
}

#[test]
fn bitfields_from_bit_zero_canonicalize_to_extensions() {
    // sxtb w1, w2
    let sxtb = decode_word(0x13001c41);
    assert_eq!(sxtb.op, Op::Extend);
    assert_eq!(sxtb.payload, Payload::ExtendDesc { kind: ExtendKind::Sxtb, lsl: 0 });
    // sxtw x0, w1
    let sxtw = decode_word(0x93407c20);
    assert_eq!(sxtw.payload, Payload::ExtendDesc { kind: ExtendKind::Sxtw, lsl: 0 });
    // uxth w3, w4
    let uxth = decode_word(0x53003c83);
    assert_eq!(uxth.payload, Payload::ExtendDesc { kind: ExtendKind::Uxth, lsl: 0 });
}

#[test]
fn wrapped_bitfields_canonicalize_to_insert_and_extract() {
    // sbfiz x1, x2, #8, #16
    let sbfiz = decode_word(0x93783c41);
    assert_eq!(sbfiz.op, Op::Sbfiz);
    assert_eq!(sbfiz.payload, Payload::Bitfield { lsb: 8, width: 16 });
    // ubfx w0, w1, #4, #8
    let ubfx = decode_word(0x53042c20);
    assert_eq!(ubfx.op, Op::Ubfx);
    assert_eq!(ubfx.payload, Payload::Bitfield { lsb: 4, width: 8 });
}

#[test]
fn insert_bitfields_split_on_the_zero_register() {
    // bfi x1, x2, #16, #8
    let bfi = decode_word(0xb3701c41);
    assert_eq!(bfi.op, Op::Bfi);
    assert_eq!(bfi.payload, Payload::Bitfield { lsb: 16, width: 8 });
    // bfc w0, #3, #4 names the zero register as source.
    let bfc = decode_word(0x331d0fe0);
    assert_eq!(bfc.op, Op::Bfc);
    assert_eq!(bfc.payload, Payload::Bitfield { lsb: 3, width: 4 });
    // bfxil w5, w6, #2, #6
    let bfxil = decode_word(0x33021cc5);
    assert_eq!(bfxil.op, Op::Bfxil);
    assert_eq!(bfxil.payload, Payload::Bitfield { lsb: 2, width: 6 });
}

#[test]
fn unallocated_bitfield_rows_are_unknown() {
    assert_eq!(decode_word(0x73000000).op, Op::Unknown);
    // The size bit and its copy disagree.
    assert_eq!(decode_word(0x13400000).op, Op::Unknown);
}

#[test]
fn register_pairs_scale_offsets_and_keep_both_registers() {
    // ldp x1, x2, [sp, #16]
    let ldp = decode_word(0xa9410be1);
    assert_eq!(ldp.op, Op::Ldp);
    assert_eq!(ldp.rt, 1);
    assert_eq!(ldp.rn, 31);
    assert_eq!(ldp.payload, Payload::MemPair { mode: AddrMode::OffImm, offset: 16, rt2: 2 });
    // stp w3, w4, [sp, #-8]!
    let stp = decode_word(0x29bf13e3);
    assert_eq!(stp.op, Op::Stp);
    assert_eq!(stp.flags, FLAG_W32);
    assert_eq!(stp.payload, Payload::MemPair { mode: AddrMode::PreIndex, offset: -8, rt2: 4 });
    // ldp x20, x21, [x0], #32
    let post = decode_word(0xa8c25414);
    assert_eq!(post.payload, Payload::MemPair { mode: AddrMode::PostIndex, offset: 32, rt2: 21 });
}

#[test]
fn no_allocate_pairs_decode_separately() {
    // ldnp x1, x2, [x3]
    let i = decode_word(0xa8400861);
    assert_eq!(i.op, Op::Ldnp);
    assert_eq!(i.payload, Payload::MemPair { mode: AddrMode::OffImm, offset: 0, rt2: 2 });
    // The sign-extending pair row stays uncovered.
    assert_eq!(decode_word(0x69400000).op, Op::Unknown);
}

#[test]
fn nine_bit_offsets_cover_unscaled_and_indexed_forms() {
    // ldur x0, [x1, #-8]
    let ldur = decode_word(0xf85f8020);
    assert_eq!(ldur.op, Op::Ldr);
    assert_eq!(ldur.payload, Payload::Mem { mode: AddrMode::OffImm, offset: -8 });
    // str w0, [sp, #4]!
    let pre = decode_word(0xb8004fe0);
    assert_eq!(pre.op, Op::Str);
    assert_eq!(pre.payload, Payload::Mem { mode: AddrMode::PreIndex, offset: 4 });
    // ldr w1, [x2], #8
    let post = decode_word(0xb8408441);
    assert_eq!(post.op, Op::Ldr);
    assert_eq!(post.payload, Payload::Mem { mode: AddrMode::PostIndex, offset: 8 });
    // The unprivileged and register-offset rows stay uncovered.
    assert_eq!(decode_word(0xb8400841).op, Op::Unknown);
    assert_eq!(decode_word(0xf8626820).op, Op::Unknown);
}

#[test]
fn barriers_keep_their_option_field() {
    let dmb = decode_word(0xd5033bbf);
    assert_eq!(dmb.op, Op::Dmb);
    assert_eq!(dmb.payload, Payload::Imm { imm: 0xB });
    let isb = decode_word(0xd5033fdf);
    assert_eq!(isb.op, Op::Isb);
    let clrex = decode_word(0xd5033f5f);
    assert_eq!(clrex.op, Op::Clrex);
    let dsb = decode_word(0xd5033f9f);
    assert_eq!(dsb.op, Op::Dsb);
    assert_eq!(dsb.payload, Payload::Imm { imm: 0xF });
}

#[test]
fn store_bypass_barriers_split_from_dsb() {
    assert_eq!(decode_word(0xd503309f).op, Op::Ssbb);
    assert_eq!(decode_word(0xd503349f).op, Op::Pssbb);
    assert_eq!(decode_word(0xd50330ff).op, Op::Sb);
}

#[test]
fn system_register_moves_carry_the_selector() {
    // mrs x0, nzcv
    let mrs = decode_word(0xd53b4200);
    assert_eq!(mrs.op, Op::Mrs);
    assert_eq!(mrs.rt, 0);
    assert_eq!(mrs.payload, Payload::Imm { imm: 0x5a10 });
    // msr nzcv, x1
    let msr = decode_word(0xd51b4201);
    assert_eq!(msr.op, Op::MsrReg);
    assert_eq!(msr.rt, 1);
    assert_eq!(msr.payload, Payload::Imm { imm: 0x5a10 });
}

#[test]
fn pstate_writes_carry_field_and_value() {
    // msr daifset, #2
    let i = decode_word(0xd50342df);
    assert_eq!(i.op, Op::MsrImm);
    assert_eq!(i.payload, Payload::PState { field: 0x1e, imm: 2 });
    // The flag-manipulation row with everything zero is cfinv.
    assert_eq!(decode_word(0xd500401f).op, Op::Cfinv);
}

#[test]
fn generic_system_instructions_keep_their_selectors() {
    // ic ivau, x0 is sys #3, c7, c5, #1, x0.
    let sys = decode_word(0xd50b7520);
    assert_eq!(sys.op, Op::Sys);
    assert_eq!(sys.rt, 0);
    assert_eq!(sys.payload, Payload::SysOp { op1: 3, op2: 1, crn: 7, crm: 5 });
    // sysl x3, #0, c4, c0, #0
    let sysl = decode_word(0xd5284003);
    assert_eq!(sysl.op, Op::Sysl);
    assert_eq!(sysl.rt, 3);
    assert_eq!(sysl.payload, Payload::SysOp { op1: 0, op2: 0, crn: 4, crm: 0 });
}
