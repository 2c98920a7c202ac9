use nx_lifter::decode::code_words;
use nx_lifter::decode::decode_batch;
use nx_lifter::decode::decode_code_segment;
use nx_lifter::decode::decode_word;
use nx_lifter::image::SwitchExecutable;
use nx_lifter::inst::AddrMode;
use nx_lifter::inst::FLAG_SET_FLAGS;
use nx_lifter::inst::FLAG_W32;
use nx_lifter::inst::InvalidReason;
use nx_lifter::inst::Payload;
use nx_lifter::opcode::Op;

#[test]
fn sub_sp_with_nonzero_immediate_stays_subtract() {
    // sub sp, sp, #32: the immediate is non-zero, so no stack-pointer-move
    // alias applies.
    let i = decode_word(0xd10083ff);
    assert_eq!(i.op, Op::SubImm);
    assert_eq!(i.rd, 31);
    assert_eq!(i.rn, 31);
    assert_eq!(i.flags, 0);
    assert_eq!(i.payload, Payload::Imm { imm: 32 });
}

#[test]
fn zero_immediate_to_stack_pointer_becomes_mov_sp() {
    // The subtract form with a zero shift and zero immediate targeting the
    // stack pointer canonicalizes to the stack-pointer move, and so does
    // the add form: alias selection depends on the decoded fields alone.
    let s = decode_word(0xd10003ff);
    assert_eq!(s.op, Op::MovSp);
    assert_eq!(s.payload, Payload::Empty);
    let a = decode_word(0x910003ff);
    assert_eq!(a.op, Op::MovSp);
    assert_eq!(a.rd, 31);
    assert_eq!(a.rn, 31);
}

#[test]
fn zero_immediate_between_plain_registers_is_not_mov_sp() {
    // sub w1, w2, #0: no stack pointer involved.
    let i = decode_word(0x51000041);
    assert_eq!(i.op, Op::SubImm);
    assert_eq!(i.rd, 1);
    assert_eq!(i.rn, 2);
    assert_eq!(i.flags, FLAG_W32);
    assert_eq!(i.payload, Payload::Imm { imm: 0 });
}

#[test]
fn flag_setting_zero_destination_becomes_compare() {
    // cmp w1, #5 is subs wzr, w1, #5.
    let i = decode_word(0x7100143f);
    assert_eq!(i.op, Op::CmpImm);
    assert_eq!(i.rn, 1);
    assert_eq!(i.flags, FLAG_W32 | FLAG_SET_FLAGS);
    assert_eq!(i.payload, Payload::Imm { imm: 5 });
}

#[test]
fn shifted_add_immediate_is_scaled() {
    // add x3, x4, #1, lsl #12
    let i = decode_word(0x91400483);
    assert_eq!(i.op, Op::AddImm);
    assert_eq!(i.rd, 3);
    assert_eq!(i.rn, 4);
    assert_eq!(i.payload, Payload::Imm { imm: 0x1000 });
}

#[test]
fn movz_collapses_to_canonical_move() {
    // mov w8, #2
    let i = decode_word(0x52800048);
    assert_eq!(i.op, Op::MovImm);
    assert_eq!(i.rd, 8);
    assert_eq!(i.flags, FLAG_W32);
    assert_eq!(i.payload, Payload::Imm { imm: 2 });
}

#[test]
fn movn_collapses_with_value_computed() {
    // movn w0, #0 moves the complement within the 32-bit width.
    let w = decode_word(0x12800000);
    assert_eq!(w.op, Op::MovImm);
    assert_eq!(w.payload, Payload::Imm { imm: 0xFFFF_FFFF });
    // movn x0, #0 complements the full width.
    let x = decode_word(0x92800000);
    assert_eq!(x.payload, Payload::Imm { imm: u64::MAX });
}

#[test]
fn movk_keeps_field_and_shift() {
    // movk x8, #1, lsl #16
    let i = decode_word(0xf2a00028);
    assert_eq!(i.op, Op::Movk);
    assert_eq!(i.rd, 8);
    assert_eq!(i.payload, Payload::WideMove { imm16: 1, lsl: 16 });
}

#[test]
fn reserved_wide_move_shift_is_invalid() {
    // A 32-bit MOVN naming shift position 2 is a reserved pattern.
    let i = decode_word(0x12c00000);
    assert_eq!(i.op, Op::Invalid);
    assert_eq!(i.payload, Payload::Reason { why: InvalidReason::WideMoveShiftRange });
}

#[test]
fn unallocated_wide_move_row_is_unknown() {
    let i = decode_word(0x32800000);
    assert_eq!(i.op, Op::Unknown);
    assert_eq!(i.payload, Payload::Raw { word: 0x32800000 });
}

#[test]
fn udf_carries_its_immediate() {
    let i = decode_word(0x0000abcd);
    assert_eq!(i.op, Op::Udf);
    assert_eq!(i.payload, Payload::Imm { imm: 0xabcd });
}

#[test]
fn unmatched_word_is_unknown_with_raw_word() {
    let i = decode_word(0xffffffff);
    assert_eq!(i.op, Op::Unknown);
    assert_eq!(i.payload, Payload::Raw { word: 0xffffffff });
}

#[test]
fn ret_names_the_link_register() {
    let i = decode_word(0xd65f03c0);
    assert_eq!(i.op, Op::Ret);
    assert_eq!(i.rn, 30);
    assert_eq!(i.payload, Payload::Empty);
    let other = decode_word(0xd65f0020);
    assert_eq!(other.op, Op::Ret);
    assert_eq!(other.rn, 1);
}

#[test]
fn register_branches_decode_rn() {
    let br = decode_word(0xd61f0060);
    assert_eq!(br.op, Op::Br);
    assert_eq!(br.rn, 3);
    let blr = decode_word(0xd63f0080);
    assert_eq!(blr.op, Op::Blr);
    assert_eq!(blr.rn, 4);
}

#[test]
fn unconditional_branches_scale_signed_offsets() {
    let fwd = decode_word(0x14000002);
    assert_eq!(fwd.op, Op::B);
    assert_eq!(fwd.payload, Payload::Offset { offset: 8 });
    let back = decode_word(0x17ffffff);
    assert_eq!(back.op, Op::B);
    assert_eq!(back.payload, Payload::Offset { offset: -4 });
    let link = decode_word(0x94000001);
    assert_eq!(link.op, Op::Bl);
    assert_eq!(link.payload, Payload::Offset { offset: 4 });
}

#[test]
fn conditional_branch_keeps_condition_in_flag_nibble() {
    // b.ne #16
    let i = decode_word(0x54000081);
    assert_eq!(i.op, Op::BCond);
    assert_eq!(i.cond(), 1);
    assert_eq!(i.payload, Payload::Offset { offset: 16 });
}

#[test]
fn compare_and_branch_decodes_register_and_offset() {
    let z = decode_word(0x34000040);
    assert_eq!(z.op, Op::Cbz);
    assert_eq!(z.rt, 0);
    assert_eq!(z.flags, FLAG_W32);
    assert_eq!(z.payload, Payload::Offset { offset: 8 });
    let nz = decode_word(0xb5ffffc3);
    assert_eq!(nz.op, Op::Cbnz);
    assert_eq!(nz.rt, 3);
    assert_eq!(nz.flags, 0);
    assert_eq!(nz.payload, Payload::Offset { offset: -8 });
}

#[test]
fn test_and_branch_decodes_bit_and_offset() {
    // tbz x5, #33, #4
    let z = decode_word(0xb6080025);
    assert_eq!(z.op, Op::Tbz);
    assert_eq!(z.rt, 5);
    assert_eq!(z.payload, Payload::TestBranch { offset: 4, bit: 33 });
    // tbnz w2, #3, #-4
    let nz = decode_word(0x371fffe2);
    assert_eq!(nz.op, Op::Tbnz);
    assert_eq!(nz.rt, 2);
    assert_eq!(nz.flags, FLAG_W32);
    assert_eq!(nz.payload, Payload::TestBranch { offset: -4, bit: 3 });
}

#[test]
fn pc_relative_addresses_decode_byte_and_page_offsets() {
    // adr x1, #12
    let adr = decode_word(0x10000061);
    assert_eq!(adr.op, Op::Adr);
    assert_eq!(adr.rd, 1);
    assert_eq!(adr.payload, Payload::Offset { offset: 12 });
    // adrp x2, with a page offset of -1
    let adrp = decode_word(0xf0ffffe2);
    assert_eq!(adrp.op, Op::Adrp);
    assert_eq!(adrp.rd, 2);
    assert_eq!(adrp.payload, Payload::Offset { offset: -4096 });
}

#[test]
fn exception_generation_decodes_class_and_immediate() {
    let svc = decode_word(0xd4000021);
    assert_eq!(svc.op, Op::Svc);
    assert_eq!(svc.payload, Payload::Imm { imm: 1 });
    let brk = decode_word(0xd4200040);
    assert_eq!(brk.op, Op::Brk);
    assert_eq!(brk.payload, Payload::Imm { imm: 2 });
}

#[test]
fn allocated_hints_collapse_to_hint() {
    let nop = decode_word(0xd503201f);
    assert_eq!(nop.op, Op::Hint);
    let yield_hint = decode_word(0xd503203f);
    assert_eq!(yield_hint.op, Op::Hint);
}

#[test]
fn loads_and_stores_scale_unsigned_offsets() {
    // str w8, [sp, #12]
    let st = decode_word(0xb9000fe8);
    assert_eq!(st.op, Op::Str);
    assert_eq!(st.rt, 8);
    assert_eq!(st.rn, 31);
    assert_eq!(st.flags, FLAG_W32);
    assert_eq!(st.payload, Payload::Mem { mode: AddrMode::OffImm, offset: 12 });
    // ldr w8, [sp, #8]
    let ld = decode_word(0xb9400be8);
    assert_eq!(ld.op, Op::Ldr);
    assert_eq!(ld.payload, Payload::Mem { mode: AddrMode::OffImm, offset: 8 });
    // str x8, [sp, #16]
    let st64 = decode_word(0xf9000be8);
    assert_eq!(st64.op, Op::Str);
    assert_eq!(st64.flags, 0);
    assert_eq!(st64.payload, Payload::Mem { mode: AddrMode::OffImm, offset: 16 });
}

#[test]
fn uncovered_load_store_rows_are_unknown() {
    // strb w1, [x0]: byte accesses lie outside the decoder's coverage.
    let b = decode_word(0x39000001);
    assert_eq!(b.op, Op::Unknown);
    // The prefetch row of the 64-bit size.
    let p = decode_word(0xf9800000);
    assert_eq!(p.op, Op::Unknown);
}

#[test]
fn decode_batch_returns_one_record_per_word() {
    let words = vec![0xffffffffu32, 0x0000abcd, 0xd503201f, 0x12c00000, 0xd65f03c0];
    let (n, records) = decode_batch(&words, words.len());
    assert_eq!(n, 5);
    assert_eq!(records.len(), 5);
    for (i, r) in records.iter().enumerate() {
        assert_eq!(*r, decode_word(words[i]));
    }
}

#[test]
fn decode_batch_honors_the_requested_count() {
    let words = vec![0xd503201fu32, 0xffffffff, 0xd65f03c0];
    let (n, records) = decode_batch(&words, 2);
    assert_eq!(n, 2);
    assert_eq!(records.len(), 2);
    assert_eq!(records[0].op, Op::Hint);
    assert_eq!(records[1].op, Op::Unknown);
}

#[test]
fn stack_frame_function_decodes_in_order() {
    // A function that zero-initializes two stack slots, increments one,
    // stores a constant into the other, and returns the constant.
    let words: Vec<u32> = vec![
        0xd10043ff, // sub sp, sp, #16
        0xb9000fff, // str wzr, [sp, #12]
        0xb9000bff, // str wzr, [sp, #8]
        0xb9400be8, // ldr w8, [sp, #8]
        0x11000508, // add w8, w8, #1
        0xb9000be8, // str w8, [sp, #8]
        0x52800048, // mov w8, #2
        0xb90007e8, // str w8, [sp, #4]
        0xb94007e0, // ldr w0, [sp, #4]
        0x910043ff, // add sp, sp, #16
        0xd65f03c0, // ret
    ];
    let (n, records) = decode_batch(&words, words.len());
    assert_eq!(n, 11);
    let expected = [
        Op::SubImm,
        Op::Str,
        Op::Str,
        Op::Ldr,
        Op::AddImm,
        Op::Str,
        Op::MovImm,
        Op::Str,
        Op::Ldr,
        Op::AddImm,
        Op::Ret,
    ];
    for (i, r) in records.iter().enumerate() {
        assert_eq!(r.op, expected[i], "word {i}");
    }
    assert_eq!(records[0].payload, Payload::Imm { imm: 16 });
    assert_eq!(records[1].payload, Payload::Mem { mode: AddrMode::OffImm, offset: 12 });
    assert_eq!(records[4].payload, Payload::Imm { imm: 1 });
    assert_eq!(records[6].payload, Payload::Imm { imm: 2 });
    assert_eq!(records[9].payload, Payload::Imm { imm: 16 });
    assert_eq!(records[10].rn, 30);
    assert_eq!(records[10].payload, Payload::Empty);
}

#[test]
fn code_words_splits_little_endian_and_drops_tail() {
    let bytes = vec![0xff, 0x43, 0x00, 0xd1, 0x1f, 0x20, 0x03, 0xd5, 0xaa];
    let words = code_words(&bytes);
    assert_eq!(words, vec![0xd10043ff, 0xd503201f]);
}

#[test]
fn loaded_code_segment_decodes_end_to_end() {
    // A container whose code segment holds one no-op and a return.
    let mut raw = vec![0u8; 0x80];
    raw[0x10] = b'N';
    raw[0x11] = b'R';
    raw[0x12] = b'O';
    raw[0x13] = b'0';
    // text descriptor: offset 0x80, size 8; the other segments are empty.
    raw[0x20] = 0x80;
    raw[0x24] = 8;
    raw.extend_from_slice(&[0x1f, 0x20, 0x03, 0xd5, 0xc0, 0x03, 0x5f, 0xd6]);
    let img = SwitchExecutable::read_nro(raw).unwrap();
    let words = code_words(img.text());
    let (n, records) = decode_batch(&words, words.len());
    assert_eq!(n, 2);
    assert_eq!(records[0].op, Op::Hint);
    assert_eq!(records[1].op, Op::Ret);
    // The one-call form yields the same records.
    assert_eq!(decode_code_segment(&img), records);
}
