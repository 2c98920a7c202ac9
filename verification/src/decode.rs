//! Decoding raw 32-bit instruction words into canonical records.
//!
//! `decode_spec` fixes, word by word, what decoding yields; `decode_word`
//! and `decode_batch` compute exactly that.  The decoder covers the
//! instruction groups whose canonicalization rules the opcode set documents
//! as load-bearing: the data-processing immediate groups (PC-relative
//! addressing, add/subtract with the stack-pointer-move alias, logical
//! with the bitmask immediate expanded and its test and move aliases, wide
//! moves, bitfields with their shift, extension and insert aliases), the branch,
//! exception, hint, barrier and system groups, the data-processing register
//! groups (logical and add/subtract with the move, negate and compare
//! aliases, conditional select with its inverted-condition aliases,
//! conditional compare, carry arithmetic, one-, two- and three-source
//! operations), and the integer loads and stores with immediate addressing,
//! single and pair.  Every other word — including the SIMD and
//! floating-point encodings and the remaining load/store forms — decodes,
//! in-band, to an `Unknown` record carrying the raw word; decoding is total
//! and never fails.

use vstd::prelude::*;

use crate::image::SwitchExecutable;
use crate::image::le32_at;
use crate::image::read_u32_le;
use crate::inst::AddrMode;
use crate::inst::ExtendKind;
use crate::inst::FLAG_SET_FLAGS;
use crate::inst::FLAG_W32;
use crate::inst::Inst;
use crate::inst::InvalidReason;
use crate::inst::Payload;
use crate::inst::ShiftKind;
use crate::inst::payload_fits;
use crate::opcode::Op;

verus! {

/// Bounds of the bit fields the decoder extracts; every mask keeps its
/// value below the power of two the field's width names.
proof fn lemma_field_bounds(w: u32)
    by (bit_vector)
    ensures
        w & 0x1F < 32,
        (w >> 5) & 0x1F < 32,
        (w >> 10) & 0xFFF < 0x1000,
        (w >> 5) & 0xFFFF < 0x10000,
        w & 0xFFFF < 0x10000,
        w & 0xF < 16,
        w & 3 < 4,
        w >> 31 < 2,
        (w >> 21) & 7 < 8,
        (w >> 2) & 7 < 8,
        (w >> 21) & 3 < 4,
        (w >> 29) & 3 < 4,
        (w >> 30) & 3 < 4,
        (w >> 22) & 3 < 4,
        (w >> 5) & 0x7FFFF < 0x80000,
        (w >> 5) & 0x3FFF < 0x4000,
        (w >> 19) & 0x1F < 32,
        w & 0x3FFFFFF < 0x4000000,
        ((((w >> 5) & 0x7FFFF) << 2) | ((w >> 29) & 3)) < 0x200000,
        (((w >> 31) << 5) | ((w >> 19) & 0x1F)) < 64,
        (w >> 16) & 0x1F < 32,
        (w >> 10) & 0x3F < 0x40,
        (w >> 10) & 0x1F < 32,
        (w >> 12) & 0xF < 16,
        ((w >> 12) & 0xF) ^ 1 < 16,
        (w >> 13) & 7 < 8,
        (w >> 10) & 7 < 8,
        (w >> 16) & 0x3F < 0x40,
        (w >> 15) & 0x7F < 0x80,
        (w >> 12) & 0x1FF < 0x200,
        (w >> 8) & 0xF < 16,
        (w >> 5) & 7 < 8,
        (w >> 16) & 7 < 8,
        (w >> 5) & 0x7FFF < 0x8000,
{
}

// The group predicates below name the fixed opcode bits of each encoding
// group the decoder covers; `decode_spec` tries them in order, so the
// groups need not be syntactically disjoint.
/// Permanently undefined: the top halfword is zero.
pub open spec fn is_udf(w: u32) -> bool {
    w >> 16 == 0
}

/// PC-relative addressing (ADR, ADRP).
pub open spec fn is_adr_group(w: u32) -> bool {
    (w >> 24) & 0x1F == 0x10
}

/// Add/subtract (immediate).
pub open spec fn is_addsub_imm(w: u32) -> bool {
    (w >> 23) & 0x3F == 0x22
}

/// Move wide (immediate): MOVN, MOVZ, MOVK.
pub open spec fn is_move_wide(w: u32) -> bool {
    (w >> 23) & 0x3F == 0x25
}

/// Conditional branch (immediate).
pub open spec fn is_bcond(w: u32) -> bool {
    (w >> 24) & 0xFF == 0x54 && w & 0x10 == 0
}

/// Exception generation (SVC, HVC, SMC, BRK, HLT, DCPS).
pub open spec fn is_exception(w: u32) -> bool {
    (w >> 24) & 0xFF == 0xD4
}

/// The hint space; every allocated hint decodes to `Hint`.
pub open spec fn is_hint(w: u32) -> bool {
    w & 0xFFFFF01F == 0xD503201F
}

/// Unconditional branch (register): BR, BLR, RET.
pub open spec fn is_branch_reg(w: u32) -> bool {
    ||| w & 0xFFFFFC1F == 0xD61F0000
    ||| w & 0xFFFFFC1F == 0xD63F0000
    ||| w & 0xFFFFFC1F == 0xD65F0000
}

/// Unconditional branch (immediate): B, BL.
pub open spec fn is_b_imm(w: u32) -> bool {
    (w >> 26) & 0x1F == 0x05
}

/// Compare and branch (immediate): CBZ, CBNZ.
pub open spec fn is_cb(w: u32) -> bool {
    (w >> 25) & 0x3F == 0x1A
}

/// Test and branch (immediate): TBZ, TBNZ.
pub open spec fn is_tb(w: u32) -> bool {
    (w >> 25) & 0x3F == 0x1B
}

/// Load/store register, unsigned immediate offset, integer registers.
pub open spec fn is_ldst_uimm(w: u32) -> bool {
    (w >> 24) & 0x3F == 0x39
}

/// An `Unknown` record carrying the raw word.
pub open spec fn unknown_inst(w: u32) -> Inst {
    Inst { op: Op::Unknown, flags: 0, rd: 0, rn: 0, rt: 0, payload: Payload::Raw { word: w } }
}

/// An `Invalid` record carrying the reason.
pub open spec fn invalid_inst(why: InvalidReason) -> Inst {
    Inst { op: Op::Invalid, flags: 0, rd: 0, rn: 0, rt: 0, payload: Payload::Reason { why } }
}

/// The 32-bit-register modifier: set when the size bit is clear.
pub open spec fn w32_flag(sf: u32) -> u8 {
    if sf == 0 {
        FLAG_W32
    } else {
        0
    }
}

/// What a PC-relative addressing word decodes to.
pub open spec fn adr_spec(w: u32) -> Inst {
    let page = w >> 31;
    let imm21 = (((w >> 5) & 0x7FFFF) << 2) | ((w >> 29) & 3);
    let simm = if imm21 >= 0x100000 {
        imm21 - 0x200000
    } else {
        imm21 as int
    };
    let off = if page == 1 {
        simm * 4096
    } else {
        simm
    };
    Inst {
        op: if page == 1 {
            Op::Adrp
        } else {
            Op::Adr
        },
        flags: 0,
        rd: (w & 0x1F) as u8,
        rn: 0,
        rt: 0,
        payload: Payload::Offset { offset: off as i64 },
    }
}

/// What an add/subtract-immediate word decodes to.  The flag-setting forms
/// with a zero-register destination canonicalize to the compare aliases;
/// the non-flag-setting forms with a zero shift, a zero immediate and the
/// stack pointer as destination or source canonicalize to the
/// stack-pointer move.
pub open spec fn addsub_imm_spec(w: u32) -> Inst {
    let sf = w >> 31;
    let sub = (w >> 30) & 1;
    let setf = (w >> 29) & 1;
    let sh = (w >> 22) & 1;
    let imm12 = (w >> 10) & 0xFFF;
    let rn = ((w >> 5) & 0x1F) as u8;
    let rd = (w & 0x1F) as u8;
    let imm = if sh == 1 {
        (imm12 as u64) << 12
    } else {
        imm12 as u64
    };
    if setf == 0 && sh == 0 && imm12 == 0 && (rd == 31 || rn == 31) {
        Inst { op: Op::MovSp, flags: w32_flag(sf), rd, rn, rt: 0, payload: Payload::Empty }
    } else {
        let flags = w32_flag(sf) | if setf == 1 {
            FLAG_SET_FLAGS
        } else {
            0
        };
        if setf == 1 && rd == 31 {
            Inst {
                op: if sub == 1 {
                    Op::CmpImm
                } else {
                    Op::CmnImm
                },
                flags,
                rd,
                rn,
                rt: 0,
                payload: Payload::Imm { imm },
            }
        } else {
            Inst {
                op: if sub == 1 {
                    Op::SubImm
                } else {
                    Op::AddImm
                },
                flags,
                rd,
                rn,
                rt: 0,
                payload: Payload::Imm { imm },
            }
        }
    }
}

/// What a move-wide word decodes to.  MOVN and MOVZ collapse to the
/// canonical immediate move with the moved value computed; MOVK keeps its
/// field and shift.  The unallocated opc row decodes to `Unknown`; a
/// 32-bit form naming a shift past the low word is a reserved pattern and
/// decodes to `Invalid`.
pub open spec fn move_wide_spec(w: u32) -> Inst {
    let sf = w >> 31;
    let opc = (w >> 29) & 3;
    let hw = (w >> 21) & 3;
    let imm16 = (w >> 5) & 0xFFFF;
    let rd = (w & 0x1F) as u8;
    if opc == 1 {
        unknown_inst(w)
    } else if sf == 0 && hw >= 2 {
        invalid_inst(InvalidReason::WideMoveShiftRange)
    } else if opc == 3 {
        Inst {
            op: Op::Movk,
            flags: w32_flag(sf),
            rd,
            rn: 0,
            rt: 0,
            payload: Payload::WideMove { imm16, lsl: (16 * hw) as u32 },
        }
    } else {
        let shifted = (imm16 as u64) << ((16 * hw) as u64);
        let value = if opc == 0 {
            if sf == 0 {
                !shifted & 0xFFFFFFFFu64
            } else {
                !shifted
            }
        } else {
            shifted
        };
        Inst {
            op: Op::MovImm,
            flags: w32_flag(sf),
            rd,
            rn: 0,
            rt: 0,
            payload: Payload::Imm { imm: value },
        }
    }
}

/// What a conditional-branch word decodes to: the condition sits in the
/// flag nibble, the scaled signed offset in the payload.
pub open spec fn bcond_spec(w: u32) -> Inst {
    let imm19 = (w >> 5) & 0x7FFFF;
    let off = if imm19 >= 0x40000 {
        (imm19 - 0x80000) * 4
    } else {
        imm19 * 4
    };
    Inst {
        op: Op::BCond,
        flags: ((w & 0xF) as u8) << 4,
        rd: 0,
        rn: 0,
        rt: 0,
        payload: Payload::Offset { offset: off as i64 },
    }
}

/// What an exception-generation word decodes to; the rows that match no
/// allocated instruction decode to `Unknown`.
pub open spec fn exception_spec(w: u32) -> Inst {
    let opc = (w >> 21) & 7;
    let op2 = (w >> 2) & 7;
    let ll = w & 3;
    let imm16 = (w >> 5) & 0xFFFF;
    if op2 != 0 {
        unknown_inst(w)
    } else {
        let record = Inst {
            op: Op::Svc,
            flags: 0,
            rd: 0,
            rn: 0,
            rt: 0,
            payload: Payload::Imm { imm: imm16 as u64 },
        };
        if opc == 0 && ll == 1 {
            record
        } else if opc == 0 && ll == 2 {
            Inst { op: Op::Hvc, ..record }
        } else if opc == 0 && ll == 3 {
            Inst { op: Op::Smc, ..record }
        } else if opc == 1 && ll == 0 {
            Inst { op: Op::Brk, ..record }
        } else if opc == 2 && ll == 0 {
            Inst { op: Op::Hlt, ..record }
        } else if opc == 5 && ll == 1 {
            Inst { op: Op::Dcps1, ..record }
        } else if opc == 5 && ll == 2 {
            Inst { op: Op::Dcps2, ..record }
        } else if opc == 5 && ll == 3 {
            Inst { op: Op::Dcps3, ..record }
        } else {
            unknown_inst(w)
        }
    }
}

/// What a register-branch word decodes to: BR, BLR or RET through Rn.
pub open spec fn branch_reg_spec(w: u32) -> Inst {
    let rn = ((w >> 5) & 0x1F) as u8;
    let op = if w & 0xFFFFFC1F == 0xD61F0000 {
        Op::Br
    } else if w & 0xFFFFFC1F == 0xD63F0000 {
        Op::Blr
    } else {
        Op::Ret
    };
    Inst { op, flags: 0, rd: 0, rn, rt: 0, payload: Payload::Empty }
}

/// What an unconditional immediate branch decodes to: B or BL with the
/// scaled signed offset.
pub open spec fn b_imm_spec(w: u32) -> Inst {
    let link = w >> 31;
    let imm26 = w & 0x3FFFFFF;
    let off = if imm26 >= 0x2000000 {
        (imm26 - 0x4000000) * 4
    } else {
        imm26 * 4
    };
    Inst {
        op: if link == 1 {
            Op::Bl
        } else {
            Op::B
        },
        flags: 0,
        rd: 0,
        rn: 0,
        rt: 0,
        payload: Payload::Offset { offset: off as i64 },
    }
}

/// What a compare-and-branch word decodes to: CBZ or CBNZ on Rt.
pub open spec fn cb_spec(w: u32) -> Inst {
    let sf = w >> 31;
    let nonzero = (w >> 24) & 1;
    let imm19 = (w >> 5) & 0x7FFFF;
    let off = if imm19 >= 0x40000 {
        (imm19 - 0x80000) * 4
    } else {
        imm19 * 4
    };
    Inst {
        op: if nonzero == 1 {
            Op::Cbnz
        } else {
            Op::Cbz
        },
        flags: w32_flag(sf),
        rd: 0,
        rn: 0,
        rt: (w & 0x1F) as u8,
        payload: Payload::Offset { offset: off as i64 },
    }
}

/// What a test-and-branch word decodes to: TBZ or TBNZ on one bit of Rt.
pub open spec fn tb_spec(w: u32) -> Inst {
    let b5 = w >> 31;
    let nonzero = (w >> 24) & 1;
    let bit = (b5 << 5) | ((w >> 19) & 0x1F);
    let imm14 = (w >> 5) & 0x3FFF;
    let off = if imm14 >= 0x2000 {
        (imm14 - 0x4000) * 4
    } else {
        imm14 * 4
    };
    Inst {
        op: if nonzero == 1 {
            Op::Tbnz
        } else {
            Op::Tbz
        },
        flags: w32_flag(b5),
        rd: 0,
        rn: 0,
        rt: (w & 0x1F) as u8,
        payload: Payload::TestBranch { offset: off as i64, bit },
    }
}

/// What an integer load/store with unsigned-immediate offset decodes to:
/// LDR or STR of a 32- or 64-bit register, with the immediate scaled by the
/// access size.  The byte, halfword and sign-extending rows are outside the
/// decoder's coverage and decode to `Unknown`.
pub open spec fn ldst_uimm_spec(w: u32) -> Inst {
    let size = (w >> 30) & 3;
    let opc = (w >> 22) & 3;
    let imm12 = (w >> 10) & 0xFFF;
    if (opc == 0 || opc == 1) && (size == 2 || size == 3) {
        Inst {
            op: if opc == 1 {
                Op::Ldr
            } else {
                Op::Str
            },
            flags: if size == 2 {
                FLAG_W32
            } else {
                0
            },
            rd: 0,
            rn: ((w >> 5) & 0x1F) as u8,
            rt: (w & 0x1F) as u8,
            payload: Payload::Mem { mode: AddrMode::OffImm, offset: (imm12 << size) as i64 },
        }
    } else {
        unknown_inst(w)
    }
}

/// Logical (shifted register).
pub open spec fn is_logical_shifted(w: u32) -> bool {
    (w >> 24) & 0x1F == 0x0A
}

/// Add/subtract (shifted register).
pub open spec fn is_addsub_shifted(w: u32) -> bool {
    (w >> 24) & 0x1F == 0x0B && (w >> 21) & 1 == 0
}

/// Add/subtract (extended register).
pub open spec fn is_addsub_ext(w: u32) -> bool {
    (w >> 24) & 0x1F == 0x0B && (w >> 21) & 1 == 1
}

/// Extract (EXTR and its rotate alias).
pub open spec fn is_extr(w: u32) -> bool {
    (w >> 29) & 3 == 0 && (w >> 23) & 0x3F == 0x27
}

/// Data-processing, three sources.
pub open spec fn is_dp3(w: u32) -> bool {
    (w >> 24) & 0x1F == 0x1B
}

/// Conditional select.
pub open spec fn is_csel(w: u32) -> bool {
    (w >> 21) & 0xFF == 0xD4 && (w >> 29) & 1 == 0 && (w >> 11) & 1 == 0
}

/// Conditional compare, register or immediate.
pub open spec fn is_ccmp(w: u32) -> bool {
    (w >> 21) & 0xFF == 0xD2 && (w >> 29) & 1 == 1 && (w >> 10) & 1 == 0 && (w >> 4) & 1 == 0
}

/// Add/subtract with carry.
pub open spec fn is_adc_sbc(w: u32) -> bool {
    (w >> 21) & 0xFF == 0xD0 && (w >> 10) & 0x3F == 0
}

/// Data-processing, one or two sources.
pub open spec fn is_dp12(w: u32) -> bool {
    (w >> 21) & 0xFF == 0xD6 && (w >> 29) & 1 == 0
}

/// The shift kind named by a two-bit shift field.
pub open spec fn shift_kind_of(bits: u32) -> ShiftKind {
    if bits == 0 {
        ShiftKind::Lsl
    } else if bits == 1 {
        ShiftKind::Lsr
    } else if bits == 2 {
        ShiftKind::Asr
    } else {
        ShiftKind::Ror
    }
}

/// The extension named by a three-bit option field.
pub open spec fn extend_kind_of(bits: u32) -> ExtendKind {
    if bits == 0 {
        ExtendKind::Uxtb
    } else if bits == 1 {
        ExtendKind::Uxth
    } else if bits == 2 {
        ExtendKind::Uxtw
    } else if bits == 3 {
        ExtendKind::Uxtx
    } else if bits == 4 {
        ExtendKind::Sxtb
    } else if bits == 5 {
        ExtendKind::Sxth
    } else if bits == 6 {
        ExtendKind::Sxtw
    } else {
        ExtendKind::Sxtx
    }
}

/// What a logical shifted-register word decodes to.  ORR with a zero shift
/// and the zero register as first source canonicalizes to the register
/// move; ORN with the zero register as first source to MVN; ANDS with a
/// zero-register destination to TST.
pub open spec fn logical_shifted_spec(w: u32) -> Inst {
    let sf = w >> 31;
    let opc = (w >> 29) & 3;
    let shift = (w >> 22) & 3;
    let com = (w >> 21) & 1;
    let rm = ((w >> 16) & 0x1F) as u8;
    let imm6 = (w >> 10) & 0x3F;
    let rn = ((w >> 5) & 0x1F) as u8;
    let rd = (w & 0x1F) as u8;
    if sf == 0 && imm6 >= 32 {
        invalid_inst(InvalidReason::ShiftAmountRange)
    } else {
        let sdesc = Payload::ShiftDesc { kind: shift_kind_of(shift), amount: imm6 };
        if opc == 1 && com == 0 && shift == 0 && imm6 == 0 && rn == 31 {
            Inst { op: Op::MovReg, flags: w32_flag(sf), rd, rn, rt: rm, payload: Payload::Empty }
        } else if opc == 1 && com == 1 && rn == 31 {
            Inst { op: Op::Mvn, flags: w32_flag(sf), rd, rn, rt: rm, payload: sdesc }
        } else if opc == 3 && com == 0 && rd == 31 {
            Inst {
                op: Op::TstShifted,
                flags: w32_flag(sf) | FLAG_SET_FLAGS,
                rd,
                rn,
                rt: rm,
                payload: sdesc,
            }
        } else {
            let flags = w32_flag(sf) | if opc == 3 {
                FLAG_SET_FLAGS
            } else {
                0
            };
            let op = if opc == 0 || opc == 3 {
                if com == 1 {
                    Op::Bic
                } else {
                    Op::AndShifted
                }
            } else if opc == 1 {
                if com == 1 {
                    Op::Orn
                } else {
                    Op::OrrShifted
                }
            } else {
                if com == 1 {
                    Op::Eon
                } else {
                    Op::EorShifted
                }
            };
            Inst { op, flags, rd, rn, rt: rm, payload: sdesc }
        }
    }
}

/// What an add/subtract shifted-register word decodes to.  The
/// flag-setting forms with a zero-register destination canonicalize to the
/// compares; a subtract from the zero register to the negate.
pub open spec fn addsub_shifted_spec(w: u32) -> Inst {
    let sf = w >> 31;
    let sub = (w >> 30) & 1;
    let setf = (w >> 29) & 1;
    let shift = (w >> 22) & 3;
    let rm = ((w >> 16) & 0x1F) as u8;
    let imm6 = (w >> 10) & 0x3F;
    let rn = ((w >> 5) & 0x1F) as u8;
    let rd = (w & 0x1F) as u8;
    if shift == 3 {
        invalid_inst(InvalidReason::ShiftKindRange)
    } else if sf == 0 && imm6 >= 32 {
        invalid_inst(InvalidReason::ShiftAmountRange)
    } else {
        let sdesc = Payload::ShiftDesc { kind: shift_kind_of(shift), amount: imm6 };
        let flags = w32_flag(sf) | if setf == 1 {
            FLAG_SET_FLAGS
        } else {
            0
        };
        let op = if setf == 1 && rd == 31 {
            if sub == 1 {
                Op::CmpShifted
            } else {
                Op::CmnShifted
            }
        } else if sub == 1 && rn == 31 {
            Op::Neg
        } else {
            if sub == 1 {
                Op::SubShifted
            } else {
                Op::AddShifted
            }
        };
        Inst { op, flags, rd, rn, rt: rm, payload: sdesc }
    }
}

/// What an add/subtract extended-register word decodes to; register 31
/// reads as the stack pointer here, so only the flag-setting compare
/// aliases apply.
pub open spec fn addsub_ext_spec(w: u32) -> Inst {
    let sf = w >> 31;
    let sub = (w >> 30) & 1;
    let setf = (w >> 29) & 1;
    let opt = (w >> 22) & 3;
    let rm = ((w >> 16) & 0x1F) as u8;
    let option = (w >> 13) & 7;
    let imm3 = (w >> 10) & 7;
    let rn = ((w >> 5) & 0x1F) as u8;
    let rd = (w & 0x1F) as u8;
    if opt != 0 || imm3 > 4 {
        unknown_inst(w)
    } else {
        let edesc = Payload::ExtendDesc { kind: extend_kind_of(option), lsl: imm3 };
        let flags = w32_flag(sf) | if setf == 1 {
            FLAG_SET_FLAGS
        } else {
            0
        };
        let op = if setf == 1 && rd == 31 {
            if sub == 1 {
                Op::CmpExt
            } else {
                Op::CmnExt
            }
        } else {
            if sub == 1 {
                Op::SubExt
            } else {
                Op::AddExt
            }
        };
        Inst { op, flags, rd, rn, rt: rm, payload: edesc }
    }
}

/// What an extract word decodes to: EXTR, or the rotate alias when both
/// sources are one register.
pub open spec fn extr_spec(w: u32) -> Inst {
    let sf = w >> 31;
    let big = (w >> 22) & 1;
    let o0 = (w >> 21) & 1;
    let rm = ((w >> 16) & 0x1F) as u8;
    let imms = (w >> 10) & 0x3F;
    let rn = ((w >> 5) & 0x1F) as u8;
    let rd = (w & 0x1F) as u8;
    if big != sf || o0 == 1 || (sf == 0 && imms >= 32) {
        unknown_inst(w)
    } else {
        Inst {
            op: if rm == rn {
                Op::RorImm
            } else {
                Op::Extr
            },
            flags: w32_flag(sf),
            rd,
            rn,
            rt: rm,
            payload: Payload::Imm { imm: imms as u64 },
        }
    }
}

/// What a three-source data-processing word decodes to.  Each
/// multiply-accumulate whose extra source is the zero register
/// canonicalizes to the corresponding plain multiply, which drops that
/// operand.
pub open spec fn dp3_spec(w: u32) -> Inst {
    let sf = w >> 31;
    let op54 = (w >> 29) & 3;
    let op31 = (w >> 21) & 7;
    let o0 = (w >> 15) & 1;
    let ra = ((w >> 10) & 0x1F) as u8;
    let rm = ((w >> 16) & 0x1F) as u8;
    let rn = ((w >> 5) & 0x1F) as u8;
    let rd = (w & 0x1F) as u8;
    if op54 != 0 || (op31 != 0 && sf == 0) {
        unknown_inst(w)
    } else {
        let record = Inst {
            op: Op::Madd,
            flags: w32_flag(sf),
            rd,
            rn,
            rt: rm,
            payload: Payload::RegExtra { ra },
        };
        let alias = Inst { payload: Payload::Empty, ..record };
        if op31 == 0 && o0 == 0 {
            if ra == 31 {
                Inst { op: Op::Mul, ..alias }
            } else {
                record
            }
        } else if op31 == 0 && o0 == 1 {
            if ra == 31 {
                Inst { op: Op::Mneg, ..alias }
            } else {
                Inst { op: Op::Msub, ..record }
            }
        } else if op31 == 1 && o0 == 0 {
            if ra == 31 {
                Inst { op: Op::Smull, ..alias }
            } else {
                Inst { op: Op::Smaddl, ..record }
            }
        } else if op31 == 1 && o0 == 1 {
            if ra == 31 {
                Inst { op: Op::Smnegl, ..alias }
            } else {
                Inst { op: Op::Smsubl, ..record }
            }
        } else if op31 == 2 && o0 == 0 {
            Inst { op: Op::Smulh, ..alias }
        } else if op31 == 5 && o0 == 0 {
            if ra == 31 {
                Inst { op: Op::Umull, ..alias }
            } else {
                Inst { op: Op::Umaddl, ..record }
            }
        } else if op31 == 5 && o0 == 1 {
            if ra == 31 {
                Inst { op: Op::Umnegl, ..alias }
            } else {
                Inst { op: Op::Umsubl, ..record }
            }
        } else if op31 == 6 && o0 == 0 {
            Inst { op: Op::Umulh, ..alias }
        } else {
            unknown_inst(w)
        }
    }
}

/// What a conditional-select word decodes to.  The increment, invert and
/// negate forms with both sources equal canonicalize to the short aliases
/// with the condition inverted; both sources being the zero register
/// selects the set-to-constant aliases.
pub open spec fn csel_spec(w: u32) -> Inst {
    let sf = w >> 31;
    let neg = (w >> 30) & 1;
    let rm = ((w >> 16) & 0x1F) as u8;
    let cond = (w >> 12) & 0xF;
    let inc = (w >> 10) & 1;
    let rn = ((w >> 5) & 0x1F) as u8;
    let rd = (w & 0x1F) as u8;
    let plain = w32_flag(sf) | (((cond) as u8) << 4);
    let inverted = w32_flag(sf) | (((cond ^ 1) as u8) << 4);
    if neg == 0 && inc == 0 {
        Inst { op: Op::Csel, flags: plain, rd, rn, rt: rm, payload: Payload::Empty }
    } else if neg == 0 && inc == 1 {
        if rm == rn && rn == 31 {
            Inst { op: Op::Cset, flags: inverted, rd, rn, rt: rm, payload: Payload::Empty }
        } else if rm == rn {
            Inst { op: Op::Cinc, flags: inverted, rd, rn, rt: rm, payload: Payload::Empty }
        } else {
            Inst { op: Op::Csinc, flags: plain, rd, rn, rt: rm, payload: Payload::Empty }
        }
    } else if neg == 1 && inc == 0 {
        if rm == rn && rn == 31 {
            Inst { op: Op::Csetm, flags: inverted, rd, rn, rt: rm, payload: Payload::Empty }
        } else if rm == rn {
            Inst { op: Op::Cinv, flags: inverted, rd, rn, rt: rm, payload: Payload::Empty }
        } else {
            Inst { op: Op::Csinv, flags: plain, rd, rn, rt: rm, payload: Payload::Empty }
        }
    } else {
        if rm == rn {
            Inst { op: Op::Cneg, flags: inverted, rd, rn, rt: rm, payload: Payload::Empty }
        } else {
            Inst { op: Op::Csneg, flags: plain, rd, rn, rt: rm, payload: Payload::Empty }
        }
    }
}

/// What a conditional-compare word decodes to: CCMN or CCMP, against a
/// register or an immediate, with the condition in the flag nibble.
pub open spec fn ccmp_spec(w: u32) -> Inst {
    let sf = w >> 31;
    let neg = (w >> 30) & 1;
    let immediate = (w >> 11) & 1;
    let field5 = (w >> 16) & 0x1F;
    let cond = (w >> 12) & 0xF;
    let rn = ((w >> 5) & 0x1F) as u8;
    let op = if neg == 1 {
        if immediate == 1 {
            Op::CcmpImm
        } else {
            Op::CcmpReg
        }
    } else {
        if immediate == 1 {
            Op::CcmnImm
        } else {
            Op::CcmnReg
        }
    };
    Inst {
        op,
        flags: (w32_flag(sf) | FLAG_SET_FLAGS) | ((cond as u8) << 4),
        rd: 0,
        rn,
        rt: 0,
        payload: Payload::CondCompare { nzcv: w & 0xF, imm5: field5 },
    }
}

/// What an add/subtract-with-carry word decodes to; a subtract from the
/// zero register canonicalizes to the negate-with-carry alias.
pub open spec fn adc_sbc_spec(w: u32) -> Inst {
    let sf = w >> 31;
    let sub = (w >> 30) & 1;
    let setf = (w >> 29) & 1;
    let rm = ((w >> 16) & 0x1F) as u8;
    let rn = ((w >> 5) & 0x1F) as u8;
    let rd = (w & 0x1F) as u8;
    let flags = w32_flag(sf) | if setf == 1 {
        FLAG_SET_FLAGS
    } else {
        0
    };
    let op = if sub == 1 && rn == 31 {
        Op::Ngc
    } else if sub == 1 {
        Op::Sbc
    } else {
        Op::Adc
    };
    Inst { op, flags, rd, rn, rt: rm, payload: Payload::Empty }
}

/// What a one- or two-source data-processing word decodes to: divides,
/// variable shifts, CRC accumulation, and the bit and byte reversals.
pub open spec fn dp12_spec(w: u32) -> Inst {
    let sf = w >> 31;
    let one_source = (w >> 30) & 1;
    let rm = ((w >> 16) & 0x1F) as u8;
    let opcode = (w >> 10) & 0x3F;
    let rn = ((w >> 5) & 0x1F) as u8;
    let rd = (w & 0x1F) as u8;
    let record = Inst {
        op: Op::Udiv,
        flags: w32_flag(sf),
        rd,
        rn,
        rt: rm,
        payload: Payload::Empty,
    };
    if one_source == 1 {
        if (w >> 16) & 0x1F != 0 {
            unknown_inst(w)
        } else if opcode == 0 {
            Inst { op: Op::Rbit, rt: 0, ..record }
        } else if opcode == 1 {
            Inst { op: Op::Rev16, rt: 0, ..record }
        } else if opcode == 2 {
            Inst {
                op: if sf == 1 {
                    Op::Rev32
                } else {
                    Op::Rev
                },
                rt: 0,
                ..record
            }
        } else if opcode == 3 && sf == 1 {
            Inst { op: Op::Rev, rt: 0, ..record }
        } else if opcode == 4 {
            Inst { op: Op::Clz, rt: 0, ..record }
        } else if opcode == 5 {
            Inst { op: Op::Cls, rt: 0, ..record }
        } else {
            unknown_inst(w)
        }
    } else {
        if opcode == 2 {
            record
        } else if opcode == 3 {
            Inst { op: Op::Sdiv, ..record }
        } else if opcode == 8 {
            Inst { op: Op::Lslv, ..record }
        } else if opcode == 9 {
            Inst { op: Op::Lsrv, ..record }
        } else if opcode == 10 {
            Inst { op: Op::Asrv, ..record }
        } else if opcode == 11 {
            Inst { op: Op::Rorv, ..record }
        } else if opcode == 16 && sf == 0 {
            Inst { op: Op::Crc32b, ..record }
        } else if opcode == 17 && sf == 0 {
            Inst { op: Op::Crc32h, ..record }
        } else if opcode == 18 && sf == 0 {
            Inst { op: Op::Crc32w, ..record }
        } else if opcode == 19 && sf == 1 {
            Inst { op: Op::Crc32x, ..record }
        } else if opcode == 20 && sf == 0 {
            Inst { op: Op::Crc32cb, ..record }
        } else if opcode == 21 && sf == 0 {
            Inst { op: Op::Crc32ch, ..record }
        } else if opcode == 22 && sf == 0 {
            Inst { op: Op::Crc32cw, ..record }
        } else if opcode == 23 && sf == 1 {
            Inst { op: Op::Crc32cx, ..record }
        } else {
            unknown_inst(w)
        }
    }
}

/// Logical (immediate), with the bitmask immediate expanded.
pub open spec fn is_logical_imm(w: u32) -> bool {
    (w >> 23) & 0x3F == 0x24
}

/// Bitfield (SBFM, BFM, UBFM): every allocated encoding decodes to one of
/// the aliases.
pub open spec fn is_bitfield(w: u32) -> bool {
    (w >> 23) & 0x3F == 0x26
}

/// Load/store register pair, integer registers.
pub open spec fn is_ldst_pair(w: u32) -> bool {
    (w >> 25) & 0x1F == 0x14
}

/// Load/store register with nine-bit signed immediate, integer registers.
pub open spec fn is_ldst_imm9(w: u32) -> bool {
    (w >> 24) & 0x3F == 0x38
}

/// The barrier encodings: CLREX, DSB (with its SSBB and PSSBB rows), DMB,
/// ISB and SB.
pub open spec fn is_barrier(w: u32) -> bool {
    ||| w & 0xFFFFF0FF == 0xD503305F
    ||| w & 0xFFFFF0FF == 0xD503309F
    ||| w & 0xFFFFF0FF == 0xD50330BF
    ||| w & 0xFFFFF0FF == 0xD50330DF
    ||| w == 0xD50330FF
}

/// The system-instruction space: SYS, SYSL, the system-register moves, and
/// the PSTATE writes.
pub open spec fn is_sys_space(w: u32) -> bool {
    (w >> 22) & 0x3FF == 0x354
}

/// The element size exponent of a bitmask immediate: the position of the
/// highest set bit of the seven-bit pattern built from the size bit and
/// the complemented length field, or zero when the pattern reserves no
/// element (a reserved encoding).
pub open spec fn bitmask_len(pat: u32) -> u32 {
    if pat >= 0x40 {
        6
    } else if pat >= 0x20 {
        5
    } else if pat >= 0x10 {
        4
    } else if pat >= 8 {
        3
    } else if pat >= 4 {
        2
    } else if pat >= 2 {
        1
    } else {
        0
    }
}

/// The bitmask immediate encoded by the size bit, rotation field and
/// length field: a run of ones rotated within its element and replicated
/// across the operand width.
/// `recommends` the encoding is allocated; see `logical_imm_spec`.
pub open spec fn bitmask_imm(sf: u32, nbit: u32, immr: u32, imms: u32) -> u64 {
    let len = bitmask_len((nbit << 6) | ((!imms) & 0x3F));
    let esize = 1u32 << len;
    let levels = (esize - 1) as u32;
    let s = imms & levels;
    let r = immr & levels;
    let welem = ((1u64 << ((s + 1) as u64)) - 1) as u64;
    let emask = if esize == 64 {
        !0u64
    } else {
        ((1u64 << (esize as u64)) - 1) as u64
    };
    let rot = if r == 0 {
        welem
    } else {
        ((welem >> (r as u64)) | (welem << ((esize - r) as u64))) & emask
    };
    let v1 = if esize < 64 {
        rot | (rot << (esize as u64))
    } else {
        rot
    };
    let v2 = if 2 * esize < 64 {
        v1 | (v1 << ((2 * esize) as u64))
    } else {
        v1
    };
    let v3 = if 4 * esize < 64 {
        v2 | (v2 << ((4 * esize) as u64))
    } else {
        v2
    };
    let v4 = if 8 * esize < 64 {
        v3 | (v3 << ((8 * esize) as u64))
    } else {
        v3
    };
    let v5 = if 16 * esize < 64 {
        v4 | (v4 << ((16 * esize) as u64))
    } else {
        v4
    };
    if sf == 0 {
        v5 & 0xFFFFFFFF
    } else {
        v5
    }
}

/// What a logical-immediate word decodes to, with the bitmask immediate
/// expanded to its value.  ORR of the zero register canonicalizes to the
/// immediate move — the encoding moves a computable constant, like the
/// wide moves — and the flag-setting AND with a zero-register destination
/// to TST.  The reserved encodings (a 32-bit form with the size bit set,
/// no element length, or a full-width run of ones) decode to `Unknown`.
pub open spec fn logical_imm_spec(w: u32) -> Inst {
    let sf = w >> 31;
    let opc = (w >> 29) & 3;
    let nbit = (w >> 22) & 1;
    let immr = (w >> 16) & 0x3F;
    let imms = (w >> 10) & 0x3F;
    let rn = ((w >> 5) & 0x1F) as u8;
    let rd = (w & 0x1F) as u8;
    let len = bitmask_len((nbit << 6) | ((!imms) & 0x3F));
    let esize = 1u32 << len;
    let levels = (esize - 1) as u32;
    if (sf == 0 && nbit == 1) || len == 0 || imms & levels == levels {
        unknown_inst(w)
    } else {
        let value = bitmask_imm(sf, nbit, immr, imms);
        let record = Inst {
            op: Op::AndImm,
            flags: w32_flag(sf),
            rd,
            rn,
            rt: 0,
            payload: Payload::Imm { imm: value },
        };
        if opc == 0 {
            record
        } else if opc == 1 {
            if rn == 31 {
                Inst { op: Op::MovImm, ..record }
            } else {
                Inst { op: Op::OrrImm, ..record }
            }
        } else if opc == 2 {
            Inst { op: Op::EorImm, ..record }
        } else {
            if rd == 31 {
                Inst { op: Op::TstImm, flags: w32_flag(sf) | FLAG_SET_FLAGS, ..record }
            } else {
                Inst { op: Op::AndImm, flags: w32_flag(sf) | FLAG_SET_FLAGS, ..record }
            }
        }
    }
}

/// What a bitfield word decodes to.  The generic signed, insert and
/// unsigned forms always canonicalize: to the immediate shifts when the
/// field reaches the top of the register, to the extensions when it starts
/// at bit zero with a byte or halfword width, to insert-from-zero when the
/// field wraps, and to the extract forms otherwise.
pub open spec fn bitfield_spec(w: u32) -> Inst {
    let sf = w >> 31;
    let opc = (w >> 29) & 3;
    let nbit = (w >> 22) & 1;
    let immr = (w >> 16) & 0x3F;
    let imms = (w >> 10) & 0x3F;
    let rn = ((w >> 5) & 0x1F) as u8;
    let rd = (w & 0x1F) as u8;
    if opc == 3 || nbit != sf || (sf == 0 && (immr >= 32 || imms >= 32)) {
        unknown_inst(w)
    } else {
        let ws: u32 = if sf == 1 {
            64
        } else {
            32
        };
        let record = Inst {
            op: Op::Sbfx,
            flags: w32_flag(sf),
            rd,
            rn,
            rt: 0,
            payload: Payload::Bitfield { lsb: immr, width: (imms - immr + 1) as u32 },
        };
        let from_zero = Payload::Bitfield { lsb: (ws - immr) as u32, width: (imms + 1) as u32 };
        if opc == 0 {
            if imms == ws - 1 {
                Inst {
                    op: Op::AsrImm,
                    payload: Payload::Bitfield { lsb: immr, width: (ws - immr) as u32 },
                    ..record
                }
            } else if immr == 0 && imms == 7 {
                Inst {
                    op: Op::Extend,
                    payload: Payload::ExtendDesc { kind: ExtendKind::Sxtb, lsl: 0 },
                    ..record
                }
            } else if immr == 0 && imms == 15 {
                Inst {
                    op: Op::Extend,
                    payload: Payload::ExtendDesc { kind: ExtendKind::Sxth, lsl: 0 },
                    ..record
                }
            } else if immr == 0 && imms == 31 {
                Inst {
                    op: Op::Extend,
                    payload: Payload::ExtendDesc { kind: ExtendKind::Sxtw, lsl: 0 },
                    ..record
                }
            } else if imms < immr {
                Inst { op: Op::Sbfiz, payload: from_zero, ..record }
            } else {
                record
            }
        } else if opc == 2 {
            if imms == ws - 1 {
                Inst {
                    op: Op::LsrImm,
                    payload: Payload::Bitfield { lsb: immr, width: (ws - immr) as u32 },
                    ..record
                }
            } else if imms + 1 == immr {
                Inst {
                    op: Op::LslImm,
                    payload: Payload::Bitfield {
                        lsb: (ws - 1 - imms) as u32,
                        width: (imms + 1) as u32,
                    },
                    ..record
                }
            } else if immr == 0 && imms == 7 {
                Inst {
                    op: Op::Extend,
                    payload: Payload::ExtendDesc { kind: ExtendKind::Uxtb, lsl: 0 },
                    ..record
                }
            } else if immr == 0 && imms == 15 {
                Inst {
                    op: Op::Extend,
                    payload: Payload::ExtendDesc { kind: ExtendKind::Uxth, lsl: 0 },
                    ..record
                }
            } else if imms < immr {
                Inst { op: Op::Ubfiz, payload: from_zero, ..record }
            } else {
                Inst { op: Op::Ubfx, ..record }
            }
        } else {
            if imms < immr {
                if rn == 31 {
                    Inst { op: Op::Bfc, payload: from_zero, ..record }
                } else {
                    Inst { op: Op::Bfi, payload: from_zero, ..record }
                }
            } else {
                Inst { op: Op::Bfxil, ..record }
            }
        }
    }
}

/// What an integer register-pair load/store decodes to: LDP, STP and the
/// no-allocate pair, with the seven-bit offset scaled by the register size.
/// The sign-extending and unallocated rows stay uncovered.
pub open spec fn ldst_pair_spec(w: u32) -> Inst {
    let opc = w >> 30;
    let mode = (w >> 23) & 3;
    let load = (w >> 22) & 1;
    let imm7 = (w >> 15) & 0x7F;
    let rt2 = ((w >> 10) & 0x1F) as u8;
    let rn = ((w >> 5) & 0x1F) as u8;
    let rt = (w & 0x1F) as u8;
    if opc == 0 || opc == 2 {
        let scale: int = if opc == 2 {
            8
        } else {
            4
        };
        let off = if imm7 >= 0x40 {
            (imm7 - 0x80) * scale
        } else {
            imm7 * scale
        };
        let flags = if opc == 0 {
            FLAG_W32
        } else {
            0
        };
        if mode == 0 {
            Inst {
                op: if load == 1 {
                    Op::Ldnp
                } else {
                    Op::Stnp
                },
                flags,
                rd: 0,
                rn,
                rt,
                payload: Payload::MemPair { mode: AddrMode::OffImm, offset: off as i64, rt2 },
            }
        } else {
            let am = if mode == 1 {
                AddrMode::PostIndex
            } else if mode == 2 {
                AddrMode::OffImm
            } else {
                AddrMode::PreIndex
            };
            Inst {
                op: if load == 1 {
                    Op::Ldp
                } else {
                    Op::Stp
                },
                flags,
                rd: 0,
                rn,
                rt,
                payload: Payload::MemPair { mode: am, offset: off as i64, rt2 },
            }
        }
    } else {
        unknown_inst(w)
    }
}

/// What an integer load/store with nine-bit signed immediate decodes to:
/// the unscaled-offset, post-index and pre-index forms of LDR and STR.
/// The unprivileged, register-offset, byte, halfword and sign-extending
/// rows stay uncovered.
pub open spec fn ldst_imm9_spec(w: u32) -> Inst {
    let size = (w >> 30) & 3;
    let opc = (w >> 22) & 3;
    let mode = (w >> 10) & 3;
    let imm9 = (w >> 12) & 0x1FF;
    let rn = ((w >> 5) & 0x1F) as u8;
    let rt = (w & 0x1F) as u8;
    if (w >> 21) & 1 == 1 || mode == 2 || !(opc == 0 || opc == 1) || !(size == 2 || size == 3) {
        unknown_inst(w)
    } else {
        let off = if imm9 >= 0x100 {
            imm9 - 0x200
        } else {
            imm9 as int
        };
        let am = if mode == 0 {
            AddrMode::OffImm
        } else if mode == 1 {
            AddrMode::PostIndex
        } else {
            AddrMode::PreIndex
        };
        Inst {
            op: if opc == 1 {
                Op::Ldr
            } else {
                Op::Str
            },
            flags: if size == 2 {
                FLAG_W32
            } else {
                0
            },
            rd: 0,
            rn,
            rt,
            payload: Payload::Mem { mode: am, offset: off as i64 },
        }
    }
}

/// What a barrier word decodes to.  The zero and four rows of the data
/// synchronization barrier are the speculative store bypass barriers; the
/// other barriers keep their option field as an immediate.
pub open spec fn barrier_spec(w: u32) -> Inst {
    let crm = (w >> 8) & 0xF;
    let record = Inst { op: Op::Sb, flags: 0, rd: 0, rn: 0, rt: 0, payload: Payload::Empty };
    if w == 0xD50330FF {
        record
    } else if w & 0xFFFFF0FF == 0xD503305F {
        Inst { op: Op::Clrex, payload: Payload::Imm { imm: crm as u64 }, ..record }
    } else if w & 0xFFFFF0FF == 0xD50330BF {
        Inst { op: Op::Dmb, payload: Payload::Imm { imm: crm as u64 }, ..record }
    } else if w & 0xFFFFF0FF == 0xD50330DF {
        Inst { op: Op::Isb, payload: Payload::Imm { imm: crm as u64 }, ..record }
    } else {
        if crm == 0 {
            Inst { op: Op::Ssbb, ..record }
        } else if crm == 4 {
            Inst { op: Op::Pssbb, ..record }
        } else {
            Inst { op: Op::Dsb, payload: Payload::Imm { imm: crm as u64 }, ..record }
        }
    }
}

/// What a system-space word decodes to: the system-register moves carry
/// the register selector as an immediate; the generic system instructions
/// carry their operation selectors; the PSTATE writes carry field and
/// value, with the flag-manipulation rows named.  The hint and barrier
/// rows are matched earlier, so what remains of their space is
/// unallocated.
pub open spec fn sys_space_spec(w: u32) -> Inst {
    let l = (w >> 21) & 1;
    let rt = (w & 0x1F) as u8;
    let op1 = (w >> 16) & 7;
    let crn = (w >> 12) & 0xF;
    let crm = (w >> 8) & 0xF;
    let op2 = (w >> 5) & 7;
    if (w >> 20) & 1 == 1 {
        let sysreg = (w >> 5) & 0x7FFF;
        Inst {
            op: if l == 1 {
                Op::Mrs
            } else {
                Op::MsrReg
            },
            flags: 0,
            rd: 0,
            rn: 0,
            rt,
            payload: Payload::Imm { imm: sysreg as u64 },
        }
    } else if (w >> 19) & 1 == 1 {
        Inst {
            op: if l == 1 {
                Op::Sysl
            } else {
                Op::Sys
            },
            flags: 0,
            rd: 0,
            rn: 0,
            rt,
            payload: Payload::SysOp {
                op1: op1 as u16,
                op2: op2 as u16,
                crn: crn as u16,
                crm: crm as u16,
            },
        }
    } else if l == 0 && crn == 4 && rt == 31 {
        let record = Inst { op: Op::Cfinv, flags: 0, rd: 0, rn: 0, rt: 0, payload: Payload::Empty };
        if op1 == 0 && op2 == 0 && crm == 0 {
            record
        } else if op1 == 0 && op2 == 1 && crm == 0 {
            Inst { op: Op::XaFlag, ..record }
        } else if op1 == 0 && op2 == 2 && crm == 0 {
            Inst { op: Op::AxFlag, ..record }
        } else {
            Inst {
                op: Op::MsrImm,
                payload: Payload::PState { field: (op1 << 3) | op2, imm: crm },
                ..record
            }
        }
    } else {
        unknown_inst(w)
    }
}

/// What each 32-bit word decodes to.  The decoder is total: a word in none
/// of the covered groups decodes to an `Unknown` record carrying the word.
pub open spec fn decode_spec(w: u32) -> Inst {
    if is_udf(w) {
        Inst {
            op: Op::Udf,
            flags: 0,
            rd: 0,
            rn: 0,
            rt: 0,
            payload: Payload::Imm { imm: (w & 0xFFFF) as u64 },
        }
    } else if is_adr_group(w) {
        adr_spec(w)
    } else if is_addsub_imm(w) {
        addsub_imm_spec(w)
    } else if is_logical_imm(w) {
        logical_imm_spec(w)
    } else if is_move_wide(w) {
        move_wide_spec(w)
    } else if is_bitfield(w) {
        bitfield_spec(w)
    } else if is_bcond(w) {
        bcond_spec(w)
    } else if is_exception(w) {
        exception_spec(w)
    } else if is_hint(w) {
        Inst { op: Op::Hint, flags: 0, rd: 0, rn: 0, rt: 0, payload: Payload::Empty }
    } else if is_barrier(w) {
        barrier_spec(w)
    } else if is_sys_space(w) {
        sys_space_spec(w)
    } else if is_branch_reg(w) {
        branch_reg_spec(w)
    } else if is_b_imm(w) {
        b_imm_spec(w)
    } else if is_cb(w) {
        cb_spec(w)
    } else if is_tb(w) {
        tb_spec(w)
    } else if is_ldst_uimm(w) {
        ldst_uimm_spec(w)
    } else if is_ldst_pair(w) {
        ldst_pair_spec(w)
    } else if is_ldst_imm9(w) {
        ldst_imm9_spec(w)
    } else if is_logical_shifted(w) {
        logical_shifted_spec(w)
    } else if is_addsub_shifted(w) {
        addsub_shifted_spec(w)
    } else if is_addsub_ext(w) {
        addsub_ext_spec(w)
    } else if is_extr(w) {
        extr_spec(w)
    } else if is_dp3(w) {
        dp3_spec(w)
    } else if is_csel(w) {
        csel_spec(w)
    } else if is_ccmp(w) {
        ccmp_spec(w)
    } else if is_adc_sbc(w) {
        adc_sbc_spec(w)
    } else if is_dp12(w) {
        dp12_spec(w)
    } else {
        unknown_inst(w)
    }
}

/// Builds an `Unknown` record for `w`.
fn make_unknown(w: u32) -> (r: Inst)
    ensures
        r == unknown_inst(w),
{
    Inst { op: Op::Unknown, flags: 0, rd: 0, rn: 0, rt: 0, payload: Payload::Raw { word: w } }
}

/// Decodes one PC-relative addressing word.
fn decode_adr(w: u32) -> (r: Inst)
    ensures
        r == adr_spec(w),
{
    proof {
        lemma_field_bounds(w);
    }
    let page = w >> 31;
    let imm21: u32 = (((w >> 5) & 0x7FFFF) << 2) | ((w >> 29) & 3);
    let simm: i64 = if imm21 >= 0x100000 {
        imm21 as i64 - 0x200000
    } else {
        imm21 as i64
    };
    let off: i64 = if page == 1 {
        simm * 4096
    } else {
        simm
    };
    Inst {
        op: if page == 1 {
            Op::Adrp
        } else {
            Op::Adr
        },
        flags: 0,
        rd: (w & 0x1F) as u8,
        rn: 0,
        rt: 0,
        payload: Payload::Offset { offset: off },
    }
}

/// Decodes one add/subtract-immediate word.
fn decode_addsub_imm(w: u32) -> (r: Inst)
    ensures
        r == addsub_imm_spec(w),
{
    proof {
        lemma_field_bounds(w);
    }
    let sf = w >> 31;
    let sub = (w >> 30) & 1;
    let setf = (w >> 29) & 1;
    let sh = (w >> 22) & 1;
    let imm12 = (w >> 10) & 0xFFF;
    let rn = ((w >> 5) & 0x1F) as u8;
    let rd = (w & 0x1F) as u8;
    let imm: u64 = if sh == 1 {
        (imm12 as u64) << 12
    } else {
        imm12 as u64
    };
    if setf == 0 && sh == 0 && imm12 == 0 && (rd == 31 || rn == 31) {
        Inst {
            op: Op::MovSp,
            flags: if sf == 0 {
                FLAG_W32
            } else {
                0
            },
            rd,
            rn,
            rt: 0,
            payload: Payload::Empty,
        }
    } else {
        let flags = (if sf == 0 {
            FLAG_W32
        } else {
            0
        }) | (if setf == 1 {
            FLAG_SET_FLAGS
        } else {
            0
        });
        let op = if setf == 1 && rd == 31 {
            if sub == 1 {
                Op::CmpImm
            } else {
                Op::CmnImm
            }
        } else {
            if sub == 1 {
                Op::SubImm
            } else {
                Op::AddImm
            }
        };
        Inst { op, flags, rd, rn, rt: 0, payload: Payload::Imm { imm } }
    }
}

/// Decodes one move-wide word.
fn decode_move_wide(w: u32) -> (r: Inst)
    ensures
        r == move_wide_spec(w),
{
    proof {
        lemma_field_bounds(w);
    }
    let sf = w >> 31;
    let opc = (w >> 29) & 3;
    let hw = (w >> 21) & 3;
    let imm16 = (w >> 5) & 0xFFFF;
    let rd = (w & 0x1F) as u8;
    if opc == 1 {
        make_unknown(w)
    } else if sf == 0 && hw >= 2 {
        Inst {
            op: Op::Invalid,
            flags: 0,
            rd: 0,
            rn: 0,
            rt: 0,
            payload: Payload::Reason { why: InvalidReason::WideMoveShiftRange },
        }
    } else if opc == 3 {
        Inst {
            op: Op::Movk,
            flags: if sf == 0 {
                FLAG_W32
            } else {
                0
            },
            rd,
            rn: 0,
            rt: 0,
            payload: Payload::WideMove { imm16, lsl: 16 * hw },
        }
    } else {
        let shifted: u64 = (imm16 as u64) << ((16 * hw) as u64);
        let value: u64 = if opc == 0 {
            if sf == 0 {
                !shifted & 0xFFFFFFFFu64
            } else {
                !shifted
            }
        } else {
            shifted
        };
        Inst {
            op: Op::MovImm,
            flags: if sf == 0 {
                FLAG_W32
            } else {
                0
            },
            rd,
            rn: 0,
            rt: 0,
            payload: Payload::Imm { imm: value },
        }
    }
}

/// Decodes one conditional-branch word.
fn decode_bcond(w: u32) -> (r: Inst)
    ensures
        r == bcond_spec(w),
{
    proof {
        lemma_field_bounds(w);
    }
    let imm19 = (w >> 5) & 0x7FFFF;
    let off: i64 = if imm19 >= 0x40000 {
        (imm19 as i64 - 0x80000) * 4
    } else {
        (imm19 as i64) * 4
    };
    Inst {
        op: Op::BCond,
        flags: ((w & 0xF) as u8) << 4,
        rd: 0,
        rn: 0,
        rt: 0,
        payload: Payload::Offset { offset: off },
    }
}

/// Decodes one exception-generation word.
fn decode_exception(w: u32) -> (r: Inst)
    ensures
        r == exception_spec(w),
{
    proof {
        lemma_field_bounds(w);
    }
    let opc = (w >> 21) & 7;
    let op2 = (w >> 2) & 7;
    let ll = w & 3;
    let imm16 = (w >> 5) & 0xFFFF;
    if op2 != 0 {
        return make_unknown(w);
    }
    let op = if opc == 0 && ll == 1 {
        Op::Svc
    } else if opc == 0 && ll == 2 {
        Op::Hvc
    } else if opc == 0 && ll == 3 {
        Op::Smc
    } else if opc == 1 && ll == 0 {
        Op::Brk
    } else if opc == 2 && ll == 0 {
        Op::Hlt
    } else if opc == 5 && ll == 1 {
        Op::Dcps1
    } else if opc == 5 && ll == 2 {
        Op::Dcps2
    } else if opc == 5 && ll == 3 {
        Op::Dcps3
    } else {
        return make_unknown(w);
    };
    Inst { op, flags: 0, rd: 0, rn: 0, rt: 0, payload: Payload::Imm { imm: imm16 as u64 } }
}

/// Decodes one unconditional immediate branch.
fn decode_b_imm(w: u32) -> (r: Inst)
    ensures
        r == b_imm_spec(w),
{
    proof {
        lemma_field_bounds(w);
    }
    let link = w >> 31;
    let imm26 = w & 0x3FFFFFF;
    let off: i64 = if imm26 >= 0x2000000 {
        (imm26 as i64 - 0x4000000) * 4
    } else {
        (imm26 as i64) * 4
    };
    Inst {
        op: if link == 1 {
            Op::Bl
        } else {
            Op::B
        },
        flags: 0,
        rd: 0,
        rn: 0,
        rt: 0,
        payload: Payload::Offset { offset: off },
    }
}

/// Decodes one compare-and-branch word.
fn decode_cb(w: u32) -> (r: Inst)
    ensures
        r == cb_spec(w),
{
    proof {
        lemma_field_bounds(w);
    }
    let sf = w >> 31;
    let nonzero = (w >> 24) & 1;
    let imm19 = (w >> 5) & 0x7FFFF;
    let off: i64 = if imm19 >= 0x40000 {
        (imm19 as i64 - 0x80000) * 4
    } else {
        (imm19 as i64) * 4
    };
    Inst {
        op: if nonzero == 1 {
            Op::Cbnz
        } else {
            Op::Cbz
        },
        flags: if sf == 0 {
            FLAG_W32
        } else {
            0
        },
        rd: 0,
        rn: 0,
        rt: (w & 0x1F) as u8,
        payload: Payload::Offset { offset: off },
    }
}

/// Decodes one test-and-branch word.
fn decode_tb(w: u32) -> (r: Inst)
    ensures
        r == tb_spec(w),
{
    proof {
        lemma_field_bounds(w);
    }
    let b5 = w >> 31;
    let nonzero = (w >> 24) & 1;
    let bit = (b5 << 5) | ((w >> 19) & 0x1F);
    let imm14 = (w >> 5) & 0x3FFF;
    let off: i64 = if imm14 >= 0x2000 {
        (imm14 as i64 - 0x4000) * 4
    } else {
        (imm14 as i64) * 4
    };
    Inst {
        op: if nonzero == 1 {
            Op::Tbnz
        } else {
            Op::Tbz
        },
        flags: if b5 == 0 {
            FLAG_W32
        } else {
            0
        },
        rd: 0,
        rn: 0,
        rt: (w & 0x1F) as u8,
        payload: Payload::TestBranch { offset: off, bit },
    }
}

/// Decodes one integer load/store word with unsigned-immediate offset.
fn decode_ldst_uimm(w: u32) -> (r: Inst)
    ensures
        r == ldst_uimm_spec(w),
{
    proof {
        lemma_field_bounds(w);
    }
    let size = (w >> 30) & 3;
    let opc = (w >> 22) & 3;
    let imm12 = (w >> 10) & 0xFFF;
    if (opc == 0 || opc == 1) && (size == 2 || size == 3) {
        Inst {
            op: if opc == 1 {
                Op::Ldr
            } else {
                Op::Str
            },
            flags: if size == 2 {
                FLAG_W32
            } else {
                0
            },
            rd: 0,
            rn: ((w >> 5) & 0x1F) as u8,
            rt: (w & 0x1F) as u8,
            payload: Payload::Mem { mode: AddrMode::OffImm, offset: (imm12 << size) as i64 },
        }
    } else {
        make_unknown(w)
    }
}

/// Maps a two-bit shift field to its shift kind.
fn shift_kind(bits: u32) -> (r: ShiftKind)
    ensures
        r == shift_kind_of(bits),
{
    if bits == 0 {
        ShiftKind::Lsl
    } else if bits == 1 {
        ShiftKind::Lsr
    } else if bits == 2 {
        ShiftKind::Asr
    } else {
        ShiftKind::Ror
    }
}

/// Maps a three-bit option field to its extension kind.
fn extend_kind(bits: u32) -> (r: ExtendKind)
    ensures
        r == extend_kind_of(bits),
{
    if bits == 0 {
        ExtendKind::Uxtb
    } else if bits == 1 {
        ExtendKind::Uxth
    } else if bits == 2 {
        ExtendKind::Uxtw
    } else if bits == 3 {
        ExtendKind::Uxtx
    } else if bits == 4 {
        ExtendKind::Sxtb
    } else if bits == 5 {
        ExtendKind::Sxth
    } else if bits == 6 {
        ExtendKind::Sxtw
    } else {
        ExtendKind::Sxtx
    }
}

/// Builds an `Invalid` record for the given reason.
fn make_invalid(why: InvalidReason) -> (r: Inst)
    ensures
        r == invalid_inst(why),
{
    Inst { op: Op::Invalid, flags: 0, rd: 0, rn: 0, rt: 0, payload: Payload::Reason { why } }
}

/// Decodes one logical shifted-register word.
fn decode_logical_shifted(w: u32) -> (r: Inst)
    ensures
        r == logical_shifted_spec(w),
{
    proof {
        lemma_field_bounds(w);
    }
    let sf = w >> 31;
    let opc = (w >> 29) & 3;
    let shift = (w >> 22) & 3;
    let com = (w >> 21) & 1;
    let rm = ((w >> 16) & 0x1F) as u8;
    let imm6 = (w >> 10) & 0x3F;
    let rn = ((w >> 5) & 0x1F) as u8;
    let rd = (w & 0x1F) as u8;
    if sf == 0 && imm6 >= 32 {
        return make_invalid(InvalidReason::ShiftAmountRange);
    }
    let sdesc = Payload::ShiftDesc { kind: shift_kind(shift), amount: imm6 };
    if opc == 1 && com == 0 && shift == 0 && imm6 == 0 && rn == 31 {
        Inst {
            op: Op::MovReg,
            flags: if sf == 0 {
                FLAG_W32
            } else {
                0
            },
            rd,
            rn,
            rt: rm,
            payload: Payload::Empty,
        }
    } else if opc == 1 && com == 1 && rn == 31 {
        Inst {
            op: Op::Mvn,
            flags: if sf == 0 {
                FLAG_W32
            } else {
                0
            },
            rd,
            rn,
            rt: rm,
            payload: sdesc,
        }
    } else if opc == 3 && com == 0 && rd == 31 {
        Inst {
            op: Op::TstShifted,
            flags: (if sf == 0 {
                FLAG_W32
            } else {
                0
            }) | FLAG_SET_FLAGS,
            rd,
            rn,
            rt: rm,
            payload: sdesc,
        }
    } else {
        let flags = (if sf == 0 {
            FLAG_W32
        } else {
            0
        }) | (if opc == 3 {
            FLAG_SET_FLAGS
        } else {
            0
        });
        let op = if opc == 0 || opc == 3 {
            if com == 1 {
                Op::Bic
            } else {
                Op::AndShifted
            }
        } else if opc == 1 {
            if com == 1 {
                Op::Orn
            } else {
                Op::OrrShifted
            }
        } else {
            if com == 1 {
                Op::Eon
            } else {
                Op::EorShifted
            }
        };
        Inst { op, flags, rd, rn, rt: rm, payload: sdesc }
    }
}

/// Decodes one add/subtract shifted-register word.
fn decode_addsub_shifted(w: u32) -> (r: Inst)
    ensures
        r == addsub_shifted_spec(w),
{
    proof {
        lemma_field_bounds(w);
    }
    let sf = w >> 31;
    let sub = (w >> 30) & 1;
    let setf = (w >> 29) & 1;
    let shift = (w >> 22) & 3;
    let rm = ((w >> 16) & 0x1F) as u8;
    let imm6 = (w >> 10) & 0x3F;
    let rn = ((w >> 5) & 0x1F) as u8;
    let rd = (w & 0x1F) as u8;
    if shift == 3 {
        return make_invalid(InvalidReason::ShiftKindRange);
    }
    if sf == 0 && imm6 >= 32 {
        return make_invalid(InvalidReason::ShiftAmountRange);
    }
    let sdesc = Payload::ShiftDesc { kind: shift_kind(shift), amount: imm6 };
    let flags = (if sf == 0 {
        FLAG_W32
    } else {
        0
    }) | (if setf == 1 {
        FLAG_SET_FLAGS
    } else {
        0
    });
    let op = if setf == 1 && rd == 31 {
        if sub == 1 {
            Op::CmpShifted
        } else {
            Op::CmnShifted
        }
    } else if sub == 1 && rn == 31 {
        Op::Neg
    } else {
        if sub == 1 {
            Op::SubShifted
        } else {
            Op::AddShifted
        }
    };
    Inst { op, flags, rd, rn, rt: rm, payload: sdesc }
}

/// Decodes one add/subtract extended-register word.
fn decode_addsub_ext(w: u32) -> (r: Inst)
    ensures
        r == addsub_ext_spec(w),
{
    proof {
        lemma_field_bounds(w);
    }
    let sf = w >> 31;
    let sub = (w >> 30) & 1;
    let setf = (w >> 29) & 1;
    let opt = (w >> 22) & 3;
    let rm = ((w >> 16) & 0x1F) as u8;
    let option = (w >> 13) & 7;
    let imm3 = (w >> 10) & 7;
    let rn = ((w >> 5) & 0x1F) as u8;
    let rd = (w & 0x1F) as u8;
    if opt != 0 || imm3 > 4 {
        return make_unknown(w);
    }
    let edesc = Payload::ExtendDesc { kind: extend_kind(option), lsl: imm3 };
    let flags = (if sf == 0 {
        FLAG_W32
    } else {
        0
    }) | (if setf == 1 {
        FLAG_SET_FLAGS
    } else {
        0
    });
    let op = if setf == 1 && rd == 31 {
        if sub == 1 {
            Op::CmpExt
        } else {
            Op::CmnExt
        }
    } else {
        if sub == 1 {
            Op::SubExt
        } else {
            Op::AddExt
        }
    };
    Inst { op, flags, rd, rn, rt: rm, payload: edesc }
}

/// Decodes one extract word.
fn decode_extr(w: u32) -> (r: Inst)
    ensures
        r == extr_spec(w),
{
    proof {
        lemma_field_bounds(w);
    }
    let sf = w >> 31;
    let big = (w >> 22) & 1;
    let o0 = (w >> 21) & 1;
    let rm = ((w >> 16) & 0x1F) as u8;
    let imms = (w >> 10) & 0x3F;
    let rn = ((w >> 5) & 0x1F) as u8;
    let rd = (w & 0x1F) as u8;
    if big != sf || o0 == 1 || (sf == 0 && imms >= 32) {
        return make_unknown(w);
    }
    Inst {
        op: if rm == rn {
            Op::RorImm
        } else {
            Op::Extr
        },
        flags: if sf == 0 {
            FLAG_W32
        } else {
            0
        },
        rd,
        rn,
        rt: rm,
        payload: Payload::Imm { imm: imms as u64 },
    }
}

/// Decodes one three-source data-processing word.
fn decode_dp3(w: u32) -> (r: Inst)
    ensures
        r == dp3_spec(w),
{
    proof {
        lemma_field_bounds(w);
    }
    let sf = w >> 31;
    let op54 = (w >> 29) & 3;
    let op31 = (w >> 21) & 7;
    let o0 = (w >> 15) & 1;
    let ra = ((w >> 10) & 0x1F) as u8;
    let rm = ((w >> 16) & 0x1F) as u8;
    let rn = ((w >> 5) & 0x1F) as u8;
    let rd = (w & 0x1F) as u8;
    if op54 != 0 || (op31 != 0 && sf == 0) {
        return make_unknown(w);
    }
    let record = Inst {
        op: Op::Madd,
        flags: if sf == 0 {
            FLAG_W32
        } else {
            0
        },
        rd,
        rn,
        rt: rm,
        payload: Payload::RegExtra { ra },
    };
    let alias = Inst { payload: Payload::Empty, ..record };
    if op31 == 0 && o0 == 0 {
        if ra == 31 {
            Inst { op: Op::Mul, ..alias }
        } else {
            record
        }
    } else if op31 == 0 && o0 == 1 {
        if ra == 31 {
            Inst { op: Op::Mneg, ..alias }
        } else {
            Inst { op: Op::Msub, ..record }
        }
    } else if op31 == 1 && o0 == 0 {
        if ra == 31 {
            Inst { op: Op::Smull, ..alias }
        } else {
            Inst { op: Op::Smaddl, ..record }
        }
    } else if op31 == 1 && o0 == 1 {
        if ra == 31 {
            Inst { op: Op::Smnegl, ..alias }
        } else {
            Inst { op: Op::Smsubl, ..record }
        }
    } else if op31 == 2 && o0 == 0 {
        Inst { op: Op::Smulh, ..alias }
    } else if op31 == 5 && o0 == 0 {
        if ra == 31 {
            Inst { op: Op::Umull, ..alias }
        } else {
            Inst { op: Op::Umaddl, ..record }
        }
    } else if op31 == 5 && o0 == 1 {
        if ra == 31 {
            Inst { op: Op::Umnegl, ..alias }
        } else {
            Inst { op: Op::Umsubl, ..record }
        }
    } else if op31 == 6 && o0 == 0 {
        Inst { op: Op::Umulh, ..alias }
    } else {
        make_unknown(w)
    }
}

/// Decodes one conditional-select word.
fn decode_csel(w: u32) -> (r: Inst)
    ensures
        r == csel_spec(w),
{
    proof {
        lemma_field_bounds(w);
    }
    let sf = w >> 31;
    let neg = (w >> 30) & 1;
    let rm = ((w >> 16) & 0x1F) as u8;
    let cond = (w >> 12) & 0xF;
    let inc = (w >> 10) & 1;
    let rn = ((w >> 5) & 0x1F) as u8;
    let rd = (w & 0x1F) as u8;
    let w32 = if sf == 0 {
        FLAG_W32
    } else {
        0
    };
    let plain = w32 | ((cond as u8) << 4);
    let inverted = w32 | (((cond ^ 1) as u8) << 4);
    if neg == 0 && inc == 0 {
        Inst { op: Op::Csel, flags: plain, rd, rn, rt: rm, payload: Payload::Empty }
    } else if neg == 0 && inc == 1 {
        if rm == rn && rn == 31 {
            Inst { op: Op::Cset, flags: inverted, rd, rn, rt: rm, payload: Payload::Empty }
        } else if rm == rn {
            Inst { op: Op::Cinc, flags: inverted, rd, rn, rt: rm, payload: Payload::Empty }
        } else {
            Inst { op: Op::Csinc, flags: plain, rd, rn, rt: rm, payload: Payload::Empty }
        }
    } else if neg == 1 && inc == 0 {
        if rm == rn && rn == 31 {
            Inst { op: Op::Csetm, flags: inverted, rd, rn, rt: rm, payload: Payload::Empty }
        } else if rm == rn {
            Inst { op: Op::Cinv, flags: inverted, rd, rn, rt: rm, payload: Payload::Empty }
        } else {
            Inst { op: Op::Csinv, flags: plain, rd, rn, rt: rm, payload: Payload::Empty }
        }
    } else {
        if rm == rn {
            Inst { op: Op::Cneg, flags: inverted, rd, rn, rt: rm, payload: Payload::Empty }
        } else {
            Inst { op: Op::Csneg, flags: plain, rd, rn, rt: rm, payload: Payload::Empty }
        }
    }
}

/// Decodes one conditional-compare word.
fn decode_ccmp(w: u32) -> (r: Inst)
    ensures
        r == ccmp_spec(w),
{
    proof {
        lemma_field_bounds(w);
    }
    let sf = w >> 31;
    let neg = (w >> 30) & 1;
    let immediate = (w >> 11) & 1;
    let field5 = (w >> 16) & 0x1F;
    let cond = (w >> 12) & 0xF;
    let rn = ((w >> 5) & 0x1F) as u8;
    let op = if neg == 1 {
        if immediate == 1 {
            Op::CcmpImm
        } else {
            Op::CcmpReg
        }
    } else {
        if immediate == 1 {
            Op::CcmnImm
        } else {
            Op::CcmnReg
        }
    };
    Inst {
        op,
        flags: ((if sf == 0 {
            FLAG_W32
        } else {
            0
        }) | FLAG_SET_FLAGS) | ((cond as u8) << 4),
        rd: 0,
        rn,
        rt: 0,
        payload: Payload::CondCompare { nzcv: w & 0xF, imm5: field5 },
    }
}

/// Decodes one add/subtract-with-carry word.
fn decode_adc_sbc(w: u32) -> (r: Inst)
    ensures
        r == adc_sbc_spec(w),
{
    proof {
        lemma_field_bounds(w);
    }
    let sf = w >> 31;
    let sub = (w >> 30) & 1;
    let setf = (w >> 29) & 1;
    let rm = ((w >> 16) & 0x1F) as u8;
    let rn = ((w >> 5) & 0x1F) as u8;
    let rd = (w & 0x1F) as u8;
    let flags = (if sf == 0 {
        FLAG_W32
    } else {
        0
    }) | (if setf == 1 {
        FLAG_SET_FLAGS
    } else {
        0
    });
    let op = if sub == 1 && rn == 31 {
        Op::Ngc
    } else if sub == 1 {
        Op::Sbc
    } else {
        Op::Adc
    };
    Inst { op, flags, rd, rn, rt: rm, payload: Payload::Empty }
}

/// Decodes one one- or two-source data-processing word.
fn decode_dp12(w: u32) -> (r: Inst)
    ensures
        r == dp12_spec(w),
{
    proof {
        lemma_field_bounds(w);
    }
    let sf = w >> 31;
    let one_source = (w >> 30) & 1;
    let rm = ((w >> 16) & 0x1F) as u8;
    let opcode = (w >> 10) & 0x3F;
    let rn = ((w >> 5) & 0x1F) as u8;
    let rd = (w & 0x1F) as u8;
    let record = Inst {
        op: Op::Udiv,
        flags: if sf == 0 {
            FLAG_W32
        } else {
            0
        },
        rd,
        rn,
        rt: rm,
        payload: Payload::Empty,
    };
    if one_source == 1 {
        if (w >> 16) & 0x1F != 0 {
            make_unknown(w)
        } else if opcode == 0 {
            Inst { op: Op::Rbit, rt: 0, ..record }
        } else if opcode == 1 {
            Inst { op: Op::Rev16, rt: 0, ..record }
        } else if opcode == 2 {
            Inst {
                op: if sf == 1 {
                    Op::Rev32
                } else {
                    Op::Rev
                },
                rt: 0,
                ..record
            }
        } else if opcode == 3 && sf == 1 {
            Inst { op: Op::Rev, rt: 0, ..record }
        } else if opcode == 4 {
            Inst { op: Op::Clz, rt: 0, ..record }
        } else if opcode == 5 {
            Inst { op: Op::Cls, rt: 0, ..record }
        } else {
            make_unknown(w)
        }
    } else {
        if opcode == 2 {
            record
        } else if opcode == 3 {
            Inst { op: Op::Sdiv, ..record }
        } else if opcode == 8 {
            Inst { op: Op::Lslv, ..record }
        } else if opcode == 9 {
            Inst { op: Op::Lsrv, ..record }
        } else if opcode == 10 {
            Inst { op: Op::Asrv, ..record }
        } else if opcode == 11 {
            Inst { op: Op::Rorv, ..record }
        } else if opcode == 16 && sf == 0 {
            Inst { op: Op::Crc32b, ..record }
        } else if opcode == 17 && sf == 0 {
            Inst { op: Op::Crc32h, ..record }
        } else if opcode == 18 && sf == 0 {
            Inst { op: Op::Crc32w, ..record }
        } else if opcode == 19 && sf == 1 {
            Inst { op: Op::Crc32x, ..record }
        } else if opcode == 20 && sf == 0 {
            Inst { op: Op::Crc32cb, ..record }
        } else if opcode == 21 && sf == 0 {
            Inst { op: Op::Crc32ch, ..record }
        } else if opcode == 22 && sf == 0 {
            Inst { op: Op::Crc32cw, ..record }
        } else if opcode == 23 && sf == 1 {
            Inst { op: Op::Crc32cx, ..record }
        } else {
            make_unknown(w)
        }
    }
}

/// A mask keeps its value at or below the mask.
proof fn lemma_mask_le(a: u32, b: u32)
    by (bit_vector)
    ensures
        a & b <= b,
{
}

/// Shifting one left stays positive and bounded for small exponents.
proof fn lemma_one_shifted(len: u32, c: u64)
    by (bit_vector)
    requires
        len <= 6,
        c < 64,
    ensures
        1u32 << len >= 1,
        1u32 << len <= 64,
        1u64 << c >= 1,
{
}

/// Decodes one logical-immediate word.
fn decode_logical_imm(w: u32) -> (r: Inst)
    ensures
        r == logical_imm_spec(w),
{
    proof {
        lemma_field_bounds(w);
    }
    let sf = w >> 31;
    let opc = (w >> 29) & 3;
    let nbit = (w >> 22) & 1;
    let immr = (w >> 16) & 0x3F;
    let imms = (w >> 10) & 0x3F;
    let rn = ((w >> 5) & 0x1F) as u8;
    let rd = (w & 0x1F) as u8;
    let pat = (nbit << 6) | ((!imms) & 0x3F);
    let len: u32 = if pat >= 0x40 {
        6
    } else if pat >= 0x20 {
        5
    } else if pat >= 0x10 {
        4
    } else if pat >= 8 {
        3
    } else if pat >= 4 {
        2
    } else if pat >= 2 {
        1
    } else {
        0
    };
    proof {
        lemma_one_shifted(len, 0);
    }
    let esize = 1u32 << len;
    let levels = esize - 1;
    proof {
        lemma_mask_le(imms, levels);
        lemma_mask_le(immr, levels);
    }
    let s = imms & levels;
    let r = immr & levels;
    if (sf == 0 && nbit == 1) || len == 0 || s == levels {
        return make_unknown(w);
    }
    proof {
        lemma_one_shifted(len, (s + 1) as u64);
    }
    let welem: u64 = (1u64 << ((s + 1) as u64)) - 1;
    let emask: u64 = if esize == 64 {
        !0u64
    } else {
        proof {
            lemma_one_shifted(len, esize as u64);
        }
        (1u64 << (esize as u64)) - 1
    };
    let rot: u64 = if r == 0 {
        welem
    } else {
        ((welem >> (r as u64)) | (welem << ((esize - r) as u64))) & emask
    };
    let v1: u64 = if esize < 64 {
        rot | (rot << (esize as u64))
    } else {
        rot
    };
    let v2: u64 = if 2 * esize < 64 {
        v1 | (v1 << ((2 * esize) as u64))
    } else {
        v1
    };
    let v3: u64 = if 4 * esize < 64 {
        v2 | (v2 << ((4 * esize) as u64))
    } else {
        v2
    };
    let v4: u64 = if 8 * esize < 64 {
        v3 | (v3 << ((8 * esize) as u64))
    } else {
        v3
    };
    let v5: u64 = if 16 * esize < 64 {
        v4 | (v4 << ((16 * esize) as u64))
    } else {
        v4
    };
    let value: u64 = if sf == 0 {
        v5 & 0xFFFFFFFF
    } else {
        v5
    };
    let record = Inst {
        op: Op::AndImm,
        flags: if sf == 0 {
            FLAG_W32
        } else {
            0
        },
        rd,
        rn,
        rt: 0,
        payload: Payload::Imm { imm: value },
    };
    if opc == 0 {
        record
    } else if opc == 1 {
        if rn == 31 {
            Inst { op: Op::MovImm, ..record }
        } else {
            Inst { op: Op::OrrImm, ..record }
        }
    } else if opc == 2 {
        Inst { op: Op::EorImm, ..record }
    } else {
        let flags = (if sf == 0 {
            FLAG_W32
        } else {
            0
        }) | FLAG_SET_FLAGS;
        if rd == 31 {
            Inst { op: Op::TstImm, flags, ..record }
        } else {
            Inst { op: Op::AndImm, flags, ..record }
        }
    }
}

/// Decodes one bitfield word.
fn decode_bitfield(w: u32) -> (r: Inst)
    ensures
        r == bitfield_spec(w),
{
    proof {
        lemma_field_bounds(w);
    }
    let sf = w >> 31;
    let opc = (w >> 29) & 3;
    let nbit = (w >> 22) & 1;
    let immr = (w >> 16) & 0x3F;
    let imms = (w >> 10) & 0x3F;
    let rn = ((w >> 5) & 0x1F) as u8;
    let rd = (w & 0x1F) as u8;
    if opc == 3 || nbit != sf || (sf == 0 && (immr >= 32 || imms >= 32)) {
        return make_unknown(w);
    }
    let ws: u32 = if sf == 1 {
        64
    } else {
        32
    };
    let flags = if sf == 0 {
        FLAG_W32
    } else {
        0
    };
    let record = Inst {
        op: Op::Sbfx,
        flags,
        rd,
        rn,
        rt: 0,
        payload: Payload::Bitfield {
            lsb: immr,
            width: if imms >= immr {
                imms - immr + 1
            } else {
                0
            },
        },
    };
    let from_zero = Payload::Bitfield { lsb: ws - immr, width: imms + 1 };
    if opc == 0 {
        if imms == ws - 1 {
            Inst {
                op: Op::AsrImm,
                payload: Payload::Bitfield { lsb: immr, width: ws - immr },
                ..record
            }
        } else if immr == 0 && imms == 7 {
            Inst {
                op: Op::Extend,
                payload: Payload::ExtendDesc { kind: ExtendKind::Sxtb, lsl: 0 },
                ..record
            }
        } else if immr == 0 && imms == 15 {
            Inst {
                op: Op::Extend,
                payload: Payload::ExtendDesc { kind: ExtendKind::Sxth, lsl: 0 },
                ..record
            }
        } else if immr == 0 && imms == 31 {
            Inst {
                op: Op::Extend,
                payload: Payload::ExtendDesc { kind: ExtendKind::Sxtw, lsl: 0 },
                ..record
            }
        } else if imms < immr {
            Inst { op: Op::Sbfiz, payload: from_zero, ..record }
        } else {
            record
        }
    } else if opc == 2 {
        if imms == ws - 1 {
            Inst {
                op: Op::LsrImm,
                payload: Payload::Bitfield { lsb: immr, width: ws - immr },
                ..record
            }
        } else if imms + 1 == immr {
            Inst {
                op: Op::LslImm,
                payload: Payload::Bitfield { lsb: ws - 1 - imms, width: imms + 1 },
                ..record
            }
        } else if immr == 0 && imms == 7 {
            Inst {
                op: Op::Extend,
                payload: Payload::ExtendDesc { kind: ExtendKind::Uxtb, lsl: 0 },
                ..record
            }
        } else if immr == 0 && imms == 15 {
            Inst {
                op: Op::Extend,
                payload: Payload::ExtendDesc { kind: ExtendKind::Uxth, lsl: 0 },
                ..record
            }
        } else if imms < immr {
            Inst { op: Op::Ubfiz, payload: from_zero, ..record }
        } else {
            Inst { op: Op::Ubfx, ..record }
        }
    } else {
        if imms < immr {
            if rn == 31 {
                Inst { op: Op::Bfc, payload: from_zero, ..record }
            } else {
                Inst { op: Op::Bfi, payload: from_zero, ..record }
            }
        } else {
            Inst { op: Op::Bfxil, ..record }
        }
    }
}

/// Decodes one integer register-pair load/store word.
fn decode_ldst_pair(w: u32) -> (r: Inst)
    ensures
        r == ldst_pair_spec(w),
{
    proof {
        lemma_field_bounds(w);
    }
    let opc = w >> 30;
    let mode = (w >> 23) & 3;
    let load = (w >> 22) & 1;
    let imm7 = (w >> 15) & 0x7F;
    let rt2 = ((w >> 10) & 0x1F) as u8;
    let rn = ((w >> 5) & 0x1F) as u8;
    let rt = (w & 0x1F) as u8;
    if !(opc == 0 || opc == 2) {
        return make_unknown(w);
    }
    let scale: i64 = if opc == 2 {
        8
    } else {
        4
    };
    let off: i64 = if imm7 >= 0x40 {
        (imm7 as i64 - 0x80) * scale
    } else {
        (imm7 as i64) * scale
    };
    let flags = if opc == 0 {
        FLAG_W32
    } else {
        0
    };
    if mode == 0 {
        Inst {
            op: if load == 1 {
                Op::Ldnp
            } else {
                Op::Stnp
            },
            flags,
            rd: 0,
            rn,
            rt,
            payload: Payload::MemPair { mode: AddrMode::OffImm, offset: off, rt2 },
        }
    } else {
        let am = if mode == 1 {
            AddrMode::PostIndex
        } else if mode == 2 {
            AddrMode::OffImm
        } else {
            AddrMode::PreIndex
        };
        Inst {
            op: if load == 1 {
                Op::Ldp
            } else {
                Op::Stp
            },
            flags,
            rd: 0,
            rn,
            rt,
            payload: Payload::MemPair { mode: am, offset: off, rt2 },
        }
    }
}

/// Decodes one integer load/store word with nine-bit signed immediate.
fn decode_ldst_imm9(w: u32) -> (r: Inst)
    ensures
        r == ldst_imm9_spec(w),
{
    proof {
        lemma_field_bounds(w);
    }
    let size = (w >> 30) & 3;
    let opc = (w >> 22) & 3;
    let mode = (w >> 10) & 3;
    let imm9 = (w >> 12) & 0x1FF;
    let rn = ((w >> 5) & 0x1F) as u8;
    let rt = (w & 0x1F) as u8;
    if (w >> 21) & 1 == 1 || mode == 2 || !(opc == 0 || opc == 1) || !(size == 2 || size == 3) {
        return make_unknown(w);
    }
    let off: i64 = if imm9 >= 0x100 {
        imm9 as i64 - 0x200
    } else {
        imm9 as i64
    };
    let am = if mode == 0 {
        AddrMode::OffImm
    } else if mode == 1 {
        AddrMode::PostIndex
    } else {
        AddrMode::PreIndex
    };
    Inst {
        op: if opc == 1 {
            Op::Ldr
        } else {
            Op::Str
        },
        flags: if size == 2 {
            FLAG_W32
        } else {
            0
        },
        rd: 0,
        rn,
        rt,
        payload: Payload::Mem { mode: am, offset: off },
    }
}

/// Decodes one barrier word.
fn decode_barrier(w: u32) -> (r: Inst)
    ensures
        r == barrier_spec(w),
{
    proof {
        lemma_field_bounds(w);
    }
    let crm = (w >> 8) & 0xF;
    let record = Inst { op: Op::Sb, flags: 0, rd: 0, rn: 0, rt: 0, payload: Payload::Empty };
    if w == 0xD50330FF {
        record
    } else if w & 0xFFFFF0FF == 0xD503305F {
        Inst { op: Op::Clrex, payload: Payload::Imm { imm: crm as u64 }, ..record }
    } else if w & 0xFFFFF0FF == 0xD50330BF {
        Inst { op: Op::Dmb, payload: Payload::Imm { imm: crm as u64 }, ..record }
    } else if w & 0xFFFFF0FF == 0xD50330DF {
        Inst { op: Op::Isb, payload: Payload::Imm { imm: crm as u64 }, ..record }
    } else {
        if crm == 0 {
            Inst { op: Op::Ssbb, ..record }
        } else if crm == 4 {
            Inst { op: Op::Pssbb, ..record }
        } else {
            Inst { op: Op::Dsb, payload: Payload::Imm { imm: crm as u64 }, ..record }
        }
    }
}

/// Decodes one system-space word.
fn decode_sys_space(w: u32) -> (r: Inst)
    ensures
        r == sys_space_spec(w),
{
    proof {
        lemma_field_bounds(w);
    }
    let l = (w >> 21) & 1;
    let rt = (w & 0x1F) as u8;
    let op1 = (w >> 16) & 7;
    let crn = (w >> 12) & 0xF;
    let crm = (w >> 8) & 0xF;
    let op2 = (w >> 5) & 7;
    if (w >> 20) & 1 == 1 {
        let sysreg = (w >> 5) & 0x7FFF;
        Inst {
            op: if l == 1 {
                Op::Mrs
            } else {
                Op::MsrReg
            },
            flags: 0,
            rd: 0,
            rn: 0,
            rt,
            payload: Payload::Imm { imm: sysreg as u64 },
        }
    } else if (w >> 19) & 1 == 1 {
        Inst {
            op: if l == 1 {
                Op::Sysl
            } else {
                Op::Sys
            },
            flags: 0,
            rd: 0,
            rn: 0,
            rt,
            payload: Payload::SysOp {
                op1: op1 as u16,
                op2: op2 as u16,
                crn: crn as u16,
                crm: crm as u16,
            },
        }
    } else if l == 0 && crn == 4 && rt == 31 {
        let record = Inst { op: Op::Cfinv, flags: 0, rd: 0, rn: 0, rt: 0, payload: Payload::Empty };
        if op1 == 0 && op2 == 0 && crm == 0 {
            record
        } else if op1 == 0 && op2 == 1 && crm == 0 {
            Inst { op: Op::XaFlag, ..record }
        } else if op1 == 0 && op2 == 2 && crm == 0 {
            Inst { op: Op::AxFlag, ..record }
        } else {
            Inst {
                op: Op::MsrImm,
                payload: Payload::PState { field: (op1 << 3) | op2, imm: crm },
                ..record
            }
        }
    } else {
        make_unknown(w)
    }
}

/// Decodes one raw word to its canonical record, exactly as `decode_spec`
/// describes.  Decoding is total: every word yields a record with a defined
/// opcode, `Unknown` and `Invalid` included.
pub fn decode_word(w: u32) -> (r: Inst)
    ensures
        r == decode_spec(w),
{
    proof {
        lemma_field_bounds(w);
    }
    if w >> 16 == 0 {
        Inst {
            op: Op::Udf,
            flags: 0,
            rd: 0,
            rn: 0,
            rt: 0,
            payload: Payload::Imm { imm: (w & 0xFFFF) as u64 },
        }
    } else if (w >> 24) & 0x1F == 0x10 {
        decode_adr(w)
    } else if (w >> 23) & 0x3F == 0x22 {
        decode_addsub_imm(w)
    } else if (w >> 23) & 0x3F == 0x24 {
        decode_logical_imm(w)
    } else if (w >> 23) & 0x3F == 0x25 {
        decode_move_wide(w)
    } else if (w >> 23) & 0x3F == 0x26 {
        decode_bitfield(w)
    } else if (w >> 24) & 0xFF == 0x54 && w & 0x10 == 0 {
        decode_bcond(w)
    } else if (w >> 24) & 0xFF == 0xD4 {
        decode_exception(w)
    } else if w & 0xFFFFF01F == 0xD503201F {
        Inst { op: Op::Hint, flags: 0, rd: 0, rn: 0, rt: 0, payload: Payload::Empty }
    } else if w & 0xFFFFF0FF == 0xD503305F || w & 0xFFFFF0FF == 0xD503309F || w & 0xFFFFF0FF
        == 0xD50330BF || w & 0xFFFFF0FF == 0xD50330DF || w == 0xD50330FF {
        decode_barrier(w)
    } else if (w >> 22) & 0x3FF == 0x354 {
        decode_sys_space(w)
    } else if w & 0xFFFFFC1F == 0xD61F0000 || w & 0xFFFFFC1F == 0xD63F0000 || w & 0xFFFFFC1F
        == 0xD65F0000 {
        let rn = ((w >> 5) & 0x1F) as u8;
        let op = if w & 0xFFFFFC1F == 0xD61F0000 {
            Op::Br
        } else if w & 0xFFFFFC1F == 0xD63F0000 {
            Op::Blr
        } else {
            Op::Ret
        };
        Inst { op, flags: 0, rd: 0, rn, rt: 0, payload: Payload::Empty }
    } else if (w >> 26) & 0x1F == 0x05 {
        decode_b_imm(w)
    } else if (w >> 25) & 0x3F == 0x1A {
        decode_cb(w)
    } else if (w >> 25) & 0x3F == 0x1B {
        decode_tb(w)
    } else if (w >> 24) & 0x3F == 0x39 {
        decode_ldst_uimm(w)
    } else if (w >> 25) & 0x1F == 0x14 {
        decode_ldst_pair(w)
    } else if (w >> 24) & 0x3F == 0x38 {
        decode_ldst_imm9(w)
    } else if (w >> 24) & 0x1F == 0x0A {
        decode_logical_shifted(w)
    } else if (w >> 24) & 0x1F == 0x0B && (w >> 21) & 1 == 0 {
        decode_addsub_shifted(w)
    } else if (w >> 24) & 0x1F == 0x0B && (w >> 21) & 1 == 1 {
        decode_addsub_ext(w)
    } else if (w >> 29) & 3 == 0 && (w >> 23) & 0x3F == 0x27 {
        decode_extr(w)
    } else if (w >> 24) & 0x1F == 0x1B {
        decode_dp3(w)
    } else if (w >> 21) & 0xFF == 0xD4 && (w >> 29) & 1 == 0 && (w >> 11) & 1 == 0 {
        decode_csel(w)
    } else if (w >> 21) & 0xFF == 0xD2 && (w >> 29) & 1 == 1 && (w >> 10) & 1 == 0 && (w >> 4) & 1
        == 0 {
        decode_ccmp(w)
    } else if (w >> 21) & 0xFF == 0xD0 && (w >> 10) & 0x3F == 0 {
        decode_adc_sbc(w)
    } else if (w >> 21) & 0xFF == 0xD6 && (w >> 29) & 1 == 0 {
        decode_dp12(w)
    } else {
        make_unknown(w)
    }
}

/// Decodes `words[0..count]` in order, one record per word.  The decoder
/// never faults, so the returned count always equals the requested count;
/// per-word anomalies are reported in-band as `Unknown` and `Invalid`
/// records, never as a short batch.
pub fn decode_batch(words: &Vec<u32>, count: usize) -> (r: (usize, Vec<Inst>))
    requires
        count <= words@.len(),
    ensures
        r.0 == count,
        r.1@.len() == count,
        forall|i: int| 0 <= i < count ==> r.1@[i] == decode_spec(words@[i]),
{
    let mut out: Vec<Inst> = Vec::new();
    let mut i: usize = 0;
    while i < count
        invariant
            count <= words@.len(),
            i <= count,
            out@.len() == i,
            forall|j: int| 0 <= j < i ==> out@[j] == decode_spec(words@[j]),
        decreases count - i,
    {
        out.push(decode_word(words[i]));
        i = i + 1;
    }
    (count, out)
}

/// Splits a code segment into little-endian 32-bit instruction words;
/// trailing bytes beyond the last whole word are dropped.
pub fn code_words(bytes: &Vec<u8>) -> (r: Vec<u32>)
    ensures
        r@.len() == bytes@.len() / 4,
        forall|i: int| 0 <= i < r@.len() ==> r@[i] == le32_at(bytes@, 4 * i),
{
    let total = bytes.len();
    let n = total / 4;
    let mut out: Vec<u32> = Vec::new();
    let mut i: usize = 0;
    while i < n
        invariant
            total == bytes@.len(),
            n == total / 4,
            i <= n,
            out@.len() == i,
            forall|j: int| 0 <= j < i ==> out@[j] == le32_at(bytes@, 4 * j),
        decreases n - i,
    {
        assert(4 * i + 4 <= total);
        out.push(read_u32_le(bytes, 4 * i));
        i = i + 1;
    }
    out
}

/// Decodes a loaded image's whole code segment: the segment's bytes are
/// split into little-endian words and each word becomes one record.
pub fn decode_code_segment(img: &SwitchExecutable) -> (r: Vec<Inst>)
    ensures
        r@.len() == img@.text.len() / 4,
        forall|i: int| 0 <= i < r@.len() ==> r@[i] == decode_spec(le32_at(img@.text, 4 * i)),
{
    let words = code_words(img.text());
    let (_, records) = decode_batch(&words, words.len());
    records
}

/// Alias selection for the stack-pointer move is a function of the decoded
/// fields alone: within the add/subtract-immediate group without the
/// flag-setting bit, the word canonicalizes to `MovSp` exactly when its
/// shift bit is zero, its immediate field is zero, and its destination or
/// first source is register 31.
pub proof fn lemma_mov_sp_alias(w: u32)
    requires
        is_addsub_imm(w),
        (w >> 29) & 1 == 0,
    ensures
        decode_spec(w).op == Op::MovSp <==> ((w >> 22) & 1 == 0 && (w >> 10) & 0xFFF == 0 && (
        w & 0x1F == 31 || (w >> 5) & 0x1F == 31)),
{
    lemma_field_bounds(w);
    assert((w >> 23) & 0x3F == 0x22 ==> w >> 16 != 0 && (w >> 24) & 0x1F != 0x10)
        by (bit_vector);
}

/// The payload of a PC-relative addressing record fits its opcode.
proof fn payload_fits_adr(w: u32)
    ensures
        payload_fits(adr_spec(w).op, adr_spec(w).payload),
{
}

/// The payload of an add/subtract-immediate record fits its opcode.
proof fn payload_fits_addsub_imm(w: u32)
    ensures
        payload_fits(addsub_imm_spec(w).op, addsub_imm_spec(w).payload),
{
}

/// The payload of a logical-immediate record fits its opcode.
proof fn payload_fits_logical_imm(w: u32)
    ensures
        payload_fits(logical_imm_spec(w).op, logical_imm_spec(w).payload),
{
}

/// The payload of a move-wide record fits its opcode.
proof fn payload_fits_move_wide(w: u32)
    ensures
        payload_fits(move_wide_spec(w).op, move_wide_spec(w).payload),
{
}

/// The payload of a bitfield record fits its opcode.
proof fn payload_fits_bitfield(w: u32)
    ensures
        payload_fits(bitfield_spec(w).op, bitfield_spec(w).payload),
{
}

/// The payload of an exception-generation record fits its opcode.
proof fn payload_fits_exception(w: u32)
    ensures
        payload_fits(exception_spec(w).op, exception_spec(w).payload),
{
}

/// The payload of a barrier record fits its opcode.
proof fn payload_fits_barrier(w: u32)
    ensures
        payload_fits(barrier_spec(w).op, barrier_spec(w).payload),
{
}

/// The payload of a system-space record fits its opcode.
proof fn payload_fits_sys_space(w: u32)
    ensures
        payload_fits(sys_space_spec(w).op, sys_space_spec(w).payload),
{
}

/// The payload of a register-branch record fits its opcode.
proof fn payload_fits_branch_reg(w: u32)
    ensures
        payload_fits(branch_reg_spec(w).op, branch_reg_spec(w).payload),
{
}

/// The payloads of the immediate-branch records fit their opcodes.
proof fn payload_fits_branches(w: u32)
    ensures
        payload_fits(b_imm_spec(w).op, b_imm_spec(w).payload),
        payload_fits(bcond_spec(w).op, bcond_spec(w).payload),
        payload_fits(cb_spec(w).op, cb_spec(w).payload),
        payload_fits(tb_spec(w).op, tb_spec(w).payload),
{
}

/// The payloads of the load/store records fit their opcodes.
proof fn payload_fits_ldst(w: u32)
    ensures
        payload_fits(ldst_uimm_spec(w).op, ldst_uimm_spec(w).payload),
        payload_fits(ldst_pair_spec(w).op, ldst_pair_spec(w).payload),
        payload_fits(ldst_imm9_spec(w).op, ldst_imm9_spec(w).payload),
{
}

/// The payload of a logical shifted-register record fits its opcode.
proof fn payload_fits_logical_shifted(w: u32)
    ensures
        payload_fits(logical_shifted_spec(w).op, logical_shifted_spec(w).payload),
{
}

/// The payloads of the add/subtract register records fit their opcodes.
proof fn payload_fits_addsub_reg(w: u32)
    ensures
        payload_fits(addsub_shifted_spec(w).op, addsub_shifted_spec(w).payload),
        payload_fits(addsub_ext_spec(w).op, addsub_ext_spec(w).payload),
{
}

/// The payloads of the extract and three-source records fit their opcodes.
proof fn payload_fits_extr_dp3(w: u32)
    ensures
        payload_fits(extr_spec(w).op, extr_spec(w).payload),
        payload_fits(dp3_spec(w).op, dp3_spec(w).payload),
{
}

/// The payloads of the conditional and carry records fit their opcodes.
proof fn payload_fits_conditional(w: u32)
    ensures
        payload_fits(csel_spec(w).op, csel_spec(w).payload),
        payload_fits(ccmp_spec(w).op, ccmp_spec(w).payload),
        payload_fits(adc_sbc_spec(w).op, adc_sbc_spec(w).payload),
{
}

/// The payload of a one- or two-source record fits its opcode.
proof fn payload_fits_dp12(w: u32)
    ensures
        payload_fits(dp12_spec(w).op, dp12_spec(w).payload),
{
}

/// Every decoded record is well formed: its payload variant is the one its
/// opcode's category selects.
pub proof fn lemma_decode_payload_fits(w: u32)
    ensures
        payload_fits(decode_spec(w).op, decode_spec(w).payload),
{
    if is_udf(w) {
    } else if is_adr_group(w) {
        payload_fits_adr(w);
    } else if is_addsub_imm(w) {
        payload_fits_addsub_imm(w);
    } else if is_logical_imm(w) {
        payload_fits_logical_imm(w);
    } else if is_move_wide(w) {
        payload_fits_move_wide(w);
    } else if is_bitfield(w) {
        payload_fits_bitfield(w);
    } else if is_bcond(w) {
        payload_fits_branches(w);
    } else if is_exception(w) {
        payload_fits_exception(w);
    } else if is_hint(w) {
    } else if is_barrier(w) {
        payload_fits_barrier(w);
    } else if is_sys_space(w) {
        payload_fits_sys_space(w);
    } else if is_branch_reg(w) {
        payload_fits_branch_reg(w);
    } else if is_b_imm(w) {
        payload_fits_branches(w);
    } else if is_cb(w) {
        payload_fits_branches(w);
    } else if is_tb(w) {
        payload_fits_branches(w);
    } else if is_ldst_uimm(w) {
        payload_fits_ldst(w);
    } else if is_ldst_pair(w) {
        payload_fits_ldst(w);
    } else if is_ldst_imm9(w) {
        payload_fits_ldst(w);
    } else if is_logical_shifted(w) {
        payload_fits_logical_shifted(w);
    } else if is_addsub_shifted(w) {
        payload_fits_addsub_reg(w);
    } else if is_addsub_ext(w) {
        payload_fits_addsub_reg(w);
    } else if is_extr(w) {
        payload_fits_extr_dp3(w);
    } else if is_dp3(w) {
        payload_fits_extr_dp3(w);
    } else if is_csel(w) {
        payload_fits_conditional(w);
    } else if is_ccmp(w) {
        payload_fits_conditional(w);
    } else if is_adc_sbc(w) {
        payload_fits_conditional(w);
    } else if is_dp12(w) {
        payload_fits_dp12(w);
    } else {
    }
}

} // verus!
