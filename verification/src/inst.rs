//! The decoded-instruction record.
//!
//! A record pairs a canonical opcode with register indices, a small modifier
//! flag set, and exactly one payload.  The payload is a sum type with one
//! variant per opcode category, so reading the fields of the wrong category
//! is impossible by construction; `payload_fits` additionally ties each
//! payload variant to the opcodes that may carry it.

use vstd::prelude::*;

use crate::opcode::Op;

verus! {

/// Modifier bit: the operation works on 32-bit general registers.
pub const FLAG_W32: u8 = 0x01;

/// Modifier bit: the operation updates the condition flags.
pub const FLAG_SET_FLAGS: u8 = 0x02;

/// Modifier bit: the SIMD operation is the signed member of its pair.
pub const FLAG_SIMD_SIGNED: u8 = 0x04;

/// Modifier bit: the SIMD operation rounds instead of truncating.
pub const FLAG_SIMD_ROUND: u8 = 0x08;

/// How a load or store addresses memory.
#[derive(Clone, Copy, Debug, PartialEq, Eq, Structural)]
pub enum AddrMode {
    /// Plain base register, no offset.
    Simple,
    /// Base register, then advance it by the offset.
    PostIndex,
    /// Advance the base register by the offset, then use it.
    PreIndex,
    /// Base register plus immediate offset.
    OffImm,
    /// Base register plus register offset.
    OffReg,
    /// Base register plus extended register offset.
    OffExt,
    /// Program-counter-relative literal.
    Literal,
}

/// Memory-ordering semantics carried by a load or store side.
#[derive(Clone, Copy, Debug, PartialEq, Eq, Structural)]
pub enum MemOrdering {
    /// No ordering beyond plain memory access.
    Relaxed,
    /// Acquire semantics.
    Acquire,
    /// Acquire semantics ordered only against program-counter order.
    AcquirePc,
    /// Release semantics.
    Release,
}

/// The register shift applied to the second source operand.
#[derive(Clone, Copy, Debug, PartialEq, Eq, Structural)]
pub enum ShiftKind {
    /// Logical shift left.
    Lsl,
    /// Logical shift right.
    Lsr,
    /// Arithmetic shift right.
    Asr,
    /// Rotate right.
    Ror,
}

/// The extension applied to a narrow source operand.
#[derive(Clone, Copy, Debug, PartialEq, Eq, Structural)]
pub enum ExtendKind {
    /// Zero-extend a byte.
    Uxtb,
    /// Zero-extend a halfword.
    Uxth,
    /// Zero-extend a word.
    Uxtw,
    /// No-op extension of a doubleword.
    Uxtx,
    /// Sign-extend a byte.
    Sxtb,
    /// Sign-extend a halfword.
    Sxth,
    /// Sign-extend a word.
    Sxtw,
    /// No-op extension of a doubleword, signed form.
    Sxtx,
}

/// Why a word that matched an encoding still decodes to `Invalid`.
#[derive(Clone, Copy, Debug, PartialEq, Eq, Structural)]
pub enum InvalidReason {
    /// A wide-immediate move of a 32-bit register names a shift position
    /// past the low word: a reserved bit pattern.
    WideMoveShiftRange,
    /// A 32-bit shifted-register operation names a shift amount past the
    /// word width: a reserved bit pattern.
    ShiftAmountRange,
    /// An add/subtract names the rotate shift kind, which the group
    /// reserves.
    ShiftKindRange,
}

/// The category-specific payload of a record.  Exactly one variant is
/// meaningful per record, selected by the opcode.
#[allow(inconsistent_fields)]
#[derive(Clone, Copy, Debug, PartialEq, Eq, Structural)]
pub enum Payload {
    /// No payload beyond the registers and flags.
    Empty,
    /// A plain immediate operand, zero-extended.
    Imm { imm: u64 },
    /// A signed program-counter-relative byte offset.
    Offset { offset: i64 },
    /// The raw word of an `Unknown` record.
    Raw { word: u32 },
    /// The reason of an `Invalid` record.
    Reason { why: InvalidReason },
    /// Wide-immediate-move fields: the 16-bit field and its shift.
    WideMove { imm16: u32, lsl: u32 },
    /// Bitfield-move fields: least significant bit and width.
    Bitfield { lsb: u32, width: u32 },
    /// Conditional-compare fields: the flag outcome and the compared
    /// immediate or register number.
    CondCompare { nzcv: u32, imm5: u32 },
    /// System-instruction operation selectors.
    SysOp { op1: u16, op2: u16, crn: u16, crm: u16 },
    /// PSTATE-write fields: the field selector and the immediate.
    PState { field: u32, imm: u32 },
    /// Test-and-branch fields: the signed byte offset and the tested bit.
    TestBranch { offset: i64, bit: u32 },
    /// Shift descriptor for a shifted-register operand.
    ShiftDesc { kind: ShiftKind, amount: u32 },
    /// Extension descriptor for an extended-register operand: the extension
    /// and a left shift applied after it.
    ExtendDesc { kind: ExtendKind, lsl: u32 },
    /// Rotate-into-flags fields: the flag mask and the rotation.
    RmifDesc { mask: u32, ror: u32 },
    /// Memory-ordering descriptor: ordering of the load side, of the store
    /// side, and the status register of an exclusive store.
    MemOrder { load: MemOrdering, store: MemOrdering, rs: u8 },
    /// Vector load/store descriptor: register count, lane index, and
    /// post-index offset.
    SimdMem { nreg: u32, index: u16, offset: i32 },
    /// Floating-point conversion descriptor: rounding mode, fixed-point
    /// fraction bits, and signedness selector.
    FpConv { mode: u32, fbits: u16, signedness: u16 },
    /// Floating-point rounding descriptor: rounding mode and target size in
    /// bits (zero when any size is allowed).
    FpRound { mode: u32, bits: u32 },
    /// Lane-insert descriptor: destination and source lane.
    LaneMove { dst: u32, src: u32 },
    /// Complex-arithmetic element descriptor: lane index and rotation in
    /// degrees.
    ComplexElem { idx: u32, rot: u32 },
    /// The extra source register of a multiply-accumulate.
    RegExtra { ra: u8 },
    /// Load/store addressing descriptor: mode and signed byte offset.
    Mem { mode: AddrMode, offset: i64 },
    /// Register-pair load/store descriptor: mode, signed byte offset, and
    /// the second transferred register.
    MemPair { mode: AddrMode, offset: i64, rt2: u8 },
}

/// A decoded instruction: a canonical opcode, modifier flags, up to three
/// register indices, and the payload its category selects.
///
/// The low nibble of `flags` holds the modifier bits; for conditional
/// opcodes the high nibble holds the condition code.  `rt` doubles as Rm,
/// Rt2 or Rs for the opcodes that name such a register.
#[derive(Clone, Copy, Debug, PartialEq, Eq, Structural)]
pub struct Inst {
    pub op: Op,
    pub flags: u8,
    pub rd: u8,
    pub rn: u8,
    pub rt: u8,
    pub payload: Payload,
}

impl Inst {
    /// The condition code stored in the high nibble of the flags.
    pub open spec fn spec_cond(self) -> u8 {
        self.flags >> 4
    }

    /// The condition code stored in the high nibble of the flags.
    pub fn cond(&self) -> (r: u8)
        ensures
            r == self.spec_cond(),
    {
        self.flags >> 4
    }
}

/// Opcodes that carry a wide-immediate-move payload.
pub open spec fn wide_move_op(op: Op) -> bool {
    op == Op::Movk
}

/// Opcodes that carry a bitfield payload.
pub open spec fn bitfield_op(op: Op) -> bool {
    ||| op == Op::Sbfm
    ||| op == Op::AsrImm
    ||| op == Op::Sbfiz
    ||| op == Op::Sbfx
    ||| op == Op::Bfm
    ||| op == Op::Bfc
    ||| op == Op::Bfi
    ||| op == Op::Bfxil
    ||| op == Op::Ubfm
    ||| op == Op::LslImm
    ||| op == Op::LsrImm
    ||| op == Op::Ubfiz
    ||| op == Op::Ubfx
}

/// Opcodes that carry a conditional-compare payload.
pub open spec fn cond_compare_op(op: Op) -> bool {
    ||| op == Op::CcmnReg
    ||| op == Op::CcmpReg
    ||| op == Op::CcmnImm
    ||| op == Op::CcmpImm
    ||| op == Op::Fccmp
    ||| op == Op::Fccmpe
}

/// Opcodes that carry system-instruction selectors.
pub open spec fn sys_op(op: Op) -> bool {
    op == Op::Sys || op == Op::Sysl
}

/// Opcodes that carry a PSTATE-write payload.
pub open spec fn pstate_op(op: Op) -> bool {
    op == Op::MsrImm
}

/// Opcodes that carry a test-and-branch payload.
pub open spec fn test_branch_op(op: Op) -> bool {
    op == Op::Tbz || op == Op::Tbnz
}

/// Opcodes that carry a shift descriptor.
pub open spec fn shift_desc_op(op: Op) -> bool {
    ||| op == Op::AndShifted
    ||| op == Op::TstShifted
    ||| op == Op::Bic
    ||| op == Op::OrrShifted
    ||| op == Op::Orn
    ||| op == Op::Mvn
    ||| op == Op::EorShifted
    ||| op == Op::Eon
    ||| op == Op::AddShifted
    ||| op == Op::CmnShifted
    ||| op == Op::SubShifted
    ||| op == Op::Neg
    ||| op == Op::CmpShifted
}

/// Opcodes that carry an extension descriptor.
pub open spec fn extend_desc_op(op: Op) -> bool {
    ||| op == Op::AddExt
    ||| op == Op::CmnExt
    ||| op == Op::SubExt
    ||| op == Op::CmpExt
    ||| op == Op::Extend
}

/// Opcodes that carry a rotate-into-flags payload.
pub open spec fn rmif_op(op: Op) -> bool {
    op == Op::Rmif
}

/// Opcodes that carry a memory-ordering payload.
pub open spec fn mem_order_op(op: Op) -> bool {
    ||| op == Op::Ldxr
    ||| op == Op::Stxr
    ||| op == Op::Ldxp
    ||| op == Op::Stxp
    ||| op == Op::Ldapr
    ||| op == Op::Ldadd
    ||| op == Op::Ldclr
    ||| op == Op::Ldeor
    ||| op == Op::Ldset
    ||| op == Op::Ldsmax
    ||| op == Op::Ldsmin
    ||| op == Op::Ldumax
    ||| op == Op::Ldumin
    ||| op == Op::Swp
    ||| op == Op::Cas
    ||| op == Op::Casp
}

/// Opcodes that carry a vector load/store descriptor.
pub open spec fn simd_mem_op(op: Op) -> bool {
    ||| op == Op::Ld1Mult
    ||| op == Op::St1Mult
    ||| op == Op::Ld2Mult
    ||| op == Op::St2Mult
    ||| op == Op::Ld3Mult
    ||| op == Op::St3Mult
    ||| op == Op::Ld4Mult
    ||| op == Op::St4Mult
    ||| op == Op::Ld1Single
    ||| op == Op::St1Single
    ||| op == Op::Ld2Single
    ||| op == Op::St2Single
    ||| op == Op::Ld3Single
    ||| op == Op::St3Single
    ||| op == Op::Ld4Single
    ||| op == Op::St4Single
    ||| op == Op::Ld1r
    ||| op == Op::Ld2r
    ||| op == Op::Ld3r
    ||| op == Op::Ld4r
}

/// Opcodes that carry a floating-point conversion descriptor.
pub open spec fn fp_conv_op(op: Op) -> bool {
    ||| op == Op::FcvtGpr
    ||| op == Op::FcvtVec
    ||| op == Op::Cvtf
    ||| op == Op::CvtfVec
    ||| op == Op::Fjcvtzs
}

/// Opcodes that carry a floating-point rounding descriptor.
pub open spec fn fp_round_op(op: Op) -> bool {
    ||| op == Op::Frint
    ||| op == Op::FrintVec
    ||| op == Op::Frintx
    ||| op == Op::FrintxVec
}

/// Opcodes that carry a lane-insert descriptor.
pub open spec fn lane_move_op(op: Op) -> bool {
    op == Op::InsElem
}

/// Opcodes that carry a complex-arithmetic element descriptor.
pub open spec fn complex_elem_op(op: Op) -> bool {
    op == Op::FcmlaElem
}

/// Opcodes that carry a load/store addressing descriptor.
pub open spec fn mem_op(op: Op) -> bool {
    ||| op == Op::Ldr
    ||| op == Op::Str
    ||| op == Op::LdrFp
    ||| op == Op::StrFp
    ||| op == Op::Prfm
}

/// Opcodes that carry a register-pair load/store descriptor.
pub open spec fn mem_pair_op(op: Op) -> bool {
    ||| op == Op::Ldp
    ||| op == Op::Stp
    ||| op == Op::LdpFp
    ||| op == Op::StpFp
    ||| op == Op::Ldnp
    ||| op == Op::Stnp
    ||| op == Op::LdnpFp
    ||| op == Op::StnpFp
}

/// Opcodes that carry a signed program-counter-relative offset.
pub open spec fn offset_op(op: Op) -> bool {
    ||| op == Op::B
    ||| op == Op::Bl
    ||| op == Op::BCond
    ||| op == Op::Cbz
    ||| op == Op::Cbnz
    ||| op == Op::Adr
    ||| op == Op::Adrp
}

/// Opcodes that carry a plain immediate: computed immediate operands,
/// exception payloads, system-register selectors, lane indices, table
/// sizes, shift amounts and rotations.
pub open spec fn imm_op(op: Op) -> bool {
    ||| op == Op::AddImm
    ||| op == Op::SubImm
    ||| op == Op::CmnImm
    ||| op == Op::CmpImm
    ||| op == Op::MovImm
    ||| op == Op::AndImm
    ||| op == Op::OrrImm
    ||| op == Op::EorImm
    ||| op == Op::TstImm
    ||| op == Op::Extr
    ||| op == Op::RorImm
    ||| op == Op::Svc
    ||| op == Op::Hvc
    ||| op == Op::Smc
    ||| op == Op::Brk
    ||| op == Op::Hlt
    ||| op == Op::Dcps1
    ||| op == Op::Dcps2
    ||| op == Op::Dcps3
    ||| op == Op::Udf
    ||| op == Op::MsrReg
    ||| op == Op::Mrs
    ||| op == Op::Clrex
    ||| op == Op::Dmb
    ||| op == Op::Dsb
    ||| op == Op::Isb
    ||| op == Op::Movi
    ||| op == Op::FmovImm
    ||| op == Op::FmovVec
    ||| op == Op::DupElem
    ||| op == Op::InsGpr
    ||| op == Op::Smov
    ||| op == Op::Umov
    ||| op == Op::Ext
    ||| op == Op::Tbl
    ||| op == Op::Tbx
    ||| op == Op::Fcadd
    ||| op == Op::FcmlaVec
    ||| op == Op::ShlImm
    ||| op == Op::Shll
    ||| op == Op::Shr
    ||| op == Op::Shrn
    ||| op == Op::Sra
    ||| op == Op::Sli
    ||| op == Op::Sri
    ||| op == Op::QshlImm
    ||| op == Op::Qshrn
    ||| op == Op::Sqshlu
    ||| op == Op::Sqshrun
    ||| op == Op::BicVecImm
    ||| op == Op::OrrVecImm
}

/// Opcodes that carry the extra source register of a multiply-accumulate.
/// Their aliases drop that register and carry nothing.
pub open spec fn reg_extra_op(op: Op) -> bool {
    ||| op == Op::Madd
    ||| op == Op::Msub
    ||| op == Op::Smaddl
    ||| op == Op::Smsubl
    ||| op == Op::Umaddl
    ||| op == Op::Umsubl
}

/// Opcodes whose record carries the raw word.
pub open spec fn raw_op(op: Op) -> bool {
    op == Op::Unknown
}

/// Opcodes whose record carries an invalidity reason.
pub open spec fn reason_op(op: Op) -> bool {
    op == Op::Invalid
}

/// Opcodes that require some non-empty payload.
pub open spec fn requires_payload(op: Op) -> bool {
    ||| wide_move_op(op)
    ||| bitfield_op(op)
    ||| cond_compare_op(op)
    ||| sys_op(op)
    ||| pstate_op(op)
    ||| test_branch_op(op)
    ||| shift_desc_op(op)
    ||| extend_desc_op(op)
    ||| rmif_op(op)
    ||| mem_order_op(op)
    ||| simd_mem_op(op)
    ||| fp_conv_op(op)
    ||| fp_round_op(op)
    ||| lane_move_op(op)
    ||| complex_elem_op(op)
    ||| mem_op(op)
    ||| mem_pair_op(op)
    ||| offset_op(op)
    ||| imm_op(op)
    ||| reg_extra_op(op)
    ||| raw_op(op)
    ||| reason_op(op)
}

/// Whether a payload variant belongs to an opcode's category.  This is the
/// record invariant: the payload carried by a record is the one its opcode
/// selects.
pub open spec fn payload_fits(op: Op, p: Payload) -> bool {
    match p {
        Payload::Empty => !requires_payload(op),
        Payload::Imm { .. } => imm_op(op),
        Payload::Offset { .. } => offset_op(op),
        Payload::Raw { .. } => raw_op(op),
        Payload::Reason { .. } => reason_op(op),
        Payload::WideMove { .. } => wide_move_op(op),
        Payload::Bitfield { .. } => bitfield_op(op),
        Payload::CondCompare { .. } => cond_compare_op(op),
        Payload::SysOp { .. } => sys_op(op),
        Payload::PState { .. } => pstate_op(op),
        Payload::TestBranch { .. } => test_branch_op(op),
        Payload::ShiftDesc { .. } => shift_desc_op(op),
        Payload::ExtendDesc { .. } => extend_desc_op(op),
        Payload::RmifDesc { .. } => rmif_op(op),
        Payload::MemOrder { .. } => mem_order_op(op),
        Payload::SimdMem { .. } => simd_mem_op(op),
        Payload::FpConv { .. } => fp_conv_op(op),
        Payload::FpRound { .. } => fp_round_op(op),
        Payload::LaneMove { .. } => lane_move_op(op),
        Payload::ComplexElem { .. } => complex_elem_op(op),
        Payload::RegExtra { .. } => reg_extra_op(op),
        Payload::Mem { .. } => mem_op(op),
        Payload::MemPair { .. } => mem_pair_op(op),
    }
}

} // verus!
