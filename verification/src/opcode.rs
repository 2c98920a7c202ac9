//! The canonical opcode set: a closed enumeration of every distinct
//! instruction meaning the pipeline reasons about.
//!
//! One symbol stands for one operational semantic.  Several raw encodings
//! collapse to the same symbol when a correct lifter would generate the same
//! operation from them once operands are resolved; the doc comment of each
//! alias symbol records the exact predicate under which the generic encoding
//! is reinterpreted as the alias.  Those predicates are load-bearing: they
//! are the specification a decoding engine must satisfy.
//!
//! Two symbols stand outside the categorized set: `Unknown` (the raw word
//! matched no recognized encoding; the record carries the raw word) and
//! `Invalid` (the word matched an encoding but violates a hardware-defined
//! constraint; the record carries the reason).

use vstd::prelude::*;

verus! {

/// A canonical AArch64 opcode.
#[derive(Clone, Copy, Debug, PartialEq, Eq, Structural)]
pub enum Op {
    /// The raw word matched no recognized encoding; the record's payload
    /// carries the raw word for diagnostics.
    Unknown,
    /// The raw word matched an encoding but violates a hardware-defined
    /// constraint; the record's payload carries the reason.
    Invalid,
    /// Permanently undefined: raises the undefined-instruction exception.
    Udf,
    // --- Data processing, immediate: PC-relative addressing ---
    /// ADR: address of a label relative to the program counter.
    Adr,
    /// ADRP: address of a 4 KiB page relative to the program counter.
    Adrp,
    // --- Data processing, immediate: add/subtract ---
    /// ADD (immediate); also ADDS when the destination is not the zero
    /// register (the flag-setting form carries the set-flags modifier).
    AddImm,
    /// CMN (immediate): ADDS alias; the destination is dropped
    /// (predicate: Rd is the zero register and flags are set).
    CmnImm,
    /// MOV to or from the stack pointer: add/subtract-immediate alias
    /// (predicate: the shift is zero, the immediate is zero, and Rd or Rn is
    /// the stack pointer; flags not set).
    MovSp,
    /// SUB (immediate); also SUBS when the destination is not the zero
    /// register.
    SubImm,
    /// CMP (immediate): SUBS alias; the destination is dropped
    /// (predicate: Rd is the zero register and flags are set).
    CmpImm,
    // --- Data processing, immediate: logical ---
    /// AND (immediate), with the bitmask immediate expanded.
    AndImm,
    /// ORR (immediate).
    OrrImm,
    /// EOR (immediate).
    EorImm,
    /// TST (immediate): ANDS alias; the destination is dropped
    /// (predicate: Rd is the zero register and flags are set).
    TstImm,
    // --- Data processing, immediate: move wide ---
    /// MOVK: keep the other bits, insert a 16-bit field.
    Movk,
    /// Canonical immediate move.  Collapses MOVZ, MOVN and the MOV aliases
    /// of the bitmask-immediate and wide-immediate forms: whenever the moved
    /// value can be computed at decode time, only the value matters, not how
    /// it was encoded.
    MovImm,
    // --- Data processing, immediate: bitfield ---
    /// SBFM generic form; every encoding decodes to one of its aliases.
    Sbfm,
    /// ASR (immediate): SBFM alias (predicate: imms is all ones for the
    /// operand width).
    AsrImm,
    /// SBFIZ: SBFM alias (predicate: imms is less than immr).
    Sbfiz,
    /// SBFX: SBFM alias (the remaining signed-bitfield encodings).
    Sbfx,
    /// BFM generic form; every encoding decodes to one of its aliases.
    Bfm,
    /// BFC: BFM alias (predicate: Rn is the zero register and imms is less
    /// than immr).
    Bfc,
    /// BFI: BFM alias (predicate: Rn is not the zero register and imms is
    /// less than immr).
    Bfi,
    /// BFXIL: BFM alias (the remaining bitfield encodings).
    Bfxil,
    /// UBFM generic form; every encoding decodes to one of its aliases.
    Ubfm,
    /// LSL (immediate): UBFM alias (predicate: imms + 1 equals immr).
    LslImm,
    /// LSR (immediate): UBFM alias (predicate: imms is all ones for the
    /// operand width).
    LsrImm,
    /// UBFIZ: UBFM alias (predicate: imms is less than immr).
    Ubfiz,
    /// UBFX: UBFM alias (the remaining unsigned-bitfield encodings).
    Ubfx,
    /// Canonical extension move: collapses the SXTB, SXTH, SXTW, UXTB and
    /// UXTH aliases of SBFM and UBFM; the kind of extension is recorded in
    /// the extension descriptor.
    Extend,
    // --- Data processing, immediate: extract ---
    /// EXTR: extract a register pair's middle bits.
    Extr,
    /// ROR (immediate): EXTR alias (predicate: Rm equals Rn).
    RorImm,
    // --- Branches, exception generation, system ---
    /// B.cond: conditional branch; the condition sits in the record's flag
    /// nibble.
    BCond,
    /// SVC: supervisor call.
    Svc,
    /// HVC: hypervisor call.
    Hvc,
    /// SMC: secure monitor call.
    Smc,
    /// BRK: breakpoint.
    Brk,
    /// HLT: halt.
    Hlt,
    /// DCPS1: debug change PE state, level 1.
    Dcps1,
    /// DCPS2: debug change PE state, level 2.
    Dcps2,
    /// DCPS3: debug change PE state, level 3.
    Dcps3,
    /// Hint space: every allocated hint (NOP, YIELD, ...) is treated as a
    /// no-op and not split into per-hint aliases.
    Hint,
    /// CLREX: clear the exclusive monitor.
    Clrex,
    /// DMB: data memory barrier.
    Dmb,
    /// ISB: instruction synchronization barrier.
    Isb,
    /// SB: speculation barrier.
    Sb,
    /// DSB: data synchronization barrier.
    Dsb,
    /// SSBB: speculative store bypass barrier.
    Ssbb,
    /// PSSBB: physical speculative store bypass barrier.
    Pssbb,
    /// MSR (immediate): write a PSTATE field.
    MsrImm,
    /// CFINV: invert the carry flag.
    Cfinv,
    /// XAFLAG: convert external flag format.
    XaFlag,
    /// AXFLAG: convert to external flag format.
    AxFlag,
    /// SYS: system instruction; the operation selectors sit in the system
    /// payload.
    Sys,
    /// SYSL: system instruction with result.
    Sysl,
    /// MSR (register): write a system register; the register selector sits
    /// in the immediate.
    MsrReg,
    /// MRS: read a system register.
    Mrs,
    /// BR: indirect branch.
    Br,
    /// BLR: indirect branch with link.
    Blr,
    /// RET: return through the register in Rn (the link register by
    /// convention).
    Ret,
    /// B: unconditional branch.
    B,
    /// BL: branch with link.
    Bl,
    /// CBZ: compare and branch on zero.
    Cbz,
    /// CBNZ: compare and branch on non-zero.
    Cbnz,
    /// TBZ: test a bit and branch on zero; bit index and offset sit in the
    /// test-branch payload.
    Tbz,
    /// TBNZ: test a bit and branch on non-zero.
    Tbnz,
    // --- Data processing, register: two sources ---
    /// UDIV: unsigned divide.
    Udiv,
    /// SDIV: signed divide.
    Sdiv,
    /// LSLV: logical shift left by register.
    Lslv,
    /// LSRV: logical shift right by register.
    Lsrv,
    /// ASRV: arithmetic shift right by register.
    Asrv,
    /// RORV: rotate right by register.
    Rorv,
    /// CRC32B: CRC-32 over a byte.
    Crc32b,
    /// CRC32H: CRC-32 over a halfword.
    Crc32h,
    /// CRC32W: CRC-32 over a word.
    Crc32w,
    /// CRC32X: CRC-32 over a doubleword.
    Crc32x,
    /// CRC32CB: CRC-32C over a byte.
    Crc32cb,
    /// CRC32CH: CRC-32C over a halfword.
    Crc32ch,
    /// CRC32CW: CRC-32C over a word.
    Crc32cw,
    /// CRC32CX: CRC-32C over a doubleword.
    Crc32cx,
    /// SUBP: subtract pointers.
    Subp,
    // --- Data processing, register: one source ---
    /// RBIT: reverse bits.
    Rbit,
    /// REV16: reverse bytes within halfwords.
    Rev16,
    /// REV: reverse bytes.
    Rev,
    /// REV32: reverse bytes within words.
    Rev32,
    /// CLZ: count leading zeros.
    Clz,
    /// CLS: count leading sign bits.
    Cls,
    // --- Data processing, register: logical, shifted register ---
    /// AND (shifted register); also ANDS with a non-zero destination.
    AndShifted,
    /// TST (shifted register): ANDS alias; the destination is dropped
    /// (predicate: Rd is the zero register).
    TstShifted,
    /// BIC: and with complement.
    Bic,
    /// ORR (shifted register); also ORRS-like forms.
    OrrShifted,
    /// MOV (register): ORR alias (predicate: the shift kind and amount are
    /// zero and Rn is the zero register).
    MovReg,
    /// ORN: or with complement.
    Orn,
    /// MVN: ORN alias; the first source is dropped (predicate: Rn is the
    /// zero register).
    Mvn,
    /// EOR (shifted register).
    EorShifted,
    /// EON: exclusive or with complement.
    Eon,
    // --- Data processing, register: add/subtract, shifted register ---
    /// ADD (shifted register); also ADDS with a non-zero destination.
    AddShifted,
    /// CMN (shifted register): ADDS alias (predicate: Rd is the zero
    /// register and flags are set).
    CmnShifted,
    /// SUB (shifted register); also SUBS with a non-zero destination.
    SubShifted,
    /// NEG: SUB alias; the first source is dropped (predicate: Rn is the
    /// zero register).
    Neg,
    /// CMP (shifted register): SUBS alias (predicate: Rd is the zero
    /// register and flags are set).
    CmpShifted,
    // --- Data processing, register: add/subtract, extended register ---
    /// ADD (extended register); register 31 reads as the stack pointer.
    AddExt,
    /// CMN (extended register): ADDS alias (predicate: Rd is the zero
    /// register and flags are set).
    CmnExt,
    /// SUB (extended register).
    SubExt,
    /// CMP (extended register): SUBS alias (predicate: Rd is the zero
    /// register and flags are set).
    CmpExt,
    // --- Data processing, register: add/subtract with carry ---
    /// ADC: add with carry.
    Adc,
    /// SBC: subtract with carry.
    Sbc,
    /// NGC: SBC alias; the first source is dropped (predicate: Rn is the
    /// zero register).
    Ngc,
    /// RMIF: rotate a mask into the flags.
    Rmif,
    /// SETF8: evaluate an 8-bit value into the flags.
    Setf8,
    /// SETF16: evaluate a 16-bit value into the flags.
    Setf16,
    // --- Data processing, register: conditional compare ---
    /// CCMN (register).
    CcmnReg,
    /// CCMP (register).
    CcmpReg,
    /// CCMN (immediate).
    CcmnImm,
    /// CCMP (immediate).
    CcmpImm,
    // --- Data processing, register: conditional select ---
    //
    // The short aliases below stay separate canonical opcodes: forcing both
    // sources to one register (or to the zero register) changes an operand's
    // implicit role in a way the generic operand slots cannot express.
    /// CSEL: conditional select.
    Csel,
    /// CSINC: conditional select and increment.
    Csinc,
    /// CINC: CSINC alias with inverted condition (predicate: Rm equals Rn
    /// and neither is the zero register).
    Cinc,
    /// CSET: CSINC alias with inverted condition (predicate: Rm and Rn are
    /// both the zero register).
    Cset,
    /// CSINV: conditional select and invert.
    Csinv,
    /// CINV: CSINV alias with inverted condition (predicate: Rm equals Rn
    /// and neither is the zero register).
    Cinv,
    /// CSETM: CSINV alias with inverted condition (predicate: Rm and Rn are
    /// both the zero register).
    Csetm,
    /// CSNEG: conditional select and negate.
    Csneg,
    /// CNEG: CSNEG alias with inverted condition (predicate: Rm equals Rn).
    Cneg,
    // --- Data processing, register: three sources ---
    /// MADD: multiply-add.
    Madd,
    /// MUL: MADD alias; the addend is dropped (predicate: Ra is the zero
    /// register).
    Mul,
    /// MSUB: multiply-subtract.
    Msub,
    /// MNEG: MSUB alias; the minuend is dropped (predicate: Ra is the zero
    /// register).
    Mneg,
    /// SMADDL: signed multiply-add long.
    Smaddl,
    /// SMULL: SMADDL alias (predicate: Ra is the zero register).
    Smull,
    /// SMSUBL: signed multiply-subtract long.
    Smsubl,
    /// SMNEGL: SMSUBL alias (predicate: Ra is the zero register).
    Smnegl,
    /// SMULH: signed multiply high.
    Smulh,
    /// UMADDL: unsigned multiply-add long.
    Umaddl,
    /// UMULL: UMADDL alias (predicate: Ra is the zero register).
    Umull,
    /// UMSUBL: unsigned multiply-subtract long.
    Umsubl,
    /// UMNEGL: UMSUBL alias (predicate: Ra is the zero register).
    Umnegl,
    /// UMULH: unsigned multiply high.
    Umulh,
    // --- Loads and stores ---
    //
    // Few opcodes stand here on purpose: access size, sign extension and
    // addressing mode are recorded in the record's fields, which keeps the
    // regular structure of the group and spares consumers duplicated cases.
    /// LD1 (multiple structures), with or without post-index.
    Ld1Mult,
    /// ST1 (multiple structures).
    St1Mult,
    /// LD2 (multiple structures).
    Ld2Mult,
    /// ST2 (multiple structures).
    St2Mult,
    /// LD3 (multiple structures).
    Ld3Mult,
    /// ST3 (multiple structures).
    St3Mult,
    /// LD4 (multiple structures).
    Ld4Mult,
    /// ST4 (multiple structures).
    St4Mult,
    /// LD1 (single structure).
    Ld1Single,
    /// ST1 (single structure).
    St1Single,
    /// LD2 (single structure).
    Ld2Single,
    /// ST2 (single structure).
    St2Single,
    /// LD3 (single structure).
    Ld3Single,
    /// ST3 (single structure).
    St3Single,
    /// LD4 (single structure).
    Ld4Single,
    /// ST4 (single structure).
    St4Single,
    /// LD1R: load one element and replicate.
    Ld1r,
    /// LD2R: load two elements and replicate.
    Ld2r,
    /// LD3R: load three elements and replicate.
    Ld3r,
    /// LD4R: load four elements and replicate.
    Ld4r,
    /// LDXR, with the load-acquire variants; ordering sits in the
    /// memory-ordering payload.
    Ldxr,
    /// STXR, with the store-release variants.
    Stxr,
    /// LDXP, with the load-acquire variants.
    Ldxp,
    /// STXP, with the store-release variants.
    Stxp,
    /// LDAPR: load-acquire-PC register.
    Ldapr,
    /// LDNP: load no-allocate pair.
    Ldnp,
    /// STNP: store no-allocate pair.
    Stnp,
    /// LDNP, SIMD and floating-point registers.
    LdnpFp,
    /// STNP, SIMD and floating-point registers.
    StnpFp,
    /// LDP: load register pair, any addressing mode.
    Ldp,
    /// STP: store register pair.
    Stp,
    /// LDP, SIMD and floating-point registers.
    LdpFp,
    /// STP, SIMD and floating-point registers.
    StpFp,
    /// Canonical single-register load: collapses LDR, LDAR, LDLAR and LDUR;
    /// the addressing mode and ordering are recorded in the record.
    Ldr,
    /// Canonical single-register store: collapses STR, STLR, STLLR and
    /// STUR.
    Str,
    /// LDR, SIMD and floating-point registers.
    LdrFp,
    /// STR, SIMD and floating-point registers.
    StrFp,
    /// PRFM: prefetch memory; the prefetch operation sits in the register
    /// slot that a load's target would use.
    Prfm,
    /// LDADD atomic add; acquire/release semantics sit in the
    /// memory-ordering payload.  The ST* forms are the same instruction with
    /// the old value written to the zero register.
    Ldadd,
    /// LDCLR atomic bit clear.
    Ldclr,
    /// LDEOR atomic exclusive or.
    Ldeor,
    /// LDSET atomic bit set.
    Ldset,
    /// LDSMAX atomic signed maximum.
    Ldsmax,
    /// LDSMIN atomic signed minimum.
    Ldsmin,
    /// LDUMAX atomic unsigned maximum.
    Ldumax,
    /// LDUMIN atomic unsigned minimum.
    Ldumin,
    /// SWP atomic swap.
    Swp,
    /// CAS: compare and swap.
    Cas,
    /// CASP: compare and swap a pair.
    Casp,
    // --- Scalar floating point and SIMD ---
    /// Scalar floating point to general register, integer or fixed point;
    /// the conversion descriptor carries rounding mode, fraction bits and
    /// signedness.
    FcvtGpr,
    /// Vector floating point to vector integer or fixed point.
    FcvtVec,
    /// General register to scalar floating point.
    Cvtf,
    /// Vector integer or fixed point to vector floating point.
    CvtfVec,
    /// FJCVTZS: Javascript convert to signed 32-bit.
    Fjcvtzs,
    /// FRINT: round to integral; the rounding descriptor carries mode and
    /// size.
    Frint,
    /// FRINT, vector form.
    FrintVec,
    /// FRINTX: round to integral, exact.
    Frintx,
    /// FRINTX, vector form.
    FrintxVec,
    /// FCVT to half precision.
    FcvtH,
    /// FCVT to single precision.
    FcvtS,
    /// FCVT to double precision.
    FcvtD,
    /// FCVTL: extend to higher precision, vector.
    Fcvtl,
    /// FCVTN: narrow to lower precision, vector.
    Fcvtn,
    /// FCVTXN: narrow with round-to-odd, vector.
    Fcvtxn,
    /// FABS: absolute value.
    Fabs,
    /// FNEG: negate.
    Fneg,
    /// FSQRT: square root.
    Fsqrt,
    /// FMUL: multiply.
    Fmul,
    /// FMULX: multiply extended.
    Fmulx,
    /// FDIV: divide.
    Fdiv,
    /// FADD: add.
    Fadd,
    /// FSUB: subtract.
    Fsub,
    /// FMAX: maximum, NaN-propagating.
    Fmax,
    /// FMAXNM: maximum, NaN-ignoring.
    Fmaxnm,
    /// FMIN: minimum, NaN-propagating.
    Fmin,
    /// FMINNM: minimum, NaN-ignoring.
    Fminnm,
    /// FRECPE: reciprocal estimate.
    Frecpe,
    /// FRECPS: reciprocal step.
    Frecps,
    /// FRECPX: reciprocal exponent.
    Frecpx,
    /// FRSQRTE: reciprocal square-root estimate.
    Frsqrte,
    /// FRSQRTS: reciprocal square-root step.
    Frsqrts,
    /// FNMUL: multiply and negate.
    Fnmul,
    /// FMADD: fused multiply-add.
    Fmadd,
    /// FMSUB: fused multiply-subtract.
    Fmsub,
    /// FNMADD: fused negate multiply-add.
    Fnmadd,
    /// FNMSUB: fused negate multiply-subtract.
    Fnmsub,
    /// FCMP against a register.
    FcmpReg,
    /// FCMP against zero.
    FcmpZero,
    /// FCMPE against a register.
    FcmpeReg,
    /// FCMPE against zero.
    FcmpeZero,
    /// FCCMP: conditional compare.
    Fccmp,
    /// FCCMPE: conditional compare with exceptions.
    Fccmpe,
    /// FCSEL: conditional select.
    Fcsel,
    /// FMOV from a SIMD register to a general register, bits unchanged.
    FmovVec2Gpr,
    /// FMOV from a general register to a SIMD register.
    FmovGpr2Vec,
    /// FMOV from the top half of a 128-bit register to a general register.
    FmovTop2Gpr,
    /// FMOV from a general register to the top half of a 128-bit register.
    FmovGpr2Top,
    /// FMOV between SIMD registers.
    FmovReg,
    /// FMOV of an expanded 8-bit float immediate.
    FmovImm,
    /// FMOV of an 8-bit float immediate replicated to all lanes.
    FmovVec,
    /// FCMEQ against a register, vector.
    FcmeqReg,
    /// FCMEQ against zero.
    FcmeqZero,
    /// FCMGE against a register.
    FcmgeReg,
    /// FCMGE against zero.
    FcmgeZero,
    /// FCMGT against a register.
    FcmgtReg,
    /// FCMGT against zero.
    FcmgtZero,
    /// FCMLE against zero.
    FcmleZero,
    /// FCMLT against zero.
    FcmltZero,
    /// FACGE: absolute compare greater or equal.
    Facge,
    /// FACGT: absolute compare greater than.
    Facgt,
    /// FABS, vector.
    FabsVec,
    /// FABD: absolute difference, vector.
    FabdVec,
    /// FNEG, vector.
    FnegVec,
    /// FSQRT, vector.
    FsqrtVec,
    /// FMUL by a lane.
    FmulElem,
    /// FMUL, vector.
    FmulVec,
    /// FMULX by a lane.
    FmulxElem,
    /// FMULX, vector.
    FmulxVec,
    /// FDIV, vector.
    FdivVec,
    /// FADD, vector.
    FaddVec,
    /// FCADD: complex add; the rotation in degrees sits in the immediate.
    Fcadd,
    /// FSUB, vector.
    FsubVec,
    /// FMAX, vector.
    FmaxVec,
    /// FMAXNM, vector.
    FmaxnmVec,
    /// FMIN, vector.
    FminVec,
    /// FMINNM, vector.
    FminnmVec,
    /// FRECPE, vector.
    FrecpeVec,
    /// FRECPS, vector.
    FrecpsVec,
    /// FRSQRTE, vector.
    FrsqrteVec,
    /// FRSQRTS, vector.
    FrsqrtsVec,
    /// FMLA by a lane.
    FmlaElem,
    /// FMLA, vector.
    FmlaVec,
    /// FMLAL by a lane.
    FmlalElem,
    /// FMLAL, vector.
    FmlalVec,
    /// FMLAL2 by a lane.
    Fmlal2Elem,
    /// FMLAL2, vector.
    Fmlal2Vec,
    /// FCMLA by a lane; the element-rotation payload carries lane and
    /// rotation.
    FcmlaElem,
    /// FCMLA, vector; the rotation in degrees sits in the immediate.
    FcmlaVec,
    /// FMLS by a lane.
    FmlsElem,
    /// FMLS, vector.
    FmlsVec,
    /// FMLSL by a lane.
    FmlslElem,
    /// FMLSL, vector.
    FmlslVec,
    /// FMLSL2 by a lane.
    Fmlsl2Elem,
    /// FMLSL2, vector.
    Fmlsl2Vec,
    /// FADDP: pairwise add, scalar reduction.
    Faddp,
    /// FADDP, vector.
    FaddpVec,
    /// FMAXP: pairwise maximum, scalar reduction.
    Fmaxp,
    /// FMAXP, vector.
    FmaxpVec,
    /// FMAXV: maximum across lanes.
    Fmaxv,
    /// FMAXNMP: pairwise NaN-ignoring maximum, scalar reduction.
    Fmaxnmp,
    /// FMAXNMP, vector.
    FmaxnmpVec,
    /// FMAXNMV: NaN-ignoring maximum across lanes.
    Fmaxnmv,
    /// FMINP: pairwise minimum, scalar reduction.
    Fminp,
    /// FMINP, vector.
    FminpVec,
    /// FMINV: minimum across lanes.
    Fminv,
    /// FMINNMP: pairwise NaN-ignoring minimum, scalar reduction.
    Fminnmp,
    /// FMINNMP, vector.
    FminnmpVec,
    /// FMINNMV: NaN-ignoring minimum across lanes.
    Fminnmv,
    // --- SIMD bitwise ---
    /// AND, vector.
    AndVec,
    /// BCAX: bit clear and exclusive or.
    Bcax,
    /// BIC (vector, immediate).
    BicVecImm,
    /// BIC (vector, register).
    BicVecReg,
    /// BIF: bitwise insert if false.
    Bif,
    /// BIT: bitwise insert if true.
    Bit,
    /// BSL: bitwise select.
    Bsl,
    /// CLS, vector.
    ClsVec,
    /// CLZ, vector.
    ClzVec,
    /// CNT: population count per byte.
    Cnt,
    /// EOR, vector.
    EorVec,
    /// EOR3: three-way exclusive or.
    Eor3,
    /// NOT (also written MVN), vector.
    NotVec,
    /// ORN, vector.
    OrnVec,
    /// ORR (vector, immediate).
    OrrVecImm,
    /// ORR (vector, register).
    OrrVecReg,
    /// MOV (vector): ORR (vector, register) alias (predicate: Rm equals
    /// Rn).
    MovVec,
    /// RAX1: rotate and exclusive or.
    Rax1,
    /// RBIT, vector.
    RbitVec,
    /// REV16, vector.
    Rev16Vec,
    /// REV32, vector.
    Rev32Vec,
    /// REV64, vector.
    Rev64Vec,
    /// SHL (immediate).
    ShlImm,
    /// Shift left by register: collapses SSHL, USHL, SRSHL and URSHL;
    /// signedness and rounding sit in the flags.
    ShlReg,
    /// SHLL: collapses SSHLL and USHLL.
    Shll,
    /// Shift right: collapses SSHR, USHR, SRSHR and URSHR.
    Shr,
    /// Narrowing shift right: collapses SHRN and RSHRN.
    Shrn,
    /// Shift right and accumulate: collapses SSRA, USRA, SRSRA and URSRA.
    Sra,
    /// SLI: shift left and insert.
    Sli,
    /// SRI: shift right and insert.
    Sri,
    /// XAR: exclusive or and rotate.
    Xar,
    // --- SIMD copy, table lookup, permute ---
    /// DUP (element): replicate one lane; the lane index sits in the
    /// immediate.
    DupElem,
    /// DUP (general register): replicate a general register to all lanes.
    DupGpr,
    /// EXT: extract a byte window from a register pair; the index sits in
    /// the immediate.
    Ext,
    /// INS (element): the source and destination lanes sit in the
    /// lane-insert payload.
    InsElem,
    /// INS (general register): insert into the lane given by the immediate.
    InsGpr,
    /// MOVI, with MVNI: vector immediate move.
    Movi,
    /// SMOV: signed move from a lane given by the immediate.
    Smov,
    /// UMOV: unsigned move from a lane given by the immediate.
    Umov,
    /// TBL: table lookup; the table register count sits in the immediate.
    Tbl,
    /// TBX: table lookup with fallback.
    Tbx,
    /// TRN1: transpose, odd lanes.
    Trn1,
    /// TRN2: transpose, even lanes.
    Trn2,
    /// UZP1: unzip, even lanes.
    Uzp1,
    /// UZP2: unzip, odd lanes.
    Uzp2,
    /// XTN: extract narrow.
    Xtn,
    /// ZIP1: zip, lower halves.
    Zip1,
    /// ZIP2: zip, upper halves.
    Zip2,
    // --- SIMD integer compare ---
    /// CMEQ against a register.
    CmeqReg,
    /// CMEQ against zero.
    CmeqZero,
    /// CMGE against a register.
    CmgeReg,
    /// CMGE against zero.
    CmgeZero,
    /// CMGT against a register.
    CmgtReg,
    /// CMGT against zero.
    CmgtZero,
    /// CMHI against a register.
    CmhiReg,
    /// CMHS against a register.
    CmhsReg,
    /// CMLE against zero.
    CmleZero,
    /// CMLT against zero.
    CmltZero,
    /// CMTST: test bits.
    Cmtst,
    // --- SIMD integer computation ---
    //
    // Signedness (SABD against UABD and the like) sits in the signedness
    // flag, rounding against truncation in the rounding flag.
    /// ABS, vector.
    AbsVec,
    /// Absolute difference: collapses SABD and UABD.
    Abd,
    /// Absolute difference long.
    Abdl,
    /// Absolute difference and accumulate.
    Aba,
    /// Absolute difference and accumulate long.
    Abal,
    /// NEG, vector.
    NegVec,
    /// MUL by a lane.
    MulElem,
    /// MUL, vector.
    MulVec,
    /// Multiply long by a lane.
    MullElem,
    /// Multiply long, vector.
    MullVec,
    /// ADD, vector.
    AddVec,
    /// Add and halve narrow: collapses ADDHN and RADDHN.
    Addhn,
    /// Add long.
    Addl,
    /// Add wide.
    Addw,
    /// Halving add: collapses SHADD, UHADD, SRHADD and URHADD.
    Hadd,
    /// SUB, vector.
    SubVec,
    /// Subtract and halve narrow.
    Subhn,
    /// Subtract long.
    Subl,
    /// Subtract wide.
    Subw,
    /// Halving subtract.
    Hsub,
    /// Maximum: collapses SMAX and UMAX.
    MaxVec,
    /// Minimum: collapses SMIN and UMIN.
    MinVec,
    /// Dot product by a lane.
    DotElem,
    /// Dot product, vector; the destination arrangement sits in the flags.
    DotVec,
    /// URECPE: unsigned reciprocal estimate.
    Urecpe,
    /// URSQRTE: unsigned reciprocal square-root estimate.
    Ursqrte,
    /// Multiply-add by a lane.
    MlaElem,
    /// Multiply-add, vector.
    MlaVec,
    /// Multiply-subtract by a lane.
    MlsElem,
    /// Multiply-subtract, vector.
    MlsVec,
    /// Multiply-add long by a lane: collapses SMLAL and UMLAL.
    MlalElem,
    /// Multiply-add long, vector.
    MlalVec,
    /// Multiply-subtract long by a lane: collapses SMLSL and UMLSL.
    MlslElem,
    /// Multiply-subtract long, vector.
    MlslVec,
    // --- SIMD integer reduction ---
    /// ADDP, scalar: add the two doubleword lanes.
    Addp,
    /// ADDP, vector: pairwise add over a concatenated pair.
    AddpVec,
    /// ADDV: add across lanes.
    Addv,
    /// ADALP: add and accumulate long pairwise.
    Adalp,
    /// ADDLP: add long pairwise.
    Addlp,
    /// ADDLV: add long across lanes.
    Addlv,
    /// Pairwise maximum.
    Maxp,
    /// Maximum across lanes.
    Maxv,
    /// Pairwise minimum.
    Minp,
    /// Minimum across lanes.
    Minv,
    // --- SIMD saturating arithmetic ---
    /// Saturating add: collapses SQADD-like unsigned and signed pairs via
    /// the signedness flag.
    Qadd,
    /// Saturating absolute value.
    Qabs,
    /// SUQADD: signed saturating accumulate of unsigned.
    Suqadd,
    /// USQADD: unsigned saturating accumulate of signed.
    Usqadd,
    /// Saturating shift left (immediate).
    QshlImm,
    /// Saturating shift left (register).
    QshlReg,
    /// Saturating shift right narrow.
    Qshrn,
    /// Saturating subtract.
    Qsub,
    /// Saturating extract narrow.
    Qxtn,
    /// SQABS: signed saturating absolute value.
    Sqabs,
    /// SQADD: signed saturating add.
    Sqadd,
    /// SQDMLAL by a lane.
    SqdmlalElem,
    /// SQDMLAL, vector.
    SqdmlalVec,
    /// SQDMLSL by a lane.
    SqdmlslElem,
    /// SQDMLSL, vector.
    SqdmlslVec,
    /// Saturating doubling multiply high by a lane: collapses SQDMULH and
    /// SQRDMULH.
    SqdmulhElem,
    /// Saturating doubling multiply high, vector.
    SqdmulhVec,
    /// Saturating doubling multiply long by a lane.
    SqdmullElem,
    /// Saturating doubling multiply long, vector.
    SqdmullVec,
    /// SQNEG: signed saturating negate.
    Sqneg,
    /// SQRDMLAH by a lane.
    SqrdmlahElem,
    /// SQRDMLAH, vector.
    SqrdmlahVec,
    /// SQRDMLSH by a lane.
    SqrdmlshElem,
    /// SQRDMLSH, vector.
    SqrdmlshVec,
    /// SQSHLU: signed saturating shift left unsigned.
    Sqshlu,
    /// Saturating shift right unsigned narrow: collapses SQSHRUN and
    /// SQRSHRUN.
    Sqshrun,
    /// SQXTUN: saturating extract unsigned narrow.
    Sqxtun,
    /// PMUL: polynomial multiply.
    Pmul,
    /// PMULL: polynomial multiply long.
    Pmull,
}

} // verus!
