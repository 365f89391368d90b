//! Registers and operands for RV64 instruction emission.

use vstd::prelude::*;

verus! {

/// A general-purpose register, identified by its index.
///
/// The index names one of the 32 architectural registers and must fit the
/// 5-bit register fields of an instruction word, so it is always below 32;
/// an out-of-range index is rejected at construction, never masked.
#[derive(Clone, Copy, Debug, PartialEq, Eq, Structural)]
pub struct RV64Reg {
    /// Register index number; always below 32.
    pub reg_no: u8,
}

impl RV64Reg {
    /// A register is well formed when its index fits a 5-bit field.
    pub open spec fn wf(self) -> bool {
        self.reg_no < 32
    }

    /// Construct a register from a raw index.
    ///
    /// An index of 32 or more breaks the contract; it is never truncated
    /// to a smaller index.
    pub fn new(reg_no: u8) -> (r: RV64Reg)
        requires
            reg_no < 32,
        ensures
            r.reg_no == reg_no,
            r.wf(),
    {
        RV64Reg { reg_no }
    }

    /// Checked construction: an out-of-range index is rejected, not masked.
    pub fn try_new(reg_no: u8) -> (r: Option<RV64Reg>)
        ensures
            r is Some <==> reg_no < 32,
            r matches Some(reg) ==> reg.reg_no == reg_no,
    {
        if reg_no < 32 {
            Some(RV64Reg { reg_no })
        } else {
            None
        }
    }
}

/// A base-plus-offset memory operand: the offset is a byte displacement
/// added to the base register's runtime value.
#[derive(Clone, Copy, Debug, PartialEq, Eq, Structural)]
pub struct RV64Mem {
    /// Base register number; always below 32.
    pub base_reg_no: u8,

    /// Constant byte offset from the base register.
    pub offset: i16,
}

/// An instruction operand: exactly one kind is active at a time.
#[derive(Clone, Copy, Debug, PartialEq, Eq, Structural)]
pub enum RV64Opnd {
    /// Dummy placeholder operand.
    Dummy,

    /// Signed immediate value.
    Imm(i64),

    /// Unsigned immediate value.
    UImm(u64),

    /// Register operand.
    Reg(RV64Reg),

    /// Base-plus-offset memory operand.
    Mem(RV64Mem),
}

impl RV64Opnd {
    /// Create a new signed immediate operand.
    pub fn new_imm(value: i64) -> (r: RV64Opnd)
        ensures
            r == RV64Opnd::Imm(value),
    {
        RV64Opnd::Imm(value)
    }

    /// Create a new unsigned immediate operand.
    pub fn new_uimm(value: u64) -> (r: RV64Opnd)
        ensures
            r == RV64Opnd::UImm(value),
    {
        RV64Opnd::UImm(value)
    }

    /// Create a new register operand.
    pub fn new_reg(reg: RV64Reg) -> (r: RV64Opnd)
        ensures
            r == RV64Opnd::Reg(reg),
    {
        RV64Opnd::Reg(reg)
    }

    /// Create a new base-plus-offset memory operand.
    ///
    /// The base is a register index and must be below 32, like any other
    /// register; it is rejected at construction, never masked.
    pub fn new_mem(base_reg_no: u8, offset: i16) -> (r: RV64Opnd)
        requires
            base_reg_no < 32,
        ensures
            r == (RV64Opnd::Mem(RV64Mem { base_reg_no, offset })),
    {
        RV64Opnd::Mem(RV64Mem { base_reg_no, offset })
    }

    /// Whether this operand is a register.
    pub fn is_reg(&self) -> (r: bool)
        ensures
            r == (self is Reg),
    {
        match self {
            RV64Opnd::Reg(_) => true,
            _ => false,
        }
    }

    /// Extract the register from a register operand.
    ///
    /// Extraction from any other operand kind is a programmer error, ruled
    /// out by contract: it never yields a default or zero-valued register.
    pub fn unwrap_reg(&self) -> (r: RV64Reg)
        requires
            self is Reg,
        ensures
            (*self) matches RV64Opnd::Reg(reg) && r == reg,
    {
        match self {
            RV64Opnd::Reg(reg) => *reg,
            _ => vstd::pervasive::unreached(),
        }
    }
}

/// The architectural register with the given index.
pub fn x_reg(n: u8) -> (r: RV64Reg)
    requires
        n < 32,
    ensures
        r.reg_no == n,
{
    RV64Reg { reg_no: n }
}

/// The zero register, hardwired to zero: x0.
pub fn zero() -> (r: RV64Opnd)
    ensures
        r == (RV64Opnd::Reg(RV64Reg { reg_no: 0 })),
{
    RV64Opnd::Reg(RV64Reg { reg_no: 0 })
}

/// The return address register: x1.
pub fn ra() -> (r: RV64Opnd)
    ensures
        r == (RV64Opnd::Reg(RV64Reg { reg_no: 1 })),
{
    RV64Opnd::Reg(RV64Reg { reg_no: 1 })
}

/// The stack pointer: x2.
pub fn sp() -> (r: RV64Opnd)
    ensures
        r == (RV64Opnd::Reg(RV64Reg { reg_no: 2 })),
{
    RV64Opnd::Reg(RV64Reg { reg_no: 2 })
}

/// The global pointer: x3.
pub fn gp() -> (r: RV64Opnd)
    ensures
        r == (RV64Opnd::Reg(RV64Reg { reg_no: 3 })),
{
    RV64Opnd::Reg(RV64Reg { reg_no: 3 })
}

/// The thread pointer: x4.
pub fn tp() -> (r: RV64Opnd)
    ensures
        r == (RV64Opnd::Reg(RV64Reg { reg_no: 4 })),
{
    RV64Opnd::Reg(RV64Reg { reg_no: 4 })
}

/// The frame pointer, an alias of saved register s0: x8.
pub fn fp() -> (r: RV64Opnd)
    ensures
        r == (RV64Opnd::Reg(RV64Reg { reg_no: 8 })),
{
    s0()
}

/// Temporary register t0: x5.
pub fn t0() -> (r: RV64Opnd)
    ensures
        r == (RV64Opnd::Reg(RV64Reg { reg_no: 5 })),
{
    RV64Opnd::Reg(RV64Reg { reg_no: 5 })
}

/// Temporary register t1: x6.
pub fn t1() -> (r: RV64Opnd)
    ensures
        r == (RV64Opnd::Reg(RV64Reg { reg_no: 6 })),
{
    RV64Opnd::Reg(RV64Reg { reg_no: 6 })
}

/// Temporary register t2: x7.
pub fn t2() -> (r: RV64Opnd)
    ensures
        r == (RV64Opnd::Reg(RV64Reg { reg_no: 7 })),
{
    RV64Opnd::Reg(RV64Reg { reg_no: 7 })
}

/// Temporary register t3: x28.
pub fn t3() -> (r: RV64Opnd)
    ensures
        r == (RV64Opnd::Reg(RV64Reg { reg_no: 28 })),
{
    RV64Opnd::Reg(RV64Reg { reg_no: 28 })
}

/// Temporary register t4: x29.
pub fn t4() -> (r: RV64Opnd)
    ensures
        r == (RV64Opnd::Reg(RV64Reg { reg_no: 29 })),
{
    RV64Opnd::Reg(RV64Reg { reg_no: 29 })
}

/// Temporary register t5: x30.
pub fn t5() -> (r: RV64Opnd)
    ensures
        r == (RV64Opnd::Reg(RV64Reg { reg_no: 30 })),
{
    RV64Opnd::Reg(RV64Reg { reg_no: 30 })
}

/// Temporary register t6: x31.
pub fn t6() -> (r: RV64Opnd)
    ensures
        r == (RV64Opnd::Reg(RV64Reg { reg_no: 31 })),
{
    RV64Opnd::Reg(RV64Reg { reg_no: 31 })
}

/// Saved register s0: x8.
pub fn s0() -> (r: RV64Opnd)
    ensures
        r == (RV64Opnd::Reg(RV64Reg { reg_no: 8 })),
{
    RV64Opnd::Reg(RV64Reg { reg_no: 8 })
}

/// Saved register s1: x9.
pub fn s1() -> (r: RV64Opnd)
    ensures
        r == (RV64Opnd::Reg(RV64Reg { reg_no: 9 })),
{
    RV64Opnd::Reg(RV64Reg { reg_no: 9 })
}

/// Saved register s2: x18.
pub fn s2() -> (r: RV64Opnd)
    ensures
        r == (RV64Opnd::Reg(RV64Reg { reg_no: 18 })),
{
    RV64Opnd::Reg(RV64Reg { reg_no: 18 })
}

/// Saved register s3: x19.
pub fn s3() -> (r: RV64Opnd)
    ensures
        r == (RV64Opnd::Reg(RV64Reg { reg_no: 19 })),
{
    RV64Opnd::Reg(RV64Reg { reg_no: 19 })
}

/// Saved register s4: x20.
pub fn s4() -> (r: RV64Opnd)
    ensures
        r == (RV64Opnd::Reg(RV64Reg { reg_no: 20 })),
{
    RV64Opnd::Reg(RV64Reg { reg_no: 20 })
}

/// Saved register s5: x21.
pub fn s5() -> (r: RV64Opnd)
    ensures
        r == (RV64Opnd::Reg(RV64Reg { reg_no: 21 })),
{
    RV64Opnd::Reg(RV64Reg { reg_no: 21 })
}

/// Saved register s6: x22.
pub fn s6() -> (r: RV64Opnd)
    ensures
        r == (RV64Opnd::Reg(RV64Reg { reg_no: 22 })),
{
    RV64Opnd::Reg(RV64Reg { reg_no: 22 })
}

/// Saved register s7: x23.
pub fn s7() -> (r: RV64Opnd)
    ensures
        r == (RV64Opnd::Reg(RV64Reg { reg_no: 23 })),
{
    RV64Opnd::Reg(RV64Reg { reg_no: 23 })
}

/// Saved register s8: x24.
pub fn s8() -> (r: RV64Opnd)
    ensures
        r == (RV64Opnd::Reg(RV64Reg { reg_no: 24 })),
{
    RV64Opnd::Reg(RV64Reg { reg_no: 24 })
}

/// Saved register s9: x25.
pub fn s9() -> (r: RV64Opnd)
    ensures
        r == (RV64Opnd::Reg(RV64Reg { reg_no: 25 })),
{
    RV64Opnd::Reg(RV64Reg { reg_no: 25 })
}

/// Saved register s10: x26.
pub fn s10() -> (r: RV64Opnd)
    ensures
        r == (RV64Opnd::Reg(RV64Reg { reg_no: 26 })),
{
    RV64Opnd::Reg(RV64Reg { reg_no: 26 })
}

/// Saved register s11: x27.
pub fn s11() -> (r: RV64Opnd)
    ensures
        r == (RV64Opnd::Reg(RV64Reg { reg_no: 27 })),
{
    RV64Opnd::Reg(RV64Reg { reg_no: 27 })
}

/// Argument/return register a0: x10.
pub fn a0() -> (r: RV64Opnd)
    ensures
        r == (RV64Opnd::Reg(RV64Reg { reg_no: 10 })),
{
    RV64Opnd::Reg(RV64Reg { reg_no: 10 })
}

/// Argument/return register a1: x11.
pub fn a1() -> (r: RV64Opnd)
    ensures
        r == (RV64Opnd::Reg(RV64Reg { reg_no: 11 })),
{
    RV64Opnd::Reg(RV64Reg { reg_no: 11 })
}

/// Argument register a2: x12.
pub fn a2() -> (r: RV64Opnd)
    ensures
        r == (RV64Opnd::Reg(RV64Reg { reg_no: 12 })),
{
    RV64Opnd::Reg(RV64Reg { reg_no: 12 })
}

/// Argument register a3: x13.
pub fn a3() -> (r: RV64Opnd)
    ensures
        r == (RV64Opnd::Reg(RV64Reg { reg_no: 13 })),
{
    RV64Opnd::Reg(RV64Reg { reg_no: 13 })
}

/// Argument register a4: x14.
pub fn a4() -> (r: RV64Opnd)
    ensures
        r == (RV64Opnd::Reg(RV64Reg { reg_no: 14 })),
{
    RV64Opnd::Reg(RV64Reg { reg_no: 14 })
}

/// Argument register a5: x15.
pub fn a5() -> (r: RV64Opnd)
    ensures
        r == (RV64Opnd::Reg(RV64Reg { reg_no: 15 })),
{
    RV64Opnd::Reg(RV64Reg { reg_no: 15 })
}

/// Argument register a6: x16.
pub fn a6() -> (r: RV64Opnd)
    ensures
        r == (RV64Opnd::Reg(RV64Reg { reg_no: 16 })),
{
    RV64Opnd::Reg(RV64Reg { reg_no: 16 })
}

/// Argument register a7: x17.
pub fn a7() -> (r: RV64Opnd)
    ensures
        r == (RV64Opnd::Reg(RV64Reg { reg_no: 17 })),
{
    RV64Opnd::Reg(RV64Reg { reg_no: 17 })
}

/// The 8 integer argument registers, as operands, in calling-convention
/// order: a0 through a7, that is x10 through x17.
pub fn c_arg_regs() -> (r: Vec<RV64Opnd>)
    ensures
        r@.len() == 8,
        forall|i: int|
            0 <= i < 8 ==> r@[i] == (RV64Opnd::Reg(RV64Reg { reg_no: (10 + i) as u8 })),
{
    let mut v: Vec<RV64Opnd> = Vec::new();
    v.push(a0());
    v.push(a1());
    v.push(a2());
    v.push(a3());
    v.push(a4());
    v.push(a5());
    v.push(a6());
    v.push(a7());
    v
}

/// The 8 integer argument registers, as bare registers, in
/// calling-convention order: x10 through x17.
pub fn c_arg_regregs() -> (r: Vec<RV64Reg>)
    ensures
        r@.len() == 8,
        forall|i: int| 0 <= i < 8 ==> r@[i] == (RV64Reg { reg_no: (10 + i) as u8 }),
{
    let mut v: Vec<RV64Reg> = Vec::new();
    v.push(x_reg(10));
    v.push(x_reg(11));
    v.push(x_reg(12));
    v.push(x_reg(13));
    v.push(x_reg(14));
    v.push(x_reg(15));
    v.push(x_reg(16));
    v.push(x_reg(17));
    v
}

} // verus!
