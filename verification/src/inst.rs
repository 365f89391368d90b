//! The R-format opcode catalog, the R-format field contract, and the
//! encoder that packs an instruction's fields into one 32-bit word.
//!
//! Word layout, most to least significant:
//!
//! ```text
//! 31        25 24     20 19     15 14  12 11      7 6           0
//! +----------+---------+---------+------+---------+-------------+
//! | func7    | rs2     | rs1     |func3 | rd      | opcode      |
//! +----------+---------+---------+------+---------+-------------+
//!   7 bits     5 bits    5 bits   3 bits  5 bits     7 bits
//! ```

use vstd::prelude::*;

verus! {

/// The R-type mnemonics of the RV64 base integer instruction set and the
/// integer multiply/divide extension, in 64-bit and word-narrowed forms.
///
/// Every mnemonic carries an explicit (opcode, func3, func7) triple,
/// declared independently of the order of this list: the numeric codes
/// are not sequential in the instruction set, so nothing here may be
/// inferred from a neighbouring entry.
#[derive(Clone, Copy, Debug, PartialEq, Eq, Structural)]
pub enum Opcode {
    /// Add.
    Add,
    /// Subtract.
    Sub,
    /// Shift left logical.
    Sll,
    /// Set less than.
    Slt,
    /// Set less than unsigned.
    Sltu,
    /// Exclusive or.
    Xor,
    /// Shift right logical.
    Srl,
    /// Shift right arithmetic.
    Sra,
    /// Or.
    Or,
    /// And.
    And,
    /// Add word.
    Addw,
    /// Subtract word.
    Subw,
    /// Shift left logical word.
    Sllw,
    /// Shift right logical word.
    Srlw,
    /// Shift right arithmetic word.
    Sraw,
    /// Multiply.
    Mul,
    /// Multiply high, signed by signed.
    Mulh,
    /// Multiply high, signed by unsigned.
    Mulhsu,
    /// Multiply high, unsigned by unsigned.
    Mulhu,
    /// Divide, signed.
    Div,
    /// Divide, unsigned.
    Divu,
    /// Remainder, signed.
    Rem,
    /// Remainder, unsigned.
    Remu,
    /// Multiply word.
    Mulw,
    /// Divide word, signed.
    Divw,
    /// Divide word, unsigned.
    Divuw,
    /// Remainder word, signed.
    Remw,
    /// Remainder word, unsigned.
    Remuw,
}

impl Opcode {
    /// The 7-bit primary opcode field of this mnemonic: 0b0110011 for the
    /// 64-bit operations, 0b0111011 for their word-narrowed variants.
    pub open spec fn op_bits(self) -> u8 {
        match self {
            Opcode::Add => 0b0110011,
            Opcode::Sub => 0b0110011,
            Opcode::Sll => 0b0110011,
            Opcode::Slt => 0b0110011,
            Opcode::Sltu => 0b0110011,
            Opcode::Xor => 0b0110011,
            Opcode::Srl => 0b0110011,
            Opcode::Sra => 0b0110011,
            Opcode::Or => 0b0110011,
            Opcode::And => 0b0110011,
            Opcode::Addw => 0b0111011,
            Opcode::Subw => 0b0111011,
            Opcode::Sllw => 0b0111011,
            Opcode::Srlw => 0b0111011,
            Opcode::Sraw => 0b0111011,
            Opcode::Mul => 0b0110011,
            Opcode::Mulh => 0b0110011,
            Opcode::Mulhsu => 0b0110011,
            Opcode::Mulhu => 0b0110011,
            Opcode::Div => 0b0110011,
            Opcode::Divu => 0b0110011,
            Opcode::Rem => 0b0110011,
            Opcode::Remu => 0b0110011,
            Opcode::Mulw => 0b0111011,
            Opcode::Divw => 0b0111011,
            Opcode::Divuw => 0b0111011,
            Opcode::Remw => 0b0111011,
            Opcode::Remuw => 0b0111011,
        }
    }

    /// The 3-bit func3 discriminator field of this mnemonic.
    pub open spec fn func3_bits(self) -> u8 {
        match self {
            Opcode::Add => 0b000,
            Opcode::Sub => 0b000,
            Opcode::Sll => 0b001,
            Opcode::Slt => 0b010,
            Opcode::Sltu => 0b011,
            Opcode::Xor => 0b100,
            Opcode::Srl => 0b101,
            Opcode::Sra => 0b101,
            Opcode::Or => 0b110,
            Opcode::And => 0b111,
            Opcode::Addw => 0b000,
            Opcode::Subw => 0b000,
            Opcode::Sllw => 0b001,
            Opcode::Srlw => 0b101,
            Opcode::Sraw => 0b101,
            Opcode::Mul => 0b000,
            Opcode::Mulh => 0b001,
            Opcode::Mulhsu => 0b010,
            Opcode::Mulhu => 0b011,
            Opcode::Div => 0b100,
            Opcode::Divu => 0b101,
            Opcode::Rem => 0b110,
            Opcode::Remu => 0b111,
            Opcode::Mulw => 0b000,
            Opcode::Divw => 0b100,
            Opcode::Divuw => 0b101,
            Opcode::Remw => 0b110,
            Opcode::Remuw => 0b111,
        }
    }

    /// The 7-bit func7 discriminator field of this mnemonic.
    pub open spec fn func7_bits(self) -> u8 {
        match self {
            Opcode::Add => 0b0000000,
            Opcode::Sub => 0b0100000,
            Opcode::Sll => 0b0000000,
            Opcode::Slt => 0b0000000,
            Opcode::Sltu => 0b0000000,
            Opcode::Xor => 0b0000000,
            Opcode::Srl => 0b0000000,
            Opcode::Sra => 0b0100000,
            Opcode::Or => 0b0000000,
            Opcode::And => 0b0000000,
            Opcode::Addw => 0b0000000,
            Opcode::Subw => 0b0100000,
            Opcode::Sllw => 0b0000000,
            Opcode::Srlw => 0b0000000,
            Opcode::Sraw => 0b0100000,
            Opcode::Mul => 0b0000001,
            Opcode::Mulh => 0b0000001,
            Opcode::Mulhsu => 0b0000001,
            Opcode::Mulhu => 0b0000001,
            Opcode::Div => 0b0000001,
            Opcode::Divu => 0b0000001,
            Opcode::Rem => 0b0000001,
            Opcode::Remu => 0b0000001,
            Opcode::Mulw => 0b0000001,
            Opcode::Divw => 0b0000001,
            Opcode::Divuw => 0b0000001,
            Opcode::Remw => 0b0000001,
            Opcode::Remuw => 0b0000001,
        }
    }

    /// The numeric value of the 7-bit opcode field.
    pub fn value(&self) -> (r: u8)
        ensures
            r == self.op_bits(),
            r < 0x80,
    {
        match self {
            Opcode::Add => 0b0110011,
            Opcode::Sub => 0b0110011,
            Opcode::Sll => 0b0110011,
            Opcode::Slt => 0b0110011,
            Opcode::Sltu => 0b0110011,
            Opcode::Xor => 0b0110011,
            Opcode::Srl => 0b0110011,
            Opcode::Sra => 0b0110011,
            Opcode::Or => 0b0110011,
            Opcode::And => 0b0110011,
            Opcode::Addw => 0b0111011,
            Opcode::Subw => 0b0111011,
            Opcode::Sllw => 0b0111011,
            Opcode::Srlw => 0b0111011,
            Opcode::Sraw => 0b0111011,
            Opcode::Mul => 0b0110011,
            Opcode::Mulh => 0b0110011,
            Opcode::Mulhsu => 0b0110011,
            Opcode::Mulhu => 0b0110011,
            Opcode::Div => 0b0110011,
            Opcode::Divu => 0b0110011,
            Opcode::Rem => 0b0110011,
            Opcode::Remu => 0b0110011,
            Opcode::Mulw => 0b0111011,
            Opcode::Divw => 0b0111011,
            Opcode::Divuw => 0b0111011,
            Opcode::Remw => 0b0111011,
            Opcode::Remuw => 0b0111011,
        }
    }

    /// The numeric value of the 3-bit func3 discriminator.
    pub fn func3_value(&self) -> (r: u8)
        ensures
            r == self.func3_bits(),
            r < 8,
    {
        match self {
            Opcode::Add => 0b000,
            Opcode::Sub => 0b000,
            Opcode::Sll => 0b001,
            Opcode::Slt => 0b010,
            Opcode::Sltu => 0b011,
            Opcode::Xor => 0b100,
            Opcode::Srl => 0b101,
            Opcode::Sra => 0b101,
            Opcode::Or => 0b110,
            Opcode::And => 0b111,
            Opcode::Addw => 0b000,
            Opcode::Subw => 0b000,
            Opcode::Sllw => 0b001,
            Opcode::Srlw => 0b101,
            Opcode::Sraw => 0b101,
            Opcode::Mul => 0b000,
            Opcode::Mulh => 0b001,
            Opcode::Mulhsu => 0b010,
            Opcode::Mulhu => 0b011,
            Opcode::Div => 0b100,
            Opcode::Divu => 0b101,
            Opcode::Rem => 0b110,
            Opcode::Remu => 0b111,
            Opcode::Mulw => 0b000,
            Opcode::Divw => 0b100,
            Opcode::Divuw => 0b101,
            Opcode::Remw => 0b110,
            Opcode::Remuw => 0b111,
        }
    }

    /// The numeric value of the 7-bit func7 discriminator.
    pub fn func7_value(&self) -> (r: u8)
        ensures
            r == self.func7_bits(),
            r < 0x80,
    {
        match self {
            Opcode::Add => 0b0000000,
            Opcode::Sub => 0b0100000,
            Opcode::Sll => 0b0000000,
            Opcode::Slt => 0b0000000,
            Opcode::Sltu => 0b0000000,
            Opcode::Xor => 0b0000000,
            Opcode::Srl => 0b0000000,
            Opcode::Sra => 0b0100000,
            Opcode::Or => 0b0000000,
            Opcode::And => 0b0000000,
            Opcode::Addw => 0b0000000,
            Opcode::Subw => 0b0100000,
            Opcode::Sllw => 0b0000000,
            Opcode::Srlw => 0b0000000,
            Opcode::Sraw => 0b0100000,
            Opcode::Mul => 0b0000001,
            Opcode::Mulh => 0b0000001,
            Opcode::Mulhsu => 0b0000001,
            Opcode::Mulhu => 0b0000001,
            Opcode::Div => 0b0000001,
            Opcode::Divu => 0b0000001,
            Opcode::Rem => 0b0000001,
            Opcode::Remu => 0b0000001,
            Opcode::Mulw => 0b0000001,
            Opcode::Divw => 0b0000001,
            Opcode::Divuw => 0b0000001,
            Opcode::Remw => 0b0000001,
            Opcode::Remuw => 0b0000001,
        }
    }
}

/// Catalog soundness: two mnemonics that agree on the whole discriminating
/// triple (opcode, func3, func7) are the same mnemonic, so no two catalog
/// entries assemble to indistinguishable machine code.
pub proof fn lemma_catalog_triples_distinct(a: Opcode, b: Opcode)
    requires
        a.op_bits() == b.op_bits(),
        a.func3_bits() == b.func3_bits(),
        a.func7_bits() == b.func7_bits(),
    ensures
        a == b,
{
}

/// The R-format field contract: any type that can deterministically supply
/// a mnemonic, the two discriminator fields, and the three register fields
/// can be encoded. Register and discriminator fields must fit their declared
/// widths, which every implementor guarantees at construction.
pub trait R {
    /// The mnemonic this instruction encodes.
    spec fn spec_opcode(&self) -> Opcode;

    /// The destination register index.
    spec fn spec_rd(&self) -> u8;

    /// The 3-bit function discriminator.
    spec fn spec_func3(&self) -> u8;

    /// The first source register index.
    spec fn spec_rs1(&self) -> u8;

    /// The second source register index.
    spec fn spec_rs2(&self) -> u8;

    /// The 7-bit function discriminator.
    spec fn spec_func7(&self) -> u8;

    /// The mnemonic this instruction encodes.
    fn opcode(&self) -> (r: Opcode)
        ensures
            r == self.spec_opcode(),
    ;

    /// The destination register index.
    fn rd(&self) -> (r: u8)
        ensures
            r == self.spec_rd(),
    ;

    /// The 3-bit function discriminator.
    fn func3(&self) -> (r: u8)
        ensures
            r == self.spec_func3(),
    ;

    /// The first source register index.
    fn rs1(&self) -> (r: u8)
        ensures
            r == self.spec_rs1(),
    ;

    /// The second source register index.
    fn rs2(&self) -> (r: u8)
        ensures
            r == self.spec_rs2(),
    ;

    /// The 7-bit function discriminator.
    fn func7(&self) -> (r: u8)
        ensures
            r == self.spec_func7(),
    ;
}

/// A 64-bit register-register add: rd = rs1 + rs2.
///
/// func3 and func7 are fixed by the mnemonic; the register fields are
/// caller-supplied at construction and must be valid register indices.
#[derive(Clone, Copy, Debug)]
pub struct Add {
    rd: u8,
    rs1: u8,
    rs2: u8,
}

impl Add {
    /// Build an add instruction from its three register indices.
    pub fn new(rd: u8, rs1: u8, rs2: u8) -> (r: Add)
        requires
            rd < 32,
            rs1 < 32,
            rs2 < 32,
        ensures
            r.spec_rd() == rd,
            r.spec_rs1() == rs1,
            r.spec_rs2() == rs2,
    {
        Add { rd, rs1, rs2 }
    }
}

impl R for Add {
    open spec fn spec_opcode(&self) -> Opcode {
        Opcode::Add
    }

    closed spec fn spec_rd(&self) -> u8 {
        self.rd
    }

    open spec fn spec_func3(&self) -> u8 {
        Opcode::Add.func3_bits()
    }

    closed spec fn spec_rs1(&self) -> u8 {
        self.rs1
    }

    closed spec fn spec_rs2(&self) -> u8 {
        self.rs2
    }

    open spec fn spec_func7(&self) -> u8 {
        Opcode::Add.func7_bits()
    }

    fn opcode(&self) -> (r: Opcode) {
        Opcode::Add
    }

    fn rd(&self) -> (r: u8) {
        self.rd
    }

    fn func3(&self) -> (r: u8) {
        0b000
    }

    fn rs1(&self) -> (r: u8) {
        self.rs1
    }

    fn rs2(&self) -> (r: u8) {
        self.rs2
    }

    fn func7(&self) -> (r: u8) {
        0b0000000
    }
}

/// A 32-bit word add: rd = sign-extended 32-bit sum of rs1 and rs2.
///
/// Same discriminators as the 64-bit add, but a different opcode field:
/// the word variant is a distinct mnemonic, not a width flag.
#[derive(Clone, Copy, Debug)]
pub struct Addw {
    rd: u8,
    rs1: u8,
    rs2: u8,
}

impl Addw {
    /// Build a word add instruction from its three register indices.
    pub fn new(rd: u8, rs1: u8, rs2: u8) -> (r: Addw)
        requires
            rd < 32,
            rs1 < 32,
            rs2 < 32,
        ensures
            r.spec_rd() == rd,
            r.spec_rs1() == rs1,
            r.spec_rs2() == rs2,
    {
        Addw { rd, rs1, rs2 }
    }
}

impl R for Addw {
    open spec fn spec_opcode(&self) -> Opcode {
        Opcode::Addw
    }

    closed spec fn spec_rd(&self) -> u8 {
        self.rd
    }

    open spec fn spec_func3(&self) -> u8 {
        Opcode::Addw.func3_bits()
    }

    closed spec fn spec_rs1(&self) -> u8 {
        self.rs1
    }

    closed spec fn spec_rs2(&self) -> u8 {
        self.rs2
    }

    open spec fn spec_func7(&self) -> u8 {
        Opcode::Addw.func7_bits()
    }

    fn opcode(&self) -> (r: Opcode) {
        Opcode::Addw
    }

    fn rd(&self) -> (r: u8) {
        self.rd
    }

    fn func3(&self) -> (r: u8) {
        0b000
    }

    fn rs1(&self) -> (r: u8) {
        self.rs1
    }

    fn rs2(&self) -> (r: u8) {
        self.rs2
    }

    fn func7(&self) -> (r: u8) {
        0b0000000
    }
}

/// The canonical packing of R-format fields into a 32-bit word, most to
/// least significant: func7 at bit 25, rs2 at bit 20, rs1 at bit 15,
/// func3 at bit 12, rd at bit 7, opcode at bit 0. Every field is masked
/// to its declared width before placement, so no field can bleed into a
/// neighbouring one, and all other bits are zero.
pub open spec fn r_word(opcode: u32, func3: u32, func7: u32, rd: u32, rs1: u32, rs2: u32) -> u32 {
    ((func7 & 0x7f) << 25) | ((rs2 & 0x1f) << 20) | ((rs1 & 0x1f) << 15) | ((func3 & 0x7) << 12)
        | ((rd & 0x1f) << 7) | (opcode & 0x7f)
}

impl From<Add> for u32 {
    /// The machine word of an add instruction.
    fn from(inst: Add) -> (r: u32) {
        RCodec::encode(inst)
    }
}

impl vstd::std_specs::convert::FromSpecImpl<Add> for u32 {
    open spec fn obeys_from_spec() -> bool {
        true
    }

    open spec fn from_spec(inst: Add) -> u32 {
        r_word(
            inst.spec_opcode().op_bits() as u32,
            inst.spec_func3() as u32,
            inst.spec_func7() as u32,
            inst.spec_rd() as u32,
            inst.spec_rs1() as u32,
            inst.spec_rs2() as u32,
        )
    }
}

impl From<Addw> for u32 {
    /// The machine word of a word-add instruction.
    fn from(inst: Addw) -> (r: u32) {
        RCodec::encode(inst)
    }
}

impl vstd::std_specs::convert::FromSpecImpl<Addw> for u32 {
    open spec fn obeys_from_spec() -> bool {
        true
    }

    open spec fn from_spec(inst: Addw) -> u32 {
        r_word(
            inst.spec_opcode().op_bits() as u32,
            inst.spec_func3() as u32,
            inst.spec_func7() as u32,
            inst.spec_rd() as u32,
            inst.spec_rs1() as u32,
            inst.spec_rs2() as u32,
        )
    }
}

/// The opcode field of an encoded word: bits 0 through 6.
pub open spec fn spec_decode_opcode(word: u32) -> u32 {
    word & 0x7f
}

/// The rd field of an encoded word: bits 7 through 11.
pub open spec fn spec_decode_rd(word: u32) -> u32 {
    (word >> 7) & 0x1f
}

/// The func3 field of an encoded word: bits 12 through 14.
pub open spec fn spec_decode_func3(word: u32) -> u32 {
    (word >> 12) & 0x7
}

/// The rs1 field of an encoded word: bits 15 through 19.
pub open spec fn spec_decode_rs1(word: u32) -> u32 {
    (word >> 15) & 0x1f
}

/// The rs2 field of an encoded word: bits 20 through 24.
pub open spec fn spec_decode_rs2(word: u32) -> u32 {
    (word >> 20) & 0x1f
}

/// The func7 field of an encoded word: bits 25 through 31.
pub open spec fn spec_decode_func7(word: u32) -> u32 {
    word >> 25
}

/// Read the opcode field back out of an encoded word.
pub fn decode_opcode(word: u32) -> (r: u32)
    ensures
        r == spec_decode_opcode(word),
{
    word & 0x7f
}

/// Read the rd field back out of an encoded word.
pub fn decode_rd(word: u32) -> (r: u32)
    ensures
        r == spec_decode_rd(word),
{
    (word >> 7) & 0x1f
}

/// Read the func3 field back out of an encoded word.
pub fn decode_func3(word: u32) -> (r: u32)
    ensures
        r == spec_decode_func3(word),
{
    (word >> 12) & 0x7
}

/// Read the rs1 field back out of an encoded word.
pub fn decode_rs1(word: u32) -> (r: u32)
    ensures
        r == spec_decode_rs1(word),
{
    (word >> 15) & 0x1f
}

/// Read the rs2 field back out of an encoded word.
pub fn decode_rs2(word: u32) -> (r: u32)
    ensures
        r == spec_decode_rs2(word),
{
    (word >> 20) & 0x1f
}

/// Read the func7 field back out of an encoded word.
pub fn decode_func7(word: u32) -> (r: u32)
    ensures
        r == spec_decode_func7(word),
{
    word >> 25
}

/// Round trip: decoding any field of the canonical word of a well-formed
/// tuple recovers that field exactly. In particular every register index
/// in the 5-bit range survives encoding in each of the rd, rs1 and rs2
/// roles unchanged.
pub proof fn lemma_fields_round_trip(
    opcode: u32,
    func3: u32,
    func7: u32,
    rd: u32,
    rs1: u32,
    rs2: u32,
)
    requires
        opcode < 0x80,
        func3 < 8,
        func7 < 0x80,
        rd < 32,
        rs1 < 32,
        rs2 < 32,
    ensures
        spec_decode_opcode(r_word(opcode, func3, func7, rd, rs1, rs2)) == opcode,
        spec_decode_func3(r_word(opcode, func3, func7, rd, rs1, rs2)) == func3,
        spec_decode_func7(r_word(opcode, func3, func7, rd, rs1, rs2)) == func7,
        spec_decode_rd(r_word(opcode, func3, func7, rd, rs1, rs2)) == rd,
        spec_decode_rs1(r_word(opcode, func3, func7, rd, rs1, rs2)) == rs1,
        spec_decode_rs2(r_word(opcode, func3, func7, rd, rs1, rs2)) == rs2,
{
    assert(spec_decode_opcode(r_word(opcode, func3, func7, rd, rs1, rs2)) == opcode
        && spec_decode_func3(r_word(opcode, func3, func7, rd, rs1, rs2)) == func3
        && spec_decode_func7(r_word(opcode, func3, func7, rd, rs1, rs2)) == func7
        && spec_decode_rd(r_word(opcode, func3, func7, rd, rs1, rs2)) == rd
        && spec_decode_rs1(r_word(opcode, func3, func7, rd, rs1, rs2)) == rs1
        && spec_decode_rs2(r_word(opcode, func3, func7, rd, rs1, rs2)) == rs2) by (bit_vector)
        requires
            opcode < 0x80,
            func3 < 8,
            func7 < 0x80,
            rd < 32,
            rs1 < 32,
            rs2 < 32,
    ;
}

/// Injectivity: two well-formed field tuples that encode to the same word
/// are the same tuple, so distinct instructions never collide on their
/// machine code.
pub proof fn lemma_encode_injective(
    opcode_a: u32,
    func3_a: u32,
    func7_a: u32,
    rd_a: u32,
    rs1_a: u32,
    rs2_a: u32,
    opcode_b: u32,
    func3_b: u32,
    func7_b: u32,
    rd_b: u32,
    rs1_b: u32,
    rs2_b: u32,
)
    requires
        opcode_a < 0x80,
        func3_a < 8,
        func7_a < 0x80,
        rd_a < 32,
        rs1_a < 32,
        rs2_a < 32,
        opcode_b < 0x80,
        func3_b < 8,
        func7_b < 0x80,
        rd_b < 32,
        rs1_b < 32,
        rs2_b < 32,
        r_word(opcode_a, func3_a, func7_a, rd_a, rs1_a, rs2_a) == r_word(
            opcode_b,
            func3_b,
            func7_b,
            rd_b,
            rs1_b,
            rs2_b,
        ),
    ensures
        opcode_a == opcode_b,
        func3_a == func3_b,
        func7_a == func7_b,
        rd_a == rd_b,
        rs1_a == rs1_b,
        rs2_a == rs2_b,
{
    lemma_fields_round_trip(opcode_a, func3_a, func7_a, rd_a, rs1_a, rs2_a);
    lemma_fields_round_trip(opcode_b, func3_b, func7_b, rd_b, rs1_b, rs2_b);
}

/// The encoder for the R layout.
pub struct RCodec;

impl RCodec {
    /// Pack an R-format instruction into its 32-bit machine word.
    ///
    /// Pure and total: given an instruction meeting the field contract the
    /// result is exactly the canonical word for its six fields.
    pub fn encode<I: R>(inst: I) -> (word: u32)
        ensures
            word == r_word(
                inst.spec_opcode().op_bits() as u32,
                inst.spec_func3() as u32,
                inst.spec_func7() as u32,
                inst.spec_rd() as u32,
                inst.spec_rs1() as u32,
                inst.spec_rs2() as u32,
            ),
    {
        let opcode: u32 = inst.opcode().value() as u32;
        let func3: u32 = inst.func3() as u32;
        let func7: u32 = inst.func7() as u32;
        let rd: u32 = inst.rd() as u32;
        let rs1: u32 = inst.rs1() as u32;
        let rs2: u32 = inst.rs2() as u32;
        ((func7 & 0x7f) << 25) | ((rs2 & 0x1f) << 20) | ((rs1 & 0x1f) << 15)
            | ((func3 & 0x7) << 12) | ((rd & 0x1f) << 7) | (opcode & 0x7f)
    }
}

} // verus!
