use vstd::prelude::*;

verus! {

/// The instructions this simulator executes. The comment on each is its
/// encoding, most significant bit first.
#[derive(Clone, Copy, Debug, PartialEq, Eq, Structural)]
pub enum Instruction {
    /// `0001 11rd dddd rrrr`
    ADC,
    /// `0000 11rd dddd rrrr`
    ADD,
    /// `1001 0110 KKdd KKKK`
    ADIW,
    /// `0010 00rd dddd rrrr`
    AND,
    /// `0111 KKKK dddd KKKK`
    ANDI,
    /// `1001 010d dddd 0101`
    ASR,
    /// `1001 0100 1sss 1000`
    BCLR,
    /// `1111 100d dddd 0bbb`
    BLD,
    /// `1111 01kk kkkk ksss`
    BRBC,
    /// `1111 00kk kkkk ksss`
    BRBS,
    /// `1001 0100 0sss 1000`
    BSET,
    /// `1111 101d dddd 0bbb`
    BST,
    /// `1001 010k kkkk 111k, then kkkk kkkk kkkk kkkk`
    CALL,
    /// `1001 1000 AAAA Abbb`
    CBI,
    /// `1001 010d dddd 0000`
    COM,
    /// `0001 01rd dddd rrrr`
    CP,
    /// `0000 01rd dddd rrrr`
    CPC,
    /// `0001 00rd dddd rrrr`
    CPSE,
    /// `0011 KKKK dddd KKKK`
    CPI,
    /// `1001 010d dddd 1010`
    DEC,
    /// `1001 000d dddd 0111`
    ELPM_INC,
    /// `0010 01rd dddd rrrr`
    EOR,
    /// `1001 0101 0000 1001`
    ICALL,
    /// `1001 0100 0000 1001`
    IJMP,
    /// `1011 0AAd dddd AAAA`
    IN,
    /// `1001 010d dddd 0011`
    INC,
    /// `1001 010k kkkk 110k, then kkkk kkkk kkkk kkkk`
    JMP,
    /// `1110 KKKK dddd KKKK`
    LDI,
    /// `1001 000d dddd 0000, then kkkk kkkk kkkk kkkk`
    LDS,
    /// `1001 000d dddd 1100`
    LDX,
    /// `1001 000d dddd 1101`
    LDX_INC,
    /// `1001 000d dddd 1110`
    LDX_DEC,
    /// `1000 000d dddd 1000`
    LDY,
    /// `1001 000d dddd 1001`
    LDY_INC,
    /// `1001 000d dddd 1010`
    LDY_DEC,
    /// `10q0 qq0d dddd 1qqq, q not 0`
    LDDY,
    /// `1000 000d dddd 0000`
    LDZ,
    /// `1001 000d dddd 0001`
    LDZ_INC,
    /// `1001 000d dddd 0010`
    LDZ_DEC,
    /// `10q0 qq0d dddd 0qqq, q not 0`
    LDDZ,
    /// `1001 0101 1100 1000`
    LPM,
    /// `1001 000d dddd 0100`
    LPM_REG,
    /// `1001 000d dddd 0101`
    LPM_INC,
    /// `1001 010d dddd 0110`
    LSR,
    /// `0010 11rd dddd rrrr`
    MOV,
    /// `0000 0001 dddd rrrr`
    MOVW,
    /// `1001 11rd dddd rrrr`
    MUL,
    /// `1001 010d dddd 0001`
    NEG,
    /// `0010 10rd dddd rrrr`
    OR,
    /// `1011 1AAr rrrr AAAA`
    OUT,
    /// `1001 000d dddd 1111`
    POP,
    /// `1001 001d dddd 1111`
    PUSH,
    /// `1101 kkkk kkkk kkkk`
    RCALL,
    /// `1001 0101 0000 1000`
    RET,
    /// `1001 0101 0001 1000`
    RETI,
    /// `1100 kkkk kkkk kkkk`
    RJMP,
    /// `1001 010d dddd 0111`
    ROR,
    /// `0000 10rd dddd rrrr`
    SBC,
    /// `0100 KKKK dddd KKKK`
    SBCI,
    /// `1001 1010 AAAA Abbb`
    SBI,
    /// `1001 1001 AAAA Abbb`
    SBIC,
    /// `1001 1011 AAAA Abbb`
    SBIS,
    /// `1001 0111 KKdd KKKK`
    SBIW,
    /// `0110 KKKK dddd KKKK`
    SBR,
    /// `1111 110r rrrr 0bbb`
    SBRC,
    /// `1111 111r rrrr 0bbb`
    SBRS,
    /// `1001 001d dddd 0000, then kkkk kkkk kkkk kkkk`
    STS,
    /// `1001 001r rrrr 1100`
    STX,
    /// `1001 001r rrrr 1101`
    STX_INC,
    /// `1001 001r rrrr 1110`
    STX_DEC,
    /// `1000 001r rrrr 1000`
    STY,
    /// `1001 001r rrrr 1001`
    STY_INC,
    /// `1001 001r rrrr 1010`
    STY_DEC,
    /// `10q0 qq1r rrrr 1qqq, q not 0`
    STDY,
    /// `1000 001r rrrr 0000`
    STZ,
    /// `1001 001r rrrr 0001`
    STZ_INC,
    /// `1001 001r rrrr 0010`
    STZ_DEC,
    /// `10q0 qq1r rrrr 0qqq, q not 0`
    STDZ,
    /// `0001 10rd dddd rrrr`
    SUB,
    /// `0101 KKKK dddd KKKK`
    SUBI,
}

/// The displacement `q` of a load or store with displacement.
pub open spec fn displacement(opcode: u16) -> u16 {
    (opcode & 7) | ((opcode & 0xc00) >> 7) | ((opcode & 0x2000) >> 8)
}

/// The instruction that a program word encodes, found by an ordered cascade
/// of mask/match tests; `None` for a word that encodes none.
pub open spec fn decode_spec(opcode: u16) -> Option<Instruction> {
    if opcode & 0xfc00 == 0x1c00 {
        Some(Instruction::ADC)
    }     else if opcode & 0xfc00 == 0x0c00 {
        Some(Instruction::ADD)
    }     else if opcode & 0xff00 == 0x9600 {
        Some(Instruction::ADIW)
    }     else if opcode & 0xfc00 == 0x2000 {
        Some(Instruction::AND)
    }     else if opcode & 0xf000 == 0x7000 {
        Some(Instruction::ANDI)
    }     else if opcode & 0xfe0f == 0x9405 {
        Some(Instruction::ASR)
    }     else if opcode & 0xff8f == 0x9488 {
        Some(Instruction::BCLR)
    }     else if opcode & 0xfe08 == 0xf800 {
        Some(Instruction::BLD)
    }     else if opcode & 0xfc00 == 0xf400 {
        Some(Instruction::BRBC)
    }     else if opcode & 0xfc00 == 0xf000 {
        Some(Instruction::BRBS)
    }     else if opcode & 0xff8f == 0x9408 {
        Some(Instruction::BSET)
    }     else if opcode & 0xfe08 == 0xfa00 {
        Some(Instruction::BST)
    }     else if opcode & 0xfe0e == 0x940e {
        Some(Instruction::CALL)
    }     else if opcode & 0xff00 == 0x9800 {
        Some(Instruction::CBI)
    }     else if opcode & 0xfe0f == 0x9400 {
        Some(Instruction::COM)
    }     else if opcode & 0xfc00 == 0x1400 {
        Some(Instruction::CP)
    }     else if opcode & 0xfc00 == 0x0400 {
        Some(Instruction::CPC)
    }     else if opcode & 0xfc00 == 0x1000 {
        Some(Instruction::CPSE)
    }     else if opcode & 0xf000 == 0x3000 {
        Some(Instruction::CPI)
    }     else if opcode & 0xfe0f == 0x940a {
        Some(Instruction::DEC)
    }     else if opcode & 0xfe0f == 0x9007 {
        Some(Instruction::ELPM_INC)
    }     else if opcode & 0xfc00 == 0x2400 {
        Some(Instruction::EOR)
    }     else if opcode == 0x9509 {
        Some(Instruction::ICALL)
    }     else if opcode == 0x9409 {
        Some(Instruction::IJMP)
    }     else if opcode & 0xf800 == 0xb000 {
        Some(Instruction::IN)
    }     else if opcode & 0xfe0f == 0x9403 {
        Some(Instruction::INC)
    }     else if opcode & 0xfe0e == 0x940c {
        Some(Instruction::JMP)
    }     else if opcode & 0xf000 == 0xe000 {
        Some(Instruction::LDI)
    }     else if opcode & 0xfe0f == 0x9000 {
        Some(Instruction::LDS)
    }     else if opcode & 0xfe0f == 0x900c {
        Some(Instruction::LDX)
    }     else if opcode & 0xfe0f == 0x900d {
        Some(Instruction::LDX_INC)
    }     else if opcode & 0xfe0f == 0x900e {
        Some(Instruction::LDX_DEC)
    }     else if opcode & 0xfe0f == 0x8008 {
        Some(Instruction::LDY)
    }     else if opcode & 0xfe0f == 0x9009 {
        Some(Instruction::LDY_INC)
    }     else if opcode & 0xfe0f == 0x900a {
        Some(Instruction::LDY_DEC)
    }     else if opcode & 0xd208 == 0x8008 && displacement(opcode) != 0 {
        Some(Instruction::LDDY)
    }     else if opcode & 0xfe0f == 0x8000 {
        Some(Instruction::LDZ)
    }     else if opcode & 0xfe0f == 0x9001 {
        Some(Instruction::LDZ_INC)
    }     else if opcode & 0xfe0f == 0x9002 {
        Some(Instruction::LDZ_DEC)
    }     else if opcode & 0xd208 == 0x8000 && displacement(opcode) != 0 {
        Some(Instruction::LDDZ)
    }     else if opcode == 0x95c8 {
        Some(Instruction::LPM)
    }     else if opcode & 0xfe0f == 0x9004 {
        Some(Instruction::LPM_REG)
    }     else if opcode & 0xfe0f == 0x9005 {
        Some(Instruction::LPM_INC)
    }     else if opcode & 0xfe0f == 0x9406 {
        Some(Instruction::LSR)
    }     else if opcode & 0xfc00 == 0x2c00 {
        Some(Instruction::MOV)
    }     else if opcode & 0xff00 == 0x0100 {
        Some(Instruction::MOVW)
    }     else if opcode & 0xfc00 == 0x9c00 {
        Some(Instruction::MUL)
    }     else if opcode & 0xfe0f == 0x9401 {
        Some(Instruction::NEG)
    }     else if opcode & 0xfc00 == 0x2800 {
        Some(Instruction::OR)
    }     else if opcode & 0xf800 == 0xb800 {
        Some(Instruction::OUT)
    }     else if opcode & 0xfe0f == 0x900f {
        Some(Instruction::POP)
    }     else if opcode & 0xfe0f == 0x920f {
        Some(Instruction::PUSH)
    }     else if opcode & 0xf000 == 0xd000 {
        Some(Instruction::RCALL)
    }     else if opcode == 0x9508 {
        Some(Instruction::RET)
    }     else if opcode == 0x9518 {
        Some(Instruction::RETI)
    }     else if opcode & 0xf000 == 0xc000 {
        Some(Instruction::RJMP)
    }     else if opcode & 0xfe0f == 0x9407 {
        Some(Instruction::ROR)
    }     else if opcode & 0xfc00 == 0x0800 {
        Some(Instruction::SBC)
    }     else if opcode & 0xf000 == 0x4000 {
        Some(Instruction::SBCI)
    }     else if opcode & 0xff00 == 0x9a00 {
        Some(Instruction::SBI)
    }     else if opcode & 0xff00 == 0x9900 {
        Some(Instruction::SBIC)
    }     else if opcode & 0xff00 == 0x9b00 {
        Some(Instruction::SBIS)
    }     else if opcode & 0xff00 == 0x9700 {
        Some(Instruction::SBIW)
    }     else if opcode & 0xf000 == 0x6000 {
        Some(Instruction::SBR)
    }     else if opcode & 0xfe08 == 0xfc00 {
        Some(Instruction::SBRC)
    }     else if opcode & 0xfe08 == 0xfe00 {
        Some(Instruction::SBRS)
    }     else if opcode & 0xfe0f == 0x9200 {
        Some(Instruction::STS)
    }     else if opcode & 0xfe0f == 0x920c {
        Some(Instruction::STX)
    }     else if opcode & 0xfe0f == 0x920d {
        Some(Instruction::STX_INC)
    }     else if opcode & 0xfe0f == 0x920e {
        Some(Instruction::STX_DEC)
    }     else if opcode & 0xfe0f == 0x8208 {
        Some(Instruction::STY)
    }     else if opcode & 0xfe0f == 0x9209 {
        Some(Instruction::STY_INC)
    }     else if opcode & 0xfe0f == 0x920a {
        Some(Instruction::STY_DEC)
    }     else if opcode & 0xd208 == 0x8208 && displacement(opcode) != 0 {
        Some(Instruction::STDY)
    }     else if opcode & 0xfe0f == 0x8200 {
        Some(Instruction::STZ)
    }     else if opcode & 0xfe0f == 0x9201 {
        Some(Instruction::STZ_INC)
    }     else if opcode & 0xfe0f == 0x9202 {
        Some(Instruction::STZ_DEC)
    }     else if opcode & 0xd208 == 0x8200 && displacement(opcode) != 0 {
        Some(Instruction::STDZ)
    }     else if opcode & 0xfc00 == 0x1800 {
        Some(Instruction::SUB)
    }     else if opcode & 0xf000 == 0x5000 {
        Some(Instruction::SUBI)
    } else {
        None
    }
}

/// Whether the word starts an instruction that takes a second word.
pub open spec fn is_two_word(opcode: u16) -> bool {
    ||| opcode & 0xfe0f == 0x9000
    ||| opcode & 0xfe0f == 0x9200
    ||| opcode & 0xfe0e == 0x940e
    ||| opcode & 0xfe0e == 0x940c
}

pub fn displacement_of(opcode: u16) -> (q: u16)
    ensures
        q == displacement(opcode),
{
    (opcode & 7) | ((opcode & 0xc00) >> 7) | ((opcode & 0x2000) >> 8)
}

/// Decodes a program word; `None` if it encodes no instruction.
pub fn try_decode(opcode: u16) -> (r: Option<Instruction>)
    ensures
        r == decode_spec(opcode),
{
    if opcode & 0xfc00 == 0x1c00 {
        Some(Instruction::ADC)
    }     else if opcode & 0xfc00 == 0x0c00 {
        Some(Instruction::ADD)
    }     else if opcode & 0xff00 == 0x9600 {
        Some(Instruction::ADIW)
    }     else if opcode & 0xfc00 == 0x2000 {
        Some(Instruction::AND)
    }     else if opcode & 0xf000 == 0x7000 {
        Some(Instruction::ANDI)
    }     else if opcode & 0xfe0f == 0x9405 {
        Some(Instruction::ASR)
    }     else if opcode & 0xff8f == 0x9488 {
        Some(Instruction::BCLR)
    }     else if opcode & 0xfe08 == 0xf800 {
        Some(Instruction::BLD)
    }     else if opcode & 0xfc00 == 0xf400 {
        Some(Instruction::BRBC)
    }     else if opcode & 0xfc00 == 0xf000 {
        Some(Instruction::BRBS)
    }     else if opcode & 0xff8f == 0x9408 {
        Some(Instruction::BSET)
    }     else if opcode & 0xfe08 == 0xfa00 {
        Some(Instruction::BST)
    }     else if opcode & 0xfe0e == 0x940e {
        Some(Instruction::CALL)
    }     else if opcode & 0xff00 == 0x9800 {
        Some(Instruction::CBI)
    }     else if opcode & 0xfe0f == 0x9400 {
        Some(Instruction::COM)
    }     else if opcode & 0xfc00 == 0x1400 {
        Some(Instruction::CP)
    }     else if opcode & 0xfc00 == 0x0400 {
        Some(Instruction::CPC)
    }     else if opcode & 0xfc00 == 0x1000 {
        Some(Instruction::CPSE)
    }     else if opcode & 0xf000 == 0x3000 {
        Some(Instruction::CPI)
    }     else if opcode & 0xfe0f == 0x940a {
        Some(Instruction::DEC)
    }     else if opcode & 0xfe0f == 0x9007 {
        Some(Instruction::ELPM_INC)
    }     else if opcode & 0xfc00 == 0x2400 {
        Some(Instruction::EOR)
    }     else if opcode == 0x9509 {
        Some(Instruction::ICALL)
    }     else if opcode == 0x9409 {
        Some(Instruction::IJMP)
    }     else if opcode & 0xf800 == 0xb000 {
        Some(Instruction::IN)
    }     else if opcode & 0xfe0f == 0x9403 {
        Some(Instruction::INC)
    }     else if opcode & 0xfe0e == 0x940c {
        Some(Instruction::JMP)
    }     else if opcode & 0xf000 == 0xe000 {
        Some(Instruction::LDI)
    }     else if opcode & 0xfe0f == 0x9000 {
        Some(Instruction::LDS)
    }     else if opcode & 0xfe0f == 0x900c {
        Some(Instruction::LDX)
    }     else if opcode & 0xfe0f == 0x900d {
        Some(Instruction::LDX_INC)
    }     else if opcode & 0xfe0f == 0x900e {
        Some(Instruction::LDX_DEC)
    }     else if opcode & 0xfe0f == 0x8008 {
        Some(Instruction::LDY)
    }     else if opcode & 0xfe0f == 0x9009 {
        Some(Instruction::LDY_INC)
    }     else if opcode & 0xfe0f == 0x900a {
        Some(Instruction::LDY_DEC)
    }     else if opcode & 0xd208 == 0x8008 && displacement_of(opcode) != 0 {
        Some(Instruction::LDDY)
    }     else if opcode & 0xfe0f == 0x8000 {
        Some(Instruction::LDZ)
    }     else if opcode & 0xfe0f == 0x9001 {
        Some(Instruction::LDZ_INC)
    }     else if opcode & 0xfe0f == 0x9002 {
        Some(Instruction::LDZ_DEC)
    }     else if opcode & 0xd208 == 0x8000 && displacement_of(opcode) != 0 {
        Some(Instruction::LDDZ)
    }     else if opcode == 0x95c8 {
        Some(Instruction::LPM)
    }     else if opcode & 0xfe0f == 0x9004 {
        Some(Instruction::LPM_REG)
    }     else if opcode & 0xfe0f == 0x9005 {
        Some(Instruction::LPM_INC)
    }     else if opcode & 0xfe0f == 0x9406 {
        Some(Instruction::LSR)
    }     else if opcode & 0xfc00 == 0x2c00 {
        Some(Instruction::MOV)
    }     else if opcode & 0xff00 == 0x0100 {
        Some(Instruction::MOVW)
    }     else if opcode & 0xfc00 == 0x9c00 {
        Some(Instruction::MUL)
    }     else if opcode & 0xfe0f == 0x9401 {
        Some(Instruction::NEG)
    }     else if opcode & 0xfc00 == 0x2800 {
        Some(Instruction::OR)
    }     else if opcode & 0xf800 == 0xb800 {
        Some(Instruction::OUT)
    }     else if opcode & 0xfe0f == 0x900f {
        Some(Instruction::POP)
    }     else if opcode & 0xfe0f == 0x920f {
        Some(Instruction::PUSH)
    }     else if opcode & 0xf000 == 0xd000 {
        Some(Instruction::RCALL)
    }     else if opcode == 0x9508 {
        Some(Instruction::RET)
    }     else if opcode == 0x9518 {
        Some(Instruction::RETI)
    }     else if opcode & 0xf000 == 0xc000 {
        Some(Instruction::RJMP)
    }     else if opcode & 0xfe0f == 0x9407 {
        Some(Instruction::ROR)
    }     else if opcode & 0xfc00 == 0x0800 {
        Some(Instruction::SBC)
    }     else if opcode & 0xf000 == 0x4000 {
        Some(Instruction::SBCI)
    }     else if opcode & 0xff00 == 0x9a00 {
        Some(Instruction::SBI)
    }     else if opcode & 0xff00 == 0x9900 {
        Some(Instruction::SBIC)
    }     else if opcode & 0xff00 == 0x9b00 {
        Some(Instruction::SBIS)
    }     else if opcode & 0xff00 == 0x9700 {
        Some(Instruction::SBIW)
    }     else if opcode & 0xf000 == 0x6000 {
        Some(Instruction::SBR)
    }     else if opcode & 0xfe08 == 0xfc00 {
        Some(Instruction::SBRC)
    }     else if opcode & 0xfe08 == 0xfe00 {
        Some(Instruction::SBRS)
    }     else if opcode & 0xfe0f == 0x9200 {
        Some(Instruction::STS)
    }     else if opcode & 0xfe0f == 0x920c {
        Some(Instruction::STX)
    }     else if opcode & 0xfe0f == 0x920d {
        Some(Instruction::STX_INC)
    }     else if opcode & 0xfe0f == 0x920e {
        Some(Instruction::STX_DEC)
    }     else if opcode & 0xfe0f == 0x8208 {
        Some(Instruction::STY)
    }     else if opcode & 0xfe0f == 0x9209 {
        Some(Instruction::STY_INC)
    }     else if opcode & 0xfe0f == 0x920a {
        Some(Instruction::STY_DEC)
    }     else if opcode & 0xd208 == 0x8208 && displacement_of(opcode) != 0 {
        Some(Instruction::STDY)
    }     else if opcode & 0xfe0f == 0x8200 {
        Some(Instruction::STZ)
    }     else if opcode & 0xfe0f == 0x9201 {
        Some(Instruction::STZ_INC)
    }     else if opcode & 0xfe0f == 0x9202 {
        Some(Instruction::STZ_DEC)
    }     else if opcode & 0xd208 == 0x8200 && displacement_of(opcode) != 0 {
        Some(Instruction::STDZ)
    }     else if opcode & 0xfc00 == 0x1800 {
        Some(Instruction::SUB)
    }     else if opcode & 0xf000 == 0x5000 {
        Some(Instruction::SUBI)
    } else {
        None
    }
}

/// Decodes a program word that encodes an instruction.
pub fn decode(opcode: u16) -> (r: Instruction)
    requires
        decode_spec(opcode) is Some,
    ensures
        decode_spec(opcode) == Some(r),
{
    match try_decode(opcode) {
        Some(instruction) => instruction,
        None => Instruction::ADC,
    }
}

pub fn is_two_word_instruction(opcode: u16) -> (r: bool)
    ensures
        r == is_two_word(opcode),
{
    (opcode & 0xfe0f) == 0x9000 || (opcode & 0xfe0f) == 0x9200 || (opcode & 0xfe0e) == 0x940e || (
    opcode & 0xfe0e) == 0x940c
}

proof fn lemma_two_word_patterns(opcode: u16)
    by (bit_vector)
    ensures
        opcode & 0xfe0e == 0x940e ==> opcode & 0xfc00 != 0x1c00 && opcode & 0xfc00 != 0x0c00 && opcode & 0xff00 != 0x9600 && opcode & 0xfc00 != 0x2000 && opcode & 0xf000 != 0x7000 && opcode & 0xfe0f != 0x9405 && opcode & 0xff8f != 0x9488 && opcode & 0xfe08 != 0xf800 && opcode & 0xfc00 != 0xf400 && opcode & 0xfc00 != 0xf000 && opcode & 0xff8f != 0x9408 && opcode & 0xfe08 != 0xfa00,
        opcode & 0xfe0e == 0x940c ==> opcode & 0xfc00 != 0x1c00 && opcode & 0xfc00 != 0x0c00 && opcode & 0xff00 != 0x9600 && opcode & 0xfc00 != 0x2000 && opcode & 0xf000 != 0x7000 && opcode & 0xfe0f != 0x9405 && opcode & 0xff8f != 0x9488 && opcode & 0xfe08 != 0xf800 && opcode & 0xfc00 != 0xf400 && opcode & 0xfc00 != 0xf000 && opcode & 0xff8f != 0x9408 && opcode & 0xfe08 != 0xfa00 && opcode & 0xfe0e != 0x940e && opcode & 0xff00 != 0x9800 && opcode & 0xfe0f != 0x9400 && opcode & 0xfc00 != 0x1400 && opcode & 0xfc00 != 0x0400 && opcode & 0xfc00 != 0x1000 && opcode & 0xf000 != 0x3000 && opcode & 0xfe0f != 0x940a && opcode & 0xfe0f != 0x9007 && opcode & 0xfc00 != 0x2400 && opcode != 0x9509 && opcode != 0x9409 && opcode & 0xf800 != 0xb000 && opcode & 0xfe0f != 0x9403,
        opcode & 0xfe0f == 0x9000 ==> opcode & 0xfc00 != 0x1c00 && opcode & 0xfc00 != 0x0c00 && opcode & 0xff00 != 0x9600 && opcode & 0xfc00 != 0x2000 && opcode & 0xf000 != 0x7000 && opcode & 0xfe0f != 0x9405 && opcode & 0xff8f != 0x9488 && opcode & 0xfe08 != 0xf800 && opcode & 0xfc00 != 0xf400 && opcode & 0xfc00 != 0xf000 && opcode & 0xff8f != 0x9408 && opcode & 0xfe08 != 0xfa00 && opcode & 0xfe0e != 0x940e && opcode & 0xff00 != 0x9800 && opcode & 0xfe0f != 0x9400 && opcode & 0xfc00 != 0x1400 && opcode & 0xfc00 != 0x0400 && opcode & 0xfc00 != 0x1000 && opcode & 0xf000 != 0x3000 && opcode & 0xfe0f != 0x940a && opcode & 0xfe0f != 0x9007 && opcode & 0xfc00 != 0x2400 && opcode != 0x9509 && opcode != 0x9409 && opcode & 0xf800 != 0xb000 && opcode & 0xfe0f != 0x9403 && opcode & 0xfe0e != 0x940c && opcode & 0xf000 != 0xe000,
        opcode & 0xfe0f == 0x9200 ==> opcode & 0xfc00 != 0x1c00 && opcode & 0xfc00 != 0x0c00 && opcode & 0xff00 != 0x9600 && opcode & 0xfc00 != 0x2000 && opcode & 0xf000 != 0x7000 && opcode & 0xfe0f != 0x9405 && opcode & 0xff8f != 0x9488 && opcode & 0xfe08 != 0xf800 && opcode & 0xfc00 != 0xf400 && opcode & 0xfc00 != 0xf000 && opcode & 0xff8f != 0x9408 && opcode & 0xfe08 != 0xfa00 && opcode & 0xfe0e != 0x940e && opcode & 0xff00 != 0x9800 && opcode & 0xfe0f != 0x9400 && opcode & 0xfc00 != 0x1400 && opcode & 0xfc00 != 0x0400 && opcode & 0xfc00 != 0x1000 && opcode & 0xf000 != 0x3000 && opcode & 0xfe0f != 0x940a && opcode & 0xfe0f != 0x9007 && opcode & 0xfc00 != 0x2400 && opcode != 0x9509 && opcode != 0x9409 && opcode & 0xf800 != 0xb000 && opcode & 0xfe0f != 0x9403 && opcode & 0xfe0e != 0x940c && opcode & 0xf000 != 0xe000 && opcode & 0xfe0f != 0x9000 && opcode & 0xfe0f != 0x900c && opcode & 0xfe0f != 0x900d && opcode & 0xfe0f != 0x900e && opcode & 0xfe0f != 0x8008 && opcode & 0xfe0f != 0x9009 && opcode & 0xfe0f != 0x900a && opcode & 0xd208 != 0x8008 && opcode & 0xfe0f != 0x8000 && opcode & 0xfe0f != 0x9001 && opcode & 0xfe0f != 0x9002 && opcode & 0xd208 != 0x8000 && opcode != 0x95c8 && opcode & 0xfe0f != 0x9004 && opcode & 0xfe0f != 0x9005 && opcode & 0xfe0f != 0x9406 && opcode & 0xfc00 != 0x2c00 && opcode & 0xff00 != 0x0100 && opcode & 0xfc00 != 0x9c00 && opcode & 0xfe0f != 0x9401 && opcode & 0xfc00 != 0x2800 && opcode & 0xf800 != 0xb800 && opcode & 0xfe0f != 0x900f && opcode & 0xfe0f != 0x920f && opcode & 0xf000 != 0xd000 && opcode != 0x9508 && opcode != 0x9518 && opcode & 0xf000 != 0xc000 && opcode & 0xfe0f != 0x9407 && opcode & 0xfc00 != 0x0800 && opcode & 0xf000 != 0x4000 && opcode & 0xff00 != 0x9a00 && opcode & 0xff00 != 0x9900 && opcode & 0xff00 != 0x9b00 && opcode & 0xff00 != 0x9700 && opcode & 0xf000 != 0x6000 && opcode & 0xfe08 != 0xfc00 && opcode & 0xfe08 != 0xfe00,
{
}

/// The instructions that take a second program word are exactly LDS, STS,
/// CALL and JMP.
pub proof fn lemma_two_word_closed_set(opcode: u16)
    ensures
        is_two_word(opcode) <==> (decode_spec(opcode) == Some(Instruction::LDS) || decode_spec(
            opcode,
        ) == Some(Instruction::STS) || decode_spec(opcode) == Some(Instruction::CALL)
            || decode_spec(opcode) == Some(Instruction::JMP)),
{
    lemma_two_word_patterns(opcode);
}

} // verus!
