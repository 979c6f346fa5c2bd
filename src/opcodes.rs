//! The instruction set: one specifier for each of the 256 byte values, with
//! its mnemonic, the length of its immediate and its control-flow flags.

use vstd::prelude::*;

verus! {

broadcast use vstd::string::group_string_axioms;

/// Control-flow facts about an instruction.
pub trait Metadata {
    spec fn jumps(&self) -> bool;

    spec fn is_target(&self) -> bool;

    spec fn exits(&self) -> bool;

    /// Whether the instruction may transfer control elsewhere.
    fn is_jump(&self) -> (r: bool)
        ensures
            r == self.jumps(),
    ;

    /// Whether the instruction marks a valid destination of a jump.
    fn is_jump_target(&self) -> (r: bool)
        ensures
            r == self.is_target(),
    ;

    /// Whether the instruction ends execution.
    fn is_exit(&self) -> (r: bool)
        ensures
            r == self.exits(),
    ;
}

/// An instruction specifier. The variants are declared in the order of their
/// byte encoding, from `0x00` to `0xff`; unassigned bytes are `Invalid..`.
#[derive(Clone, Copy, Debug, PartialEq, Eq, Structural, Hash)]
pub enum Op {
    Stop,
    Add,
    Mul,
    Sub,
    Div,
    SDiv,
    Mod,
    SMod,
    AddMod,
    MulMod,
    Exp,
    SignExtend,
    Invalid0c,
    Invalid0d,
    Invalid0e,
    Invalid0f,
    Lt,
    Gt,
    SLt,
    SGt,
    Eq,
    IsZero,
    And,
    Or,
    Xor,
    Not,
    Byte,
    Shl,
    Shr,
    Sar,
    Invalid1e,
    Invalid1f,
    Keccak256,
    Invalid21,
    Invalid22,
    Invalid23,
    Invalid24,
    Invalid25,
    Invalid26,
    Invalid27,
    Invalid28,
    Invalid29,
    Invalid2a,
    Invalid2b,
    Invalid2c,
    Invalid2d,
    Invalid2e,
    Invalid2f,
    Address,
    Balance,
    Origin,
    Caller,
    CallValue,
    CallDataLoad,
    CallDataSize,
    CallDataCopy,
    CodeSize,
    CodeCopy,
    GasPrice,
    ExtCodeSize,
    ExtCodeCopy,
    ReturnDataSize,
    ReturnDataCopy,
    ExtCodeHash,
    BlockHash,
    Coinbase,
    Timestamp,
    Number,
    Difficulty,
    GasLimit,
    ChainId,
    Invalid47,
    Invalid48,
    Invalid49,
    Invalid4a,
    Invalid4b,
    Invalid4c,
    Invalid4d,
    Invalid4e,
    Invalid4f,
    Pop,
    MLoad,
    MStore,
    MStore8,
    SLoad,
    SStore,
    Jump,
    JumpI,
    GetPc,
    MSize,
    Gas,
    JumpDest,
    Invalid5c,
    Invalid5d,
    Invalid5e,
    Invalid5f,
    Push1,
    Push2,
    Push3,
    Push4,
    Push5,
    Push6,
    Push7,
    Push8,
    Push9,
    Push10,
    Push11,
    Push12,
    Push13,
    Push14,
    Push15,
    Push16,
    Push17,
    Push18,
    Push19,
    Push20,
    Push21,
    Push22,
    Push23,
    Push24,
    Push25,
    Push26,
    Push27,
    Push28,
    Push29,
    Push30,
    Push31,
    Push32,
    Dup1,
    Dup2,
    Dup3,
    Dup4,
    Dup5,
    Dup6,
    Dup7,
    Dup8,
    Dup9,
    Dup10,
    Dup11,
    Dup12,
    Dup13,
    Dup14,
    Dup15,
    Dup16,
    Swap1,
    Swap2,
    Swap3,
    Swap4,
    Swap5,
    Swap6,
    Swap7,
    Swap8,
    Swap9,
    Swap10,
    Swap11,
    Swap12,
    Swap13,
    Swap14,
    Swap15,
    Swap16,
    Log0,
    Log1,
    Log2,
    Log3,
    Log4,
    InvalidA5,
    InvalidA6,
    InvalidA7,
    InvalidA8,
    InvalidA9,
    InvalidAa,
    InvalidAb,
    InvalidAc,
    InvalidAd,
    InvalidAe,
    InvalidAf,
    JumpTo,
    JumpIf,
    JumpSub,
    InvalidB3,
    JumpSubV,
    BeginSub,
    BeginData,
    InvalidB7,
    ReturnSub,
    PutLocal,
    GetLocal,
    InvalidBb,
    InvalidBc,
    InvalidBd,
    InvalidBe,
    InvalidBf,
    InvalidC0,
    InvalidC1,
    InvalidC2,
    InvalidC3,
    InvalidC4,
    InvalidC5,
    InvalidC6,
    InvalidC7,
    InvalidC8,
    InvalidC9,
    InvalidCa,
    InvalidCb,
    InvalidCc,
    InvalidCd,
    InvalidCe,
    InvalidCf,
    InvalidD0,
    InvalidD1,
    InvalidD2,
    InvalidD3,
    InvalidD4,
    InvalidD5,
    InvalidD6,
    InvalidD7,
    InvalidD8,
    InvalidD9,
    InvalidDa,
    InvalidDb,
    InvalidDc,
    InvalidDd,
    InvalidDe,
    InvalidDf,
    InvalidE0,
    SLoadBytes,
    SStoreBytes,
    SSize,
    InvalidE4,
    InvalidE5,
    InvalidE6,
    InvalidE7,
    InvalidE8,
    InvalidE9,
    InvalidEa,
    InvalidEb,
    InvalidEc,
    InvalidEd,
    InvalidEe,
    InvalidEf,
    Create,
    Call,
    CallCode,
    Return,
    DelegateCall,
    Create2,
    InvalidF6,
    InvalidF7,
    InvalidF8,
    InvalidF9,
    StaticCall,
    InvalidFb,
    TxExecGas,
    Revert,
    Invalid,
    SelfDestruct,
}

/// The name under which callers refer to a bare instruction kind.
pub type Specifier = Op;

/// The error returned when text names no instruction.
#[derive(Clone, Copy, Debug, PartialEq, Eq, Structural)]
pub struct UnknownSpecifier;

/// The smallest number of bytes, at least one, that holds `v` big-endian.
pub open spec fn min_push_width(v: nat) -> nat
    decreases v,
{
    if v < 256 {
        1
    } else {
        1 + min_push_width(v / 256)
    }
}

/// `256` to the power `n`.
pub open spec fn pow256(n: nat) -> nat
    decreases n,
{
    if n == 0 {
        1
    } else {
        256 * pow256((n - 1) as nat)
    }
}

/// The fields of a mnemonic that tell all mnemonics apart: its length, its
/// first character and its last two characters.
pub open spec fn mnemonic_key(m: Seq<char>) -> (nat, char, char, char) {
    (m.len(), m[0], m[m.len() - 2], m[m.len() - 1])
}

/// The specifier whose mnemonic has the given key, if one has.
pub open spec fn op_with_key(key: (nat, char, char, char)) -> Option<Op> {
    if key == (4nat, 's', 'o', 'p') {
        Some(Op::Stop)
    } else if key == (3nat, 'a', 'd', 'd') {
        Some(Op::Add)
    } else if key == (3nat, 'm', 'u', 'l') {
        Some(Op::Mul)
    } else if key == (3nat, 's', 'u', 'b') {
        Some(Op::Sub)
    } else if key == (3nat, 'd', 'i', 'v') {
        Some(Op::Div)
    } else if key == (4nat, 's', 'i', 'v') {
        Some(Op::SDiv)
    } else if key == (3nat, 'm', 'o', 'd') {
        Some(Op::Mod)
    } else if key == (4nat, 's', 'o', 'd') {
        Some(Op::SMod)
    } else if key == (6nat, 'a', 'o', 'd') {
        Some(Op::AddMod)
    } else if key == (6nat, 'm', 'o', 'd') {
        Some(Op::MulMod)
    } else if key == (3nat, 'e', 'x', 'p') {
        Some(Op::Exp)
    } else if key == (10nat, 's', 'n', 'd') {
        Some(Op::SignExtend)
    } else if key == (10nat, 'i', '0', 'c') {
        Some(Op::Invalid0c)
    } else if key == (10nat, 'i', '0', 'd') {
        Some(Op::Invalid0d)
    } else if key == (10nat, 'i', '0', 'e') {
        Some(Op::Invalid0e)
    } else if key == (10nat, 'i', '0', 'f') {
        Some(Op::Invalid0f)
    } else if key == (2nat, 'l', 'l', 't') {
        Some(Op::Lt)
    } else if key == (2nat, 'g', 'g', 't') {
        Some(Op::Gt)
    } else if key == (3nat, 's', 'l', 't') {
        Some(Op::SLt)
    } else if key == (3nat, 's', 'g', 't') {
        Some(Op::SGt)
    } else if key == (2nat, 'e', 'e', 'q') {
        Some(Op::Eq)
    } else if key == (6nat, 'i', 'r', 'o') {
        Some(Op::IsZero)
    } else if key == (3nat, 'a', 'n', 'd') {
        Some(Op::And)
    } else if key == (2nat, 'o', 'o', 'r') {
        Some(Op::Or)
    } else if key == (3nat, 'x', 'o', 'r') {
        Some(Op::Xor)
    } else if key == (3nat, 'n', 'o', 't') {
        Some(Op::Not)
    } else if key == (4nat, 'b', 't', 'e') {
        Some(Op::Byte)
    } else if key == (3nat, 's', 'h', 'l') {
        Some(Op::Shl)
    } else if key == (3nat, 's', 'h', 'r') {
        Some(Op::Shr)
    } else if key == (3nat, 's', 'a', 'r') {
        Some(Op::Sar)
    } else if key == (10nat, 'i', '1', 'e') {
        Some(Op::Invalid1e)
    } else if key == (10nat, 'i', '1', 'f') {
        Some(Op::Invalid1f)
    } else if key == (9nat, 'k', '5', '6') {
        Some(Op::Keccak256)
    } else if key == (10nat, 'i', '2', '1') {
        Some(Op::Invalid21)
    } else if key == (10nat, 'i', '2', '2') {
        Some(Op::Invalid22)
    } else if key == (10nat, 'i', '2', '3') {
        Some(Op::Invalid23)
    } else if key == (10nat, 'i', '2', '4') {
        Some(Op::Invalid24)
    } else if key == (10nat, 'i', '2', '5') {
        Some(Op::Invalid25)
    } else if key == (10nat, 'i', '2', '6') {
        Some(Op::Invalid26)
    } else if key == (10nat, 'i', '2', '7') {
        Some(Op::Invalid27)
    } else if key == (10nat, 'i', '2', '8') {
        Some(Op::Invalid28)
    } else if key == (10nat, 'i', '2', '9') {
        Some(Op::Invalid29)
    } else if key == (10nat, 'i', '2', 'a') {
        Some(Op::Invalid2a)
    } else if key == (10nat, 'i', '2', 'b') {
        Some(Op::Invalid2b)
    } else if key == (10nat, 'i', '2', 'c') {
        Some(Op::Invalid2c)
    } else if key == (10nat, 'i', '2', 'd') {
        Some(Op::Invalid2d)
    } else if key == (10nat, 'i', '2', 'e') {
        Some(Op::Invalid2e)
    } else if key == (10nat, 'i', '2', 'f') {
        Some(Op::Invalid2f)
    } else if key == (7nat, 'a', 's', 's') {
        Some(Op::Address)
    } else if key == (7nat, 'b', 'c', 'e') {
        Some(Op::Balance)
    } else if key == (6nat, 'o', 'i', 'n') {
        Some(Op::Origin)
    } else if key == (6nat, 'c', 'e', 'r') {
        Some(Op::Caller)
    } else if key == (9nat, 'c', 'u', 'e') {
        Some(Op::CallValue)
    } else if key == (12nat, 'c', 'a', 'd') {
        Some(Op::CallDataLoad)
    } else if key == (12nat, 'c', 'z', 'e') {
        Some(Op::CallDataSize)
    } else if key == (12nat, 'c', 'p', 'y') {
        Some(Op::CallDataCopy)
    } else if key == (8nat, 'c', 'z', 'e') {
        Some(Op::CodeSize)
    } else if key == (8nat, 'c', 'p', 'y') {
        Some(Op::CodeCopy)
    } else if key == (8nat, 'g', 'c', 'e') {
        Some(Op::GasPrice)
    } else if key == (11nat, 'e', 'z', 'e') {
        Some(Op::ExtCodeSize)
    } else if key == (11nat, 'e', 'p', 'y') {
        Some(Op::ExtCodeCopy)
    } else if key == (14nat, 'r', 'z', 'e') {
        Some(Op::ReturnDataSize)
    } else if key == (14nat, 'r', 'p', 'y') {
        Some(Op::ReturnDataCopy)
    } else if key == (11nat, 'e', 's', 'h') {
        Some(Op::ExtCodeHash)
    } else if key == (9nat, 'b', 's', 'h') {
        Some(Op::BlockHash)
    } else if key == (8nat, 'c', 's', 'e') {
        Some(Op::Coinbase)
    } else if key == (9nat, 't', 'm', 'p') {
        Some(Op::Timestamp)
    } else if key == (6nat, 'n', 'e', 'r') {
        Some(Op::Number)
    } else if key == (10nat, 'd', 't', 'y') {
        Some(Op::Difficulty)
    } else if key == (8nat, 'g', 'i', 't') {
        Some(Op::GasLimit)
    } else if key == (7nat, 'c', 'i', 'd') {
        Some(Op::ChainId)
    } else if key == (10nat, 'i', '4', '7') {
        Some(Op::Invalid47)
    } else if key == (10nat, 'i', '4', '8') {
        Some(Op::Invalid48)
    } else if key == (10nat, 'i', '4', '9') {
        Some(Op::Invalid49)
    } else if key == (10nat, 'i', '4', 'a') {
        Some(Op::Invalid4a)
    } else if key == (10nat, 'i', '4', 'b') {
        Some(Op::Invalid4b)
    } else if key == (10nat, 'i', '4', 'c') {
        Some(Op::Invalid4c)
    } else if key == (10nat, 'i', '4', 'd') {
        Some(Op::Invalid4d)
    } else if key == (10nat, 'i', '4', 'e') {
        Some(Op::Invalid4e)
    } else if key == (10nat, 'i', '4', 'f') {
        Some(Op::Invalid4f)
    } else if key == (3nat, 'p', 'o', 'p') {
        Some(Op::Pop)
    } else if key == (5nat, 'm', 'a', 'd') {
        Some(Op::MLoad)
    } else if key == (6nat, 'm', 'r', 'e') {
        Some(Op::MStore)
    } else if key == (7nat, 'm', 'e', '8') {
        Some(Op::MStore8)
    } else if key == (5nat, 's', 'a', 'd') {
        Some(Op::SLoad)
    } else if key == (6nat, 's', 'r', 'e') {
        Some(Op::SStore)
    } else if key == (4nat, 'j', 'm', 'p') {
        Some(Op::Jump)
    } else if key == (5nat, 'j', 'p', 'i') {
        Some(Op::JumpI)
    } else if key == (2nat, 'p', 'p', 'c') {
        Some(Op::GetPc)
    } else if key == (5nat, 'm', 'z', 'e') {
        Some(Op::MSize)
    } else if key == (3nat, 'g', 'a', 's') {
        Some(Op::Gas)
    } else if key == (8nat, 'j', 's', 't') {
        Some(Op::JumpDest)
    } else if key == (10nat, 'i', '5', 'c') {
        Some(Op::Invalid5c)
    } else if key == (10nat, 'i', '5', 'd') {
        Some(Op::Invalid5d)
    } else if key == (10nat, 'i', '5', 'e') {
        Some(Op::Invalid5e)
    } else if key == (10nat, 'i', '5', 'f') {
        Some(Op::Invalid5f)
    } else if key == (5nat, 'p', 'h', '1') {
        Some(Op::Push1)
    } else if key == (5nat, 'p', 'h', '2') {
        Some(Op::Push2)
    } else if key == (5nat, 'p', 'h', '3') {
        Some(Op::Push3)
    } else if key == (5nat, 'p', 'h', '4') {
        Some(Op::Push4)
    } else if key == (5nat, 'p', 'h', '5') {
        Some(Op::Push5)
    } else if key == (5nat, 'p', 'h', '6') {
        Some(Op::Push6)
    } else if key == (5nat, 'p', 'h', '7') {
        Some(Op::Push7)
    } else if key == (5nat, 'p', 'h', '8') {
        Some(Op::Push8)
    } else if key == (5nat, 'p', 'h', '9') {
        Some(Op::Push9)
    } else if key == (6nat, 'p', '1', '0') {
        Some(Op::Push10)
    } else if key == (6nat, 'p', '1', '1') {
        Some(Op::Push11)
    } else if key == (6nat, 'p', '1', '2') {
        Some(Op::Push12)
    } else if key == (6nat, 'p', '1', '3') {
        Some(Op::Push13)
    } else if key == (6nat, 'p', '1', '4') {
        Some(Op::Push14)
    } else if key == (6nat, 'p', '1', '5') {
        Some(Op::Push15)
    } else if key == (6nat, 'p', '1', '6') {
        Some(Op::Push16)
    } else if key == (6nat, 'p', '1', '7') {
        Some(Op::Push17)
    } else if key == (6nat, 'p', '1', '8') {
        Some(Op::Push18)
    } else if key == (6nat, 'p', '1', '9') {
        Some(Op::Push19)
    } else if key == (6nat, 'p', '2', '0') {
        Some(Op::Push20)
    } else if key == (6nat, 'p', '2', '1') {
        Some(Op::Push21)
    } else if key == (6nat, 'p', '2', '2') {
        Some(Op::Push22)
    } else if key == (6nat, 'p', '2', '3') {
        Some(Op::Push23)
    } else if key == (6nat, 'p', '2', '4') {
        Some(Op::Push24)
    } else if key == (6nat, 'p', '2', '5') {
        Some(Op::Push25)
    } else if key == (6nat, 'p', '2', '6') {
        Some(Op::Push26)
    } else if key == (6nat, 'p', '2', '7') {
        Some(Op::Push27)
    } else if key == (6nat, 'p', '2', '8') {
        Some(Op::Push28)
    } else if key == (6nat, 'p', '2', '9') {
        Some(Op::Push29)
    } else if key == (6nat, 'p', '3', '0') {
        Some(Op::Push30)
    } else if key == (6nat, 'p', '3', '1') {
        Some(Op::Push31)
    } else if key == (6nat, 'p', '3', '2') {
        Some(Op::Push32)
    } else if key == (4nat, 'd', 'p', '1') {
        Some(Op::Dup1)
    } else if key == (4nat, 'd', 'p', '2') {
        Some(Op::Dup2)
    } else if key == (4nat, 'd', 'p', '3') {
        Some(Op::Dup3)
    } else if key == (4nat, 'd', 'p', '4') {
        Some(Op::Dup4)
    } else if key == (4nat, 'd', 'p', '5') {
        Some(Op::Dup5)
    } else if key == (4nat, 'd', 'p', '6') {
        Some(Op::Dup6)
    } else if key == (4nat, 'd', 'p', '7') {
        Some(Op::Dup7)
    } else if key == (4nat, 'd', 'p', '8') {
        Some(Op::Dup8)
    } else if key == (4nat, 'd', 'p', '9') {
        Some(Op::Dup9)
    } else if key == (5nat, 'd', '1', '0') {
        Some(Op::Dup10)
    } else if key == (5nat, 'd', '1', '1') {
        Some(Op::Dup11)
    } else if key == (5nat, 'd', '1', '2') {
        Some(Op::Dup12)
    } else if key == (5nat, 'd', '1', '3') {
        Some(Op::Dup13)
    } else if key == (5nat, 'd', '1', '4') {
        Some(Op::Dup14)
    } else if key == (5nat, 'd', '1', '5') {
        Some(Op::Dup15)
    } else if key == (5nat, 'd', '1', '6') {
        Some(Op::Dup16)
    } else if key == (5nat, 's', 'p', '1') {
        Some(Op::Swap1)
    } else if key == (5nat, 's', 'p', '2') {
        Some(Op::Swap2)
    } else if key == (5nat, 's', 'p', '3') {
        Some(Op::Swap3)
    } else if key == (5nat, 's', 'p', '4') {
        Some(Op::Swap4)
    } else if key == (5nat, 's', 'p', '5') {
        Some(Op::Swap5)
    } else if key == (5nat, 's', 'p', '6') {
        Some(Op::Swap6)
    } else if key == (5nat, 's', 'p', '7') {
        Some(Op::Swap7)
    } else if key == (5nat, 's', 'p', '8') {
        Some(Op::Swap8)
    } else if key == (5nat, 's', 'p', '9') {
        Some(Op::Swap9)
    } else if key == (6nat, 's', '1', '0') {
        Some(Op::Swap10)
    } else if key == (6nat, 's', '1', '1') {
        Some(Op::Swap11)
    } else if key == (6nat, 's', '1', '2') {
        Some(Op::Swap12)
    } else if key == (6nat, 's', '1', '3') {
        Some(Op::Swap13)
    } else if key == (6nat, 's', '1', '4') {
        Some(Op::Swap14)
    } else if key == (6nat, 's', '1', '5') {
        Some(Op::Swap15)
    } else if key == (6nat, 's', '1', '6') {
        Some(Op::Swap16)
    } else if key == (4nat, 'l', 'g', '0') {
        Some(Op::Log0)
    } else if key == (4nat, 'l', 'g', '1') {
        Some(Op::Log1)
    } else if key == (4nat, 'l', 'g', '2') {
        Some(Op::Log2)
    } else if key == (4nat, 'l', 'g', '3') {
        Some(Op::Log3)
    } else if key == (4nat, 'l', 'g', '4') {
        Some(Op::Log4)
    } else if key == (10nat, 'i', 'a', '5') {
        Some(Op::InvalidA5)
    } else if key == (10nat, 'i', 'a', '6') {
        Some(Op::InvalidA6)
    } else if key == (10nat, 'i', 'a', '7') {
        Some(Op::InvalidA7)
    } else if key == (10nat, 'i', 'a', '8') {
        Some(Op::InvalidA8)
    } else if key == (10nat, 'i', 'a', '9') {
        Some(Op::InvalidA9)
    } else if key == (10nat, 'i', 'a', 'a') {
        Some(Op::InvalidAa)
    } else if key == (10nat, 'i', 'a', 'b') {
        Some(Op::InvalidAb)
    } else if key == (10nat, 'i', 'a', 'c') {
        Some(Op::InvalidAc)
    } else if key == (10nat, 'i', 'a', 'd') {
        Some(Op::InvalidAd)
    } else if key == (10nat, 'i', 'a', 'e') {
        Some(Op::InvalidAe)
    } else if key == (10nat, 'i', 'a', 'f') {
        Some(Op::InvalidAf)
    } else if key == (6nat, 'j', 't', 'o') {
        Some(Op::JumpTo)
    } else if key == (6nat, 'j', 'i', 'f') {
        Some(Op::JumpIf)
    } else if key == (7nat, 'j', 'u', 'b') {
        Some(Op::JumpSub)
    } else if key == (10nat, 'i', 'b', '3') {
        Some(Op::InvalidB3)
    } else if key == (8nat, 'j', 'b', 'v') {
        Some(Op::JumpSubV)
    } else if key == (8nat, 'b', 'u', 'b') {
        Some(Op::BeginSub)
    } else if key == (9nat, 'b', 't', 'a') {
        Some(Op::BeginData)
    } else if key == (10nat, 'i', 'b', '7') {
        Some(Op::InvalidB7)
    } else if key == (9nat, 'r', 'u', 'b') {
        Some(Op::ReturnSub)
    } else if key == (8nat, 'p', 'a', 'l') {
        Some(Op::PutLocal)
    } else if key == (8nat, 'g', 'a', 'l') {
        Some(Op::GetLocal)
    } else if key == (10nat, 'i', 'b', 'b') {
        Some(Op::InvalidBb)
    } else if key == (10nat, 'i', 'b', 'c') {
        Some(Op::InvalidBc)
    } else if key == (10nat, 'i', 'b', 'd') {
        Some(Op::InvalidBd)
    } else if key == (10nat, 'i', 'b', 'e') {
        Some(Op::InvalidBe)
    } else if key == (10nat, 'i', 'b', 'f') {
        Some(Op::InvalidBf)
    } else if key == (10nat, 'i', 'c', '0') {
        Some(Op::InvalidC0)
    } else if key == (10nat, 'i', 'c', '1') {
        Some(Op::InvalidC1)
    } else if key == (10nat, 'i', 'c', '2') {
        Some(Op::InvalidC2)
    } else if key == (10nat, 'i', 'c', '3') {
        Some(Op::InvalidC3)
    } else if key == (10nat, 'i', 'c', '4') {
        Some(Op::InvalidC4)
    } else if key == (10nat, 'i', 'c', '5') {
        Some(Op::InvalidC5)
    } else if key == (10nat, 'i', 'c', '6') {
        Some(Op::InvalidC6)
    } else if key == (10nat, 'i', 'c', '7') {
        Some(Op::InvalidC7)
    } else if key == (10nat, 'i', 'c', '8') {
        Some(Op::InvalidC8)
    } else if key == (10nat, 'i', 'c', '9') {
        Some(Op::InvalidC9)
    } else if key == (10nat, 'i', 'c', 'a') {
        Some(Op::InvalidCa)
    } else if key == (10nat, 'i', 'c', 'b') {
        Some(Op::InvalidCb)
    } else if key == (10nat, 'i', 'c', 'c') {
        Some(Op::InvalidCc)
    } else if key == (10nat, 'i', 'c', 'd') {
        Some(Op::InvalidCd)
    } else if key == (10nat, 'i', 'c', 'e') {
        Some(Op::InvalidCe)
    } else if key == (10nat, 'i', 'c', 'f') {
        Some(Op::InvalidCf)
    } else if key == (10nat, 'i', 'd', '0') {
        Some(Op::InvalidD0)
    } else if key == (10nat, 'i', 'd', '1') {
        Some(Op::InvalidD1)
    } else if key == (10nat, 'i', 'd', '2') {
        Some(Op::InvalidD2)
    } else if key == (10nat, 'i', 'd', '3') {
        Some(Op::InvalidD3)
    } else if key == (10nat, 'i', 'd', '4') {
        Some(Op::InvalidD4)
    } else if key == (10nat, 'i', 'd', '5') {
        Some(Op::InvalidD5)
    } else if key == (10nat, 'i', 'd', '6') {
        Some(Op::InvalidD6)
    } else if key == (10nat, 'i', 'd', '7') {
        Some(Op::InvalidD7)
    } else if key == (10nat, 'i', 'd', '8') {
        Some(Op::InvalidD8)
    } else if key == (10nat, 'i', 'd', '9') {
        Some(Op::InvalidD9)
    } else if key == (10nat, 'i', 'd', 'a') {
        Some(Op::InvalidDa)
    } else if key == (10nat, 'i', 'd', 'b') {
        Some(Op::InvalidDb)
    } else if key == (10nat, 'i', 'd', 'c') {
        Some(Op::InvalidDc)
    } else if key == (10nat, 'i', 'd', 'd') {
        Some(Op::InvalidDd)
    } else if key == (10nat, 'i', 'd', 'e') {
        Some(Op::InvalidDe)
    } else if key == (10nat, 'i', 'd', 'f') {
        Some(Op::InvalidDf)
    } else if key == (10nat, 'i', 'e', '0') {
        Some(Op::InvalidE0)
    } else if key == (10nat, 's', 'e', 's') {
        Some(Op::SLoadBytes)
    } else if key == (11nat, 's', 'e', 's') {
        Some(Op::SStoreBytes)
    } else if key == (5nat, 's', 'z', 'e') {
        Some(Op::SSize)
    } else if key == (10nat, 'i', 'e', '4') {
        Some(Op::InvalidE4)
    } else if key == (10nat, 'i', 'e', '5') {
        Some(Op::InvalidE5)
    } else if key == (10nat, 'i', 'e', '6') {
        Some(Op::InvalidE6)
    } else if key == (10nat, 'i', 'e', '7') {
        Some(Op::InvalidE7)
    } else if key == (10nat, 'i', 'e', '8') {
        Some(Op::InvalidE8)
    } else if key == (10nat, 'i', 'e', '9') {
        Some(Op::InvalidE9)
    } else if key == (10nat, 'i', 'e', 'a') {
        Some(Op::InvalidEa)
    } else if key == (10nat, 'i', 'e', 'b') {
        Some(Op::InvalidEb)
    } else if key == (10nat, 'i', 'e', 'c') {
        Some(Op::InvalidEc)
    } else if key == (10nat, 'i', 'e', 'd') {
        Some(Op::InvalidEd)
    } else if key == (10nat, 'i', 'e', 'e') {
        Some(Op::InvalidEe)
    } else if key == (10nat, 'i', 'e', 'f') {
        Some(Op::InvalidEf)
    } else if key == (6nat, 'c', 't', 'e') {
        Some(Op::Create)
    } else if key == (4nat, 'c', 'l', 'l') {
        Some(Op::Call)
    } else if key == (8nat, 'c', 'd', 'e') {
        Some(Op::CallCode)
    } else if key == (6nat, 'r', 'r', 'n') {
        Some(Op::Return)
    } else if key == (12nat, 'd', 'l', 'l') {
        Some(Op::DelegateCall)
    } else if key == (7nat, 'c', 'e', '2') {
        Some(Op::Create2)
    } else if key == (10nat, 'i', 'f', '6') {
        Some(Op::InvalidF6)
    } else if key == (10nat, 'i', 'f', '7') {
        Some(Op::InvalidF7)
    } else if key == (10nat, 'i', 'f', '8') {
        Some(Op::InvalidF8)
    } else if key == (10nat, 'i', 'f', '9') {
        Some(Op::InvalidF9)
    } else if key == (10nat, 's', 'l', 'l') {
        Some(Op::StaticCall)
    } else if key == (10nat, 'i', 'f', 'b') {
        Some(Op::InvalidFb)
    } else if key == (9nat, 't', 'a', 's') {
        Some(Op::TxExecGas)
    } else if key == (6nat, 'r', 'r', 't') {
        Some(Op::Revert)
    } else if key == (7nat, 'i', 'i', 'd') {
        Some(Op::Invalid)
    } else if key == (12nat, 's', 'c', 't') {
        Some(Op::SelfDestruct)
    } else {
        None
    }
}

/// The specifier, if any, spelled `m`.
pub open spec fn parse_mnemonic(m: Seq<char>) -> Option<Op> {
    if 2 <= m.len() {
        match op_with_key(mnemonic_key(m)) {
            Some(op) => if op.mnemonic_spec() == m {
                Some(op)
            } else {
                None
            },
            None => None,
        }
    } else {
        None
    }
}

/// Looks up a specifier by the key of its mnemonic.
fn find_by_key(len: usize, first: char, penult: char, last: char) -> (r: Option<Op>)
    ensures
        r == op_with_key((len as nat, first, penult, last)),
{
    match (len, first, penult, last) {
        (4, 's', 'o', 'p') => Some(Op::Stop),
        (3, 'a', 'd', 'd') => Some(Op::Add),
        (3, 'm', 'u', 'l') => Some(Op::Mul),
        (3, 's', 'u', 'b') => Some(Op::Sub),
        (3, 'd', 'i', 'v') => Some(Op::Div),
        (4, 's', 'i', 'v') => Some(Op::SDiv),
        (3, 'm', 'o', 'd') => Some(Op::Mod),
        (4, 's', 'o', 'd') => Some(Op::SMod),
        (6, 'a', 'o', 'd') => Some(Op::AddMod),
        (6, 'm', 'o', 'd') => Some(Op::MulMod),
        (3, 'e', 'x', 'p') => Some(Op::Exp),
        (10, 's', 'n', 'd') => Some(Op::SignExtend),
        (10, 'i', '0', 'c') => Some(Op::Invalid0c),
        (10, 'i', '0', 'd') => Some(Op::Invalid0d),
        (10, 'i', '0', 'e') => Some(Op::Invalid0e),
        (10, 'i', '0', 'f') => Some(Op::Invalid0f),
        (2, 'l', 'l', 't') => Some(Op::Lt),
        (2, 'g', 'g', 't') => Some(Op::Gt),
        (3, 's', 'l', 't') => Some(Op::SLt),
        (3, 's', 'g', 't') => Some(Op::SGt),
        (2, 'e', 'e', 'q') => Some(Op::Eq),
        (6, 'i', 'r', 'o') => Some(Op::IsZero),
        (3, 'a', 'n', 'd') => Some(Op::And),
        (2, 'o', 'o', 'r') => Some(Op::Or),
        (3, 'x', 'o', 'r') => Some(Op::Xor),
        (3, 'n', 'o', 't') => Some(Op::Not),
        (4, 'b', 't', 'e') => Some(Op::Byte),
        (3, 's', 'h', 'l') => Some(Op::Shl),
        (3, 's', 'h', 'r') => Some(Op::Shr),
        (3, 's', 'a', 'r') => Some(Op::Sar),
        (10, 'i', '1', 'e') => Some(Op::Invalid1e),
        (10, 'i', '1', 'f') => Some(Op::Invalid1f),
        (9, 'k', '5', '6') => Some(Op::Keccak256),
        (10, 'i', '2', '1') => Some(Op::Invalid21),
        (10, 'i', '2', '2') => Some(Op::Invalid22),
        (10, 'i', '2', '3') => Some(Op::Invalid23),
        (10, 'i', '2', '4') => Some(Op::Invalid24),
        (10, 'i', '2', '5') => Some(Op::Invalid25),
        (10, 'i', '2', '6') => Some(Op::Invalid26),
        (10, 'i', '2', '7') => Some(Op::Invalid27),
        (10, 'i', '2', '8') => Some(Op::Invalid28),
        (10, 'i', '2', '9') => Some(Op::Invalid29),
        (10, 'i', '2', 'a') => Some(Op::Invalid2a),
        (10, 'i', '2', 'b') => Some(Op::Invalid2b),
        (10, 'i', '2', 'c') => Some(Op::Invalid2c),
        (10, 'i', '2', 'd') => Some(Op::Invalid2d),
        (10, 'i', '2', 'e') => Some(Op::Invalid2e),
        (10, 'i', '2', 'f') => Some(Op::Invalid2f),
        (7, 'a', 's', 's') => Some(Op::Address),
        (7, 'b', 'c', 'e') => Some(Op::Balance),
        (6, 'o', 'i', 'n') => Some(Op::Origin),
        (6, 'c', 'e', 'r') => Some(Op::Caller),
        (9, 'c', 'u', 'e') => Some(Op::CallValue),
        (12, 'c', 'a', 'd') => Some(Op::CallDataLoad),
        (12, 'c', 'z', 'e') => Some(Op::CallDataSize),
        (12, 'c', 'p', 'y') => Some(Op::CallDataCopy),
        (8, 'c', 'z', 'e') => Some(Op::CodeSize),
        (8, 'c', 'p', 'y') => Some(Op::CodeCopy),
        (8, 'g', 'c', 'e') => Some(Op::GasPrice),
        (11, 'e', 'z', 'e') => Some(Op::ExtCodeSize),
        (11, 'e', 'p', 'y') => Some(Op::ExtCodeCopy),
        (14, 'r', 'z', 'e') => Some(Op::ReturnDataSize),
        (14, 'r', 'p', 'y') => Some(Op::ReturnDataCopy),
        (11, 'e', 's', 'h') => Some(Op::ExtCodeHash),
        (9, 'b', 's', 'h') => Some(Op::BlockHash),
        (8, 'c', 's', 'e') => Some(Op::Coinbase),
        (9, 't', 'm', 'p') => Some(Op::Timestamp),
        (6, 'n', 'e', 'r') => Some(Op::Number),
        (10, 'd', 't', 'y') => Some(Op::Difficulty),
        (8, 'g', 'i', 't') => Some(Op::GasLimit),
        (7, 'c', 'i', 'd') => Some(Op::ChainId),
        (10, 'i', '4', '7') => Some(Op::Invalid47),
        (10, 'i', '4', '8') => Some(Op::Invalid48),
        (10, 'i', '4', '9') => Some(Op::Invalid49),
        (10, 'i', '4', 'a') => Some(Op::Invalid4a),
        (10, 'i', '4', 'b') => Some(Op::Invalid4b),
        (10, 'i', '4', 'c') => Some(Op::Invalid4c),
        (10, 'i', '4', 'd') => Some(Op::Invalid4d),
        (10, 'i', '4', 'e') => Some(Op::Invalid4e),
        (10, 'i', '4', 'f') => Some(Op::Invalid4f),
        (3, 'p', 'o', 'p') => Some(Op::Pop),
        (5, 'm', 'a', 'd') => Some(Op::MLoad),
        (6, 'm', 'r', 'e') => Some(Op::MStore),
        (7, 'm', 'e', '8') => Some(Op::MStore8),
        (5, 's', 'a', 'd') => Some(Op::SLoad),
        (6, 's', 'r', 'e') => Some(Op::SStore),
        (4, 'j', 'm', 'p') => Some(Op::Jump),
        (5, 'j', 'p', 'i') => Some(Op::JumpI),
        (2, 'p', 'p', 'c') => Some(Op::GetPc),
        (5, 'm', 'z', 'e') => Some(Op::MSize),
        (3, 'g', 'a', 's') => Some(Op::Gas),
        (8, 'j', 's', 't') => Some(Op::JumpDest),
        (10, 'i', '5', 'c') => Some(Op::Invalid5c),
        (10, 'i', '5', 'd') => Some(Op::Invalid5d),
        (10, 'i', '5', 'e') => Some(Op::Invalid5e),
        (10, 'i', '5', 'f') => Some(Op::Invalid5f),
        (5, 'p', 'h', '1') => Some(Op::Push1),
        (5, 'p', 'h', '2') => Some(Op::Push2),
        (5, 'p', 'h', '3') => Some(Op::Push3),
        (5, 'p', 'h', '4') => Some(Op::Push4),
        (5, 'p', 'h', '5') => Some(Op::Push5),
        (5, 'p', 'h', '6') => Some(Op::Push6),
        (5, 'p', 'h', '7') => Some(Op::Push7),
        (5, 'p', 'h', '8') => Some(Op::Push8),
        (5, 'p', 'h', '9') => Some(Op::Push9),
        (6, 'p', '1', '0') => Some(Op::Push10),
        (6, 'p', '1', '1') => Some(Op::Push11),
        (6, 'p', '1', '2') => Some(Op::Push12),
        (6, 'p', '1', '3') => Some(Op::Push13),
        (6, 'p', '1', '4') => Some(Op::Push14),
        (6, 'p', '1', '5') => Some(Op::Push15),
        (6, 'p', '1', '6') => Some(Op::Push16),
        (6, 'p', '1', '7') => Some(Op::Push17),
        (6, 'p', '1', '8') => Some(Op::Push18),
        (6, 'p', '1', '9') => Some(Op::Push19),
        (6, 'p', '2', '0') => Some(Op::Push20),
        (6, 'p', '2', '1') => Some(Op::Push21),
        (6, 'p', '2', '2') => Some(Op::Push22),
        (6, 'p', '2', '3') => Some(Op::Push23),
        (6, 'p', '2', '4') => Some(Op::Push24),
        (6, 'p', '2', '5') => Some(Op::Push25),
        (6, 'p', '2', '6') => Some(Op::Push26),
        (6, 'p', '2', '7') => Some(Op::Push27),
        (6, 'p', '2', '8') => Some(Op::Push28),
        (6, 'p', '2', '9') => Some(Op::Push29),
        (6, 'p', '3', '0') => Some(Op::Push30),
        (6, 'p', '3', '1') => Some(Op::Push31),
        (6, 'p', '3', '2') => Some(Op::Push32),
        (4, 'd', 'p', '1') => Some(Op::Dup1),
        (4, 'd', 'p', '2') => Some(Op::Dup2),
        (4, 'd', 'p', '3') => Some(Op::Dup3),
        (4, 'd', 'p', '4') => Some(Op::Dup4),
        (4, 'd', 'p', '5') => Some(Op::Dup5),
        (4, 'd', 'p', '6') => Some(Op::Dup6),
        (4, 'd', 'p', '7') => Some(Op::Dup7),
        (4, 'd', 'p', '8') => Some(Op::Dup8),
        (4, 'd', 'p', '9') => Some(Op::Dup9),
        (5, 'd', '1', '0') => Some(Op::Dup10),
        (5, 'd', '1', '1') => Some(Op::Dup11),
        (5, 'd', '1', '2') => Some(Op::Dup12),
        (5, 'd', '1', '3') => Some(Op::Dup13),
        (5, 'd', '1', '4') => Some(Op::Dup14),
        (5, 'd', '1', '5') => Some(Op::Dup15),
        (5, 'd', '1', '6') => Some(Op::Dup16),
        (5, 's', 'p', '1') => Some(Op::Swap1),
        (5, 's', 'p', '2') => Some(Op::Swap2),
        (5, 's', 'p', '3') => Some(Op::Swap3),
        (5, 's', 'p', '4') => Some(Op::Swap4),
        (5, 's', 'p', '5') => Some(Op::Swap5),
        (5, 's', 'p', '6') => Some(Op::Swap6),
        (5, 's', 'p', '7') => Some(Op::Swap7),
        (5, 's', 'p', '8') => Some(Op::Swap8),
        (5, 's', 'p', '9') => Some(Op::Swap9),
        (6, 's', '1', '0') => Some(Op::Swap10),
        (6, 's', '1', '1') => Some(Op::Swap11),
        (6, 's', '1', '2') => Some(Op::Swap12),
        (6, 's', '1', '3') => Some(Op::Swap13),
        (6, 's', '1', '4') => Some(Op::Swap14),
        (6, 's', '1', '5') => Some(Op::Swap15),
        (6, 's', '1', '6') => Some(Op::Swap16),
        (4, 'l', 'g', '0') => Some(Op::Log0),
        (4, 'l', 'g', '1') => Some(Op::Log1),
        (4, 'l', 'g', '2') => Some(Op::Log2),
        (4, 'l', 'g', '3') => Some(Op::Log3),
        (4, 'l', 'g', '4') => Some(Op::Log4),
        (10, 'i', 'a', '5') => Some(Op::InvalidA5),
        (10, 'i', 'a', '6') => Some(Op::InvalidA6),
        (10, 'i', 'a', '7') => Some(Op::InvalidA7),
        (10, 'i', 'a', '8') => Some(Op::InvalidA8),
        (10, 'i', 'a', '9') => Some(Op::InvalidA9),
        (10, 'i', 'a', 'a') => Some(Op::InvalidAa),
        (10, 'i', 'a', 'b') => Some(Op::InvalidAb),
        (10, 'i', 'a', 'c') => Some(Op::InvalidAc),
        (10, 'i', 'a', 'd') => Some(Op::InvalidAd),
        (10, 'i', 'a', 'e') => Some(Op::InvalidAe),
        (10, 'i', 'a', 'f') => Some(Op::InvalidAf),
        (6, 'j', 't', 'o') => Some(Op::JumpTo),
        (6, 'j', 'i', 'f') => Some(Op::JumpIf),
        (7, 'j', 'u', 'b') => Some(Op::JumpSub),
        (10, 'i', 'b', '3') => Some(Op::InvalidB3),
        (8, 'j', 'b', 'v') => Some(Op::JumpSubV),
        (8, 'b', 'u', 'b') => Some(Op::BeginSub),
        (9, 'b', 't', 'a') => Some(Op::BeginData),
        (10, 'i', 'b', '7') => Some(Op::InvalidB7),
        (9, 'r', 'u', 'b') => Some(Op::ReturnSub),
        (8, 'p', 'a', 'l') => Some(Op::PutLocal),
        (8, 'g', 'a', 'l') => Some(Op::GetLocal),
        (10, 'i', 'b', 'b') => Some(Op::InvalidBb),
        (10, 'i', 'b', 'c') => Some(Op::InvalidBc),
        (10, 'i', 'b', 'd') => Some(Op::InvalidBd),
        (10, 'i', 'b', 'e') => Some(Op::InvalidBe),
        (10, 'i', 'b', 'f') => Some(Op::InvalidBf),
        (10, 'i', 'c', '0') => Some(Op::InvalidC0),
        (10, 'i', 'c', '1') => Some(Op::InvalidC1),
        (10, 'i', 'c', '2') => Some(Op::InvalidC2),
        (10, 'i', 'c', '3') => Some(Op::InvalidC3),
        (10, 'i', 'c', '4') => Some(Op::InvalidC4),
        (10, 'i', 'c', '5') => Some(Op::InvalidC5),
        (10, 'i', 'c', '6') => Some(Op::InvalidC6),
        (10, 'i', 'c', '7') => Some(Op::InvalidC7),
        (10, 'i', 'c', '8') => Some(Op::InvalidC8),
        (10, 'i', 'c', '9') => Some(Op::InvalidC9),
        (10, 'i', 'c', 'a') => Some(Op::InvalidCa),
        (10, 'i', 'c', 'b') => Some(Op::InvalidCb),
        (10, 'i', 'c', 'c') => Some(Op::InvalidCc),
        (10, 'i', 'c', 'd') => Some(Op::InvalidCd),
        (10, 'i', 'c', 'e') => Some(Op::InvalidCe),
        (10, 'i', 'c', 'f') => Some(Op::InvalidCf),
        (10, 'i', 'd', '0') => Some(Op::InvalidD0),
        (10, 'i', 'd', '1') => Some(Op::InvalidD1),
        (10, 'i', 'd', '2') => Some(Op::InvalidD2),
        (10, 'i', 'd', '3') => Some(Op::InvalidD3),
        (10, 'i', 'd', '4') => Some(Op::InvalidD4),
        (10, 'i', 'd', '5') => Some(Op::InvalidD5),
        (10, 'i', 'd', '6') => Some(Op::InvalidD6),
        (10, 'i', 'd', '7') => Some(Op::InvalidD7),
        (10, 'i', 'd', '8') => Some(Op::InvalidD8),
        (10, 'i', 'd', '9') => Some(Op::InvalidD9),
        (10, 'i', 'd', 'a') => Some(Op::InvalidDa),
        (10, 'i', 'd', 'b') => Some(Op::InvalidDb),
        (10, 'i', 'd', 'c') => Some(Op::InvalidDc),
        (10, 'i', 'd', 'd') => Some(Op::InvalidDd),
        (10, 'i', 'd', 'e') => Some(Op::InvalidDe),
        (10, 'i', 'd', 'f') => Some(Op::InvalidDf),
        (10, 'i', 'e', '0') => Some(Op::InvalidE0),
        (10, 's', 'e', 's') => Some(Op::SLoadBytes),
        (11, 's', 'e', 's') => Some(Op::SStoreBytes),
        (5, 's', 'z', 'e') => Some(Op::SSize),
        (10, 'i', 'e', '4') => Some(Op::InvalidE4),
        (10, 'i', 'e', '5') => Some(Op::InvalidE5),
        (10, 'i', 'e', '6') => Some(Op::InvalidE6),
        (10, 'i', 'e', '7') => Some(Op::InvalidE7),
        (10, 'i', 'e', '8') => Some(Op::InvalidE8),
        (10, 'i', 'e', '9') => Some(Op::InvalidE9),
        (10, 'i', 'e', 'a') => Some(Op::InvalidEa),
        (10, 'i', 'e', 'b') => Some(Op::InvalidEb),
        (10, 'i', 'e', 'c') => Some(Op::InvalidEc),
        (10, 'i', 'e', 'd') => Some(Op::InvalidEd),
        (10, 'i', 'e', 'e') => Some(Op::InvalidEe),
        (10, 'i', 'e', 'f') => Some(Op::InvalidEf),
        (6, 'c', 't', 'e') => Some(Op::Create),
        (4, 'c', 'l', 'l') => Some(Op::Call),
        (8, 'c', 'd', 'e') => Some(Op::CallCode),
        (6, 'r', 'r', 'n') => Some(Op::Return),
        (12, 'd', 'l', 'l') => Some(Op::DelegateCall),
        (7, 'c', 'e', '2') => Some(Op::Create2),
        (10, 'i', 'f', '6') => Some(Op::InvalidF6),
        (10, 'i', 'f', '7') => Some(Op::InvalidF7),
        (10, 'i', 'f', '8') => Some(Op::InvalidF8),
        (10, 'i', 'f', '9') => Some(Op::InvalidF9),
        (10, 's', 'l', 'l') => Some(Op::StaticCall),
        (10, 'i', 'f', 'b') => Some(Op::InvalidFb),
        (9, 't', 'a', 's') => Some(Op::TxExecGas),
        (6, 'r', 'r', 't') => Some(Op::Revert),
        (7, 'i', 'i', 'd') => Some(Op::Invalid),
        (12, 's', 'c', 't') => Some(Op::SelfDestruct),
        _ => None,
    }
}

impl Op {
    /// The byte that encodes the specifier.
    pub open spec fn byte(self) -> u8 {
        match self {
            Op::Stop => 0x00,
            Op::Add => 0x01,
            Op::Mul => 0x02,
            Op::Sub => 0x03,
            Op::Div => 0x04,
            Op::SDiv => 0x05,
            Op::Mod => 0x06,
            Op::SMod => 0x07,
            Op::AddMod => 0x08,
            Op::MulMod => 0x09,
            Op::Exp => 0x0a,
            Op::SignExtend => 0x0b,
            Op::Invalid0c => 0x0c,
            Op::Invalid0d => 0x0d,
            Op::Invalid0e => 0x0e,
            Op::Invalid0f => 0x0f,
            Op::Lt => 0x10,
            Op::Gt => 0x11,
            Op::SLt => 0x12,
            Op::SGt => 0x13,
            Op::Eq => 0x14,
            Op::IsZero => 0x15,
            Op::And => 0x16,
            Op::Or => 0x17,
            Op::Xor => 0x18,
            Op::Not => 0x19,
            Op::Byte => 0x1a,
            Op::Shl => 0x1b,
            Op::Shr => 0x1c,
            Op::Sar => 0x1d,
            Op::Invalid1e => 0x1e,
            Op::Invalid1f => 0x1f,
            Op::Keccak256 => 0x20,
            Op::Invalid21 => 0x21,
            Op::Invalid22 => 0x22,
            Op::Invalid23 => 0x23,
            Op::Invalid24 => 0x24,
            Op::Invalid25 => 0x25,
            Op::Invalid26 => 0x26,
            Op::Invalid27 => 0x27,
            Op::Invalid28 => 0x28,
            Op::Invalid29 => 0x29,
            Op::Invalid2a => 0x2a,
            Op::Invalid2b => 0x2b,
            Op::Invalid2c => 0x2c,
            Op::Invalid2d => 0x2d,
            Op::Invalid2e => 0x2e,
            Op::Invalid2f => 0x2f,
            Op::Address => 0x30,
            Op::Balance => 0x31,
            Op::Origin => 0x32,
            Op::Caller => 0x33,
            Op::CallValue => 0x34,
            Op::CallDataLoad => 0x35,
            Op::CallDataSize => 0x36,
            Op::CallDataCopy => 0x37,
            Op::CodeSize => 0x38,
            Op::CodeCopy => 0x39,
            Op::GasPrice => 0x3a,
            Op::ExtCodeSize => 0x3b,
            Op::ExtCodeCopy => 0x3c,
            Op::ReturnDataSize => 0x3d,
            Op::ReturnDataCopy => 0x3e,
            Op::ExtCodeHash => 0x3f,
            Op::BlockHash => 0x40,
            Op::Coinbase => 0x41,
            Op::Timestamp => 0x42,
            Op::Number => 0x43,
            Op::Difficulty => 0x44,
            Op::GasLimit => 0x45,
            Op::ChainId => 0x46,
            Op::Invalid47 => 0x47,
            Op::Invalid48 => 0x48,
            Op::Invalid49 => 0x49,
            Op::Invalid4a => 0x4a,
            Op::Invalid4b => 0x4b,
            Op::Invalid4c => 0x4c,
            Op::Invalid4d => 0x4d,
            Op::Invalid4e => 0x4e,
            Op::Invalid4f => 0x4f,
            Op::Pop => 0x50,
            Op::MLoad => 0x51,
            Op::MStore => 0x52,
            Op::MStore8 => 0x53,
            Op::SLoad => 0x54,
            Op::SStore => 0x55,
            Op::Jump => 0x56,
            Op::JumpI => 0x57,
            Op::GetPc => 0x58,
            Op::MSize => 0x59,
            Op::Gas => 0x5a,
            Op::JumpDest => 0x5b,
            Op::Invalid5c => 0x5c,
            Op::Invalid5d => 0x5d,
            Op::Invalid5e => 0x5e,
            Op::Invalid5f => 0x5f,
            Op::Push1 => 0x60,
            Op::Push2 => 0x61,
            Op::Push3 => 0x62,
            Op::Push4 => 0x63,
            Op::Push5 => 0x64,
            Op::Push6 => 0x65,
            Op::Push7 => 0x66,
            Op::Push8 => 0x67,
            Op::Push9 => 0x68,
            Op::Push10 => 0x69,
            Op::Push11 => 0x6a,
            Op::Push12 => 0x6b,
            Op::Push13 => 0x6c,
            Op::Push14 => 0x6d,
            Op::Push15 => 0x6e,
            Op::Push16 => 0x6f,
            Op::Push17 => 0x70,
            Op::Push18 => 0x71,
            Op::Push19 => 0x72,
            Op::Push20 => 0x73,
            Op::Push21 => 0x74,
            Op::Push22 => 0x75,
            Op::Push23 => 0x76,
            Op::Push24 => 0x77,
            Op::Push25 => 0x78,
            Op::Push26 => 0x79,
            Op::Push27 => 0x7a,
            Op::Push28 => 0x7b,
            Op::Push29 => 0x7c,
            Op::Push30 => 0x7d,
            Op::Push31 => 0x7e,
            Op::Push32 => 0x7f,
            Op::Dup1 => 0x80,
            Op::Dup2 => 0x81,
            Op::Dup3 => 0x82,
            Op::Dup4 => 0x83,
            Op::Dup5 => 0x84,
            Op::Dup6 => 0x85,
            Op::Dup7 => 0x86,
            Op::Dup8 => 0x87,
            Op::Dup9 => 0x88,
            Op::Dup10 => 0x89,
            Op::Dup11 => 0x8a,
            Op::Dup12 => 0x8b,
            Op::Dup13 => 0x8c,
            Op::Dup14 => 0x8d,
            Op::Dup15 => 0x8e,
            Op::Dup16 => 0x8f,
            Op::Swap1 => 0x90,
            Op::Swap2 => 0x91,
            Op::Swap3 => 0x92,
            Op::Swap4 => 0x93,
            Op::Swap5 => 0x94,
            Op::Swap6 => 0x95,
            Op::Swap7 => 0x96,
            Op::Swap8 => 0x97,
            Op::Swap9 => 0x98,
            Op::Swap10 => 0x99,
            Op::Swap11 => 0x9a,
            Op::Swap12 => 0x9b,
            Op::Swap13 => 0x9c,
            Op::Swap14 => 0x9d,
            Op::Swap15 => 0x9e,
            Op::Swap16 => 0x9f,
            Op::Log0 => 0xa0,
            Op::Log1 => 0xa1,
            Op::Log2 => 0xa2,
            Op::Log3 => 0xa3,
            Op::Log4 => 0xa4,
            Op::InvalidA5 => 0xa5,
            Op::InvalidA6 => 0xa6,
            Op::InvalidA7 => 0xa7,
            Op::InvalidA8 => 0xa8,
            Op::InvalidA9 => 0xa9,
            Op::InvalidAa => 0xaa,
            Op::InvalidAb => 0xab,
            Op::InvalidAc => 0xac,
            Op::InvalidAd => 0xad,
            Op::InvalidAe => 0xae,
            Op::InvalidAf => 0xaf,
            Op::JumpTo => 0xb0,
            Op::JumpIf => 0xb1,
            Op::JumpSub => 0xb2,
            Op::InvalidB3 => 0xb3,
            Op::JumpSubV => 0xb4,
            Op::BeginSub => 0xb5,
            Op::BeginData => 0xb6,
            Op::InvalidB7 => 0xb7,
            Op::ReturnSub => 0xb8,
            Op::PutLocal => 0xb9,
            Op::GetLocal => 0xba,
            Op::InvalidBb => 0xbb,
            Op::InvalidBc => 0xbc,
            Op::InvalidBd => 0xbd,
            Op::InvalidBe => 0xbe,
            Op::InvalidBf => 0xbf,
            Op::InvalidC0 => 0xc0,
            Op::InvalidC1 => 0xc1,
            Op::InvalidC2 => 0xc2,
            Op::InvalidC3 => 0xc3,
            Op::InvalidC4 => 0xc4,
            Op::InvalidC5 => 0xc5,
            Op::InvalidC6 => 0xc6,
            Op::InvalidC7 => 0xc7,
            Op::InvalidC8 => 0xc8,
            Op::InvalidC9 => 0xc9,
            Op::InvalidCa => 0xca,
            Op::InvalidCb => 0xcb,
            Op::InvalidCc => 0xcc,
            Op::InvalidCd => 0xcd,
            Op::InvalidCe => 0xce,
            Op::InvalidCf => 0xcf,
            Op::InvalidD0 => 0xd0,
            Op::InvalidD1 => 0xd1,
            Op::InvalidD2 => 0xd2,
            Op::InvalidD3 => 0xd3,
            Op::InvalidD4 => 0xd4,
            Op::InvalidD5 => 0xd5,
            Op::InvalidD6 => 0xd6,
            Op::InvalidD7 => 0xd7,
            Op::InvalidD8 => 0xd8,
            Op::InvalidD9 => 0xd9,
            Op::InvalidDa => 0xda,
            Op::InvalidDb => 0xdb,
            Op::InvalidDc => 0xdc,
            Op::InvalidDd => 0xdd,
            Op::InvalidDe => 0xde,
            Op::InvalidDf => 0xdf,
            Op::InvalidE0 => 0xe0,
            Op::SLoadBytes => 0xe1,
            Op::SStoreBytes => 0xe2,
            Op::SSize => 0xe3,
            Op::InvalidE4 => 0xe4,
            Op::InvalidE5 => 0xe5,
            Op::InvalidE6 => 0xe6,
            Op::InvalidE7 => 0xe7,
            Op::InvalidE8 => 0xe8,
            Op::InvalidE9 => 0xe9,
            Op::InvalidEa => 0xea,
            Op::InvalidEb => 0xeb,
            Op::InvalidEc => 0xec,
            Op::InvalidEd => 0xed,
            Op::InvalidEe => 0xee,
            Op::InvalidEf => 0xef,
            Op::Create => 0xf0,
            Op::Call => 0xf1,
            Op::CallCode => 0xf2,
            Op::Return => 0xf3,
            Op::DelegateCall => 0xf4,
            Op::Create2 => 0xf5,
            Op::InvalidF6 => 0xf6,
            Op::InvalidF7 => 0xf7,
            Op::InvalidF8 => 0xf8,
            Op::InvalidF9 => 0xf9,
            Op::StaticCall => 0xfa,
            Op::InvalidFb => 0xfb,
            Op::TxExecGas => 0xfc,
            Op::Revert => 0xfd,
            Op::Invalid => 0xfe,
            Op::SelfDestruct => 0xff,
        }
    }

    /// The specifier that a byte encodes.
    pub open spec fn of_byte(b: u8) -> Op {
        match b {
            0x00 => Op::Stop,
            0x01 => Op::Add,
            0x02 => Op::Mul,
            0x03 => Op::Sub,
            0x04 => Op::Div,
            0x05 => Op::SDiv,
            0x06 => Op::Mod,
            0x07 => Op::SMod,
            0x08 => Op::AddMod,
            0x09 => Op::MulMod,
            0x0a => Op::Exp,
            0x0b => Op::SignExtend,
            0x0c => Op::Invalid0c,
            0x0d => Op::Invalid0d,
            0x0e => Op::Invalid0e,
            0x0f => Op::Invalid0f,
            0x10 => Op::Lt,
            0x11 => Op::Gt,
            0x12 => Op::SLt,
            0x13 => Op::SGt,
            0x14 => Op::Eq,
            0x15 => Op::IsZero,
            0x16 => Op::And,
            0x17 => Op::Or,
            0x18 => Op::Xor,
            0x19 => Op::Not,
            0x1a => Op::Byte,
            0x1b => Op::Shl,
            0x1c => Op::Shr,
            0x1d => Op::Sar,
            0x1e => Op::Invalid1e,
            0x1f => Op::Invalid1f,
            0x20 => Op::Keccak256,
            0x21 => Op::Invalid21,
            0x22 => Op::Invalid22,
            0x23 => Op::Invalid23,
            0x24 => Op::Invalid24,
            0x25 => Op::Invalid25,
            0x26 => Op::Invalid26,
            0x27 => Op::Invalid27,
            0x28 => Op::Invalid28,
            0x29 => Op::Invalid29,
            0x2a => Op::Invalid2a,
            0x2b => Op::Invalid2b,
            0x2c => Op::Invalid2c,
            0x2d => Op::Invalid2d,
            0x2e => Op::Invalid2e,
            0x2f => Op::Invalid2f,
            0x30 => Op::Address,
            0x31 => Op::Balance,
            0x32 => Op::Origin,
            0x33 => Op::Caller,
            0x34 => Op::CallValue,
            0x35 => Op::CallDataLoad,
            0x36 => Op::CallDataSize,
            0x37 => Op::CallDataCopy,
            0x38 => Op::CodeSize,
            0x39 => Op::CodeCopy,
            0x3a => Op::GasPrice,
            0x3b => Op::ExtCodeSize,
            0x3c => Op::ExtCodeCopy,
            0x3d => Op::ReturnDataSize,
            0x3e => Op::ReturnDataCopy,
            0x3f => Op::ExtCodeHash,
            0x40 => Op::BlockHash,
            0x41 => Op::Coinbase,
            0x42 => Op::Timestamp,
            0x43 => Op::Number,
            0x44 => Op::Difficulty,
            0x45 => Op::GasLimit,
            0x46 => Op::ChainId,
            0x47 => Op::Invalid47,
            0x48 => Op::Invalid48,
            0x49 => Op::Invalid49,
            0x4a => Op::Invalid4a,
            0x4b => Op::Invalid4b,
            0x4c => Op::Invalid4c,
            0x4d => Op::Invalid4d,
            0x4e => Op::Invalid4e,
            0x4f => Op::Invalid4f,
            0x50 => Op::Pop,
            0x51 => Op::MLoad,
            0x52 => Op::MStore,
            0x53 => Op::MStore8,
            0x54 => Op::SLoad,
            0x55 => Op::SStore,
            0x56 => Op::Jump,
            0x57 => Op::JumpI,
            0x58 => Op::GetPc,
            0x59 => Op::MSize,
            0x5a => Op::Gas,
            0x5b => Op::JumpDest,
            0x5c => Op::Invalid5c,
            0x5d => Op::Invalid5d,
            0x5e => Op::Invalid5e,
            0x5f => Op::Invalid5f,
            0x60 => Op::Push1,
            0x61 => Op::Push2,
            0x62 => Op::Push3,
            0x63 => Op::Push4,
            0x64 => Op::Push5,
            0x65 => Op::Push6,
            0x66 => Op::Push7,
            0x67 => Op::Push8,
            0x68 => Op::Push9,
            0x69 => Op::Push10,
            0x6a => Op::Push11,
            0x6b => Op::Push12,
            0x6c => Op::Push13,
            0x6d => Op::Push14,
            0x6e => Op::Push15,
            0x6f => Op::Push16,
            0x70 => Op::Push17,
            0x71 => Op::Push18,
            0x72 => Op::Push19,
            0x73 => Op::Push20,
            0x74 => Op::Push21,
            0x75 => Op::Push22,
            0x76 => Op::Push23,
            0x77 => Op::Push24,
            0x78 => Op::Push25,
            0x79 => Op::Push26,
            0x7a => Op::Push27,
            0x7b => Op::Push28,
            0x7c => Op::Push29,
            0x7d => Op::Push30,
            0x7e => Op::Push31,
            0x7f => Op::Push32,
            0x80 => Op::Dup1,
            0x81 => Op::Dup2,
            0x82 => Op::Dup3,
            0x83 => Op::Dup4,
            0x84 => Op::Dup5,
            0x85 => Op::Dup6,
            0x86 => Op::Dup7,
            0x87 => Op::Dup8,
            0x88 => Op::Dup9,
            0x89 => Op::Dup10,
            0x8a => Op::Dup11,
            0x8b => Op::Dup12,
            0x8c => Op::Dup13,
            0x8d => Op::Dup14,
            0x8e => Op::Dup15,
            0x8f => Op::Dup16,
            0x90 => Op::Swap1,
            0x91 => Op::Swap2,
            0x92 => Op::Swap3,
            0x93 => Op::Swap4,
            0x94 => Op::Swap5,
            0x95 => Op::Swap6,
            0x96 => Op::Swap7,
            0x97 => Op::Swap8,
            0x98 => Op::Swap9,
            0x99 => Op::Swap10,
            0x9a => Op::Swap11,
            0x9b => Op::Swap12,
            0x9c => Op::Swap13,
            0x9d => Op::Swap14,
            0x9e => Op::Swap15,
            0x9f => Op::Swap16,
            0xa0 => Op::Log0,
            0xa1 => Op::Log1,
            0xa2 => Op::Log2,
            0xa3 => Op::Log3,
            0xa4 => Op::Log4,
            0xa5 => Op::InvalidA5,
            0xa6 => Op::InvalidA6,
            0xa7 => Op::InvalidA7,
            0xa8 => Op::InvalidA8,
            0xa9 => Op::InvalidA9,
            0xaa => Op::InvalidAa,
            0xab => Op::InvalidAb,
            0xac => Op::InvalidAc,
            0xad => Op::InvalidAd,
            0xae => Op::InvalidAe,
            0xaf => Op::InvalidAf,
            0xb0 => Op::JumpTo,
            0xb1 => Op::JumpIf,
            0xb2 => Op::JumpSub,
            0xb3 => Op::InvalidB3,
            0xb4 => Op::JumpSubV,
            0xb5 => Op::BeginSub,
            0xb6 => Op::BeginData,
            0xb7 => Op::InvalidB7,
            0xb8 => Op::ReturnSub,
            0xb9 => Op::PutLocal,
            0xba => Op::GetLocal,
            0xbb => Op::InvalidBb,
            0xbc => Op::InvalidBc,
            0xbd => Op::InvalidBd,
            0xbe => Op::InvalidBe,
            0xbf => Op::InvalidBf,
            0xc0 => Op::InvalidC0,
            0xc1 => Op::InvalidC1,
            0xc2 => Op::InvalidC2,
            0xc3 => Op::InvalidC3,
            0xc4 => Op::InvalidC4,
            0xc5 => Op::InvalidC5,
            0xc6 => Op::InvalidC6,
            0xc7 => Op::InvalidC7,
            0xc8 => Op::InvalidC8,
            0xc9 => Op::InvalidC9,
            0xca => Op::InvalidCa,
            0xcb => Op::InvalidCb,
            0xcc => Op::InvalidCc,
            0xcd => Op::InvalidCd,
            0xce => Op::InvalidCe,
            0xcf => Op::InvalidCf,
            0xd0 => Op::InvalidD0,
            0xd1 => Op::InvalidD1,
            0xd2 => Op::InvalidD2,
            0xd3 => Op::InvalidD3,
            0xd4 => Op::InvalidD4,
            0xd5 => Op::InvalidD5,
            0xd6 => Op::InvalidD6,
            0xd7 => Op::InvalidD7,
            0xd8 => Op::InvalidD8,
            0xd9 => Op::InvalidD9,
            0xda => Op::InvalidDa,
            0xdb => Op::InvalidDb,
            0xdc => Op::InvalidDc,
            0xdd => Op::InvalidDd,
            0xde => Op::InvalidDe,
            0xdf => Op::InvalidDf,
            0xe0 => Op::InvalidE0,
            0xe1 => Op::SLoadBytes,
            0xe2 => Op::SStoreBytes,
            0xe3 => Op::SSize,
            0xe4 => Op::InvalidE4,
            0xe5 => Op::InvalidE5,
            0xe6 => Op::InvalidE6,
            0xe7 => Op::InvalidE7,
            0xe8 => Op::InvalidE8,
            0xe9 => Op::InvalidE9,
            0xea => Op::InvalidEa,
            0xeb => Op::InvalidEb,
            0xec => Op::InvalidEc,
            0xed => Op::InvalidEd,
            0xee => Op::InvalidEe,
            0xef => Op::InvalidEf,
            0xf0 => Op::Create,
            0xf1 => Op::Call,
            0xf2 => Op::CallCode,
            0xf3 => Op::Return,
            0xf4 => Op::DelegateCall,
            0xf5 => Op::Create2,
            0xf6 => Op::InvalidF6,
            0xf7 => Op::InvalidF7,
            0xf8 => Op::InvalidF8,
            0xf9 => Op::InvalidF9,
            0xfa => Op::StaticCall,
            0xfb => Op::InvalidFb,
            0xfc => Op::TxExecGas,
            0xfd => Op::Revert,
            0xfe => Op::Invalid,
            _ => Op::SelfDestruct,
        }
    }

    /// The mnemonic of the specifier.
    pub open spec fn mnemonic_spec(self) -> Seq<char> {
        match self {
            Op::Stop => "stop"@,
            Op::Add => "add"@,
            Op::Mul => "mul"@,
            Op::Sub => "sub"@,
            Op::Div => "div"@,
            Op::SDiv => "sdiv"@,
            Op::Mod => "mod"@,
            Op::SMod => "smod"@,
            Op::AddMod => "addmod"@,
            Op::MulMod => "mulmod"@,
            Op::Exp => "exp"@,
            Op::SignExtend => "signextend"@,
            Op::Invalid0c => "invalid_0c"@,
            Op::Invalid0d => "invalid_0d"@,
            Op::Invalid0e => "invalid_0e"@,
            Op::Invalid0f => "invalid_0f"@,
            Op::Lt => "lt"@,
            Op::Gt => "gt"@,
            Op::SLt => "slt"@,
            Op::SGt => "sgt"@,
            Op::Eq => "eq"@,
            Op::IsZero => "iszero"@,
            Op::And => "and"@,
            Op::Or => "or"@,
            Op::Xor => "xor"@,
            Op::Not => "not"@,
            Op::Byte => "byte"@,
            Op::Shl => "shl"@,
            Op::Shr => "shr"@,
            Op::Sar => "sar"@,
            Op::Invalid1e => "invalid_1e"@,
            Op::Invalid1f => "invalid_1f"@,
            Op::Keccak256 => "keccak256"@,
            Op::Invalid21 => "invalid_21"@,
            Op::Invalid22 => "invalid_22"@,
            Op::Invalid23 => "invalid_23"@,
            Op::Invalid24 => "invalid_24"@,
            Op::Invalid25 => "invalid_25"@,
            Op::Invalid26 => "invalid_26"@,
            Op::Invalid27 => "invalid_27"@,
            Op::Invalid28 => "invalid_28"@,
            Op::Invalid29 => "invalid_29"@,
            Op::Invalid2a => "invalid_2a"@,
            Op::Invalid2b => "invalid_2b"@,
            Op::Invalid2c => "invalid_2c"@,
            Op::Invalid2d => "invalid_2d"@,
            Op::Invalid2e => "invalid_2e"@,
            Op::Invalid2f => "invalid_2f"@,
            Op::Address => "address"@,
            Op::Balance => "balance"@,
            Op::Origin => "origin"@,
            Op::Caller => "caller"@,
            Op::CallValue => "callvalue"@,
            Op::CallDataLoad => "calldataload"@,
            Op::CallDataSize => "calldatasize"@,
            Op::CallDataCopy => "calldatacopy"@,
            Op::CodeSize => "codesize"@,
            Op::CodeCopy => "codecopy"@,
            Op::GasPrice => "gasprice"@,
            Op::ExtCodeSize => "extcodesize"@,
            Op::ExtCodeCopy => "extcodecopy"@,
            Op::ReturnDataSize => "returndatasize"@,
            Op::ReturnDataCopy => "returndatacopy"@,
            Op::ExtCodeHash => "extcodehash"@,
            Op::BlockHash => "blockhash"@,
            Op::Coinbase => "coinbase"@,
            Op::Timestamp => "timestamp"@,
            Op::Number => "number"@,
            Op::Difficulty => "difficulty"@,
            Op::GasLimit => "gaslimit"@,
            Op::ChainId => "chainid"@,
            Op::Invalid47 => "invalid_47"@,
            Op::Invalid48 => "invalid_48"@,
            Op::Invalid49 => "invalid_49"@,
            Op::Invalid4a => "invalid_4a"@,
            Op::Invalid4b => "invalid_4b"@,
            Op::Invalid4c => "invalid_4c"@,
            Op::Invalid4d => "invalid_4d"@,
            Op::Invalid4e => "invalid_4e"@,
            Op::Invalid4f => "invalid_4f"@,
            Op::Pop => "pop"@,
            Op::MLoad => "mload"@,
            Op::MStore => "mstore"@,
            Op::MStore8 => "mstore8"@,
            Op::SLoad => "sload"@,
            Op::SStore => "sstore"@,
            Op::Jump => "jump"@,
            Op::JumpI => "jumpi"@,
            Op::GetPc => "pc"@,
            Op::MSize => "msize"@,
            Op::Gas => "gas"@,
            Op::JumpDest => "jumpdest"@,
            Op::Invalid5c => "invalid_5c"@,
            Op::Invalid5d => "invalid_5d"@,
            Op::Invalid5e => "invalid_5e"@,
            Op::Invalid5f => "invalid_5f"@,
            Op::Push1 => "push1"@,
            Op::Push2 => "push2"@,
            Op::Push3 => "push3"@,
            Op::Push4 => "push4"@,
            Op::Push5 => "push5"@,
            Op::Push6 => "push6"@,
            Op::Push7 => "push7"@,
            Op::Push8 => "push8"@,
            Op::Push9 => "push9"@,
            Op::Push10 => "push10"@,
            Op::Push11 => "push11"@,
            Op::Push12 => "push12"@,
            Op::Push13 => "push13"@,
            Op::Push14 => "push14"@,
            Op::Push15 => "push15"@,
            Op::Push16 => "push16"@,
            Op::Push17 => "push17"@,
            Op::Push18 => "push18"@,
            Op::Push19 => "push19"@,
            Op::Push20 => "push20"@,
            Op::Push21 => "push21"@,
            Op::Push22 => "push22"@,
            Op::Push23 => "push23"@,
            Op::Push24 => "push24"@,
            Op::Push25 => "push25"@,
            Op::Push26 => "push26"@,
            Op::Push27 => "push27"@,
            Op::Push28 => "push28"@,
            Op::Push29 => "push29"@,
            Op::Push30 => "push30"@,
            Op::Push31 => "push31"@,
            Op::Push32 => "push32"@,
            Op::Dup1 => "dup1"@,
            Op::Dup2 => "dup2"@,
            Op::Dup3 => "dup3"@,
            Op::Dup4 => "dup4"@,
            Op::Dup5 => "dup5"@,
            Op::Dup6 => "dup6"@,
            Op::Dup7 => "dup7"@,
            Op::Dup8 => "dup8"@,
            Op::Dup9 => "dup9"@,
            Op::Dup10 => "dup10"@,
            Op::Dup11 => "dup11"@,
            Op::Dup12 => "dup12"@,
            Op::Dup13 => "dup13"@,
            Op::Dup14 => "dup14"@,
            Op::Dup15 => "dup15"@,
            Op::Dup16 => "dup16"@,
            Op::Swap1 => "swap1"@,
            Op::Swap2 => "swap2"@,
            Op::Swap3 => "swap3"@,
            Op::Swap4 => "swap4"@,
            Op::Swap5 => "swap5"@,
            Op::Swap6 => "swap6"@,
            Op::Swap7 => "swap7"@,
            Op::Swap8 => "swap8"@,
            Op::Swap9 => "swap9"@,
            Op::Swap10 => "swap10"@,
            Op::Swap11 => "swap11"@,
            Op::Swap12 => "swap12"@,
            Op::Swap13 => "swap13"@,
            Op::Swap14 => "swap14"@,
            Op::Swap15 => "swap15"@,
            Op::Swap16 => "swap16"@,
            Op::Log0 => "log0"@,
            Op::Log1 => "log1"@,
            Op::Log2 => "log2"@,
            Op::Log3 => "log3"@,
            Op::Log4 => "log4"@,
            Op::InvalidA5 => "invalid_a5"@,
            Op::InvalidA6 => "invalid_a6"@,
            Op::InvalidA7 => "invalid_a7"@,
            Op::InvalidA8 => "invalid_a8"@,
            Op::InvalidA9 => "invalid_a9"@,
            Op::InvalidAa => "invalid_aa"@,
            Op::InvalidAb => "invalid_ab"@,
            Op::InvalidAc => "invalid_ac"@,
            Op::InvalidAd => "invalid_ad"@,
            Op::InvalidAe => "invalid_ae"@,
            Op::InvalidAf => "invalid_af"@,
            Op::JumpTo => "jumpto"@,
            Op::JumpIf => "jumpif"@,
            Op::JumpSub => "jumpsub"@,
            Op::InvalidB3 => "invalid_b3"@,
            Op::JumpSubV => "jumpsubv"@,
            Op::BeginSub => "beginsub"@,
            Op::BeginData => "begindata"@,
            Op::InvalidB7 => "invalid_b7"@,
            Op::ReturnSub => "returnsub"@,
            Op::PutLocal => "putlocal"@,
            Op::GetLocal => "getlocal"@,
            Op::InvalidBb => "invalid_bb"@,
            Op::InvalidBc => "invalid_bc"@,
            Op::InvalidBd => "invalid_bd"@,
            Op::InvalidBe => "invalid_be"@,
            Op::InvalidBf => "invalid_bf"@,
            Op::InvalidC0 => "invalid_c0"@,
            Op::InvalidC1 => "invalid_c1"@,
            Op::InvalidC2 => "invalid_c2"@,
            Op::InvalidC3 => "invalid_c3"@,
            Op::InvalidC4 => "invalid_c4"@,
            Op::InvalidC5 => "invalid_c5"@,
            Op::InvalidC6 => "invalid_c6"@,
            Op::InvalidC7 => "invalid_c7"@,
            Op::InvalidC8 => "invalid_c8"@,
            Op::InvalidC9 => "invalid_c9"@,
            Op::InvalidCa => "invalid_ca"@,
            Op::InvalidCb => "invalid_cb"@,
            Op::InvalidCc => "invalid_cc"@,
            Op::InvalidCd => "invalid_cd"@,
            Op::InvalidCe => "invalid_ce"@,
            Op::InvalidCf => "invalid_cf"@,
            Op::InvalidD0 => "invalid_d0"@,
            Op::InvalidD1 => "invalid_d1"@,
            Op::InvalidD2 => "invalid_d2"@,
            Op::InvalidD3 => "invalid_d3"@,
            Op::InvalidD4 => "invalid_d4"@,
            Op::InvalidD5 => "invalid_d5"@,
            Op::InvalidD6 => "invalid_d6"@,
            Op::InvalidD7 => "invalid_d7"@,
            Op::InvalidD8 => "invalid_d8"@,
            Op::InvalidD9 => "invalid_d9"@,
            Op::InvalidDa => "invalid_da"@,
            Op::InvalidDb => "invalid_db"@,
            Op::InvalidDc => "invalid_dc"@,
            Op::InvalidDd => "invalid_dd"@,
            Op::InvalidDe => "invalid_de"@,
            Op::InvalidDf => "invalid_df"@,
            Op::InvalidE0 => "invalid_e0"@,
            Op::SLoadBytes => "sloadbytes"@,
            Op::SStoreBytes => "sstorebytes"@,
            Op::SSize => "ssize"@,
            Op::InvalidE4 => "invalid_e4"@,
            Op::InvalidE5 => "invalid_e5"@,
            Op::InvalidE6 => "invalid_e6"@,
            Op::InvalidE7 => "invalid_e7"@,
            Op::InvalidE8 => "invalid_e8"@,
            Op::InvalidE9 => "invalid_e9"@,
            Op::InvalidEa => "invalid_ea"@,
            Op::InvalidEb => "invalid_eb"@,
            Op::InvalidEc => "invalid_ec"@,
            Op::InvalidEd => "invalid_ed"@,
            Op::InvalidEe => "invalid_ee"@,
            Op::InvalidEf => "invalid_ef"@,
            Op::Create => "create"@,
            Op::Call => "call"@,
            Op::CallCode => "callcode"@,
            Op::Return => "return"@,
            Op::DelegateCall => "delegatecall"@,
            Op::Create2 => "create2"@,
            Op::InvalidF6 => "invalid_f6"@,
            Op::InvalidF7 => "invalid_f7"@,
            Op::InvalidF8 => "invalid_f8"@,
            Op::InvalidF9 => "invalid_f9"@,
            Op::StaticCall => "staticcall"@,
            Op::InvalidFb => "invalid_fb"@,
            Op::TxExecGas => "txexecgas"@,
            Op::Revert => "revert"@,
            Op::Invalid => "invalid"@,
            Op::SelfDestruct => "selfdestruct"@,
        }
    }

    /// The number of immediate bytes that follow the opcode byte.
    pub open spec fn imm_len(self) -> nat {
        if 0x60 <= self.byte() <= 0x7f {
            (self.byte() - 0x5f) as nat
        } else {
            0
        }
    }

    /// Whether the specifier is one of `push1` to `push32`.
    pub open spec fn is_push(self) -> bool {
        0x60 <= self.byte() <= 0x7f
    }

    /// The push specifier with `n` immediate bytes.
    pub open spec fn push_of_width(n: nat) -> Op
        recommends
            1 <= n <= 32,
    {
        Op::of_byte((0x5f + n) as u8)
    }

    /// The byte that encodes the specifier.
    pub fn to_byte(self) -> (r: u8)
        ensures
            r == self.byte(),
    {
        match self {
            Op::Stop => 0x00,
            Op::Add => 0x01,
            Op::Mul => 0x02,
            Op::Sub => 0x03,
            Op::Div => 0x04,
            Op::SDiv => 0x05,
            Op::Mod => 0x06,
            Op::SMod => 0x07,
            Op::AddMod => 0x08,
            Op::MulMod => 0x09,
            Op::Exp => 0x0a,
            Op::SignExtend => 0x0b,
            Op::Invalid0c => 0x0c,
            Op::Invalid0d => 0x0d,
            Op::Invalid0e => 0x0e,
            Op::Invalid0f => 0x0f,
            Op::Lt => 0x10,
            Op::Gt => 0x11,
            Op::SLt => 0x12,
            Op::SGt => 0x13,
            Op::Eq => 0x14,
            Op::IsZero => 0x15,
            Op::And => 0x16,
            Op::Or => 0x17,
            Op::Xor => 0x18,
            Op::Not => 0x19,
            Op::Byte => 0x1a,
            Op::Shl => 0x1b,
            Op::Shr => 0x1c,
            Op::Sar => 0x1d,
            Op::Invalid1e => 0x1e,
            Op::Invalid1f => 0x1f,
            Op::Keccak256 => 0x20,
            Op::Invalid21 => 0x21,
            Op::Invalid22 => 0x22,
            Op::Invalid23 => 0x23,
            Op::Invalid24 => 0x24,
            Op::Invalid25 => 0x25,
            Op::Invalid26 => 0x26,
            Op::Invalid27 => 0x27,
            Op::Invalid28 => 0x28,
            Op::Invalid29 => 0x29,
            Op::Invalid2a => 0x2a,
            Op::Invalid2b => 0x2b,
            Op::Invalid2c => 0x2c,
            Op::Invalid2d => 0x2d,
            Op::Invalid2e => 0x2e,
            Op::Invalid2f => 0x2f,
            Op::Address => 0x30,
            Op::Balance => 0x31,
            Op::Origin => 0x32,
            Op::Caller => 0x33,
            Op::CallValue => 0x34,
            Op::CallDataLoad => 0x35,
            Op::CallDataSize => 0x36,
            Op::CallDataCopy => 0x37,
            Op::CodeSize => 0x38,
            Op::CodeCopy => 0x39,
            Op::GasPrice => 0x3a,
            Op::ExtCodeSize => 0x3b,
            Op::ExtCodeCopy => 0x3c,
            Op::ReturnDataSize => 0x3d,
            Op::ReturnDataCopy => 0x3e,
            Op::ExtCodeHash => 0x3f,
            Op::BlockHash => 0x40,
            Op::Coinbase => 0x41,
            Op::Timestamp => 0x42,
            Op::Number => 0x43,
            Op::Difficulty => 0x44,
            Op::GasLimit => 0x45,
            Op::ChainId => 0x46,
            Op::Invalid47 => 0x47,
            Op::Invalid48 => 0x48,
            Op::Invalid49 => 0x49,
            Op::Invalid4a => 0x4a,
            Op::Invalid4b => 0x4b,
            Op::Invalid4c => 0x4c,
            Op::Invalid4d => 0x4d,
            Op::Invalid4e => 0x4e,
            Op::Invalid4f => 0x4f,
            Op::Pop => 0x50,
            Op::MLoad => 0x51,
            Op::MStore => 0x52,
            Op::MStore8 => 0x53,
            Op::SLoad => 0x54,
            Op::SStore => 0x55,
            Op::Jump => 0x56,
            Op::JumpI => 0x57,
            Op::GetPc => 0x58,
            Op::MSize => 0x59,
            Op::Gas => 0x5a,
            Op::JumpDest => 0x5b,
            Op::Invalid5c => 0x5c,
            Op::Invalid5d => 0x5d,
            Op::Invalid5e => 0x5e,
            Op::Invalid5f => 0x5f,
            Op::Push1 => 0x60,
            Op::Push2 => 0x61,
            Op::Push3 => 0x62,
            Op::Push4 => 0x63,
            Op::Push5 => 0x64,
            Op::Push6 => 0x65,
            Op::Push7 => 0x66,
            Op::Push8 => 0x67,
            Op::Push9 => 0x68,
            Op::Push10 => 0x69,
            Op::Push11 => 0x6a,
            Op::Push12 => 0x6b,
            Op::Push13 => 0x6c,
            Op::Push14 => 0x6d,
            Op::Push15 => 0x6e,
            Op::Push16 => 0x6f,
            Op::Push17 => 0x70,
            Op::Push18 => 0x71,
            Op::Push19 => 0x72,
            Op::Push20 => 0x73,
            Op::Push21 => 0x74,
            Op::Push22 => 0x75,
            Op::Push23 => 0x76,
            Op::Push24 => 0x77,
            Op::Push25 => 0x78,
            Op::Push26 => 0x79,
            Op::Push27 => 0x7a,
            Op::Push28 => 0x7b,
            Op::Push29 => 0x7c,
            Op::Push30 => 0x7d,
            Op::Push31 => 0x7e,
            Op::Push32 => 0x7f,
            Op::Dup1 => 0x80,
            Op::Dup2 => 0x81,
            Op::Dup3 => 0x82,
            Op::Dup4 => 0x83,
            Op::Dup5 => 0x84,
            Op::Dup6 => 0x85,
            Op::Dup7 => 0x86,
            Op::Dup8 => 0x87,
            Op::Dup9 => 0x88,
            Op::Dup10 => 0x89,
            Op::Dup11 => 0x8a,
            Op::Dup12 => 0x8b,
            Op::Dup13 => 0x8c,
            Op::Dup14 => 0x8d,
            Op::Dup15 => 0x8e,
            Op::Dup16 => 0x8f,
            Op::Swap1 => 0x90,
            Op::Swap2 => 0x91,
            Op::Swap3 => 0x92,
            Op::Swap4 => 0x93,
            Op::Swap5 => 0x94,
            Op::Swap6 => 0x95,
            Op::Swap7 => 0x96,
            Op::Swap8 => 0x97,
            Op::Swap9 => 0x98,
            Op::Swap10 => 0x99,
            Op::Swap11 => 0x9a,
            Op::Swap12 => 0x9b,
            Op::Swap13 => 0x9c,
            Op::Swap14 => 0x9d,
            Op::Swap15 => 0x9e,
            Op::Swap16 => 0x9f,
            Op::Log0 => 0xa0,
            Op::Log1 => 0xa1,
            Op::Log2 => 0xa2,
            Op::Log3 => 0xa3,
            Op::Log4 => 0xa4,
            Op::InvalidA5 => 0xa5,
            Op::InvalidA6 => 0xa6,
            Op::InvalidA7 => 0xa7,
            Op::InvalidA8 => 0xa8,
            Op::InvalidA9 => 0xa9,
            Op::InvalidAa => 0xaa,
            Op::InvalidAb => 0xab,
            Op::InvalidAc => 0xac,
            Op::InvalidAd => 0xad,
            Op::InvalidAe => 0xae,
            Op::InvalidAf => 0xaf,
            Op::JumpTo => 0xb0,
            Op::JumpIf => 0xb1,
            Op::JumpSub => 0xb2,
            Op::InvalidB3 => 0xb3,
            Op::JumpSubV => 0xb4,
            Op::BeginSub => 0xb5,
            Op::BeginData => 0xb6,
            Op::InvalidB7 => 0xb7,
            Op::ReturnSub => 0xb8,
            Op::PutLocal => 0xb9,
            Op::GetLocal => 0xba,
            Op::InvalidBb => 0xbb,
            Op::InvalidBc => 0xbc,
            Op::InvalidBd => 0xbd,
            Op::InvalidBe => 0xbe,
            Op::InvalidBf => 0xbf,
            Op::InvalidC0 => 0xc0,
            Op::InvalidC1 => 0xc1,
            Op::InvalidC2 => 0xc2,
            Op::InvalidC3 => 0xc3,
            Op::InvalidC4 => 0xc4,
            Op::InvalidC5 => 0xc5,
            Op::InvalidC6 => 0xc6,
            Op::InvalidC7 => 0xc7,
            Op::InvalidC8 => 0xc8,
            Op::InvalidC9 => 0xc9,
            Op::InvalidCa => 0xca,
            Op::InvalidCb => 0xcb,
            Op::InvalidCc => 0xcc,
            Op::InvalidCd => 0xcd,
            Op::InvalidCe => 0xce,
            Op::InvalidCf => 0xcf,
            Op::InvalidD0 => 0xd0,
            Op::InvalidD1 => 0xd1,
            Op::InvalidD2 => 0xd2,
            Op::InvalidD3 => 0xd3,
            Op::InvalidD4 => 0xd4,
            Op::InvalidD5 => 0xd5,
            Op::InvalidD6 => 0xd6,
            Op::InvalidD7 => 0xd7,
            Op::InvalidD8 => 0xd8,
            Op::InvalidD9 => 0xd9,
            Op::InvalidDa => 0xda,
            Op::InvalidDb => 0xdb,
            Op::InvalidDc => 0xdc,
            Op::InvalidDd => 0xdd,
            Op::InvalidDe => 0xde,
            Op::InvalidDf => 0xdf,
            Op::InvalidE0 => 0xe0,
            Op::SLoadBytes => 0xe1,
            Op::SStoreBytes => 0xe2,
            Op::SSize => 0xe3,
            Op::InvalidE4 => 0xe4,
            Op::InvalidE5 => 0xe5,
            Op::InvalidE6 => 0xe6,
            Op::InvalidE7 => 0xe7,
            Op::InvalidE8 => 0xe8,
            Op::InvalidE9 => 0xe9,
            Op::InvalidEa => 0xea,
            Op::InvalidEb => 0xeb,
            Op::InvalidEc => 0xec,
            Op::InvalidEd => 0xed,
            Op::InvalidEe => 0xee,
            Op::InvalidEf => 0xef,
            Op::Create => 0xf0,
            Op::Call => 0xf1,
            Op::CallCode => 0xf2,
            Op::Return => 0xf3,
            Op::DelegateCall => 0xf4,
            Op::Create2 => 0xf5,
            Op::InvalidF6 => 0xf6,
            Op::InvalidF7 => 0xf7,
            Op::InvalidF8 => 0xf8,
            Op::InvalidF9 => 0xf9,
            Op::StaticCall => 0xfa,
            Op::InvalidFb => 0xfb,
            Op::TxExecGas => 0xfc,
            Op::Revert => 0xfd,
            Op::Invalid => 0xfe,
            Op::SelfDestruct => 0xff,
        }
    }

    /// The specifier that a byte encodes; every byte encodes one.
    pub fn from_byte(b: u8) -> (r: Op)
        ensures
            r == Op::of_byte(b),
            r.byte() == b,
    {
        proof {
            lemma_byte_of_byte(b);
        }
        match b {
            0x00 => Op::Stop,
            0x01 => Op::Add,
            0x02 => Op::Mul,
            0x03 => Op::Sub,
            0x04 => Op::Div,
            0x05 => Op::SDiv,
            0x06 => Op::Mod,
            0x07 => Op::SMod,
            0x08 => Op::AddMod,
            0x09 => Op::MulMod,
            0x0a => Op::Exp,
            0x0b => Op::SignExtend,
            0x0c => Op::Invalid0c,
            0x0d => Op::Invalid0d,
            0x0e => Op::Invalid0e,
            0x0f => Op::Invalid0f,
            0x10 => Op::Lt,
            0x11 => Op::Gt,
            0x12 => Op::SLt,
            0x13 => Op::SGt,
            0x14 => Op::Eq,
            0x15 => Op::IsZero,
            0x16 => Op::And,
            0x17 => Op::Or,
            0x18 => Op::Xor,
            0x19 => Op::Not,
            0x1a => Op::Byte,
            0x1b => Op::Shl,
            0x1c => Op::Shr,
            0x1d => Op::Sar,
            0x1e => Op::Invalid1e,
            0x1f => Op::Invalid1f,
            0x20 => Op::Keccak256,
            0x21 => Op::Invalid21,
            0x22 => Op::Invalid22,
            0x23 => Op::Invalid23,
            0x24 => Op::Invalid24,
            0x25 => Op::Invalid25,
            0x26 => Op::Invalid26,
            0x27 => Op::Invalid27,
            0x28 => Op::Invalid28,
            0x29 => Op::Invalid29,
            0x2a => Op::Invalid2a,
            0x2b => Op::Invalid2b,
            0x2c => Op::Invalid2c,
            0x2d => Op::Invalid2d,
            0x2e => Op::Invalid2e,
            0x2f => Op::Invalid2f,
            0x30 => Op::Address,
            0x31 => Op::Balance,
            0x32 => Op::Origin,
            0x33 => Op::Caller,
            0x34 => Op::CallValue,
            0x35 => Op::CallDataLoad,
            0x36 => Op::CallDataSize,
            0x37 => Op::CallDataCopy,
            0x38 => Op::CodeSize,
            0x39 => Op::CodeCopy,
            0x3a => Op::GasPrice,
            0x3b => Op::ExtCodeSize,
            0x3c => Op::ExtCodeCopy,
            0x3d => Op::ReturnDataSize,
            0x3e => Op::ReturnDataCopy,
            0x3f => Op::ExtCodeHash,
            0x40 => Op::BlockHash,
            0x41 => Op::Coinbase,
            0x42 => Op::Timestamp,
            0x43 => Op::Number,
            0x44 => Op::Difficulty,
            0x45 => Op::GasLimit,
            0x46 => Op::ChainId,
            0x47 => Op::Invalid47,
            0x48 => Op::Invalid48,
            0x49 => Op::Invalid49,
            0x4a => Op::Invalid4a,
            0x4b => Op::Invalid4b,
            0x4c => Op::Invalid4c,
            0x4d => Op::Invalid4d,
            0x4e => Op::Invalid4e,
            0x4f => Op::Invalid4f,
            0x50 => Op::Pop,
            0x51 => Op::MLoad,
            0x52 => Op::MStore,
            0x53 => Op::MStore8,
            0x54 => Op::SLoad,
            0x55 => Op::SStore,
            0x56 => Op::Jump,
            0x57 => Op::JumpI,
            0x58 => Op::GetPc,
            0x59 => Op::MSize,
            0x5a => Op::Gas,
            0x5b => Op::JumpDest,
            0x5c => Op::Invalid5c,
            0x5d => Op::Invalid5d,
            0x5e => Op::Invalid5e,
            0x5f => Op::Invalid5f,
            0x60 => Op::Push1,
            0x61 => Op::Push2,
            0x62 => Op::Push3,
            0x63 => Op::Push4,
            0x64 => Op::Push5,
            0x65 => Op::Push6,
            0x66 => Op::Push7,
            0x67 => Op::Push8,
            0x68 => Op::Push9,
            0x69 => Op::Push10,
            0x6a => Op::Push11,
            0x6b => Op::Push12,
            0x6c => Op::Push13,
            0x6d => Op::Push14,
            0x6e => Op::Push15,
            0x6f => Op::Push16,
            0x70 => Op::Push17,
            0x71 => Op::Push18,
            0x72 => Op::Push19,
            0x73 => Op::Push20,
            0x74 => Op::Push21,
            0x75 => Op::Push22,
            0x76 => Op::Push23,
            0x77 => Op::Push24,
            0x78 => Op::Push25,
            0x79 => Op::Push26,
            0x7a => Op::Push27,
            0x7b => Op::Push28,
            0x7c => Op::Push29,
            0x7d => Op::Push30,
            0x7e => Op::Push31,
            0x7f => Op::Push32,
            0x80 => Op::Dup1,
            0x81 => Op::Dup2,
            0x82 => Op::Dup3,
            0x83 => Op::Dup4,
            0x84 => Op::Dup5,
            0x85 => Op::Dup6,
            0x86 => Op::Dup7,
            0x87 => Op::Dup8,
            0x88 => Op::Dup9,
            0x89 => Op::Dup10,
            0x8a => Op::Dup11,
            0x8b => Op::Dup12,
            0x8c => Op::Dup13,
            0x8d => Op::Dup14,
            0x8e => Op::Dup15,
            0x8f => Op::Dup16,
            0x90 => Op::Swap1,
            0x91 => Op::Swap2,
            0x92 => Op::Swap3,
            0x93 => Op::Swap4,
            0x94 => Op::Swap5,
            0x95 => Op::Swap6,
            0x96 => Op::Swap7,
            0x97 => Op::Swap8,
            0x98 => Op::Swap9,
            0x99 => Op::Swap10,
            0x9a => Op::Swap11,
            0x9b => Op::Swap12,
            0x9c => Op::Swap13,
            0x9d => Op::Swap14,
            0x9e => Op::Swap15,
            0x9f => Op::Swap16,
            0xa0 => Op::Log0,
            0xa1 => Op::Log1,
            0xa2 => Op::Log2,
            0xa3 => Op::Log3,
            0xa4 => Op::Log4,
            0xa5 => Op::InvalidA5,
            0xa6 => Op::InvalidA6,
            0xa7 => Op::InvalidA7,
            0xa8 => Op::InvalidA8,
            0xa9 => Op::InvalidA9,
            0xaa => Op::InvalidAa,
            0xab => Op::InvalidAb,
            0xac => Op::InvalidAc,
            0xad => Op::InvalidAd,
            0xae => Op::InvalidAe,
            0xaf => Op::InvalidAf,
            0xb0 => Op::JumpTo,
            0xb1 => Op::JumpIf,
            0xb2 => Op::JumpSub,
            0xb3 => Op::InvalidB3,
            0xb4 => Op::JumpSubV,
            0xb5 => Op::BeginSub,
            0xb6 => Op::BeginData,
            0xb7 => Op::InvalidB7,
            0xb8 => Op::ReturnSub,
            0xb9 => Op::PutLocal,
            0xba => Op::GetLocal,
            0xbb => Op::InvalidBb,
            0xbc => Op::InvalidBc,
            0xbd => Op::InvalidBd,
            0xbe => Op::InvalidBe,
            0xbf => Op::InvalidBf,
            0xc0 => Op::InvalidC0,
            0xc1 => Op::InvalidC1,
            0xc2 => Op::InvalidC2,
            0xc3 => Op::InvalidC3,
            0xc4 => Op::InvalidC4,
            0xc5 => Op::InvalidC5,
            0xc6 => Op::InvalidC6,
            0xc7 => Op::InvalidC7,
            0xc8 => Op::InvalidC8,
            0xc9 => Op::InvalidC9,
            0xca => Op::InvalidCa,
            0xcb => Op::InvalidCb,
            0xcc => Op::InvalidCc,
            0xcd => Op::InvalidCd,
            0xce => Op::InvalidCe,
            0xcf => Op::InvalidCf,
            0xd0 => Op::InvalidD0,
            0xd1 => Op::InvalidD1,
            0xd2 => Op::InvalidD2,
            0xd3 => Op::InvalidD3,
            0xd4 => Op::InvalidD4,
            0xd5 => Op::InvalidD5,
            0xd6 => Op::InvalidD6,
            0xd7 => Op::InvalidD7,
            0xd8 => Op::InvalidD8,
            0xd9 => Op::InvalidD9,
            0xda => Op::InvalidDa,
            0xdb => Op::InvalidDb,
            0xdc => Op::InvalidDc,
            0xdd => Op::InvalidDd,
            0xde => Op::InvalidDe,
            0xdf => Op::InvalidDf,
            0xe0 => Op::InvalidE0,
            0xe1 => Op::SLoadBytes,
            0xe2 => Op::SStoreBytes,
            0xe3 => Op::SSize,
            0xe4 => Op::InvalidE4,
            0xe5 => Op::InvalidE5,
            0xe6 => Op::InvalidE6,
            0xe7 => Op::InvalidE7,
            0xe8 => Op::InvalidE8,
            0xe9 => Op::InvalidE9,
            0xea => Op::InvalidEa,
            0xeb => Op::InvalidEb,
            0xec => Op::InvalidEc,
            0xed => Op::InvalidEd,
            0xee => Op::InvalidEe,
            0xef => Op::InvalidEf,
            0xf0 => Op::Create,
            0xf1 => Op::Call,
            0xf2 => Op::CallCode,
            0xf3 => Op::Return,
            0xf4 => Op::DelegateCall,
            0xf5 => Op::Create2,
            0xf6 => Op::InvalidF6,
            0xf7 => Op::InvalidF7,
            0xf8 => Op::InvalidF8,
            0xf9 => Op::InvalidF9,
            0xfa => Op::StaticCall,
            0xfb => Op::InvalidFb,
            0xfc => Op::TxExecGas,
            0xfd => Op::Revert,
            0xfe => Op::Invalid,
            _ => Op::SelfDestruct,
        }
    }

    /// The lowercase mnemonic of the specifier.
    pub fn mnemonic(self) -> (r: &'static str)
        ensures
            r@ == self.mnemonic_spec(),
    {
        match self {
            Op::Stop => "stop",
            Op::Add => "add",
            Op::Mul => "mul",
            Op::Sub => "sub",
            Op::Div => "div",
            Op::SDiv => "sdiv",
            Op::Mod => "mod",
            Op::SMod => "smod",
            Op::AddMod => "addmod",
            Op::MulMod => "mulmod",
            Op::Exp => "exp",
            Op::SignExtend => "signextend",
            Op::Invalid0c => "invalid_0c",
            Op::Invalid0d => "invalid_0d",
            Op::Invalid0e => "invalid_0e",
            Op::Invalid0f => "invalid_0f",
            Op::Lt => "lt",
            Op::Gt => "gt",
            Op::SLt => "slt",
            Op::SGt => "sgt",
            Op::Eq => "eq",
            Op::IsZero => "iszero",
            Op::And => "and",
            Op::Or => "or",
            Op::Xor => "xor",
            Op::Not => "not",
            Op::Byte => "byte",
            Op::Shl => "shl",
            Op::Shr => "shr",
            Op::Sar => "sar",
            Op::Invalid1e => "invalid_1e",
            Op::Invalid1f => "invalid_1f",
            Op::Keccak256 => "keccak256",
            Op::Invalid21 => "invalid_21",
            Op::Invalid22 => "invalid_22",
            Op::Invalid23 => "invalid_23",
            Op::Invalid24 => "invalid_24",
            Op::Invalid25 => "invalid_25",
            Op::Invalid26 => "invalid_26",
            Op::Invalid27 => "invalid_27",
            Op::Invalid28 => "invalid_28",
            Op::Invalid29 => "invalid_29",
            Op::Invalid2a => "invalid_2a",
            Op::Invalid2b => "invalid_2b",
            Op::Invalid2c => "invalid_2c",
            Op::Invalid2d => "invalid_2d",
            Op::Invalid2e => "invalid_2e",
            Op::Invalid2f => "invalid_2f",
            Op::Address => "address",
            Op::Balance => "balance",
            Op::Origin => "origin",
            Op::Caller => "caller",
            Op::CallValue => "callvalue",
            Op::CallDataLoad => "calldataload",
            Op::CallDataSize => "calldatasize",
            Op::CallDataCopy => "calldatacopy",
            Op::CodeSize => "codesize",
            Op::CodeCopy => "codecopy",
            Op::GasPrice => "gasprice",
            Op::ExtCodeSize => "extcodesize",
            Op::ExtCodeCopy => "extcodecopy",
            Op::ReturnDataSize => "returndatasize",
            Op::ReturnDataCopy => "returndatacopy",
            Op::ExtCodeHash => "extcodehash",
            Op::BlockHash => "blockhash",
            Op::Coinbase => "coinbase",
            Op::Timestamp => "timestamp",
            Op::Number => "number",
            Op::Difficulty => "difficulty",
            Op::GasLimit => "gaslimit",
            Op::ChainId => "chainid",
            Op::Invalid47 => "invalid_47",
            Op::Invalid48 => "invalid_48",
            Op::Invalid49 => "invalid_49",
            Op::Invalid4a => "invalid_4a",
            Op::Invalid4b => "invalid_4b",
            Op::Invalid4c => "invalid_4c",
            Op::Invalid4d => "invalid_4d",
            Op::Invalid4e => "invalid_4e",
            Op::Invalid4f => "invalid_4f",
            Op::Pop => "pop",
            Op::MLoad => "mload",
            Op::MStore => "mstore",
            Op::MStore8 => "mstore8",
            Op::SLoad => "sload",
            Op::SStore => "sstore",
            Op::Jump => "jump",
            Op::JumpI => "jumpi",
            Op::GetPc => "pc",
            Op::MSize => "msize",
            Op::Gas => "gas",
            Op::JumpDest => "jumpdest",
            Op::Invalid5c => "invalid_5c",
            Op::Invalid5d => "invalid_5d",
            Op::Invalid5e => "invalid_5e",
            Op::Invalid5f => "invalid_5f",
            Op::Push1 => "push1",
            Op::Push2 => "push2",
            Op::Push3 => "push3",
            Op::Push4 => "push4",
            Op::Push5 => "push5",
            Op::Push6 => "push6",
            Op::Push7 => "push7",
            Op::Push8 => "push8",
            Op::Push9 => "push9",
            Op::Push10 => "push10",
            Op::Push11 => "push11",
            Op::Push12 => "push12",
            Op::Push13 => "push13",
            Op::Push14 => "push14",
            Op::Push15 => "push15",
            Op::Push16 => "push16",
            Op::Push17 => "push17",
            Op::Push18 => "push18",
            Op::Push19 => "push19",
            Op::Push20 => "push20",
            Op::Push21 => "push21",
            Op::Push22 => "push22",
            Op::Push23 => "push23",
            Op::Push24 => "push24",
            Op::Push25 => "push25",
            Op::Push26 => "push26",
            Op::Push27 => "push27",
            Op::Push28 => "push28",
            Op::Push29 => "push29",
            Op::Push30 => "push30",
            Op::Push31 => "push31",
            Op::Push32 => "push32",
            Op::Dup1 => "dup1",
            Op::Dup2 => "dup2",
            Op::Dup3 => "dup3",
            Op::Dup4 => "dup4",
            Op::Dup5 => "dup5",
            Op::Dup6 => "dup6",
            Op::Dup7 => "dup7",
            Op::Dup8 => "dup8",
            Op::Dup9 => "dup9",
            Op::Dup10 => "dup10",
            Op::Dup11 => "dup11",
            Op::Dup12 => "dup12",
            Op::Dup13 => "dup13",
            Op::Dup14 => "dup14",
            Op::Dup15 => "dup15",
            Op::Dup16 => "dup16",
            Op::Swap1 => "swap1",
            Op::Swap2 => "swap2",
            Op::Swap3 => "swap3",
            Op::Swap4 => "swap4",
            Op::Swap5 => "swap5",
            Op::Swap6 => "swap6",
            Op::Swap7 => "swap7",
            Op::Swap8 => "swap8",
            Op::Swap9 => "swap9",
            Op::Swap10 => "swap10",
            Op::Swap11 => "swap11",
            Op::Swap12 => "swap12",
            Op::Swap13 => "swap13",
            Op::Swap14 => "swap14",
            Op::Swap15 => "swap15",
            Op::Swap16 => "swap16",
            Op::Log0 => "log0",
            Op::Log1 => "log1",
            Op::Log2 => "log2",
            Op::Log3 => "log3",
            Op::Log4 => "log4",
            Op::InvalidA5 => "invalid_a5",
            Op::InvalidA6 => "invalid_a6",
            Op::InvalidA7 => "invalid_a7",
            Op::InvalidA8 => "invalid_a8",
            Op::InvalidA9 => "invalid_a9",
            Op::InvalidAa => "invalid_aa",
            Op::InvalidAb => "invalid_ab",
            Op::InvalidAc => "invalid_ac",
            Op::InvalidAd => "invalid_ad",
            Op::InvalidAe => "invalid_ae",
            Op::InvalidAf => "invalid_af",
            Op::JumpTo => "jumpto",
            Op::JumpIf => "jumpif",
            Op::JumpSub => "jumpsub",
            Op::InvalidB3 => "invalid_b3",
            Op::JumpSubV => "jumpsubv",
            Op::BeginSub => "beginsub",
            Op::BeginData => "begindata",
            Op::InvalidB7 => "invalid_b7",
            Op::ReturnSub => "returnsub",
            Op::PutLocal => "putlocal",
            Op::GetLocal => "getlocal",
            Op::InvalidBb => "invalid_bb",
            Op::InvalidBc => "invalid_bc",
            Op::InvalidBd => "invalid_bd",
            Op::InvalidBe => "invalid_be",
            Op::InvalidBf => "invalid_bf",
            Op::InvalidC0 => "invalid_c0",
            Op::InvalidC1 => "invalid_c1",
            Op::InvalidC2 => "invalid_c2",
            Op::InvalidC3 => "invalid_c3",
            Op::InvalidC4 => "invalid_c4",
            Op::InvalidC5 => "invalid_c5",
            Op::InvalidC6 => "invalid_c6",
            Op::InvalidC7 => "invalid_c7",
            Op::InvalidC8 => "invalid_c8",
            Op::InvalidC9 => "invalid_c9",
            Op::InvalidCa => "invalid_ca",
            Op::InvalidCb => "invalid_cb",
            Op::InvalidCc => "invalid_cc",
            Op::InvalidCd => "invalid_cd",
            Op::InvalidCe => "invalid_ce",
            Op::InvalidCf => "invalid_cf",
            Op::InvalidD0 => "invalid_d0",
            Op::InvalidD1 => "invalid_d1",
            Op::InvalidD2 => "invalid_d2",
            Op::InvalidD3 => "invalid_d3",
            Op::InvalidD4 => "invalid_d4",
            Op::InvalidD5 => "invalid_d5",
            Op::InvalidD6 => "invalid_d6",
            Op::InvalidD7 => "invalid_d7",
            Op::InvalidD8 => "invalid_d8",
            Op::InvalidD9 => "invalid_d9",
            Op::InvalidDa => "invalid_da",
            Op::InvalidDb => "invalid_db",
            Op::InvalidDc => "invalid_dc",
            Op::InvalidDd => "invalid_dd",
            Op::InvalidDe => "invalid_de",
            Op::InvalidDf => "invalid_df",
            Op::InvalidE0 => "invalid_e0",
            Op::SLoadBytes => "sloadbytes",
            Op::SStoreBytes => "sstorebytes",
            Op::SSize => "ssize",
            Op::InvalidE4 => "invalid_e4",
            Op::InvalidE5 => "invalid_e5",
            Op::InvalidE6 => "invalid_e6",
            Op::InvalidE7 => "invalid_e7",
            Op::InvalidE8 => "invalid_e8",
            Op::InvalidE9 => "invalid_e9",
            Op::InvalidEa => "invalid_ea",
            Op::InvalidEb => "invalid_eb",
            Op::InvalidEc => "invalid_ec",
            Op::InvalidEd => "invalid_ed",
            Op::InvalidEe => "invalid_ee",
            Op::InvalidEf => "invalid_ef",
            Op::Create => "create",
            Op::Call => "call",
            Op::CallCode => "callcode",
            Op::Return => "return",
            Op::DelegateCall => "delegatecall",
            Op::Create2 => "create2",
            Op::InvalidF6 => "invalid_f6",
            Op::InvalidF7 => "invalid_f7",
            Op::InvalidF8 => "invalid_f8",
            Op::InvalidF9 => "invalid_f9",
            Op::StaticCall => "staticcall",
            Op::InvalidFb => "invalid_fb",
            Op::TxExecGas => "txexecgas",
            Op::Revert => "revert",
            Op::Invalid => "invalid",
            Op::SelfDestruct => "selfdestruct",
        }
    }
}

/// Decoding a byte and encoding the result gives the byte back.
pub proof fn lemma_byte_of_byte(b: u8)
    ensures
        Op::of_byte(b).byte() == b,
{
}

/// Encoding a specifier and decoding the byte gives the specifier back.
pub proof fn lemma_of_byte_byte(op: Op)
    ensures
        Op::of_byte(op.byte()) == op,
{
}

/// Each mnemonic is found again from its key.
pub proof fn lemma_mnemonic_key(op: Op)
    ensures
        2 <= op.mnemonic_spec().len(),
        op_with_key(mnemonic_key(op.mnemonic_spec())) == Some(op),
{
    match op {
        Op::Stop => { reveal_strlit("stop"); },
        Op::Add => { reveal_strlit("add"); },
        Op::Mul => { reveal_strlit("mul"); },
        Op::Sub => { reveal_strlit("sub"); },
        Op::Div => { reveal_strlit("div"); },
        Op::SDiv => { reveal_strlit("sdiv"); },
        Op::Mod => { reveal_strlit("mod"); },
        Op::SMod => { reveal_strlit("smod"); },
        Op::AddMod => { reveal_strlit("addmod"); },
        Op::MulMod => { reveal_strlit("mulmod"); },
        Op::Exp => { reveal_strlit("exp"); },
        Op::SignExtend => { reveal_strlit("signextend"); },
        Op::Invalid0c => { reveal_strlit("invalid_0c"); },
        Op::Invalid0d => { reveal_strlit("invalid_0d"); },
        Op::Invalid0e => { reveal_strlit("invalid_0e"); },
        Op::Invalid0f => { reveal_strlit("invalid_0f"); },
        Op::Lt => { reveal_strlit("lt"); },
        Op::Gt => { reveal_strlit("gt"); },
        Op::SLt => { reveal_strlit("slt"); },
        Op::SGt => { reveal_strlit("sgt"); },
        Op::Eq => { reveal_strlit("eq"); },
        Op::IsZero => { reveal_strlit("iszero"); },
        Op::And => { reveal_strlit("and"); },
        Op::Or => { reveal_strlit("or"); },
        Op::Xor => { reveal_strlit("xor"); },
        Op::Not => { reveal_strlit("not"); },
        Op::Byte => { reveal_strlit("byte"); },
        Op::Shl => { reveal_strlit("shl"); },
        Op::Shr => { reveal_strlit("shr"); },
        Op::Sar => { reveal_strlit("sar"); },
        Op::Invalid1e => { reveal_strlit("invalid_1e"); },
        Op::Invalid1f => { reveal_strlit("invalid_1f"); },
        Op::Keccak256 => { reveal_strlit("keccak256"); },
        Op::Invalid21 => { reveal_strlit("invalid_21"); },
        Op::Invalid22 => { reveal_strlit("invalid_22"); },
        Op::Invalid23 => { reveal_strlit("invalid_23"); },
        Op::Invalid24 => { reveal_strlit("invalid_24"); },
        Op::Invalid25 => { reveal_strlit("invalid_25"); },
        Op::Invalid26 => { reveal_strlit("invalid_26"); },
        Op::Invalid27 => { reveal_strlit("invalid_27"); },
        Op::Invalid28 => { reveal_strlit("invalid_28"); },
        Op::Invalid29 => { reveal_strlit("invalid_29"); },
        Op::Invalid2a => { reveal_strlit("invalid_2a"); },
        Op::Invalid2b => { reveal_strlit("invalid_2b"); },
        Op::Invalid2c => { reveal_strlit("invalid_2c"); },
        Op::Invalid2d => { reveal_strlit("invalid_2d"); },
        Op::Invalid2e => { reveal_strlit("invalid_2e"); },
        Op::Invalid2f => { reveal_strlit("invalid_2f"); },
        Op::Address => { reveal_strlit("address"); },
        Op::Balance => { reveal_strlit("balance"); },
        Op::Origin => { reveal_strlit("origin"); },
        Op::Caller => { reveal_strlit("caller"); },
        Op::CallValue => { reveal_strlit("callvalue"); },
        Op::CallDataLoad => { reveal_strlit("calldataload"); },
        Op::CallDataSize => { reveal_strlit("calldatasize"); },
        Op::CallDataCopy => { reveal_strlit("calldatacopy"); },
        Op::CodeSize => { reveal_strlit("codesize"); },
        Op::CodeCopy => { reveal_strlit("codecopy"); },
        Op::GasPrice => { reveal_strlit("gasprice"); },
        Op::ExtCodeSize => { reveal_strlit("extcodesize"); },
        Op::ExtCodeCopy => { reveal_strlit("extcodecopy"); },
        Op::ReturnDataSize => { reveal_strlit("returndatasize"); },
        Op::ReturnDataCopy => { reveal_strlit("returndatacopy"); },
        Op::ExtCodeHash => { reveal_strlit("extcodehash"); },
        Op::BlockHash => { reveal_strlit("blockhash"); },
        Op::Coinbase => { reveal_strlit("coinbase"); },
        Op::Timestamp => { reveal_strlit("timestamp"); },
        Op::Number => { reveal_strlit("number"); },
        Op::Difficulty => { reveal_strlit("difficulty"); },
        Op::GasLimit => { reveal_strlit("gaslimit"); },
        Op::ChainId => { reveal_strlit("chainid"); },
        Op::Invalid47 => { reveal_strlit("invalid_47"); },
        Op::Invalid48 => { reveal_strlit("invalid_48"); },
        Op::Invalid49 => { reveal_strlit("invalid_49"); },
        Op::Invalid4a => { reveal_strlit("invalid_4a"); },
        Op::Invalid4b => { reveal_strlit("invalid_4b"); },
        Op::Invalid4c => { reveal_strlit("invalid_4c"); },
        Op::Invalid4d => { reveal_strlit("invalid_4d"); },
        Op::Invalid4e => { reveal_strlit("invalid_4e"); },
        Op::Invalid4f => { reveal_strlit("invalid_4f"); },
        Op::Pop => { reveal_strlit("pop"); },
        Op::MLoad => { reveal_strlit("mload"); },
        Op::MStore => { reveal_strlit("mstore"); },
        Op::MStore8 => { reveal_strlit("mstore8"); },
        Op::SLoad => { reveal_strlit("sload"); },
        Op::SStore => { reveal_strlit("sstore"); },
        Op::Jump => { reveal_strlit("jump"); },
        Op::JumpI => { reveal_strlit("jumpi"); },
        Op::GetPc => { reveal_strlit("pc"); },
        Op::MSize => { reveal_strlit("msize"); },
        Op::Gas => { reveal_strlit("gas"); },
        Op::JumpDest => { reveal_strlit("jumpdest"); },
        Op::Invalid5c => { reveal_strlit("invalid_5c"); },
        Op::Invalid5d => { reveal_strlit("invalid_5d"); },
        Op::Invalid5e => { reveal_strlit("invalid_5e"); },
        Op::Invalid5f => { reveal_strlit("invalid_5f"); },
        Op::Push1 => { reveal_strlit("push1"); },
        Op::Push2 => { reveal_strlit("push2"); },
        Op::Push3 => { reveal_strlit("push3"); },
        Op::Push4 => { reveal_strlit("push4"); },
        Op::Push5 => { reveal_strlit("push5"); },
        Op::Push6 => { reveal_strlit("push6"); },
        Op::Push7 => { reveal_strlit("push7"); },
        Op::Push8 => { reveal_strlit("push8"); },
        Op::Push9 => { reveal_strlit("push9"); },
        Op::Push10 => { reveal_strlit("push10"); },
        Op::Push11 => { reveal_strlit("push11"); },
        Op::Push12 => { reveal_strlit("push12"); },
        Op::Push13 => { reveal_strlit("push13"); },
        Op::Push14 => { reveal_strlit("push14"); },
        Op::Push15 => { reveal_strlit("push15"); },
        Op::Push16 => { reveal_strlit("push16"); },
        Op::Push17 => { reveal_strlit("push17"); },
        Op::Push18 => { reveal_strlit("push18"); },
        Op::Push19 => { reveal_strlit("push19"); },
        Op::Push20 => { reveal_strlit("push20"); },
        Op::Push21 => { reveal_strlit("push21"); },
        Op::Push22 => { reveal_strlit("push22"); },
        Op::Push23 => { reveal_strlit("push23"); },
        Op::Push24 => { reveal_strlit("push24"); },
        Op::Push25 => { reveal_strlit("push25"); },
        Op::Push26 => { reveal_strlit("push26"); },
        Op::Push27 => { reveal_strlit("push27"); },
        Op::Push28 => { reveal_strlit("push28"); },
        Op::Push29 => { reveal_strlit("push29"); },
        Op::Push30 => { reveal_strlit("push30"); },
        Op::Push31 => { reveal_strlit("push31"); },
        Op::Push32 => { reveal_strlit("push32"); },
        Op::Dup1 => { reveal_strlit("dup1"); },
        Op::Dup2 => { reveal_strlit("dup2"); },
        Op::Dup3 => { reveal_strlit("dup3"); },
        Op::Dup4 => { reveal_strlit("dup4"); },
        Op::Dup5 => { reveal_strlit("dup5"); },
        Op::Dup6 => { reveal_strlit("dup6"); },
        Op::Dup7 => { reveal_strlit("dup7"); },
        Op::Dup8 => { reveal_strlit("dup8"); },
        Op::Dup9 => { reveal_strlit("dup9"); },
        Op::Dup10 => { reveal_strlit("dup10"); },
        Op::Dup11 => { reveal_strlit("dup11"); },
        Op::Dup12 => { reveal_strlit("dup12"); },
        Op::Dup13 => { reveal_strlit("dup13"); },
        Op::Dup14 => { reveal_strlit("dup14"); },
        Op::Dup15 => { reveal_strlit("dup15"); },
        Op::Dup16 => { reveal_strlit("dup16"); },
        Op::Swap1 => { reveal_strlit("swap1"); },
        Op::Swap2 => { reveal_strlit("swap2"); },
        Op::Swap3 => { reveal_strlit("swap3"); },
        Op::Swap4 => { reveal_strlit("swap4"); },
        Op::Swap5 => { reveal_strlit("swap5"); },
        Op::Swap6 => { reveal_strlit("swap6"); },
        Op::Swap7 => { reveal_strlit("swap7"); },
        Op::Swap8 => { reveal_strlit("swap8"); },
        Op::Swap9 => { reveal_strlit("swap9"); },
        Op::Swap10 => { reveal_strlit("swap10"); },
        Op::Swap11 => { reveal_strlit("swap11"); },
        Op::Swap12 => { reveal_strlit("swap12"); },
        Op::Swap13 => { reveal_strlit("swap13"); },
        Op::Swap14 => { reveal_strlit("swap14"); },
        Op::Swap15 => { reveal_strlit("swap15"); },
        Op::Swap16 => { reveal_strlit("swap16"); },
        Op::Log0 => { reveal_strlit("log0"); },
        Op::Log1 => { reveal_strlit("log1"); },
        Op::Log2 => { reveal_strlit("log2"); },
        Op::Log3 => { reveal_strlit("log3"); },
        Op::Log4 => { reveal_strlit("log4"); },
        Op::InvalidA5 => { reveal_strlit("invalid_a5"); },
        Op::InvalidA6 => { reveal_strlit("invalid_a6"); },
        Op::InvalidA7 => { reveal_strlit("invalid_a7"); },
        Op::InvalidA8 => { reveal_strlit("invalid_a8"); },
        Op::InvalidA9 => { reveal_strlit("invalid_a9"); },
        Op::InvalidAa => { reveal_strlit("invalid_aa"); },
        Op::InvalidAb => { reveal_strlit("invalid_ab"); },
        Op::InvalidAc => { reveal_strlit("invalid_ac"); },
        Op::InvalidAd => { reveal_strlit("invalid_ad"); },
        Op::InvalidAe => { reveal_strlit("invalid_ae"); },
        Op::InvalidAf => { reveal_strlit("invalid_af"); },
        Op::JumpTo => { reveal_strlit("jumpto"); },
        Op::JumpIf => { reveal_strlit("jumpif"); },
        Op::JumpSub => { reveal_strlit("jumpsub"); },
        Op::InvalidB3 => { reveal_strlit("invalid_b3"); },
        Op::JumpSubV => { reveal_strlit("jumpsubv"); },
        Op::BeginSub => { reveal_strlit("beginsub"); },
        Op::BeginData => { reveal_strlit("begindata"); },
        Op::InvalidB7 => { reveal_strlit("invalid_b7"); },
        Op::ReturnSub => { reveal_strlit("returnsub"); },
        Op::PutLocal => { reveal_strlit("putlocal"); },
        Op::GetLocal => { reveal_strlit("getlocal"); },
        Op::InvalidBb => { reveal_strlit("invalid_bb"); },
        Op::InvalidBc => { reveal_strlit("invalid_bc"); },
        Op::InvalidBd => { reveal_strlit("invalid_bd"); },
        Op::InvalidBe => { reveal_strlit("invalid_be"); },
        Op::InvalidBf => { reveal_strlit("invalid_bf"); },
        Op::InvalidC0 => { reveal_strlit("invalid_c0"); },
        Op::InvalidC1 => { reveal_strlit("invalid_c1"); },
        Op::InvalidC2 => { reveal_strlit("invalid_c2"); },
        Op::InvalidC3 => { reveal_strlit("invalid_c3"); },
        Op::InvalidC4 => { reveal_strlit("invalid_c4"); },
        Op::InvalidC5 => { reveal_strlit("invalid_c5"); },
        Op::InvalidC6 => { reveal_strlit("invalid_c6"); },
        Op::InvalidC7 => { reveal_strlit("invalid_c7"); },
        Op::InvalidC8 => { reveal_strlit("invalid_c8"); },
        Op::InvalidC9 => { reveal_strlit("invalid_c9"); },
        Op::InvalidCa => { reveal_strlit("invalid_ca"); },
        Op::InvalidCb => { reveal_strlit("invalid_cb"); },
        Op::InvalidCc => { reveal_strlit("invalid_cc"); },
        Op::InvalidCd => { reveal_strlit("invalid_cd"); },
        Op::InvalidCe => { reveal_strlit("invalid_ce"); },
        Op::InvalidCf => { reveal_strlit("invalid_cf"); },
        Op::InvalidD0 => { reveal_strlit("invalid_d0"); },
        Op::InvalidD1 => { reveal_strlit("invalid_d1"); },
        Op::InvalidD2 => { reveal_strlit("invalid_d2"); },
        Op::InvalidD3 => { reveal_strlit("invalid_d3"); },
        Op::InvalidD4 => { reveal_strlit("invalid_d4"); },
        Op::InvalidD5 => { reveal_strlit("invalid_d5"); },
        Op::InvalidD6 => { reveal_strlit("invalid_d6"); },
        Op::InvalidD7 => { reveal_strlit("invalid_d7"); },
        Op::InvalidD8 => { reveal_strlit("invalid_d8"); },
        Op::InvalidD9 => { reveal_strlit("invalid_d9"); },
        Op::InvalidDa => { reveal_strlit("invalid_da"); },
        Op::InvalidDb => { reveal_strlit("invalid_db"); },
        Op::InvalidDc => { reveal_strlit("invalid_dc"); },
        Op::InvalidDd => { reveal_strlit("invalid_dd"); },
        Op::InvalidDe => { reveal_strlit("invalid_de"); },
        Op::InvalidDf => { reveal_strlit("invalid_df"); },
        Op::InvalidE0 => { reveal_strlit("invalid_e0"); },
        Op::SLoadBytes => { reveal_strlit("sloadbytes"); },
        Op::SStoreBytes => { reveal_strlit("sstorebytes"); },
        Op::SSize => { reveal_strlit("ssize"); },
        Op::InvalidE4 => { reveal_strlit("invalid_e4"); },
        Op::InvalidE5 => { reveal_strlit("invalid_e5"); },
        Op::InvalidE6 => { reveal_strlit("invalid_e6"); },
        Op::InvalidE7 => { reveal_strlit("invalid_e7"); },
        Op::InvalidE8 => { reveal_strlit("invalid_e8"); },
        Op::InvalidE9 => { reveal_strlit("invalid_e9"); },
        Op::InvalidEa => { reveal_strlit("invalid_ea"); },
        Op::InvalidEb => { reveal_strlit("invalid_eb"); },
        Op::InvalidEc => { reveal_strlit("invalid_ec"); },
        Op::InvalidEd => { reveal_strlit("invalid_ed"); },
        Op::InvalidEe => { reveal_strlit("invalid_ee"); },
        Op::InvalidEf => { reveal_strlit("invalid_ef"); },
        Op::Create => { reveal_strlit("create"); },
        Op::Call => { reveal_strlit("call"); },
        Op::CallCode => { reveal_strlit("callcode"); },
        Op::Return => { reveal_strlit("return"); },
        Op::DelegateCall => { reveal_strlit("delegatecall"); },
        Op::Create2 => { reveal_strlit("create2"); },
        Op::InvalidF6 => { reveal_strlit("invalid_f6"); },
        Op::InvalidF7 => { reveal_strlit("invalid_f7"); },
        Op::InvalidF8 => { reveal_strlit("invalid_f8"); },
        Op::InvalidF9 => { reveal_strlit("invalid_f9"); },
        Op::StaticCall => { reveal_strlit("staticcall"); },
        Op::InvalidFb => { reveal_strlit("invalid_fb"); },
        Op::TxExecGas => { reveal_strlit("txexecgas"); },
        Op::Revert => { reveal_strlit("revert"); },
        Op::Invalid => { reveal_strlit("invalid"); },
        Op::SelfDestruct => { reveal_strlit("selfdestruct"); },
    }
}


/// The push specifier for an immediate of `bytes` bytes: a request for no
/// bytes gets `push1`, and none holds more than 32.
pub open spec fn push_spec(bytes: nat) -> Option<Op> {
    if bytes <= 1 {
        Some(Op::push_of_width(1))
    } else if bytes <= 32 {
        Some(Op::push_of_width(bytes))
    } else {
        None
    }
}

impl Op {
    /// The number of immediate bytes that follow the opcode byte.
    pub fn immediate_len(self) -> (r: u32)
        ensures
            r == self.imm_len(),
            r <= 32,
    {
        let b = self.to_byte();
        if 0x60 <= b && b <= 0x7f {
            (b - 0x5f) as u32
        } else {
            0
        }
    }

    /// The number of bytes of the encoded instruction.
    pub fn size(self) -> (r: u32)
        ensures
            r == 1 + self.imm_len(),
    {
        self.immediate_len() + 1
    }

    /// The push specifier for an immediate of `bytes` bytes.
    pub fn push(bytes: u32) -> (r: Option<Op>)
        ensures
            r == push_spec(bytes as nat),
    {
        if bytes > 32 {
            None
        } else if bytes <= 1 {
            Some(Op::from_byte(0x60))
        } else {
            Some(Op::from_byte((0x5f + bytes) as u8))
        }
    }

    /// The smallest push specifier whose immediate holds `n`.
    pub fn push_for(n: u32) -> (r: Option<Op>)
        ensures
            r == push_spec(min_push_width(n as nat)),
    {
        proof {
            reveal_with_fuel(min_push_width, 5);
        }
        let width: u32 = if n < 0x100 {
            1
        } else if n < 0x1_0000 {
            2
        } else if n < 0x100_0000 {
            3
        } else {
            4
        };
        Op::push(width)
    }

    /// The push specifier one byte wider than this one, if there is one.
    pub fn upsize(self) -> (r: Option<Op>)
        requires
            self.is_push(),
        ensures
            r == push_spec(self.imm_len() + 1),
    {
        Op::push(self.immediate_len() + 1)
    }

    /// The specifier spelled `text`.
    pub fn from_mnemonic(text: &str) -> (r: Result<Op, UnknownSpecifier>)
        ensures
            r matches Ok(op) ==> parse_mnemonic(text@) == Some(op),
            r is Err ==> parse_mnemonic(text@) is None,
    {
        let n = text.unicode_len();
        if n < 2 {
            return Err(UnknownSpecifier);
        }
        let first = text.get_char(0);
        let penult = text.get_char(n - 2);
        let last = text.get_char(n - 1);
        match find_by_key(n, first, penult, last) {
            Some(op) => {
                let spelled = op.mnemonic().to_owned();
                if spelled == text.to_owned() {
                    Ok(op)
                } else {
                    Err(UnknownSpecifier)
                }
            },
            None => Err(UnknownSpecifier),
        }
    }
}

impl Metadata for Op {
    open spec fn jumps(&self) -> bool {
        match *self {
            Op::Jump
            | Op::JumpI
            | Op::JumpTo
            | Op::JumpIf
            | Op::JumpSub
            | Op::JumpSubV
            | Op::ReturnSub => true,
            _ => false,
        }
    }

    open spec fn is_target(&self) -> bool {
        match *self {
            Op::JumpDest
            | Op::BeginSub => true,
            _ => false,
        }
    }

    open spec fn exits(&self) -> bool {
        match *self {
            Op::Stop
            | Op::Invalid0c
            | Op::Invalid0d
            | Op::Invalid0e
            | Op::Invalid0f
            | Op::Invalid1e
            | Op::Invalid1f
            | Op::Invalid21
            | Op::Invalid22
            | Op::Invalid23
            | Op::Invalid24
            | Op::Invalid25
            | Op::Invalid26
            | Op::Invalid27
            | Op::Invalid28
            | Op::Invalid29
            | Op::Invalid2a
            | Op::Invalid2b
            | Op::Invalid2c
            | Op::Invalid2d
            | Op::Invalid2e
            | Op::Invalid2f
            | Op::Invalid47
            | Op::Invalid48
            | Op::Invalid49
            | Op::Invalid4a
            | Op::Invalid4b
            | Op::Invalid4c
            | Op::Invalid4d
            | Op::Invalid4e
            | Op::Invalid4f
            | Op::Invalid5c
            | Op::Invalid5d
            | Op::Invalid5e
            | Op::Invalid5f
            | Op::InvalidA5
            | Op::InvalidA6
            | Op::InvalidA7
            | Op::InvalidA8
            | Op::InvalidA9
            | Op::InvalidAa
            | Op::InvalidAb
            | Op::InvalidAc
            | Op::InvalidAd
            | Op::InvalidAe
            | Op::InvalidAf
            | Op::InvalidB3
            | Op::InvalidB7
            | Op::InvalidBb
            | Op::InvalidBc
            | Op::InvalidBd
            | Op::InvalidBe
            | Op::InvalidBf
            | Op::InvalidC0
            | Op::InvalidC1
            | Op::InvalidC2
            | Op::InvalidC3
            | Op::InvalidC4
            | Op::InvalidC5
            | Op::InvalidC6
            | Op::InvalidC7
            | Op::InvalidC8
            | Op::InvalidC9
            | Op::InvalidCa
            | Op::InvalidCb
            | Op::InvalidCc
            | Op::InvalidCd
            | Op::InvalidCe
            | Op::InvalidCf
            | Op::InvalidD0
            | Op::InvalidD1
            | Op::InvalidD2
            | Op::InvalidD3
            | Op::InvalidD4
            | Op::InvalidD5
            | Op::InvalidD6
            | Op::InvalidD7
            | Op::InvalidD8
            | Op::InvalidD9
            | Op::InvalidDa
            | Op::InvalidDb
            | Op::InvalidDc
            | Op::InvalidDd
            | Op::InvalidDe
            | Op::InvalidDf
            | Op::InvalidE0
            | Op::InvalidE4
            | Op::InvalidE5
            | Op::InvalidE6
            | Op::InvalidE7
            | Op::InvalidE8
            | Op::InvalidE9
            | Op::InvalidEa
            | Op::InvalidEb
            | Op::InvalidEc
            | Op::InvalidEd
            | Op::InvalidEe
            | Op::InvalidEf
            | Op::Return
            | Op::InvalidF6
            | Op::InvalidF7
            | Op::InvalidF8
            | Op::InvalidF9
            | Op::InvalidFb
            | Op::Revert
            | Op::Invalid
            | Op::SelfDestruct => true,
            _ => false,
        }
    }

    fn is_jump(&self) -> (r: bool) {
        match *self {
            Op::Jump
            | Op::JumpI
            | Op::JumpTo
            | Op::JumpIf
            | Op::JumpSub
            | Op::JumpSubV
            | Op::ReturnSub => true,
            _ => false,
        }
    }

    fn is_jump_target(&self) -> (r: bool) {
        match *self {
            Op::JumpDest
            | Op::BeginSub => true,
            _ => false,
        }
    }

    fn is_exit(&self) -> (r: bool) {
        match *self {
            Op::Stop
            | Op::Invalid0c
            | Op::Invalid0d
            | Op::Invalid0e
            | Op::Invalid0f
            | Op::Invalid1e
            | Op::Invalid1f
            | Op::Invalid21
            | Op::Invalid22
            | Op::Invalid23
            | Op::Invalid24
            | Op::Invalid25
            | Op::Invalid26
            | Op::Invalid27
            | Op::Invalid28
            | Op::Invalid29
            | Op::Invalid2a
            | Op::Invalid2b
            | Op::Invalid2c
            | Op::Invalid2d
            | Op::Invalid2e
            | Op::Invalid2f
            | Op::Invalid47
            | Op::Invalid48
            | Op::Invalid49
            | Op::Invalid4a
            | Op::Invalid4b
            | Op::Invalid4c
            | Op::Invalid4d
            | Op::Invalid4e
            | Op::Invalid4f
            | Op::Invalid5c
            | Op::Invalid5d
            | Op::Invalid5e
            | Op::Invalid5f
            | Op::InvalidA5
            | Op::InvalidA6
            | Op::InvalidA7
            | Op::InvalidA8
            | Op::InvalidA9
            | Op::InvalidAa
            | Op::InvalidAb
            | Op::InvalidAc
            | Op::InvalidAd
            | Op::InvalidAe
            | Op::InvalidAf
            | Op::InvalidB3
            | Op::InvalidB7
            | Op::InvalidBb
            | Op::InvalidBc
            | Op::InvalidBd
            | Op::InvalidBe
            | Op::InvalidBf
            | Op::InvalidC0
            | Op::InvalidC1
            | Op::InvalidC2
            | Op::InvalidC3
            | Op::InvalidC4
            | Op::InvalidC5
            | Op::InvalidC6
            | Op::InvalidC7
            | Op::InvalidC8
            | Op::InvalidC9
            | Op::InvalidCa
            | Op::InvalidCb
            | Op::InvalidCc
            | Op::InvalidCd
            | Op::InvalidCe
            | Op::InvalidCf
            | Op::InvalidD0
            | Op::InvalidD1
            | Op::InvalidD2
            | Op::InvalidD3
            | Op::InvalidD4
            | Op::InvalidD5
            | Op::InvalidD6
            | Op::InvalidD7
            | Op::InvalidD8
            | Op::InvalidD9
            | Op::InvalidDa
            | Op::InvalidDb
            | Op::InvalidDc
            | Op::InvalidDd
            | Op::InvalidDe
            | Op::InvalidDf
            | Op::InvalidE0
            | Op::InvalidE4
            | Op::InvalidE5
            | Op::InvalidE6
            | Op::InvalidE7
            | Op::InvalidE8
            | Op::InvalidE9
            | Op::InvalidEa
            | Op::InvalidEb
            | Op::InvalidEc
            | Op::InvalidEd
            | Op::InvalidEe
            | Op::InvalidEf
            | Op::Return
            | Op::InvalidF6
            | Op::InvalidF7
            | Op::InvalidF8
            | Op::InvalidF9
            | Op::InvalidFb
            | Op::Revert
            | Op::Invalid
            | Op::SelfDestruct => true,
            _ => false,
        }
    }
}

/// Every byte decodes to a specifier that encodes to it again, and every
/// specifier encodes to a byte that decodes to it again.
pub proof fn law_byte_bijection(b: u8, op: Op)
    ensures
        Op::of_byte(b).byte() == b,
        Op::of_byte(op.byte()) == op,
{
    lemma_byte_of_byte(b);
    lemma_of_byte_byte(op);
}

/// Reading the mnemonic of a specifier gives the specifier back.
pub proof fn law_mnemonic_round_trip(op: Op)
    ensures
        parse_mnemonic(op.mnemonic_spec()) == Some(op),
{
    lemma_mnemonic_key(op);
}

} // verus!
