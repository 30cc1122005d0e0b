use vstd::prelude::*;

verus! {

/// How an instruction affects the flow of control.
#[derive(Debug, Clone, Copy, PartialEq, Eq, Structural)]
pub enum InsnGroup {
    /// A byte that begins no documented instruction.
    Invalid,
    /// Control falls through to the next instruction.
    Regular,
    /// Unconditional absolute jump.
    Jump,
    /// Conditional absolute jump.
    JumpCond,
    /// Unconditional call.
    Call,
    /// Conditional call.
    CallCond,
    /// Unconditional return.
    Ret,
    /// Conditional return.
    RetCond,
    /// Restart (software interrupt).
    Int,
    /// Return from an interrupt handler.
    Iret,
    /// Unconditional relative branch.
    BranchRel,
    /// Conditional relative branch.
    BranchRelCond,
}

/// How to decode one opcode byte of one table.
///
/// The mnemonic template is `mnemonic_fmt`, then the operand (when
/// `arg_len` is not zero), then `mnemonic_tail`. The instruction occupies
/// `pre_len + op_len + arg_len` bytes of the stream.
#[derive(Debug, Clone, Copy)]
pub struct Opcode {
    pub mnemonic_fmt: &'static str,
    pub mnemonic_tail: &'static str,
    /// Base cycle count, and the extra cycles when a condition is taken.
    pub cycles: (u8, u8),
    pub pre_len: u8,
    pub op_len: u8,
    pub arg_len: u8,
    pub group: InsnGroup,
}

impl Opcode {
    /// Number of stream bytes that the instruction occupies.
    pub open spec fn spec_size(&self) -> nat {
        (self.pre_len + self.op_len + self.arg_len) as nat
    }

    pub fn new(
        mnemonic_fmt: &'static str,
        mnemonic_tail: &'static str,
        cycles: (u8, u8),
        pre_len: u8,
        op_len: u8,
        arg_len: u8,
        group: InsnGroup,
    ) -> (r: Opcode)
        ensures
            r == (Opcode { mnemonic_fmt, mnemonic_tail, cycles, pre_len, op_len, arg_len, group }),
    {
        Opcode { mnemonic_fmt, mnemonic_tail, cycles, pre_len, op_len, arg_len, group }
    }

    /// The empty descriptor: no text, no bytes, `Invalid`.
    pub fn base() -> (r: Opcode)
        ensures
            r.mnemonic_fmt@ == Seq::<char>::empty(),
            r.mnemonic_tail@ == Seq::<char>::empty(),
            r.cycles == (0u8, 0u8),
            r.pre_len == 0,
            r.op_len == 0,
            r.arg_len == 0,
            r.group == InsnGroup::Invalid,
    {
        proof {
            reveal_strlit("");
        }
        Opcode {
            mnemonic_fmt: "",
            mnemonic_tail: "",
            cycles: (0, 0),
            pre_len: 0,
            op_len: 0,
            arg_len: 0,
            group: InsnGroup::Invalid,
        }
    }

    pub fn size(&self) -> (r: usize)
        ensures
            r == self.spec_size(),
    {
        self.pre_len as usize + self.op_len as usize + self.arg_len as usize
    }
}

/// One decoded instruction.
#[derive(Debug, Clone)]
pub struct Insn {
    /// Load address that the caller gave for the instruction.
    pub address: usize,
    pub mnemonic: String,
    /// The bytes of the stream that the instruction occupies.
    pub bytes: Vec<u8>,
    /// The operand, or 0 when the instruction takes none.
    pub arg: u16,
    pub opcode: Opcode,
}

/// The mathematical value of an [`Insn`].
pub struct InsnView {
    pub address: usize,
    pub mnemonic: Seq<char>,
    pub bytes: Seq<u8>,
    pub arg: u16,
    pub opcode: Opcode,
}

impl View for Insn {
    type V = InsnView;

    open spec fn view(&self) -> InsnView {
        InsnView {
            address: self.address,
            mnemonic: self.mnemonic@,
            bytes: self.bytes@,
            arg: self.arg,
            opcode: self.opcode,
        }
    }
}

impl Insn {
    /// An empty record at address 0.
    pub fn base() -> (r: Insn)
        ensures
            r.address == 0,
            r.mnemonic@ == Seq::<char>::empty(),
            r.bytes@ == Seq::<u8>::empty(),
            r.arg == 0,
            r.opcode.mnemonic_fmt@ == Seq::<char>::empty(),
            r.opcode.spec_size() == 0,
            r.opcode.group == InsnGroup::Invalid,
    {
        Insn { address: 0, mnemonic: String::new(), bytes: Vec::new(), arg: 0, opcode: Opcode::base() }
    }
}

/// Why decoding failed.
#[derive(Debug, Clone, Copy, PartialEq, Eq, Structural)]
pub enum DecodeError {
    /// A prefix byte is not followed by the opcode byte that it announces.
    TruncatedPrefix,
    /// The operand bytes that the opcode calls for run past the stream's end.
    TruncatedOperand,
    /// A text meant as hexadecimal is not an even number of hex digits.
    InvalidHex,
}

} // verus!
