//! The opcode metadata table: a pure mapping from each byte value to the
//! mnemonic, immediate-operand length and stack arity of the instruction it
//! denotes, or to "undefined" for byte values with no assigned mnemonic.

use vstd::prelude::*;

verus! {

/// Whether a byte value has an assigned mnemonic in the canonical opcode
/// assignment.  Byte values outside these ranges are gaps and decode to no
/// defined instruction.
///
/// The assignment is the one in force through the Cancun and Prague forks,
/// `PUSH0`, `TLOAD`/`TSTORE`, `MCOPY`, `BLOBHASH`/`BLOBBASEFEE` and
/// `INVALID` included.  Opcodes still at the proposal stage — `CLZ`,
/// `SLOTNUM`, and the `DUPN`/`SWAPN`/`EXCHANGE` family with their one-byte
/// immediates — are deliberately left undefined until they are scheduled in
/// a fork.
pub open spec fn opcode_defined(b: u8) -> bool {
    ||| b <= 0x0b
    ||| 0x10 <= b <= 0x1d
    ||| b == 0x20
    ||| 0x30 <= b <= 0x4a
    ||| 0x50 <= b <= 0xa4
    ||| 0xf0 <= b <= 0xf5
    ||| b == 0xfa
    ||| b >= 0xfd
}

/// Length in bytes of the immediate operand that follows an opcode byte.
///
/// The thirty-two push opcodes `0x60..=0x7f` carry one to thirty-two
/// immediate bytes; every other byte value, defined or not, carries none.
pub open spec fn opcode_imm_len(b: u8) -> nat {
    if 0x60 <= b <= 0x7f {
        (b - 0x5f) as nat
    } else {
        0
    }
}

/// Stack arity of an opcode byte: how many operand-stack slots the
/// instruction pops, paired with how many it pushes.  Meaningful only for
/// defined byte values; gaps are mapped to `(0, 0)`.
pub open spec fn opcode_stack_io(b: u8) -> (nat, nat) {
    if b == 0x00 {
        (0, 0)
    } else if b <= 0x07 {
        (2, 1)
    } else if b <= 0x09 {
        (3, 1)
    } else if b <= 0x0b {
        (2, 1)
    } else if 0x10 <= b <= 0x14 {
        (2, 1)
    } else if b == 0x15 {
        (1, 1)
    } else if 0x16 <= b <= 0x18 {
        (2, 1)
    } else if b == 0x19 {
        (1, 1)
    } else if 0x1a <= b <= 0x1d {
        (2, 1)
    } else if b == 0x20 {
        (2, 1)
    } else if b == 0x30 {
        (0, 1)
    } else if b == 0x31 {
        (1, 1)
    } else if 0x32 <= b <= 0x34 {
        (0, 1)
    } else if b == 0x35 {
        (1, 1)
    } else if b == 0x36 {
        (0, 1)
    } else if b == 0x37 {
        (3, 0)
    } else if b == 0x38 {
        (0, 1)
    } else if b == 0x39 {
        (3, 0)
    } else if b == 0x3a {
        (0, 1)
    } else if b == 0x3b {
        (1, 1)
    } else if b == 0x3c {
        (4, 0)
    } else if b == 0x3d {
        (0, 1)
    } else if b == 0x3e {
        (3, 0)
    } else if b == 0x3f {
        (1, 1)
    } else if b == 0x40 {
        (1, 1)
    } else if 0x41 <= b <= 0x48 {
        (0, 1)
    } else if b == 0x49 {
        (1, 1)
    } else if b == 0x4a {
        (0, 1)
    } else if b == 0x50 {
        (1, 0)
    } else if b == 0x51 {
        (1, 1)
    } else if 0x52 <= b <= 0x53 {
        (2, 0)
    } else if b == 0x54 {
        (1, 1)
    } else if b == 0x55 {
        (2, 0)
    } else if b == 0x56 {
        (1, 0)
    } else if b == 0x57 {
        (2, 0)
    } else if 0x58 <= b <= 0x5a {
        (0, 1)
    } else if b == 0x5b {
        (0, 0)
    } else if b == 0x5c {
        (1, 1)
    } else if b == 0x5d {
        (2, 0)
    } else if b == 0x5e {
        (3, 0)
    } else if 0x5f <= b <= 0x7f {
        (0, 1)
    } else if 0x80 <= b <= 0x8f {
        // DUP1..DUP16: duplicate the n-th stack slot.
        ((b - 0x7f) as nat, (b - 0x7e) as nat)
    } else if 0x90 <= b <= 0x9f {
        // SWAP1..SWAP16: exchange the top with the (n+1)-th slot.
        ((b - 0x8e) as nat, (b - 0x8e) as nat)
    } else if 0xa0 <= b <= 0xa4 {
        // LOG0..LOG4: two memory operands plus n topics.
        ((b - 0x9e) as nat, 0)
    } else if b == 0xf0 {
        (3, 1)
    } else if 0xf1 <= b <= 0xf2 {
        (7, 1)
    } else if b == 0xf3 {
        (2, 0)
    } else if b == 0xf4 {
        (6, 1)
    } else if b == 0xf5 {
        (4, 1)
    } else if b == 0xfa {
        (6, 1)
    } else if b == 0xfd {
        (2, 0)
    } else if b == 0xfe {
        (0, 0)
    } else if b == 0xff {
        (1, 0)
    } else {
        (0, 0)
    }
}

/// Number of operand-stack slots an instruction pops.
pub open spec fn opcode_inputs(b: u8) -> nat {
    opcode_stack_io(b).0
}

/// Number of operand-stack slots an instruction pushes.
pub open spec fn opcode_outputs(b: u8) -> nat {
    opcode_stack_io(b).1
}

/// Net change an instruction makes to the operand-stack height:
/// outputs minus inputs.  May be negative.
pub open spec fn opcode_net_effect(b: u8) -> int {
    opcode_outputs(b) - opcode_inputs(b)
}

/// Every instruction pushes at most one slot net, and none pops more than
/// seventeen slots; the depth accumulator therefore moves by at most one
/// upward and seventeen downward per instruction.
pub proof fn lemma_net_effect_bounds(b: u8)
    ensures
        opcode_net_effect(b) <= 1,
        opcode_net_effect(b) >= -17,
{
}

/// Stack and operand metadata for one defined opcode.
#[derive(Clone, Copy, Debug, PartialEq, Eq, Structural)]
pub struct OpCodeInfo {
    /// Length in bytes of the immediate operand following the opcode byte.
    pub immediate_len: u8,
    /// Number of operand-stack slots the instruction pops.
    pub inputs: u8,
    /// Number of operand-stack slots the instruction pushes.
    pub outputs: u8,
}

impl OpCodeInfo {
    /// Net stack effect of the instruction: outputs minus inputs.
    pub fn io_diff(&self) -> (r: i16)
        ensures
            r as int == self.outputs - self.inputs,
    {
        self.outputs as i16 - self.inputs as i16
    }
}

/// One positioned instruction's opcode, identified by its byte value.
#[derive(Clone, Copy, Debug, PartialEq, Eq, Structural)]
pub struct OpCode {
    /// The raw opcode byte.
    pub byte: u8,
}

/// Executable lookup of the immediate-operand length for an opcode byte.
pub fn immediate_len_of(b: u8) -> (r: u8)
    ensures
        r as nat == opcode_imm_len(b),
{
    if 0x60 <= b && b <= 0x7f {
        b - 0x5f
    } else {
        0
    }
}

/// Executable lookup in the opcode table: the metadata of a defined opcode
/// byte, or `None` for a byte value with no assigned mnemonic.
pub fn opcode_info(b: u8) -> (r: Option<OpCodeInfo>)
    ensures
        r is Some <==> opcode_defined(b),
        r matches Some(info) ==> ({
            &&& info.immediate_len as nat == opcode_imm_len(b)
            &&& info.inputs as nat == opcode_inputs(b)
            &&& info.outputs as nat == opcode_outputs(b)
        }),
{
    let defined = b <= 0x0b || (0x10 <= b && b <= 0x1d) || b == 0x20 || (0x30 <= b && b <= 0x4a)
        || (0x50 <= b && b <= 0xa4) || (0xf0 <= b && b <= 0xf5) || b == 0xfa || b >= 0xfd;
    if !defined {
        return None;
    }
    let io: (u8, u8) = if b == 0x00 {
        (0, 0)
    } else if b <= 0x07 {
        (2, 1)
    } else if b <= 0x09 {
        (3, 1)
    } else if b <= 0x0b {
        (2, 1)
    } else if 0x10 <= b && b <= 0x14 {
        (2, 1)
    } else if b == 0x15 {
        (1, 1)
    } else if 0x16 <= b && b <= 0x18 {
        (2, 1)
    } else if b == 0x19 {
        (1, 1)
    } else if 0x1a <= b && b <= 0x1d {
        (2, 1)
    } else if b == 0x20 {
        (2, 1)
    } else if b == 0x30 {
        (0, 1)
    } else if b == 0x31 {
        (1, 1)
    } else if 0x32 <= b && b <= 0x34 {
        (0, 1)
    } else if b == 0x35 {
        (1, 1)
    } else if b == 0x36 {
        (0, 1)
    } else if b == 0x37 {
        (3, 0)
    } else if b == 0x38 {
        (0, 1)
    } else if b == 0x39 {
        (3, 0)
    } else if b == 0x3a {
        (0, 1)
    } else if b == 0x3b {
        (1, 1)
    } else if b == 0x3c {
        (4, 0)
    } else if b == 0x3d {
        (0, 1)
    } else if b == 0x3e {
        (3, 0)
    } else if b == 0x3f {
        (1, 1)
    } else if b == 0x40 {
        (1, 1)
    } else if 0x41 <= b && b <= 0x48 {
        (0, 1)
    } else if b == 0x49 {
        (1, 1)
    } else if b == 0x4a {
        (0, 1)
    } else if b == 0x50 {
        (1, 0)
    } else if b == 0x51 {
        (1, 1)
    } else if 0x52 <= b && b <= 0x53 {
        (2, 0)
    } else if b == 0x54 {
        (1, 1)
    } else if b == 0x55 {
        (2, 0)
    } else if b == 0x56 {
        (1, 0)
    } else if b == 0x57 {
        (2, 0)
    } else if 0x58 <= b && b <= 0x5a {
        (0, 1)
    } else if b == 0x5b {
        (0, 0)
    } else if b == 0x5c {
        (1, 1)
    } else if b == 0x5d {
        (2, 0)
    } else if b == 0x5e {
        (3, 0)
    } else if 0x5f <= b && b <= 0x7f {
        (0, 1)
    } else if 0x80 <= b && b <= 0x8f {
        (b - 0x7f, b - 0x7e)
    } else if 0x90 <= b && b <= 0x9f {
        (b - 0x8e, b - 0x8e)
    } else if 0xa0 <= b && b <= 0xa4 {
        (b - 0x9e, 0)
    } else if b == 0xf0 {
        (3, 1)
    } else if 0xf1 <= b && b <= 0xf2 {
        (7, 1)
    } else if b == 0xf3 {
        (2, 0)
    } else if b == 0xf4 {
        (6, 1)
    } else if b == 0xf5 {
        (4, 1)
    } else if b == 0xfa {
        (6, 1)
    } else if b == 0xfd {
        (2, 0)
    } else if b == 0xfe {
        (0, 0)
    } else {
        (1, 0)
    };
    Some(OpCodeInfo { immediate_len: immediate_len_of(b), inputs: io.0, outputs: io.1 })
}

impl OpCode {
    /// The raw opcode byte.
    pub fn get(self) -> (r: u8)
        ensures
            r == self.byte,
    {
        self.byte
    }

    /// Whether this opcode byte has an assigned mnemonic.
    pub fn is_defined(self) -> (r: bool)
        ensures
            r == opcode_defined(self.byte),
    {
        opcode_info(self.byte).is_some()
    }

    /// The canonical mnemonic of this opcode, or `"UNKNOWN"` for a byte
    /// value with no assigned mnemonic.
    pub fn mnemonic(self) -> (r: &'static str)
        ensures
            r@ == opcode_name(self.byte),
    {
        mnemonic_of(self.byte)
    }
}

} // verus!

pub use crate::opcode_names::{mnemonic_of, opcode_name};
