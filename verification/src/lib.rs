//! Static inspection of EVM bytecode: a linear disassembler that turns a raw
//! byte buffer into positioned opcodes, and a stack-effect analyzer that
//! derives aggregate statistics from the same buffer without executing it.

use vstd::prelude::*;

pub mod hexstr;
pub mod messages;
pub mod opcode;
pub mod opcode_names;
pub mod stats;
pub mod trace_marks;

pub use opcode::{OpCode, OpCodeInfo};
pub use stats::{compute_stats, Stats, StatsError};

use crate::messages::{hex_digit_str, spec_dec_digits, spec_hex_digit, usize_dec_string};
use crate::opcode::{immediate_len_of, opcode_imm_len};
use vstd::string::StringExecFns;

verus! {

/// Why a byte buffer could not be disassembled or analyzed.
#[derive(Debug)]
pub enum DisassemblyError {
    /// The byte sequence could not be framed as bytecode at all, or a full
    /// scan produced no instructions.
    InvalidBytecode(String),
    /// The input buffer was empty.
    EmptyBytecode,
    /// Statistics ran into an opcode byte with no assigned mnemonic; carries
    /// the byte offset of that instruction and the offending byte value.
    MalformedInstruction { position: usize, byte: u8 },
}

impl DisassemblyError {
    /// What a presentation layer shows for this error: the variant's
    /// description, with the byte position in decimal and the offending
    /// byte in two lower-case hexadecimal digits where they apply.
    pub open spec fn spec_message(self) -> Seq<char> {
        match self {
            DisassemblyError::InvalidBytecode(msg) => "Invalid bytecode: "@ + msg@,
            DisassemblyError::EmptyBytecode => "Bytecode is empty"@,
            DisassemblyError::MalformedInstruction { position, byte } => (
            "Malformed instruction at position "@ + spec_dec_digits(position as nat)
                + ": invalid opcode 0x"@ + seq![
                spec_hex_digit((byte / 16) as nat),
                spec_hex_digit((byte % 16) as nat),
            ]),
        }
    }

    /// A human-readable description of the error.
    pub fn message(&self) -> (r: String)
        ensures
            r@ == self.spec_message(),
    {
        match self {
            DisassemblyError::InvalidBytecode(msg) => {
                let r = String::from_str("Invalid bytecode: ").concat(msg.as_str());
                proof {
                    assert(r@ =~= self.spec_message());
                }
                r
            },
            DisassemblyError::EmptyBytecode => String::from_str("Bytecode is empty"),
            DisassemblyError::MalformedInstruction { position, byte } => {
                let pos = usize_dec_string(*position);
                let hi = hex_digit_str(*byte / 16);
                let lo = hex_digit_str(*byte % 16);
                let r = String::from_str("Malformed instruction at position ").concat(
                    pos.as_str(),
                ).concat(": invalid opcode 0x").concat(hi).concat(lo);
                proof {
                    assert(r@ =~= self.spec_message());
                }
                r
            },
        }
    }
}

/// The offset of the instruction following the one at offset `i`: one past
/// the opcode byte plus its declared immediate length, clamped to the end of
/// the buffer when the immediate would run past it (a truncated trailing
/// push absorbs whatever bytes remain).
pub open spec fn next_offset(bytes: Seq<u8>, i: nat) -> nat
    recommends
        i < bytes.len(),
{
    if i + 1 + opcode_imm_len(bytes[i as int]) <= bytes.len() {
        (i + 1 + opcode_imm_len(bytes[i as int])) as nat
    } else {
        bytes.len()
    }
}

/// The offsets of the instructions a linear scan of `bytes` finds from
/// offset `i` onward: the byte at the current offset is an instruction, and
/// the scan advances past its immediate operand.
pub open spec fn decode_from(bytes: Seq<u8>, i: nat) -> Seq<nat>
    decreases bytes.len() - i,
{
    if i >= bytes.len() {
        Seq::empty()
    } else {
        seq![i] + decode_from(bytes, next_offset(bytes, i))
    }
}

/// The offsets of all instructions in `bytes`, in increasing order.
pub open spec fn spec_decode(bytes: Seq<u8>) -> Seq<nat> {
    decode_from(bytes, 0)
}

/// The offsets of a sequence of positioned instructions.
pub open spec fn offsets_of(ops: Seq<(usize, OpCode)>) -> Seq<nat> {
    ops.map_values(|p: (usize, OpCode)| p.0 as nat)
}

/// How a linear disassembly lays its instructions out; together these
/// clauses pin the offset structure of every successful decode:
/// a non-empty buffer decodes to a non-empty instruction sequence starting
/// at offset zero; each later instruction begins exactly one byte plus the
/// declared immediate length after its predecessor, so offsets strictly
/// increase and instructions never overlap; and the final instruction's
/// opcode byte and immediate reach to the end of the buffer or past it, a
/// truncated trailing immediate being absorbed without a further
/// instruction.
pub proof fn lemma_decode_offsets(bytes: Seq<u8>)
    ensures
        bytes.len() == 0 ==> spec_decode(bytes).len() == 0,
        bytes.len() > 0 ==> spec_decode(bytes).len() > 0 && spec_decode(bytes)[0] == 0,
        forall|k: int|
            0 <= k < spec_decode(bytes).len() ==> #[trigger] spec_decode(bytes)[k] < bytes.len(),
        forall|k: int|
            0 <= k < spec_decode(bytes).len() - 1 ==> #[trigger] spec_decode(bytes)[k + 1]
                == spec_decode(bytes)[k] + 1 + opcode_imm_len(bytes[spec_decode(bytes)[k] as int]),
        forall|k1: int, k2: int|
            0 <= k1 < k2 < spec_decode(bytes).len() ==> #[trigger] spec_decode(bytes)[k1]
                < #[trigger] spec_decode(bytes)[k2],
        spec_decode(bytes).len() > 0 ==> spec_decode(bytes).last() + 1 + opcode_imm_len(
            bytes[spec_decode(bytes).last() as int],
        ) >= bytes.len(),
{
    lemma_decode_from_structure(bytes, 0);
}

/// The structure clauses of [`lemma_decode_offsets`], generalized to a scan
/// that starts at offset `i`.
proof fn lemma_decode_from_structure(bytes: Seq<u8>, i: nat)
    ensures
        i >= bytes.len() ==> decode_from(bytes, i).len() == 0,
        i < bytes.len() ==> decode_from(bytes, i).len() > 0 && decode_from(bytes, i)[0] == i,
        forall|k: int|
            0 <= k < decode_from(bytes, i).len() ==> i <= #[trigger] decode_from(bytes, i)[k]
                < bytes.len(),
        forall|k: int|
            0 <= k < decode_from(bytes, i).len() - 1 ==> #[trigger] decode_from(bytes, i)[k + 1]
                == decode_from(bytes, i)[k] + 1 + opcode_imm_len(
                bytes[decode_from(bytes, i)[k] as int],
            ),
        forall|k1: int, k2: int|
            0 <= k1 < k2 < decode_from(bytes, i).len() ==> #[trigger] decode_from(bytes, i)[k1]
                < #[trigger] decode_from(bytes, i)[k2],
        decode_from(bytes, i).len() > 0 ==> decode_from(bytes, i).last() + 1 + opcode_imm_len(
            bytes[decode_from(bytes, i).last() as int],
        ) >= bytes.len(),
    decreases bytes.len() - i,
{
    if i < bytes.len() {
        let next = next_offset(bytes, i);
        let s = decode_from(bytes, i);
        let tail = decode_from(bytes, next);
        lemma_decode_from_structure(bytes, next);
        assert(s == seq![i] + tail);
        assert(i < next <= bytes.len());
        assert forall|k: int| 0 <= k < s.len() implies i <= #[trigger] s[k] < bytes.len() by {
            if k == 0 {
                assert(s[k] == i);
            } else {
                assert(s[k] == tail[k - 1]);
                assert(next <= tail[k - 1] < bytes.len());
            }
        }
        if tail.len() == 0 {
            // The instruction at `i` is the last one: the scan stopped
            // because its immediate reached the end of the buffer.
            assert(s.len() == 1);
            assert(s.last() == i);
            assert(next >= bytes.len());
        } else {
            assert(tail[0] == next);
            assert(next < bytes.len());
            assert(next == i + 1 + opcode_imm_len(bytes[i as int]));
            assert(s[s.len() - 1] == tail[tail.len() - 1]);
            assert(s.last() == tail.last());
            assert(tail.last() + 1 + opcode_imm_len(bytes[tail.last() as int]) >= bytes.len());
        }
        assert forall|k1: int, k2: int|
            0 <= k1 < k2 < s.len() implies #[trigger] s[k1] < #[trigger] s[k2] by {
            if k1 == 0 {
                assert(s[k1] == i);
                assert(s[k2] == tail[k2 - 1]);
                assert(next <= tail[k2 - 1]);
            } else {
                assert(s[k1] == tail[k1 - 1]);
                assert(s[k2] == tail[k2 - 1]);
            }
        }
        assert forall|k: int|
            0 <= k < s.len() - 1 implies #[trigger] s[k + 1] == s[k] + 1 + opcode_imm_len(
            bytes[s[k] as int],
        ) by {
            if k == 0 {
                assert(s[0] == i);
                assert(s[1] == tail[0]);
                assert(tail[0] == next);
                assert(next < bytes.len());
                assert(next == i + 1 + opcode_imm_len(bytes[i as int]));
            } else {
                let kk = k - 1;
                assert(s[k] == tail[kk]);
                assert(s[k + 1] == tail[kk + 1]);
                assert(tail[kk + 1] == tail[kk] + 1 + opcode_imm_len(bytes[tail[kk] as int]));
            }
        }
    }
}

/// Disassembles EVM bytecode into a sequence of opcodes with their byte
/// offsets.
///
/// The scan starts at offset zero; each step records the byte at the
/// current offset as an instruction — whether or not it has an assigned
/// mnemonic — and skips the immediate operand its table entry declares.  A
/// declared immediate that would run past the end of the buffer is
/// truncated silently: the remaining bytes are absorbed and the scan ends.
///
/// Returns the positioned instructions in strictly increasing offset order,
/// or `EmptyBytecode` exactly when the buffer is empty.
pub fn disassemble(bytes: &[u8]) -> (r: Result<Vec<(usize, OpCode)>, DisassemblyError>)
    ensures
        bytes@.len() == 0 ==> (r matches Err(e) && e is EmptyBytecode),
        bytes@.len() > 0 ==> (r matches Ok(ops) && {
            &&& offsets_of(ops@) == spec_decode(bytes@)
            &&& ops@.len() == spec_decode(bytes@).len()
            &&& ops@.len() > 0
            &&& forall|k: int|
                0 <= k < ops@.len() ==> #[trigger] ops@[k].0 < bytes@.len() && ops@[k].1.byte
                    == bytes@[ops@[k].0 as int]
        }),
{
    if bytes.len() == 0 {
        return Err(DisassemblyError::EmptyBytecode);
    }
    let mut result: Vec<(usize, OpCode)> = Vec::new();
    let mut i: usize = 0;
    while i < bytes.len()
        invariant
            i <= bytes@.len(),
            spec_decode(bytes@) == offsets_of(result@) + decode_from(bytes@, i as nat),
            forall|k: int|
                0 <= k < result@.len() ==> #[trigger] result@[k].0 < bytes@.len()
                    && result@[k].1.byte == bytes@[result@[k].0 as int],
        decreases bytes@.len() - i,
    {
        let b = bytes[i];
        let ghost prev = result@;
        result.push((i, OpCode { byte: b }));
        proof {
            assert(offsets_of(result@) =~= offsets_of(prev).push(i as nat));
            assert(offsets_of(result@) + decode_from(bytes@, next_offset(bytes@, i as nat))
                =~= offsets_of(prev) + decode_from(bytes@, i as nat));
        }
        let imm = immediate_len_of(b) as usize;
        let after_opcode = i + 1;
        if imm <= bytes.len() - after_opcode {
            i = after_opcode + imm;
        } else {
            i = bytes.len();
        }
    }
    if result.len() == 0 {
        // Defensive guard: unreachable, since a non-empty buffer always
        // yields at least the instruction at offset zero.
        return Err(
            DisassemblyError::InvalidBytecode(String::from_str("No valid opcodes found")),
        );
    }
    Ok(result)
}

/// Computes aggregate statistics for the given bytecode: its byte length,
/// its instruction count, and the peak simulated operand-stack depth of a
/// single linear pass.
///
/// Fails with `EmptyBytecode` exactly when the buffer is empty, and with
/// `MalformedInstruction` — carrying the offset and value of the offending
/// byte — exactly when the scan reaches an instruction whose opcode byte
/// has no assigned mnemonic.
pub fn get_stats(bytes: &[u8]) -> (r: Result<Stats, DisassemblyError>)
    ensures
        bytes@.len() == 0 ==> (r matches Err(e) && e is EmptyBytecode),
        bytes@.len() > 0 ==> (stats::spec_stack_result(bytes@) matches Ok(p) ==> (r matches Ok(st)
            && st.byte_len == bytes@.len() && st.opcode_count == spec_decode(bytes@).len()
            && st.max_stack_depth == p)),
        bytes@.len() > 0 ==> (stats::spec_stack_result(bytes@) matches Err(pb) ==> (r matches Err(
            e,
        ) && e matches DisassemblyError::MalformedInstruction { position, byte } && position
            == pb.0 && byte == pb.1)),
{
    if bytes.len() == 0 {
        return Err(DisassemblyError::EmptyBytecode);
    }
    proof {
        stats::lemma_walk_err_position(bytes@, 0, 0, 0);
    }
    match compute_stats(bytes) {
        Ok(st) => Ok(st),
        Err(StatsError::UnknownOpcode { position, byte }) => Err(
            DisassemblyError::MalformedInstruction { position, byte },
        ),
    }
}

} // verus!
