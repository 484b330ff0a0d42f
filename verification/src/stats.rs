//! The stack-effect analyzer: walks the decoded instruction sequence once,
//! in program order, accumulating the net stack effect of each instruction,
//! and reports the byte length, the instruction count and the peak simulated
//! operand-stack depth — or the position and value of the first opcode byte
//! with no assigned mnemonic.

use vstd::prelude::*;
use vstd::string::StringExecFns;

use crate::messages::{hex_digit_str, spec_hex_digit};
use crate::opcode::{
    immediate_len_of, lemma_net_effect_bounds, opcode_defined, opcode_imm_len, opcode_info,
    opcode_net_effect,
};
use crate::{decode_from, next_offset, spec_decode};

verus! {

/// Aggregate statistics of one byte buffer of bytecode.
#[derive(Clone, Copy, Debug, PartialEq, Eq, Structural)]
pub struct Stats {
    /// Total length of the input buffer in bytes.
    pub byte_len: usize,
    /// Number of instructions a full linear decode finds.
    pub opcode_count: usize,
    /// Peak value reached by the running stack-effect accumulator over a
    /// single linear pass, floored at zero.
    pub max_stack_depth: usize,
}

/// Why statistics could not be computed.
#[derive(Clone, Copy, Debug, PartialEq, Eq, Structural)]
pub enum StatsError {
    /// The scan reached an instruction whose opcode byte has no assigned
    /// mnemonic; carries the byte offset of that instruction and the byte.
    UnknownOpcode { position: usize, byte: u8 },
}

/// The linear stack-effect walk from offset `i` onward, with the running
/// depth accumulator and the peak seen so far: each defined instruction
/// adds its net stack effect to the depth, the peak keeps the maximum, and
/// the walk stops at the first instruction whose opcode byte is undefined,
/// reporting its offset and byte value.
pub open spec fn stack_walk_from(bytes: Seq<u8>, i: nat, depth: int, peak: int) -> Result<
    int,
    (nat, u8),
>
    decreases bytes.len() - i,
{
    if i >= bytes.len() {
        Ok(peak)
    } else {
        let b = bytes[i as int];
        if !opcode_defined(b) {
            Err((i, b))
        } else {
            let d = depth + opcode_net_effect(b);
            let p = if d > peak {
                d
            } else {
                peak
            };
            stack_walk_from(bytes, next_offset(bytes, i), d, p)
        }
    }
}

/// The outcome of the full stack-effect walk over `bytes`: the final peak
/// depth, or the offset and value of the first undefined opcode byte.
pub open spec fn spec_stack_result(bytes: Seq<u8>) -> Result<int, (nat, u8)> {
    stack_walk_from(bytes, 0, 0, 0)
}

/// A failed walk reports the first undefined instruction faithfully: the
/// offset it carries lies within the buffer from the walk's starting point
/// on, and the byte it carries is the buffer's byte at that offset, which
/// has no assigned mnemonic.
pub proof fn lemma_walk_err_position(bytes: Seq<u8>, i: nat, depth: int, peak: int)
    ensures
        stack_walk_from(bytes, i, depth, peak) matches Err(pb) ==> i <= pb.0 < bytes.len() && pb.1
            == bytes[pb.0 as int] && !opcode_defined(pb.1),
    decreases bytes.len() - i,
{
    if i < bytes.len() {
        let b = bytes[i as int];
        if opcode_defined(b) {
            let d = depth + opcode_net_effect(b);
            let p = if d > peak {
                d
            } else {
                peak
            };
            lemma_walk_err_position(bytes, next_offset(bytes, i), d, p);
        }
    }
}

/// Total length of the input buffer in bytes.
pub fn get_byte_len(bytes: &[u8]) -> (r: usize)
    ensures
        r == bytes@.len(),
{
    bytes.len()
}

/// Number of instructions a full linear decode of `bytes` finds.
pub fn compute_opcode_count(bytes: &[u8]) -> (r: usize)
    ensures
        r == spec_decode(bytes@).len(),
{
    let mut count: usize = 0;
    let mut i: usize = 0;
    while i < bytes.len()
        invariant
            i <= bytes@.len(),
            count <= i,
            count + decode_from(bytes@, i as nat).len() == spec_decode(bytes@).len(),
        decreases bytes@.len() - i,
    {
        let b = bytes[i];
        count = count + 1;
        let imm = immediate_len_of(b) as usize;
        let after_opcode = i + 1;
        if imm <= bytes.len() - after_opcode {
            i = after_opcode + imm;
        } else {
            i = bytes.len();
        }
    }
    count
}

/// Peak simulated operand-stack depth of a single linear pass over `bytes`.
///
/// Walks the decoded instructions in program order, adding each defined
/// instruction's net stack effect (outputs minus inputs) to a running
/// signed accumulator and tracking the maximum reached.  Fails at the first
/// instruction whose opcode byte has no assigned mnemonic, reporting that
/// instruction's byte offset and byte value.
pub fn compute_max_stack_depth(bytes: &[u8]) -> (r: Result<usize, StatsError>)
    ensures
        spec_stack_result(bytes@) matches Ok(p) ==> (r matches Ok(d) && d == p),
        spec_stack_result(bytes@) matches Err(pb) ==> (r matches Err(e)
            && e == (StatsError::UnknownOpcode { position: pb.0 as usize, byte: pb.1 })),
{
    let mut depth: i128 = 0;
    let mut peak: i128 = 0;
    let mut i: usize = 0;
    while i < bytes.len()
        invariant
            i <= bytes@.len(),
            depth <= peak <= i,
            0 <= peak,
            -17 * (i as int) <= depth,
            spec_stack_result(bytes@) == stack_walk_from(
                bytes@,
                i as nat,
                depth as int,
                peak as int,
            ),
        decreases bytes@.len() - i,
    {
        let b = bytes[i];
        match opcode_info(b) {
            None => {
                return Err(StatsError::UnknownOpcode { position: i, byte: b });
            },
            Some(info) => {
                proof {
                    lemma_net_effect_bounds(b);
                }
                depth = depth + info.io_diff() as i128;
                if depth > peak {
                    peak = depth;
                }
            },
        }
        let imm = immediate_len_of(b) as usize;
        let after_opcode = i + 1;
        if imm <= bytes.len() - after_opcode {
            i = after_opcode + imm;
        } else {
            i = bytes.len();
        }
    }
    Ok(peak as usize)
}

/// Computes all statistics of `bytes` in one call: byte length, instruction
/// count, and peak simulated stack depth.  Fails, returning no partial
/// record, exactly when the stack walk meets an opcode byte with no
/// assigned mnemonic.
pub fn compute_stats(bytes: &[u8]) -> (r: Result<Stats, StatsError>)
    ensures
        spec_stack_result(bytes@) matches Ok(p) ==> (r matches Ok(st) && st.byte_len
            == bytes@.len() && st.opcode_count == spec_decode(bytes@).len() && st.max_stack_depth
            == p),
        spec_stack_result(bytes@) matches Err(pb) ==> (r matches Err(e)
            && e == (StatsError::UnknownOpcode { position: pb.0 as usize, byte: pb.1 })),
{
    let opcode_count = compute_opcode_count(bytes);
    let byte_len = get_byte_len(bytes);
    let max_stack_depth = match compute_max_stack_depth(bytes) {
        Ok(d) => d,
        Err(e) => {
            return Err(e);
        },
    };
    Ok(Stats { byte_len, opcode_count, max_stack_depth })
}

/// The message a presentation layer shows for an unknown-opcode failure:
/// the offending byte in two lower-case hexadecimal digits.
pub open spec fn unknown_opcode_message(byte: u8) -> Seq<char> {
    "Unknown opcode: 0x"@ + seq![
        spec_hex_digit((byte / 16) as nat),
        spec_hex_digit((byte % 16) as nat),
    ]
}

impl StatsError {
    /// The offending byte value this error reports.
    pub open spec fn spec_byte(self) -> u8 {
        match self {
            StatsError::UnknownOpcode { position: _, byte } => byte,
        }
    }

    /// A human-readable description of the error, naming the offending byte
    /// in two lower-case hexadecimal digits.
    pub fn message(&self) -> (r: String)
        ensures
            r@ == unknown_opcode_message(self.spec_byte()),
    {
        match *self {
            StatsError::UnknownOpcode { position: _, byte } => {
                let hi = hex_digit_str(byte / 16);
                let lo = hex_digit_str(byte % 16);
                let msg = String::from_str("Unknown opcode: 0x").concat(hi).concat(lo);
                proof {
                    assert(msg@ =~= unknown_opcode_message(byte));
                }
                msg
            },
        }
    }
}

/// A buffer of `k` push-one/immediate pairs closed by a stop byte: the
/// shape whose statistics the law below pins down.
pub open spec fn is_push1_run(bytes: Seq<u8>, k: nat) -> bool {
    &&& bytes.len() == 2 * k + 1
    &&& forall|o: int| 0 <= o < 2 * k && o % 2 == 0 ==> #[trigger] bytes[o] == 0x60
    &&& bytes[2 * k as int] == 0x00
}

/// The walk over the tail of a push-one run, starting at the `j`-th pair
/// with `j` values already on the simulated stack, pushes one value per
/// remaining pair and ends at the stop byte with peak `k`.
proof fn lemma_push1_run_from(bytes: Seq<u8>, k: nat, j: nat)
    requires
        is_push1_run(bytes, k),
        j <= k,
    ensures
        stack_walk_from(bytes, 2 * j, j as int, j as int) == Ok::<int, (nat, u8)>(k as int),
        decode_from(bytes, 2 * j).len() == k - j + 1,
    decreases k - j,
{
    if j == k {
        assert(bytes[2 * j as int] == 0x00);
        assert(opcode_defined(0x00));
        assert(opcode_net_effect(0x00) == 0);
        assert(opcode_imm_len(0x00) == 0);
        assert(next_offset(bytes, 2 * j) == bytes.len());
        assert(stack_walk_from(bytes, bytes.len(), j as int, j as int) == Ok::<int, (nat, u8)>(
            j as int,
        ));
        assert(stack_walk_from(bytes, 2 * j, j as int, j as int) == Ok::<int, (nat, u8)>(
            j as int,
        ));
        assert(decode_from(bytes, bytes.len()) =~= Seq::<nat>::empty());
        assert(decode_from(bytes, 2 * j) == seq![2 * j] + decode_from(bytes, bytes.len()));
    } else {
        assert(bytes[2 * j as int] == 0x60);
        assert(opcode_defined(0x60));
        assert(opcode_net_effect(0x60) == 1);
        assert(opcode_imm_len(0x60) == 1);
        assert(2 * j + 2 <= bytes.len());
        assert(next_offset(bytes, 2 * j) == 2 * (j + 1));
        lemma_push1_run_from(bytes, k, j + 1);
        assert(stack_walk_from(bytes, 2 * j, j as int, j as int) == stack_walk_from(
            bytes,
            2 * (j + 1),
            (j + 1) as int,
            (j + 1) as int,
        ));
        assert(decode_from(bytes, 2 * j) == seq![2 * j] + decode_from(bytes, 2 * (j + 1)));
    }
}

/// For a buffer of `k` consecutive push-one/immediate pairs followed by a
/// stop byte, the peak simulated stack depth is exactly `k` and the decode
/// finds exactly `k + 1` instructions in `2 * k + 1` bytes.
pub proof fn lemma_push1_run_stats(bytes: Seq<u8>, k: nat)
    requires
        is_push1_run(bytes, k),
    ensures
        spec_stack_result(bytes) == Ok::<int, (nat, u8)>(k as int),
        spec_decode(bytes).len() == k + 1,
        bytes.len() == 2 * k + 1,
{
    lemma_push1_run_from(bytes, k, 0);
}

} // verus!
