//! The mnemonic half of the opcode table: the canonical name of each
//! defined opcode byte, with `"UNKNOWN"` standing for the gaps.

use vstd::prelude::*;

verus! {

/// The canonical mnemonic of an opcode byte, as a character sequence;
/// `"UNKNOWN"` for byte values with no assigned mnemonic.
pub open spec fn opcode_name(b: u8) -> Seq<char> {
    if b == 0x00 {
        "STOP"@
    } else if b == 0x01 {
        "ADD"@
    } else if b == 0x02 {
        "MUL"@
    } else if b == 0x03 {
        "SUB"@
    } else if b == 0x04 {
        "DIV"@
    } else if b == 0x05 {
        "SDIV"@
    } else if b == 0x06 {
        "MOD"@
    } else if b == 0x07 {
        "SMOD"@
    } else if b == 0x08 {
        "ADDMOD"@
    } else if b == 0x09 {
        "MULMOD"@
    } else if b == 0x0a {
        "EXP"@
    } else if b == 0x0b {
        "SIGNEXTEND"@
    } else if b == 0x10 {
        "LT"@
    } else if b == 0x11 {
        "GT"@
    } else if b == 0x12 {
        "SLT"@
    } else if b == 0x13 {
        "SGT"@
    } else if b == 0x14 {
        "EQ"@
    } else if b == 0x15 {
        "ISZERO"@
    } else if b == 0x16 {
        "AND"@
    } else if b == 0x17 {
        "OR"@
    } else if b == 0x18 {
        "XOR"@
    } else if b == 0x19 {
        "NOT"@
    } else if b == 0x1a {
        "BYTE"@
    } else if b == 0x1b {
        "SHL"@
    } else if b == 0x1c {
        "SHR"@
    } else if b == 0x1d {
        "SAR"@
    } else if b == 0x20 {
        "KECCAK256"@
    } else if b == 0x30 {
        "ADDRESS"@
    } else if b == 0x31 {
        "BALANCE"@
    } else if b == 0x32 {
        "ORIGIN"@
    } else if b == 0x33 {
        "CALLER"@
    } else if b == 0x34 {
        "CALLVALUE"@
    } else if b == 0x35 {
        "CALLDATALOAD"@
    } else if b == 0x36 {
        "CALLDATASIZE"@
    } else if b == 0x37 {
        "CALLDATACOPY"@
    } else if b == 0x38 {
        "CODESIZE"@
    } else if b == 0x39 {
        "CODECOPY"@
    } else if b == 0x3a {
        "GASPRICE"@
    } else if b == 0x3b {
        "EXTCODESIZE"@
    } else if b == 0x3c {
        "EXTCODECOPY"@
    } else if b == 0x3d {
        "RETURNDATASIZE"@
    } else if b == 0x3e {
        "RETURNDATACOPY"@
    } else if b == 0x3f {
        "EXTCODEHASH"@
    } else if b == 0x40 {
        "BLOCKHASH"@
    } else if b == 0x41 {
        "COINBASE"@
    } else if b == 0x42 {
        "TIMESTAMP"@
    } else if b == 0x43 {
        "NUMBER"@
    } else if b == 0x44 {
        "DIFFICULTY"@
    } else if b == 0x45 {
        "GASLIMIT"@
    } else if b == 0x46 {
        "CHAINID"@
    } else if b == 0x47 {
        "SELFBALANCE"@
    } else if b == 0x48 {
        "BASEFEE"@
    } else if b == 0x49 {
        "BLOBHASH"@
    } else if b == 0x4a {
        "BLOBBASEFEE"@
    } else if b == 0x50 {
        "POP"@
    } else if b == 0x51 {
        "MLOAD"@
    } else if b == 0x52 {
        "MSTORE"@
    } else if b == 0x53 {
        "MSTORE8"@
    } else if b == 0x54 {
        "SLOAD"@
    } else if b == 0x55 {
        "SSTORE"@
    } else if b == 0x56 {
        "JUMP"@
    } else if b == 0x57 {
        "JUMPI"@
    } else if b == 0x58 {
        "PC"@
    } else if b == 0x59 {
        "MSIZE"@
    } else if b == 0x5a {
        "GAS"@
    } else if b == 0x5b {
        "JUMPDEST"@
    } else if b == 0x5c {
        "TLOAD"@
    } else if b == 0x5d {
        "TSTORE"@
    } else if b == 0x5e {
        "MCOPY"@
    } else if b == 0x5f {
        "PUSH0"@
    } else if b == 0x60 {
        "PUSH1"@
    } else if b == 0x61 {
        "PUSH2"@
    } else if b == 0x62 {
        "PUSH3"@
    } else if b == 0x63 {
        "PUSH4"@
    } else if b == 0x64 {
        "PUSH5"@
    } else if b == 0x65 {
        "PUSH6"@
    } else if b == 0x66 {
        "PUSH7"@
    } else if b == 0x67 {
        "PUSH8"@
    } else if b == 0x68 {
        "PUSH9"@
    } else if b == 0x69 {
        "PUSH10"@
    } else if b == 0x6a {
        "PUSH11"@
    } else if b == 0x6b {
        "PUSH12"@
    } else if b == 0x6c {
        "PUSH13"@
    } else if b == 0x6d {
        "PUSH14"@
    } else if b == 0x6e {
        "PUSH15"@
    } else if b == 0x6f {
        "PUSH16"@
    } else if b == 0x70 {
        "PUSH17"@
    } else if b == 0x71 {
        "PUSH18"@
    } else if b == 0x72 {
        "PUSH19"@
    } else if b == 0x73 {
        "PUSH20"@
    } else if b == 0x74 {
        "PUSH21"@
    } else if b == 0x75 {
        "PUSH22"@
    } else if b == 0x76 {
        "PUSH23"@
    } else if b == 0x77 {
        "PUSH24"@
    } else if b == 0x78 {
        "PUSH25"@
    } else if b == 0x79 {
        "PUSH26"@
    } else if b == 0x7a {
        "PUSH27"@
    } else if b == 0x7b {
        "PUSH28"@
    } else if b == 0x7c {
        "PUSH29"@
    } else if b == 0x7d {
        "PUSH30"@
    } else if b == 0x7e {
        "PUSH31"@
    } else if b == 0x7f {
        "PUSH32"@
    } else if b == 0x80 {
        "DUP1"@
    } else if b == 0x81 {
        "DUP2"@
    } else if b == 0x82 {
        "DUP3"@
    } else if b == 0x83 {
        "DUP4"@
    } else if b == 0x84 {
        "DUP5"@
    } else if b == 0x85 {
        "DUP6"@
    } else if b == 0x86 {
        "DUP7"@
    } else if b == 0x87 {
        "DUP8"@
    } else if b == 0x88 {
        "DUP9"@
    } else if b == 0x89 {
        "DUP10"@
    } else if b == 0x8a {
        "DUP11"@
    } else if b == 0x8b {
        "DUP12"@
    } else if b == 0x8c {
        "DUP13"@
    } else if b == 0x8d {
        "DUP14"@
    } else if b == 0x8e {
        "DUP15"@
    } else if b == 0x8f {
        "DUP16"@
    } else if b == 0x90 {
        "SWAP1"@
    } else if b == 0x91 {
        "SWAP2"@
    } else if b == 0x92 {
        "SWAP3"@
    } else if b == 0x93 {
        "SWAP4"@
    } else if b == 0x94 {
        "SWAP5"@
    } else if b == 0x95 {
        "SWAP6"@
    } else if b == 0x96 {
        "SWAP7"@
    } else if b == 0x97 {
        "SWAP8"@
    } else if b == 0x98 {
        "SWAP9"@
    } else if b == 0x99 {
        "SWAP10"@
    } else if b == 0x9a {
        "SWAP11"@
    } else if b == 0x9b {
        "SWAP12"@
    } else if b == 0x9c {
        "SWAP13"@
    } else if b == 0x9d {
        "SWAP14"@
    } else if b == 0x9e {
        "SWAP15"@
    } else if b == 0x9f {
        "SWAP16"@
    } else if b == 0xa0 {
        "LOG0"@
    } else if b == 0xa1 {
        "LOG1"@
    } else if b == 0xa2 {
        "LOG2"@
    } else if b == 0xa3 {
        "LOG3"@
    } else if b == 0xa4 {
        "LOG4"@
    } else if b == 0xf0 {
        "CREATE"@
    } else if b == 0xf1 {
        "CALL"@
    } else if b == 0xf2 {
        "CALLCODE"@
    } else if b == 0xf3 {
        "RETURN"@
    } else if b == 0xf4 {
        "DELEGATECALL"@
    } else if b == 0xf5 {
        "CREATE2"@
    } else if b == 0xfa {
        "STATICCALL"@
    } else if b == 0xfd {
        "REVERT"@
    } else if b == 0xfe {
        "INVALID"@
    } else if b == 0xff {
        "SELFDESTRUCT"@
    } else {
        "UNKNOWN"@
    }
}

/// Executable lookup of the canonical mnemonic for an opcode byte.
pub fn mnemonic_of(b: u8) -> (r: &'static str)
    ensures
        r@ == opcode_name(b),
{
    if b == 0x00 {
        "STOP"
    } else if b == 0x01 {
        "ADD"
    } else if b == 0x02 {
        "MUL"
    } else if b == 0x03 {
        "SUB"
    } else if b == 0x04 {
        "DIV"
    } else if b == 0x05 {
        "SDIV"
    } else if b == 0x06 {
        "MOD"
    } else if b == 0x07 {
        "SMOD"
    } else if b == 0x08 {
        "ADDMOD"
    } else if b == 0x09 {
        "MULMOD"
    } else if b == 0x0a {
        "EXP"
    } else if b == 0x0b {
        "SIGNEXTEND"
    } else if b == 0x10 {
        "LT"
    } else if b == 0x11 {
        "GT"
    } else if b == 0x12 {
        "SLT"
    } else if b == 0x13 {
        "SGT"
    } else if b == 0x14 {
        "EQ"
    } else if b == 0x15 {
        "ISZERO"
    } else if b == 0x16 {
        "AND"
    } else if b == 0x17 {
        "OR"
    } else if b == 0x18 {
        "XOR"
    } else if b == 0x19 {
        "NOT"
    } else if b == 0x1a {
        "BYTE"
    } else if b == 0x1b {
        "SHL"
    } else if b == 0x1c {
        "SHR"
    } else if b == 0x1d {
        "SAR"
    } else if b == 0x20 {
        "KECCAK256"
    } else if b == 0x30 {
        "ADDRESS"
    } else if b == 0x31 {
        "BALANCE"
    } else if b == 0x32 {
        "ORIGIN"
    } else if b == 0x33 {
        "CALLER"
    } else if b == 0x34 {
        "CALLVALUE"
    } else if b == 0x35 {
        "CALLDATALOAD"
    } else if b == 0x36 {
        "CALLDATASIZE"
    } else if b == 0x37 {
        "CALLDATACOPY"
    } else if b == 0x38 {
        "CODESIZE"
    } else if b == 0x39 {
        "CODECOPY"
    } else if b == 0x3a {
        "GASPRICE"
    } else if b == 0x3b {
        "EXTCODESIZE"
    } else if b == 0x3c {
        "EXTCODECOPY"
    } else if b == 0x3d {
        "RETURNDATASIZE"
    } else if b == 0x3e {
        "RETURNDATACOPY"
    } else if b == 0x3f {
        "EXTCODEHASH"
    } else if b == 0x40 {
        "BLOCKHASH"
    } else if b == 0x41 {
        "COINBASE"
    } else if b == 0x42 {
        "TIMESTAMP"
    } else if b == 0x43 {
        "NUMBER"
    } else if b == 0x44 {
        "DIFFICULTY"
    } else if b == 0x45 {
        "GASLIMIT"
    } else if b == 0x46 {
        "CHAINID"
    } else if b == 0x47 {
        "SELFBALANCE"
    } else if b == 0x48 {
        "BASEFEE"
    } else if b == 0x49 {
        "BLOBHASH"
    } else if b == 0x4a {
        "BLOBBASEFEE"
    } else if b == 0x50 {
        "POP"
    } else if b == 0x51 {
        "MLOAD"
    } else if b == 0x52 {
        "MSTORE"
    } else if b == 0x53 {
        "MSTORE8"
    } else if b == 0x54 {
        "SLOAD"
    } else if b == 0x55 {
        "SSTORE"
    } else if b == 0x56 {
        "JUMP"
    } else if b == 0x57 {
        "JUMPI"
    } else if b == 0x58 {
        "PC"
    } else if b == 0x59 {
        "MSIZE"
    } else if b == 0x5a {
        "GAS"
    } else if b == 0x5b {
        "JUMPDEST"
    } else if b == 0x5c {
        "TLOAD"
    } else if b == 0x5d {
        "TSTORE"
    } else if b == 0x5e {
        "MCOPY"
    } else if b == 0x5f {
        "PUSH0"
    } else if b == 0x60 {
        "PUSH1"
    } else if b == 0x61 {
        "PUSH2"
    } else if b == 0x62 {
        "PUSH3"
    } else if b == 0x63 {
        "PUSH4"
    } else if b == 0x64 {
        "PUSH5"
    } else if b == 0x65 {
        "PUSH6"
    } else if b == 0x66 {
        "PUSH7"
    } else if b == 0x67 {
        "PUSH8"
    } else if b == 0x68 {
        "PUSH9"
    } else if b == 0x69 {
        "PUSH10"
    } else if b == 0x6a {
        "PUSH11"
    } else if b == 0x6b {
        "PUSH12"
    } else if b == 0x6c {
        "PUSH13"
    } else if b == 0x6d {
        "PUSH14"
    } else if b == 0x6e {
        "PUSH15"
    } else if b == 0x6f {
        "PUSH16"
    } else if b == 0x70 {
        "PUSH17"
    } else if b == 0x71 {
        "PUSH18"
    } else if b == 0x72 {
        "PUSH19"
    } else if b == 0x73 {
        "PUSH20"
    } else if b == 0x74 {
        "PUSH21"
    } else if b == 0x75 {
        "PUSH22"
    } else if b == 0x76 {
        "PUSH23"
    } else if b == 0x77 {
        "PUSH24"
    } else if b == 0x78 {
        "PUSH25"
    } else if b == 0x79 {
        "PUSH26"
    } else if b == 0x7a {
        "PUSH27"
    } else if b == 0x7b {
        "PUSH28"
    } else if b == 0x7c {
        "PUSH29"
    } else if b == 0x7d {
        "PUSH30"
    } else if b == 0x7e {
        "PUSH31"
    } else if b == 0x7f {
        "PUSH32"
    } else if b == 0x80 {
        "DUP1"
    } else if b == 0x81 {
        "DUP2"
    } else if b == 0x82 {
        "DUP3"
    } else if b == 0x83 {
        "DUP4"
    } else if b == 0x84 {
        "DUP5"
    } else if b == 0x85 {
        "DUP6"
    } else if b == 0x86 {
        "DUP7"
    } else if b == 0x87 {
        "DUP8"
    } else if b == 0x88 {
        "DUP9"
    } else if b == 0x89 {
        "DUP10"
    } else if b == 0x8a {
        "DUP11"
    } else if b == 0x8b {
        "DUP12"
    } else if b == 0x8c {
        "DUP13"
    } else if b == 0x8d {
        "DUP14"
    } else if b == 0x8e {
        "DUP15"
    } else if b == 0x8f {
        "DUP16"
    } else if b == 0x90 {
        "SWAP1"
    } else if b == 0x91 {
        "SWAP2"
    } else if b == 0x92 {
        "SWAP3"
    } else if b == 0x93 {
        "SWAP4"
    } else if b == 0x94 {
        "SWAP5"
    } else if b == 0x95 {
        "SWAP6"
    } else if b == 0x96 {
        "SWAP7"
    } else if b == 0x97 {
        "SWAP8"
    } else if b == 0x98 {
        "SWAP9"
    } else if b == 0x99 {
        "SWAP10"
    } else if b == 0x9a {
        "SWAP11"
    } else if b == 0x9b {
        "SWAP12"
    } else if b == 0x9c {
        "SWAP13"
    } else if b == 0x9d {
        "SWAP14"
    } else if b == 0x9e {
        "SWAP15"
    } else if b == 0x9f {
        "SWAP16"
    } else if b == 0xa0 {
        "LOG0"
    } else if b == 0xa1 {
        "LOG1"
    } else if b == 0xa2 {
        "LOG2"
    } else if b == 0xa3 {
        "LOG3"
    } else if b == 0xa4 {
        "LOG4"
    } else if b == 0xf0 {
        "CREATE"
    } else if b == 0xf1 {
        "CALL"
    } else if b == 0xf2 {
        "CALLCODE"
    } else if b == 0xf3 {
        "RETURN"
    } else if b == 0xf4 {
        "DELEGATECALL"
    } else if b == 0xf5 {
        "CREATE2"
    } else if b == 0xfa {
        "STATICCALL"
    } else if b == 0xfd {
        "REVERT"
    } else if b == 0xfe {
        "INVALID"
    } else if b == 0xff {
        "SELFDESTRUCT"
    } else {
        "UNKNOWN"
    }
}

} // verus!
