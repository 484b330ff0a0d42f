use evm_lens::{disassemble, get_stats, DisassemblyError, OpCode};

#[test]
fn push1_push2_stop() {
    let bytes = hex::decode("60FF61ABCD00").unwrap(); // PUSH1 0xFF, PUSH2 0xABCD, STOP
    let ops = disassemble(&bytes).unwrap();
    assert_eq!(ops.len(), 3);
    assert_eq!(ops[0].0, 0);
    assert_eq!(ops[0].1, OpCode { byte: 0x60 }); // PUSH1
    assert_eq!(ops[1].0, 2);
    assert_eq!(ops[1].1, OpCode { byte: 0x61 }); // PUSH2
    assert_eq!(ops[2].0, 5);
    assert_eq!(ops[2].1, OpCode { byte: 0x00 }); // STOP
}

#[test]
fn memory_operations() {
    // PUSH1 0x20, PUSH1 0x00, MSTORE, PUSH1 0x00, MLOAD, STOP
    let bytes = hex::decode("602060005260005100").unwrap();
    let ops = disassemble(&bytes).unwrap();
    assert_eq!(ops.len(), 6);
    assert_eq!(ops[0], (0, OpCode { byte: 0x60 })); // PUSH1 32
    assert_eq!(ops[1], (2, OpCode { byte: 0x60 })); // PUSH1 0
    assert_eq!(ops[2], (4, OpCode { byte: 0x52 })); // MSTORE (store to memory)
    assert_eq!(ops[3], (5, OpCode { byte: 0x60 })); // PUSH1 0
    assert_eq!(ops[4], (7, OpCode { byte: 0x51 })); // MLOAD (load from memory)
    assert_eq!(ops[5], (8, OpCode { byte: 0x00 })); // STOP
}

#[test]
fn stack_operations() {
    // PUSH1 0x01, PUSH1 0x02, DUP1, SWAP1, ADD, STOP
    let bytes = hex::decode("6001600280900100").unwrap();
    let ops = disassemble(&bytes).unwrap();
    assert_eq!(ops.len(), 6);
    assert_eq!(ops[0], (0, OpCode { byte: 0x60 })); // PUSH1 1
    assert_eq!(ops[1], (2, OpCode { byte: 0x60 })); // PUSH1 2
    assert_eq!(ops[2], (4, OpCode { byte: 0x80 })); // DUP1 (duplicate top stack item)
    assert_eq!(ops[3], (5, OpCode { byte: 0x90 })); // SWAP1 (swap top 2 stack items)
    assert_eq!(ops[4], (6, OpCode { byte: 0x01 })); // ADD
    assert_eq!(ops[5], (7, OpCode { byte: 0x00 })); // STOP
}

#[test]
fn storage_and_crypto() {
    // PUSH1 0x42, PUSH1 0x00, SSTORE, PUSH1 0x00, SLOAD, KECCAK256, STOP
    let bytes = hex::decode("60426000556000542000").unwrap();
    let ops = disassemble(&bytes).unwrap();
    assert_eq!(ops.len(), 7);
    assert_eq!(ops[0], (0, OpCode { byte: 0x60 })); // PUSH1 0x42
    assert_eq!(ops[1], (2, OpCode { byte: 0x60 })); // PUSH1 0
    assert_eq!(ops[2], (4, OpCode { byte: 0x55 })); // SSTORE (store to storage)
    assert_eq!(ops[3], (5, OpCode { byte: 0x60 })); // PUSH1 0
    assert_eq!(ops[4], (7, OpCode { byte: 0x54 })); // SLOAD (load from storage)
    assert_eq!(ops[5], (8, OpCode { byte: 0x20 })); // KECCAK256 (hash function)
    assert_eq!(ops[6], (9, OpCode { byte: 0x00 })); // STOP
}

#[test]
fn empty_bytecode_error() {
    let bytes = vec![];
    let result = disassemble(&bytes);
    assert!(result.is_err());
    match result.unwrap_err() {
        DisassemblyError::EmptyBytecode => {} // Expected
        _ => panic!("Expected EmptyBytecode error"),
    }
}

#[test]
fn test_get_stats() {
    // PUSH1 0xFF, PUSH1 0x01, ADD, STOP
    let bytes = hex::decode("60FF60010100").unwrap();
    let stats = get_stats(&bytes).unwrap();

    assert_eq!(stats.byte_len, 6);
    assert_eq!(stats.opcode_count, 4);
    assert!(stats.max_stack_depth > 0);
}

#[test]
fn test_stats_with_empty_bytecode() {
    let bytes = vec![];
    let result = get_stats(&bytes);
    assert!(result.is_err());
    match result.unwrap_err() {
        DisassemblyError::EmptyBytecode => {} // Expected
        _ => panic!("Expected EmptyBytecode error"),
    }
}

#[test]
fn mnemonics_of_disassembled_opcodes() {
    let bytes = hex::decode("60FF61ABCD00").unwrap();
    let ops = disassemble(&bytes).unwrap();
    assert_eq!(ops[0].1.mnemonic(), "PUSH1");
    assert_eq!(ops[1].1.mnemonic(), "PUSH2");
    assert_eq!(ops[2].1.mnemonic(), "STOP");
}

#[test]
fn push_stream_offsets_advance_by_immediate() {
    // PUSH1 x, PUSH1 x, PUSH1 x: offsets 0, 2, 4
    let bytes = vec![0x60, 0xAA, 0x60, 0xBB, 0x60, 0xCC];
    let ops = disassemble(&bytes).unwrap();
    assert_eq!(ops.len(), 3);
    assert_eq!(ops[0].0, 0);
    assert_eq!(ops[1].0, 2);
    assert_eq!(ops[2].0, 4);
    // PUSH2 then PUSH3 then STOP: each offset one plus the immediate later
    let bytes = vec![0x61, 0x01, 0x02, 0x62, 0x03, 0x04, 0x05, 0x00];
    let ops = disassemble(&bytes).unwrap();
    assert_eq!(ops.len(), 3);
    assert_eq!(ops[0].0, 0);
    assert_eq!(ops[1].0, 3);
    assert_eq!(ops[2].0, 7);
}

#[test]
fn truncated_trailing_push32_decodes_without_error() {
    // PUSH32 with only three immediate bytes left: the push is the last
    // instruction and the remainder is absorbed as its truncated immediate.
    let bytes = vec![0x7F, 0x01, 0x02, 0x03];
    let ops = disassemble(&bytes).unwrap();
    assert_eq!(ops.len(), 1);
    assert_eq!(ops[0], (0, OpCode { byte: 0x7F }));
    // A lone PUSH32 byte behaves the same way.
    let bytes = vec![0x7F];
    let ops = disassemble(&bytes).unwrap();
    assert_eq!(ops.len(), 1);
    assert_eq!(ops[0], (0, OpCode { byte: 0x7F }));
}

#[test]
fn undefined_opcode_decodes_but_fails_analysis() {
    // 0x0C has no assigned mnemonic: decode still reports one instruction,
    // analysis fails with the offending position and byte.
    let bytes = vec![0x0C];
    let ops = disassemble(&bytes).unwrap();
    assert_eq!(ops.len(), 1);
    assert_eq!(ops[0], (0, OpCode { byte: 0x0C }));
    assert_eq!(ops[0].1.mnemonic(), "UNKNOWN");
    match get_stats(&bytes).unwrap_err() {
        DisassemblyError::MalformedInstruction { position, byte } => {
            assert_eq!(position, 0);
            assert_eq!(byte, 0x0C);
        }
        _ => panic!("Expected MalformedInstruction error"),
    }
}

#[test]
fn unknown_opcode_position_is_reported() {
    // PUSH1 0xFF, then the undefined byte 0x21 at offset 2.
    let bytes = vec![0x60, 0xFF, 0x21];
    match get_stats(&bytes).unwrap_err() {
        DisassemblyError::MalformedInstruction { position, byte } => {
            assert_eq!(position, 2);
            assert_eq!(byte, 0x21);
        }
        _ => panic!("Expected MalformedInstruction error"),
    }
}

#[test]
fn disassembly_error_messages() {
    let e = DisassemblyError::EmptyBytecode;
    assert_eq!(e.message(), "Bytecode is empty");
    let e = DisassemblyError::InvalidBytecode("No valid opcodes found".to_string());
    assert_eq!(e.message(), "Invalid bytecode: No valid opcodes found");
    let e = DisassemblyError::MalformedInstruction { position: 0, byte: 0x0C };
    assert_eq!(e.message(), "Malformed instruction at position 0: invalid opcode 0x0c");
    let e = DisassemblyError::MalformedInstruction { position: 1234, byte: 0xEF };
    assert_eq!(
        e.message(),
        "Malformed instruction at position 1234: invalid opcode 0xef"
    );
}

#[test]
fn truncated_push_statistics() {
    let bytes = vec![0x7F, 0x01, 0x02, 0x03];
    let stats = get_stats(&bytes).unwrap();
    assert_eq!(stats.byte_len, 4);
    assert_eq!(stats.opcode_count, 1);
    assert_eq!(stats.max_stack_depth, 1);
}
