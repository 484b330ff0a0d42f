use evm_lens::stats::{compute_max_stack_depth, compute_opcode_count, get_byte_len};
use evm_lens::{compute_stats, Stats, StatsError};

#[test]
fn test_simple_bytecode_stats() {
    // PUSH1 0xFF, STOP
    let bytes = hex::decode("60FF00").unwrap();

    let stats = compute_stats(&bytes).unwrap();
    assert_eq!(stats.byte_len, 3);
    assert_eq!(stats.opcode_count, 2);
    assert_eq!(stats.max_stack_depth, 1); // PUSH1 adds 1 to stack
}

#[test]
fn test_complex_bytecode_stats() {
    // PUSH1 0x01, PUSH1 0x02, ADD, STOP
    let bytes = hex::decode("600160020100").unwrap();

    let stats = compute_stats(&bytes).unwrap();
    assert_eq!(stats.byte_len, 6);
    assert_eq!(stats.opcode_count, 4);
    assert_eq!(stats.max_stack_depth, 2); // Max depth when both PUSH1s are on stack
}

#[test]
fn test_stack_operations() {
    // PUSH1 0x01, PUSH1 0x02, DUP1, SWAP1, ADD, STOP
    let bytes = hex::decode("6001600280900100").unwrap();

    let stats = compute_stats(&bytes).unwrap();
    assert_eq!(stats.byte_len, 8);
    assert_eq!(stats.opcode_count, 6);
    assert_eq!(stats.max_stack_depth, 3); // DUP1 increases stack depth to 3
}

#[test]
fn test_memory_operations() {
    // PUSH1 0x20, PUSH1 0x00, MSTORE, PUSH1 0x00, MLOAD, STOP
    let bytes = hex::decode("602060005260005100").unwrap();

    let stats = compute_stats(&bytes).unwrap();
    assert_eq!(stats.byte_len, 9);
    assert_eq!(stats.opcode_count, 6);
    assert_eq!(stats.max_stack_depth, 2); // Max when PUSH1 values are on stack
}

#[test]
fn test_push_operations() {
    // PUSH1 0xFF, PUSH2 0xABCD, PUSH32 (32 bytes of data), STOP
    let mut bytes = vec![0x60, 0xFF]; // PUSH1 0xFF
    bytes.extend_from_slice(&[0x61, 0xAB, 0xCD]); // PUSH2 0xABCD
    bytes.push(0x7F); // PUSH32
    bytes.extend_from_slice(&[0xFF; 32]); // 32 bytes of 0xFF
    bytes.push(0x00); // STOP

    let stats = compute_stats(&bytes).unwrap();
    assert_eq!(stats.byte_len, 39); // 2 + 3 + 1 + 32 + 1 = 39
    assert_eq!(stats.opcode_count, 4);
    assert_eq!(stats.max_stack_depth, 3); // All three PUSH operations on stack
}

#[test]
fn test_arithmetic_operations() {
    // PUSH1 0x05, PUSH1 0x03, ADD, PUSH1 0x02, MUL, STOP
    let bytes = hex::decode("600560030160020200").unwrap();

    let stats = compute_stats(&bytes).unwrap();
    assert_eq!(stats.byte_len, 9);
    assert_eq!(stats.opcode_count, 6);
    assert_eq!(stats.max_stack_depth, 2); // Max depth when two values are on stack
}

#[test]
fn test_single_opcode() {
    // Just STOP
    let bytes = hex::decode("00").unwrap();

    let stats = compute_stats(&bytes).unwrap();
    assert_eq!(stats.byte_len, 1);
    assert_eq!(stats.opcode_count, 1);
    assert_eq!(stats.max_stack_depth, 0); // STOP doesn't affect stack
}

#[test]
fn test_large_bytecode() {
    // Create a larger bytecode with many operations
    let mut bytes = Vec::new();

    // Add 20 PUSH1 operations (reduced from 50 for simpler test)
    for i in 0..20 {
        bytes.push(0x60); // PUSH1
        bytes.push(i as u8); // value
    }
    bytes.push(0x00); // STOP

    let stats = compute_stats(&bytes).unwrap();
    assert_eq!(stats.byte_len, 41); // 20 * 2 + 1
    assert_eq!(stats.opcode_count, 21); // 20 PUSH1s + 1 STOP
    assert_eq!(stats.max_stack_depth, 20); // All PUSH1s accumulate on stack
}

#[test]
fn test_compute_opcode_count() {
    let bytes = hex::decode("60FF61ABCD00").unwrap(); // PUSH1, PUSH2, STOP

    let count = compute_opcode_count(&bytes);
    assert_eq!(count, 3);
}

#[test]
fn test_get_byte_len() {
    let bytes = hex::decode("60FF61ABCD00").unwrap();

    let len = get_byte_len(&bytes);
    assert_eq!(len, 6);
}

#[test]
fn test_compute_max_stack_depth() {
    let bytes = hex::decode("60FF00").unwrap(); // PUSH1 0xFF, STOP

    let depth = compute_max_stack_depth(&bytes).unwrap();
    assert_eq!(depth, 1);
}

#[test]
fn test_zero_stack_depth() {
    let bytes = hex::decode("00").unwrap(); // Just STOP

    let depth = compute_max_stack_depth(&bytes).unwrap();
    assert_eq!(depth, 0);
}

#[test]
fn test_error_display() {
    let error = StatsError::UnknownOpcode { position: 0, byte: 0xFF };
    assert_eq!(error.message(), "Unknown opcode: 0xff");
}

#[test]
fn test_stats_struct_access() {
    let stats = Stats {
        byte_len: 10,
        opcode_count: 5,
        max_stack_depth: 3,
    };

    assert_eq!(stats.byte_len, 10);
    assert_eq!(stats.opcode_count, 5);
    assert_eq!(stats.max_stack_depth, 3);
}

#[test]
fn stats_error_carries_position_and_byte() {
    let bytes = vec![0x60, 0x01, 0xEF];
    match compute_stats(&bytes).unwrap_err() {
        StatsError::UnknownOpcode { position, byte } => {
            assert_eq!(position, 2);
            assert_eq!(byte, 0xEF);
        }
    }
}

#[test]
fn depth_accumulator_can_go_negative() {
    // ADD alone consumes two values it never had: the running accumulator
    // dips below zero, but the reported peak is floored at zero.
    let bytes = vec![0x01, 0x00]; // ADD, STOP
    let stats = compute_stats(&bytes).unwrap();
    assert_eq!(stats.max_stack_depth, 0);
    // A later push does not recover the transient deficit: PUSH1 after ADD
    // brings the accumulator from -1 back to 0.
    let bytes = vec![0x01, 0x60, 0x05, 0x00]; // ADD, PUSH1 5, STOP
    let stats = compute_stats(&bytes).unwrap();
    assert_eq!(stats.max_stack_depth, 0);
}

#[test]
fn empty_buffer_statistics_are_zero() {
    // The public entry points reject empty buffers before this layer; the
    // bare computation reports an empty record.
    let bytes: Vec<u8> = vec![];
    let stats = compute_stats(&bytes).unwrap();
    assert_eq!(stats, Stats { byte_len: 0, opcode_count: 0, max_stack_depth: 0 });
}
