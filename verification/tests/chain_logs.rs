use zkos_hooks::chain::{L2ToL1LogStore, ZkChainContext, BOOTLOADER_FORMAL_ADDRESS};

fn addr(last: u8) -> [u8; 20] {
    let mut a = [0u8; 20];
    a[19] = last;
    a
}

#[test]
fn push_then_take_returns_logs_in_order() {
    let mut ctx = ZkChainContext::new();
    ctx.set_tx_number(7);
    ctx.push_log(addr(1), [1u8; 32], [2u8; 32]);
    ctx.set_tx_number(8);
    ctx.push_log(addr(3), [3u8; 32], [4u8; 32]);
    let logs = ctx.take_logs();
    assert_eq!(logs.len(), 2);
    assert_eq!(logs[0].tx_number_in_block, 7);
    assert_eq!(logs[0].sender, addr(1));
    assert_eq!(logs[0].key, [1u8; 32]);
    assert_eq!(logs[0].value, [2u8; 32]);
    assert_eq!(logs[0].l2_shard_id, 0);
    assert!(logs[0].is_service);
    assert_eq!(logs[1].tx_number_in_block, 8);
    assert_eq!(logs[1].sender, addr(3));
    assert!(ctx.take_logs().is_empty());
}

#[test]
fn emit_l1_tx_result_reports_success_and_failure() {
    let mut ctx = ZkChainContext::new();
    ctx.set_tx_number(3);
    ctx.emit_l1_tx_result([9u8; 32], true);
    ctx.emit_l1_tx_result([8u8; 32], false);
    let logs = ctx.take_logs();
    assert_eq!(logs.len(), 2);
    assert_eq!(logs[0].sender, BOOTLOADER_FORMAL_ADDRESS);
    assert_eq!(logs[0].sender[18], 0x80);
    assert_eq!(logs[0].sender[19], 0x01);
    assert_eq!(logs[0].key, [9u8; 32]);
    let mut one = [0u8; 32];
    one[31] = 1;
    assert_eq!(logs[0].value, one);
    assert_eq!(logs[1].value, [0u8; 32]);
    assert_eq!(logs[1].tx_number_in_block, 3);
}

#[test]
fn log_store_trait_records_and_unit_store_drops() {
    let mut ctx = ZkChainContext::default();
    L2ToL1LogStore::set_tx_number(&mut ctx, 5);
    ctx.push_l2_to_l1_log(addr(2), [5u8; 32], [6u8; 32]);
    L2ToL1LogStore::emit_l1_tx_result(&mut ctx, [1u8; 32], true);
    let copy = ctx.clone();
    let logs = ctx.take_logs();
    assert_eq!(logs.len(), 2);
    assert_eq!(logs[0].tx_number_in_block, 5);
    assert_eq!(logs[1].sender, BOOTLOADER_FORMAL_ADDRESS);
    let mut copy = copy;
    assert_eq!(copy.take_logs().len(), 2);
    let mut unit = ();
    unit.push_l2_to_l1_log(addr(2), [5u8; 32], [6u8; 32]);
    L2ToL1LogStore::set_tx_number(&mut unit, 1);
    L2ToL1LogStore::emit_l1_tx_result(&mut unit, [1u8; 32], false);
}

#[test]
fn logs_after_set_tx_number_carry_it() {
    let mut ctx = ZkChainContext::new();
    ctx.set_tx_number(2);
    ctx.push_log(addr(1), [1u8; 32], [1u8; 32]);
    ctx.set_tx_number(11);
    ctx.push_log(addr(4), [4u8; 32], [5u8; 32]);
    ctx.push_l2_to_l1_log(addr(6), [6u8; 32], [7u8; 32]);
    ctx.emit_l1_tx_result([8u8; 32], true);
    L2ToL1LogStore::emit_l1_tx_result(&mut ctx, [9u8; 32], false);
    let logs = ctx.take_logs();
    assert_eq!(logs.len(), 5);
    assert_eq!(logs[0].tx_number_in_block, 2);
    for l in &logs[1..] {
        assert_eq!(l.tx_number_in_block, 11);
        assert_eq!(l.l2_shard_id, 0);
        assert!(l.is_service);
    }
    assert_eq!(logs[2].sender, addr(6));
    assert_eq!(logs[2].value, [7u8; 32]);
    assert_eq!(logs[4].sender, BOOTLOADER_FORMAL_ADDRESS);
    assert_eq!(logs[4].key, [9u8; 32]);
    assert_eq!(logs[4].value, [0u8; 32]);
}
