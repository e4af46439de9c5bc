use bonfida_bot::accounts::{
    cancel_order, create, create_order, deposit, init, redeem, settle_funds, AccountMeta,
};
use bonfida_bot::instruction::PoolInstruction;
use bonfida_bot::types::{OrderType, Pubkey, SelfTradeBehavior, Side};

fn key(b: u8) -> Pubkey {
    Pubkey::new([b; 32])
}

fn writable(b: u8) -> AccountMeta {
    AccountMeta {
        pubkey: key(b),
        is_signer: false,
        is_writable: true,
    }
}

fn readonly(b: u8) -> AccountMeta {
    AccountMeta {
        pubkey: key(b),
        is_signer: false,
        is_writable: false,
    }
}

fn signer_readonly(b: u8) -> AccountMeta {
    AccountMeta {
        pubkey: key(b),
        is_signer: true,
        is_writable: false,
    }
}

fn signer_writable(b: u8) -> AccountMeta {
    AccountMeta {
        pubkey: key(b),
        is_signer: true,
        is_writable: true,
    }
}

#[test]
fn test_init_builder() {
    let ins = init(
        &key(1),
        &key(2),
        &key(3),
        &key(4),
        &key(5),
        &key(6),
        &key(7),
        [8u8; 32],
        12,
        34,
    )
    .unwrap();
    assert_eq!(ins.program_id, key(4));
    assert_eq!(
        ins.data,
        PoolInstruction::Init {
            pool_seed: [8u8; 32],
            max_number_of_assets: 12,
            number_of_markets: 34,
        }
        .pack()
    );
    assert_eq!(
        ins.accounts,
        vec![
            readonly(2),
            readonly(3),
            readonly(1),
            writable(7),
            writable(5),
            signer_writable(6),
        ]
    );
}

#[test]
fn test_create_builder() {
    let ins = create(
        &key(1),
        &key(2),
        &key(3),
        &key(4),
        [9u8; 32],
        &vec![key(10), key(11)],
        &key(5),
        &key(6),
        &vec![key(12), key(13)],
        &key(7),
        &key(8),
        vec![100, 200],
        vec![key(14)],
    )
    .unwrap();
    assert_eq!(ins.program_id, key(2));
    assert_eq!(
        ins.data,
        PoolInstruction::Create {
            pool_seed: [9u8; 32],
            serum_program_id: key(7),
            signal_provider_key: key(8),
            deposit_amounts: vec![100, 200],
            markets: vec![key(14)],
        }
        .pack()
    );
    assert_eq!(
        ins.accounts,
        vec![
            readonly(1),
            writable(3),
            writable(5),
            writable(4),
            writable(10),
            writable(11),
            signer_readonly(6),
            writable(12),
            writable(13),
        ]
    );
}

#[test]
fn test_deposit_builder() {
    let ins = deposit(
        &key(1),
        &key(2),
        &key(3),
        &key(4),
        &vec![key(10)],
        &key(5),
        &key(6),
        &vec![key(11)],
        [7u8; 32],
        55,
    )
    .unwrap();
    assert_eq!(ins.program_id, key(2));
    assert_eq!(
        ins.data,
        PoolInstruction::Deposit {
            pool_seed: [7u8; 32],
            pool_token_amount: 55,
        }
        .pack()
    );
    assert_eq!(
        ins.accounts,
        vec![
            readonly(1),
            writable(3),
            writable(5),
            readonly(4),
            writable(10),
            signer_readonly(6),
            writable(11),
        ]
    );
}

#[test]
fn test_redeem_builder() {
    let ins = redeem(
        &key(1),
        &key(2),
        &key(3),
        &key(4),
        &vec![key(10), key(11)],
        &key(5),
        &key(6),
        &vec![key(12), key(13)],
        [7u8; 32],
        99,
    )
    .unwrap();
    assert_eq!(ins.program_id, key(2));
    assert_eq!(
        ins.data,
        PoolInstruction::Redeem {
            pool_seed: [7u8; 32],
            pool_token_amount: 99,
        }
        .pack()
    );
    assert_eq!(
        ins.accounts,
        vec![
            readonly(1),
            writable(3),
            signer_readonly(5),
            writable(6),
            writable(4),
            writable(10),
            writable(11),
            writable(12),
            writable(13),
        ]
    );
}

#[test]
fn test_create_order_builder() {
    let ins = create_order(
        &key(1),
        &key(2),
        &key(3),
        &key(4),
        6,
        7,
        &key(5),
        &key(6),
        &key(7),
        &key(8),
        &key(9),
        &key(10),
        &key(11),
        &key(12),
        Some(&key(13)),
        [20u8; 32],
        Side::Ask,
        500,
        2,
        10,
        20,
        &key(14),
        30,
        OrderType::PostOnly,
        77,
        SelfTradeBehavior::CancelProvide,
    )
    .unwrap();
    assert_eq!(ins.program_id, key(1));
    assert_eq!(
        ins.data,
        PoolInstruction::CreateOrder {
            pool_seed: [20u8; 32],
            side: Side::Ask,
            limit_price: 500,
            ratio_of_pool_assets_to_trade: 30,
            order_type: OrderType::PostOnly,
            client_id: 77,
            self_trade_behavior: SelfTradeBehavior::CancelProvide,
            source_index: 6,
            target_index: 7,
            market_index: 2,
            coin_lot_size: 10,
            pc_lot_size: 20,
            target_mint: key(14),
        }
        .pack()
    );
    assert_eq!(
        ins.accounts,
        vec![
            signer_readonly(2),
            writable(3),
            writable(4),
            writable(5),
            writable(6),
            writable(7),
            writable(8),
            writable(9),
            readonly(10),
            readonly(12),
            readonly(11),
            writable(13),
        ]
    );

    let without_referrer = create_order(
        &key(1),
        &key(2),
        &key(3),
        &key(4),
        6,
        7,
        &key(5),
        &key(6),
        &key(7),
        &key(8),
        &key(9),
        &key(10),
        &key(11),
        &key(12),
        None,
        [20u8; 32],
        Side::Bid,
        500,
        2,
        10,
        20,
        &key(14),
        30,
        OrderType::Limit,
        77,
        SelfTradeBehavior::DecrementTake,
    )
    .unwrap();
    assert_eq!(without_referrer.accounts.len(), 11);
}

#[test]
fn test_cancel_order_builder() {
    let ins = cancel_order(
        &key(1),
        &key(2),
        &key(3),
        &key(4),
        &key(5),
        &key(6),
        &key(7),
        [8u8; 32],
        Side::Bid,
        12345678901234567890,
    )
    .unwrap();
    assert_eq!(ins.program_id, key(1));
    assert_eq!(
        ins.data,
        PoolInstruction::CancelOrder {
            pool_seed: [8u8; 32],
            side: Side::Bid,
            order_id: 12345678901234567890,
        }
        .pack()
    );
    assert_eq!(
        ins.accounts,
        vec![
            signer_readonly(2),
            readonly(3),
            writable(4),
            writable(5),
            readonly(6),
            readonly(7),
        ]
    );
}

#[test]
fn test_settle_funds_builder() {
    let ins = settle_funds(
        &key(1),
        &key(2),
        &key(3),
        &key(4),
        &key(5),
        &key(6),
        &key(7),
        &key(8),
        &key(9),
        &key(10),
        &key(11),
        &key(12),
        Some(&key(13)),
        [30u8; 32],
        3,
        4,
    )
    .unwrap();
    assert_eq!(ins.program_id, key(1));
    assert_eq!(
        ins.data,
        PoolInstruction::SettleFunds {
            pool_seed: [30u8; 32],
            pc_index: 3,
            coin_index: 4,
        }
        .pack()
    );
    assert_eq!(
        ins.accounts,
        vec![
            writable(2),
            writable(3),
            writable(4),
            readonly(5),
            writable(6),
            writable(7),
            writable(8),
            writable(9),
            readonly(10),
            readonly(11),
            readonly(12),
            writable(13),
        ]
    );

    let without_referrer = settle_funds(
        &key(1),
        &key(2),
        &key(3),
        &key(4),
        &key(5),
        &key(6),
        &key(7),
        &key(8),
        &key(9),
        &key(10),
        &key(11),
        &key(12),
        None,
        [30u8; 32],
        3,
        4,
    )
    .unwrap();
    assert_eq!(without_referrer.accounts.len(), 11);
}
