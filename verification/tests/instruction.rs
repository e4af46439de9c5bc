use bonfida_bot::error::PoolError;
use bonfida_bot::instruction::PoolInstruction;
use bonfida_bot::types::{OrderType, Pubkey, SelfTradeBehavior, Side};

fn key(b: u8) -> Pubkey {
    Pubkey::new([b; 32])
}

#[test]
fn test_instruction_packing() {
    let original_init = PoolInstruction::Init {
        pool_seed: [50u8; 32],
        max_number_of_assets: 43,
        number_of_markets: 50,
    };
    assert_eq!(
        original_init,
        PoolInstruction::unpack(&original_init.pack()).unwrap()
    );

    let original_create = PoolInstruction::Create {
        pool_seed: [50u8; 32],
        serum_program_id: key(1),
        signal_provider_key: key(2),
        deposit_amounts: vec![23 as u64, 43 as u64],
        markets: vec![key(3), key(4), key(5), key(6)],
    };
    let packed_create = original_create.pack();
    let unpacked_create = PoolInstruction::unpack(&packed_create).unwrap();
    assert_eq!(original_create, unpacked_create);

    let original_deposit = PoolInstruction::Deposit {
        pool_seed: [50u8; 32],
        pool_token_amount: 24 as u64,
    };
    let packed_deposit = original_deposit.pack();
    let unpacked_deposit = PoolInstruction::unpack(&packed_deposit).unwrap();
    assert_eq!(original_deposit, unpacked_deposit);

    let original_create_order = PoolInstruction::CreateOrder {
        pool_seed: [50u8; 32],
        side: Side::Ask,
        limit_price: 23,
        ratio_of_pool_assets_to_trade: 500,
        order_type: OrderType::Limit,
        client_id: 0xff44,
        self_trade_behavior: SelfTradeBehavior::DecrementTake,
        source_index: 42,
        target_index: 78,
        market_index: 41,
        coin_lot_size: 41,
        pc_lot_size: 41,
        target_mint: key(7),
    };
    let packed_create_order = original_create_order.pack();
    let unpacked_create_order = PoolInstruction::unpack(&packed_create_order).unwrap();
    assert_eq!(original_create_order, unpacked_create_order);
    assert_eq!(original_deposit, unpacked_deposit);

    let original_settle_order = PoolInstruction::SettleFunds {
        pool_seed: [50u8; 32],
        pc_index: 42,
        coin_index: 52,
    };
    let packed_settle_order = original_settle_order.pack();
    let unpacked_settle_order = PoolInstruction::unpack(&packed_settle_order).unwrap();
    assert_eq!(original_settle_order, unpacked_settle_order);

    let original_redeem = PoolInstruction::Redeem {
        pool_seed: [50u8; 32],
        pool_token_amount: 24 as u64,
    };
    let packed_redeem = original_redeem.pack();
    let unpacked_redeem = PoolInstruction::unpack(&packed_redeem).unwrap();
    assert_eq!(original_redeem, unpacked_redeem);

    let original_cancel_order = PoolInstruction::CancelOrder {
        pool_seed: [50u8; 32],
        side: Side::Ask,
        order_id: 855464984,
    };
    let packed_cancel_order = original_cancel_order.pack();
    let unpacked_cancel_order = PoolInstruction::unpack(&packed_cancel_order).unwrap();
    assert_eq!(original_cancel_order, unpacked_cancel_order);
}

#[test]
fn test_init_concrete_bytes() {
    let init = PoolInstruction::Init {
        pool_seed: [50u8; 32],
        max_number_of_assets: 43,
        number_of_markets: 50,
    };
    let packed = init.pack();
    let mut expected = vec![0u8];
    expected.extend_from_slice(&[0x32u8; 32]);
    expected.extend_from_slice(&43u32.to_le_bytes());
    expected.extend_from_slice(&50u16.to_le_bytes());
    assert_eq!(packed.len(), 39);
    assert_eq!(packed, expected);
    assert_eq!(PoolInstruction::unpack(&expected).unwrap(), init);
}

#[test]
fn test_empty_buffer_rejected() {
    assert_eq!(
        PoolInstruction::unpack(&[]),
        Err(PoolError::EmptyBuffer)
    );
}

#[test]
fn test_unknown_opcode_rejected() {
    let mut buf = vec![7u8];
    buf.extend_from_slice(&[0u8; 128]);
    assert_eq!(
        PoolInstruction::unpack(&buf),
        Err(PoolError::UnknownOpcode)
    );
    assert_eq!(
        PoolInstruction::unpack(&[255u8]),
        Err(PoolError::UnknownOpcode)
    );
    assert_eq!(
        PoolInstruction::unpack(&[9u8, 1, 2, 3]),
        Err(PoolError::UnknownOpcode)
    );
}

fn sample_commands() -> Vec<(PoolInstruction, usize)> {
    // Each command beside the minimum fixed length of its encoding:
    // one tag byte plus the fixed fields of the variant.
    vec![
        (
            PoolInstruction::Init {
                pool_seed: [9u8; 32],
                max_number_of_assets: 77,
                number_of_markets: 3,
            },
            39,
        ),
        (
            PoolInstruction::Create {
                pool_seed: [9u8; 32],
                serum_program_id: key(10),
                signal_provider_key: key(11),
                deposit_amounts: vec![5, 6],
                markets: vec![key(12)],
            },
            99,
        ),
        (
            PoolInstruction::Deposit {
                pool_seed: [9u8; 32],
                pool_token_amount: 1,
            },
            41,
        ),
        (
            PoolInstruction::CreateOrder {
                pool_seed: [9u8; 32],
                side: Side::Bid,
                limit_price: 1,
                ratio_of_pool_assets_to_trade: 1,
                order_type: OrderType::PostOnly,
                client_id: 8,
                self_trade_behavior: SelfTradeBehavior::CancelProvide,
                source_index: 0,
                target_index: 1,
                market_index: 2,
                coin_lot_size: 3,
                pc_lot_size: 4,
                target_mint: key(13),
            },
            120,
        ),
        (
            PoolInstruction::CancelOrder {
                pool_seed: [9u8; 32],
                side: Side::Bid,
                order_id: u128::MAX,
            },
            50,
        ),
        (
            PoolInstruction::SettleFunds {
                pool_seed: [9u8; 32],
                pc_index: 0,
                coin_index: u64::MAX,
            },
            49,
        ),
        (
            PoolInstruction::Redeem {
                pool_seed: [9u8; 32],
                pool_token_amount: u64::MAX,
            },
            41,
        ),
    ]
}

#[test]
fn test_truncation_rejected_every_variant() {
    for (cmd, min_len) in sample_commands() {
        let packed = cmd.pack();
        assert!(packed.len() >= min_len);
        for n in 1..min_len {
            assert_eq!(
                PoolInstruction::unpack(&packed[..n]),
                Err(PoolError::TruncatedField),
                "length {} of {:?}",
                n,
                cmd
            );
        }
    }
}

#[test]
fn test_round_trip_every_variant() {
    for (cmd, _) in sample_commands() {
        assert_eq!(PoolInstruction::unpack(&cmd.pack()).unwrap(), cmd);
    }
}

#[test]
fn test_round_trip_create_boundaries() {
    // Zero-length market and amount lists.
    let empty = PoolInstruction::Create {
        pool_seed: [0u8; 32],
        serum_program_id: key(20),
        signal_provider_key: key(21),
        deposit_amounts: vec![],
        markets: vec![],
    };
    let packed = empty.pack();
    assert_eq!(packed.len(), 99);
    assert_eq!(PoolInstruction::unpack(&packed).unwrap(), empty);

    // The maximum 16-bit market count.
    let full = PoolInstruction::Create {
        pool_seed: [1u8; 32],
        serum_program_id: key(22),
        signal_provider_key: key(23),
        deposit_amounts: vec![u64::MAX],
        markets: vec![key(24); 65535],
    };
    let packed = full.pack();
    assert_eq!(packed.len(), 99 + 32 * 65535 + 8);
    assert_eq!(PoolInstruction::unpack(&packed).unwrap(), full);
}

#[test]
fn test_round_trip_minimum_nonzero_order() {
    let order = PoolInstruction::CreateOrder {
        pool_seed: [2u8; 32],
        side: Side::Ask,
        limit_price: 1,
        ratio_of_pool_assets_to_trade: 1,
        order_type: OrderType::ImmediateOrCancel,
        client_id: 0,
        self_trade_behavior: SelfTradeBehavior::DecrementTake,
        source_index: u64::MAX,
        target_index: 0,
        market_index: u16::MAX,
        coin_lot_size: 1,
        pc_lot_size: 1,
        target_mint: key(30),
    };
    assert_eq!(PoolInstruction::unpack(&order.pack()).unwrap(), order);
}

fn sample_order() -> PoolInstruction {
    PoolInstruction::CreateOrder {
        pool_seed: [3u8; 32],
        side: Side::Bid,
        limit_price: 77,
        ratio_of_pool_assets_to_trade: 1000,
        order_type: OrderType::Limit,
        client_id: 5,
        self_trade_behavior: SelfTradeBehavior::CancelProvide,
        source_index: 1,
        target_index: 2,
        market_index: 3,
        coin_lot_size: 4,
        pc_lot_size: 5,
        target_mint: key(40),
    }
}

#[test]
fn test_invalid_enumeration_rejected() {
    // The side byte sits right after the tag and the 32-byte seed.
    let mut packed = sample_order().pack();
    packed[33] = 2;
    assert_eq!(
        PoolInstruction::unpack(&packed),
        Err(PoolError::InvalidEnumerationValue)
    );

    // The order-type byte is at payload offset 43.
    let mut packed = sample_order().pack();
    packed[44] = 3;
    assert_eq!(
        PoolInstruction::unpack(&packed),
        Err(PoolError::InvalidEnumerationValue)
    );

    // The self-trade-policy byte is at payload offset 52.
    let mut packed = sample_order().pack();
    packed[53] = 2;
    assert_eq!(
        PoolInstruction::unpack(&packed),
        Err(PoolError::InvalidEnumerationValue)
    );
}

#[test]
fn test_zero_constraint_rejected() {
    // limit_price occupies payload bytes 33..41, buffer bytes 34..42.
    let mut packed = sample_order().pack();
    for b in &mut packed[34..42] {
        *b = 0;
    }
    assert_eq!(
        PoolInstruction::unpack(&packed),
        Err(PoolError::ZeroConstraintViolated)
    );

    // ratio_of_pool_assets_to_trade occupies buffer bytes 42..44.
    let mut packed = sample_order().pack();
    for b in &mut packed[42..44] {
        *b = 0;
    }
    assert_eq!(
        PoolInstruction::unpack(&packed),
        Err(PoolError::ZeroConstraintViolated)
    );
}

#[test]
fn test_implicit_length_tail() {
    let create = PoolInstruction::Create {
        pool_seed: [4u8; 32],
        serum_program_id: key(50),
        signal_provider_key: key(51),
        deposit_amounts: vec![111, 222],
        markets: vec![key(52), key(53)],
    };
    let packed = create.pack();

    // Exactly two trailing 8-byte groups decode as two amounts.
    match PoolInstruction::unpack(&packed).unwrap() {
        PoolInstruction::Create {
            deposit_amounts, ..
        } => assert_eq!(deposit_amounts, vec![111, 222]),
        other => panic!("wrong variant: {:?}", other),
    }

    // Five extra trailing bytes are not a full group: silently ignored.
    let mut extended = packed.clone();
    extended.extend_from_slice(&[9u8; 5]);
    assert_eq!(PoolInstruction::unpack(&extended).unwrap(), create);

    // Eight extra trailing bytes are one more amount.
    let mut extended = packed.clone();
    extended.extend_from_slice(&7u64.to_le_bytes());
    match PoolInstruction::unpack(&extended).unwrap() {
        PoolInstruction::Create {
            deposit_amounts, ..
        } => assert_eq!(deposit_amounts, vec![111, 222, 7]),
        other => panic!("wrong variant: {:?}", other),
    }
}

#[test]
fn test_pool_seed_reproduced_verbatim() {
    let mut seed = [0u8; 32];
    for (i, b) in seed.iter_mut().enumerate() {
        *b = i as u8;
    }
    let cmd = PoolInstruction::Deposit {
        pool_seed: seed,
        pool_token_amount: 9,
    };
    let packed = cmd.pack();
    assert_eq!(&packed[1..33], &seed);
    match PoolInstruction::unpack(&packed).unwrap() {
        PoolInstruction::Deposit { pool_seed, .. } => assert_eq!(pool_seed, seed),
        other => panic!("wrong variant: {:?}", other),
    }
}

#[test]
fn test_pubkey_accessors() {
    let k = Pubkey::new([17u8; 32]);
    assert_eq!(k.to_bytes(), [17u8; 32]);
    assert_eq!(k, key(17));
    assert_ne!(k, key(18));
}
