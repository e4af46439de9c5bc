//! The laws of the codec, proved once and for all inputs: the encoder and
//! decoder are exact inverses on well-formed commands, and the decoder
//! rejects unknown tags, truncated fixed fields, invalid enumeration codes
//! and zero-valued nonzero fields, while ignoring a short trailing remainder
//! after a `Create` amount list.

use vstd::bytes::{
    lemma_auto_spec_u128_to_from_le_bytes, lemma_auto_spec_u16_to_from_le_bytes,
    lemma_auto_spec_u32_to_from_le_bytes, lemma_auto_spec_u64_to_from_le_bytes,
    spec_u16_from_le_bytes, spec_u16_to_le_bytes, spec_u64_from_le_bytes, spec_u64_to_le_bytes,
};
use vstd::prelude::*;

use crate::codec::{
    fixed_payload_len, lemma_amounts_at_of_concat, lemma_concat_amounts_len, lemma_concat_keys_len,
    lemma_keys_at_index, lemma_keys_at_of_concat, spec_decode, spec_encode, spec_payload, tag_code,
};
use crate::error::PoolError;
use crate::instruction::Command;
use crate::types::{
    lemma_enum_codes_invert, order_type_code, self_trade_code, side_code, side_from_code,
};

verus! {

/// The byte layout of a well-formed `CreateOrder` payload: each field at
/// its fixed offset, in declaration order.
proof fn lemma_create_order_layout(c: Command)
    requires
        c is CreateOrder,
        c.wf(),
    ensures
        ({
            let p = spec_payload(c);
            &&& p.len() == 119
            &&& p.subrange(0, 32) == c->CreateOrder_pool_seed
            &&& p[32] == side_code(c->CreateOrder_side)
            &&& p.subrange(33, 41) == spec_u64_to_le_bytes(c->CreateOrder_limit_price)
            &&& p.subrange(41, 43) == spec_u16_to_le_bytes(
                c->CreateOrder_ratio_of_pool_assets_to_trade,
            )
            &&& p[43] == order_type_code(c->CreateOrder_order_type)
            &&& p.subrange(44, 52) == spec_u64_to_le_bytes(c->CreateOrder_client_id)
            &&& p[52] == self_trade_code(c->CreateOrder_self_trade_behavior)
            &&& p.subrange(53, 61) == spec_u64_to_le_bytes(c->CreateOrder_source_index)
            &&& p.subrange(61, 69) == spec_u64_to_le_bytes(c->CreateOrder_target_index)
            &&& p.subrange(69, 71) == spec_u16_to_le_bytes(c->CreateOrder_market_index)
            &&& p.subrange(71, 79) == spec_u64_to_le_bytes(c->CreateOrder_coin_lot_size)
            &&& p.subrange(79, 87) == spec_u64_to_le_bytes(c->CreateOrder_pc_lot_size)
            &&& p.subrange(87, 119) == c->CreateOrder_target_mint
        }),
{
    lemma_auto_spec_u16_to_from_le_bytes();
    lemma_auto_spec_u64_to_from_le_bytes();
    let p = spec_payload(c);
    assert(p.subrange(0, 32) =~= c->CreateOrder_pool_seed);
    assert(p.subrange(33, 41) =~= spec_u64_to_le_bytes(c->CreateOrder_limit_price));
    assert(p.subrange(41, 43) =~= spec_u16_to_le_bytes(
        c->CreateOrder_ratio_of_pool_assets_to_trade,
    ));
    assert(p.subrange(44, 52) =~= spec_u64_to_le_bytes(c->CreateOrder_client_id));
    assert(p.subrange(53, 61) =~= spec_u64_to_le_bytes(c->CreateOrder_source_index));
    assert(p.subrange(61, 69) =~= spec_u64_to_le_bytes(c->CreateOrder_target_index));
    assert(p.subrange(69, 71) =~= spec_u16_to_le_bytes(c->CreateOrder_market_index));
    assert(p.subrange(71, 79) =~= spec_u64_to_le_bytes(c->CreateOrder_coin_lot_size));
    assert(p.subrange(79, 87) =~= spec_u64_to_le_bytes(c->CreateOrder_pc_lot_size));
    assert(p.subrange(87, 119) =~= c->CreateOrder_target_mint);
}

/// Round-trip: decoding the canonical encoding of any well-formed command,
/// of any variant, yields that command back, byte-for-byte including the
/// pool seed, the market list and the deposit amounts.
pub proof fn lemma_round_trip(c: Command)
    requires
        c.wf(),
    ensures
        spec_decode(spec_encode(c)) == Ok::<Command, PoolError>(c),
{
    lemma_auto_spec_u16_to_from_le_bytes();
    lemma_auto_spec_u32_to_from_le_bytes();
    lemma_auto_spec_u64_to_from_le_bytes();
    lemma_auto_spec_u128_to_from_le_bytes();
    let b = spec_encode(c);
    let p = spec_payload(c);
    assert(b[0] == tag_code(c));
    assert(b.drop_first() =~= p);
    match c {
        Command::Init { pool_seed, max_number_of_assets, number_of_markets } => {
            assert(p.subrange(0, 32) =~= pool_seed);
            assert(p.subrange(32, 36) =~= vstd::bytes::spec_u32_to_le_bytes(
                max_number_of_assets,
            ));
            assert(p.subrange(36, 38) =~= spec_u16_to_le_bytes(number_of_markets));
            assert(spec_decode(b) == Ok::<Command, PoolError>(c));
        },
        Command::Create {
            pool_seed,
            serum_program_id,
            signal_provider_key,
            deposit_amounts,
            markets,
        } => {
            lemma_concat_keys_len(markets);
            lemma_concat_amounts_len(deposit_amounts);
            let mm = markets.len() as int;
            assert(p.len() == 98 + 32 * mm + 8 * deposit_amounts.len());
            assert(p.subrange(0, 32) =~= pool_seed);
            assert(p.subrange(32, 64) =~= serum_program_id);
            assert(p.subrange(64, 96) =~= signal_provider_key);
            assert(p.subrange(96, 98) =~= spec_u16_to_le_bytes(markets.len() as u16));
            assert(p.subrange(98, 98 + 32 * mm) =~= crate::codec::concat_keys(markets));
            lemma_keys_at_of_concat(p, 98, markets);
            assert(p.subrange(98 + 32 * mm, p.len() as int) =~= crate::codec::concat_amounts(
                deposit_amounts,
            ));
            lemma_amounts_at_of_concat(p, 98 + 32 * mm, deposit_amounts);
            assert(spec_decode(b) == Ok::<Command, PoolError>(c));
        },
        Command::Deposit { pool_seed, pool_token_amount } => {
            assert(p.subrange(0, 32) =~= pool_seed);
            assert(p.subrange(32, 40) =~= spec_u64_to_le_bytes(pool_token_amount));
            assert(spec_decode(b) == Ok::<Command, PoolError>(c));
        },
        Command::CreateOrder { side, order_type, self_trade_behavior, .. } => {
            lemma_create_order_layout(c);
            lemma_enum_codes_invert(side, order_type, self_trade_behavior);
            assert(spec_decode(b) == Ok::<Command, PoolError>(c));
        },
        Command::CancelOrder { pool_seed, side, order_id } => {
            assert(p.subrange(0, 32) =~= pool_seed);
            assert(p[32] == side_code(side));
            assert(p.subrange(33, 49) =~= vstd::bytes::spec_u128_to_le_bytes(order_id));
            assert(side_from_code(side_code(side)) == Some(side));
            assert(spec_decode(b) == Ok::<Command, PoolError>(c));
        },
        Command::SettleFunds { pool_seed, pc_index, coin_index } => {
            assert(p.subrange(0, 32) =~= pool_seed);
            assert(p.subrange(32, 40) =~= spec_u64_to_le_bytes(pc_index));
            assert(p.subrange(40, 48) =~= spec_u64_to_le_bytes(coin_index));
            assert(spec_decode(b) == Ok::<Command, PoolError>(c));
        },
        Command::Redeem { pool_seed, pool_token_amount } => {
            assert(p.subrange(0, 32) =~= pool_seed);
            assert(p.subrange(32, 40) =~= spec_u64_to_le_bytes(pool_token_amount));
            assert(spec_decode(b) == Ok::<Command, PoolError>(c));
        },
    }
}

/// Truncating the canonical encoding of any well-formed command to any
/// length that keeps the tag byte but falls short of the variant's minimum
/// fixed-field length decodes to `TruncatedField`.
pub proof fn lemma_truncation_rejected(c: Command, n: int)
    requires
        c.wf(),
        1 <= n < 1 + fixed_payload_len(c),
    ensures
        spec_decode(spec_encode(c).take(n)) == Err::<Command, PoolError>(
            PoolError::TruncatedField,
        ),
{
    lemma_auto_spec_u16_to_from_le_bytes();
    lemma_auto_spec_u32_to_from_le_bytes();
    lemma_auto_spec_u64_to_from_le_bytes();
    lemma_auto_spec_u128_to_from_le_bytes();
    let b = spec_encode(c);
    let p = spec_payload(c);
    assert(b.drop_first() =~= p);
    let q = b.take(n);
    assert(q[0] == tag_code(c));
    let qp = q.drop_first();
    assert(qp =~= p.take(n - 1));
    match c {
        Command::Init { .. } => {
            assert(spec_decode(q) == Err::<Command, PoolError>(PoolError::TruncatedField));
        },
        Command::Create { markets, deposit_amounts, .. } => {
            lemma_concat_keys_len(markets);
            lemma_concat_amounts_len(deposit_amounts);
            assert(spec_decode(q) == Err::<Command, PoolError>(PoolError::TruncatedField));
        },
        Command::Deposit { .. } => {
            assert(spec_decode(q) == Err::<Command, PoolError>(PoolError::TruncatedField));
        },
        Command::CreateOrder { side, order_type, self_trade_behavior, .. } => {
            lemma_create_order_layout(c);
            lemma_enum_codes_invert(side, order_type, self_trade_behavior);
            let k = n - 1;
            if k >= 41 {
                assert(qp.subrange(33, 41) =~= p.subrange(33, 41));
            }
            if k >= 43 {
                assert(qp.subrange(41, 43) =~= p.subrange(41, 43));
            }
            assert(spec_decode(q) == Err::<Command, PoolError>(PoolError::TruncatedField));
        },
        Command::CancelOrder { side, .. } => {
            assert(p[32] == side_code(side));
            assert(side_from_code(side_code(side)) == Some(side));
            assert(spec_decode(q) == Err::<Command, PoolError>(PoolError::TruncatedField));
        },
        Command::SettleFunds { .. } => {
            assert(spec_decode(q) == Err::<Command, PoolError>(PoolError::TruncatedField));
        },
        Command::Redeem { .. } => {
            assert(spec_decode(q) == Err::<Command, PoolError>(PoolError::TruncatedField));
        },
    }
}

/// Overwriting the side byte of a canonical `CreateOrder` encoding with any
/// value outside the two defined codes decodes to
/// `InvalidEnumerationValue`.
pub proof fn lemma_invalid_side_rejected(c: Command, v: u8)
    requires
        c is CreateOrder,
        c.wf(),
        v >= 2,
    ensures
        spec_decode(spec_encode(c).update(33, v)) == Err::<Command, PoolError>(
            PoolError::InvalidEnumerationValue,
        ),
{
    lemma_create_order_layout(c);
    let b = spec_encode(c);
    let p = spec_payload(c);
    assert(b.drop_first() =~= p);
    let b2 = b.update(33, v);
    let p2 = b2.drop_first();
    assert(p2 =~= p.update(32, v));
    assert(b2[0] == tag_code(c));
    assert(spec_decode(b2) == Err::<Command, PoolError>(PoolError::InvalidEnumerationValue));
}

/// Overwriting the order-type byte of a canonical `CreateOrder` encoding
/// with any value outside the three defined codes decodes to
/// `InvalidEnumerationValue`.
pub proof fn lemma_invalid_order_type_rejected(c: Command, v: u8)
    requires
        c is CreateOrder,
        c.wf(),
        v >= 3,
    ensures
        spec_decode(spec_encode(c).update(44, v)) == Err::<Command, PoolError>(
            PoolError::InvalidEnumerationValue,
        ),
{
    lemma_auto_spec_u16_to_from_le_bytes();
    lemma_auto_spec_u64_to_from_le_bytes();
    lemma_create_order_layout(c);
    lemma_enum_codes_invert(
        c->CreateOrder_side,
        c->CreateOrder_order_type,
        c->CreateOrder_self_trade_behavior,
    );
    let b = spec_encode(c);
    let p = spec_payload(c);
    assert(b.drop_first() =~= p);
    let b2 = b.update(44, v);
    let p2 = b2.drop_first();
    assert(p2 =~= p.update(43, v));
    assert(b2[0] == tag_code(c));
    assert(p2.subrange(33, 41) =~= p.subrange(33, 41));
    assert(p2.subrange(41, 43) =~= p.subrange(41, 43));
    assert(spec_decode(b2) == Err::<Command, PoolError>(PoolError::InvalidEnumerationValue));
}

/// Overwriting the self-trade-policy byte of a canonical `CreateOrder`
/// encoding with any value outside the two defined codes decodes to
/// `InvalidEnumerationValue`.
pub proof fn lemma_invalid_self_trade_rejected(c: Command, v: u8)
    requires
        c is CreateOrder,
        c.wf(),
        v >= 2,
    ensures
        spec_decode(spec_encode(c).update(53, v)) == Err::<Command, PoolError>(
            PoolError::InvalidEnumerationValue,
        ),
{
    lemma_auto_spec_u16_to_from_le_bytes();
    lemma_auto_spec_u64_to_from_le_bytes();
    lemma_create_order_layout(c);
    lemma_enum_codes_invert(
        c->CreateOrder_side,
        c->CreateOrder_order_type,
        c->CreateOrder_self_trade_behavior,
    );
    let b = spec_encode(c);
    let p = spec_payload(c);
    assert(b.drop_first() =~= p);
    let b2 = b.update(53, v);
    let p2 = b2.drop_first();
    assert(p2 =~= p.update(52, v));
    assert(b2[0] == tag_code(c));
    assert(p2.subrange(33, 41) =~= p.subrange(33, 41));
    assert(p2.subrange(41, 43) =~= p.subrange(41, 43));
    assert(spec_decode(b2) == Err::<Command, PoolError>(PoolError::InvalidEnumerationValue));
}

/// Overwriting the `limit_price` field of a canonical `CreateOrder`
/// encoding with any 8 bytes that decode to zero (the all-zero bytes are
/// exactly these) decodes to `ZeroConstraintViolated`.
pub proof fn lemma_zero_limit_price_rejected(c: Command, z: Seq<u8>)
    requires
        c is CreateOrder,
        c.wf(),
        z.len() == 8,
        spec_u64_from_le_bytes(z) == 0,
    ensures
        ({
            let b = spec_encode(c);
            spec_decode(b.take(34) + z + b.skip(42)) == Err::<Command, PoolError>(
                PoolError::ZeroConstraintViolated,
            )
        }),
{
    lemma_auto_spec_u16_to_from_le_bytes();
    lemma_auto_spec_u64_to_from_le_bytes();
    lemma_create_order_layout(c);
    lemma_enum_codes_invert(
        c->CreateOrder_side,
        c->CreateOrder_order_type,
        c->CreateOrder_self_trade_behavior,
    );
    let b = spec_encode(c);
    let p = spec_payload(c);
    assert(b.drop_first() =~= p);
    let b2 = b.take(34) + z + b.skip(42);
    let p2 = b2.drop_first();
    assert(b2[0] == tag_code(c));
    assert(p2.len() == 119);
    assert(p2[32] == p[32]);
    assert(p2.subrange(33, 41) =~= z);
    assert(spec_decode(b2) == Err::<Command, PoolError>(PoolError::ZeroConstraintViolated));
}

/// Overwriting the `ratio_of_pool_assets_to_trade` field of a canonical
/// `CreateOrder` encoding with any 2 bytes that decode to zero (the
/// all-zero bytes are exactly these) decodes to `ZeroConstraintViolated`.
pub proof fn lemma_zero_ratio_rejected(c: Command, z: Seq<u8>)
    requires
        c is CreateOrder,
        c.wf(),
        z.len() == 2,
        spec_u16_from_le_bytes(z) == 0,
    ensures
        ({
            let b = spec_encode(c);
            spec_decode(b.take(42) + z + b.skip(44)) == Err::<Command, PoolError>(
                PoolError::ZeroConstraintViolated,
            )
        }),
{
    lemma_auto_spec_u16_to_from_le_bytes();
    lemma_auto_spec_u64_to_from_le_bytes();
    lemma_create_order_layout(c);
    lemma_enum_codes_invert(
        c->CreateOrder_side,
        c->CreateOrder_order_type,
        c->CreateOrder_self_trade_behavior,
    );
    let b = spec_encode(c);
    let p = spec_payload(c);
    assert(b.drop_first() =~= p);
    let b2 = b.take(42) + z + b.skip(44);
    let p2 = b2.drop_first();
    assert(b2[0] == tag_code(c));
    assert(p2.len() == 119);
    assert(p2[32] == p[32]);
    assert(p2.subrange(33, 41) =~= p.subrange(33, 41));
    assert(p2.subrange(41, 43) =~= z);
    assert(spec_decode(b2) == Err::<Command, PoolError>(PoolError::ZeroConstraintViolated));
}

/// Appending fewer than 8 trailing bytes to the canonical encoding of a
/// well-formed `Create` command changes nothing: the decoder consumes the
/// framed market list and every full 8-byte amount group, and silently
/// discards the leftover bytes.
pub proof fn lemma_trailing_bytes_ignored(c: Command, junk: Seq<u8>)
    requires
        c is Create,
        c.wf(),
        junk.len() < 8,
    ensures
        spec_decode(spec_encode(c) + junk) == Ok::<Command, PoolError>(c),
{
    lemma_auto_spec_u16_to_from_le_bytes();
    lemma_auto_spec_u64_to_from_le_bytes();
    let markets = c->Create_markets;
    let deposit_amounts = c->Create_deposit_amounts;
    lemma_concat_keys_len(markets);
    lemma_concat_amounts_len(deposit_amounts);
    let mm = markets.len() as int;
    let dd = deposit_amounts.len() as int;
    let b = spec_encode(c);
    let p = spec_payload(c);
    let b2 = b + junk;
    let p2 = b2.drop_first();
    assert(b2[0] == tag_code(c));
    assert(p2 =~= p + junk);
    assert(p2.len() == 98 + 32 * mm + 8 * dd + junk.len());
    assert(p2.subrange(0, 32) =~= c->Create_pool_seed);
    assert(p2.subrange(32, 64) =~= c->Create_serum_program_id);
    assert(p2.subrange(64, 96) =~= c->Create_signal_provider_key);
    assert(p2.subrange(96, 98) =~= spec_u16_to_le_bytes(markets.len() as u16));
    assert(p2.subrange(98, 98 + 32 * mm) =~= crate::codec::concat_keys(markets));
    lemma_keys_at_of_concat(p2, 98, markets);
    assert(p2.subrange(98 + 32 * mm, 98 + 32 * mm + 8 * dd) =~= crate::codec::concat_amounts(
        deposit_amounts,
    ));
    lemma_amounts_at_of_concat(p2, 98 + 32 * mm, deposit_amounts);
    assert(spec_decode(b2) == Ok::<Command, PoolError>(c));
}

/// A buffer whose first byte is 7 or more always decodes to
/// `UnknownOpcode`, regardless of the remaining content.
pub proof fn lemma_unknown_opcode_rejected(s: Seq<u8>)
    requires
        s.len() > 0,
        s[0] >= 7,
    ensures
        spec_decode(s) == Err::<Command, PoolError>(PoolError::UnknownOpcode),
{
}

/// Every command the decoder yields is well-formed: its keys are 32 bytes,
/// its market count fits the 16-bit count field, and its
/// nonzero-constrained fields are nonzero. Constructing by decoding
/// establishes the same invariant that the encoder requires.
pub proof fn lemma_decode_well_formed(s: Seq<u8>)
    ensures
        spec_decode(s) matches Ok(c) ==> c.wf(),
{
    if s.len() > 0 && s[0] == 1 {
        let p = s.drop_first();
        if p.len() >= 98 {
            let m = spec_u16_from_le_bytes(p.subrange(96, 98)) as int;
            if p.len() >= 98 + 32 * m {
                lemma_keys_at_index(p, 98, m);
            }
        }
    }
}

/// A run of eight zero bytes is exactly the little-endian encoding of the
/// 64-bit value zero, so corrupting `limit_price` to all-zero bytes
/// satisfies the hypothesis of [`lemma_zero_limit_price_rejected`].
pub proof fn lemma_zero_bytes_decode_zero()
    ensures
        spec_u64_to_le_bytes(0) == seq![0u8, 0u8, 0u8, 0u8, 0u8, 0u8, 0u8, 0u8],
        spec_u64_from_le_bytes(seq![0u8, 0u8, 0u8, 0u8, 0u8, 0u8, 0u8, 0u8]) == 0,
{
    lemma_auto_spec_u64_to_from_le_bytes();
    vstd::bytes::spec_u64_to_le_bytes_to_open(0);
    assert(0u64 & 0xff == 0 && (0u64 >> 8) & 0xff == 0 && (0u64 >> 16) & 0xff == 0 && (0u64 >> 24)
        & 0xff == 0 && (0u64 >> 32) & 0xff == 0 && (0u64 >> 40) & 0xff == 0 && (0u64 >> 48) & 0xff
        == 0 && (0u64 >> 56) & 0xff == 0) by (bit_vector);
    assert(vstd::bytes::spec_u64_to_le_bytes_open(0) =~= seq![0u8, 0u8, 0u8, 0u8, 0u8, 0u8, 0u8, 0u8]);
}

} // verus!
