//! The command data model: the seven pool commands, their mathematical
//! model, and the encoder and decoder entry points.

use vstd::prelude::*;

use vstd::slice::{slice_index_get, slice_subrange};

use crate::codec::{
    amounts_at, concat_amounts, concat_keys, keys_at, lemma_concat_amounts_push,
    lemma_concat_keys_push, read_key, read_u128, read_u16, read_u32, read_u64, spec_decode,
    spec_encode, write_key, write_u128, write_u16, write_u32, write_u64,
};
use crate::error::PoolError;
use crate::types::{
    decode_order_type, decode_self_trade, decode_side, encode_order_type, encode_self_trade,
    encode_side, OrderType, Pubkey, SelfTradeBehavior, Side,
};

verus! {

/// The byte sequences of a list of keys, in order.
pub open spec fn keys_view(ms: Seq<Pubkey>) -> Seq<Seq<u8>> {
    ms.map_values(|k: Pubkey| k@)
}

/// The mathematical model of a command: the same seven variants as
/// [`PoolInstruction`], with every byte-string field abstracted to a
/// byte sequence. Contracts and the wire-format description
/// ([`crate::codec`]) are stated over this type.
pub enum Command {
    Init {
        pool_seed: Seq<u8>,
        max_number_of_assets: u32,
        number_of_markets: u16,
    },
    Create {
        pool_seed: Seq<u8>,
        serum_program_id: Seq<u8>,
        signal_provider_key: Seq<u8>,
        deposit_amounts: Seq<u64>,
        markets: Seq<Seq<u8>>,
    },
    Deposit {
        pool_seed: Seq<u8>,
        pool_token_amount: u64,
    },
    CreateOrder {
        pool_seed: Seq<u8>,
        side: Side,
        limit_price: u64,
        ratio_of_pool_assets_to_trade: u16,
        order_type: OrderType,
        client_id: u64,
        self_trade_behavior: SelfTradeBehavior,
        source_index: u64,
        target_index: u64,
        market_index: u16,
        coin_lot_size: u64,
        pc_lot_size: u64,
        target_mint: Seq<u8>,
    },
    CancelOrder {
        pool_seed: Seq<u8>,
        side: Side,
        order_id: u128,
    },
    SettleFunds {
        pool_seed: Seq<u8>,
        pc_index: u64,
        coin_index: u64,
    },
    Redeem {
        pool_seed: Seq<u8>,
        pool_token_amount: u64,
    },
}

impl Command {
    /// Well-formedness: every key is 32 bytes; the market list's count fits
    /// the 16-bit count field; the nonzero-constrained fields are nonzero.
    /// The decoder only produces well-formed commands, and the encoder is
    /// specified on exactly these.
    pub open spec fn wf(self) -> bool {
        match self {
            Command::Init { pool_seed, .. } => pool_seed.len() == 32,
            Command::Create {
                pool_seed,
                serum_program_id,
                signal_provider_key,
                markets,
                ..
            } => {
                &&& pool_seed.len() == 32
                &&& serum_program_id.len() == 32
                &&& signal_provider_key.len() == 32
                &&& markets.len() <= 0xffff
                &&& forall|i: int| 0 <= i < markets.len() ==> markets[i].len() == 32
            },
            Command::Deposit { pool_seed, .. } => pool_seed.len() == 32,
            Command::CreateOrder {
                pool_seed,
                limit_price,
                ratio_of_pool_assets_to_trade,
                target_mint,
                ..
            } => {
                &&& pool_seed.len() == 32
                &&& target_mint.len() == 32
                &&& limit_price != 0
                &&& ratio_of_pool_assets_to_trade != 0
            },
            Command::CancelOrder { pool_seed, .. } => pool_seed.len() == 32,
            Command::SettleFunds { pool_seed, .. } => pool_seed.len() == 32,
            Command::Redeem { pool_seed, .. } => pool_seed.len() == 32,
        }
    }
}

/// A pool command, as callers construct it and as the decoder returns it.
///
/// `pool_seed` is the first 32 bytes after the tag in every variant: it
/// names the pool the command targets. The nonzero constraints on
/// `limit_price` and `ratio_of_pool_assets_to_trade` and the market-count
/// bound are the type's well-formedness condition [`PoolInstruction::wf`]:
/// the decoder establishes it and the encoder requires it.
#[derive(Clone, Debug, PartialEq)]
pub enum PoolInstruction {
    /// Initializes an empty pool account.
    Init {
        /// The seed used to derive the pool account.
        pool_seed: [u8; 32],
        /// The maximum number of token asset types the pool will ever hold.
        max_number_of_assets: u32,
        number_of_markets: u16,
    },
    /// Creates a new pool from an empty one by performing the first deposit
    /// and setting the key of the signal provider.
    Create {
        pool_seed: [u8; 32],
        serum_program_id: Pubkey,
        signal_provider_key: Pubkey,
        /// Not length-prefixed on the wire: every remaining 8-byte group
        /// after the market list decodes as one amount, and 1 to 7 trailing
        /// leftover bytes are silently discarded. Callers must frame the
        /// buffer to end exactly on an 8-byte boundary, or trailing amounts
        /// are dropped rather than rejected.
        deposit_amounts: Vec<u64>,
        /// Length-prefixed on the wire by a 16-bit count, unlike
        /// `deposit_amounts`. The asymmetry is load-bearing for wire
        /// compatibility and is preserved exactly.
        markets: Vec<Pubkey>,
    },
    /// Buys into the pool: deposits tokens, receives pool tokens.
    Deposit {
        pool_seed: [u8; 32],
        /// The amount of pool tokens the source wishes to buy.
        pool_token_amount: u64,
    },
    /// As the signal provider, creates a new order for the pool.
    CreateOrder {
        pool_seed: [u8; 32],
        side: Side,
        /// Nonzero: zero on the wire is a decode failure.
        limit_price: u64,
        /// Nonzero fixed-point fraction, numerator over 2^16 - 1.
        ratio_of_pool_assets_to_trade: u16,
        order_type: OrderType,
        client_id: u64,
        self_trade_behavior: SelfTradeBehavior,
        source_index: u64,
        target_index: u64,
        market_index: u16,
        coin_lot_size: u64,
        pc_lot_size: u64,
        target_mint: Pubkey,
    },
    /// As the signal provider, cancels an order for the pool.
    CancelOrder {
        pool_seed: [u8; 32],
        side: Side,
        order_id: u128,
    },
    /// A permissionless crank to settle funds out of one of the pool's
    /// active open-orders accounts.
    SettleFunds {
        pool_seed: [u8; 32],
        pc_index: u64,
        coin_index: u64,
    },
    /// Buys out of the pool by redeeming pool tokens.
    Redeem {
        pool_seed: [u8; 32],
        /// The amount of pool tokens the source wishes to redeem.
        pool_token_amount: u64,
    },
}

impl View for PoolInstruction {
    type V = Command;

    open spec fn view(&self) -> Command {
        match *self {
            PoolInstruction::Init { pool_seed, max_number_of_assets, number_of_markets } => {
                Command::Init { pool_seed: pool_seed@, max_number_of_assets, number_of_markets }
            },
            PoolInstruction::Create {
                pool_seed,
                serum_program_id,
                signal_provider_key,
                deposit_amounts,
                markets,
            } => {
                Command::Create {
                    pool_seed: pool_seed@,
                    serum_program_id: serum_program_id@,
                    signal_provider_key: signal_provider_key@,
                    deposit_amounts: deposit_amounts@,
                    markets: keys_view(markets@),
                }
            },
            PoolInstruction::Deposit { pool_seed, pool_token_amount } => {
                Command::Deposit { pool_seed: pool_seed@, pool_token_amount }
            },
            PoolInstruction::CreateOrder {
                pool_seed,
                side,
                limit_price,
                ratio_of_pool_assets_to_trade,
                order_type,
                client_id,
                self_trade_behavior,
                source_index,
                target_index,
                market_index,
                coin_lot_size,
                pc_lot_size,
                target_mint,
            } => {
                Command::CreateOrder {
                    pool_seed: pool_seed@,
                    side,
                    limit_price,
                    ratio_of_pool_assets_to_trade,
                    order_type,
                    client_id,
                    self_trade_behavior,
                    source_index,
                    target_index,
                    market_index,
                    coin_lot_size,
                    pc_lot_size,
                    target_mint: target_mint@,
                }
            },
            PoolInstruction::CancelOrder { pool_seed, side, order_id } => {
                Command::CancelOrder { pool_seed: pool_seed@, side, order_id }
            },
            PoolInstruction::SettleFunds { pool_seed, pc_index, coin_index } => {
                Command::SettleFunds { pool_seed: pool_seed@, pc_index, coin_index }
            },
            PoolInstruction::Redeem { pool_seed, pool_token_amount } => {
                Command::Redeem { pool_seed: pool_seed@, pool_token_amount }
            },
        }
    }
}

impl PoolInstruction {
    /// Well-formedness of an in-memory command: its model is well-formed.
    /// The key lengths hold by construction; what remains is the market
    /// count bound and the nonzero constraints.
    pub open spec fn wf(self) -> bool {
        self@.wf()
    }

    /// Parses a byte buffer into a command, validating every field at its
    /// fixed offset in declaration order; the first field that cannot be
    /// read decides the typed failure. Never consumes more bytes than the
    /// buffer contains without failing, and never panics: every fixed-width
    /// read, the seed included, goes through the same bounds-checked path.
    /// Returns exactly what the wire-format description
    /// ([`crate::codec::spec_decode`]) gives for the buffer, and every
    /// command returned is well-formed.
    pub fn unpack(input: &[u8]) -> (r: Result<PoolInstruction, PoolError>)
        ensures
            match r {
                Ok(c) => c.wf() && spec_decode(input@) == Ok::<Command, PoolError>(c@),
                Err(e) => spec_decode(input@) == Err::<Command, PoolError>(e),
            },
    {
        let n = input.len();
        if n == 0 {
            return Err(PoolError::EmptyBuffer);
        }
        let tag = *slice_index_get(input, 0);
        let p = slice_subrange(input, 1, n);
        proof {
            assert(p@ =~= input@.drop_first());
        }
        let pn = p.len();
        match tag {
            0 => {
                if pn < 38 {
                    return Err(PoolError::TruncatedField);
                }
                let pool_seed = read_key(p, 0);
                let max_number_of_assets = read_u32(p, 32);
                let number_of_markets = read_u16(p, 36);
                Ok(PoolInstruction::Init { pool_seed, max_number_of_assets, number_of_markets })
            },
            1 => {
                if pn < 98 {
                    return Err(PoolError::TruncatedField);
                }
                let m = read_u16(p, 96) as usize;
                let ghost mi = m as int;
                if pn < 98 + 32 * m {
                    return Err(PoolError::TruncatedField);
                }
                let pool_seed = read_key(p, 0);
                let serum_program_id = Pubkey::new(read_key(p, 32));
                let signal_provider_key = Pubkey::new(read_key(p, 64));
                let mut markets: Vec<Pubkey> = Vec::new();
                let mut i: usize = 0;
                while i < m
                    invariant
                        i <= m,
                        mi == m as int,
                        98 + 32 * mi <= p@.len(),
                        p@.len() <= usize::MAX,
                        markets@.len() == i,
                        forall|t: int|
                            0 <= t < i ==> (#[trigger] markets@[t])@ == p@.subrange(
                                98 + 32 * t,
                                98 + 32 * t + 32,
                            ),
                    decreases m - i,
                {
                    let k = read_key(p, 98 + 32 * i);
                    markets.push(Pubkey::new(k));
                    i += 1;
                }
                let mut deposit_amounts: Vec<u64> = Vec::new();
                let mut k: usize = 98 + 32 * m;
                while k <= pn - 8
                    invariant
                        pn == p@.len(),
                        98 <= pn,
                        98 + 32 * mi <= k as int <= p@.len(),
                        amounts_at(p@, 98 + 32 * mi) == deposit_amounts@ + amounts_at(
                            p@,
                            k as int,
                        ),
                    decreases p@.len() - k,
                {
                    let a = read_u64(p, k);
                    deposit_amounts.push(a);
                    proof {
                        assert(deposit_amounts@ + amounts_at(p@, k as int + 8) =~= amounts_at(
                            p@,
                            98 + 32 * mi,
                        ));
                    }
                    k += 8;
                }
                proof {
                    assert(amounts_at(p@, k as int) =~= Seq::<u64>::empty());
                    assert(deposit_amounts@ =~= amounts_at(p@, 98 + 32 * mi));
                    crate::codec::lemma_keys_at_index(p@, 98, mi);
                    assert(keys_view(markets@) =~= keys_at(p@, 98, mi));
                }
                Ok(
                    PoolInstruction::Create {
                        pool_seed,
                        serum_program_id,
                        signal_provider_key,
                        deposit_amounts,
                        markets,
                    },
                )
            },
            2 => {
                if pn < 40 {
                    return Err(PoolError::TruncatedField);
                }
                let pool_seed = read_key(p, 0);
                let pool_token_amount = read_u64(p, 32);
                Ok(PoolInstruction::Deposit { pool_seed, pool_token_amount })
            },
            3 => {
                if pn < 33 {
                    return Err(PoolError::TruncatedField);
                }
                let side = match decode_side(*slice_index_get(p, 32)) {
                    Ok(s) => s,
                    Err(e) => {
                        return Err(e);
                    },
                };
                if pn < 41 {
                    return Err(PoolError::TruncatedField);
                }
                let limit_price = read_u64(p, 33);
                if limit_price == 0 {
                    return Err(PoolError::ZeroConstraintViolated);
                }
                if pn < 43 {
                    return Err(PoolError::TruncatedField);
                }
                let ratio_of_pool_assets_to_trade = read_u16(p, 41);
                if ratio_of_pool_assets_to_trade == 0 {
                    return Err(PoolError::ZeroConstraintViolated);
                }
                if pn < 44 {
                    return Err(PoolError::TruncatedField);
                }
                let order_type = match decode_order_type(*slice_index_get(p, 43)) {
                    Ok(t) => t,
                    Err(e) => {
                        return Err(e);
                    },
                };
                if pn < 53 {
                    return Err(PoolError::TruncatedField);
                }
                let client_id = read_u64(p, 44);
                let self_trade_behavior = match decode_self_trade(*slice_index_get(p, 52)) {
                    Ok(t) => t,
                    Err(e) => {
                        return Err(e);
                    },
                };
                if pn < 119 {
                    return Err(PoolError::TruncatedField);
                }
                let pool_seed = read_key(p, 0);
                let source_index = read_u64(p, 53);
                let target_index = read_u64(p, 61);
                let market_index = read_u16(p, 69);
                let coin_lot_size = read_u64(p, 71);
                let pc_lot_size = read_u64(p, 79);
                let target_mint = Pubkey::new(read_key(p, 87));
                Ok(
                    PoolInstruction::CreateOrder {
                        pool_seed,
                        side,
                        limit_price,
                        ratio_of_pool_assets_to_trade,
                        order_type,
                        client_id,
                        self_trade_behavior,
                        source_index,
                        target_index,
                        market_index,
                        coin_lot_size,
                        pc_lot_size,
                        target_mint,
                    },
                )
            },
            4 => {
                if pn < 33 {
                    return Err(PoolError::TruncatedField);
                }
                let side = match decode_side(*slice_index_get(p, 32)) {
                    Ok(s) => s,
                    Err(e) => {
                        return Err(e);
                    },
                };
                if pn < 49 {
                    return Err(PoolError::TruncatedField);
                }
                let pool_seed = read_key(p, 0);
                let order_id = read_u128(p, 33);
                Ok(PoolInstruction::CancelOrder { pool_seed, side, order_id })
            },
            5 => {
                if pn < 48 {
                    return Err(PoolError::TruncatedField);
                }
                let pool_seed = read_key(p, 0);
                let pc_index = read_u64(p, 32);
                let coin_index = read_u64(p, 40);
                Ok(PoolInstruction::SettleFunds { pool_seed, pc_index, coin_index })
            },
            6 => {
                if pn < 40 {
                    return Err(PoolError::TruncatedField);
                }
                let pool_seed = read_key(p, 0);
                let pool_token_amount = read_u64(p, 32);
                Ok(PoolInstruction::Redeem { pool_seed, pool_token_amount })
            },
            _ => Err(PoolError::UnknownOpcode),
        }
    }

    /// Serializes the command into the unique canonical byte buffer that
    /// [`PoolInstruction::unpack`] inverts to an equal value: the tag byte,
    /// then every field in declaration order at its fixed width. For
    /// `Create`, the market count (16-bit) precedes the market keys, and
    /// `deposit_amounts` is written as a flat run of 8-byte groups with no
    /// count or terminator, relying on the decoder's implicit-length
    /// convention. Deterministic, and never fails: the well-formedness
    /// condition is established at construction time, not re-checked here.
    pub fn pack(&self) -> (r: Vec<u8>)
        requires
            self.wf(),
        ensures
            r@ == spec_encode(self@),
    {
        let mut buf: Vec<u8> = Vec::new();
        match self {
            PoolInstruction::Init { pool_seed, max_number_of_assets, number_of_markets } => {
                buf.push(0);
                write_key(&mut buf, pool_seed);
                write_u32(&mut buf, *max_number_of_assets);
                write_u16(&mut buf, *number_of_markets);
                proof {
                    assert(buf@ =~= spec_encode(self@));
                }
            },
            PoolInstruction::Create {
                pool_seed,
                serum_program_id,
                signal_provider_key,
                deposit_amounts,
                markets,
            } => {
                proof {
                    assert(keys_view(markets@).len() == markets@.len());
                }
                buf.push(1);
                write_key(&mut buf, pool_seed);
                write_key(&mut buf, &serum_program_id.bytes);
                write_key(&mut buf, &signal_provider_key.bytes);
                write_u16(&mut buf, markets.len() as u16);
                let ghost head = buf@;
                let mut i: usize = 0;
                while i < markets.len()
                    invariant
                        i <= markets@.len(),
                        buf@ == head + concat_keys(keys_view(markets@).take(i as int)),
                    decreases markets@.len() - i,
                {
                    let k = markets[i].to_bytes();
                    write_key(&mut buf, &k);
                    proof {
                        let mv = keys_view(markets@);
                        assert(mv.take(i as int + 1) =~= mv.take(i as int).push(mv[i as int]));
                        lemma_concat_keys_push(mv.take(i as int), mv[i as int]);
                        assert(mv[i as int] == markets@[i as int]@);
                        assert(buf@ =~= head + concat_keys(mv.take(i as int + 1)));
                    }
                    i += 1;
                }
                let ghost head2 = buf@;
                let mut j: usize = 0;
                while j < deposit_amounts.len()
                    invariant
                        j <= deposit_amounts@.len(),
                        buf@ == head2 + concat_amounts(deposit_amounts@.take(j as int)),
                    decreases deposit_amounts@.len() - j,
                {
                    write_u64(&mut buf, deposit_amounts[j]);
                    proof {
                        let ds = deposit_amounts@;
                        assert(ds.take(j as int + 1) =~= ds.take(j as int).push(ds[j as int]));
                        lemma_concat_amounts_push(ds.take(j as int), ds[j as int]);
                        assert(buf@ =~= head2 + concat_amounts(ds.take(j as int + 1)));
                    }
                    j += 1;
                }
                proof {
                    let mv = keys_view(markets@);
                    assert(mv.take(markets@.len() as int) =~= mv);
                    assert(deposit_amounts@.take(deposit_amounts@.len() as int)
                        =~= deposit_amounts@);
                    assert(buf@ =~= spec_encode(self@));
                }
            },
            PoolInstruction::Deposit { pool_seed, pool_token_amount } => {
                buf.push(2);
                write_key(&mut buf, pool_seed);
                write_u64(&mut buf, *pool_token_amount);
                proof {
                    assert(buf@ =~= spec_encode(self@));
                }
            },
            PoolInstruction::CreateOrder {
                pool_seed,
                side,
                limit_price,
                ratio_of_pool_assets_to_trade,
                order_type,
                client_id,
                self_trade_behavior,
                source_index,
                target_index,
                market_index,
                coin_lot_size,
                pc_lot_size,
                target_mint,
            } => {
                buf.push(3);
                write_key(&mut buf, pool_seed);
                buf.push(encode_side(*side));
                write_u64(&mut buf, *limit_price);
                write_u16(&mut buf, *ratio_of_pool_assets_to_trade);
                buf.push(encode_order_type(*order_type));
                write_u64(&mut buf, *client_id);
                buf.push(encode_self_trade(*self_trade_behavior));
                write_u64(&mut buf, *source_index);
                write_u64(&mut buf, *target_index);
                write_u16(&mut buf, *market_index);
                write_u64(&mut buf, *coin_lot_size);
                write_u64(&mut buf, *pc_lot_size);
                write_key(&mut buf, &target_mint.bytes);
                proof {
                    assert(buf@ =~= spec_encode(self@));
                }
            },
            PoolInstruction::CancelOrder { pool_seed, side, order_id } => {
                buf.push(4);
                write_key(&mut buf, pool_seed);
                buf.push(encode_side(*side));
                write_u128(&mut buf, *order_id);
                proof {
                    assert(buf@ =~= spec_encode(self@));
                }
            },
            PoolInstruction::SettleFunds { pool_seed, pc_index, coin_index } => {
                buf.push(5);
                write_key(&mut buf, pool_seed);
                write_u64(&mut buf, *pc_index);
                write_u64(&mut buf, *coin_index);
                proof {
                    assert(buf@ =~= spec_encode(self@));
                }
            },
            PoolInstruction::Redeem { pool_seed, pool_token_amount } => {
                buf.push(6);
                write_key(&mut buf, pool_seed);
                write_u64(&mut buf, *pool_token_amount);
                proof {
                    assert(buf@ =~= spec_encode(self@));
                }
            },
        }
        buf
    }
}

} // verus!
