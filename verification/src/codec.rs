//! The mathematical description of the wire format.
//!
//! One buffer is one tag byte followed by the variant's payload: fields in
//! declaration order, multi-byte integers little-endian, no padding and no
//! overall length prefix. [`spec_encode`] gives the canonical bytes of a
//! well-formed command; [`spec_decode`] gives the command or the typed
//! failure that any buffer decodes to. The executable encoder and decoder
//! ([`crate::instruction::PoolInstruction::pack`] and
//! [`crate::instruction::PoolInstruction::unpack`]) are proved to return
//! exactly these.

use vstd::bytes::{
    spec_u128_from_le_bytes, spec_u128_to_le_bytes, spec_u16_from_le_bytes, spec_u16_to_le_bytes,
    spec_u32_from_le_bytes, spec_u32_to_le_bytes, spec_u64_from_le_bytes, spec_u64_to_le_bytes,
    u128_from_le_bytes, u128_to_le_bytes, u16_from_le_bytes, u16_to_le_bytes, u32_from_le_bytes,
    u32_to_le_bytes, u64_from_le_bytes, u64_to_le_bytes,
};
use vstd::prelude::*;
use vstd::slice::{slice_index_get, slice_subrange};

use crate::error::PoolError;
use crate::instruction::Command;
use crate::types::{
    order_type_code, order_type_from_code, self_trade_code, self_trade_from_code, side_code,
    side_from_code,
};

verus! {

/// The one-byte tag of each command kind: the opcode registry. The set is
/// closed; the decoder rejects every tag outside it.
pub open spec fn tag_code(c: Command) -> u8 {
    match c {
        Command::Init { .. } => 0,
        Command::Create { .. } => 1,
        Command::Deposit { .. } => 2,
        Command::CreateOrder { .. } => 3,
        Command::CancelOrder { .. } => 4,
        Command::SettleFunds { .. } => 5,
        Command::Redeem { .. } => 6,
    }
}

/// The concatenation of a list of 32-byte keys, in order.
pub open spec fn concat_keys(ms: Seq<Seq<u8>>) -> Seq<u8>
    decreases ms.len(),
{
    if ms.len() == 0 {
        Seq::empty()
    } else {
        ms[0] + concat_keys(ms.drop_first())
    }
}

/// The concatenation of a list of amounts, each as 8 little-endian bytes,
/// in order, with no count and no terminator.
pub open spec fn concat_amounts(ds: Seq<u64>) -> Seq<u8>
    decreases ds.len(),
{
    if ds.len() == 0 {
        Seq::empty()
    } else {
        spec_u64_to_le_bytes(ds[0]) + concat_amounts(ds.drop_first())
    }
}

/// The payload of a command: its fields after the tag byte, in declaration
/// order. `pool_seed` is bytes 0..32 in every variant.
pub open spec fn spec_payload(c: Command) -> Seq<u8> {
    match c {
        Command::Init { pool_seed, max_number_of_assets, number_of_markets } => {
            pool_seed + spec_u32_to_le_bytes(max_number_of_assets)
                + spec_u16_to_le_bytes(number_of_markets)
        },
        Command::Create {
            pool_seed,
            serum_program_id,
            signal_provider_key,
            deposit_amounts,
            markets,
        } => {
            pool_seed + serum_program_id + signal_provider_key
                + spec_u16_to_le_bytes(markets.len() as u16) + concat_keys(markets)
                + concat_amounts(deposit_amounts)
        },
        Command::Deposit { pool_seed, pool_token_amount } => {
            pool_seed + spec_u64_to_le_bytes(pool_token_amount)
        },
        Command::CreateOrder {
            pool_seed,
            side,
            limit_price,
            ratio_of_pool_assets_to_trade,
            order_type,
            client_id,
            self_trade_behavior,
            source_index,
            target_index,
            market_index,
            coin_lot_size,
            pc_lot_size,
            target_mint,
        } => {
            pool_seed + seq![side_code(side)] + spec_u64_to_le_bytes(limit_price)
                + spec_u16_to_le_bytes(ratio_of_pool_assets_to_trade)
                + seq![order_type_code(order_type)] + spec_u64_to_le_bytes(client_id)
                + seq![self_trade_code(self_trade_behavior)] + spec_u64_to_le_bytes(source_index)
                + spec_u64_to_le_bytes(target_index) + spec_u16_to_le_bytes(market_index)
                + spec_u64_to_le_bytes(coin_lot_size) + spec_u64_to_le_bytes(pc_lot_size)
                + target_mint
        },
        Command::CancelOrder { pool_seed, side, order_id } => {
            pool_seed + seq![side_code(side)] + spec_u128_to_le_bytes(order_id)
        },
        Command::SettleFunds { pool_seed, pc_index, coin_index } => {
            pool_seed + spec_u64_to_le_bytes(pc_index) + spec_u64_to_le_bytes(coin_index)
        },
        Command::Redeem { pool_seed, pool_token_amount } => {
            pool_seed + spec_u64_to_le_bytes(pool_token_amount)
        },
    }
}

/// The canonical encoding of a well-formed command: the tag byte, then the
/// payload.
pub open spec fn spec_encode(c: Command) -> Seq<u8> {
    seq![tag_code(c)] + spec_payload(c)
}

/// The length of a variant's fixed fields in the payload: every field up to
/// and including the last one at a fixed offset. A payload shorter than
/// this is truncated; `Create` alone carries variable-length data beyond it.
pub open spec fn fixed_payload_len(c: Command) -> int {
    match c {
        Command::Init { .. } => 38,
        Command::Create { .. } => 98,
        Command::Deposit { .. } => 40,
        Command::CreateOrder { .. } => 119,
        Command::CancelOrder { .. } => 49,
        Command::SettleFunds { .. } => 48,
        Command::Redeem { .. } => 40,
    }
}

/// The keys decoded from `s` at offsets `off`, `off + 32`, ... : `m`
/// consecutive 32-byte groups.
pub open spec fn keys_at(s: Seq<u8>, off: int, m: int) -> Seq<Seq<u8>>
    decreases m,
{
    if m <= 0 {
        Seq::empty()
    } else {
        seq![s.subrange(off, off + 32)] + keys_at(s, off + 32, m - 1)
    }
}

/// The amounts decoded from `s` from offset `off` to the end: one amount
/// per full 8-byte group, stopping at the first group that does not fit.
/// Between 1 and 7 leftover bytes are silently discarded, not an error.
pub open spec fn amounts_at(s: Seq<u8>, off: int) -> Seq<u64>
    decreases s.len() - off,
{
    if 0 <= off && off + 8 <= s.len() {
        seq![spec_u64_from_le_bytes(s.subrange(off, off + 8))] + amounts_at(s, off + 8)
    } else {
        Seq::empty()
    }
}

/// Decodes an `Init` payload.
pub open spec fn decode_init(p: Seq<u8>) -> Result<Command, PoolError> {
    if p.len() < 38 {
        Err(PoolError::TruncatedField)
    } else {
        Ok(
            Command::Init {
                pool_seed: p.subrange(0, 32),
                max_number_of_assets: spec_u32_from_le_bytes(p.subrange(32, 36)),
                number_of_markets: spec_u16_from_le_bytes(p.subrange(36, 38)),
            },
        )
    }
}

/// Decodes a `Create` payload: the three keys, the 16-bit market count, the
/// counted market keys, then every remaining full 8-byte group as one
/// deposit amount.
pub open spec fn decode_create(p: Seq<u8>) -> Result<Command, PoolError> {
    if p.len() < 98 {
        Err(PoolError::TruncatedField)
    } else {
        let m = spec_u16_from_le_bytes(p.subrange(96, 98)) as int;
        if p.len() < 98 + 32 * m {
            Err(PoolError::TruncatedField)
        } else {
            Ok(
                Command::Create {
                    pool_seed: p.subrange(0, 32),
                    serum_program_id: p.subrange(32, 64),
                    signal_provider_key: p.subrange(64, 96),
                    deposit_amounts: amounts_at(p, 98 + 32 * m),
                    markets: keys_at(p, 98, m),
                },
            )
        }
    }
}

/// Decodes a `Deposit` payload.
pub open spec fn decode_deposit(p: Seq<u8>) -> Result<Command, PoolError> {
    if p.len() < 40 {
        Err(PoolError::TruncatedField)
    } else {
        Ok(
            Command::Deposit {
                pool_seed: p.subrange(0, 32),
                pool_token_amount: spec_u64_from_le_bytes(p.subrange(32, 40)),
            },
        )
    }
}

/// Decodes a `CreateOrder` payload, validating each field at its offset in
/// declaration order: the first failing field decides the error.
pub open spec fn decode_create_order(p: Seq<u8>) -> Result<Command, PoolError> {
    if p.len() < 33 {
        Err(PoolError::TruncatedField)
    } else if side_from_code(p[32]) is None {
        Err(PoolError::InvalidEnumerationValue)
    } else if p.len() < 41 {
        Err(PoolError::TruncatedField)
    } else if spec_u64_from_le_bytes(p.subrange(33, 41)) == 0 {
        Err(PoolError::ZeroConstraintViolated)
    } else if p.len() < 43 {
        Err(PoolError::TruncatedField)
    } else if spec_u16_from_le_bytes(p.subrange(41, 43)) == 0 {
        Err(PoolError::ZeroConstraintViolated)
    } else if p.len() < 44 {
        Err(PoolError::TruncatedField)
    } else if order_type_from_code(p[43]) is None {
        Err(PoolError::InvalidEnumerationValue)
    } else if p.len() < 53 {
        Err(PoolError::TruncatedField)
    } else if self_trade_from_code(p[52]) is None {
        Err(PoolError::InvalidEnumerationValue)
    } else if p.len() < 119 {
        Err(PoolError::TruncatedField)
    } else {
        Ok(
            Command::CreateOrder {
                pool_seed: p.subrange(0, 32),
                side: side_from_code(p[32])->Some_0,
                limit_price: spec_u64_from_le_bytes(p.subrange(33, 41)),
                ratio_of_pool_assets_to_trade: spec_u16_from_le_bytes(p.subrange(41, 43)),
                order_type: order_type_from_code(p[43])->Some_0,
                client_id: spec_u64_from_le_bytes(p.subrange(44, 52)),
                self_trade_behavior: self_trade_from_code(p[52])->Some_0,
                source_index: spec_u64_from_le_bytes(p.subrange(53, 61)),
                target_index: spec_u64_from_le_bytes(p.subrange(61, 69)),
                market_index: spec_u16_from_le_bytes(p.subrange(69, 71)),
                coin_lot_size: spec_u64_from_le_bytes(p.subrange(71, 79)),
                pc_lot_size: spec_u64_from_le_bytes(p.subrange(79, 87)),
                target_mint: p.subrange(87, 119),
            },
        )
    }
}

/// Decodes a `CancelOrder` payload.
pub open spec fn decode_cancel_order(p: Seq<u8>) -> Result<Command, PoolError> {
    if p.len() < 33 {
        Err(PoolError::TruncatedField)
    } else if side_from_code(p[32]) is None {
        Err(PoolError::InvalidEnumerationValue)
    } else if p.len() < 49 {
        Err(PoolError::TruncatedField)
    } else {
        Ok(
            Command::CancelOrder {
                pool_seed: p.subrange(0, 32),
                side: side_from_code(p[32])->Some_0,
                order_id: spec_u128_from_le_bytes(p.subrange(33, 49)),
            },
        )
    }
}

/// Decodes a `SettleFunds` payload.
pub open spec fn decode_settle_funds(p: Seq<u8>) -> Result<Command, PoolError> {
    if p.len() < 48 {
        Err(PoolError::TruncatedField)
    } else {
        Ok(
            Command::SettleFunds {
                pool_seed: p.subrange(0, 32),
                pc_index: spec_u64_from_le_bytes(p.subrange(32, 40)),
                coin_index: spec_u64_from_le_bytes(p.subrange(40, 48)),
            },
        )
    }
}

/// Decodes a `Redeem` payload.
pub open spec fn decode_redeem(p: Seq<u8>) -> Result<Command, PoolError> {
    if p.len() < 40 {
        Err(PoolError::TruncatedField)
    } else {
        Ok(
            Command::Redeem {
                pool_seed: p.subrange(0, 32),
                pool_token_amount: spec_u64_from_le_bytes(p.subrange(32, 40)),
            },
        )
    }
}

/// What any byte buffer decodes to: the command, or the failure of the
/// first field that cannot be read. An empty buffer has no tag byte; a tag
/// outside 0..=6 is unknown; otherwise the tag's variant decoder reads the
/// rest of the buffer as the payload.
pub open spec fn spec_decode(s: Seq<u8>) -> Result<Command, PoolError> {
    if s.len() == 0 {
        Err(PoolError::EmptyBuffer)
    } else {
        let p = s.drop_first();
        if s[0] == 0 {
            decode_init(p)
        } else if s[0] == 1 {
            decode_create(p)
        } else if s[0] == 2 {
            decode_deposit(p)
        } else if s[0] == 3 {
            decode_create_order(p)
        } else if s[0] == 4 {
            decode_cancel_order(p)
        } else if s[0] == 5 {
            decode_settle_funds(p)
        } else if s[0] == 6 {
            decode_redeem(p)
        } else {
            Err(PoolError::UnknownOpcode)
        }
    }
}

/// Reads the 32-byte group at offset `off`.
pub fn read_key(s: &[u8], off: usize) -> (r: [u8; 32])
    requires
        off + 32 <= s@.len(),
    ensures
        r@ == s@.subrange(off as int, off as int + 32),
{
    let len = s.len();
    assert(off + 32 <= len);
    let mut out: [u8; 32] = [0u8; 32];
    let mut i: usize = 0;
    while i < 32
        invariant
            i <= 32,
            off + 32 <= s@.len(),
            off + 32 <= usize::MAX,
            forall|j: int| 0 <= j < i ==> out@[j] == s@[off + j],
        decreases 32 - i,
    {
        out[i] = *slice_index_get(s, off + i);
        i += 1;
    }
    proof {
        assert(out@ =~= s@.subrange(off as int, off as int + 32));
    }
    out
}

/// Reads the little-endian 16-bit integer at offset `off`.
pub fn read_u16(s: &[u8], off: usize) -> (x: u16)
    requires
        off + 2 <= s@.len(),
    ensures
        x == spec_u16_from_le_bytes(s@.subrange(off as int, off as int + 2)),
{
    let len = s.len();
    assert(off + 2 <= len);
    u16_from_le_bytes(slice_subrange(s, off, off + 2))
}

/// Reads the little-endian 32-bit integer at offset `off`.
pub fn read_u32(s: &[u8], off: usize) -> (x: u32)
    requires
        off + 4 <= s@.len(),
    ensures
        x == spec_u32_from_le_bytes(s@.subrange(off as int, off as int + 4)),
{
    let len = s.len();
    assert(off + 4 <= len);
    u32_from_le_bytes(slice_subrange(s, off, off + 4))
}

/// Reads the little-endian 64-bit integer at offset `off`.
pub fn read_u64(s: &[u8], off: usize) -> (x: u64)
    requires
        off + 8 <= s@.len(),
    ensures
        x == spec_u64_from_le_bytes(s@.subrange(off as int, off as int + 8)),
{
    let len = s.len();
    assert(off + 8 <= len);
    u64_from_le_bytes(slice_subrange(s, off, off + 8))
}

/// Reads the little-endian 128-bit integer at offset `off`.
pub fn read_u128(s: &[u8], off: usize) -> (x: u128)
    requires
        off + 16 <= s@.len(),
    ensures
        x == spec_u128_from_le_bytes(s@.subrange(off as int, off as int + 16)),
{
    let len = s.len();
    assert(off + 16 <= len);
    u128_from_le_bytes(slice_subrange(s, off, off + 16))
}

/// Appends the 32 bytes of a key to the buffer.
pub fn write_key(buf: &mut Vec<u8>, k: &[u8; 32])
    ensures
        final(buf)@ == old(buf)@ + k@,
{
    let mut i: usize = 0;
    while i < 32
        invariant
            i <= 32,
            buf@ == old(buf)@ + k@.take(i as int),
        decreases 32 - i,
    {
        buf.push(k[i]);
        proof {
            assert(old(buf)@ + k@.take(i + 1) =~= (old(buf)@ + k@.take(i as int)).push(k@[i as int]));
        }
        i += 1;
    }
    proof {
        assert(old(buf)@ + k@.take(32) =~= old(buf)@ + k@);
    }
}

/// Appends a 16-bit integer to the buffer, little-endian.
pub fn write_u16(buf: &mut Vec<u8>, x: u16)
    ensures
        final(buf)@ == old(buf)@ + spec_u16_to_le_bytes(x),
{
    let mut b = u16_to_le_bytes(x);
    buf.append(&mut b);
}

/// Appends a 32-bit integer to the buffer, little-endian.
pub fn write_u32(buf: &mut Vec<u8>, x: u32)
    ensures
        final(buf)@ == old(buf)@ + spec_u32_to_le_bytes(x),
{
    let mut b = u32_to_le_bytes(x);
    buf.append(&mut b);
}

/// Appends a 64-bit integer to the buffer, little-endian.
pub fn write_u64(buf: &mut Vec<u8>, x: u64)
    ensures
        final(buf)@ == old(buf)@ + spec_u64_to_le_bytes(x),
{
    let mut b = u64_to_le_bytes(x);
    buf.append(&mut b);
}

/// Appends a 128-bit integer to the buffer, little-endian.
pub fn write_u128(buf: &mut Vec<u8>, x: u128)
    ensures
        final(buf)@ == old(buf)@ + spec_u128_to_le_bytes(x),
{
    let mut b = u128_to_le_bytes(x);
    buf.append(&mut b);
}

/// The concatenation of `m` 32-byte keys is `32 * m` bytes long.
pub proof fn lemma_concat_keys_len(ms: Seq<Seq<u8>>)
    requires
        forall|i: int| 0 <= i < ms.len() ==> (#[trigger] ms[i]).len() == 32,
    ensures
        concat_keys(ms).len() == 32 * ms.len(),
    decreases ms.len(),
{
    if ms.len() > 0 {
        lemma_concat_keys_len(ms.drop_first());
    }
}

/// The concatenation of `d` amounts is `8 * d` bytes long.
pub proof fn lemma_concat_amounts_len(ds: Seq<u64>)
    ensures
        concat_amounts(ds).len() == 8 * ds.len(),
    decreases ds.len(),
{
    vstd::bytes::lemma_auto_spec_u64_to_from_le_bytes();
    if ds.len() > 0 {
        lemma_concat_amounts_len(ds.drop_first());
    }
}

/// The keys decoded at `off` are the `m` consecutive 32-byte groups there,
/// group by group.
pub proof fn lemma_keys_at_index(s: Seq<u8>, off: int, m: int)
    requires
        0 <= off,
        0 <= m,
        off + 32 * m <= s.len(),
    ensures
        keys_at(s, off, m).len() == m,
        forall|t: int|
            0 <= t < m ==> #[trigger] keys_at(s, off, m)[t] == s.subrange(
                off + 32 * t,
                off + 32 * t + 32,
            ),
    decreases m,
{
    if m > 0 {
        lemma_keys_at_index(s, off + 32, m - 1);
        assert forall|t: int| 0 <= t < m implies #[trigger] keys_at(s, off, m)[t] == s.subrange(
            off + 32 * t,
            off + 32 * t + 32,
        ) by {
            if t > 0 {
                assert(keys_at(s, off, m)[t] == keys_at(s, off + 32, m - 1)[t - 1]);
            }
        }
    }
}

/// Decoding keys from a region that holds exactly the concatenation of a
/// key list recovers that list.
pub proof fn lemma_keys_at_of_concat(s: Seq<u8>, off: int, ms: Seq<Seq<u8>>)
    requires
        0 <= off,
        forall|i: int| 0 <= i < ms.len() ==> (#[trigger] ms[i]).len() == 32,
        off + 32 * ms.len() <= s.len(),
        s.subrange(off, off + 32 * ms.len()) == concat_keys(ms),
    ensures
        keys_at(s, off, ms.len() as int) == ms,
    decreases ms.len(),
{
    if ms.len() == 0 {
        assert(keys_at(s, off, 0) =~= ms);
    } else {
        lemma_concat_keys_len(ms);
        lemma_concat_keys_len(ms.drop_first());
        let l = 32 * ms.len();
        let tail = ms.drop_first();
        assert forall|i: int| 0 <= i < l implies s[off + i] == concat_keys(ms)[i] by {
            assert(concat_keys(ms)[i] == s.subrange(off, off + l)[i]);
        }
        assert(concat_keys(ms) == ms[0] + concat_keys(tail));
        assert(s.subrange(off, off + 32) =~= ms[0]);
        assert forall|i: int| 0 <= i < l - 32 implies s.subrange(off + 32, off + l)[i]
            == concat_keys(tail)[i] by {
            assert(s.subrange(off + 32, off + l)[i] == s[off + 32 + i]);
            assert(s[off + 32 + i] == concat_keys(ms)[32 + i]);
            assert(concat_keys(ms)[32 + i] == concat_keys(tail)[i]);
        }
        assert(s.subrange(off + 32, off + 32 * ms.len()) =~= concat_keys(tail));
        lemma_keys_at_of_concat(s, off + 32, ms.drop_first());
        assert(keys_at(s, off, ms.len() as int) =~= ms);
    }
}

/// Decoding amounts from offset `off` to the end of a buffer that holds
/// exactly the concatenation of an amount list there, followed by at most 7
/// leftover bytes, recovers that list: the leftover bytes are ignored.
pub proof fn lemma_amounts_at_of_concat(s: Seq<u8>, off: int, ds: Seq<u64>)
    requires
        0 <= off <= s.len(),
        off + 8 * ds.len() <= s.len() < off + 8 * ds.len() + 8,
        s.subrange(off, off + 8 * ds.len()) == concat_amounts(ds),
    ensures
        amounts_at(s, off) == ds,
    decreases ds.len(),
{
    vstd::bytes::lemma_auto_spec_u64_to_from_le_bytes();
    if ds.len() == 0 {
        assert(amounts_at(s, off) =~= ds);
    } else {
        lemma_concat_amounts_len(ds);
        lemma_concat_amounts_len(ds.drop_first());
        let l = 8 * ds.len();
        let tail = ds.drop_first();
        assert forall|i: int| 0 <= i < l implies s[off + i] == concat_amounts(ds)[i] by {
            assert(concat_amounts(ds)[i] == s.subrange(off, off + l)[i]);
        }
        assert(concat_amounts(ds) == spec_u64_to_le_bytes(ds[0]) + concat_amounts(tail));
        assert(s.subrange(off, off + 8) =~= spec_u64_to_le_bytes(ds[0]));
        assert forall|i: int| 0 <= i < l - 8 implies s.subrange(off + 8, off + l)[i]
            == concat_amounts(tail)[i] by {
            assert(s.subrange(off + 8, off + l)[i] == s[off + 8 + i]);
            assert(s[off + 8 + i] == concat_amounts(ds)[8 + i]);
            assert(concat_amounts(ds)[8 + i] == concat_amounts(tail)[i]);
        }
        assert(s.subrange(off + 8, off + 8 + 8 * (ds.len() - 1)) =~= concat_amounts(tail));
        lemma_amounts_at_of_concat(s, off + 8, ds.drop_first());
        assert(amounts_at(s, off) =~= ds);
    }
}

/// Appending one key to the list appends its 32 bytes to the concatenation.
pub proof fn lemma_concat_keys_push(ms: Seq<Seq<u8>>, k: Seq<u8>)
    ensures
        concat_keys(ms.push(k)) == concat_keys(ms) + k,
    decreases ms.len(),
{
    if ms.len() == 0 {
        let e = Seq::<Seq<u8>>::empty();
        assert(concat_keys(e) == Seq::<u8>::empty());
        assert(ms.push(k) =~= seq![k]);
        assert(seq![k].drop_first() =~= e);
        assert(concat_keys(seq![k]) == k + concat_keys(seq![k].drop_first()));
        assert(concat_keys(ms.push(k)) =~= concat_keys(ms) + k);
    } else {
        assert(ms.push(k).drop_first() =~= ms.drop_first().push(k));
        lemma_concat_keys_push(ms.drop_first(), k);
        assert(concat_keys(ms.push(k)) =~= concat_keys(ms) + k);
    }
}

/// Appending one amount to the list appends its 8 bytes to the concatenation.
pub proof fn lemma_concat_amounts_push(ds: Seq<u64>, d: u64)
    ensures
        concat_amounts(ds.push(d)) == concat_amounts(ds) + spec_u64_to_le_bytes(d),
    decreases ds.len(),
{
    if ds.len() == 0 {
        let e = Seq::<u64>::empty();
        assert(concat_amounts(e) == Seq::<u8>::empty());
        assert(ds.push(d) =~= seq![d]);
        assert(seq![d].drop_first() =~= e);
        assert(concat_amounts(seq![d]) == spec_u64_to_le_bytes(d) + concat_amounts(
            seq![d].drop_first(),
        ));
        assert(concat_amounts(ds.push(d)) =~= concat_amounts(ds) + spec_u64_to_le_bytes(d));
    } else {
        assert(ds.push(d).drop_first() =~= ds.drop_first().push(d));
        lemma_concat_amounts_push(ds.drop_first(), d);
        assert(concat_amounts(ds.push(d)) =~= concat_amounts(ds) + spec_u64_to_le_bytes(d));
    }
}

} // verus!
