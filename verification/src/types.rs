//! The field types of the command data model: 32-byte keys and the small
//! enumerations, each with its single bidirectional wire-code mapping.
//!
//! Every enumeration is mapped to its one-byte wire code by one spec
//! function pair (`*_code` / `*_from_code`); the encoder and the decoder
//! both go through these, so the two directions cannot drift apart.

use vstd::prelude::*;

use crate::error::PoolError;

verus! {

/// A 32-byte opaque identifier: a pool seed, an account key, or a mint.
#[derive(Clone, Copy, Debug, PartialEq, Eq)]
pub struct Pubkey {
    pub bytes: [u8; 32],
}

impl Pubkey {
    /// Wraps 32 bytes as a key.
    pub fn new(bytes: [u8; 32]) -> (r: Pubkey)
        ensures
            r.bytes == bytes,
    {
        Pubkey { bytes }
    }

    /// The 32 bytes of the key.
    pub fn to_bytes(&self) -> (r: [u8; 32])
        ensures
            r == self.bytes,
    {
        self.bytes
    }
}

impl View for Pubkey {
    type V = Seq<u8>;

    open spec fn view(&self) -> Seq<u8> {
        self.bytes@
    }
}

/// The side of an order on the order book.
#[derive(Clone, Copy, Debug, PartialEq, Eq, Structural)]
pub enum Side {
    Bid,
    Ask,
}

/// The execution policy of an order.
#[derive(Clone, Copy, Debug, PartialEq, Eq, Structural)]
pub enum OrderType {
    Limit,
    ImmediateOrCancel,
    PostOnly,
}

/// What the order book does when an order would match one of the pool's own.
#[derive(Clone, Copy, Debug, PartialEq, Eq, Structural)]
pub enum SelfTradeBehavior {
    DecrementTake,
    CancelProvide,
}

/// The wire code of a side.
pub open spec fn side_code(s: Side) -> u8 {
    match s {
        Side::Bid => 0,
        Side::Ask => 1,
    }
}

/// The side a wire code stands for, if any.
pub open spec fn side_from_code(b: u8) -> Option<Side> {
    if b == 0 {
        Some(Side::Bid)
    } else if b == 1 {
        Some(Side::Ask)
    } else {
        None
    }
}

/// The wire code of an order type.
pub open spec fn order_type_code(t: OrderType) -> u8 {
    match t {
        OrderType::Limit => 0,
        OrderType::ImmediateOrCancel => 1,
        OrderType::PostOnly => 2,
    }
}

/// The order type a wire code stands for, if any.
pub open spec fn order_type_from_code(b: u8) -> Option<OrderType> {
    if b == 0 {
        Some(OrderType::Limit)
    } else if b == 1 {
        Some(OrderType::ImmediateOrCancel)
    } else if b == 2 {
        Some(OrderType::PostOnly)
    } else {
        None
    }
}

/// The wire code of a self-trade policy.
pub open spec fn self_trade_code(t: SelfTradeBehavior) -> u8 {
    match t {
        SelfTradeBehavior::DecrementTake => 0,
        SelfTradeBehavior::CancelProvide => 1,
    }
}

/// The self-trade policy a wire code stands for, if any.
pub open spec fn self_trade_from_code(b: u8) -> Option<SelfTradeBehavior> {
    if b == 0 {
        Some(SelfTradeBehavior::DecrementTake)
    } else if b == 1 {
        Some(SelfTradeBehavior::CancelProvide)
    } else {
        None
    }
}

/// Each enumeration's wire code decodes back to the enumeration value it
/// was made from: the two directions of the mapping agree.
pub proof fn lemma_enum_codes_invert(s: Side, t: OrderType, p: SelfTradeBehavior)
    ensures
        side_from_code(side_code(s)) == Some(s),
        order_type_from_code(order_type_code(t)) == Some(t),
        self_trade_from_code(self_trade_code(p)) == Some(p),
{
}

/// Encodes a side as its wire code.
pub fn encode_side(s: Side) -> (r: u8)
    ensures
        r == side_code(s),
{
    match s {
        Side::Bid => 0,
        Side::Ask => 1,
    }
}

/// Decodes a side from its wire code; any byte outside the defined codes
/// is an invalid enumeration value.
pub fn decode_side(b: u8) -> (r: Result<Side, PoolError>)
    ensures
        match r {
            Ok(s) => side_from_code(b) == Some(s),
            Err(e) => side_from_code(b) is None && e == PoolError::InvalidEnumerationValue,
        },
{
    match b {
        0 => Ok(Side::Bid),
        1 => Ok(Side::Ask),
        _ => Err(PoolError::InvalidEnumerationValue),
    }
}

/// Encodes an order type as its wire code.
pub fn encode_order_type(t: OrderType) -> (r: u8)
    ensures
        r == order_type_code(t),
{
    match t {
        OrderType::Limit => 0,
        OrderType::ImmediateOrCancel => 1,
        OrderType::PostOnly => 2,
    }
}

/// Decodes an order type from its wire code; any byte outside the defined
/// codes is an invalid enumeration value.
pub fn decode_order_type(b: u8) -> (r: Result<OrderType, PoolError>)
    ensures
        match r {
            Ok(t) => order_type_from_code(b) == Some(t),
            Err(e) => order_type_from_code(b) is None && e == PoolError::InvalidEnumerationValue,
        },
{
    match b {
        0 => Ok(OrderType::Limit),
        1 => Ok(OrderType::ImmediateOrCancel),
        2 => Ok(OrderType::PostOnly),
        _ => Err(PoolError::InvalidEnumerationValue),
    }
}

/// Encodes a self-trade policy as its wire code.
pub fn encode_self_trade(t: SelfTradeBehavior) -> (r: u8)
    ensures
        r == self_trade_code(t),
{
    match t {
        SelfTradeBehavior::DecrementTake => 0,
        SelfTradeBehavior::CancelProvide => 1,
    }
}

/// Decodes a self-trade policy from its wire code; any byte outside the
/// defined codes is an invalid enumeration value.
pub fn decode_self_trade(b: u8) -> (r: Result<SelfTradeBehavior, PoolError>)
    ensures
        match r {
            Ok(t) => self_trade_from_code(b) == Some(t),
            Err(e) => self_trade_from_code(b) is None && e == PoolError::InvalidEnumerationValue,
        },
{
    match b {
        0 => Ok(SelfTradeBehavior::DecrementTake),
        1 => Ok(SelfTradeBehavior::CancelProvide),
        _ => Err(PoolError::InvalidEnumerationValue),
    }
}

} // verus!
