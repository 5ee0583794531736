//! Order descriptors for the matching venue, and their 46-byte wire format.
//!
//! The layout is the venue's own, little-endian throughout: 4 bytes side,
//! 8 bytes limit price, 8 bytes maximum base quantity, 8 bytes maximum quote
//! quantity including fees, 4 bytes self-trade behaviour, 4 bytes order type,
//! 8 bytes client order id, 2 bytes result limit. The three enumerated fields
//! take four bytes each although their codes fit in one.

use crate::error::MangoError;
use crate::le_bytes::{
    lemma_u16_at, lemma_u16_bytes, lemma_u32_at, lemma_u32_bytes, lemma_u64_at, lemma_u64_bytes,
    read_u16, read_u32, read_u64, u16_at, u16_bytes, u32_at, u32_bytes, u64_at, u64_bytes,
    write_u16, write_u32, write_u64,
};
use num_enum::TryFromPrimitive;
use vstd::prelude::*;

verus! {

/// The length of an encoded order.
pub const ORDER_LEN: usize = 46;

/// Which side of the book an order is on.
#[derive(Clone, Copy, Debug, PartialEq, Eq, Structural)]
pub enum Side {
    Bid,
    Ask,
}

/// What the venue does when an order would match the same owner's order.
#[derive(Clone, Copy, Debug, PartialEq, Eq, Structural)]
pub enum SelfTradeBehavior {
    DecrementTake,
    CancelProvide,
    AbortTransaction,
}

/// How long an order stays on the book.
#[derive(Clone, Copy, Debug, PartialEq, Eq, Structural)]
pub enum OrderType {
    Limit,
    ImmediateOrCancel,
    PostOnly,
}

impl Side {
    /// The venue's code of the side.
    pub open spec fn code(self) -> u8 {
        match self {
            Side::Bid => 0,
            Side::Ask => 1,
        }
    }

    /// The side with the given code.
    pub open spec fn of_code(code: u8) -> Option<Side> {
        if code == 0 {
            Some(Side::Bid)
        } else if code == 1 {
            Some(Side::Ask)
        } else {
            None
        }
    }
}

impl SelfTradeBehavior {
    /// The venue's code of the behaviour.
    pub open spec fn code(self) -> u8 {
        match self {
            SelfTradeBehavior::DecrementTake => 0,
            SelfTradeBehavior::CancelProvide => 1,
            SelfTradeBehavior::AbortTransaction => 2,
        }
    }

    /// The behaviour with the given code.
    pub open spec fn of_code(code: u8) -> Option<SelfTradeBehavior> {
        if code == 0 {
            Some(SelfTradeBehavior::DecrementTake)
        } else if code == 1 {
            Some(SelfTradeBehavior::CancelProvide)
        } else if code == 2 {
            Some(SelfTradeBehavior::AbortTransaction)
        } else {
            None
        }
    }
}

impl OrderType {
    /// The venue's code of the order type.
    pub open spec fn code(self) -> u8 {
        match self {
            OrderType::Limit => 0,
            OrderType::ImmediateOrCancel => 1,
            OrderType::PostOnly => 2,
        }
    }

    /// The order type with the given code.
    pub open spec fn of_code(code: u8) -> Option<OrderType> {
        if code == 0 {
            Some(OrderType::Limit)
        } else if code == 1 {
            Some(OrderType::ImmediateOrCancel)
        } else if code == 2 {
            Some(OrderType::PostOnly)
        } else {
            None
        }
    }
}

/// `serum_dex::matching::Side::try_from_primitive`: the venue declares `Bid`
/// as 0 and `Ask` as 1, and no other number names a side.
#[verifier::external_body]
fn side_try_from_primitive(number: u8) -> (side: Option<Side>)
    ensures
        side == Side::of_code(number),
{
    match serum_dex::matching::Side::try_from_primitive(number) {
        Ok(serum_dex::matching::Side::Bid) => Some(Side::Bid),
        Ok(serum_dex::matching::Side::Ask) => Some(Side::Ask),
        Err(_) => None,
    }
}

/// `u8::from(serum_dex::matching::Side)`: the number the venue declares for
/// the side.
#[verifier::external_body]
fn side_into_primitive(side: Side) -> (number: u8)
    ensures
        number == side.code(),
{
    u8::from(
        match side {
            Side::Bid => serum_dex::matching::Side::Bid,
            Side::Ask => serum_dex::matching::Side::Ask,
        },
    )
}

/// `serum_dex::instruction::SelfTradeBehavior::try_from_primitive`: the venue
/// declares `DecrementTake` as 0, `CancelProvide` as 1 and `AbortTransaction`
/// as 2, and no other number names a behaviour.
#[verifier::external_body]
fn self_trade_behavior_try_from_primitive(number: u8) -> (behavior: Option<SelfTradeBehavior>)
    ensures
        behavior == SelfTradeBehavior::of_code(number),
{
    match serum_dex::instruction::SelfTradeBehavior::try_from_primitive(number) {
        Ok(serum_dex::instruction::SelfTradeBehavior::DecrementTake) => Some(
            SelfTradeBehavior::DecrementTake,
        ),
        Ok(serum_dex::instruction::SelfTradeBehavior::CancelProvide) => Some(
            SelfTradeBehavior::CancelProvide,
        ),
        Ok(serum_dex::instruction::SelfTradeBehavior::AbortTransaction) => Some(
            SelfTradeBehavior::AbortTransaction,
        ),
        Err(_) => None,
    }
}

/// `u8::from(serum_dex::instruction::SelfTradeBehavior)`: the number the
/// venue declares for the behaviour.
#[verifier::external_body]
fn self_trade_behavior_into_primitive(behavior: SelfTradeBehavior) -> (number: u8)
    ensures
        number == behavior.code(),
{
    u8::from(
        match behavior {
            SelfTradeBehavior::DecrementTake => {
                serum_dex::instruction::SelfTradeBehavior::DecrementTake
            },
            SelfTradeBehavior::CancelProvide => {
                serum_dex::instruction::SelfTradeBehavior::CancelProvide
            },
            SelfTradeBehavior::AbortTransaction => {
                serum_dex::instruction::SelfTradeBehavior::AbortTransaction
            },
        },
    )
}

/// `serum_dex::matching::OrderType::try_from_primitive`: the venue declares
/// `Limit` as 0, `ImmediateOrCancel` as 1 and `PostOnly` as 2, and no other
/// number names an order type.
#[verifier::external_body]
fn order_type_try_from_primitive(number: u8) -> (order_type: Option<OrderType>)
    ensures
        order_type == OrderType::of_code(number),
{
    match serum_dex::matching::OrderType::try_from_primitive(number) {
        Ok(serum_dex::matching::OrderType::Limit) => Some(OrderType::Limit),
        Ok(serum_dex::matching::OrderType::ImmediateOrCancel) => Some(
            OrderType::ImmediateOrCancel,
        ),
        Ok(serum_dex::matching::OrderType::PostOnly) => Some(OrderType::PostOnly),
        Err(_) => None,
    }
}

/// `u8::from(serum_dex::matching::OrderType)`: the number the venue declares
/// for the order type.
#[verifier::external_body]
fn order_type_into_primitive(order_type: OrderType) -> (number: u8)
    ensures
        number == order_type.code(),
{
    u8::from(
        match order_type {
            OrderType::Limit => serum_dex::matching::OrderType::Limit,
            OrderType::ImmediateOrCancel => serum_dex::matching::OrderType::ImmediateOrCancel,
            OrderType::PostOnly => serum_dex::matching::OrderType::PostOnly,
        },
    )
}

/// An order descriptor as the venue takes it.
#[derive(Clone, Copy, Debug, PartialEq, Eq, Structural)]
pub struct NewOrderInstructionData {
    pub side: Side,
    /// Never zero in a well-formed order.
    pub limit_price: u64,
    /// Never zero in a well-formed order.
    pub max_coin_qty: u64,
    /// Never zero in a well-formed order.
    pub max_native_pc_qty_including_fees: u64,
    pub self_trade_behavior: SelfTradeBehavior,
    pub order_type: OrderType,
    pub client_order_id: u64,
    pub limit: u16,
}

/// The code in a four-byte field, if it fits in one byte.
pub open spec fn narrow(value: int) -> Option<u8> {
    if 0 <= value <= 255 {
        Some(value as u8)
    } else {
        None
    }
}

/// The order that 46 bytes stand for. There is none where an enumerated
/// field holds a number that is no code of its type, or where the price or
/// one of the two quantities is zero.
pub open spec fn spec_unpack(data: Seq<u8>) -> Option<NewOrderInstructionData> {
    let side = narrow(u32_at(data, 0));
    let behavior = narrow(u32_at(data, 28));
    let order_type = narrow(u32_at(data, 32));
    if side is None || Side::of_code(side->0) is None {
        None
    } else if u64_at(data, 4) == 0 || u64_at(data, 12) == 0 || u64_at(data, 20) == 0 {
        None
    } else if behavior is None || SelfTradeBehavior::of_code(behavior->0) is None {
        None
    } else if order_type is None || OrderType::of_code(order_type->0) is None {
        None
    } else {
        Some(
            NewOrderInstructionData {
                side: Side::of_code(side->0)->0,
                limit_price: u64_at(data, 4) as u64,
                max_coin_qty: u64_at(data, 12) as u64,
                max_native_pc_qty_including_fees: u64_at(data, 20) as u64,
                self_trade_behavior: SelfTradeBehavior::of_code(behavior->0)->0,
                order_type: OrderType::of_code(order_type->0)->0,
                client_order_id: u64_at(data, 36) as u64,
                limit: u16_at(data, 44) as u16,
            },
        )
    }
}

/// What decoding a buffer gives: the order in its first 46 bytes and the
/// bytes after them, or `InvalidInput` where the buffer is shorter than that
/// or its first 46 bytes stand for no order.
pub open spec fn spec_deserialize(buf: Seq<u8>) -> Result<
    (NewOrderInstructionData, Seq<u8>),
    MangoError,
> {
    if buf.len() < ORDER_LEN {
        Err(MangoError::InvalidInput)
    } else {
        match spec_unpack(buf.subrange(0, ORDER_LEN as int)) {
            Some(order) => Ok((order, buf.subrange(ORDER_LEN as int, buf.len() as int))),
            None => Err(MangoError::InvalidInput),
        }
    }
}

/// Reads a four-byte field and narrows it to the one byte a code takes.
fn read_code(data: &[u8], at: usize) -> (code: Option<u8>)
    requires
        at + 4 <= data@.len(),
    ensures
        code == narrow(u32_at(data@, at as int)),
{
    let wide = read_u32(data, at);
    if wide <= 255 {
        Some(wide as u8)
    } else {
        None
    }
}

/// Decodes an order from its 46 bytes.
pub fn unpack_dex_new_order_v3(data: &[u8; 46]) -> (order: Option<NewOrderInstructionData>)
    ensures
        order == spec_unpack(data@),
        order matches Some(o) ==> o.wf(),
{
    let bytes = data.as_slice();
    let side = match read_code(bytes, 0) {
        Some(code) => match side_try_from_primitive(code) {
            Some(side) => side,
            None => { return None; },
        },
        None => { return None; },
    };
    let limit_price = read_u64(bytes, 4);
    if limit_price == 0 {
        return None;
    }
    let max_coin_qty = read_u64(bytes, 12);
    if max_coin_qty == 0 {
        return None;
    }
    let max_native_pc_qty_including_fees = read_u64(bytes, 20);
    if max_native_pc_qty_including_fees == 0 {
        return None;
    }
    let self_trade_behavior = match read_code(bytes, 28) {
        Some(code) => match self_trade_behavior_try_from_primitive(code) {
            Some(behavior) => behavior,
            None => { return None; },
        },
        None => { return None; },
    };
    let order_type = match read_code(bytes, 32) {
        Some(code) => match order_type_try_from_primitive(code) {
            Some(order_type) => order_type,
            None => { return None; },
        },
        None => { return None; },
    };
    let client_order_id = read_u64(bytes, 36);
    let limit = read_u16(bytes, 44);
    Some(
        NewOrderInstructionData {
            side,
            limit_price,
            max_coin_qty,
            max_native_pc_qty_including_fees,
            self_trade_behavior,
            order_type,
            client_order_id,
            limit,
        },
    )
}

impl NewOrderInstructionData {
    /// The price and both quantities are other than zero.
    pub open spec fn wf(&self) -> bool {
        &&& self.limit_price != 0
        &&& self.max_coin_qty != 0
        &&& self.max_native_pc_qty_including_fees != 0
    }

    /// The 46 bytes of the order.
    pub open spec fn spec_serialize(&self) -> Seq<u8> {
        u32_bytes(self.side.code() as u32) + u64_bytes(self.limit_price) + u64_bytes(
            self.max_coin_qty,
        ) + u64_bytes(self.max_native_pc_qty_including_fees) + u32_bytes(
            self.self_trade_behavior.code() as u32,
        ) + u32_bytes(self.order_type.code() as u32) + u64_bytes(self.client_order_id)
            + u16_bytes(self.limit)
    }

    /// An order of the given fields; `InvalidInput` where the price or one of
    /// the two quantities is zero.
    pub fn new(
        side: Side,
        limit_price: u64,
        max_coin_qty: u64,
        max_native_pc_qty_including_fees: u64,
        self_trade_behavior: SelfTradeBehavior,
        order_type: OrderType,
        client_order_id: u64,
        limit: u16,
    ) -> (r: Result<NewOrderInstructionData, MangoError>)
        ensures
            r == if limit_price == 0 || max_coin_qty == 0 || max_native_pc_qty_including_fees
                == 0 {
                Err::<NewOrderInstructionData, MangoError>(MangoError::InvalidInput)
            } else {
                Ok(
                    NewOrderInstructionData {
                        side,
                        limit_price,
                        max_coin_qty,
                        max_native_pc_qty_including_fees,
                        self_trade_behavior,
                        order_type,
                        client_order_id,
                        limit,
                    },
                )
            },
            r matches Ok(order) ==> order.wf(),
    {
        if limit_price == 0 || max_coin_qty == 0 || max_native_pc_qty_including_fees == 0 {
            return Err(MangoError::InvalidInput);
        }
        Ok(
            NewOrderInstructionData {
                side,
                limit_price,
                max_coin_qty,
                max_native_pc_qty_including_fees,
                self_trade_behavior,
                order_type,
                client_order_id,
                limit,
            },
        )
    }

    /// Encodes the order in its 46 bytes.
    pub fn serialize(&self) -> (bytes: Vec<u8>)
        ensures
            bytes@ == self.spec_serialize(),
            bytes@.len() == ORDER_LEN,
    {
        let mut bytes: Vec<u8> = Vec::new();
        write_u32(&mut bytes, side_into_primitive(self.side) as u32);
        write_u64(&mut bytes, self.limit_price);
        write_u64(&mut bytes, self.max_coin_qty);
        write_u64(&mut bytes, self.max_native_pc_qty_including_fees);
        write_u32(&mut bytes, self_trade_behavior_into_primitive(self.self_trade_behavior) as u32);
        write_u32(&mut bytes, order_type_into_primitive(self.order_type) as u32);
        write_u64(&mut bytes, self.client_order_id);
        write_u16(&mut bytes, self.limit);
        assert(bytes@ =~= self.spec_serialize());
        bytes
    }

    /// Decodes the order at the start of `buf` and hands back the bytes that
    /// follow it.
    pub fn deserialize(buf: &[u8]) -> (r: Result<(NewOrderInstructionData, &[u8]), MangoError>)
        ensures
            match r {
                Ok((order, rest)) => spec_deserialize(buf@) == Ok::<
                    (NewOrderInstructionData, Seq<u8>),
                    MangoError,
                >((order, rest@)) && order.wf(),
                Err(e) => spec_deserialize(buf@) == Err::<
                    (NewOrderInstructionData, Seq<u8>),
                    MangoError,
                >(e),
            },
    {
        if buf.len() < ORDER_LEN {
            return Err(MangoError::InvalidInput);
        }
        let mut data: [u8; 46] = [0u8; 46];
        let mut i: usize = 0;
        while i < ORDER_LEN
            invariant
                i <= ORDER_LEN <= buf@.len(),
                forall|j: int| 0 <= j < i ==> data@[j] == buf@[j],
            decreases ORDER_LEN - i,
        {
            data[i] = buf[i];
            i = i + 1;
        }
        assert(data@ =~= buf@.subrange(0, ORDER_LEN as int));
        match unpack_dex_new_order_v3(&data) {
            Some(order) => Ok((order, &buf[ORDER_LEN..buf.len()])),
            None => Err(MangoError::InvalidInput),
        }
    }
}

/// Encoding then decoding: the 46 bytes of a well-formed order decode to that
/// order, with every field as it was.
pub proof fn lemma_serialize_then_unpack(order: NewOrderInstructionData)
    requires
        order.wf(),
    ensures
        order.spec_serialize().len() == ORDER_LEN,
        spec_unpack(order.spec_serialize()) == Some(order),
{
    let data = order.spec_serialize();
    lemma_u32_bytes(order.side.code() as u32);
    lemma_u64_bytes(order.limit_price);
    lemma_u64_bytes(order.max_coin_qty);
    lemma_u64_bytes(order.max_native_pc_qty_including_fees);
    lemma_u32_bytes(order.self_trade_behavior.code() as u32);
    lemma_u32_bytes(order.order_type.code() as u32);
    lemma_u64_bytes(order.client_order_id);
    lemma_u16_bytes(order.limit);
    assert(u32_at(data, 0) == u32_at(u32_bytes(order.side.code() as u32), 0));
    assert(u64_at(data, 4) == u64_at(u64_bytes(order.limit_price), 0));
    assert(u64_at(data, 12) == u64_at(u64_bytes(order.max_coin_qty), 0));
    assert(u64_at(data, 20) == u64_at(u64_bytes(order.max_native_pc_qty_including_fees), 0));
    assert(u32_at(data, 28) == u32_at(u32_bytes(order.self_trade_behavior.code() as u32), 0));
    assert(u32_at(data, 32) == u32_at(u32_bytes(order.order_type.code() as u32), 0));
    assert(u64_at(data, 36) == u64_at(u64_bytes(order.client_order_id), 0));
    assert(u16_at(data, 44) == u16_at(u16_bytes(order.limit), 0));
}

/// A buffer that starts with the bytes of a well-formed order decodes to
/// that order, every field as it was, and to the bytes that follow it.
pub proof fn lemma_serialize_then_deserialize(order: NewOrderInstructionData, rest: Seq<u8>)
    requires
        order.wf(),
    ensures
        spec_deserialize(order.spec_serialize() + rest) == Ok::<
            (NewOrderInstructionData, Seq<u8>),
            MangoError,
        >((order, rest)),
{
    let buf = order.spec_serialize() + rest;
    lemma_serialize_then_unpack(order);
    assert(buf.subrange(0, ORDER_LEN as int) =~= order.spec_serialize());
    assert(buf.subrange(ORDER_LEN as int, buf.len() as int) =~= rest);
}

/// A buffer shorter than an order is rejected.
pub proof fn lemma_short_payload_is_rejected(buf: Seq<u8>)
    requires
        buf.len() < ORDER_LEN,
    ensures
        spec_deserialize(buf) == Err::<(NewOrderInstructionData, Seq<u8>), MangoError>(
            MangoError::InvalidInput,
        ),
{
}

/// The code of a decoded side, behaviour or order type is the code it was
/// decoded from.
proof fn lemma_codes(code: u8)
    ensures
        Side::of_code(code) matches Some(side) ==> side.code() == code,
        SelfTradeBehavior::of_code(code) matches Some(behavior) ==> behavior.code() == code,
        OrderType::of_code(code) matches Some(order_type) ==> order_type.code() == code,
{
}

/// Decoding then encoding: 46 bytes that decode to an order are the bytes of
/// that order, so no two byte strings stand for the same order.
pub proof fn lemma_unpack_then_serialize(data: Seq<u8>)
    requires
        data.len() == ORDER_LEN,
        spec_unpack(data) is Some,
    ensures
        spec_unpack(data)->0.spec_serialize() == data,
{
    let order = spec_unpack(data)->0;
    let side = u32_bytes(order.side.code() as u32);
    let limit_price = u64_bytes(order.limit_price);
    let max_coin_qty = u64_bytes(order.max_coin_qty);
    let max_native_pc_qty = u64_bytes(order.max_native_pc_qty_including_fees);
    let behavior = u32_bytes(order.self_trade_behavior.code() as u32);
    let order_type = u32_bytes(order.order_type.code() as u32);
    let client_order_id = u64_bytes(order.client_order_id);
    let limit = u16_bytes(order.limit);
    assert(side == data.subrange(0, 4)) by {
        lemma_u32_at(data, 0);
        lemma_codes(narrow(u32_at(data, 0))->0);
    }
    assert(limit_price == data.subrange(4, 12)) by {
        lemma_u64_at(data, 4);
    }
    assert(max_coin_qty == data.subrange(12, 20)) by {
        lemma_u64_at(data, 12);
    }
    assert(max_native_pc_qty == data.subrange(20, 28)) by {
        lemma_u64_at(data, 20);
    }
    assert(behavior == data.subrange(28, 32)) by {
        lemma_u32_at(data, 28);
        lemma_codes(narrow(u32_at(data, 28))->0);
    }
    assert(order_type == data.subrange(32, 36)) by {
        lemma_u32_at(data, 32);
        lemma_codes(narrow(u32_at(data, 32))->0);
    }
    assert(client_order_id == data.subrange(36, 44)) by {
        lemma_u64_at(data, 36);
    }
    assert(limit == data.subrange(44, 46)) by {
        lemma_u16_at(data, 44);
    }
    assert(data.subrange(0, 4) + data.subrange(4, 12) + data.subrange(12, 20) + data.subrange(
        20,
        28,
    ) + data.subrange(28, 32) + data.subrange(32, 36) + data.subrange(36, 44) + data.subrange(
        44,
        46,
    ) =~= data);
}

} // verus!
