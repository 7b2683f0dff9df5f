//! The `uniswap.types.v1` messages that substreams modules emit.

use vstd::prelude::*;

pub mod entity_change;
pub mod event;
pub mod field;

verus! {

#[derive(Clone, Debug)]
pub struct UniswapTokens {
    pub uniswap_tokens: Vec<UniswapToken>,
}

#[derive(Clone, Debug)]
pub struct UniswapToken {
    pub address: String,
    pub name: String,
    pub symbol: String,
    pub decimals: u64,
}

#[derive(Clone, Debug)]
pub struct Liquidity {
    pub pool_address: String,
    pub value: String,
}

#[derive(Clone, Debug)]
pub struct Pools {
    pub pools: Vec<Pool>,
}

#[derive(Clone, Debug)]
pub struct Pool {
    pub address: String,
    pub token0: Option<UniswapToken>,
    pub token1: Option<UniswapToken>,
    pub creation_transaction_id: String,
    pub fee: u32,
    pub block_num: String,
    pub log_ordinal: u64,
    pub tick_spacing: i32,
}

#[derive(Clone, Debug)]
pub struct PoolInitializations {
    pub pool_initializations: Vec<PoolInitialization>,
}

#[derive(Clone, Debug)]
pub struct PoolInitialization {
    pub address: String,
    pub initialization_transaction_id: String,
    pub log_ordinal: u64,
    pub tick: String,
    pub sqrt_price: String,
}

#[derive(Clone, Debug)]
pub struct SqrtPriceUpdates {
    pub sqrt_prices: Vec<SqrtPriceUpdate>,
}

#[derive(Clone, Debug)]
pub struct SqrtPriceUpdate {
    pub pool_address: String,
    pub ordinal: u64,
    pub sqrt_price: String,
    pub tick: String,
}

#[derive(Clone, Debug)]
pub struct Events {
    pub events: Vec<Event>,
}

/// A pool event; `event_type` is the `type` oneof of the message.
#[derive(Clone, Debug)]
pub struct Event {
    pub log_ordinal: u64,
    pub pool_address: String,
    pub token0: String,
    pub token1: String,
    pub fee: String,
    pub transaction_id: String,
    pub timestamp: u64,
    pub event_type: Option<event::Type>,
}

#[derive(Clone, Debug)]
pub struct Swaps {
    pub swaps: Vec<Swap>,
}

#[derive(Clone, Debug)]
pub struct Swap {
    pub sender: String,
    pub recipient: String,
    pub amount_0: String,
    pub amount_1: String,
    pub sqrt_price: String,
    pub liquidity: String,
    pub tick: i32,
}

#[derive(Clone, Debug)]
pub struct Burn {
    pub owner: String,
    pub amount_0: String,
    pub amount_1: String,
    pub tick_lower: i32,
    pub tick_upper: i32,
    pub amount: String,
}

#[derive(Clone, Debug)]
pub struct Mint {
    pub owner: String,
    pub sender: String,
    pub amount_0: String,
    pub amount_1: String,
    pub tick_lower: i32,
    pub tick_upper: i32,
    pub amount: String,
}

#[derive(Clone, Debug)]
pub struct Ticks {
    pub ticks: Vec<Tick>,
}

#[derive(Clone, Debug)]
pub struct Tick {
    pub pool_address: String,
    pub idx: String,
    pub price0: String,
    pub price1: String,
}

#[derive(Clone, Debug)]
pub struct Fees {
    pub fees: Vec<Fee>,
}

#[derive(Clone, Debug)]
pub struct Fee {
    pub fee: u32,
    pub tick_spacing: i32,
}

#[derive(Clone, Debug)]
pub struct Flashes {
    pub flashes: Vec<Flash>,
}

#[derive(Clone, Debug)]
pub struct Flash {
    pub sender: String,
    pub recipient: String,
    pub amount_0: u64,
    pub amount_1: u64,
    pub paid_0: u64,
    pub paid_1: u64,
    pub transaction_id: String,
    pub log_ordinal: u64,
}

/// The entity changes that a mapping module produced for one block.
#[derive(Clone, Debug)]
pub struct EntitiesChanges {
    pub entity_changes: Vec<EntityChange>,
}

/// A change to one entity; `operation` holds the wire number of an
/// `entity_change::Operation`.
#[derive(Clone, Debug)]
pub struct EntityChange {
    pub entity: String,
    pub id: Vec<u8>,
    pub ordinal: u64,
    pub operation: i32,
    pub fields: Vec<Field>,
}

/// A changed field of an entity; `value_type` holds the wire number of a
/// `field::Type`.
#[derive(Clone, Debug)]
pub struct Field {
    pub name: String,
    pub value_type: i32,
    pub new_value: Vec<u8>,
    pub new_value_null: bool,
    pub old_value: Vec<u8>,
    pub old_value_null: bool,
}

impl Default for EntitiesChanges {
    /// No entity changes.
    fn default() -> (r: Self)
        ensures
            r.entity_changes@.len() == 0,
    {
        EntitiesChanges { entity_changes: Vec::new() }
    }
}

impl EntityChange {
    /// The operation, or `Unset` when `operation` is not a known wire number.
    pub fn operation(&self) -> (r: entity_change::Operation)
        ensures
            r == (match entity_change::Operation::spec_from_wire(self.operation) {
                Some(op) => op,
                None => entity_change::Operation::Unset,
            }),
    {
        match entity_change::Operation::from_i32(self.operation) {
            Some(op) => op,
            None => entity_change::Operation::Unset,
        }
    }

    /// Stores `value` as the operation's wire number.
    pub fn set_operation(&mut self, value: entity_change::Operation)
        ensures
            final(self).operation == value.wire_number(),
            final(self).entity@ == old(self).entity@,
            final(self).id@ == old(self).id@,
            final(self).ordinal == old(self).ordinal,
            final(self).fields@ == old(self).fields@,
    {
        self.operation = value.to_i32();
    }
}

impl Field {
    /// The value type, or `Unset` when `value_type` is not a known wire
    /// number.
    pub fn value_type(&self) -> (r: field::Type)
        ensures
            r == (match field::Type::spec_from_wire(self.value_type) {
                Some(t) => t,
                None => field::Type::Unset,
            }),
    {
        match field::Type::from_i32(self.value_type) {
            Some(t) => t,
            None => field::Type::Unset,
        }
    }

    /// Stores `value` as the value type's wire number.
    pub fn set_value_type(&mut self, value: field::Type)
        ensures
            final(self).value_type == value.wire_number(),
            final(self).name@ == old(self).name@,
            final(self).new_value@ == old(self).new_value@,
            final(self).new_value_null == old(self).new_value_null,
            final(self).old_value@ == old(self).old_value@,
            final(self).old_value_null == old(self).old_value_null,
    {
        self.value_type = value.to_i32();
    }
}

} // verus!
