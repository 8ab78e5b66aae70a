//! The solver's decisions: which new orders to take on, how much of each to
//! fill, and the clock it stamps events with.
use crate::clock::secs_since_unix_epoch;
use crate::text::{concat_str, spec_decimal, u128_to_decimal};
use vstd::prelude::*;
use vstd::string::StringExecFns;

verus! {

/// Number of basis points in one whole.
pub const BPS_DENOMINATOR: u128 = 10_000;

/// Component that listens to new orders created.
pub struct InventoryManager {}

impl InventoryManager {
    pub fn new() -> (m: Self) {
        InventoryManager {  }
    }

    /// The component's name.
    pub fn name(&self) -> (n: &'static str)
        ensures
            n@ == "InventoryManager"@,
    {
        "InventoryManager"
    }

    /// Handling an event produces no follow-up events.
    pub fn handle_event<E>(&self, _event: E) -> (out: Vec<E>)
        ensures
            out@.len() == 0,
    {
        Vec::new()
    }
}

/// Component that writes fills on EVM chains; it records every event and
/// answers none with follow-up events.
pub struct EvmWriter {}

impl EvmWriter {
    pub fn new() -> (w: Self) {
        EvmWriter {  }
    }

    /// The component's name.
    pub fn name(&self) -> (n: &'static str)
        ensures
            n@ == "EvmWriter"@,
    {
        "EvmWriter"
    }

    /// Handling an event produces no follow-up events.
    pub fn handle_event<E>(&self, _event: E) -> (out: Vec<E>)
        ensures
            out@.len() == 0,
    {
        Vec::new()
    }
}

/// What the order processor does with a newly opened order.
#[derive(Clone, Debug)]
pub enum OrderCreatedDecision {
    /// Reject the order with the given reason.
    Reject(String),
    /// Hold this much of the destination asset, then fill it.
    RequestHold(u128),
}

/// The smallest output the solver accepts for an input, its fee taken:
/// `amount_in * (10_000 - fee_bps) / 10_000`, rounded down.
pub open spec fn spec_min_amount_out(amount_in: u128, fee_bps: u128) -> int {
    (amount_in * (10_000 - fee_bps)) / 10_000
}

/// The reason given when an order's output does not cover the fee.
pub open spec fn spec_fee_reason(amount_out: u128, min_amount_out: u128) -> Seq<char> {
    "Order amount_out "@ + spec_decimal(amount_out as nat)
        + " does not cover fee-inclusive amount_out "@ + spec_decimal(min_amount_out as nat)
}

/// The order processor's settings.
pub struct OrderProcessor {
    /// Largest amount filled at once; larger orders are clipped.
    pub max_clip_size: u128,
    /// The solver's fee, in basis points.
    pub fee_bps: u128,
}

impl OrderProcessor {
    pub fn new(max_clip_size: u128, fee_bps: u128) -> (p: Self)
        ensures
            p.max_clip_size == max_clip_size,
            p.fee_bps == fee_bps,
    {
        OrderProcessor { max_clip_size, fee_bps }
    }

    /// The component's name.
    pub fn name(&self) -> (n: &'static str)
        ensures
            n@ == "OrderProcessor"@,
    {
        "OrderProcessor"
    }

    /// Decides on a newly opened order, given whether its source and
    /// destination assets are supported: orders on unsupported assets are
    /// rejected, so are orders whose output exceeds the input less the fee;
    /// the rest are held, clipped to the largest fill size.
    pub fn decide_order_created(
        &self,
        source_supported: bool,
        destination_supported: bool,
        amount_in: u128,
        amount_out: u128,
    ) -> (d: OrderCreatedDecision)
        requires
            source_supported && destination_supported ==> self.fee_bps <= BPS_DENOMINATOR,
            source_supported && destination_supported ==> amount_in * (BPS_DENOMINATOR
                - self.fee_bps) <= u128::MAX,
        ensures
            !(source_supported && destination_supported) ==> (d matches OrderCreatedDecision::Reject(
                r,
            ) && r@ == "Asset not supported"@),
            source_supported && destination_supported && spec_min_amount_out(
                amount_in,
                self.fee_bps,
            ) < amount_out ==> (d matches OrderCreatedDecision::Reject(r) && r@ == spec_fee_reason(
                amount_out,
                spec_min_amount_out(amount_in, self.fee_bps) as u128,
            )),
            source_supported && destination_supported ==> (d is RequestHold <==> amount_out as int
                * 10_000 <= amount_in as int * (10_000 - self.fee_bps as int)),
            d matches OrderCreatedDecision::RequestHold(h) ==> h <= amount_out && h <= self.max_clip_size
                && (h == amount_out || h == self.max_clip_size),
            source_supported && destination_supported && amount_out <= spec_min_amount_out(
                amount_in,
                self.fee_bps,
            ) ==> d == OrderCreatedDecision::RequestHold(
                if amount_out <= self.max_clip_size {
                    amount_out
                } else {
                    self.max_clip_size
                },
            ),
    {
        if !source_supported || !destination_supported {
            return OrderCreatedDecision::Reject(String::from_str("Asset not supported"));
        }
        let min_amount_out = amount_in * (BPS_DENOMINATOR - self.fee_bps) / BPS_DENOMINATOR;
        proof {
            let p: int = amount_in as int * (10_000 - self.fee_bps as int);
            let q: int = amount_out as int;
            assert(p >= 0) by (nonlinear_arith)
                requires
                    amount_in as int >= 0,
                    10_000 - self.fee_bps as int >= 0,
                    p == amount_in as int * (10_000 - self.fee_bps as int),
            ;
            assert((q <= p / 10_000) <==> (q * 10_000 <= p)) by (nonlinear_arith)
                requires
                    p >= 0,
                    q >= 0,
            ;
        }
        if min_amount_out < amount_out {
            let mut reason = concat_str("Order amount_out ", u128_to_decimal(amount_out).as_str());
            reason.append(" does not cover fee-inclusive amount_out ");
            reason.append(u128_to_decimal(min_amount_out).as_str());
            return OrderCreatedDecision::Reject(reason);
        }
        let fill_amount = if amount_out <= self.max_clip_size {
            amount_out
        } else {
            self.max_clip_size
        };
        OrderCreatedDecision::RequestHold(fill_amount)
    }

    /// A successful hold is answered with a fill of the held amount.
    pub fn decide_hold_successful(&self, hold_amount: u128) -> (fill_amount: u128)
        ensures
            fill_amount == hold_amount,
    {
        hold_amount
    }
}

/// Whole seconds since the Unix epoch by the system clock, or none when the
/// clock reads earlier than the epoch. What the clock reads is not known.
pub fn unix_timestamp_secs() -> Option<u64> {
    match secs_since_unix_epoch() {
        Ok(secs) => Some(secs),
        Err(_) => None,
    }
}

} // verus!
