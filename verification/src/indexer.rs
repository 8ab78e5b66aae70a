//! What the indexer records of the order book program: the program's types
//! mapped to indexed records, and its events and instructions decoded from
//! their bytes.
use crate::layout::{
    lemma_cancel_report_stored_at, lemma_fill_params_stored_at, lemma_fill_report_stored_at, lemma_foreign_order_stored_at, lemma_native_order_stored_at, lemma_order_data_stored_at, lemma_order_params_stored_at, spec_cancel_report_bytes, spec_fill_params_bytes, spec_fill_report_bytes, spec_foreign_order_bytes, spec_native_order_bytes, spec_order_data_bytes, spec_order_params_bytes,
    lemma_le_round_trips,
    rd_u128, rd_u16, rd_u32, rd_u64, read_bool, read_cancel_report, read_fill_params, read_fill_report,
    read_foreign_order, read_key, read_native_order, read_order_data, read_order_params,
    spec_bool_of_byte, spec_cancel_report_fits, spec_fill_params_fits, spec_fill_report_fits,
    spec_foreign_order_fits, spec_native_order_fits, spec_order_data_fits, spec_order_params_fits,
    spec_status_of_byte, spec_cancel_report_at, spec_fill_params_at, spec_fill_report_at,
    spec_foreign_order_at, spec_native_order_at, spec_order_data_at, spec_order_params_at,
};
use crate::builder::{CancelOrderInput, OpenOrderInput};
use crate::bytes::{lemma_layouts, le128, le16, le32, le64};
use crate::pb;
use crate::svm_builder::{spec_cancel_order_data, spec_open_order_data};
use crate::program::{CancelReport, FillParams, FillReport, ForeignOrder, NativeOrder, OrderData, OrderParams, OrderStatus, OrderType};
use crate::solana::{pubkey_to_string, spec_pubkey_string};
use crate::text::{base64_decode, lemma_base64_len, spec_base64, str_equal};
use vstd::prelude::*;

verus! {

/// Each byte widened to a `u64`, as the indexed records store byte arrays.
pub open spec fn widen(s: Seq<u8>) -> Seq<u64> {
    s.map_values(|x: u8| x as u64)
}

/// The number an order status is indexed as.
pub open spec fn spec_status_code(s: OrderStatus) -> i32 {
    match s {
        OrderStatus::DoesNotExist => 0,
        OrderStatus::Created => 1,
        OrderStatus::Cancelled => 2,
        OrderStatus::Completed => 3,
    }
}

/// The number an order type is indexed as.
pub open spec fn spec_order_type_code(t: OrderType) -> i32 {
    match t {
        OrderType::Native => 0,
        OrderType::Foreign => 1,
    }
}

fn widen_key(k: &[u8; 32]) -> (v: Vec<u64>)
    ensures
        v@ == widen(k@),
{
    let mut v: Vec<u64> = Vec::new();
    for i in 0..32usize
        invariant
            v@ == widen(k@).subrange(0, i as int),
    {
        v.push(k[i] as u64);
        assert(widen(k@).subrange(0, i + 1) == widen(k@).subrange(0, i as int).push(k@[i as int] as u64));
    }
    assert(widen(k@).subrange(0, 32) == widen(k@));
    v
}

/// The number an order status is indexed as.
pub fn map_enum_order_status(value: OrderStatus) -> (n: i32)
    ensures
        n == spec_status_code(value),
{
    match value {
        OrderStatus::DoesNotExist => 0,
        OrderStatus::Created => 1,
        OrderStatus::Cancelled => 2,
        OrderStatus::Completed => 3,
    }
}

/// The number an order type is indexed as.
pub fn map_enum_order_type(value: OrderType) -> (n: i32)
    ensures
        n == spec_order_type_code(value),
{
    match value {
        OrderType::Native => 0,
        OrderType::Foreign => 1,
    }
}

/// Whether the record `p` is the indexed form of `v`: byte arrays widened,
/// public keys in base58, wide integers truncated to 64 bits.
pub open spec fn spec_pb_order_data_of(p: pb::OrderData, v: OrderData) -> bool {
    &&& p.version == v.version as u64
    &&& p.sender@ == widen(v.sender@)
    &&& p.nonce == v.nonce
    &&& p.origin_chain_id == v.origin_chain_id
    &&& p.dest_chain_id == v.dest_chain_id
    &&& p.created_at == v.created_at
    &&& p.fill_deadline == v.fill_deadline
    &&& p.token_in@ == widen(v.token_in@)
    &&& p.token_out@ == widen(v.token_out@)
    &&& p.amount_in == v.amount_in as u64
    &&& p.amount_out == v.amount_out as u64
    &&& p.recipient@ == widen(v.recipient@)
    &&& p.solver@ == widen(v.solver@)
}

/// Whether the record `p` is the indexed form of the `OrderData` stored at `b[o..]`.
pub open spec fn spec_pb_order_data_at(p: pb::OrderData, b: Seq<u8>, o: int) -> bool {
    &&& (p.version == rd_u16(b, o) as u64)
    &&& (p.sender@ == widen(b.subrange(o + 2, o + 2 + 32)))
    &&& (p.nonce == rd_u64(b, o + 34))
    &&& (p.origin_chain_id == rd_u32(b, o + 42))
    &&& (p.dest_chain_id == rd_u32(b, o + 46))
    &&& (p.created_at == rd_u64(b, o + 50))
    &&& (p.fill_deadline == rd_u64(b, o + 58))
    &&& (p.token_in@ == widen(b.subrange(o + 66, o + 66 + 32)))
    &&& (p.token_out@ == widen(b.subrange(o + 98, o + 98 + 32)))
    &&& (p.amount_in == rd_u128(b, o + 130) as u64)
    &&& (p.amount_out == rd_u128(b, o + 146) as u64)
    &&& (p.recipient@ == widen(b.subrange(o + 162, o + 162 + 32)))
    &&& (p.solver@ == widen(b.subrange(o + 194, o + 194 + 32)))
}

/// The indexed record of a `OrderData`, if there is one.
pub fn map_option_order_data(value: Option<OrderData>) -> (r: Option<pb::OrderData>)
    ensures
        match value {
            None => r is None,
            Some(v) => r matches Some(p) && spec_pb_order_data_of(p, v),
        },
{
    match value {
        Some(v) => Some(pb::OrderData {
            version: v.version as u64,
            sender: widen_key(&v.sender),
            nonce: v.nonce,
            origin_chain_id: v.origin_chain_id,
            dest_chain_id: v.dest_chain_id,
            created_at: v.created_at,
            fill_deadline: v.fill_deadline,
            token_in: widen_key(&v.token_in),
            token_out: widen_key(&v.token_out),
            amount_in: v.amount_in as u64,
            amount_out: v.amount_out as u64,
            recipient: widen_key(&v.recipient),
            solver: widen_key(&v.solver),
        }),
        None => None,
    }
}

/// Whether the record `p` is the indexed form of `v`: byte arrays widened,
/// public keys in base58, wide integers truncated to 64 bits.
pub open spec fn spec_pb_order_params_of(p: pb::OrderParams, v: OrderParams) -> bool {
    &&& p.dest_chain_id == v.dest_chain_id
    &&& p.created_at == v.created_at
    &&& p.fill_deadline == v.fill_deadline
    &&& p.token_out@ == widen(v.token_out@)
    &&& p.amount_in == v.amount_in
    &&& p.amount_out == v.amount_out as u64
    &&& p.recipient@ == widen(v.recipient@)
    &&& p.solver@ == widen(v.solver@)
}

/// Whether the record `p` is the indexed form of the `OrderParams` stored at `b[o..]`.
pub open spec fn spec_pb_order_params_at(p: pb::OrderParams, b: Seq<u8>, o: int) -> bool {
    &&& (p.dest_chain_id == rd_u32(b, o))
    &&& (p.created_at == rd_u64(b, o + 4))
    &&& (p.fill_deadline == rd_u64(b, o + 12))
    &&& (p.token_out@ == widen(b.subrange(o + 20, o + 20 + 32)))
    &&& (p.amount_in == rd_u64(b, o + 52))
    &&& (p.amount_out == rd_u128(b, o + 60) as u64)
    &&& (p.recipient@ == widen(b.subrange(o + 76, o + 76 + 32)))
    &&& (p.solver@ == widen(b.subrange(o + 108, o + 108 + 32)))
}

/// The indexed record of a `OrderParams`, if there is one.
pub fn map_option_order_params(value: Option<OrderParams>) -> (r: Option<pb::OrderParams>)
    ensures
        match value {
            None => r is None,
            Some(v) => r matches Some(p) && spec_pb_order_params_of(p, v),
        },
{
    match value {
        Some(v) => Some(pb::OrderParams {
            dest_chain_id: v.dest_chain_id,
            created_at: v.created_at,
            fill_deadline: v.fill_deadline,
            token_out: widen_key(&v.token_out),
            amount_in: v.amount_in,
            amount_out: v.amount_out as u64,
            recipient: widen_key(&v.recipient),
            solver: widen_key(&v.solver),
        }),
        None => None,
    }
}

/// Whether the record `p` is the indexed form of `v`: byte arrays widened,
/// public keys in base58, wide integers truncated to 64 bits.
pub open spec fn spec_pb_fill_params_of(p: pb::FillParams, v: FillParams) -> bool {
    &&& p.amount_out_to_fill == v.amount_out_to_fill
    &&& p.origin_recipient@ == widen(v.origin_recipient@)
}

/// Whether the record `p` is the indexed form of the `FillParams` stored at `b[o..]`.
pub open spec fn spec_pb_fill_params_at(p: pb::FillParams, b: Seq<u8>, o: int) -> bool {
    &&& (p.amount_out_to_fill == rd_u64(b, o))
    &&& (p.origin_recipient@ == widen(b.subrange(o + 8, o + 8 + 32)))
}

/// The indexed record of a `FillParams`, if there is one.
pub fn map_option_fill_params(value: Option<FillParams>) -> (r: Option<pb::FillParams>)
    ensures
        match value {
            None => r is None,
            Some(v) => r matches Some(p) && spec_pb_fill_params_of(p, v),
        },
{
    match value {
        Some(v) => Some(pb::FillParams {
            amount_out_to_fill: v.amount_out_to_fill,
            origin_recipient: widen_key(&v.origin_recipient),
        }),
        None => None,
    }
}

/// Whether the record `p` is the indexed form of `v`: byte arrays widened,
/// public keys in base58, wide integers truncated to 64 bits.
pub open spec fn spec_pb_cancel_report_of(p: pb::CancelReport, v: CancelReport) -> bool {
    &&& p.order_id@ == widen(v.order_id@)
    &&& p.order_sender@ == widen(v.order_sender@)
    &&& p.token_in@ == widen(v.token_in@)
    &&& p.amount_in_to_refund == v.amount_in_to_refund as u64
}

/// Whether the record `p` is the indexed form of the `CancelReport` stored at `b[o..]`.
pub open spec fn spec_pb_cancel_report_at(p: pb::CancelReport, b: Seq<u8>, o: int) -> bool {
    &&& (p.order_id@ == widen(b.subrange(o, o + 32)))
    &&& (p.order_sender@ == widen(b.subrange(o + 32, o + 32 + 32)))
    &&& (p.token_in@ == widen(b.subrange(o + 64, o + 64 + 32)))
    &&& (p.amount_in_to_refund == rd_u128(b, o + 96) as u64)
}

/// The indexed record of a `CancelReport`, if there is one.
pub fn map_option_cancel_report(value: Option<CancelReport>) -> (r: Option<pb::CancelReport>)
    ensures
        match value {
            None => r is None,
            Some(v) => r matches Some(p) && spec_pb_cancel_report_of(p, v),
        },
{
    match value {
        Some(v) => Some(pb::CancelReport {
            order_id: widen_key(&v.order_id),
            order_sender: widen_key(&v.order_sender),
            token_in: widen_key(&v.token_in),
            amount_in_to_refund: v.amount_in_to_refund as u64,
        }),
        None => None,
    }
}

/// Whether the record `p` is the indexed form of `v`: byte arrays widened,
/// public keys in base58, wide integers truncated to 64 bits.
pub open spec fn spec_pb_fill_report_of(p: pb::FillReport, v: FillReport) -> bool {
    &&& p.order_id@ == widen(v.order_id@)
    &&& p.amount_in_to_release == v.amount_in_to_release as u64
    &&& p.amount_out_filled == v.amount_out_filled as u64
    &&& p.origin_recipient@ == widen(v.origin_recipient@)
    &&& p.token_in@ == widen(v.token_in@)
}

/// Whether the record `p` is the indexed form of the `FillReport` stored at `b[o..]`.
pub open spec fn spec_pb_fill_report_at(p: pb::FillReport, b: Seq<u8>, o: int) -> bool {
    &&& (p.order_id@ == widen(b.subrange(o, o + 32)))
    &&& (p.amount_in_to_release == rd_u128(b, o + 32) as u64)
    &&& (p.amount_out_filled == rd_u128(b, o + 48) as u64)
    &&& (p.origin_recipient@ == widen(b.subrange(o + 64, o + 64 + 32)))
    &&& (p.token_in@ == widen(b.subrange(o + 96, o + 96 + 32)))
}

/// The indexed record of a `FillReport`, if there is one.
pub fn map_option_fill_report(value: Option<FillReport>) -> (r: Option<pb::FillReport>)
    ensures
        match value {
            None => r is None,
            Some(v) => r matches Some(p) && spec_pb_fill_report_of(p, v),
        },
{
    match value {
        Some(v) => Some(pb::FillReport {
            order_id: widen_key(&v.order_id),
            amount_in_to_release: v.amount_in_to_release as u64,
            amount_out_filled: v.amount_out_filled as u64,
            origin_recipient: widen_key(&v.origin_recipient),
            token_in: widen_key(&v.token_in),
        }),
        None => None,
    }
}

/// Whether the record `p` is the indexed form of `v`: byte arrays widened,
/// public keys in base58, wide integers truncated to 64 bits.
pub open spec fn spec_pb_foreign_order_of(p: pb::ForeignOrder, v: ForeignOrder) -> bool {
    &&& p.status == spec_status_code(v.status)
    &&& p.amount_in_released == v.amount_in_released as u64
    &&& p.amount_out_filled == v.amount_out_filled as u64
    &&& p.amount_in_refunded == v.amount_in_refunded as u64
}

/// Whether the record `p` is the indexed form of the `ForeignOrder` stored at `b[o..]`.
pub open spec fn spec_pb_foreign_order_at(p: pb::ForeignOrder, b: Seq<u8>, o: int) -> bool {
    &&& (spec_status_of_byte(b[o]) matches Some(s) && p.status == spec_status_code(s))
    &&& (p.amount_in_released == rd_u128(b, o + 1) as u64)
    &&& (p.amount_out_filled == rd_u128(b, o + 17) as u64)
    &&& (p.amount_in_refunded == rd_u128(b, o + 33) as u64)
}

/// The indexed record of a `ForeignOrder`, if there is one.
pub fn map_option_foreign_order(value: Option<ForeignOrder>) -> (r: Option<pb::ForeignOrder>)
    ensures
        match value {
            None => r is None,
            Some(v) => r matches Some(p) && spec_pb_foreign_order_of(p, v),
        },
{
    match value {
        Some(v) => Some(pb::ForeignOrder {
            status: map_enum_order_status(v.status),
            amount_in_released: v.amount_in_released as u64,
            amount_out_filled: v.amount_out_filled as u64,
            amount_in_refunded: v.amount_in_refunded as u64,
        }),
        None => None,
    }
}

/// Whether the record `p` is the indexed form of `v`: byte arrays widened,
/// public keys in base58, wide integers truncated to 64 bits.
pub open spec fn spec_pb_native_order_of(p: pb::NativeOrder, v: NativeOrder) -> bool {
    &&& p.status == spec_status_code(v.status)
    &&& p.version == v.version as u64
    &&& p.sender@ == spec_pubkey_string(v.sender@)
    &&& p.payer@ == spec_pubkey_string(v.payer@)
    &&& p.nonce == v.nonce
    &&& p.dest_chain_id == v.dest_chain_id
    &&& p.created_at == v.created_at
    &&& p.fill_deadline == v.fill_deadline
    &&& p.token_in@ == spec_pubkey_string(v.token_in@)
    &&& p.token_out@ == widen(v.token_out@)
    &&& p.amount_in == v.amount_in as u64
    &&& p.amount_out == v.amount_out as u64
    &&& p.recipient@ == widen(v.recipient@)
    &&& p.solver@ == widen(v.solver@)
    &&& p.amount_in_released == v.amount_in_released as u64
    &&& p.amount_out_filled == v.amount_out_filled as u64
    &&& p.amount_in_refunded == v.amount_in_refunded as u64
}

/// Whether the record `p` is the indexed form of the `NativeOrder` stored at `b[o..]`.
pub open spec fn spec_pb_native_order_at(p: pb::NativeOrder, b: Seq<u8>, o: int) -> bool {
    &&& (spec_status_of_byte(b[o]) matches Some(s) && p.status == spec_status_code(s))
    &&& (p.version == rd_u16(b, o + 1) as u64)
    &&& (p.sender@ == spec_pubkey_string(b.subrange(o + 3, o + 3 + 32)))
    &&& (p.payer@ == spec_pubkey_string(b.subrange(o + 35, o + 35 + 32)))
    &&& (p.nonce == rd_u64(b, o + 67))
    &&& (p.dest_chain_id == rd_u32(b, o + 75))
    &&& (p.created_at == rd_u64(b, o + 79))
    &&& (p.fill_deadline == rd_u64(b, o + 87))
    &&& (p.token_in@ == spec_pubkey_string(b.subrange(o + 95, o + 95 + 32)))
    &&& (p.token_out@ == widen(b.subrange(o + 127, o + 127 + 32)))
    &&& (p.amount_in == rd_u128(b, o + 159) as u64)
    &&& (p.amount_out == rd_u128(b, o + 175) as u64)
    &&& (p.recipient@ == widen(b.subrange(o + 191, o + 191 + 32)))
    &&& (p.solver@ == widen(b.subrange(o + 223, o + 223 + 32)))
    &&& (p.amount_in_released == rd_u128(b, o + 255) as u64)
    &&& (p.amount_out_filled == rd_u128(b, o + 271) as u64)
    &&& (p.amount_in_refunded == rd_u128(b, o + 287) as u64)
}

/// The indexed record of a `NativeOrder`, if there is one.
pub fn map_option_native_order(value: Option<NativeOrder>) -> (r: Option<pb::NativeOrder>)
    ensures
        match value {
            None => r is None,
            Some(v) => r matches Some(p) && spec_pb_native_order_of(p, v),
        },
{
    match value {
        Some(v) => Some(pb::NativeOrder {
            status: map_enum_order_status(v.status),
            version: v.version as u64,
            sender: pubkey_to_string(&v.sender),
            payer: pubkey_to_string(&v.payer),
            nonce: v.nonce,
            dest_chain_id: v.dest_chain_id,
            created_at: v.created_at,
            fill_deadline: v.fill_deadline,
            token_in: pubkey_to_string(&v.token_in),
            token_out: widen_key(&v.token_out),
            amount_in: v.amount_in as u64,
            amount_out: v.amount_out as u64,
            recipient: widen_key(&v.recipient),
            solver: widen_key(&v.solver),
            amount_in_released: v.amount_in_released as u64,
            amount_out_filled: v.amount_out_filled as u64,
            amount_in_refunded: v.amount_in_refunded as u64,
        }),
        None => None,
    }
}

fn read_u32_field(data: &[u8], off: usize) -> (x: u32)
    requires
        off + 4 <= data@.len(),
    ensures
        x == rd_u32(data@, off as int),
{
    let _n = data.len();
    vstd::bytes::u32_from_le_bytes(&data[off..off + 4])
}

fn read_u64_field(data: &[u8], off: usize) -> (x: u64)
    requires
        off + 8 <= data@.len(),
    ensures
        x == rd_u64(data@, off as int),
{
    let _n = data.len();
    vstd::bytes::u64_from_le_bytes(&data[off..off + 8])
}

fn read_u128_field(data: &[u8], off: usize) -> (x: u128)
    requires
        off + 16 <= data@.len(),
    ensures
        x == rd_u128(data@, off as int),
{
    let _n = data.len();
    vstd::bytes::u128_from_le_bytes(&data[off..off + 16])
}

/// The eight bytes at `b[o..o + 8]`: a discriminator.
pub open spec fn spec_disc_at(b: Seq<u8>, o: int) -> Seq<u8> {
    b.subrange(o, o + 8)
}

fn disc_matches(data: &[u8], off: usize, d: &[u8; 8]) -> (m: bool)
    requires
        off + 8 <= data@.len(),
    ensures
        m == (spec_disc_at(data@, off as int) == d@),
{
    let n = data.len();
    for i in 0..8usize
        invariant
            n == data@.len(),
            off + 8 <= data@.len(),
            forall|j: int| 0 <= j < i ==> data@[off + j] == d@[j],
    {
        if data[off + i] != d[i] {
            assert(spec_disc_at(data@, off as int)[i as int] != d@[i as int]);
            return false;
        }
    }
    assert(spec_disc_at(data@, off as int) =~= d@);
    true
}

/// Discriminator of the `CancelReported` event.
pub const CANCEL_REPORTED_EVENT_DISCRIMINATOR: [u8; 8] = [252, 60, 197, 41, 225, 209, 88, 99];

/// Whether `b[o..]` holds readable arguments of `CancelReported`.
pub open spec fn spec_event_cancel_reported_fits(b: Seq<u8>, o: int) -> bool {
    0 <= o && o + 32 <= b.len()
}

/// Whether `p` is the record of the `CancelReported` stored at `b[o..]`, in transaction `trx`.
pub open spec fn spec_event_cancel_reported_at(p: pb::CancelReportedEvent, trx: Seq<char>, b: Seq<u8>, o: int, accts: Seq<String>) -> bool {
    &&& p.trx_hash@ == trx
    &&& (p.order_id@ == widen(b.subrange(o, o + 32)))
}

fn decode_event_cancel_reported(data: &[u8], off: usize, trx: &String, accts: &Vec<String>) -> (r: Option<pb::CancelReportedEvent>)
    requires
        off <= data@.len(),
    ensures
        r is Some <==> spec_event_cancel_reported_fits(data@, off as int),
        r matches Some(p) ==> spec_event_cancel_reported_at(p, trx@, data@, off as int, accts@),
{
    if data.len() - off < 32 {
        return None;
    }
    let order_id = widen_key(&read_key(data, off));
    Some(pb::CancelReportedEvent { trx_hash: trx.clone(), order_id })
}

/// Discriminator of the `DestinationSupportUpdated` event.
pub const DESTINATION_SUPPORT_UPDATED_EVENT_DISCRIMINATOR: [u8; 8] = [227, 159, 191, 253, 130, 208, 72, 39];

/// Whether `b[o..]` holds readable arguments of `DestinationSupportUpdated`.
pub open spec fn spec_event_destination_support_updated_fits(b: Seq<u8>, o: int) -> bool {
    0 <= o && o + 5 <= b.len() && spec_bool_of_byte(b[o + 4]) is Some
}

/// Whether `p` is the record of the `DestinationSupportUpdated` stored at `b[o..]`, in transaction `trx`.
pub open spec fn spec_event_destination_support_updated_at(p: pb::DestinationSupportUpdatedEvent, trx: Seq<char>, b: Seq<u8>, o: int, accts: Seq<String>) -> bool {
    &&& p.trx_hash@ == trx
    &&& (p.dest_chain_id == rd_u32(b, o))
    &&& (spec_bool_of_byte(b[o + 4]) == Some(p.is_supported))
}

fn decode_event_destination_support_updated(data: &[u8], off: usize, trx: &String, accts: &Vec<String>) -> (r: Option<pb::DestinationSupportUpdatedEvent>)
    requires
        off <= data@.len(),
    ensures
        r is Some <==> spec_event_destination_support_updated_fits(data@, off as int),
        r matches Some(p) ==> spec_event_destination_support_updated_at(p, trx@, data@, off as int, accts@),
{
    if data.len() - off < 5 {
        return None;
    }
    let dest_chain_id = read_u32_field(data, off);
    let is_supported = match read_bool(data, off + 4) {
        Some(x) => x,
        None => {
            return None;
        },
    };
    Some(pb::DestinationSupportUpdatedEvent { trx_hash: trx.clone(), dest_chain_id, is_supported })
}

/// Discriminator of the `FillReported` event.
pub const FILL_REPORTED_EVENT_DISCRIMINATOR: [u8; 8] = [167, 73, 253, 111, 29, 56, 95, 35];

/// Whether `b[o..]` holds readable arguments of `FillReported`.
pub open spec fn spec_event_fill_reported_fits(b: Seq<u8>, o: int) -> bool {
    0 <= o && o + 96 <= b.len()
}

/// Whether `p` is the record of the `FillReported` stored at `b[o..]`, in transaction `trx`.
pub open spec fn spec_event_fill_reported_at(p: pb::FillReportedEvent, trx: Seq<char>, b: Seq<u8>, o: int, accts: Seq<String>) -> bool {
    &&& p.trx_hash@ == trx
    &&& (p.order_id@ == widen(b.subrange(o, o + 32)))
    &&& (p.amount_in_to_release == rd_u128(b, o + 32) as u64)
    &&& (p.amount_out_filled == rd_u128(b, o + 48) as u64)
    &&& (p.origin_recipient@ == widen(b.subrange(o + 64, o + 64 + 32)))
}

fn decode_event_fill_reported(data: &[u8], off: usize, trx: &String, accts: &Vec<String>) -> (r: Option<pb::FillReportedEvent>)
    requires
        off <= data@.len(),
    ensures
        r is Some <==> spec_event_fill_reported_fits(data@, off as int),
        r matches Some(p) ==> spec_event_fill_reported_at(p, trx@, data@, off as int, accts@),
{
    if data.len() - off < 96 {
        return None;
    }
    let order_id = widen_key(&read_key(data, off));
    let amount_in_to_release = read_u128_field(data, off + 32) as u64;
    let amount_out_filled = read_u128_field(data, off + 48) as u64;
    let origin_recipient = widen_key(&read_key(data, off + 64));
    Some(pb::FillReportedEvent { trx_hash: trx.clone(), order_id, amount_in_to_release, amount_out_filled, origin_recipient })
}

/// Discriminator of the `OrderCancelled` event.
pub const ORDER_CANCELLED_EVENT_DISCRIMINATOR: [u8; 8] = [108, 56, 128, 68, 168, 113, 168, 239];

/// Whether `b[o..]` holds readable arguments of `OrderCancelled`.
pub open spec fn spec_event_order_cancelled_fits(b: Seq<u8>, o: int) -> bool {
    0 <= o && o + 32 <= b.len()
}

/// Whether `p` is the record of the `OrderCancelled` stored at `b[o..]`, in transaction `trx`.
pub open spec fn spec_event_order_cancelled_at(p: pb::OrderCancelledEvent, trx: Seq<char>, b: Seq<u8>, o: int, accts: Seq<String>) -> bool {
    &&& p.trx_hash@ == trx
    &&& (p.order_id@ == widen(b.subrange(o, o + 32)))
}

fn decode_event_order_cancelled(data: &[u8], off: usize, trx: &String, accts: &Vec<String>) -> (r: Option<pb::OrderCancelledEvent>)
    requires
        off <= data@.len(),
    ensures
        r is Some <==> spec_event_order_cancelled_fits(data@, off as int),
        r matches Some(p) ==> spec_event_order_cancelled_at(p, trx@, data@, off as int, accts@),
{
    if data.len() - off < 32 {
        return None;
    }
    let order_id = widen_key(&read_key(data, off));
    Some(pb::OrderCancelledEvent { trx_hash: trx.clone(), order_id })
}

/// Discriminator of the `OrderCompleted` event.
pub const ORDER_COMPLETED_EVENT_DISCRIMINATOR: [u8; 8] = [90, 77, 52, 248, 56, 233, 110, 197];

/// Whether `b[o..]` holds readable arguments of `OrderCompleted`.
pub open spec fn spec_event_order_completed_fits(b: Seq<u8>, o: int) -> bool {
    0 <= o && o + 32 <= b.len()
}

/// Whether `p` is the record of the `OrderCompleted` stored at `b[o..]`, in transaction `trx`.
pub open spec fn spec_event_order_completed_at(p: pb::OrderCompletedEvent, trx: Seq<char>, b: Seq<u8>, o: int, accts: Seq<String>) -> bool {
    &&& p.trx_hash@ == trx
    &&& (p.order_id@ == widen(b.subrange(o, o + 32)))
}

fn decode_event_order_completed(data: &[u8], off: usize, trx: &String, accts: &Vec<String>) -> (r: Option<pb::OrderCompletedEvent>)
    requires
        off <= data@.len(),
    ensures
        r is Some <==> spec_event_order_completed_fits(data@, off as int),
        r matches Some(p) ==> spec_event_order_completed_at(p, trx@, data@, off as int, accts@),
{
    if data.len() - off < 32 {
        return None;
    }
    let order_id = widen_key(&read_key(data, off));
    Some(pb::OrderCompletedEvent { trx_hash: trx.clone(), order_id })
}

/// Discriminator of the `OrderFilled` event.
pub const ORDER_FILLED_EVENT_DISCRIMINATOR: [u8; 8] = [120, 124, 109, 66, 249, 116, 174, 30];

/// Whether `b[o..]` holds readable arguments of `OrderFilled`.
pub open spec fn spec_event_order_filled_fits(b: Seq<u8>, o: int) -> bool {
    0 <= o && o + 96 <= b.len()
}

/// Whether `p` is the record of the `OrderFilled` stored at `b[o..]`, in transaction `trx`.
pub open spec fn spec_event_order_filled_at(p: pb::OrderFilledEvent, trx: Seq<char>, b: Seq<u8>, o: int, accts: Seq<String>) -> bool {
    &&& p.trx_hash@ == trx
    &&& (p.order_id@ == widen(b.subrange(o, o + 32)))
    &&& (p.solver@ == spec_pubkey_string(b.subrange(o + 32, o + 32 + 32)))
    &&& (p.amount_in_to_release == rd_u128(b, o + 64) as u64)
    &&& (p.amount_out_filled == rd_u128(b, o + 80) as u64)
}

fn decode_event_order_filled(data: &[u8], off: usize, trx: &String, accts: &Vec<String>) -> (r: Option<pb::OrderFilledEvent>)
    requires
        off <= data@.len(),
    ensures
        r is Some <==> spec_event_order_filled_fits(data@, off as int),
        r matches Some(p) ==> spec_event_order_filled_at(p, trx@, data@, off as int, accts@),
{
    if data.len() - off < 96 {
        return None;
    }
    let order_id = widen_key(&read_key(data, off));
    let solver = pubkey_to_string(&read_key(data, off + 32));
    let amount_in_to_release = read_u128_field(data, off + 64) as u64;
    let amount_out_filled = read_u128_field(data, off + 80) as u64;
    Some(pb::OrderFilledEvent { trx_hash: trx.clone(), order_id, solver, amount_in_to_release, amount_out_filled })
}

/// Discriminator of the `OrderOpened` event.
pub const ORDER_OPENED_EVENT_DISCRIMINATOR: [u8; 8] = [2, 254, 197, 24, 41, 166, 225, 56];

/// Whether `b[o..]` holds readable arguments of `OrderOpened`.
pub open spec fn spec_event_order_opened_fits(b: Seq<u8>, o: int) -> bool {
    0 <= o && o + 188 <= b.len()
}

/// Whether `p` is the record of the `OrderOpened` stored at `b[o..]`, in transaction `trx`.
pub open spec fn spec_event_order_opened_at(p: pb::OrderOpenedEvent, trx: Seq<char>, b: Seq<u8>, o: int, accts: Seq<String>) -> bool {
    &&& p.trx_hash@ == trx
    &&& (p.order_id@ == widen(b.subrange(o, o + 32)))
    &&& (p.sender@ == spec_pubkey_string(b.subrange(o + 32, o + 32 + 32)))
    &&& (p.token_in@ == spec_pubkey_string(b.subrange(o + 64, o + 64 + 32)))
    &&& (p.amount_in == rd_u64(b, o + 96))
    &&& (p.dest_chain_id == rd_u32(b, o + 104))
    &&& (p.token_out@ == widen(b.subrange(o + 108, o + 108 + 32)))
    &&& (p.amount_out == rd_u128(b, o + 140) as u64)
    &&& (p.solver@ == widen(b.subrange(o + 156, o + 156 + 32)))
}

fn decode_event_order_opened(data: &[u8], off: usize, trx: &String, accts: &Vec<String>) -> (r: Option<pb::OrderOpenedEvent>)
    requires
        off <= data@.len(),
    ensures
        r is Some <==> spec_event_order_opened_fits(data@, off as int),
        r matches Some(p) ==> spec_event_order_opened_at(p, trx@, data@, off as int, accts@),
{
    if data.len() - off < 188 {
        return None;
    }
    let order_id = widen_key(&read_key(data, off));
    let sender = pubkey_to_string(&read_key(data, off + 32));
    let token_in = pubkey_to_string(&read_key(data, off + 64));
    let amount_in = read_u64_field(data, off + 96);
    let dest_chain_id = read_u32_field(data, off + 104);
    let token_out = widen_key(&read_key(data, off + 108));
    let amount_out = read_u128_field(data, off + 140) as u64;
    let solver = widen_key(&read_key(data, off + 156));
    Some(pb::OrderOpenedEvent { trx_hash: trx.clone(), order_id, sender, token_in, amount_in, dest_chain_id, token_out, amount_out, solver })
}

/// Discriminator of the `RefundClaimed` event.
pub const REFUND_CLAIMED_EVENT_DISCRIMINATOR: [u8; 8] = [136, 64, 242, 99, 4, 244, 208, 130];

/// Whether `b[o..]` holds readable arguments of `RefundClaimed`.
pub open spec fn spec_event_refund_claimed_fits(b: Seq<u8>, o: int) -> bool {
    0 <= o && o + 72 <= b.len()
}

/// Whether `p` is the record of the `RefundClaimed` stored at `b[o..]`, in transaction `trx`.
pub open spec fn spec_event_refund_claimed_at(p: pb::RefundClaimedEvent, trx: Seq<char>, b: Seq<u8>, o: int, accts: Seq<String>) -> bool {
    &&& p.trx_hash@ == trx
    &&& (p.order_id@ == widen(b.subrange(o, o + 32)))
    &&& (p.sender@ == spec_pubkey_string(b.subrange(o + 32, o + 32 + 32)))
    &&& (p.amount == rd_u64(b, o + 64))
}

fn decode_event_refund_claimed(data: &[u8], off: usize, trx: &String, accts: &Vec<String>) -> (r: Option<pb::RefundClaimedEvent>)
    requires
        off <= data@.len(),
    ensures
        r is Some <==> spec_event_refund_claimed_fits(data@, off as int),
        r matches Some(p) ==> spec_event_refund_claimed_at(p, trx@, data@, off as int, accts@),
{
    if data.len() - off < 72 {
        return None;
    }
    let order_id = widen_key(&read_key(data, off));
    let sender = pubkey_to_string(&read_key(data, off + 32));
    let amount = read_u64_field(data, off + 64);
    Some(pb::RefundClaimedEvent { trx_hash: trx.clone(), order_id, sender, amount })
}

/// Discriminator of the `accept_admin_role` instruction.
pub const ACCEPT_ADMIN_ROLE_DISCRIMINATOR: [u8; 8] = [244, 156, 126, 62, 113, 146, 82, 8];

/// Whether `b[o..]` holds readable arguments of `AcceptAdminRole`.
pub open spec fn spec_ix_accept_admin_role_fits(b: Seq<u8>, o: int) -> bool {
    0 <= o && o + 0 <= b.len()
}

/// Whether `p` is the record of the `AcceptAdminRole` stored at `b[o..]`, in transaction `trx`.
pub open spec fn spec_ix_accept_admin_role_at(p: pb::AcceptAdminRoleInstruction, trx: Seq<char>, b: Seq<u8>, o: int, accts: Seq<String>) -> bool {
    &&& p.trx_hash@ == trx
    &&& p.acct_new_admin@ == accts[0]@
    &&& p.acct_global_account@ == accts[1]@
}

fn decode_ix_accept_admin_role(data: &[u8], off: usize, trx: &String, accts: &Vec<String>) -> (r: Option<pb::AcceptAdminRoleInstruction>)
    requires
        off <= data@.len(),
        spec_ix_accept_admin_role_fits(data@, off as int) ==> accts@.len() >= 2,
    ensures
        r is Some <==> spec_ix_accept_admin_role_fits(data@, off as int),
        r matches Some(p) ==> spec_ix_accept_admin_role_at(p, trx@, data@, off as int, accts@),
{
    if data.len() - off < 0 {
        return None;
    }
    Some(pb::AcceptAdminRoleInstruction { trx_hash: trx.clone(), acct_new_admin: accts[0].clone(), acct_global_account: accts[1].clone() })
}

/// Discriminator of the `add_destination` instruction.
pub const ADD_DESTINATION_DISCRIMINATOR: [u8; 8] = [183, 152, 13, 93, 44, 178, 140, 243];

/// Whether `b[o..]` holds readable arguments of `AddDestination`.
pub open spec fn spec_ix_add_destination_fits(b: Seq<u8>, o: int) -> bool {
    0 <= o && o + 4 <= b.len()
}

/// Whether `p` is the record of the `AddDestination` stored at `b[o..]`, in transaction `trx`.
pub open spec fn spec_ix_add_destination_at(p: pb::AddDestinationInstruction, trx: Seq<char>, b: Seq<u8>, o: int, accts: Seq<String>) -> bool {
    &&& p.trx_hash@ == trx
    &&& (p.dest_chain_id == rd_u32(b, o))
    &&& p.acct_admin@ == accts[0]@
    &&& p.acct_global_account@ == accts[1]@
    &&& p.acct_destination_account@ == accts[2]@
    &&& p.acct_event_authority@ == accts[4]@
    &&& p.acct_program@ == accts[5]@
}

fn decode_ix_add_destination(data: &[u8], off: usize, trx: &String, accts: &Vec<String>) -> (r: Option<pb::AddDestinationInstruction>)
    requires
        off <= data@.len(),
        spec_ix_add_destination_fits(data@, off as int) ==> accts@.len() >= 6,
    ensures
        r is Some <==> spec_ix_add_destination_fits(data@, off as int),
        r matches Some(p) ==> spec_ix_add_destination_at(p, trx@, data@, off as int, accts@),
{
    if data.len() - off < 4 {
        return None;
    }
    let dest_chain_id = read_u32_field(data, off);
    Some(pb::AddDestinationInstruction { trx_hash: trx.clone(), dest_chain_id, acct_admin: accts[0].clone(), acct_global_account: accts[1].clone(), acct_destination_account: accts[2].clone(), acct_event_authority: accts[4].clone(), acct_program: accts[5].clone() })
}

/// Discriminator of the `cancel_foreign_order` instruction.
pub const CANCEL_FOREIGN_ORDER_DISCRIMINATOR: [u8; 8] = [64, 42, 40, 137, 244, 90, 185, 107];

/// Whether `b[o..]` holds readable arguments of `CancelForeignOrder`.
pub open spec fn spec_ix_cancel_foreign_order_fits(b: Seq<u8>, o: int) -> bool {
    0 <= o && o + 258 <= b.len() && spec_order_data_fits(b, o + 32)
}

/// Whether `p` is the record of the `CancelForeignOrder` stored at `b[o..]`, in transaction `trx`.
pub open spec fn spec_ix_cancel_foreign_order_at(p: pb::CancelForeignOrderInstruction, trx: Seq<char>, b: Seq<u8>, o: int, accts: Seq<String>) -> bool {
    &&& p.trx_hash@ == trx
    &&& (p.order_id@ == widen(b.subrange(o, o + 32)))
    &&& (p.order_data matches Some(q) && spec_pb_order_data_at(q, b, o + 32))
    &&& p.acct_signer@ == accts[0]@
    &&& p.acct_global_account@ == accts[1]@
    &&& p.acct_order@ == accts[2]@
    &&& p.acct_portal_global@ == accts[4]@
    &&& p.acct_portal_authority@ == accts[5]@
    &&& p.acct_bridge_adapter@ == accts[6]@
    &&& p.acct_event_authority@ == accts[8]@
    &&& p.acct_program@ == accts[9]@
}

fn decode_ix_cancel_foreign_order(data: &[u8], off: usize, trx: &String, accts: &Vec<String>) -> (r: Option<pb::CancelForeignOrderInstruction>)
    requires
        off <= data@.len(),
        spec_ix_cancel_foreign_order_fits(data@, off as int) ==> accts@.len() >= 10,
    ensures
        r is Some <==> spec_ix_cancel_foreign_order_fits(data@, off as int),
        r matches Some(p) ==> spec_ix_cancel_foreign_order_at(p, trx@, data@, off as int, accts@),
{
    if data.len() - off < 258 {
        return None;
    }
    let order_id = widen_key(&read_key(data, off));
    let order_data = match read_order_data(data, off + 32) {
        Some(v) => map_option_order_data(Some(v)),
        None => {
            return None;
        },
    };
    Some(pb::CancelForeignOrderInstruction { trx_hash: trx.clone(), order_id, order_data, acct_signer: accts[0].clone(), acct_global_account: accts[1].clone(), acct_order: accts[2].clone(), acct_portal_global: accts[4].clone(), acct_portal_authority: accts[5].clone(), acct_bridge_adapter: accts[6].clone(), acct_event_authority: accts[8].clone(), acct_program: accts[9].clone() })
}

/// Discriminator of the `cancel_native_order` instruction.
pub const CANCEL_NATIVE_ORDER_DISCRIMINATOR: [u8; 8] = [161, 5, 252, 99, 194, 215, 19, 84];

/// Whether `b[o..]` holds readable arguments of `CancelNativeOrder`.
pub open spec fn spec_ix_cancel_native_order_fits(b: Seq<u8>, o: int) -> bool {
    0 <= o && o + 32 <= b.len()
}

/// Whether `p` is the record of the `CancelNativeOrder` stored at `b[o..]`, in transaction `trx`.
pub open spec fn spec_ix_cancel_native_order_at(p: pb::CancelNativeOrderInstruction, trx: Seq<char>, b: Seq<u8>, o: int, accts: Seq<String>) -> bool {
    &&& p.trx_hash@ == trx
    &&& (p.order_id@ == widen(b.subrange(o, o + 32)))
    &&& p.acct_signer@ == accts[0]@
    &&& p.acct_sender@ == accts[1]@
    &&& p.acct_global_account@ == accts[2]@
    &&& p.acct_order@ == accts[3]@
    &&& p.acct_token_in_mint@ == accts[4]@
    &&& p.acct_sender_token_in_ata@ == accts[5]@
    &&& p.acct_order_token_in_ata@ == accts[6]@
    &&& p.acct_token_in_program@ == accts[7]@
    &&& p.acct_event_authority@ == accts[8]@
    &&& p.acct_program@ == accts[9]@
}

fn decode_ix_cancel_native_order(data: &[u8], off: usize, trx: &String, accts: &Vec<String>) -> (r: Option<pb::CancelNativeOrderInstruction>)
    requires
        off <= data@.len(),
        spec_ix_cancel_native_order_fits(data@, off as int) ==> accts@.len() >= 10,
    ensures
        r is Some <==> spec_ix_cancel_native_order_fits(data@, off as int),
        r matches Some(p) ==> spec_ix_cancel_native_order_at(p, trx@, data@, off as int, accts@),
{
    if data.len() - off < 32 {
        return None;
    }
    let order_id = widen_key(&read_key(data, off));
    Some(pb::CancelNativeOrderInstruction { trx_hash: trx.clone(), order_id, acct_signer: accts[0].clone(), acct_sender: accts[1].clone(), acct_global_account: accts[2].clone(), acct_order: accts[3].clone(), acct_token_in_mint: accts[4].clone(), acct_sender_token_in_ata: accts[5].clone(), acct_order_token_in_ata: accts[6].clone(), acct_token_in_program: accts[7].clone(), acct_event_authority: accts[8].clone(), acct_program: accts[9].clone() })
}

/// Discriminator of the `clear_new_admin` instruction.
pub const CLEAR_NEW_ADMIN_DISCRIMINATOR: [u8; 8] = [4, 179, 250, 166, 62, 138, 248, 53];

/// Whether `b[o..]` holds readable arguments of `ClearNewAdmin`.
pub open spec fn spec_ix_clear_new_admin_fits(b: Seq<u8>, o: int) -> bool {
    0 <= o && o + 0 <= b.len()
}

/// Whether `p` is the record of the `ClearNewAdmin` stored at `b[o..]`, in transaction `trx`.
pub open spec fn spec_ix_clear_new_admin_at(p: pb::ClearNewAdminInstruction, trx: Seq<char>, b: Seq<u8>, o: int, accts: Seq<String>) -> bool {
    &&& p.trx_hash@ == trx
    &&& p.acct_admin@ == accts[0]@
    &&& p.acct_global_account@ == accts[1]@
}

fn decode_ix_clear_new_admin(data: &[u8], off: usize, trx: &String, accts: &Vec<String>) -> (r: Option<pb::ClearNewAdminInstruction>)
    requires
        off <= data@.len(),
        spec_ix_clear_new_admin_fits(data@, off as int) ==> accts@.len() >= 2,
    ensures
        r is Some <==> spec_ix_clear_new_admin_fits(data@, off as int),
        r matches Some(p) ==> spec_ix_clear_new_admin_at(p, trx@, data@, off as int, accts@),
{
    if data.len() - off < 0 {
        return None;
    }
    Some(pb::ClearNewAdminInstruction { trx_hash: trx.clone(), acct_admin: accts[0].clone(), acct_global_account: accts[1].clone() })
}

/// Discriminator of the `close_order_token_account` instruction.
pub const CLOSE_ORDER_TOKEN_ACCOUNT_DISCRIMINATOR: [u8; 8] = [242, 180, 199, 62, 212, 67, 188, 136];

/// Whether `b[o..]` holds readable arguments of `CloseOrderTokenAccount`.
pub open spec fn spec_ix_close_order_token_account_fits(b: Seq<u8>, o: int) -> bool {
    0 <= o && o + 32 <= b.len()
}

/// Whether `p` is the record of the `CloseOrderTokenAccount` stored at `b[o..]`, in transaction `trx`.
pub open spec fn spec_ix_close_order_token_account_at(p: pb::CloseOrderTokenAccountInstruction, trx: Seq<char>, b: Seq<u8>, o: int, accts: Seq<String>) -> bool {
    &&& p.trx_hash@ == trx
    &&& (p.order_id@ == widen(b.subrange(o, o + 32)))
    &&& p.acct_payer@ == accts[0]@
    &&& p.acct_sender@ == accts[1]@
    &&& p.acct_order@ == accts[2]@
    &&& p.acct_token_in_mint@ == accts[3]@
    &&& p.acct_order_token_in_ata@ == accts[4]@
    &&& p.acct_recipient_token_account@ == accts[5]@
    &&& p.acct_token_in_program@ == accts[6]@
}

fn decode_ix_close_order_token_account(data: &[u8], off: usize, trx: &String, accts: &Vec<String>) -> (r: Option<pb::CloseOrderTokenAccountInstruction>)
    requires
        off <= data@.len(),
        spec_ix_close_order_token_account_fits(data@, off as int) ==> accts@.len() >= 7,
    ensures
        r is Some <==> spec_ix_close_order_token_account_fits(data@, off as int),
        r matches Some(p) ==> spec_ix_close_order_token_account_at(p, trx@, data@, off as int, accts@),
{
    if data.len() - off < 32 {
        return None;
    }
    let order_id = widen_key(&read_key(data, off));
    Some(pb::CloseOrderTokenAccountInstruction { trx_hash: trx.clone(), order_id, acct_payer: accts[0].clone(), acct_sender: accts[1].clone(), acct_order: accts[2].clone(), acct_token_in_mint: accts[3].clone(), acct_order_token_in_ata: accts[4].clone(), acct_recipient_token_account: accts[5].clone(), acct_token_in_program: accts[6].clone() })
}

/// Discriminator of the `fill_foreign_order` instruction.
pub const FILL_FOREIGN_ORDER_DISCRIMINATOR: [u8; 8] = [1, 98, 55, 150, 213, 36, 162, 17];

/// Whether `b[o..]` holds readable arguments of `FillForeignOrder`.
pub open spec fn spec_ix_fill_foreign_order_fits(b: Seq<u8>, o: int) -> bool {
    0 <= o && o + 298 <= b.len() && spec_order_data_fits(b, o + 32) && spec_fill_params_fits(b, o + 258)
}

/// Whether `p` is the record of the `FillForeignOrder` stored at `b[o..]`, in transaction `trx`.
pub open spec fn spec_ix_fill_foreign_order_at(p: pb::FillForeignOrderInstruction, trx: Seq<char>, b: Seq<u8>, o: int, accts: Seq<String>) -> bool {
    &&& p.trx_hash@ == trx
    &&& (p.order_id@ == widen(b.subrange(o, o + 32)))
    &&& (p.order_data matches Some(q) && spec_pb_order_data_at(q, b, o + 32))
    &&& (p.fill_params matches Some(q) && spec_pb_fill_params_at(q, b, o + 258))
    &&& p.acct_solver@ == accts[0]@
    &&& p.acct_global_account@ == accts[1]@
    &&& p.acct_token_out_mint@ == accts[2]@
    &&& p.acct_solver_token_out_account@ == accts[3]@
    &&& p.acct_recipient@ == accts[4]@
    &&& p.acct_recipient_token_out_ata@ == accts[5]@
    &&& p.acct_token_out_program@ == accts[6]@
    &&& p.acct_order@ == accts[9]@
    &&& p.acct_portal_global@ == accts[11]@
    &&& p.acct_portal_authority@ == accts[12]@
    &&& p.acct_bridge_adapter@ == accts[13]@
    &&& p.acct_event_authority@ == accts[14]@
    &&& p.acct_program@ == accts[15]@
}

fn decode_ix_fill_foreign_order(data: &[u8], off: usize, trx: &String, accts: &Vec<String>) -> (r: Option<pb::FillForeignOrderInstruction>)
    requires
        off <= data@.len(),
        spec_ix_fill_foreign_order_fits(data@, off as int) ==> accts@.len() >= 16,
    ensures
        r is Some <==> spec_ix_fill_foreign_order_fits(data@, off as int),
        r matches Some(p) ==> spec_ix_fill_foreign_order_at(p, trx@, data@, off as int, accts@),
{
    if data.len() - off < 298 {
        return None;
    }
    let order_id = widen_key(&read_key(data, off));
    let order_data = match read_order_data(data, off + 32) {
        Some(v) => map_option_order_data(Some(v)),
        None => {
            return None;
        },
    };
    let fill_params = match read_fill_params(data, off + 258) {
        Some(v) => map_option_fill_params(Some(v)),
        None => {
            return None;
        },
    };
    Some(pb::FillForeignOrderInstruction { trx_hash: trx.clone(), order_id, order_data, fill_params, acct_solver: accts[0].clone(), acct_global_account: accts[1].clone(), acct_token_out_mint: accts[2].clone(), acct_solver_token_out_account: accts[3].clone(), acct_recipient: accts[4].clone(), acct_recipient_token_out_ata: accts[5].clone(), acct_token_out_program: accts[6].clone(), acct_order: accts[9].clone(), acct_portal_global: accts[11].clone(), acct_portal_authority: accts[12].clone(), acct_bridge_adapter: accts[13].clone(), acct_event_authority: accts[14].clone(), acct_program: accts[15].clone() })
}

/// Discriminator of the `fill_native_order` instruction.
pub const FILL_NATIVE_ORDER_DISCRIMINATOR: [u8; 8] = [219, 161, 238, 151, 122, 148, 159, 211];

/// Whether `b[o..]` holds readable arguments of `FillNativeOrder`.
pub open spec fn spec_ix_fill_native_order_fits(b: Seq<u8>, o: int) -> bool {
    0 <= o && o + 298 <= b.len() && spec_order_data_fits(b, o + 32) && spec_fill_params_fits(b, o + 258)
}

/// Whether `p` is the record of the `FillNativeOrder` stored at `b[o..]`, in transaction `trx`.
pub open spec fn spec_ix_fill_native_order_at(p: pb::FillNativeOrderInstruction, trx: Seq<char>, b: Seq<u8>, o: int, accts: Seq<String>) -> bool {
    &&& p.trx_hash@ == trx
    &&& (p.order_id@ == widen(b.subrange(o, o + 32)))
    &&& (p.order_data matches Some(q) && spec_pb_order_data_at(q, b, o + 32))
    &&& (p.fill_params matches Some(q) && spec_pb_fill_params_at(q, b, o + 258))
    &&& p.acct_solver@ == accts[0]@
    &&& p.acct_global_account@ == accts[1]@
    &&& p.acct_token_out_mint@ == accts[2]@
    &&& p.acct_solver_token_out_account@ == accts[3]@
    &&& p.acct_recipient@ == accts[4]@
    &&& p.acct_recipient_token_out_ata@ == accts[5]@
    &&& p.acct_token_out_program@ == accts[6]@
    &&& p.acct_order@ == accts[9]@
    &&& p.acct_token_in_mint@ == accts[10]@
    &&& p.acct_solver_token_in_account@ == accts[11]@
    &&& p.acct_order_token_in_ata@ == accts[12]@
    &&& p.acct_token_in_program@ == accts[13]@
    &&& p.acct_event_authority@ == accts[14]@
    &&& p.acct_program@ == accts[15]@
}

fn decode_ix_fill_native_order(data: &[u8], off: usize, trx: &String, accts: &Vec<String>) -> (r: Option<pb::FillNativeOrderInstruction>)
    requires
        off <= data@.len(),
        spec_ix_fill_native_order_fits(data@, off as int) ==> accts@.len() >= 16,
    ensures
        r is Some <==> spec_ix_fill_native_order_fits(data@, off as int),
        r matches Some(p) ==> spec_ix_fill_native_order_at(p, trx@, data@, off as int, accts@),
{
    if data.len() - off < 298 {
        return None;
    }
    let order_id = widen_key(&read_key(data, off));
    let order_data = match read_order_data(data, off + 32) {
        Some(v) => map_option_order_data(Some(v)),
        None => {
            return None;
        },
    };
    let fill_params = match read_fill_params(data, off + 258) {
        Some(v) => map_option_fill_params(Some(v)),
        None => {
            return None;
        },
    };
    Some(pb::FillNativeOrderInstruction { trx_hash: trx.clone(), order_id, order_data, fill_params, acct_solver: accts[0].clone(), acct_global_account: accts[1].clone(), acct_token_out_mint: accts[2].clone(), acct_solver_token_out_account: accts[3].clone(), acct_recipient: accts[4].clone(), acct_recipient_token_out_ata: accts[5].clone(), acct_token_out_program: accts[6].clone(), acct_order: accts[9].clone(), acct_token_in_mint: accts[10].clone(), acct_solver_token_in_account: accts[11].clone(), acct_order_token_in_ata: accts[12].clone(), acct_token_in_program: accts[13].clone(), acct_event_authority: accts[14].clone(), acct_program: accts[15].clone() })
}

/// Discriminator of the `idl_instruction` instruction.
pub const IDL_INSTRUCTION_DISCRIMINATOR: [u8; 8] = [184, 210, 197, 207, 188, 74, 218, 150];

/// Whether `b[o..]` holds readable arguments of `IdlInstruction`.
pub open spec fn spec_ix_idl_instruction_fits(b: Seq<u8>, o: int) -> bool {
    0 <= o && o + 352 <= b.len() && spec_foreign_order_fits(b, o) && spec_native_order_fits(b, o + 49)
}

/// Whether `p` is the record of the `IdlInstruction` stored at `b[o..]`, in transaction `trx`.
pub open spec fn spec_ix_idl_instruction_at(p: pb::IdlInstructionInstruction, trx: Seq<char>, b: Seq<u8>, o: int, accts: Seq<String>) -> bool {
    &&& p.trx_hash@ == trx
    &&& (p.foreign matches Some(q) && spec_pb_foreign_order_at(q, b, o))
    &&& (p.native matches Some(q) && spec_pb_native_order_at(q, b, o + 49))
}

fn decode_ix_idl_instruction(data: &[u8], off: usize, trx: &String, accts: &Vec<String>) -> (r: Option<pb::IdlInstructionInstruction>)
    requires
        off <= data@.len(),
    ensures
        r is Some <==> spec_ix_idl_instruction_fits(data@, off as int),
        r matches Some(p) ==> spec_ix_idl_instruction_at(p, trx@, data@, off as int, accts@),
{
    if data.len() - off < 352 {
        return None;
    }
    let foreign = match read_foreign_order(data, off) {
        Some(v) => map_option_foreign_order(Some(v)),
        None => {
            return None;
        },
    };
    let native = match read_native_order(data, off + 49) {
        Some(v) => map_option_native_order(Some(v)),
        None => {
            return None;
        },
    };
    Some(pb::IdlInstructionInstruction { trx_hash: trx.clone(), foreign, native })
}

/// Discriminator of the `initialize` instruction.
pub const INITIALIZE_DISCRIMINATOR: [u8; 8] = [175, 175, 109, 31, 13, 152, 155, 237];

/// Whether `b[o..]` holds readable arguments of `Initialize`.
pub open spec fn spec_ix_initialize_fits(b: Seq<u8>, o: int) -> bool {
    0 <= o && o + 36 <= b.len()
}

/// Whether `p` is the record of the `Initialize` stored at `b[o..]`, in transaction `trx`.
pub open spec fn spec_ix_initialize_at(p: pb::InitializeInstruction, trx: Seq<char>, b: Seq<u8>, o: int, accts: Seq<String>) -> bool {
    &&& p.trx_hash@ == trx
    &&& (p.chain_id == rd_u32(b, o))
    &&& (p.portal_authority@ == spec_pubkey_string(b.subrange(o + 4, o + 4 + 32)))
    &&& p.acct_admin@ == accts[0]@
    &&& p.acct_global_account@ == accts[1]@
}

fn decode_ix_initialize(data: &[u8], off: usize, trx: &String, accts: &Vec<String>) -> (r: Option<pb::InitializeInstruction>)
    requires
        off <= data@.len(),
        spec_ix_initialize_fits(data@, off as int) ==> accts@.len() >= 2,
    ensures
        r is Some <==> spec_ix_initialize_fits(data@, off as int),
        r matches Some(p) ==> spec_ix_initialize_at(p, trx@, data@, off as int, accts@),
{
    if data.len() - off < 36 {
        return None;
    }
    let chain_id = read_u32_field(data, off);
    let portal_authority = pubkey_to_string(&read_key(data, off + 4));
    Some(pb::InitializeInstruction { trx_hash: trx.clone(), chain_id, portal_authority, acct_admin: accts[0].clone(), acct_global_account: accts[1].clone() })
}

/// Discriminator of the `open_order` instruction.
pub const OPEN_ORDER_DISCRIMINATOR: [u8; 8] = [206, 88, 88, 143, 38, 136, 50, 224];

/// Whether `b[o..]` holds readable arguments of `OpenOrder`.
pub open spec fn spec_ix_open_order_fits(b: Seq<u8>, o: int) -> bool {
    0 <= o && o + 140 <= b.len() && spec_order_params_fits(b, o)
}

/// Whether `p` is the record of the `OpenOrder` stored at `b[o..]`, in transaction `trx`.
pub open spec fn spec_ix_open_order_at(p: pb::OpenOrderInstruction, trx: Seq<char>, b: Seq<u8>, o: int, accts: Seq<String>) -> bool {
    &&& p.trx_hash@ == trx
    &&& (p.params matches Some(q) && spec_pb_order_params_at(q, b, o))
    &&& p.acct_payer@ == accts[0]@
    &&& p.acct_token_authority@ == accts[1]@
    &&& p.acct_global_account@ == accts[2]@
    &&& p.acct_destination_account@ == accts[3]@
    &&& p.acct_token_in_mint@ == accts[4]@
    &&& p.acct_sender_token_in_account@ == accts[5]@
    &&& p.acct_sender_nonce_account@ == accts[6]@
    &&& p.acct_order@ == accts[7]@
    &&& p.acct_order_token_in_ata@ == accts[8]@
    &&& p.acct_token_in_program@ == accts[9]@
    &&& p.acct_event_authority@ == accts[12]@
    &&& p.acct_program@ == accts[13]@
}

fn decode_ix_open_order(data: &[u8], off: usize, trx: &String, accts: &Vec<String>) -> (r: Option<pb::OpenOrderInstruction>)
    requires
        off <= data@.len(),
        spec_ix_open_order_fits(data@, off as int) ==> accts@.len() >= 14,
    ensures
        r is Some <==> spec_ix_open_order_fits(data@, off as int),
        r matches Some(p) ==> spec_ix_open_order_at(p, trx@, data@, off as int, accts@),
{
    if data.len() - off < 140 {
        return None;
    }
    let params = match read_order_params(data, off) {
        Some(v) => map_option_order_params(Some(v)),
        None => {
            return None;
        },
    };
    Some(pb::OpenOrderInstruction { trx_hash: trx.clone(), params, acct_payer: accts[0].clone(), acct_token_authority: accts[1].clone(), acct_global_account: accts[2].clone(), acct_destination_account: accts[3].clone(), acct_token_in_mint: accts[4].clone(), acct_sender_token_in_account: accts[5].clone(), acct_sender_nonce_account: accts[6].clone(), acct_order: accts[7].clone(), acct_order_token_in_ata: accts[8].clone(), acct_token_in_program: accts[9].clone(), acct_event_authority: accts[12].clone(), acct_program: accts[13].clone() })
}

/// Discriminator of the `pause` instruction.
pub const PAUSE_DISCRIMINATOR: [u8; 8] = [211, 22, 221, 251, 74, 121, 193, 47];

/// Whether `b[o..]` holds readable arguments of `Pause`.
pub open spec fn spec_ix_pause_fits(b: Seq<u8>, o: int) -> bool {
    0 <= o && o + 0 <= b.len()
}

/// Whether `p` is the record of the `Pause` stored at `b[o..]`, in transaction `trx`.
pub open spec fn spec_ix_pause_at(p: pb::PauseInstruction, trx: Seq<char>, b: Seq<u8>, o: int, accts: Seq<String>) -> bool {
    &&& p.trx_hash@ == trx
    &&& p.acct_admin@ == accts[0]@
    &&& p.acct_global_account@ == accts[1]@
}

fn decode_ix_pause(data: &[u8], off: usize, trx: &String, accts: &Vec<String>) -> (r: Option<pb::PauseInstruction>)
    requires
        off <= data@.len(),
        spec_ix_pause_fits(data@, off as int) ==> accts@.len() >= 2,
    ensures
        r is Some <==> spec_ix_pause_fits(data@, off as int),
        r matches Some(p) ==> spec_ix_pause_at(p, trx@, data@, off as int, accts@),
{
    if data.len() - off < 0 {
        return None;
    }
    Some(pb::PauseInstruction { trx_hash: trx.clone(), acct_admin: accts[0].clone(), acct_global_account: accts[1].clone() })
}

/// Discriminator of the `remove_destination` instruction.
pub const REMOVE_DESTINATION_DISCRIMINATOR: [u8; 8] = [57, 157, 206, 225, 233, 131, 241, 108];

/// Whether `b[o..]` holds readable arguments of `RemoveDestination`.
pub open spec fn spec_ix_remove_destination_fits(b: Seq<u8>, o: int) -> bool {
    0 <= o && o + 4 <= b.len()
}

/// Whether `p` is the record of the `RemoveDestination` stored at `b[o..]`, in transaction `trx`.
pub open spec fn spec_ix_remove_destination_at(p: pb::RemoveDestinationInstruction, trx: Seq<char>, b: Seq<u8>, o: int, accts: Seq<String>) -> bool {
    &&& p.trx_hash@ == trx
    &&& (p.dest_chain_id == rd_u32(b, o))
    &&& p.acct_admin@ == accts[0]@
    &&& p.acct_global_account@ == accts[1]@
    &&& p.acct_destination_account@ == accts[2]@
    &&& p.acct_event_authority@ == accts[4]@
    &&& p.acct_program@ == accts[5]@
}

fn decode_ix_remove_destination(data: &[u8], off: usize, trx: &String, accts: &Vec<String>) -> (r: Option<pb::RemoveDestinationInstruction>)
    requires
        off <= data@.len(),
        spec_ix_remove_destination_fits(data@, off as int) ==> accts@.len() >= 6,
    ensures
        r is Some <==> spec_ix_remove_destination_fits(data@, off as int),
        r matches Some(p) ==> spec_ix_remove_destination_at(p, trx@, data@, off as int, accts@),
{
    if data.len() - off < 4 {
        return None;
    }
    let dest_chain_id = read_u32_field(data, off);
    Some(pb::RemoveDestinationInstruction { trx_hash: trx.clone(), dest_chain_id, acct_admin: accts[0].clone(), acct_global_account: accts[1].clone(), acct_destination_account: accts[2].clone(), acct_event_authority: accts[4].clone(), acct_program: accts[5].clone() })
}

/// Discriminator of the `report_order_cancel` instruction.
pub const REPORT_ORDER_CANCEL_DISCRIMINATOR: [u8; 8] = [49, 73, 118, 167, 63, 176, 17, 91];

/// Whether `b[o..]` holds readable arguments of `ReportOrderCancel`.
pub open spec fn spec_ix_report_order_cancel_fits(b: Seq<u8>, o: int) -> bool {
    0 <= o && o + 116 <= b.len() && spec_cancel_report_fits(b, o + 4)
}

/// Whether `p` is the record of the `ReportOrderCancel` stored at `b[o..]`, in transaction `trx`.
pub open spec fn spec_ix_report_order_cancel_at(p: pb::ReportOrderCancelInstruction, trx: Seq<char>, b: Seq<u8>, o: int, accts: Seq<String>) -> bool {
    &&& p.trx_hash@ == trx
    &&& (p.source_chain_id == rd_u32(b, o))
    &&& (p.cancel_report matches Some(q) && spec_pb_cancel_report_at(q, b, o + 4))
    &&& p.acct_relayer@ == accts[0]@
    &&& p.acct_portal_authority@ == accts[1]@
    &&& p.acct_global_account@ == accts[2]@
    &&& p.acct_order@ == accts[3]@
    &&& p.acct_token_in_mint@ == accts[4]@
    &&& p.acct_order_sender@ == accts[5]@
    &&& p.acct_sender_token_in_ata@ == accts[6]@
    &&& p.acct_order_token_in_ata@ == accts[7]@
    &&& p.acct_token_in_program@ == accts[8]@
    &&& p.acct_event_authority@ == accts[11]@
    &&& p.acct_program@ == accts[12]@
}

fn decode_ix_report_order_cancel(data: &[u8], off: usize, trx: &String, accts: &Vec<String>) -> (r: Option<pb::ReportOrderCancelInstruction>)
    requires
        off <= data@.len(),
        spec_ix_report_order_cancel_fits(data@, off as int) ==> accts@.len() >= 13,
    ensures
        r is Some <==> spec_ix_report_order_cancel_fits(data@, off as int),
        r matches Some(p) ==> spec_ix_report_order_cancel_at(p, trx@, data@, off as int, accts@),
{
    if data.len() - off < 116 {
        return None;
    }
    let source_chain_id = read_u32_field(data, off);
    let cancel_report = match read_cancel_report(data, off + 4) {
        Some(v) => map_option_cancel_report(Some(v)),
        None => {
            return None;
        },
    };
    Some(pb::ReportOrderCancelInstruction { trx_hash: trx.clone(), source_chain_id, cancel_report, acct_relayer: accts[0].clone(), acct_portal_authority: accts[1].clone(), acct_global_account: accts[2].clone(), acct_order: accts[3].clone(), acct_token_in_mint: accts[4].clone(), acct_order_sender: accts[5].clone(), acct_sender_token_in_ata: accts[6].clone(), acct_order_token_in_ata: accts[7].clone(), acct_token_in_program: accts[8].clone(), acct_event_authority: accts[11].clone(), acct_program: accts[12].clone() })
}

/// Discriminator of the `report_order_fill` instruction.
pub const REPORT_ORDER_FILL_DISCRIMINATOR: [u8; 8] = [9, 119, 99, 201, 226, 17, 81, 26];

/// Whether `b[o..]` holds readable arguments of `ReportOrderFill`.
pub open spec fn spec_ix_report_order_fill_fits(b: Seq<u8>, o: int) -> bool {
    0 <= o && o + 132 <= b.len() && spec_fill_report_fits(b, o + 4)
}

/// Whether `p` is the record of the `ReportOrderFill` stored at `b[o..]`, in transaction `trx`.
pub open spec fn spec_ix_report_order_fill_at(p: pb::ReportOrderFillInstruction, trx: Seq<char>, b: Seq<u8>, o: int, accts: Seq<String>) -> bool {
    &&& p.trx_hash@ == trx
    &&& (p.source_chain_id == rd_u32(b, o))
    &&& (p.fill_report matches Some(q) && spec_pb_fill_report_at(q, b, o + 4))
    &&& p.acct_relayer@ == accts[0]@
    &&& p.acct_portal_authority@ == accts[1]@
    &&& p.acct_global_account@ == accts[2]@
    &&& p.acct_order@ == accts[3]@
    &&& p.acct_token_in_mint@ == accts[4]@
    &&& p.acct_origin_recipient@ == accts[5]@
    &&& p.acct_recipient_token_in_ata@ == accts[6]@
    &&& p.acct_order_token_in_ata@ == accts[7]@
    &&& p.acct_token_in_program@ == accts[8]@
    &&& p.acct_event_authority@ == accts[11]@
    &&& p.acct_program@ == accts[12]@
}

fn decode_ix_report_order_fill(data: &[u8], off: usize, trx: &String, accts: &Vec<String>) -> (r: Option<pb::ReportOrderFillInstruction>)
    requires
        off <= data@.len(),
        spec_ix_report_order_fill_fits(data@, off as int) ==> accts@.len() >= 13,
    ensures
        r is Some <==> spec_ix_report_order_fill_fits(data@, off as int),
        r matches Some(p) ==> spec_ix_report_order_fill_at(p, trx@, data@, off as int, accts@),
{
    if data.len() - off < 132 {
        return None;
    }
    let source_chain_id = read_u32_field(data, off);
    let fill_report = match read_fill_report(data, off + 4) {
        Some(v) => map_option_fill_report(Some(v)),
        None => {
            return None;
        },
    };
    Some(pb::ReportOrderFillInstruction { trx_hash: trx.clone(), source_chain_id, fill_report, acct_relayer: accts[0].clone(), acct_portal_authority: accts[1].clone(), acct_global_account: accts[2].clone(), acct_order: accts[3].clone(), acct_token_in_mint: accts[4].clone(), acct_origin_recipient: accts[5].clone(), acct_recipient_token_in_ata: accts[6].clone(), acct_order_token_in_ata: accts[7].clone(), acct_token_in_program: accts[8].clone(), acct_event_authority: accts[11].clone(), acct_program: accts[12].clone() })
}

/// Discriminator of the `set_new_admin` instruction.
pub const SET_NEW_ADMIN_DISCRIMINATOR: [u8; 8] = [62, 156, 4, 148, 79, 162, 148, 252];

/// Whether `b[o..]` holds readable arguments of `SetNewAdmin`.
pub open spec fn spec_ix_set_new_admin_fits(b: Seq<u8>, o: int) -> bool {
    0 <= o && o + 32 <= b.len()
}

/// Whether `p` is the record of the `SetNewAdmin` stored at `b[o..]`, in transaction `trx`.
pub open spec fn spec_ix_set_new_admin_at(p: pb::SetNewAdminInstruction, trx: Seq<char>, b: Seq<u8>, o: int, accts: Seq<String>) -> bool {
    &&& p.trx_hash@ == trx
    &&& (p.new_admin@ == spec_pubkey_string(b.subrange(o, o + 32)))
    &&& p.acct_admin@ == accts[0]@
    &&& p.acct_global_account@ == accts[1]@
}

fn decode_ix_set_new_admin(data: &[u8], off: usize, trx: &String, accts: &Vec<String>) -> (r: Option<pb::SetNewAdminInstruction>)
    requires
        off <= data@.len(),
        spec_ix_set_new_admin_fits(data@, off as int) ==> accts@.len() >= 2,
    ensures
        r is Some <==> spec_ix_set_new_admin_fits(data@, off as int),
        r matches Some(p) ==> spec_ix_set_new_admin_at(p, trx@, data@, off as int, accts@),
{
    if data.len() - off < 32 {
        return None;
    }
    let new_admin = pubkey_to_string(&read_key(data, off));
    Some(pb::SetNewAdminInstruction { trx_hash: trx.clone(), new_admin, acct_admin: accts[0].clone(), acct_global_account: accts[1].clone() })
}

/// Discriminator of the `set_portal_authority` instruction.
pub const SET_PORTAL_AUTHORITY_DISCRIMINATOR: [u8; 8] = [185, 39, 254, 131, 166, 20, 176, 126];

/// Whether `b[o..]` holds readable arguments of `SetPortalAuthority`.
pub open spec fn spec_ix_set_portal_authority_fits(b: Seq<u8>, o: int) -> bool {
    0 <= o && o + 32 <= b.len()
}

/// Whether `p` is the record of the `SetPortalAuthority` stored at `b[o..]`, in transaction `trx`.
pub open spec fn spec_ix_set_portal_authority_at(p: pb::SetPortalAuthorityInstruction, trx: Seq<char>, b: Seq<u8>, o: int, accts: Seq<String>) -> bool {
    &&& p.trx_hash@ == trx
    &&& (p.portal_authority@ == spec_pubkey_string(b.subrange(o, o + 32)))
    &&& p.acct_admin@ == accts[0]@
    &&& p.acct_global_account@ == accts[1]@
}

fn decode_ix_set_portal_authority(data: &[u8], off: usize, trx: &String, accts: &Vec<String>) -> (r: Option<pb::SetPortalAuthorityInstruction>)
    requires
        off <= data@.len(),
        spec_ix_set_portal_authority_fits(data@, off as int) ==> accts@.len() >= 2,
    ensures
        r is Some <==> spec_ix_set_portal_authority_fits(data@, off as int),
        r matches Some(p) ==> spec_ix_set_portal_authority_at(p, trx@, data@, off as int, accts@),
{
    if data.len() - off < 32 {
        return None;
    }
    let portal_authority = pubkey_to_string(&read_key(data, off));
    Some(pb::SetPortalAuthorityInstruction { trx_hash: trx.clone(), portal_authority, acct_admin: accts[0].clone(), acct_global_account: accts[1].clone() })
}

/// Discriminator of the `unpause` instruction.
pub const UNPAUSE_DISCRIMINATOR: [u8; 8] = [169, 144, 4, 38, 10, 141, 188, 255];

/// Whether `b[o..]` holds readable arguments of `Unpause`.
pub open spec fn spec_ix_unpause_fits(b: Seq<u8>, o: int) -> bool {
    0 <= o && o + 0 <= b.len()
}

/// Whether `p` is the record of the `Unpause` stored at `b[o..]`, in transaction `trx`.
pub open spec fn spec_ix_unpause_at(p: pb::UnpauseInstruction, trx: Seq<char>, b: Seq<u8>, o: int, accts: Seq<String>) -> bool {
    &&& p.trx_hash@ == trx
    &&& p.acct_admin@ == accts[0]@
    &&& p.acct_global_account@ == accts[1]@
}

fn decode_ix_unpause(data: &[u8], off: usize, trx: &String, accts: &Vec<String>) -> (r: Option<pb::UnpauseInstruction>)
    requires
        off <= data@.len(),
        spec_ix_unpause_fits(data@, off as int) ==> accts@.len() >= 2,
    ensures
        r is Some <==> spec_ix_unpause_fits(data@, off as int),
        r matches Some(p) ==> spec_ix_unpause_at(p, trx@, data@, off as int, accts@),
{
    if data.len() - off < 0 {
        return None;
    }
    Some(pb::UnpauseInstruction { trx_hash: trx.clone(), acct_admin: accts[0].clone(), acct_global_account: accts[1].clone() })
}

/// An event of the order book program, as indexed.
#[derive(Clone, Debug)]
pub enum ProgramEvent {
    CancelReported(pb::CancelReportedEvent),
    DestinationSupportUpdated(pb::DestinationSupportUpdatedEvent),
    FillReported(pb::FillReportedEvent),
    OrderCancelled(pb::OrderCancelledEvent),
    OrderCompleted(pb::OrderCompletedEvent),
    OrderFilled(pb::OrderFilledEvent),
    OrderOpened(pb::OrderOpenedEvent),
    RefundClaimed(pb::RefundClaimedEvent),
}

/// An instruction of the order book program, as indexed.
#[derive(Clone, Debug)]
pub enum ProgramInstruction {
    AcceptAdminRole(pb::AcceptAdminRoleInstruction),
    AddDestination(pb::AddDestinationInstruction),
    CancelForeignOrder(pb::CancelForeignOrderInstruction),
    CancelNativeOrder(pb::CancelNativeOrderInstruction),
    ClearNewAdmin(pb::ClearNewAdminInstruction),
    CloseOrderTokenAccount(pb::CloseOrderTokenAccountInstruction),
    FillForeignOrder(pb::FillForeignOrderInstruction),
    FillNativeOrder(pb::FillNativeOrderInstruction),
    IdlInstruction(pb::IdlInstructionInstruction),
    Initialize(pb::InitializeInstruction),
    OpenOrder(pb::OpenOrderInstruction),
    Pause(pb::PauseInstruction),
    RemoveDestination(pb::RemoveDestinationInstruction),
    ReportOrderCancel(pb::ReportOrderCancelInstruction),
    ReportOrderFill(pb::ReportOrderFillInstruction),
    SetNewAdmin(pb::SetNewAdminInstruction),
    SetPortalAuthority(pb::SetPortalAuthorityInstruction),
    Unpause(pb::UnpauseInstruction),
}

/// Whether `r` is the event decoded from `b[o..]` in transaction `trx`: the
/// event named by the discriminator at `b[o..o + 8]`, when its fields are readable.
pub open spec fn spec_event_decoded(r: Option<ProgramEvent>, b: Seq<u8>, o: int, trx: Seq<char>) -> bool {
    &&& ((spec_disc_at(b, o) == CANCEL_REPORTED_EVENT_DISCRIMINATOR@ && spec_event_cancel_reported_fits(b, o + 8)) <==> r matches Some(ProgramEvent::CancelReported(_)))
    &&& (r matches Some(ProgramEvent::CancelReported(p)) ==> spec_event_cancel_reported_at(p, trx, b, o + 8, Seq::empty()))
    &&& ((spec_disc_at(b, o) == DESTINATION_SUPPORT_UPDATED_EVENT_DISCRIMINATOR@ && spec_event_destination_support_updated_fits(b, o + 8)) <==> r matches Some(ProgramEvent::DestinationSupportUpdated(_)))
    &&& (r matches Some(ProgramEvent::DestinationSupportUpdated(p)) ==> spec_event_destination_support_updated_at(p, trx, b, o + 8, Seq::empty()))
    &&& ((spec_disc_at(b, o) == FILL_REPORTED_EVENT_DISCRIMINATOR@ && spec_event_fill_reported_fits(b, o + 8)) <==> r matches Some(ProgramEvent::FillReported(_)))
    &&& (r matches Some(ProgramEvent::FillReported(p)) ==> spec_event_fill_reported_at(p, trx, b, o + 8, Seq::empty()))
    &&& ((spec_disc_at(b, o) == ORDER_CANCELLED_EVENT_DISCRIMINATOR@ && spec_event_order_cancelled_fits(b, o + 8)) <==> r matches Some(ProgramEvent::OrderCancelled(_)))
    &&& (r matches Some(ProgramEvent::OrderCancelled(p)) ==> spec_event_order_cancelled_at(p, trx, b, o + 8, Seq::empty()))
    &&& ((spec_disc_at(b, o) == ORDER_COMPLETED_EVENT_DISCRIMINATOR@ && spec_event_order_completed_fits(b, o + 8)) <==> r matches Some(ProgramEvent::OrderCompleted(_)))
    &&& (r matches Some(ProgramEvent::OrderCompleted(p)) ==> spec_event_order_completed_at(p, trx, b, o + 8, Seq::empty()))
    &&& ((spec_disc_at(b, o) == ORDER_FILLED_EVENT_DISCRIMINATOR@ && spec_event_order_filled_fits(b, o + 8)) <==> r matches Some(ProgramEvent::OrderFilled(_)))
    &&& (r matches Some(ProgramEvent::OrderFilled(p)) ==> spec_event_order_filled_at(p, trx, b, o + 8, Seq::empty()))
    &&& ((spec_disc_at(b, o) == ORDER_OPENED_EVENT_DISCRIMINATOR@ && spec_event_order_opened_fits(b, o + 8)) <==> r matches Some(ProgramEvent::OrderOpened(_)))
    &&& (r matches Some(ProgramEvent::OrderOpened(p)) ==> spec_event_order_opened_at(p, trx, b, o + 8, Seq::empty()))
    &&& ((spec_disc_at(b, o) == REFUND_CLAIMED_EVENT_DISCRIMINATOR@ && spec_event_refund_claimed_fits(b, o + 8)) <==> r matches Some(ProgramEvent::RefundClaimed(_)))
    &&& (r matches Some(ProgramEvent::RefundClaimed(p)) ==> spec_event_refund_claimed_at(p, trx, b, o + 8, Seq::empty()))
}

/// The event whose discriminator is at `data[off..off + 8]` and whose fields
/// follow it, if the discriminator is known and the fields are readable.
pub fn decode_event(data: &[u8], off: usize, trx: &String) -> (r: Option<ProgramEvent>)
    requires
        off + 8 <= data@.len(),
    ensures
        spec_event_decoded(r, data@, off as int, trx@),
{
    let _n = data.len();
    let none: Vec<String> = Vec::new();
    proof {
        lemma_event_discriminators_distinct();
    }
    if disc_matches(data, off, &CANCEL_REPORTED_EVENT_DISCRIMINATOR) {
        match decode_event_cancel_reported(data, off + 8, trx, &none) {
            Some(p) => Some(ProgramEvent::CancelReported(p)),
            None => None,
        }
    } else if disc_matches(data, off, &DESTINATION_SUPPORT_UPDATED_EVENT_DISCRIMINATOR) {
        match decode_event_destination_support_updated(data, off + 8, trx, &none) {
            Some(p) => Some(ProgramEvent::DestinationSupportUpdated(p)),
            None => None,
        }
    } else if disc_matches(data, off, &FILL_REPORTED_EVENT_DISCRIMINATOR) {
        match decode_event_fill_reported(data, off + 8, trx, &none) {
            Some(p) => Some(ProgramEvent::FillReported(p)),
            None => None,
        }
    } else if disc_matches(data, off, &ORDER_CANCELLED_EVENT_DISCRIMINATOR) {
        match decode_event_order_cancelled(data, off + 8, trx, &none) {
            Some(p) => Some(ProgramEvent::OrderCancelled(p)),
            None => None,
        }
    } else if disc_matches(data, off, &ORDER_COMPLETED_EVENT_DISCRIMINATOR) {
        match decode_event_order_completed(data, off + 8, trx, &none) {
            Some(p) => Some(ProgramEvent::OrderCompleted(p)),
            None => None,
        }
    } else if disc_matches(data, off, &ORDER_FILLED_EVENT_DISCRIMINATOR) {
        match decode_event_order_filled(data, off + 8, trx, &none) {
            Some(p) => Some(ProgramEvent::OrderFilled(p)),
            None => None,
        }
    } else if disc_matches(data, off, &ORDER_OPENED_EVENT_DISCRIMINATOR) {
        match decode_event_order_opened(data, off + 8, trx, &none) {
            Some(p) => Some(ProgramEvent::OrderOpened(p)),
            None => None,
        }
    } else if disc_matches(data, off, &REFUND_CLAIMED_EVENT_DISCRIMINATOR) {
        match decode_event_refund_claimed(data, off + 8, trx, &none) {
            Some(p) => Some(ProgramEvent::RefundClaimed(p)),
            None => None,
        }
    } else {
        None
    }
}

proof fn lemma_event_discriminators_distinct()
    ensures
        CANCEL_REPORTED_EVENT_DISCRIMINATOR@ != DESTINATION_SUPPORT_UPDATED_EVENT_DISCRIMINATOR@,
        CANCEL_REPORTED_EVENT_DISCRIMINATOR@ != FILL_REPORTED_EVENT_DISCRIMINATOR@,
        CANCEL_REPORTED_EVENT_DISCRIMINATOR@ != ORDER_CANCELLED_EVENT_DISCRIMINATOR@,
        CANCEL_REPORTED_EVENT_DISCRIMINATOR@ != ORDER_COMPLETED_EVENT_DISCRIMINATOR@,
        CANCEL_REPORTED_EVENT_DISCRIMINATOR@ != ORDER_FILLED_EVENT_DISCRIMINATOR@,
        CANCEL_REPORTED_EVENT_DISCRIMINATOR@ != ORDER_OPENED_EVENT_DISCRIMINATOR@,
        CANCEL_REPORTED_EVENT_DISCRIMINATOR@ != REFUND_CLAIMED_EVENT_DISCRIMINATOR@,
        DESTINATION_SUPPORT_UPDATED_EVENT_DISCRIMINATOR@ != FILL_REPORTED_EVENT_DISCRIMINATOR@,
        DESTINATION_SUPPORT_UPDATED_EVENT_DISCRIMINATOR@ != ORDER_CANCELLED_EVENT_DISCRIMINATOR@,
        DESTINATION_SUPPORT_UPDATED_EVENT_DISCRIMINATOR@ != ORDER_COMPLETED_EVENT_DISCRIMINATOR@,
        DESTINATION_SUPPORT_UPDATED_EVENT_DISCRIMINATOR@ != ORDER_FILLED_EVENT_DISCRIMINATOR@,
        DESTINATION_SUPPORT_UPDATED_EVENT_DISCRIMINATOR@ != ORDER_OPENED_EVENT_DISCRIMINATOR@,
        DESTINATION_SUPPORT_UPDATED_EVENT_DISCRIMINATOR@ != REFUND_CLAIMED_EVENT_DISCRIMINATOR@,
        FILL_REPORTED_EVENT_DISCRIMINATOR@ != ORDER_CANCELLED_EVENT_DISCRIMINATOR@,
        FILL_REPORTED_EVENT_DISCRIMINATOR@ != ORDER_COMPLETED_EVENT_DISCRIMINATOR@,
        FILL_REPORTED_EVENT_DISCRIMINATOR@ != ORDER_FILLED_EVENT_DISCRIMINATOR@,
        FILL_REPORTED_EVENT_DISCRIMINATOR@ != ORDER_OPENED_EVENT_DISCRIMINATOR@,
        FILL_REPORTED_EVENT_DISCRIMINATOR@ != REFUND_CLAIMED_EVENT_DISCRIMINATOR@,
        ORDER_CANCELLED_EVENT_DISCRIMINATOR@ != ORDER_COMPLETED_EVENT_DISCRIMINATOR@,
        ORDER_CANCELLED_EVENT_DISCRIMINATOR@ != ORDER_FILLED_EVENT_DISCRIMINATOR@,
        ORDER_CANCELLED_EVENT_DISCRIMINATOR@ != ORDER_OPENED_EVENT_DISCRIMINATOR@,
        ORDER_CANCELLED_EVENT_DISCRIMINATOR@ != REFUND_CLAIMED_EVENT_DISCRIMINATOR@,
        ORDER_COMPLETED_EVENT_DISCRIMINATOR@ != ORDER_FILLED_EVENT_DISCRIMINATOR@,
        ORDER_COMPLETED_EVENT_DISCRIMINATOR@ != ORDER_OPENED_EVENT_DISCRIMINATOR@,
        ORDER_COMPLETED_EVENT_DISCRIMINATOR@ != REFUND_CLAIMED_EVENT_DISCRIMINATOR@,
        ORDER_FILLED_EVENT_DISCRIMINATOR@ != ORDER_OPENED_EVENT_DISCRIMINATOR@,
        ORDER_FILLED_EVENT_DISCRIMINATOR@ != REFUND_CLAIMED_EVENT_DISCRIMINATOR@,
        ORDER_OPENED_EVENT_DISCRIMINATOR@ != REFUND_CLAIMED_EVENT_DISCRIMINATOR@,
{
    assert(CANCEL_REPORTED_EVENT_DISCRIMINATOR@[0] == CANCEL_REPORTED_EVENT_DISCRIMINATOR[0]);
    assert(DESTINATION_SUPPORT_UPDATED_EVENT_DISCRIMINATOR@[0] == DESTINATION_SUPPORT_UPDATED_EVENT_DISCRIMINATOR[0]);
    assert(FILL_REPORTED_EVENT_DISCRIMINATOR@[0] == FILL_REPORTED_EVENT_DISCRIMINATOR[0]);
    assert(ORDER_CANCELLED_EVENT_DISCRIMINATOR@[0] == ORDER_CANCELLED_EVENT_DISCRIMINATOR[0]);
    assert(ORDER_COMPLETED_EVENT_DISCRIMINATOR@[0] == ORDER_COMPLETED_EVENT_DISCRIMINATOR[0]);
    assert(ORDER_FILLED_EVENT_DISCRIMINATOR@[0] == ORDER_FILLED_EVENT_DISCRIMINATOR[0]);
    assert(ORDER_OPENED_EVENT_DISCRIMINATOR@[0] == ORDER_OPENED_EVENT_DISCRIMINATOR[0]);
    assert(REFUND_CLAIMED_EVENT_DISCRIMINATOR@[0] == REFUND_CLAIMED_EVENT_DISCRIMINATOR[0]);
}

proof fn lemma_instruction_discriminators_distinct()
    ensures
        ACCEPT_ADMIN_ROLE_DISCRIMINATOR@ != ADD_DESTINATION_DISCRIMINATOR@,
        ACCEPT_ADMIN_ROLE_DISCRIMINATOR@ != CANCEL_FOREIGN_ORDER_DISCRIMINATOR@,
        ACCEPT_ADMIN_ROLE_DISCRIMINATOR@ != CANCEL_NATIVE_ORDER_DISCRIMINATOR@,
        ACCEPT_ADMIN_ROLE_DISCRIMINATOR@ != CLEAR_NEW_ADMIN_DISCRIMINATOR@,
        ACCEPT_ADMIN_ROLE_DISCRIMINATOR@ != CLOSE_ORDER_TOKEN_ACCOUNT_DISCRIMINATOR@,
        ACCEPT_ADMIN_ROLE_DISCRIMINATOR@ != FILL_FOREIGN_ORDER_DISCRIMINATOR@,
        ACCEPT_ADMIN_ROLE_DISCRIMINATOR@ != FILL_NATIVE_ORDER_DISCRIMINATOR@,
        ACCEPT_ADMIN_ROLE_DISCRIMINATOR@ != IDL_INSTRUCTION_DISCRIMINATOR@,
        ACCEPT_ADMIN_ROLE_DISCRIMINATOR@ != INITIALIZE_DISCRIMINATOR@,
        ACCEPT_ADMIN_ROLE_DISCRIMINATOR@ != OPEN_ORDER_DISCRIMINATOR@,
        ACCEPT_ADMIN_ROLE_DISCRIMINATOR@ != PAUSE_DISCRIMINATOR@,
        ACCEPT_ADMIN_ROLE_DISCRIMINATOR@ != REMOVE_DESTINATION_DISCRIMINATOR@,
        ACCEPT_ADMIN_ROLE_DISCRIMINATOR@ != REPORT_ORDER_CANCEL_DISCRIMINATOR@,
        ACCEPT_ADMIN_ROLE_DISCRIMINATOR@ != REPORT_ORDER_FILL_DISCRIMINATOR@,
        ACCEPT_ADMIN_ROLE_DISCRIMINATOR@ != SET_NEW_ADMIN_DISCRIMINATOR@,
        ACCEPT_ADMIN_ROLE_DISCRIMINATOR@ != SET_PORTAL_AUTHORITY_DISCRIMINATOR@,
        ACCEPT_ADMIN_ROLE_DISCRIMINATOR@ != UNPAUSE_DISCRIMINATOR@,
        ADD_DESTINATION_DISCRIMINATOR@ != CANCEL_FOREIGN_ORDER_DISCRIMINATOR@,
        ADD_DESTINATION_DISCRIMINATOR@ != CANCEL_NATIVE_ORDER_DISCRIMINATOR@,
        ADD_DESTINATION_DISCRIMINATOR@ != CLEAR_NEW_ADMIN_DISCRIMINATOR@,
        ADD_DESTINATION_DISCRIMINATOR@ != CLOSE_ORDER_TOKEN_ACCOUNT_DISCRIMINATOR@,
        ADD_DESTINATION_DISCRIMINATOR@ != FILL_FOREIGN_ORDER_DISCRIMINATOR@,
        ADD_DESTINATION_DISCRIMINATOR@ != FILL_NATIVE_ORDER_DISCRIMINATOR@,
        ADD_DESTINATION_DISCRIMINATOR@ != IDL_INSTRUCTION_DISCRIMINATOR@,
        ADD_DESTINATION_DISCRIMINATOR@ != INITIALIZE_DISCRIMINATOR@,
        ADD_DESTINATION_DISCRIMINATOR@ != OPEN_ORDER_DISCRIMINATOR@,
        ADD_DESTINATION_DISCRIMINATOR@ != PAUSE_DISCRIMINATOR@,
        ADD_DESTINATION_DISCRIMINATOR@ != REMOVE_DESTINATION_DISCRIMINATOR@,
        ADD_DESTINATION_DISCRIMINATOR@ != REPORT_ORDER_CANCEL_DISCRIMINATOR@,
        ADD_DESTINATION_DISCRIMINATOR@ != REPORT_ORDER_FILL_DISCRIMINATOR@,
        ADD_DESTINATION_DISCRIMINATOR@ != SET_NEW_ADMIN_DISCRIMINATOR@,
        ADD_DESTINATION_DISCRIMINATOR@ != SET_PORTAL_AUTHORITY_DISCRIMINATOR@,
        ADD_DESTINATION_DISCRIMINATOR@ != UNPAUSE_DISCRIMINATOR@,
        CANCEL_FOREIGN_ORDER_DISCRIMINATOR@ != CANCEL_NATIVE_ORDER_DISCRIMINATOR@,
        CANCEL_FOREIGN_ORDER_DISCRIMINATOR@ != CLEAR_NEW_ADMIN_DISCRIMINATOR@,
        CANCEL_FOREIGN_ORDER_DISCRIMINATOR@ != CLOSE_ORDER_TOKEN_ACCOUNT_DISCRIMINATOR@,
        CANCEL_FOREIGN_ORDER_DISCRIMINATOR@ != FILL_FOREIGN_ORDER_DISCRIMINATOR@,
        CANCEL_FOREIGN_ORDER_DISCRIMINATOR@ != FILL_NATIVE_ORDER_DISCRIMINATOR@,
        CANCEL_FOREIGN_ORDER_DISCRIMINATOR@ != IDL_INSTRUCTION_DISCRIMINATOR@,
        CANCEL_FOREIGN_ORDER_DISCRIMINATOR@ != INITIALIZE_DISCRIMINATOR@,
        CANCEL_FOREIGN_ORDER_DISCRIMINATOR@ != OPEN_ORDER_DISCRIMINATOR@,
        CANCEL_FOREIGN_ORDER_DISCRIMINATOR@ != PAUSE_DISCRIMINATOR@,
        CANCEL_FOREIGN_ORDER_DISCRIMINATOR@ != REMOVE_DESTINATION_DISCRIMINATOR@,
        CANCEL_FOREIGN_ORDER_DISCRIMINATOR@ != REPORT_ORDER_CANCEL_DISCRIMINATOR@,
        CANCEL_FOREIGN_ORDER_DISCRIMINATOR@ != REPORT_ORDER_FILL_DISCRIMINATOR@,
        CANCEL_FOREIGN_ORDER_DISCRIMINATOR@ != SET_NEW_ADMIN_DISCRIMINATOR@,
        CANCEL_FOREIGN_ORDER_DISCRIMINATOR@ != SET_PORTAL_AUTHORITY_DISCRIMINATOR@,
        CANCEL_FOREIGN_ORDER_DISCRIMINATOR@ != UNPAUSE_DISCRIMINATOR@,
        CANCEL_NATIVE_ORDER_DISCRIMINATOR@ != CLEAR_NEW_ADMIN_DISCRIMINATOR@,
        CANCEL_NATIVE_ORDER_DISCRIMINATOR@ != CLOSE_ORDER_TOKEN_ACCOUNT_DISCRIMINATOR@,
        CANCEL_NATIVE_ORDER_DISCRIMINATOR@ != FILL_FOREIGN_ORDER_DISCRIMINATOR@,
        CANCEL_NATIVE_ORDER_DISCRIMINATOR@ != FILL_NATIVE_ORDER_DISCRIMINATOR@,
        CANCEL_NATIVE_ORDER_DISCRIMINATOR@ != IDL_INSTRUCTION_DISCRIMINATOR@,
        CANCEL_NATIVE_ORDER_DISCRIMINATOR@ != INITIALIZE_DISCRIMINATOR@,
        CANCEL_NATIVE_ORDER_DISCRIMINATOR@ != OPEN_ORDER_DISCRIMINATOR@,
        CANCEL_NATIVE_ORDER_DISCRIMINATOR@ != PAUSE_DISCRIMINATOR@,
        CANCEL_NATIVE_ORDER_DISCRIMINATOR@ != REMOVE_DESTINATION_DISCRIMINATOR@,
        CANCEL_NATIVE_ORDER_DISCRIMINATOR@ != REPORT_ORDER_CANCEL_DISCRIMINATOR@,
        CANCEL_NATIVE_ORDER_DISCRIMINATOR@ != REPORT_ORDER_FILL_DISCRIMINATOR@,
        CANCEL_NATIVE_ORDER_DISCRIMINATOR@ != SET_NEW_ADMIN_DISCRIMINATOR@,
        CANCEL_NATIVE_ORDER_DISCRIMINATOR@ != SET_PORTAL_AUTHORITY_DISCRIMINATOR@,
        CANCEL_NATIVE_ORDER_DISCRIMINATOR@ != UNPAUSE_DISCRIMINATOR@,
        CLEAR_NEW_ADMIN_DISCRIMINATOR@ != CLOSE_ORDER_TOKEN_ACCOUNT_DISCRIMINATOR@,
        CLEAR_NEW_ADMIN_DISCRIMINATOR@ != FILL_FOREIGN_ORDER_DISCRIMINATOR@,
        CLEAR_NEW_ADMIN_DISCRIMINATOR@ != FILL_NATIVE_ORDER_DISCRIMINATOR@,
        CLEAR_NEW_ADMIN_DISCRIMINATOR@ != IDL_INSTRUCTION_DISCRIMINATOR@,
        CLEAR_NEW_ADMIN_DISCRIMINATOR@ != INITIALIZE_DISCRIMINATOR@,
        CLEAR_NEW_ADMIN_DISCRIMINATOR@ != OPEN_ORDER_DISCRIMINATOR@,
        CLEAR_NEW_ADMIN_DISCRIMINATOR@ != PAUSE_DISCRIMINATOR@,
        CLEAR_NEW_ADMIN_DISCRIMINATOR@ != REMOVE_DESTINATION_DISCRIMINATOR@,
        CLEAR_NEW_ADMIN_DISCRIMINATOR@ != REPORT_ORDER_CANCEL_DISCRIMINATOR@,
        CLEAR_NEW_ADMIN_DISCRIMINATOR@ != REPORT_ORDER_FILL_DISCRIMINATOR@,
        CLEAR_NEW_ADMIN_DISCRIMINATOR@ != SET_NEW_ADMIN_DISCRIMINATOR@,
        CLEAR_NEW_ADMIN_DISCRIMINATOR@ != SET_PORTAL_AUTHORITY_DISCRIMINATOR@,
        CLEAR_NEW_ADMIN_DISCRIMINATOR@ != UNPAUSE_DISCRIMINATOR@,
        CLOSE_ORDER_TOKEN_ACCOUNT_DISCRIMINATOR@ != FILL_FOREIGN_ORDER_DISCRIMINATOR@,
        CLOSE_ORDER_TOKEN_ACCOUNT_DISCRIMINATOR@ != FILL_NATIVE_ORDER_DISCRIMINATOR@,
        CLOSE_ORDER_TOKEN_ACCOUNT_DISCRIMINATOR@ != IDL_INSTRUCTION_DISCRIMINATOR@,
        CLOSE_ORDER_TOKEN_ACCOUNT_DISCRIMINATOR@ != INITIALIZE_DISCRIMINATOR@,
        CLOSE_ORDER_TOKEN_ACCOUNT_DISCRIMINATOR@ != OPEN_ORDER_DISCRIMINATOR@,
        CLOSE_ORDER_TOKEN_ACCOUNT_DISCRIMINATOR@ != PAUSE_DISCRIMINATOR@,
        CLOSE_ORDER_TOKEN_ACCOUNT_DISCRIMINATOR@ != REMOVE_DESTINATION_DISCRIMINATOR@,
        CLOSE_ORDER_TOKEN_ACCOUNT_DISCRIMINATOR@ != REPORT_ORDER_CANCEL_DISCRIMINATOR@,
        CLOSE_ORDER_TOKEN_ACCOUNT_DISCRIMINATOR@ != REPORT_ORDER_FILL_DISCRIMINATOR@,
        CLOSE_ORDER_TOKEN_ACCOUNT_DISCRIMINATOR@ != SET_NEW_ADMIN_DISCRIMINATOR@,
        CLOSE_ORDER_TOKEN_ACCOUNT_DISCRIMINATOR@ != SET_PORTAL_AUTHORITY_DISCRIMINATOR@,
        CLOSE_ORDER_TOKEN_ACCOUNT_DISCRIMINATOR@ != UNPAUSE_DISCRIMINATOR@,
        FILL_FOREIGN_ORDER_DISCRIMINATOR@ != FILL_NATIVE_ORDER_DISCRIMINATOR@,
        FILL_FOREIGN_ORDER_DISCRIMINATOR@ != IDL_INSTRUCTION_DISCRIMINATOR@,
        FILL_FOREIGN_ORDER_DISCRIMINATOR@ != INITIALIZE_DISCRIMINATOR@,
        FILL_FOREIGN_ORDER_DISCRIMINATOR@ != OPEN_ORDER_DISCRIMINATOR@,
        FILL_FOREIGN_ORDER_DISCRIMINATOR@ != PAUSE_DISCRIMINATOR@,
        FILL_FOREIGN_ORDER_DISCRIMINATOR@ != REMOVE_DESTINATION_DISCRIMINATOR@,
        FILL_FOREIGN_ORDER_DISCRIMINATOR@ != REPORT_ORDER_CANCEL_DISCRIMINATOR@,
        FILL_FOREIGN_ORDER_DISCRIMINATOR@ != REPORT_ORDER_FILL_DISCRIMINATOR@,
        FILL_FOREIGN_ORDER_DISCRIMINATOR@ != SET_NEW_ADMIN_DISCRIMINATOR@,
        FILL_FOREIGN_ORDER_DISCRIMINATOR@ != SET_PORTAL_AUTHORITY_DISCRIMINATOR@,
        FILL_FOREIGN_ORDER_DISCRIMINATOR@ != UNPAUSE_DISCRIMINATOR@,
        FILL_NATIVE_ORDER_DISCRIMINATOR@ != IDL_INSTRUCTION_DISCRIMINATOR@,
        FILL_NATIVE_ORDER_DISCRIMINATOR@ != INITIALIZE_DISCRIMINATOR@,
        FILL_NATIVE_ORDER_DISCRIMINATOR@ != OPEN_ORDER_DISCRIMINATOR@,
        FILL_NATIVE_ORDER_DISCRIMINATOR@ != PAUSE_DISCRIMINATOR@,
        FILL_NATIVE_ORDER_DISCRIMINATOR@ != REMOVE_DESTINATION_DISCRIMINATOR@,
        FILL_NATIVE_ORDER_DISCRIMINATOR@ != REPORT_ORDER_CANCEL_DISCRIMINATOR@,
        FILL_NATIVE_ORDER_DISCRIMINATOR@ != REPORT_ORDER_FILL_DISCRIMINATOR@,
        FILL_NATIVE_ORDER_DISCRIMINATOR@ != SET_NEW_ADMIN_DISCRIMINATOR@,
        FILL_NATIVE_ORDER_DISCRIMINATOR@ != SET_PORTAL_AUTHORITY_DISCRIMINATOR@,
        FILL_NATIVE_ORDER_DISCRIMINATOR@ != UNPAUSE_DISCRIMINATOR@,
        IDL_INSTRUCTION_DISCRIMINATOR@ != INITIALIZE_DISCRIMINATOR@,
        IDL_INSTRUCTION_DISCRIMINATOR@ != OPEN_ORDER_DISCRIMINATOR@,
        IDL_INSTRUCTION_DISCRIMINATOR@ != PAUSE_DISCRIMINATOR@,
        IDL_INSTRUCTION_DISCRIMINATOR@ != REMOVE_DESTINATION_DISCRIMINATOR@,
        IDL_INSTRUCTION_DISCRIMINATOR@ != REPORT_ORDER_CANCEL_DISCRIMINATOR@,
        IDL_INSTRUCTION_DISCRIMINATOR@ != REPORT_ORDER_FILL_DISCRIMINATOR@,
        IDL_INSTRUCTION_DISCRIMINATOR@ != SET_NEW_ADMIN_DISCRIMINATOR@,
        IDL_INSTRUCTION_DISCRIMINATOR@ != SET_PORTAL_AUTHORITY_DISCRIMINATOR@,
        IDL_INSTRUCTION_DISCRIMINATOR@ != UNPAUSE_DISCRIMINATOR@,
        INITIALIZE_DISCRIMINATOR@ != OPEN_ORDER_DISCRIMINATOR@,
        INITIALIZE_DISCRIMINATOR@ != PAUSE_DISCRIMINATOR@,
        INITIALIZE_DISCRIMINATOR@ != REMOVE_DESTINATION_DISCRIMINATOR@,
        INITIALIZE_DISCRIMINATOR@ != REPORT_ORDER_CANCEL_DISCRIMINATOR@,
        INITIALIZE_DISCRIMINATOR@ != REPORT_ORDER_FILL_DISCRIMINATOR@,
        INITIALIZE_DISCRIMINATOR@ != SET_NEW_ADMIN_DISCRIMINATOR@,
        INITIALIZE_DISCRIMINATOR@ != SET_PORTAL_AUTHORITY_DISCRIMINATOR@,
        INITIALIZE_DISCRIMINATOR@ != UNPAUSE_DISCRIMINATOR@,
        OPEN_ORDER_DISCRIMINATOR@ != PAUSE_DISCRIMINATOR@,
        OPEN_ORDER_DISCRIMINATOR@ != REMOVE_DESTINATION_DISCRIMINATOR@,
        OPEN_ORDER_DISCRIMINATOR@ != REPORT_ORDER_CANCEL_DISCRIMINATOR@,
        OPEN_ORDER_DISCRIMINATOR@ != REPORT_ORDER_FILL_DISCRIMINATOR@,
        OPEN_ORDER_DISCRIMINATOR@ != SET_NEW_ADMIN_DISCRIMINATOR@,
        OPEN_ORDER_DISCRIMINATOR@ != SET_PORTAL_AUTHORITY_DISCRIMINATOR@,
        OPEN_ORDER_DISCRIMINATOR@ != UNPAUSE_DISCRIMINATOR@,
        PAUSE_DISCRIMINATOR@ != REMOVE_DESTINATION_DISCRIMINATOR@,
        PAUSE_DISCRIMINATOR@ != REPORT_ORDER_CANCEL_DISCRIMINATOR@,
        PAUSE_DISCRIMINATOR@ != REPORT_ORDER_FILL_DISCRIMINATOR@,
        PAUSE_DISCRIMINATOR@ != SET_NEW_ADMIN_DISCRIMINATOR@,
        PAUSE_DISCRIMINATOR@ != SET_PORTAL_AUTHORITY_DISCRIMINATOR@,
        PAUSE_DISCRIMINATOR@ != UNPAUSE_DISCRIMINATOR@,
        REMOVE_DESTINATION_DISCRIMINATOR@ != REPORT_ORDER_CANCEL_DISCRIMINATOR@,
        REMOVE_DESTINATION_DISCRIMINATOR@ != REPORT_ORDER_FILL_DISCRIMINATOR@,
        REMOVE_DESTINATION_DISCRIMINATOR@ != SET_NEW_ADMIN_DISCRIMINATOR@,
        REMOVE_DESTINATION_DISCRIMINATOR@ != SET_PORTAL_AUTHORITY_DISCRIMINATOR@,
        REMOVE_DESTINATION_DISCRIMINATOR@ != UNPAUSE_DISCRIMINATOR@,
        REPORT_ORDER_CANCEL_DISCRIMINATOR@ != REPORT_ORDER_FILL_DISCRIMINATOR@,
        REPORT_ORDER_CANCEL_DISCRIMINATOR@ != SET_NEW_ADMIN_DISCRIMINATOR@,
        REPORT_ORDER_CANCEL_DISCRIMINATOR@ != SET_PORTAL_AUTHORITY_DISCRIMINATOR@,
        REPORT_ORDER_CANCEL_DISCRIMINATOR@ != UNPAUSE_DISCRIMINATOR@,
        REPORT_ORDER_FILL_DISCRIMINATOR@ != SET_NEW_ADMIN_DISCRIMINATOR@,
        REPORT_ORDER_FILL_DISCRIMINATOR@ != SET_PORTAL_AUTHORITY_DISCRIMINATOR@,
        REPORT_ORDER_FILL_DISCRIMINATOR@ != UNPAUSE_DISCRIMINATOR@,
        SET_NEW_ADMIN_DISCRIMINATOR@ != SET_PORTAL_AUTHORITY_DISCRIMINATOR@,
        SET_NEW_ADMIN_DISCRIMINATOR@ != UNPAUSE_DISCRIMINATOR@,
        SET_PORTAL_AUTHORITY_DISCRIMINATOR@ != UNPAUSE_DISCRIMINATOR@,
{
    assert(ACCEPT_ADMIN_ROLE_DISCRIMINATOR@[0] == ACCEPT_ADMIN_ROLE_DISCRIMINATOR[0]);
    assert(ADD_DESTINATION_DISCRIMINATOR@[0] == ADD_DESTINATION_DISCRIMINATOR[0]);
    assert(CANCEL_FOREIGN_ORDER_DISCRIMINATOR@[0] == CANCEL_FOREIGN_ORDER_DISCRIMINATOR[0]);
    assert(CANCEL_NATIVE_ORDER_DISCRIMINATOR@[0] == CANCEL_NATIVE_ORDER_DISCRIMINATOR[0]);
    assert(CLEAR_NEW_ADMIN_DISCRIMINATOR@[0] == CLEAR_NEW_ADMIN_DISCRIMINATOR[0]);
    assert(CLOSE_ORDER_TOKEN_ACCOUNT_DISCRIMINATOR@[0] == CLOSE_ORDER_TOKEN_ACCOUNT_DISCRIMINATOR[0]);
    assert(FILL_FOREIGN_ORDER_DISCRIMINATOR@[0] == FILL_FOREIGN_ORDER_DISCRIMINATOR[0]);
    assert(FILL_NATIVE_ORDER_DISCRIMINATOR@[0] == FILL_NATIVE_ORDER_DISCRIMINATOR[0]);
    assert(IDL_INSTRUCTION_DISCRIMINATOR@[0] == IDL_INSTRUCTION_DISCRIMINATOR[0]);
    assert(INITIALIZE_DISCRIMINATOR@[0] == INITIALIZE_DISCRIMINATOR[0]);
    assert(OPEN_ORDER_DISCRIMINATOR@[0] == OPEN_ORDER_DISCRIMINATOR[0]);
    assert(PAUSE_DISCRIMINATOR@[0] == PAUSE_DISCRIMINATOR[0]);
    assert(REMOVE_DESTINATION_DISCRIMINATOR@[0] == REMOVE_DESTINATION_DISCRIMINATOR[0]);
    assert(REPORT_ORDER_CANCEL_DISCRIMINATOR@[0] == REPORT_ORDER_CANCEL_DISCRIMINATOR[0]);
    assert(REPORT_ORDER_FILL_DISCRIMINATOR@[0] == REPORT_ORDER_FILL_DISCRIMINATOR[0]);
    assert(SET_NEW_ADMIN_DISCRIMINATOR@[0] == SET_NEW_ADMIN_DISCRIMINATOR[0]);
    assert(SET_PORTAL_AUTHORITY_DISCRIMINATOR@[0] == SET_PORTAL_AUTHORITY_DISCRIMINATOR[0]);
    assert(UNPAUSE_DISCRIMINATOR@[0] == UNPAUSE_DISCRIMINATOR[0]);
}

/// Whether there are enough accounts for the instruction whose data is `b`:
/// an instruction that decodes names its accounts by position.
pub open spec fn spec_instruction_accounts_ok(b: Seq<u8>, n: nat) -> bool {
    &&& (spec_disc_at(b, 0) == ACCEPT_ADMIN_ROLE_DISCRIMINATOR@ && spec_ix_accept_admin_role_fits(b, 8) ==> n >= 2)
    &&& (spec_disc_at(b, 0) == ADD_DESTINATION_DISCRIMINATOR@ && spec_ix_add_destination_fits(b, 8) ==> n >= 6)
    &&& (spec_disc_at(b, 0) == CANCEL_FOREIGN_ORDER_DISCRIMINATOR@ && spec_ix_cancel_foreign_order_fits(b, 8) ==> n >= 10)
    &&& (spec_disc_at(b, 0) == CANCEL_NATIVE_ORDER_DISCRIMINATOR@ && spec_ix_cancel_native_order_fits(b, 8) ==> n >= 10)
    &&& (spec_disc_at(b, 0) == CLEAR_NEW_ADMIN_DISCRIMINATOR@ && spec_ix_clear_new_admin_fits(b, 8) ==> n >= 2)
    &&& (spec_disc_at(b, 0) == CLOSE_ORDER_TOKEN_ACCOUNT_DISCRIMINATOR@ && spec_ix_close_order_token_account_fits(b, 8) ==> n >= 7)
    &&& (spec_disc_at(b, 0) == FILL_FOREIGN_ORDER_DISCRIMINATOR@ && spec_ix_fill_foreign_order_fits(b, 8) ==> n >= 16)
    &&& (spec_disc_at(b, 0) == FILL_NATIVE_ORDER_DISCRIMINATOR@ && spec_ix_fill_native_order_fits(b, 8) ==> n >= 16)
    &&& (spec_disc_at(b, 0) == INITIALIZE_DISCRIMINATOR@ && spec_ix_initialize_fits(b, 8) ==> n >= 2)
    &&& (spec_disc_at(b, 0) == OPEN_ORDER_DISCRIMINATOR@ && spec_ix_open_order_fits(b, 8) ==> n >= 14)
    &&& (spec_disc_at(b, 0) == PAUSE_DISCRIMINATOR@ && spec_ix_pause_fits(b, 8) ==> n >= 2)
    &&& (spec_disc_at(b, 0) == REMOVE_DESTINATION_DISCRIMINATOR@ && spec_ix_remove_destination_fits(b, 8) ==> n >= 6)
    &&& (spec_disc_at(b, 0) == REPORT_ORDER_CANCEL_DISCRIMINATOR@ && spec_ix_report_order_cancel_fits(b, 8) ==> n >= 13)
    &&& (spec_disc_at(b, 0) == REPORT_ORDER_FILL_DISCRIMINATOR@ && spec_ix_report_order_fill_fits(b, 8) ==> n >= 13)
    &&& (spec_disc_at(b, 0) == SET_NEW_ADMIN_DISCRIMINATOR@ && spec_ix_set_new_admin_fits(b, 8) ==> n >= 2)
    &&& (spec_disc_at(b, 0) == SET_PORTAL_AUTHORITY_DISCRIMINATOR@ && spec_ix_set_portal_authority_fits(b, 8) ==> n >= 2)
    &&& (spec_disc_at(b, 0) == UNPAUSE_DISCRIMINATOR@ && spec_ix_unpause_fits(b, 8) ==> n >= 2)
}

/// Whether `r` is the instruction decoded from the data `b` with accounts
/// `accts` in transaction `trx`: the instruction named by `b[0..8]`, when its
/// arguments are readable.
pub open spec fn spec_instruction_decoded(r: Option<ProgramInstruction>, b: Seq<u8>, trx: Seq<char>, accts: Seq<String>) -> bool {
    &&& ((spec_disc_at(b, 0) == ACCEPT_ADMIN_ROLE_DISCRIMINATOR@ && spec_ix_accept_admin_role_fits(b, 8)) <==> r matches Some(ProgramInstruction::AcceptAdminRole(_)))
    &&& (r matches Some(ProgramInstruction::AcceptAdminRole(p)) ==> spec_ix_accept_admin_role_at(p, trx, b, 8, accts))
    &&& ((spec_disc_at(b, 0) == ADD_DESTINATION_DISCRIMINATOR@ && spec_ix_add_destination_fits(b, 8)) <==> r matches Some(ProgramInstruction::AddDestination(_)))
    &&& (r matches Some(ProgramInstruction::AddDestination(p)) ==> spec_ix_add_destination_at(p, trx, b, 8, accts))
    &&& ((spec_disc_at(b, 0) == CANCEL_FOREIGN_ORDER_DISCRIMINATOR@ && spec_ix_cancel_foreign_order_fits(b, 8)) <==> r matches Some(ProgramInstruction::CancelForeignOrder(_)))
    &&& (r matches Some(ProgramInstruction::CancelForeignOrder(p)) ==> spec_ix_cancel_foreign_order_at(p, trx, b, 8, accts))
    &&& ((spec_disc_at(b, 0) == CANCEL_NATIVE_ORDER_DISCRIMINATOR@ && spec_ix_cancel_native_order_fits(b, 8)) <==> r matches Some(ProgramInstruction::CancelNativeOrder(_)))
    &&& (r matches Some(ProgramInstruction::CancelNativeOrder(p)) ==> spec_ix_cancel_native_order_at(p, trx, b, 8, accts))
    &&& ((spec_disc_at(b, 0) == CLEAR_NEW_ADMIN_DISCRIMINATOR@ && spec_ix_clear_new_admin_fits(b, 8)) <==> r matches Some(ProgramInstruction::ClearNewAdmin(_)))
    &&& (r matches Some(ProgramInstruction::ClearNewAdmin(p)) ==> spec_ix_clear_new_admin_at(p, trx, b, 8, accts))
    &&& ((spec_disc_at(b, 0) == CLOSE_ORDER_TOKEN_ACCOUNT_DISCRIMINATOR@ && spec_ix_close_order_token_account_fits(b, 8)) <==> r matches Some(ProgramInstruction::CloseOrderTokenAccount(_)))
    &&& (r matches Some(ProgramInstruction::CloseOrderTokenAccount(p)) ==> spec_ix_close_order_token_account_at(p, trx, b, 8, accts))
    &&& ((spec_disc_at(b, 0) == FILL_FOREIGN_ORDER_DISCRIMINATOR@ && spec_ix_fill_foreign_order_fits(b, 8)) <==> r matches Some(ProgramInstruction::FillForeignOrder(_)))
    &&& (r matches Some(ProgramInstruction::FillForeignOrder(p)) ==> spec_ix_fill_foreign_order_at(p, trx, b, 8, accts))
    &&& ((spec_disc_at(b, 0) == FILL_NATIVE_ORDER_DISCRIMINATOR@ && spec_ix_fill_native_order_fits(b, 8)) <==> r matches Some(ProgramInstruction::FillNativeOrder(_)))
    &&& (r matches Some(ProgramInstruction::FillNativeOrder(p)) ==> spec_ix_fill_native_order_at(p, trx, b, 8, accts))
    &&& ((spec_disc_at(b, 0) == IDL_INSTRUCTION_DISCRIMINATOR@ && spec_ix_idl_instruction_fits(b, 8)) <==> r matches Some(ProgramInstruction::IdlInstruction(_)))
    &&& (r matches Some(ProgramInstruction::IdlInstruction(p)) ==> spec_ix_idl_instruction_at(p, trx, b, 8, accts))
    &&& ((spec_disc_at(b, 0) == INITIALIZE_DISCRIMINATOR@ && spec_ix_initialize_fits(b, 8)) <==> r matches Some(ProgramInstruction::Initialize(_)))
    &&& (r matches Some(ProgramInstruction::Initialize(p)) ==> spec_ix_initialize_at(p, trx, b, 8, accts))
    &&& ((spec_disc_at(b, 0) == OPEN_ORDER_DISCRIMINATOR@ && spec_ix_open_order_fits(b, 8)) <==> r matches Some(ProgramInstruction::OpenOrder(_)))
    &&& (r matches Some(ProgramInstruction::OpenOrder(p)) ==> spec_ix_open_order_at(p, trx, b, 8, accts))
    &&& ((spec_disc_at(b, 0) == PAUSE_DISCRIMINATOR@ && spec_ix_pause_fits(b, 8)) <==> r matches Some(ProgramInstruction::Pause(_)))
    &&& (r matches Some(ProgramInstruction::Pause(p)) ==> spec_ix_pause_at(p, trx, b, 8, accts))
    &&& ((spec_disc_at(b, 0) == REMOVE_DESTINATION_DISCRIMINATOR@ && spec_ix_remove_destination_fits(b, 8)) <==> r matches Some(ProgramInstruction::RemoveDestination(_)))
    &&& (r matches Some(ProgramInstruction::RemoveDestination(p)) ==> spec_ix_remove_destination_at(p, trx, b, 8, accts))
    &&& ((spec_disc_at(b, 0) == REPORT_ORDER_CANCEL_DISCRIMINATOR@ && spec_ix_report_order_cancel_fits(b, 8)) <==> r matches Some(ProgramInstruction::ReportOrderCancel(_)))
    &&& (r matches Some(ProgramInstruction::ReportOrderCancel(p)) ==> spec_ix_report_order_cancel_at(p, trx, b, 8, accts))
    &&& ((spec_disc_at(b, 0) == REPORT_ORDER_FILL_DISCRIMINATOR@ && spec_ix_report_order_fill_fits(b, 8)) <==> r matches Some(ProgramInstruction::ReportOrderFill(_)))
    &&& (r matches Some(ProgramInstruction::ReportOrderFill(p)) ==> spec_ix_report_order_fill_at(p, trx, b, 8, accts))
    &&& ((spec_disc_at(b, 0) == SET_NEW_ADMIN_DISCRIMINATOR@ && spec_ix_set_new_admin_fits(b, 8)) <==> r matches Some(ProgramInstruction::SetNewAdmin(_)))
    &&& (r matches Some(ProgramInstruction::SetNewAdmin(p)) ==> spec_ix_set_new_admin_at(p, trx, b, 8, accts))
    &&& ((spec_disc_at(b, 0) == SET_PORTAL_AUTHORITY_DISCRIMINATOR@ && spec_ix_set_portal_authority_fits(b, 8)) <==> r matches Some(ProgramInstruction::SetPortalAuthority(_)))
    &&& (r matches Some(ProgramInstruction::SetPortalAuthority(p)) ==> spec_ix_set_portal_authority_at(p, trx, b, 8, accts))
    &&& ((spec_disc_at(b, 0) == UNPAUSE_DISCRIMINATOR@ && spec_ix_unpause_fits(b, 8)) <==> r matches Some(ProgramInstruction::Unpause(_)))
    &&& (r matches Some(ProgramInstruction::Unpause(p)) ==> spec_ix_unpause_at(p, trx, b, 8, accts))
}

/// The instruction whose discriminator is `data[0..8]` and whose arguments
/// follow it, with its accounts, if the discriminator is known and the
/// arguments are readable.
pub fn decode_instruction_args(data: &[u8], trx: &String, accts: &Vec<String>) -> (r: Option<ProgramInstruction>)
    requires
        8 <= data@.len(),
        spec_instruction_accounts_ok(data@, accts@.len()),
    ensures
        spec_instruction_decoded(r, data@, trx@, accts@),
{
    proof {
        lemma_instruction_discriminators_distinct();
    }
    if disc_matches(data, 0, &ACCEPT_ADMIN_ROLE_DISCRIMINATOR) {
        match decode_ix_accept_admin_role(data, 8, trx, accts) {
            Some(p) => Some(ProgramInstruction::AcceptAdminRole(p)),
            None => None,
        }
    } else if disc_matches(data, 0, &ADD_DESTINATION_DISCRIMINATOR) {
        match decode_ix_add_destination(data, 8, trx, accts) {
            Some(p) => Some(ProgramInstruction::AddDestination(p)),
            None => None,
        }
    } else if disc_matches(data, 0, &CANCEL_FOREIGN_ORDER_DISCRIMINATOR) {
        match decode_ix_cancel_foreign_order(data, 8, trx, accts) {
            Some(p) => Some(ProgramInstruction::CancelForeignOrder(p)),
            None => None,
        }
    } else if disc_matches(data, 0, &CANCEL_NATIVE_ORDER_DISCRIMINATOR) {
        match decode_ix_cancel_native_order(data, 8, trx, accts) {
            Some(p) => Some(ProgramInstruction::CancelNativeOrder(p)),
            None => None,
        }
    } else if disc_matches(data, 0, &CLEAR_NEW_ADMIN_DISCRIMINATOR) {
        match decode_ix_clear_new_admin(data, 8, trx, accts) {
            Some(p) => Some(ProgramInstruction::ClearNewAdmin(p)),
            None => None,
        }
    } else if disc_matches(data, 0, &CLOSE_ORDER_TOKEN_ACCOUNT_DISCRIMINATOR) {
        match decode_ix_close_order_token_account(data, 8, trx, accts) {
            Some(p) => Some(ProgramInstruction::CloseOrderTokenAccount(p)),
            None => None,
        }
    } else if disc_matches(data, 0, &FILL_FOREIGN_ORDER_DISCRIMINATOR) {
        match decode_ix_fill_foreign_order(data, 8, trx, accts) {
            Some(p) => Some(ProgramInstruction::FillForeignOrder(p)),
            None => None,
        }
    } else if disc_matches(data, 0, &FILL_NATIVE_ORDER_DISCRIMINATOR) {
        match decode_ix_fill_native_order(data, 8, trx, accts) {
            Some(p) => Some(ProgramInstruction::FillNativeOrder(p)),
            None => None,
        }
    } else if disc_matches(data, 0, &IDL_INSTRUCTION_DISCRIMINATOR) {
        match decode_ix_idl_instruction(data, 8, trx, accts) {
            Some(p) => Some(ProgramInstruction::IdlInstruction(p)),
            None => None,
        }
    } else if disc_matches(data, 0, &INITIALIZE_DISCRIMINATOR) {
        match decode_ix_initialize(data, 8, trx, accts) {
            Some(p) => Some(ProgramInstruction::Initialize(p)),
            None => None,
        }
    } else if disc_matches(data, 0, &OPEN_ORDER_DISCRIMINATOR) {
        match decode_ix_open_order(data, 8, trx, accts) {
            Some(p) => Some(ProgramInstruction::OpenOrder(p)),
            None => None,
        }
    } else if disc_matches(data, 0, &PAUSE_DISCRIMINATOR) {
        match decode_ix_pause(data, 8, trx, accts) {
            Some(p) => Some(ProgramInstruction::Pause(p)),
            None => None,
        }
    } else if disc_matches(data, 0, &REMOVE_DESTINATION_DISCRIMINATOR) {
        match decode_ix_remove_destination(data, 8, trx, accts) {
            Some(p) => Some(ProgramInstruction::RemoveDestination(p)),
            None => None,
        }
    } else if disc_matches(data, 0, &REPORT_ORDER_CANCEL_DISCRIMINATOR) {
        match decode_ix_report_order_cancel(data, 8, trx, accts) {
            Some(p) => Some(ProgramInstruction::ReportOrderCancel(p)),
            None => None,
        }
    } else if disc_matches(data, 0, &REPORT_ORDER_FILL_DISCRIMINATOR) {
        match decode_ix_report_order_fill(data, 8, trx, accts) {
            Some(p) => Some(ProgramInstruction::ReportOrderFill(p)),
            None => None,
        }
    } else if disc_matches(data, 0, &SET_NEW_ADMIN_DISCRIMINATOR) {
        match decode_ix_set_new_admin(data, 8, trx, accts) {
            Some(p) => Some(ProgramInstruction::SetNewAdmin(p)),
            None => None,
        }
    } else if disc_matches(data, 0, &SET_PORTAL_AUTHORITY_DISCRIMINATOR) {
        match decode_ix_set_portal_authority(data, 8, trx, accts) {
            Some(p) => Some(ProgramInstruction::SetPortalAuthority(p)),
            None => None,
        }
    } else if disc_matches(data, 0, &UNPAUSE_DISCRIMINATOR) {
        match decode_ix_unpause(data, 8, trx, accts) {
            Some(p) => Some(ProgramInstruction::Unpause(p)),
            None => None,
        }
    } else {
        None
    }
}

/// What the indexer records of one instruction of the program: an event
/// carried in its data (self-invoked event logging), and the instruction itself.
#[derive(Clone, Debug)]
pub struct InstructionRecords {
    pub event: Option<ProgramEvent>,
    pub instruction: Option<ProgramInstruction>,
}

/// Decodes one instruction of the program: an event whose discriminator
/// sits at `data[8..16]` (when the data is that long), and the instruction
/// named by `data[0..8]`.
pub fn decode_instruction(data: &[u8], trx: &String, accts: &Vec<String>) -> (r: InstructionRecords)
    requires
        8 <= data@.len(),
        spec_instruction_accounts_ok(data@, accts@.len()),
    ensures
        data@.len() < 16 ==> r.event is None,
        data@.len() >= 16 ==> spec_event_decoded(r.event, data@, 8, trx@),
        spec_instruction_decoded(r.instruction, data@, trx@, accts@),
{
    let event = if data.len() >= 16 {
        decode_event(data, 8, trx)
    } else {
        None
    };
    let instruction = decode_instruction_args(data, trx, accts);
    InstructionRecords { event, instruction }
}

/// An empty block record: every list empty.
pub fn empty_data() -> (d: pb::Data)
    ensures
        d.cancel_reported_event_list@.len() == 0,
        d.destination_support_updated_event_list@.len() == 0,
        d.fill_reported_event_list@.len() == 0,
        d.order_cancelled_event_list@.len() == 0,
        d.order_completed_event_list@.len() == 0,
        d.order_filled_event_list@.len() == 0,
        d.order_opened_event_list@.len() == 0,
        d.refund_claimed_event_list@.len() == 0,
        d.accept_admin_role_instruction_list@.len() == 0,
        d.add_destination_instruction_list@.len() == 0,
        d.cancel_foreign_order_instruction_list@.len() == 0,
        d.cancel_native_order_instruction_list@.len() == 0,
        d.clear_new_admin_instruction_list@.len() == 0,
        d.close_order_token_account_instruction_list@.len() == 0,
        d.fill_foreign_order_instruction_list@.len() == 0,
        d.fill_native_order_instruction_list@.len() == 0,
        d.idl_instruction_instruction_list@.len() == 0,
        d.initialize_instruction_list@.len() == 0,
        d.open_order_instruction_list@.len() == 0,
        d.pause_instruction_list@.len() == 0,
        d.remove_destination_instruction_list@.len() == 0,
        d.report_order_cancel_instruction_list@.len() == 0,
        d.report_order_fill_instruction_list@.len() == 0,
        d.set_new_admin_instruction_list@.len() == 0,
        d.set_portal_authority_instruction_list@.len() == 0,
        d.unpause_instruction_list@.len() == 0,
{
    pb::Data {
        cancel_reported_event_list: Vec::new(),
        destination_support_updated_event_list: Vec::new(),
        fill_reported_event_list: Vec::new(),
        order_cancelled_event_list: Vec::new(),
        order_completed_event_list: Vec::new(),
        order_filled_event_list: Vec::new(),
        order_opened_event_list: Vec::new(),
        refund_claimed_event_list: Vec::new(),
        accept_admin_role_instruction_list: Vec::new(),
        add_destination_instruction_list: Vec::new(),
        cancel_foreign_order_instruction_list: Vec::new(),
        cancel_native_order_instruction_list: Vec::new(),
        clear_new_admin_instruction_list: Vec::new(),
        close_order_token_account_instruction_list: Vec::new(),
        fill_foreign_order_instruction_list: Vec::new(),
        fill_native_order_instruction_list: Vec::new(),
        idl_instruction_instruction_list: Vec::new(),
        initialize_instruction_list: Vec::new(),
        open_order_instruction_list: Vec::new(),
        pause_instruction_list: Vec::new(),
        remove_destination_instruction_list: Vec::new(),
        report_order_cancel_instruction_list: Vec::new(),
        report_order_fill_instruction_list: Vec::new(),
        set_new_admin_instruction_list: Vec::new(),
        set_portal_authority_instruction_list: Vec::new(),
        unpause_instruction_list: Vec::new(),
    }
}

/// Appends an event to its list of the block record.
pub fn record_event(d: &mut pb::Data, e: ProgramEvent)
    ensures
        final(d).cancel_reported_event_list@ == match e {
            ProgramEvent::CancelReported(p) => old(d).cancel_reported_event_list@.push(p),
            _ => old(d).cancel_reported_event_list@,
        },
        final(d).destination_support_updated_event_list@ == match e {
            ProgramEvent::DestinationSupportUpdated(p) => old(d).destination_support_updated_event_list@.push(p),
            _ => old(d).destination_support_updated_event_list@,
        },
        final(d).fill_reported_event_list@ == match e {
            ProgramEvent::FillReported(p) => old(d).fill_reported_event_list@.push(p),
            _ => old(d).fill_reported_event_list@,
        },
        final(d).order_cancelled_event_list@ == match e {
            ProgramEvent::OrderCancelled(p) => old(d).order_cancelled_event_list@.push(p),
            _ => old(d).order_cancelled_event_list@,
        },
        final(d).order_completed_event_list@ == match e {
            ProgramEvent::OrderCompleted(p) => old(d).order_completed_event_list@.push(p),
            _ => old(d).order_completed_event_list@,
        },
        final(d).order_filled_event_list@ == match e {
            ProgramEvent::OrderFilled(p) => old(d).order_filled_event_list@.push(p),
            _ => old(d).order_filled_event_list@,
        },
        final(d).order_opened_event_list@ == match e {
            ProgramEvent::OrderOpened(p) => old(d).order_opened_event_list@.push(p),
            _ => old(d).order_opened_event_list@,
        },
        final(d).refund_claimed_event_list@ == match e {
            ProgramEvent::RefundClaimed(p) => old(d).refund_claimed_event_list@.push(p),
            _ => old(d).refund_claimed_event_list@,
        },
        final(d).accept_admin_role_instruction_list@ == old(d).accept_admin_role_instruction_list@,
        final(d).add_destination_instruction_list@ == old(d).add_destination_instruction_list@,
        final(d).cancel_foreign_order_instruction_list@ == old(d).cancel_foreign_order_instruction_list@,
        final(d).cancel_native_order_instruction_list@ == old(d).cancel_native_order_instruction_list@,
        final(d).clear_new_admin_instruction_list@ == old(d).clear_new_admin_instruction_list@,
        final(d).close_order_token_account_instruction_list@ == old(d).close_order_token_account_instruction_list@,
        final(d).fill_foreign_order_instruction_list@ == old(d).fill_foreign_order_instruction_list@,
        final(d).fill_native_order_instruction_list@ == old(d).fill_native_order_instruction_list@,
        final(d).idl_instruction_instruction_list@ == old(d).idl_instruction_instruction_list@,
        final(d).initialize_instruction_list@ == old(d).initialize_instruction_list@,
        final(d).open_order_instruction_list@ == old(d).open_order_instruction_list@,
        final(d).pause_instruction_list@ == old(d).pause_instruction_list@,
        final(d).remove_destination_instruction_list@ == old(d).remove_destination_instruction_list@,
        final(d).report_order_cancel_instruction_list@ == old(d).report_order_cancel_instruction_list@,
        final(d).report_order_fill_instruction_list@ == old(d).report_order_fill_instruction_list@,
        final(d).set_new_admin_instruction_list@ == old(d).set_new_admin_instruction_list@,
        final(d).set_portal_authority_instruction_list@ == old(d).set_portal_authority_instruction_list@,
        final(d).unpause_instruction_list@ == old(d).unpause_instruction_list@,
{
    match e {
        ProgramEvent::CancelReported(p) => d.cancel_reported_event_list.push(p),
        ProgramEvent::DestinationSupportUpdated(p) => d.destination_support_updated_event_list.push(p),
        ProgramEvent::FillReported(p) => d.fill_reported_event_list.push(p),
        ProgramEvent::OrderCancelled(p) => d.order_cancelled_event_list.push(p),
        ProgramEvent::OrderCompleted(p) => d.order_completed_event_list.push(p),
        ProgramEvent::OrderFilled(p) => d.order_filled_event_list.push(p),
        ProgramEvent::OrderOpened(p) => d.order_opened_event_list.push(p),
        ProgramEvent::RefundClaimed(p) => d.refund_claimed_event_list.push(p),
    }
}

/// Appends an instruction to its list of the block record.
pub fn record_instruction(d: &mut pb::Data, e: ProgramInstruction)
    ensures
        final(d).accept_admin_role_instruction_list@ == match e {
            ProgramInstruction::AcceptAdminRole(p) => old(d).accept_admin_role_instruction_list@.push(p),
            _ => old(d).accept_admin_role_instruction_list@,
        },
        final(d).add_destination_instruction_list@ == match e {
            ProgramInstruction::AddDestination(p) => old(d).add_destination_instruction_list@.push(p),
            _ => old(d).add_destination_instruction_list@,
        },
        final(d).cancel_foreign_order_instruction_list@ == match e {
            ProgramInstruction::CancelForeignOrder(p) => old(d).cancel_foreign_order_instruction_list@.push(p),
            _ => old(d).cancel_foreign_order_instruction_list@,
        },
        final(d).cancel_native_order_instruction_list@ == match e {
            ProgramInstruction::CancelNativeOrder(p) => old(d).cancel_native_order_instruction_list@.push(p),
            _ => old(d).cancel_native_order_instruction_list@,
        },
        final(d).clear_new_admin_instruction_list@ == match e {
            ProgramInstruction::ClearNewAdmin(p) => old(d).clear_new_admin_instruction_list@.push(p),
            _ => old(d).clear_new_admin_instruction_list@,
        },
        final(d).close_order_token_account_instruction_list@ == match e {
            ProgramInstruction::CloseOrderTokenAccount(p) => old(d).close_order_token_account_instruction_list@.push(p),
            _ => old(d).close_order_token_account_instruction_list@,
        },
        final(d).fill_foreign_order_instruction_list@ == match e {
            ProgramInstruction::FillForeignOrder(p) => old(d).fill_foreign_order_instruction_list@.push(p),
            _ => old(d).fill_foreign_order_instruction_list@,
        },
        final(d).fill_native_order_instruction_list@ == match e {
            ProgramInstruction::FillNativeOrder(p) => old(d).fill_native_order_instruction_list@.push(p),
            _ => old(d).fill_native_order_instruction_list@,
        },
        final(d).idl_instruction_instruction_list@ == match e {
            ProgramInstruction::IdlInstruction(p) => old(d).idl_instruction_instruction_list@.push(p),
            _ => old(d).idl_instruction_instruction_list@,
        },
        final(d).initialize_instruction_list@ == match e {
            ProgramInstruction::Initialize(p) => old(d).initialize_instruction_list@.push(p),
            _ => old(d).initialize_instruction_list@,
        },
        final(d).open_order_instruction_list@ == match e {
            ProgramInstruction::OpenOrder(p) => old(d).open_order_instruction_list@.push(p),
            _ => old(d).open_order_instruction_list@,
        },
        final(d).pause_instruction_list@ == match e {
            ProgramInstruction::Pause(p) => old(d).pause_instruction_list@.push(p),
            _ => old(d).pause_instruction_list@,
        },
        final(d).remove_destination_instruction_list@ == match e {
            ProgramInstruction::RemoveDestination(p) => old(d).remove_destination_instruction_list@.push(p),
            _ => old(d).remove_destination_instruction_list@,
        },
        final(d).report_order_cancel_instruction_list@ == match e {
            ProgramInstruction::ReportOrderCancel(p) => old(d).report_order_cancel_instruction_list@.push(p),
            _ => old(d).report_order_cancel_instruction_list@,
        },
        final(d).report_order_fill_instruction_list@ == match e {
            ProgramInstruction::ReportOrderFill(p) => old(d).report_order_fill_instruction_list@.push(p),
            _ => old(d).report_order_fill_instruction_list@,
        },
        final(d).set_new_admin_instruction_list@ == match e {
            ProgramInstruction::SetNewAdmin(p) => old(d).set_new_admin_instruction_list@.push(p),
            _ => old(d).set_new_admin_instruction_list@,
        },
        final(d).set_portal_authority_instruction_list@ == match e {
            ProgramInstruction::SetPortalAuthority(p) => old(d).set_portal_authority_instruction_list@.push(p),
            _ => old(d).set_portal_authority_instruction_list@,
        },
        final(d).unpause_instruction_list@ == match e {
            ProgramInstruction::Unpause(p) => old(d).unpause_instruction_list@.push(p),
            _ => old(d).unpause_instruction_list@,
        },
        final(d).cancel_reported_event_list@ == old(d).cancel_reported_event_list@,
        final(d).destination_support_updated_event_list@ == old(d).destination_support_updated_event_list@,
        final(d).fill_reported_event_list@ == old(d).fill_reported_event_list@,
        final(d).order_cancelled_event_list@ == old(d).order_cancelled_event_list@,
        final(d).order_completed_event_list@ == old(d).order_completed_event_list@,
        final(d).order_filled_event_list@ == old(d).order_filled_event_list@,
        final(d).order_opened_event_list@ == old(d).order_opened_event_list@,
        final(d).refund_claimed_event_list@ == old(d).refund_claimed_event_list@,
{
    match e {
        ProgramInstruction::AcceptAdminRole(p) => d.accept_admin_role_instruction_list.push(p),
        ProgramInstruction::AddDestination(p) => d.add_destination_instruction_list.push(p),
        ProgramInstruction::CancelForeignOrder(p) => d.cancel_foreign_order_instruction_list.push(p),
        ProgramInstruction::CancelNativeOrder(p) => d.cancel_native_order_instruction_list.push(p),
        ProgramInstruction::ClearNewAdmin(p) => d.clear_new_admin_instruction_list.push(p),
        ProgramInstruction::CloseOrderTokenAccount(p) => d.close_order_token_account_instruction_list.push(p),
        ProgramInstruction::FillForeignOrder(p) => d.fill_foreign_order_instruction_list.push(p),
        ProgramInstruction::FillNativeOrder(p) => d.fill_native_order_instruction_list.push(p),
        ProgramInstruction::IdlInstruction(p) => d.idl_instruction_instruction_list.push(p),
        ProgramInstruction::Initialize(p) => d.initialize_instruction_list.push(p),
        ProgramInstruction::OpenOrder(p) => d.open_order_instruction_list.push(p),
        ProgramInstruction::Pause(p) => d.pause_instruction_list.push(p),
        ProgramInstruction::RemoveDestination(p) => d.remove_destination_instruction_list.push(p),
        ProgramInstruction::ReportOrderCancel(p) => d.report_order_cancel_instruction_list.push(p),
        ProgramInstruction::ReportOrderFill(p) => d.report_order_fill_instruction_list.push(p),
        ProgramInstruction::SetNewAdmin(p) => d.set_new_admin_instruction_list.push(p),
        ProgramInstruction::SetPortalAuthority(p) => d.set_portal_authority_instruction_list.push(p),
        ProgramInstruction::Unpause(p) => d.unpause_instruction_list.push(p),
    }
}

/// Whether an instruction of the program with data `data` comes with enough
/// accounts (`n`) for the indexer to record it: the instruction named by the
/// data, when its arguments are readable, needs all the accounts it records.
pub fn instruction_accounts_ok(data: &[u8], n: usize) -> (ok: bool)
    requires
        8 <= data@.len(),
    ensures
        ok == spec_instruction_accounts_ok(data@, n as nat),
{
    let len = data.len();
    proof {
        lemma_instruction_discriminators_distinct();
    }
    if disc_matches(data, 0, &ACCEPT_ADMIN_ROLE_DISCRIMINATOR) {
        return len < 8 || n >= 2;
    }
    if disc_matches(data, 0, &ADD_DESTINATION_DISCRIMINATOR) {
        return len < 12 || n >= 6;
    }
    if disc_matches(data, 0, &CANCEL_FOREIGN_ORDER_DISCRIMINATOR) {
        return len < 266 || n >= 10;
    }
    if disc_matches(data, 0, &CANCEL_NATIVE_ORDER_DISCRIMINATOR) {
        return len < 40 || n >= 10;
    }
    if disc_matches(data, 0, &CLEAR_NEW_ADMIN_DISCRIMINATOR) {
        return len < 8 || n >= 2;
    }
    if disc_matches(data, 0, &CLOSE_ORDER_TOKEN_ACCOUNT_DISCRIMINATOR) {
        return len < 40 || n >= 7;
    }
    if disc_matches(data, 0, &FILL_FOREIGN_ORDER_DISCRIMINATOR) {
        return len < 306 || n >= 16;
    }
    if disc_matches(data, 0, &FILL_NATIVE_ORDER_DISCRIMINATOR) {
        return len < 306 || n >= 16;
    }
    if disc_matches(data, 0, &INITIALIZE_DISCRIMINATOR) {
        return len < 44 || n >= 2;
    }
    if disc_matches(data, 0, &OPEN_ORDER_DISCRIMINATOR) {
        return len < 148 || n >= 14;
    }
    if disc_matches(data, 0, &PAUSE_DISCRIMINATOR) {
        return len < 8 || n >= 2;
    }
    if disc_matches(data, 0, &REMOVE_DESTINATION_DISCRIMINATOR) {
        return len < 12 || n >= 6;
    }
    if disc_matches(data, 0, &REPORT_ORDER_CANCEL_DISCRIMINATOR) {
        return len < 124 || n >= 13;
    }
    if disc_matches(data, 0, &REPORT_ORDER_FILL_DISCRIMINATOR) {
        return len < 140 || n >= 13;
    }
    if disc_matches(data, 0, &SET_NEW_ADMIN_DISCRIMINATOR) {
        return len < 40 || n >= 2;
    }
    if disc_matches(data, 0, &SET_PORTAL_AUTHORITY_DISCRIMINATOR) {
        return len < 40 || n >= 2;
    }
    if disc_matches(data, 0, &UNPAUSE_DISCRIMINATOR) {
        return len < 8 || n >= 2;
    }
    true
}

/// The program whose logs and instructions the indexer records.
pub const PROGRAM_ID: &'static str = "MzLoYnJ6sF6eeejs4vV95TNmXqS3W4cAtLGKkjT4ZrK";

/// Whether `program_id` names the order book program.
pub fn is_program(program_id: &str) -> (b: bool)
    ensures
        b == (program_id@ == PROGRAM_ID@),
{
    str_equal(program_id, PROGRAM_ID)
}

/// The event a data log of the program carries: its text is the base64 of
/// the event's bytes, discriminator first. Texts that are not base64, or
/// decode to fewer than 8 bytes, carry none.
pub fn data_log_event(text: &str, trx: &String) -> (r: Option<ProgramEvent>)
    ensures
        spec_data_log_decoded(r, text@, trx@),
{
    match base64_decode(text) {
        Ok(bytes) => {
            if bytes.len() >= 8 {
                let e = decode_event(bytes.as_slice(), 0, trx);
                proof {
                    assert(spec_base64(bytes@) == text@);
                }
                e
            } else {
                proof {
                    assert(spec_base64(bytes@) == text@);
                    assert forall|b: Seq<u8>| #[trigger] spec_base64(b) == text@ implies b.len() < 8 by {
                        lemma_base64_len(b, bytes@);
                    }
                }
                None
            }
        },
        Err(_) => None,
    }
}

/// The indexer records an `open_order` instruction written by the quoter's
/// builder as an open-order record carrying the order's parameters (byte
/// arrays widened, the output amount truncated to 64 bits).
pub proof fn lemma_indexes_built_open_order(
    input: OpenOrderInput,
    token_out: [u8; 32],
    created_at: u64,
    r: Option<ProgramInstruction>,
    trx: Seq<char>,
    accts: Seq<String>,
)
    requires
        spec_instruction_decoded(r, spec_open_order_data(input, token_out@, created_at), trx, accts),
    ensures
        r matches Some(ProgramInstruction::OpenOrder(p)) && p.params matches Some(q) && {
            &&& q.dest_chain_id == input.dest_chain_id
            &&& q.created_at == created_at
            &&& q.fill_deadline == input.fill_deadline
            &&& q.token_out@ == widen(token_out@)
            &&& q.amount_in == input.amount_in
            &&& q.amount_out == input.amount_out as u64
            &&& q.recipient@ == widen(input.recipient@)
            &&& q.solver@ == widen(input.solver@)
        },
{
    let data = spec_open_order_data(input, token_out@, created_at);
    lemma_instruction_discriminators_distinct();
    lemma_layouts();
    lemma_le_round_trips();
    assert(data.len() == 148);
    assert(spec_disc_at(data, 0) =~= OPEN_ORDER_DISCRIMINATOR@);
    assert(data.subrange(8, 12) =~= le32(input.dest_chain_id));
    assert(data.subrange(12, 20) =~= le64(created_at));
    assert(data.subrange(20, 28) =~= le64(input.fill_deadline));
    assert(data.subrange(28, 60) =~= token_out@);
    assert(data.subrange(60, 68) =~= le64(input.amount_in));
    assert(data.subrange(68, 84) =~= le128(input.amount_out));
    assert(data.subrange(84, 116) =~= input.recipient@);
    assert(data.subrange(116, 148) =~= input.solver@);
}

/// The indexer records a `cancel_foreign_order` instruction written by the
/// quoter's builder as a foreign-cancellation record of the same order
/// identifier and order data (byte arrays widened, amounts truncated to 64
/// bits).
pub proof fn lemma_indexes_built_cancel_foreign(
    input: CancelOrderInput,
    r: Option<ProgramInstruction>,
    trx: Seq<char>,
    accts: Seq<String>,
)
    requires
        spec_instruction_decoded(
            r,
            CANCEL_FOREIGN_ORDER_DISCRIMINATOR@ + input.order_id@ + spec_cancel_order_data(input),
            trx,
            accts,
        ),
    ensures
        r matches Some(ProgramInstruction::CancelForeignOrder(p)) && p.order_data matches Some(q) && {
            &&& p.order_id@ == widen(input.order_id@)
            &&& q.version == input.version as u64
            &&& q.sender@ == widen(input.sender@)
            &&& q.nonce == input.nonce
            &&& q.origin_chain_id == input.origin_chain_id
            &&& q.dest_chain_id == input.dest_chain_id
            &&& q.created_at == input.created_at
            &&& q.fill_deadline == input.fill_deadline
            &&& q.token_in@ == widen(input.token_in@)
            &&& q.token_out@ == widen(input.token_out@)
            &&& q.amount_in == input.amount_in as u64
            &&& q.amount_out == input.amount_out as u64
            &&& q.recipient@ == widen(input.recipient@)
            &&& q.solver@ == widen(input.solver@)
        },
{
    let data = CANCEL_FOREIGN_ORDER_DISCRIMINATOR@ + input.order_id@ + spec_cancel_order_data(input);
    lemma_instruction_discriminators_distinct();
    lemma_layouts();
    lemma_le_round_trips();
    assert(data.len() == 266);
    assert(spec_disc_at(data, 0) =~= CANCEL_FOREIGN_ORDER_DISCRIMINATOR@);
    assert(data.subrange(8, 40) =~= input.order_id@);
    assert(data.subrange(40, 42) =~= le16(input.version));
    assert(data.subrange(42, 74) =~= input.sender@);
    assert(data.subrange(74, 82) =~= le64(input.nonce));
    assert(data.subrange(82, 86) =~= le32(input.origin_chain_id));
    assert(data.subrange(86, 90) =~= le32(input.dest_chain_id));
    assert(data.subrange(90, 98) =~= le64(input.created_at));
    assert(data.subrange(98, 106) =~= le64(input.fill_deadline));
    assert(data.subrange(106, 138) =~= input.token_in@);
    assert(data.subrange(138, 170) =~= input.token_out@);
    assert(data.subrange(170, 186) =~= le128(input.amount_in));
    assert(data.subrange(186, 202) =~= le128(input.amount_out));
    assert(data.subrange(202, 234) =~= input.recipient@);
    assert(data.subrange(234, 266) =~= input.solver@);
}

/// The schema state of the same name as an order status.
pub open spec fn spec_schema_status(s: OrderStatus) -> pb::OrderStatusEnum {
    match s {
        OrderStatus::DoesNotExist => pb::OrderStatusEnum::OrderStatusDoesNotExist,
        OrderStatus::Created => pb::OrderStatusEnum::OrderStatusCreated,
        OrderStatus::Cancelled => pb::OrderStatusEnum::OrderStatusCancelled,
        OrderStatus::Completed => pb::OrderStatusEnum::OrderStatusCompleted,
    }
}

/// The number the indexer stores for an order status is the number of the
/// schema state of the same name, and distinct statuses get distinct numbers.
pub proof fn lemma_status_codes_match_schema(s: OrderStatus, t: OrderStatus)
    ensures
        spec_status_code(s) == pb::spec_status_number(spec_schema_status(s)),
        spec_status_code(s) == spec_status_code(t) ==> s == t,
{
}

/// What one item of a block walk gives: the event it carries and the
/// instruction it is, each when there is one.
pub type WalkRecord = (Option<ProgramEvent>, Option<ProgramInstruction>);

/// The `CancelReported` records among the walk's records, in order.
pub open spec fn spec_walk_cancel_reported_event_list(rs: Seq<WalkRecord>) -> Seq<pb::CancelReportedEvent>
    decreases rs.len(),
{
    if rs.len() == 0 {
        Seq::empty()
    } else {
        match rs.last().0 {
            Some(ProgramEvent::CancelReported(p)) => spec_walk_cancel_reported_event_list(rs.drop_last()).push(p),
            _ => spec_walk_cancel_reported_event_list(rs.drop_last()),
        }
    }
}

/// The `DestinationSupportUpdated` records among the walk's records, in order.
pub open spec fn spec_walk_destination_support_updated_event_list(rs: Seq<WalkRecord>) -> Seq<pb::DestinationSupportUpdatedEvent>
    decreases rs.len(),
{
    if rs.len() == 0 {
        Seq::empty()
    } else {
        match rs.last().0 {
            Some(ProgramEvent::DestinationSupportUpdated(p)) => spec_walk_destination_support_updated_event_list(rs.drop_last()).push(p),
            _ => spec_walk_destination_support_updated_event_list(rs.drop_last()),
        }
    }
}

/// The `FillReported` records among the walk's records, in order.
pub open spec fn spec_walk_fill_reported_event_list(rs: Seq<WalkRecord>) -> Seq<pb::FillReportedEvent>
    decreases rs.len(),
{
    if rs.len() == 0 {
        Seq::empty()
    } else {
        match rs.last().0 {
            Some(ProgramEvent::FillReported(p)) => spec_walk_fill_reported_event_list(rs.drop_last()).push(p),
            _ => spec_walk_fill_reported_event_list(rs.drop_last()),
        }
    }
}

/// The `OrderCancelled` records among the walk's records, in order.
pub open spec fn spec_walk_order_cancelled_event_list(rs: Seq<WalkRecord>) -> Seq<pb::OrderCancelledEvent>
    decreases rs.len(),
{
    if rs.len() == 0 {
        Seq::empty()
    } else {
        match rs.last().0 {
            Some(ProgramEvent::OrderCancelled(p)) => spec_walk_order_cancelled_event_list(rs.drop_last()).push(p),
            _ => spec_walk_order_cancelled_event_list(rs.drop_last()),
        }
    }
}

/// The `OrderCompleted` records among the walk's records, in order.
pub open spec fn spec_walk_order_completed_event_list(rs: Seq<WalkRecord>) -> Seq<pb::OrderCompletedEvent>
    decreases rs.len(),
{
    if rs.len() == 0 {
        Seq::empty()
    } else {
        match rs.last().0 {
            Some(ProgramEvent::OrderCompleted(p)) => spec_walk_order_completed_event_list(rs.drop_last()).push(p),
            _ => spec_walk_order_completed_event_list(rs.drop_last()),
        }
    }
}

/// The `OrderFilled` records among the walk's records, in order.
pub open spec fn spec_walk_order_filled_event_list(rs: Seq<WalkRecord>) -> Seq<pb::OrderFilledEvent>
    decreases rs.len(),
{
    if rs.len() == 0 {
        Seq::empty()
    } else {
        match rs.last().0 {
            Some(ProgramEvent::OrderFilled(p)) => spec_walk_order_filled_event_list(rs.drop_last()).push(p),
            _ => spec_walk_order_filled_event_list(rs.drop_last()),
        }
    }
}

/// The `OrderOpened` records among the walk's records, in order.
pub open spec fn spec_walk_order_opened_event_list(rs: Seq<WalkRecord>) -> Seq<pb::OrderOpenedEvent>
    decreases rs.len(),
{
    if rs.len() == 0 {
        Seq::empty()
    } else {
        match rs.last().0 {
            Some(ProgramEvent::OrderOpened(p)) => spec_walk_order_opened_event_list(rs.drop_last()).push(p),
            _ => spec_walk_order_opened_event_list(rs.drop_last()),
        }
    }
}

/// The `RefundClaimed` records among the walk's records, in order.
pub open spec fn spec_walk_refund_claimed_event_list(rs: Seq<WalkRecord>) -> Seq<pb::RefundClaimedEvent>
    decreases rs.len(),
{
    if rs.len() == 0 {
        Seq::empty()
    } else {
        match rs.last().0 {
            Some(ProgramEvent::RefundClaimed(p)) => spec_walk_refund_claimed_event_list(rs.drop_last()).push(p),
            _ => spec_walk_refund_claimed_event_list(rs.drop_last()),
        }
    }
}

/// The `AcceptAdminRole` records among the walk's records, in order.
pub open spec fn spec_walk_accept_admin_role_instruction_list(rs: Seq<WalkRecord>) -> Seq<pb::AcceptAdminRoleInstruction>
    decreases rs.len(),
{
    if rs.len() == 0 {
        Seq::empty()
    } else {
        match rs.last().1 {
            Some(ProgramInstruction::AcceptAdminRole(p)) => spec_walk_accept_admin_role_instruction_list(rs.drop_last()).push(p),
            _ => spec_walk_accept_admin_role_instruction_list(rs.drop_last()),
        }
    }
}

/// The `AddDestination` records among the walk's records, in order.
pub open spec fn spec_walk_add_destination_instruction_list(rs: Seq<WalkRecord>) -> Seq<pb::AddDestinationInstruction>
    decreases rs.len(),
{
    if rs.len() == 0 {
        Seq::empty()
    } else {
        match rs.last().1 {
            Some(ProgramInstruction::AddDestination(p)) => spec_walk_add_destination_instruction_list(rs.drop_last()).push(p),
            _ => spec_walk_add_destination_instruction_list(rs.drop_last()),
        }
    }
}

/// The `CancelForeignOrder` records among the walk's records, in order.
pub open spec fn spec_walk_cancel_foreign_order_instruction_list(rs: Seq<WalkRecord>) -> Seq<pb::CancelForeignOrderInstruction>
    decreases rs.len(),
{
    if rs.len() == 0 {
        Seq::empty()
    } else {
        match rs.last().1 {
            Some(ProgramInstruction::CancelForeignOrder(p)) => spec_walk_cancel_foreign_order_instruction_list(rs.drop_last()).push(p),
            _ => spec_walk_cancel_foreign_order_instruction_list(rs.drop_last()),
        }
    }
}

/// The `CancelNativeOrder` records among the walk's records, in order.
pub open spec fn spec_walk_cancel_native_order_instruction_list(rs: Seq<WalkRecord>) -> Seq<pb::CancelNativeOrderInstruction>
    decreases rs.len(),
{
    if rs.len() == 0 {
        Seq::empty()
    } else {
        match rs.last().1 {
            Some(ProgramInstruction::CancelNativeOrder(p)) => spec_walk_cancel_native_order_instruction_list(rs.drop_last()).push(p),
            _ => spec_walk_cancel_native_order_instruction_list(rs.drop_last()),
        }
    }
}

/// The `ClearNewAdmin` records among the walk's records, in order.
pub open spec fn spec_walk_clear_new_admin_instruction_list(rs: Seq<WalkRecord>) -> Seq<pb::ClearNewAdminInstruction>
    decreases rs.len(),
{
    if rs.len() == 0 {
        Seq::empty()
    } else {
        match rs.last().1 {
            Some(ProgramInstruction::ClearNewAdmin(p)) => spec_walk_clear_new_admin_instruction_list(rs.drop_last()).push(p),
            _ => spec_walk_clear_new_admin_instruction_list(rs.drop_last()),
        }
    }
}

/// The `CloseOrderTokenAccount` records among the walk's records, in order.
pub open spec fn spec_walk_close_order_token_account_instruction_list(rs: Seq<WalkRecord>) -> Seq<pb::CloseOrderTokenAccountInstruction>
    decreases rs.len(),
{
    if rs.len() == 0 {
        Seq::empty()
    } else {
        match rs.last().1 {
            Some(ProgramInstruction::CloseOrderTokenAccount(p)) => spec_walk_close_order_token_account_instruction_list(rs.drop_last()).push(p),
            _ => spec_walk_close_order_token_account_instruction_list(rs.drop_last()),
        }
    }
}

/// The `FillForeignOrder` records among the walk's records, in order.
pub open spec fn spec_walk_fill_foreign_order_instruction_list(rs: Seq<WalkRecord>) -> Seq<pb::FillForeignOrderInstruction>
    decreases rs.len(),
{
    if rs.len() == 0 {
        Seq::empty()
    } else {
        match rs.last().1 {
            Some(ProgramInstruction::FillForeignOrder(p)) => spec_walk_fill_foreign_order_instruction_list(rs.drop_last()).push(p),
            _ => spec_walk_fill_foreign_order_instruction_list(rs.drop_last()),
        }
    }
}

/// The `FillNativeOrder` records among the walk's records, in order.
pub open spec fn spec_walk_fill_native_order_instruction_list(rs: Seq<WalkRecord>) -> Seq<pb::FillNativeOrderInstruction>
    decreases rs.len(),
{
    if rs.len() == 0 {
        Seq::empty()
    } else {
        match rs.last().1 {
            Some(ProgramInstruction::FillNativeOrder(p)) => spec_walk_fill_native_order_instruction_list(rs.drop_last()).push(p),
            _ => spec_walk_fill_native_order_instruction_list(rs.drop_last()),
        }
    }
}

/// The `IdlInstruction` records among the walk's records, in order.
pub open spec fn spec_walk_idl_instruction_instruction_list(rs: Seq<WalkRecord>) -> Seq<pb::IdlInstructionInstruction>
    decreases rs.len(),
{
    if rs.len() == 0 {
        Seq::empty()
    } else {
        match rs.last().1 {
            Some(ProgramInstruction::IdlInstruction(p)) => spec_walk_idl_instruction_instruction_list(rs.drop_last()).push(p),
            _ => spec_walk_idl_instruction_instruction_list(rs.drop_last()),
        }
    }
}

/// The `Initialize` records among the walk's records, in order.
pub open spec fn spec_walk_initialize_instruction_list(rs: Seq<WalkRecord>) -> Seq<pb::InitializeInstruction>
    decreases rs.len(),
{
    if rs.len() == 0 {
        Seq::empty()
    } else {
        match rs.last().1 {
            Some(ProgramInstruction::Initialize(p)) => spec_walk_initialize_instruction_list(rs.drop_last()).push(p),
            _ => spec_walk_initialize_instruction_list(rs.drop_last()),
        }
    }
}

/// The `OpenOrder` records among the walk's records, in order.
pub open spec fn spec_walk_open_order_instruction_list(rs: Seq<WalkRecord>) -> Seq<pb::OpenOrderInstruction>
    decreases rs.len(),
{
    if rs.len() == 0 {
        Seq::empty()
    } else {
        match rs.last().1 {
            Some(ProgramInstruction::OpenOrder(p)) => spec_walk_open_order_instruction_list(rs.drop_last()).push(p),
            _ => spec_walk_open_order_instruction_list(rs.drop_last()),
        }
    }
}

/// The `Pause` records among the walk's records, in order.
pub open spec fn spec_walk_pause_instruction_list(rs: Seq<WalkRecord>) -> Seq<pb::PauseInstruction>
    decreases rs.len(),
{
    if rs.len() == 0 {
        Seq::empty()
    } else {
        match rs.last().1 {
            Some(ProgramInstruction::Pause(p)) => spec_walk_pause_instruction_list(rs.drop_last()).push(p),
            _ => spec_walk_pause_instruction_list(rs.drop_last()),
        }
    }
}

/// The `RemoveDestination` records among the walk's records, in order.
pub open spec fn spec_walk_remove_destination_instruction_list(rs: Seq<WalkRecord>) -> Seq<pb::RemoveDestinationInstruction>
    decreases rs.len(),
{
    if rs.len() == 0 {
        Seq::empty()
    } else {
        match rs.last().1 {
            Some(ProgramInstruction::RemoveDestination(p)) => spec_walk_remove_destination_instruction_list(rs.drop_last()).push(p),
            _ => spec_walk_remove_destination_instruction_list(rs.drop_last()),
        }
    }
}

/// The `ReportOrderCancel` records among the walk's records, in order.
pub open spec fn spec_walk_report_order_cancel_instruction_list(rs: Seq<WalkRecord>) -> Seq<pb::ReportOrderCancelInstruction>
    decreases rs.len(),
{
    if rs.len() == 0 {
        Seq::empty()
    } else {
        match rs.last().1 {
            Some(ProgramInstruction::ReportOrderCancel(p)) => spec_walk_report_order_cancel_instruction_list(rs.drop_last()).push(p),
            _ => spec_walk_report_order_cancel_instruction_list(rs.drop_last()),
        }
    }
}

/// The `ReportOrderFill` records among the walk's records, in order.
pub open spec fn spec_walk_report_order_fill_instruction_list(rs: Seq<WalkRecord>) -> Seq<pb::ReportOrderFillInstruction>
    decreases rs.len(),
{
    if rs.len() == 0 {
        Seq::empty()
    } else {
        match rs.last().1 {
            Some(ProgramInstruction::ReportOrderFill(p)) => spec_walk_report_order_fill_instruction_list(rs.drop_last()).push(p),
            _ => spec_walk_report_order_fill_instruction_list(rs.drop_last()),
        }
    }
}

/// The `SetNewAdmin` records among the walk's records, in order.
pub open spec fn spec_walk_set_new_admin_instruction_list(rs: Seq<WalkRecord>) -> Seq<pb::SetNewAdminInstruction>
    decreases rs.len(),
{
    if rs.len() == 0 {
        Seq::empty()
    } else {
        match rs.last().1 {
            Some(ProgramInstruction::SetNewAdmin(p)) => spec_walk_set_new_admin_instruction_list(rs.drop_last()).push(p),
            _ => spec_walk_set_new_admin_instruction_list(rs.drop_last()),
        }
    }
}

/// The `SetPortalAuthority` records among the walk's records, in order.
pub open spec fn spec_walk_set_portal_authority_instruction_list(rs: Seq<WalkRecord>) -> Seq<pb::SetPortalAuthorityInstruction>
    decreases rs.len(),
{
    if rs.len() == 0 {
        Seq::empty()
    } else {
        match rs.last().1 {
            Some(ProgramInstruction::SetPortalAuthority(p)) => spec_walk_set_portal_authority_instruction_list(rs.drop_last()).push(p),
            _ => spec_walk_set_portal_authority_instruction_list(rs.drop_last()),
        }
    }
}

/// The `Unpause` records among the walk's records, in order.
pub open spec fn spec_walk_unpause_instruction_list(rs: Seq<WalkRecord>) -> Seq<pb::UnpauseInstruction>
    decreases rs.len(),
{
    if rs.len() == 0 {
        Seq::empty()
    } else {
        match rs.last().1 {
            Some(ProgramInstruction::Unpause(p)) => spec_walk_unpause_instruction_list(rs.drop_last()).push(p),
            _ => spec_walk_unpause_instruction_list(rs.drop_last()),
        }
    }
}

/// Whether every list of the block record holds exactly the records of its
/// kind among `rs`, in order.
pub open spec fn lists_match(d: pb::Data, rs: Seq<WalkRecord>) -> bool {
    &&& d.cancel_reported_event_list@ == spec_walk_cancel_reported_event_list(rs)
    &&& d.destination_support_updated_event_list@ == spec_walk_destination_support_updated_event_list(rs)
    &&& d.fill_reported_event_list@ == spec_walk_fill_reported_event_list(rs)
    &&& d.order_cancelled_event_list@ == spec_walk_order_cancelled_event_list(rs)
    &&& d.order_completed_event_list@ == spec_walk_order_completed_event_list(rs)
    &&& d.order_filled_event_list@ == spec_walk_order_filled_event_list(rs)
    &&& d.order_opened_event_list@ == spec_walk_order_opened_event_list(rs)
    &&& d.refund_claimed_event_list@ == spec_walk_refund_claimed_event_list(rs)
    &&& d.accept_admin_role_instruction_list@ == spec_walk_accept_admin_role_instruction_list(rs)
    &&& d.add_destination_instruction_list@ == spec_walk_add_destination_instruction_list(rs)
    &&& d.cancel_foreign_order_instruction_list@ == spec_walk_cancel_foreign_order_instruction_list(rs)
    &&& d.cancel_native_order_instruction_list@ == spec_walk_cancel_native_order_instruction_list(rs)
    &&& d.clear_new_admin_instruction_list@ == spec_walk_clear_new_admin_instruction_list(rs)
    &&& d.close_order_token_account_instruction_list@ == spec_walk_close_order_token_account_instruction_list(rs)
    &&& d.fill_foreign_order_instruction_list@ == spec_walk_fill_foreign_order_instruction_list(rs)
    &&& d.fill_native_order_instruction_list@ == spec_walk_fill_native_order_instruction_list(rs)
    &&& d.idl_instruction_instruction_list@ == spec_walk_idl_instruction_instruction_list(rs)
    &&& d.initialize_instruction_list@ == spec_walk_initialize_instruction_list(rs)
    &&& d.open_order_instruction_list@ == spec_walk_open_order_instruction_list(rs)
    &&& d.pause_instruction_list@ == spec_walk_pause_instruction_list(rs)
    &&& d.remove_destination_instruction_list@ == spec_walk_remove_destination_instruction_list(rs)
    &&& d.report_order_cancel_instruction_list@ == spec_walk_report_order_cancel_instruction_list(rs)
    &&& d.report_order_fill_instruction_list@ == spec_walk_report_order_fill_instruction_list(rs)
    &&& d.set_new_admin_instruction_list@ == spec_walk_set_new_admin_instruction_list(rs)
    &&& d.set_portal_authority_instruction_list@ == spec_walk_set_portal_authority_instruction_list(rs)
    &&& d.unpause_instruction_list@ == spec_walk_unpause_instruction_list(rs)
}

proof fn lemma_walk_push(rs: Seq<WalkRecord>, x: WalkRecord)
    ensures
        spec_walk_cancel_reported_event_list(rs.push(x)) == match x.0 {
            Some(ProgramEvent::CancelReported(p)) => spec_walk_cancel_reported_event_list(rs).push(p),
            _ => spec_walk_cancel_reported_event_list(rs),
        },
        spec_walk_destination_support_updated_event_list(rs.push(x)) == match x.0 {
            Some(ProgramEvent::DestinationSupportUpdated(p)) => spec_walk_destination_support_updated_event_list(rs).push(p),
            _ => spec_walk_destination_support_updated_event_list(rs),
        },
        spec_walk_fill_reported_event_list(rs.push(x)) == match x.0 {
            Some(ProgramEvent::FillReported(p)) => spec_walk_fill_reported_event_list(rs).push(p),
            _ => spec_walk_fill_reported_event_list(rs),
        },
        spec_walk_order_cancelled_event_list(rs.push(x)) == match x.0 {
            Some(ProgramEvent::OrderCancelled(p)) => spec_walk_order_cancelled_event_list(rs).push(p),
            _ => spec_walk_order_cancelled_event_list(rs),
        },
        spec_walk_order_completed_event_list(rs.push(x)) == match x.0 {
            Some(ProgramEvent::OrderCompleted(p)) => spec_walk_order_completed_event_list(rs).push(p),
            _ => spec_walk_order_completed_event_list(rs),
        },
        spec_walk_order_filled_event_list(rs.push(x)) == match x.0 {
            Some(ProgramEvent::OrderFilled(p)) => spec_walk_order_filled_event_list(rs).push(p),
            _ => spec_walk_order_filled_event_list(rs),
        },
        spec_walk_order_opened_event_list(rs.push(x)) == match x.0 {
            Some(ProgramEvent::OrderOpened(p)) => spec_walk_order_opened_event_list(rs).push(p),
            _ => spec_walk_order_opened_event_list(rs),
        },
        spec_walk_refund_claimed_event_list(rs.push(x)) == match x.0 {
            Some(ProgramEvent::RefundClaimed(p)) => spec_walk_refund_claimed_event_list(rs).push(p),
            _ => spec_walk_refund_claimed_event_list(rs),
        },
        spec_walk_accept_admin_role_instruction_list(rs.push(x)) == match x.1 {
            Some(ProgramInstruction::AcceptAdminRole(p)) => spec_walk_accept_admin_role_instruction_list(rs).push(p),
            _ => spec_walk_accept_admin_role_instruction_list(rs),
        },
        spec_walk_add_destination_instruction_list(rs.push(x)) == match x.1 {
            Some(ProgramInstruction::AddDestination(p)) => spec_walk_add_destination_instruction_list(rs).push(p),
            _ => spec_walk_add_destination_instruction_list(rs),
        },
        spec_walk_cancel_foreign_order_instruction_list(rs.push(x)) == match x.1 {
            Some(ProgramInstruction::CancelForeignOrder(p)) => spec_walk_cancel_foreign_order_instruction_list(rs).push(p),
            _ => spec_walk_cancel_foreign_order_instruction_list(rs),
        },
        spec_walk_cancel_native_order_instruction_list(rs.push(x)) == match x.1 {
            Some(ProgramInstruction::CancelNativeOrder(p)) => spec_walk_cancel_native_order_instruction_list(rs).push(p),
            _ => spec_walk_cancel_native_order_instruction_list(rs),
        },
        spec_walk_clear_new_admin_instruction_list(rs.push(x)) == match x.1 {
            Some(ProgramInstruction::ClearNewAdmin(p)) => spec_walk_clear_new_admin_instruction_list(rs).push(p),
            _ => spec_walk_clear_new_admin_instruction_list(rs),
        },
        spec_walk_close_order_token_account_instruction_list(rs.push(x)) == match x.1 {
            Some(ProgramInstruction::CloseOrderTokenAccount(p)) => spec_walk_close_order_token_account_instruction_list(rs).push(p),
            _ => spec_walk_close_order_token_account_instruction_list(rs),
        },
        spec_walk_fill_foreign_order_instruction_list(rs.push(x)) == match x.1 {
            Some(ProgramInstruction::FillForeignOrder(p)) => spec_walk_fill_foreign_order_instruction_list(rs).push(p),
            _ => spec_walk_fill_foreign_order_instruction_list(rs),
        },
        spec_walk_fill_native_order_instruction_list(rs.push(x)) == match x.1 {
            Some(ProgramInstruction::FillNativeOrder(p)) => spec_walk_fill_native_order_instruction_list(rs).push(p),
            _ => spec_walk_fill_native_order_instruction_list(rs),
        },
        spec_walk_idl_instruction_instruction_list(rs.push(x)) == match x.1 {
            Some(ProgramInstruction::IdlInstruction(p)) => spec_walk_idl_instruction_instruction_list(rs).push(p),
            _ => spec_walk_idl_instruction_instruction_list(rs),
        },
        spec_walk_initialize_instruction_list(rs.push(x)) == match x.1 {
            Some(ProgramInstruction::Initialize(p)) => spec_walk_initialize_instruction_list(rs).push(p),
            _ => spec_walk_initialize_instruction_list(rs),
        },
        spec_walk_open_order_instruction_list(rs.push(x)) == match x.1 {
            Some(ProgramInstruction::OpenOrder(p)) => spec_walk_open_order_instruction_list(rs).push(p),
            _ => spec_walk_open_order_instruction_list(rs),
        },
        spec_walk_pause_instruction_list(rs.push(x)) == match x.1 {
            Some(ProgramInstruction::Pause(p)) => spec_walk_pause_instruction_list(rs).push(p),
            _ => spec_walk_pause_instruction_list(rs),
        },
        spec_walk_remove_destination_instruction_list(rs.push(x)) == match x.1 {
            Some(ProgramInstruction::RemoveDestination(p)) => spec_walk_remove_destination_instruction_list(rs).push(p),
            _ => spec_walk_remove_destination_instruction_list(rs),
        },
        spec_walk_report_order_cancel_instruction_list(rs.push(x)) == match x.1 {
            Some(ProgramInstruction::ReportOrderCancel(p)) => spec_walk_report_order_cancel_instruction_list(rs).push(p),
            _ => spec_walk_report_order_cancel_instruction_list(rs),
        },
        spec_walk_report_order_fill_instruction_list(rs.push(x)) == match x.1 {
            Some(ProgramInstruction::ReportOrderFill(p)) => spec_walk_report_order_fill_instruction_list(rs).push(p),
            _ => spec_walk_report_order_fill_instruction_list(rs),
        },
        spec_walk_set_new_admin_instruction_list(rs.push(x)) == match x.1 {
            Some(ProgramInstruction::SetNewAdmin(p)) => spec_walk_set_new_admin_instruction_list(rs).push(p),
            _ => spec_walk_set_new_admin_instruction_list(rs),
        },
        spec_walk_set_portal_authority_instruction_list(rs.push(x)) == match x.1 {
            Some(ProgramInstruction::SetPortalAuthority(p)) => spec_walk_set_portal_authority_instruction_list(rs).push(p),
            _ => spec_walk_set_portal_authority_instruction_list(rs),
        },
        spec_walk_unpause_instruction_list(rs.push(x)) == match x.1 {
            Some(ProgramInstruction::Unpause(p)) => spec_walk_unpause_instruction_list(rs).push(p),
            _ => spec_walk_unpause_instruction_list(rs),
        },
{
    assert(rs.push(x).drop_last() =~= rs);
}

proof fn lemma_walk_empty(d: pb::Data)
    requires
        d.cancel_reported_event_list@.len() == 0,
        d.destination_support_updated_event_list@.len() == 0,
        d.fill_reported_event_list@.len() == 0,
        d.order_cancelled_event_list@.len() == 0,
        d.order_completed_event_list@.len() == 0,
        d.order_filled_event_list@.len() == 0,
        d.order_opened_event_list@.len() == 0,
        d.refund_claimed_event_list@.len() == 0,
        d.accept_admin_role_instruction_list@.len() == 0,
        d.add_destination_instruction_list@.len() == 0,
        d.cancel_foreign_order_instruction_list@.len() == 0,
        d.cancel_native_order_instruction_list@.len() == 0,
        d.clear_new_admin_instruction_list@.len() == 0,
        d.close_order_token_account_instruction_list@.len() == 0,
        d.fill_foreign_order_instruction_list@.len() == 0,
        d.fill_native_order_instruction_list@.len() == 0,
        d.idl_instruction_instruction_list@.len() == 0,
        d.initialize_instruction_list@.len() == 0,
        d.open_order_instruction_list@.len() == 0,
        d.pause_instruction_list@.len() == 0,
        d.remove_destination_instruction_list@.len() == 0,
        d.report_order_cancel_instruction_list@.len() == 0,
        d.report_order_fill_instruction_list@.len() == 0,
        d.set_new_admin_instruction_list@.len() == 0,
        d.set_portal_authority_instruction_list@.len() == 0,
        d.unpause_instruction_list@.len() == 0,
    ensures
        lists_match(d, Seq::empty()),
{
    assert(d.cancel_reported_event_list@ =~= spec_walk_cancel_reported_event_list(Seq::empty()));
    assert(d.destination_support_updated_event_list@ =~= spec_walk_destination_support_updated_event_list(Seq::empty()));
    assert(d.fill_reported_event_list@ =~= spec_walk_fill_reported_event_list(Seq::empty()));
    assert(d.order_cancelled_event_list@ =~= spec_walk_order_cancelled_event_list(Seq::empty()));
    assert(d.order_completed_event_list@ =~= spec_walk_order_completed_event_list(Seq::empty()));
    assert(d.order_filled_event_list@ =~= spec_walk_order_filled_event_list(Seq::empty()));
    assert(d.order_opened_event_list@ =~= spec_walk_order_opened_event_list(Seq::empty()));
    assert(d.refund_claimed_event_list@ =~= spec_walk_refund_claimed_event_list(Seq::empty()));
    assert(d.accept_admin_role_instruction_list@ =~= spec_walk_accept_admin_role_instruction_list(Seq::empty()));
    assert(d.add_destination_instruction_list@ =~= spec_walk_add_destination_instruction_list(Seq::empty()));
    assert(d.cancel_foreign_order_instruction_list@ =~= spec_walk_cancel_foreign_order_instruction_list(Seq::empty()));
    assert(d.cancel_native_order_instruction_list@ =~= spec_walk_cancel_native_order_instruction_list(Seq::empty()));
    assert(d.clear_new_admin_instruction_list@ =~= spec_walk_clear_new_admin_instruction_list(Seq::empty()));
    assert(d.close_order_token_account_instruction_list@ =~= spec_walk_close_order_token_account_instruction_list(Seq::empty()));
    assert(d.fill_foreign_order_instruction_list@ =~= spec_walk_fill_foreign_order_instruction_list(Seq::empty()));
    assert(d.fill_native_order_instruction_list@ =~= spec_walk_fill_native_order_instruction_list(Seq::empty()));
    assert(d.idl_instruction_instruction_list@ =~= spec_walk_idl_instruction_instruction_list(Seq::empty()));
    assert(d.initialize_instruction_list@ =~= spec_walk_initialize_instruction_list(Seq::empty()));
    assert(d.open_order_instruction_list@ =~= spec_walk_open_order_instruction_list(Seq::empty()));
    assert(d.pause_instruction_list@ =~= spec_walk_pause_instruction_list(Seq::empty()));
    assert(d.remove_destination_instruction_list@ =~= spec_walk_remove_destination_instruction_list(Seq::empty()));
    assert(d.report_order_cancel_instruction_list@ =~= spec_walk_report_order_cancel_instruction_list(Seq::empty()));
    assert(d.report_order_fill_instruction_list@ =~= spec_walk_report_order_fill_instruction_list(Seq::empty()));
    assert(d.set_new_admin_instruction_list@ =~= spec_walk_set_new_admin_instruction_list(Seq::empty()));
    assert(d.set_portal_authority_instruction_list@ =~= spec_walk_set_portal_authority_instruction_list(Seq::empty()));
    assert(d.unpause_instruction_list@ =~= spec_walk_unpause_instruction_list(Seq::empty()));
}

/// A data log (a `Program data:` line) written during a transaction, with
/// the program whose invocation wrote it.
#[derive(Clone, Debug)]
pub struct DataLog {
    pub program_id: String,
    pub data: String,
}

/// One instruction of a transaction, top-level or inner.
#[derive(Clone, Debug)]
pub struct BlockInstruction {
    pub program_id: String,
    pub data: Vec<u8>,
    pub accounts: Vec<String>,
}

/// A transaction of a block: its id (the base58 signature), its data logs
/// and its instructions, each in order.
#[derive(Clone, Debug)]
pub struct BlockTransaction {
    pub id: String,
    pub data_logs: Vec<DataLog>,
    pub instructions: Vec<BlockInstruction>,
}

/// One item of a block walk: a data log or an instruction, with the id of
/// its transaction.
pub enum WalkItem {
    Log(String, DataLog),
    Ix(String, BlockInstruction),
}

/// The items of a transaction, walked in order: its data logs, then its
/// instructions.
pub open spec fn spec_tx_items(t: BlockTransaction) -> Seq<WalkItem> {
    t.data_logs@.map_values(|l: DataLog| WalkItem::Log(t.id, l)) + t.instructions@.map_values(
        |i: BlockInstruction| WalkItem::Ix(t.id, i),
    )
}

/// The items of a block, walked transaction by transaction.
pub open spec fn spec_block_items(txs: Seq<BlockTransaction>) -> Seq<WalkItem>
    decreases txs.len(),
{
    if txs.len() == 0 {
        Seq::empty()
    } else {
        spec_block_items(txs.drop_last()) + spec_tx_items(txs.last())
    }
}

/// Whether `r` is the event a data log of the program carries: the event
/// that the bytes the text is the base64 of decode to (none when they are
/// fewer than 8, or the text is not base64).
pub open spec fn spec_data_log_decoded(r: Option<ProgramEvent>, text: Seq<char>, trx: Seq<char>) -> bool {
    &&& (r is Some ==> exists|b: Seq<u8>|
        #[trigger] spec_base64(b) == text && b.len() >= 8 && spec_event_decoded(r, b, 0, trx))
    &&& ((exists|b: Seq<u8>| #[trigger] spec_base64(b) == text && b.len() >= 8) ==> exists|b: Seq<u8>|
        #[trigger] spec_base64(b) == text && b.len() >= 8 && spec_event_decoded(r, b, 0, trx))
    &&& ((forall|b: Seq<u8>| #[trigger] spec_base64(b) == text ==> b.len() < 8) ==> r is None)
}

/// Whether `x` is what the walk records of `item`: items of other programs
/// record nothing; a data log of the program records the event it carries;
/// an instruction of the program records the event in its data (after its
/// own discriminator) and the instruction itself.
pub open spec fn spec_item_decoded(item: WalkItem, x: WalkRecord) -> bool {
    match item {
        WalkItem::Log(trx, l) => {
            &&& x.1 is None
            &&& if l.program_id@ == PROGRAM_ID@ {
                spec_data_log_decoded(x.0, l.data@, trx@)
            } else {
                x.0 is None
            }
        },
        WalkItem::Ix(trx, i) => if i.program_id@ == PROGRAM_ID@ {
            &&& (i.data@.len() < 16 ==> x.0 is None)
            &&& (i.data@.len() >= 16 ==> spec_event_decoded(x.0, i.data@, 8, trx@))
            &&& spec_instruction_decoded(x.1, i.data@, trx@, i.accounts@)
        } else {
            x.0 is None && x.1 is None
        },
    }
}

/// Whether every instruction of the program in the block can be recorded:
/// its data holds a discriminator and it has the accounts it records.
pub open spec fn spec_block_decodable(txs: Seq<BlockTransaction>) -> bool {
    forall|t: int, j: int|
        0 <= t < txs.len() && 0 <= j < txs[t].instructions@.len()
            && #[trigger] txs[t].instructions@[j].program_id@ == PROGRAM_ID@ ==> {
            &&& 8 <= txs[t].instructions@[j].data@.len()
            &&& spec_instruction_accounts_ok(
                txs[t].instructions@[j].data@,
                txs[t].instructions@[j].accounts@.len(),
            )
        }
}

proof fn lemma_block_items_step(txs: Seq<BlockTransaction>, t: int)
    requires
        0 <= t < txs.len(),
    ensures
        spec_block_items(txs.take(t + 1)) == spec_block_items(txs.take(t)) + spec_tx_items(txs[t]),
{
    assert(txs.take(t + 1).drop_last() =~= txs.take(t));
}

/// Everything the order book program did in a block: for each transaction
/// in order, the events its data logs carry, then, for each of its
/// instructions to the program, the event in the instruction's data and
/// the instruction itself; each kind of record goes to its own list, in
/// the order met.
pub fn map_program_data(txs: &Vec<BlockTransaction>) -> (d: pb::Data)
    requires
        spec_block_decodable(txs@),
    ensures
        spec_program_data(txs@, d),
{
    let mut d = empty_data();
    let ghost mut rs: Seq<WalkRecord> = Seq::empty();
    proof {
        lemma_walk_empty(d);
        assert(txs@.take(0) =~= Seq::<BlockTransaction>::empty());
    }
    let n = txs.len();
    for t in 0..n
        invariant
            n == txs@.len(),
            spec_block_decodable(txs@),
            rs.len() == spec_block_items(txs@.take(t as int)).len(),
            forall|k: int|
                0 <= k < rs.len() ==> spec_item_decoded(
                    spec_block_items(txs@.take(t as int))[k],
                    #[trigger] rs[k],
                ),
            lists_match(d, rs),
    {
        let tx = &txs[t];
        let ghost items = spec_block_items(txs@.take(t as int));
        let ghost base = rs.len();
        let nl = tx.data_logs.len();
        for j in 0..nl
            invariant
                tx == txs@[t as int],
                nl == tx.data_logs@.len(),
                items == spec_block_items(txs@.take(t as int)),
                base == items.len(),
                rs.len() == base + j,
                forall|k: int|
                    0 <= k < base ==> spec_item_decoded(
                        spec_block_items(txs@.take(t as int))[k],
                        #[trigger] rs[k],
                    ),
                forall|k: int|
                    0 <= k < j ==> spec_item_decoded(
                        WalkItem::Log(tx.id, tx.data_logs@[k]),
                        #[trigger] rs[base + k],
                    ),
                lists_match(d, rs),
        {
            let log = &tx.data_logs[j];
            let e = if is_program(log.program_id.as_str()) {
                data_log_event(log.data.as_str(), &tx.id)
            } else {
                None
            };
            let ghost x: WalkRecord = (e, None);
            proof {
                lemma_walk_push(rs, x);
            }
            match e {
                Some(ev) => record_event(&mut d, ev),
                None => {},
            }
            proof {
                assert(spec_item_decoded(WalkItem::Log(tx.id, tx.data_logs@[j as int]), x));
                rs = rs.push(x);
            }
        }
        let ni = tx.instructions.len();
        for j in 0..ni
            invariant
                tx == txs@[t as int],
                0 <= t < txs@.len(),
                nl == tx.data_logs@.len(),
                ni == tx.instructions@.len(),
                spec_block_decodable(txs@),
                items == spec_block_items(txs@.take(t as int)),
                base == items.len(),
                rs.len() == base + nl + j,
                forall|k: int|
                    0 <= k < base ==> spec_item_decoded(
                        spec_block_items(txs@.take(t as int))[k],
                        #[trigger] rs[k],
                    ),
                forall|k: int|
                    0 <= k < nl ==> spec_item_decoded(
                        WalkItem::Log(tx.id, tx.data_logs@[k]),
                        #[trigger] rs[base + k],
                    ),
                forall|k: int|
                    0 <= k < j ==> spec_item_decoded(
                        WalkItem::Ix(tx.id, tx.instructions@[k]),
                        #[trigger] rs[base + nl + k],
                    ),
                lists_match(d, rs),
        {
            let ix = &tx.instructions[j];
            let x_pair = if is_program(ix.program_id.as_str()) {
                proof {
                    assert(txs@[t as int].instructions@[j as int].program_id@ == PROGRAM_ID@);
                }
                let records = decode_instruction(ix.data.as_slice(), &tx.id, &ix.accounts);
                (records.event, records.instruction)
            } else {
                (None, None)
            };
            let ghost x: WalkRecord = x_pair;
            proof {
                lemma_walk_push(rs, x);
            }
            let (ev, ins) = x_pair;
            match ev {
                Some(e) => record_event(&mut d, e),
                None => {},
            }
            match ins {
                Some(i) => record_instruction(&mut d, i),
                None => {},
            }
            proof {
                assert(spec_item_decoded(WalkItem::Ix(tx.id, tx.instructions@[j as int]), x));
                rs = rs.push(x);
            }
        }
        proof {
            lemma_block_items_step(txs@, t as int);
            let ti = spec_tx_items(txs@[t as int]);
            let next = spec_block_items(txs@.take(t + 1));
            assert(next == items + ti);
            assert forall|k: int| 0 <= k < rs.len() implies spec_item_decoded(next[k], #[trigger] rs[k]) by {
                if k < base {
                    assert(next[k] == items[k]);
                } else if k < base + nl {
                    assert(next[k] == ti[k - base]);
                    assert(ti[k - base] == WalkItem::Log(tx.id, tx.data_logs@[k - base]));
                    assert(rs[base + (k - base)] == rs[k]);
                } else {
                    assert(next[k] == ti[k - base]);
                    assert(ti[k - base] == WalkItem::Ix(tx.id, tx.instructions@[k - base - nl]));
                    assert(rs[base + nl + (k - base - nl)] == rs[k]);
                }
            }
        }
    }
    proof {
        assert(txs@.take(n as int) =~= txs@);
        assert(spec_records_of(spec_block_items(txs@), rs));
    }
    d
}


/// Whether `rs` holds one record for each of `items`, each what the walk
/// records of that item.
pub open spec fn spec_records_of(items: Seq<WalkItem>, rs: Seq<WalkRecord>) -> bool {
    &&& rs.len() == items.len()
    &&& forall|k: int| 0 <= k < rs.len() ==> spec_item_decoded(#[trigger] items[k], rs[k])
}

/// Whether `d` is what the indexer records of the block `txs`: each of its
/// lists holds, in order, the records of its kind that the walk over the
/// block's items gives.
pub open spec fn spec_program_data(txs: Seq<BlockTransaction>, d: pb::Data) -> bool {
    exists|rs: Seq<WalkRecord>| spec_records_of(spec_block_items(txs), rs) && lists_match(d, rs)
}

/// The `cancel_reported_event_list` lists of `ds`, laid end to end.
pub open spec fn spec_joined_cancel_reported_event_list(ds: Seq<pb::Data>) -> Seq<pb::CancelReportedEvent>
    decreases ds.len(),
{
    if ds.len() == 0 {
        Seq::empty()
    } else {
        spec_joined_cancel_reported_event_list(ds.drop_last()) + ds.last().cancel_reported_event_list@
    }
}

/// The `destination_support_updated_event_list` lists of `ds`, laid end to end.
pub open spec fn spec_joined_destination_support_updated_event_list(ds: Seq<pb::Data>) -> Seq<pb::DestinationSupportUpdatedEvent>
    decreases ds.len(),
{
    if ds.len() == 0 {
        Seq::empty()
    } else {
        spec_joined_destination_support_updated_event_list(ds.drop_last()) + ds.last().destination_support_updated_event_list@
    }
}

/// The `fill_reported_event_list` lists of `ds`, laid end to end.
pub open spec fn spec_joined_fill_reported_event_list(ds: Seq<pb::Data>) -> Seq<pb::FillReportedEvent>
    decreases ds.len(),
{
    if ds.len() == 0 {
        Seq::empty()
    } else {
        spec_joined_fill_reported_event_list(ds.drop_last()) + ds.last().fill_reported_event_list@
    }
}

/// The `order_cancelled_event_list` lists of `ds`, laid end to end.
pub open spec fn spec_joined_order_cancelled_event_list(ds: Seq<pb::Data>) -> Seq<pb::OrderCancelledEvent>
    decreases ds.len(),
{
    if ds.len() == 0 {
        Seq::empty()
    } else {
        spec_joined_order_cancelled_event_list(ds.drop_last()) + ds.last().order_cancelled_event_list@
    }
}

/// The `order_completed_event_list` lists of `ds`, laid end to end.
pub open spec fn spec_joined_order_completed_event_list(ds: Seq<pb::Data>) -> Seq<pb::OrderCompletedEvent>
    decreases ds.len(),
{
    if ds.len() == 0 {
        Seq::empty()
    } else {
        spec_joined_order_completed_event_list(ds.drop_last()) + ds.last().order_completed_event_list@
    }
}

/// The `order_filled_event_list` lists of `ds`, laid end to end.
pub open spec fn spec_joined_order_filled_event_list(ds: Seq<pb::Data>) -> Seq<pb::OrderFilledEvent>
    decreases ds.len(),
{
    if ds.len() == 0 {
        Seq::empty()
    } else {
        spec_joined_order_filled_event_list(ds.drop_last()) + ds.last().order_filled_event_list@
    }
}

/// The `order_opened_event_list` lists of `ds`, laid end to end.
pub open spec fn spec_joined_order_opened_event_list(ds: Seq<pb::Data>) -> Seq<pb::OrderOpenedEvent>
    decreases ds.len(),
{
    if ds.len() == 0 {
        Seq::empty()
    } else {
        spec_joined_order_opened_event_list(ds.drop_last()) + ds.last().order_opened_event_list@
    }
}

/// The `refund_claimed_event_list` lists of `ds`, laid end to end.
pub open spec fn spec_joined_refund_claimed_event_list(ds: Seq<pb::Data>) -> Seq<pb::RefundClaimedEvent>
    decreases ds.len(),
{
    if ds.len() == 0 {
        Seq::empty()
    } else {
        spec_joined_refund_claimed_event_list(ds.drop_last()) + ds.last().refund_claimed_event_list@
    }
}

/// The `accept_admin_role_instruction_list` lists of `ds`, laid end to end.
pub open spec fn spec_joined_accept_admin_role_instruction_list(ds: Seq<pb::Data>) -> Seq<pb::AcceptAdminRoleInstruction>
    decreases ds.len(),
{
    if ds.len() == 0 {
        Seq::empty()
    } else {
        spec_joined_accept_admin_role_instruction_list(ds.drop_last()) + ds.last().accept_admin_role_instruction_list@
    }
}

/// The `add_destination_instruction_list` lists of `ds`, laid end to end.
pub open spec fn spec_joined_add_destination_instruction_list(ds: Seq<pb::Data>) -> Seq<pb::AddDestinationInstruction>
    decreases ds.len(),
{
    if ds.len() == 0 {
        Seq::empty()
    } else {
        spec_joined_add_destination_instruction_list(ds.drop_last()) + ds.last().add_destination_instruction_list@
    }
}

/// The `cancel_foreign_order_instruction_list` lists of `ds`, laid end to end.
pub open spec fn spec_joined_cancel_foreign_order_instruction_list(ds: Seq<pb::Data>) -> Seq<pb::CancelForeignOrderInstruction>
    decreases ds.len(),
{
    if ds.len() == 0 {
        Seq::empty()
    } else {
        spec_joined_cancel_foreign_order_instruction_list(ds.drop_last()) + ds.last().cancel_foreign_order_instruction_list@
    }
}

/// The `cancel_native_order_instruction_list` lists of `ds`, laid end to end.
pub open spec fn spec_joined_cancel_native_order_instruction_list(ds: Seq<pb::Data>) -> Seq<pb::CancelNativeOrderInstruction>
    decreases ds.len(),
{
    if ds.len() == 0 {
        Seq::empty()
    } else {
        spec_joined_cancel_native_order_instruction_list(ds.drop_last()) + ds.last().cancel_native_order_instruction_list@
    }
}

/// The `clear_new_admin_instruction_list` lists of `ds`, laid end to end.
pub open spec fn spec_joined_clear_new_admin_instruction_list(ds: Seq<pb::Data>) -> Seq<pb::ClearNewAdminInstruction>
    decreases ds.len(),
{
    if ds.len() == 0 {
        Seq::empty()
    } else {
        spec_joined_clear_new_admin_instruction_list(ds.drop_last()) + ds.last().clear_new_admin_instruction_list@
    }
}

/// The `close_order_token_account_instruction_list` lists of `ds`, laid end to end.
pub open spec fn spec_joined_close_order_token_account_instruction_list(ds: Seq<pb::Data>) -> Seq<pb::CloseOrderTokenAccountInstruction>
    decreases ds.len(),
{
    if ds.len() == 0 {
        Seq::empty()
    } else {
        spec_joined_close_order_token_account_instruction_list(ds.drop_last()) + ds.last().close_order_token_account_instruction_list@
    }
}

/// The `fill_foreign_order_instruction_list` lists of `ds`, laid end to end.
pub open spec fn spec_joined_fill_foreign_order_instruction_list(ds: Seq<pb::Data>) -> Seq<pb::FillForeignOrderInstruction>
    decreases ds.len(),
{
    if ds.len() == 0 {
        Seq::empty()
    } else {
        spec_joined_fill_foreign_order_instruction_list(ds.drop_last()) + ds.last().fill_foreign_order_instruction_list@
    }
}

/// The `fill_native_order_instruction_list` lists of `ds`, laid end to end.
pub open spec fn spec_joined_fill_native_order_instruction_list(ds: Seq<pb::Data>) -> Seq<pb::FillNativeOrderInstruction>
    decreases ds.len(),
{
    if ds.len() == 0 {
        Seq::empty()
    } else {
        spec_joined_fill_native_order_instruction_list(ds.drop_last()) + ds.last().fill_native_order_instruction_list@
    }
}

/// The `idl_instruction_instruction_list` lists of `ds`, laid end to end.
pub open spec fn spec_joined_idl_instruction_instruction_list(ds: Seq<pb::Data>) -> Seq<pb::IdlInstructionInstruction>
    decreases ds.len(),
{
    if ds.len() == 0 {
        Seq::empty()
    } else {
        spec_joined_idl_instruction_instruction_list(ds.drop_last()) + ds.last().idl_instruction_instruction_list@
    }
}

/// The `initialize_instruction_list` lists of `ds`, laid end to end.
pub open spec fn spec_joined_initialize_instruction_list(ds: Seq<pb::Data>) -> Seq<pb::InitializeInstruction>
    decreases ds.len(),
{
    if ds.len() == 0 {
        Seq::empty()
    } else {
        spec_joined_initialize_instruction_list(ds.drop_last()) + ds.last().initialize_instruction_list@
    }
}

/// The `open_order_instruction_list` lists of `ds`, laid end to end.
pub open spec fn spec_joined_open_order_instruction_list(ds: Seq<pb::Data>) -> Seq<pb::OpenOrderInstruction>
    decreases ds.len(),
{
    if ds.len() == 0 {
        Seq::empty()
    } else {
        spec_joined_open_order_instruction_list(ds.drop_last()) + ds.last().open_order_instruction_list@
    }
}

/// The `pause_instruction_list` lists of `ds`, laid end to end.
pub open spec fn spec_joined_pause_instruction_list(ds: Seq<pb::Data>) -> Seq<pb::PauseInstruction>
    decreases ds.len(),
{
    if ds.len() == 0 {
        Seq::empty()
    } else {
        spec_joined_pause_instruction_list(ds.drop_last()) + ds.last().pause_instruction_list@
    }
}

/// The `remove_destination_instruction_list` lists of `ds`, laid end to end.
pub open spec fn spec_joined_remove_destination_instruction_list(ds: Seq<pb::Data>) -> Seq<pb::RemoveDestinationInstruction>
    decreases ds.len(),
{
    if ds.len() == 0 {
        Seq::empty()
    } else {
        spec_joined_remove_destination_instruction_list(ds.drop_last()) + ds.last().remove_destination_instruction_list@
    }
}

/// The `report_order_cancel_instruction_list` lists of `ds`, laid end to end.
pub open spec fn spec_joined_report_order_cancel_instruction_list(ds: Seq<pb::Data>) -> Seq<pb::ReportOrderCancelInstruction>
    decreases ds.len(),
{
    if ds.len() == 0 {
        Seq::empty()
    } else {
        spec_joined_report_order_cancel_instruction_list(ds.drop_last()) + ds.last().report_order_cancel_instruction_list@
    }
}

/// The `report_order_fill_instruction_list` lists of `ds`, laid end to end.
pub open spec fn spec_joined_report_order_fill_instruction_list(ds: Seq<pb::Data>) -> Seq<pb::ReportOrderFillInstruction>
    decreases ds.len(),
{
    if ds.len() == 0 {
        Seq::empty()
    } else {
        spec_joined_report_order_fill_instruction_list(ds.drop_last()) + ds.last().report_order_fill_instruction_list@
    }
}

/// The `set_new_admin_instruction_list` lists of `ds`, laid end to end.
pub open spec fn spec_joined_set_new_admin_instruction_list(ds: Seq<pb::Data>) -> Seq<pb::SetNewAdminInstruction>
    decreases ds.len(),
{
    if ds.len() == 0 {
        Seq::empty()
    } else {
        spec_joined_set_new_admin_instruction_list(ds.drop_last()) + ds.last().set_new_admin_instruction_list@
    }
}

/// The `set_portal_authority_instruction_list` lists of `ds`, laid end to end.
pub open spec fn spec_joined_set_portal_authority_instruction_list(ds: Seq<pb::Data>) -> Seq<pb::SetPortalAuthorityInstruction>
    decreases ds.len(),
{
    if ds.len() == 0 {
        Seq::empty()
    } else {
        spec_joined_set_portal_authority_instruction_list(ds.drop_last()) + ds.last().set_portal_authority_instruction_list@
    }
}

/// The `unpause_instruction_list` lists of `ds`, laid end to end.
pub open spec fn spec_joined_unpause_instruction_list(ds: Seq<pb::Data>) -> Seq<pb::UnpauseInstruction>
    decreases ds.len(),
{
    if ds.len() == 0 {
        Seq::empty()
    } else {
        spec_joined_unpause_instruction_list(ds.drop_last()) + ds.last().unpause_instruction_list@
    }
}

/// Whether every list of `d` is the same list of each of `ds`, laid end to
/// end in order.
pub open spec fn lists_joined(d: pb::Data, ds: Seq<pb::Data>) -> bool {
    &&& d.cancel_reported_event_list@ == spec_joined_cancel_reported_event_list(ds)
    &&& d.destination_support_updated_event_list@ == spec_joined_destination_support_updated_event_list(ds)
    &&& d.fill_reported_event_list@ == spec_joined_fill_reported_event_list(ds)
    &&& d.order_cancelled_event_list@ == spec_joined_order_cancelled_event_list(ds)
    &&& d.order_completed_event_list@ == spec_joined_order_completed_event_list(ds)
    &&& d.order_filled_event_list@ == spec_joined_order_filled_event_list(ds)
    &&& d.order_opened_event_list@ == spec_joined_order_opened_event_list(ds)
    &&& d.refund_claimed_event_list@ == spec_joined_refund_claimed_event_list(ds)
    &&& d.accept_admin_role_instruction_list@ == spec_joined_accept_admin_role_instruction_list(ds)
    &&& d.add_destination_instruction_list@ == spec_joined_add_destination_instruction_list(ds)
    &&& d.cancel_foreign_order_instruction_list@ == spec_joined_cancel_foreign_order_instruction_list(ds)
    &&& d.cancel_native_order_instruction_list@ == spec_joined_cancel_native_order_instruction_list(ds)
    &&& d.clear_new_admin_instruction_list@ == spec_joined_clear_new_admin_instruction_list(ds)
    &&& d.close_order_token_account_instruction_list@ == spec_joined_close_order_token_account_instruction_list(ds)
    &&& d.fill_foreign_order_instruction_list@ == spec_joined_fill_foreign_order_instruction_list(ds)
    &&& d.fill_native_order_instruction_list@ == spec_joined_fill_native_order_instruction_list(ds)
    &&& d.idl_instruction_instruction_list@ == spec_joined_idl_instruction_instruction_list(ds)
    &&& d.initialize_instruction_list@ == spec_joined_initialize_instruction_list(ds)
    &&& d.open_order_instruction_list@ == spec_joined_open_order_instruction_list(ds)
    &&& d.pause_instruction_list@ == spec_joined_pause_instruction_list(ds)
    &&& d.remove_destination_instruction_list@ == spec_joined_remove_destination_instruction_list(ds)
    &&& d.report_order_cancel_instruction_list@ == spec_joined_report_order_cancel_instruction_list(ds)
    &&& d.report_order_fill_instruction_list@ == spec_joined_report_order_fill_instruction_list(ds)
    &&& d.set_new_admin_instruction_list@ == spec_joined_set_new_admin_instruction_list(ds)
    &&& d.set_portal_authority_instruction_list@ == spec_joined_set_portal_authority_instruction_list(ds)
    &&& d.unpause_instruction_list@ == spec_joined_unpause_instruction_list(ds)
}

/// Whether the records `rs` give, for every list, the same list of each of
/// `ds`, laid end to end in order.
pub open spec fn walk_joins(rs: Seq<WalkRecord>, ds: Seq<pb::Data>) -> bool {
    &&& spec_walk_cancel_reported_event_list(rs) == spec_joined_cancel_reported_event_list(ds)
    &&& spec_walk_destination_support_updated_event_list(rs) == spec_joined_destination_support_updated_event_list(ds)
    &&& spec_walk_fill_reported_event_list(rs) == spec_joined_fill_reported_event_list(ds)
    &&& spec_walk_order_cancelled_event_list(rs) == spec_joined_order_cancelled_event_list(ds)
    &&& spec_walk_order_completed_event_list(rs) == spec_joined_order_completed_event_list(ds)
    &&& spec_walk_order_filled_event_list(rs) == spec_joined_order_filled_event_list(ds)
    &&& spec_walk_order_opened_event_list(rs) == spec_joined_order_opened_event_list(ds)
    &&& spec_walk_refund_claimed_event_list(rs) == spec_joined_refund_claimed_event_list(ds)
    &&& spec_walk_accept_admin_role_instruction_list(rs) == spec_joined_accept_admin_role_instruction_list(ds)
    &&& spec_walk_add_destination_instruction_list(rs) == spec_joined_add_destination_instruction_list(ds)
    &&& spec_walk_cancel_foreign_order_instruction_list(rs) == spec_joined_cancel_foreign_order_instruction_list(ds)
    &&& spec_walk_cancel_native_order_instruction_list(rs) == spec_joined_cancel_native_order_instruction_list(ds)
    &&& spec_walk_clear_new_admin_instruction_list(rs) == spec_joined_clear_new_admin_instruction_list(ds)
    &&& spec_walk_close_order_token_account_instruction_list(rs) == spec_joined_close_order_token_account_instruction_list(ds)
    &&& spec_walk_fill_foreign_order_instruction_list(rs) == spec_joined_fill_foreign_order_instruction_list(ds)
    &&& spec_walk_fill_native_order_instruction_list(rs) == spec_joined_fill_native_order_instruction_list(ds)
    &&& spec_walk_idl_instruction_instruction_list(rs) == spec_joined_idl_instruction_instruction_list(ds)
    &&& spec_walk_initialize_instruction_list(rs) == spec_joined_initialize_instruction_list(ds)
    &&& spec_walk_open_order_instruction_list(rs) == spec_joined_open_order_instruction_list(ds)
    &&& spec_walk_pause_instruction_list(rs) == spec_joined_pause_instruction_list(ds)
    &&& spec_walk_remove_destination_instruction_list(rs) == spec_joined_remove_destination_instruction_list(ds)
    &&& spec_walk_report_order_cancel_instruction_list(rs) == spec_joined_report_order_cancel_instruction_list(ds)
    &&& spec_walk_report_order_fill_instruction_list(rs) == spec_joined_report_order_fill_instruction_list(ds)
    &&& spec_walk_set_new_admin_instruction_list(rs) == spec_joined_set_new_admin_instruction_list(ds)
    &&& spec_walk_set_portal_authority_instruction_list(rs) == spec_joined_set_portal_authority_instruction_list(ds)
    &&& spec_walk_unpause_instruction_list(rs) == spec_joined_unpause_instruction_list(ds)
}

/// The record sequences `rss`, laid end to end.
pub open spec fn spec_joined_records(rss: Seq<Seq<WalkRecord>>) -> Seq<WalkRecord>
    decreases rss.len(),
{
    if rss.len() == 0 {
        Seq::empty()
    } else {
        spec_joined_records(rss.drop_last()) + rss.last()
    }
}

/// The records of two stretches of a walk, one after the other, fill each
/// list with the first stretch's records of its kind, then the second's.
pub proof fn lemma_walk_lists_append(a: Seq<WalkRecord>, b: Seq<WalkRecord>)
    ensures
        spec_walk_cancel_reported_event_list(a + b) == spec_walk_cancel_reported_event_list(a) + spec_walk_cancel_reported_event_list(b),
        spec_walk_destination_support_updated_event_list(a + b) == spec_walk_destination_support_updated_event_list(a) + spec_walk_destination_support_updated_event_list(b),
        spec_walk_fill_reported_event_list(a + b) == spec_walk_fill_reported_event_list(a) + spec_walk_fill_reported_event_list(b),
        spec_walk_order_cancelled_event_list(a + b) == spec_walk_order_cancelled_event_list(a) + spec_walk_order_cancelled_event_list(b),
        spec_walk_order_completed_event_list(a + b) == spec_walk_order_completed_event_list(a) + spec_walk_order_completed_event_list(b),
        spec_walk_order_filled_event_list(a + b) == spec_walk_order_filled_event_list(a) + spec_walk_order_filled_event_list(b),
        spec_walk_order_opened_event_list(a + b) == spec_walk_order_opened_event_list(a) + spec_walk_order_opened_event_list(b),
        spec_walk_refund_claimed_event_list(a + b) == spec_walk_refund_claimed_event_list(a) + spec_walk_refund_claimed_event_list(b),
        spec_walk_accept_admin_role_instruction_list(a + b) == spec_walk_accept_admin_role_instruction_list(a) + spec_walk_accept_admin_role_instruction_list(b),
        spec_walk_add_destination_instruction_list(a + b) == spec_walk_add_destination_instruction_list(a) + spec_walk_add_destination_instruction_list(b),
        spec_walk_cancel_foreign_order_instruction_list(a + b) == spec_walk_cancel_foreign_order_instruction_list(a) + spec_walk_cancel_foreign_order_instruction_list(b),
        spec_walk_cancel_native_order_instruction_list(a + b) == spec_walk_cancel_native_order_instruction_list(a) + spec_walk_cancel_native_order_instruction_list(b),
        spec_walk_clear_new_admin_instruction_list(a + b) == spec_walk_clear_new_admin_instruction_list(a) + spec_walk_clear_new_admin_instruction_list(b),
        spec_walk_close_order_token_account_instruction_list(a + b) == spec_walk_close_order_token_account_instruction_list(a) + spec_walk_close_order_token_account_instruction_list(b),
        spec_walk_fill_foreign_order_instruction_list(a + b) == spec_walk_fill_foreign_order_instruction_list(a) + spec_walk_fill_foreign_order_instruction_list(b),
        spec_walk_fill_native_order_instruction_list(a + b) == spec_walk_fill_native_order_instruction_list(a) + spec_walk_fill_native_order_instruction_list(b),
        spec_walk_idl_instruction_instruction_list(a + b) == spec_walk_idl_instruction_instruction_list(a) + spec_walk_idl_instruction_instruction_list(b),
        spec_walk_initialize_instruction_list(a + b) == spec_walk_initialize_instruction_list(a) + spec_walk_initialize_instruction_list(b),
        spec_walk_open_order_instruction_list(a + b) == spec_walk_open_order_instruction_list(a) + spec_walk_open_order_instruction_list(b),
        spec_walk_pause_instruction_list(a + b) == spec_walk_pause_instruction_list(a) + spec_walk_pause_instruction_list(b),
        spec_walk_remove_destination_instruction_list(a + b) == spec_walk_remove_destination_instruction_list(a) + spec_walk_remove_destination_instruction_list(b),
        spec_walk_report_order_cancel_instruction_list(a + b) == spec_walk_report_order_cancel_instruction_list(a) + spec_walk_report_order_cancel_instruction_list(b),
        spec_walk_report_order_fill_instruction_list(a + b) == spec_walk_report_order_fill_instruction_list(a) + spec_walk_report_order_fill_instruction_list(b),
        spec_walk_set_new_admin_instruction_list(a + b) == spec_walk_set_new_admin_instruction_list(a) + spec_walk_set_new_admin_instruction_list(b),
        spec_walk_set_portal_authority_instruction_list(a + b) == spec_walk_set_portal_authority_instruction_list(a) + spec_walk_set_portal_authority_instruction_list(b),
        spec_walk_unpause_instruction_list(a + b) == spec_walk_unpause_instruction_list(a) + spec_walk_unpause_instruction_list(b),
    decreases b.len(),
{
    if b.len() == 0 {
        assert(a + b =~= a);
        assert(spec_walk_cancel_reported_event_list(a) + spec_walk_cancel_reported_event_list(b) =~= spec_walk_cancel_reported_event_list(a));
        assert(spec_walk_destination_support_updated_event_list(a) + spec_walk_destination_support_updated_event_list(b) =~= spec_walk_destination_support_updated_event_list(a));
        assert(spec_walk_fill_reported_event_list(a) + spec_walk_fill_reported_event_list(b) =~= spec_walk_fill_reported_event_list(a));
        assert(spec_walk_order_cancelled_event_list(a) + spec_walk_order_cancelled_event_list(b) =~= spec_walk_order_cancelled_event_list(a));
        assert(spec_walk_order_completed_event_list(a) + spec_walk_order_completed_event_list(b) =~= spec_walk_order_completed_event_list(a));
        assert(spec_walk_order_filled_event_list(a) + spec_walk_order_filled_event_list(b) =~= spec_walk_order_filled_event_list(a));
        assert(spec_walk_order_opened_event_list(a) + spec_walk_order_opened_event_list(b) =~= spec_walk_order_opened_event_list(a));
        assert(spec_walk_refund_claimed_event_list(a) + spec_walk_refund_claimed_event_list(b) =~= spec_walk_refund_claimed_event_list(a));
        assert(spec_walk_accept_admin_role_instruction_list(a) + spec_walk_accept_admin_role_instruction_list(b) =~= spec_walk_accept_admin_role_instruction_list(a));
        assert(spec_walk_add_destination_instruction_list(a) + spec_walk_add_destination_instruction_list(b) =~= spec_walk_add_destination_instruction_list(a));
        assert(spec_walk_cancel_foreign_order_instruction_list(a) + spec_walk_cancel_foreign_order_instruction_list(b) =~= spec_walk_cancel_foreign_order_instruction_list(a));
        assert(spec_walk_cancel_native_order_instruction_list(a) + spec_walk_cancel_native_order_instruction_list(b) =~= spec_walk_cancel_native_order_instruction_list(a));
        assert(spec_walk_clear_new_admin_instruction_list(a) + spec_walk_clear_new_admin_instruction_list(b) =~= spec_walk_clear_new_admin_instruction_list(a));
        assert(spec_walk_close_order_token_account_instruction_list(a) + spec_walk_close_order_token_account_instruction_list(b) =~= spec_walk_close_order_token_account_instruction_list(a));
        assert(spec_walk_fill_foreign_order_instruction_list(a) + spec_walk_fill_foreign_order_instruction_list(b) =~= spec_walk_fill_foreign_order_instruction_list(a));
        assert(spec_walk_fill_native_order_instruction_list(a) + spec_walk_fill_native_order_instruction_list(b) =~= spec_walk_fill_native_order_instruction_list(a));
        assert(spec_walk_idl_instruction_instruction_list(a) + spec_walk_idl_instruction_instruction_list(b) =~= spec_walk_idl_instruction_instruction_list(a));
        assert(spec_walk_initialize_instruction_list(a) + spec_walk_initialize_instruction_list(b) =~= spec_walk_initialize_instruction_list(a));
        assert(spec_walk_open_order_instruction_list(a) + spec_walk_open_order_instruction_list(b) =~= spec_walk_open_order_instruction_list(a));
        assert(spec_walk_pause_instruction_list(a) + spec_walk_pause_instruction_list(b) =~= spec_walk_pause_instruction_list(a));
        assert(spec_walk_remove_destination_instruction_list(a) + spec_walk_remove_destination_instruction_list(b) =~= spec_walk_remove_destination_instruction_list(a));
        assert(spec_walk_report_order_cancel_instruction_list(a) + spec_walk_report_order_cancel_instruction_list(b) =~= spec_walk_report_order_cancel_instruction_list(a));
        assert(spec_walk_report_order_fill_instruction_list(a) + spec_walk_report_order_fill_instruction_list(b) =~= spec_walk_report_order_fill_instruction_list(a));
        assert(spec_walk_set_new_admin_instruction_list(a) + spec_walk_set_new_admin_instruction_list(b) =~= spec_walk_set_new_admin_instruction_list(a));
        assert(spec_walk_set_portal_authority_instruction_list(a) + spec_walk_set_portal_authority_instruction_list(b) =~= spec_walk_set_portal_authority_instruction_list(a));
        assert(spec_walk_unpause_instruction_list(a) + spec_walk_unpause_instruction_list(b) =~= spec_walk_unpause_instruction_list(a));
    } else {
        lemma_walk_lists_append(a, b.drop_last());
        assert((a + b).drop_last() =~= a + b.drop_last());
        assert((a + b).last() == b.last());
        assert(spec_walk_cancel_reported_event_list(a + b) =~= spec_walk_cancel_reported_event_list(a) + spec_walk_cancel_reported_event_list(b));
        assert(spec_walk_destination_support_updated_event_list(a + b) =~= spec_walk_destination_support_updated_event_list(a) + spec_walk_destination_support_updated_event_list(b));
        assert(spec_walk_fill_reported_event_list(a + b) =~= spec_walk_fill_reported_event_list(a) + spec_walk_fill_reported_event_list(b));
        assert(spec_walk_order_cancelled_event_list(a + b) =~= spec_walk_order_cancelled_event_list(a) + spec_walk_order_cancelled_event_list(b));
        assert(spec_walk_order_completed_event_list(a + b) =~= spec_walk_order_completed_event_list(a) + spec_walk_order_completed_event_list(b));
        assert(spec_walk_order_filled_event_list(a + b) =~= spec_walk_order_filled_event_list(a) + spec_walk_order_filled_event_list(b));
        assert(spec_walk_order_opened_event_list(a + b) =~= spec_walk_order_opened_event_list(a) + spec_walk_order_opened_event_list(b));
        assert(spec_walk_refund_claimed_event_list(a + b) =~= spec_walk_refund_claimed_event_list(a) + spec_walk_refund_claimed_event_list(b));
        assert(spec_walk_accept_admin_role_instruction_list(a + b) =~= spec_walk_accept_admin_role_instruction_list(a) + spec_walk_accept_admin_role_instruction_list(b));
        assert(spec_walk_add_destination_instruction_list(a + b) =~= spec_walk_add_destination_instruction_list(a) + spec_walk_add_destination_instruction_list(b));
        assert(spec_walk_cancel_foreign_order_instruction_list(a + b) =~= spec_walk_cancel_foreign_order_instruction_list(a) + spec_walk_cancel_foreign_order_instruction_list(b));
        assert(spec_walk_cancel_native_order_instruction_list(a + b) =~= spec_walk_cancel_native_order_instruction_list(a) + spec_walk_cancel_native_order_instruction_list(b));
        assert(spec_walk_clear_new_admin_instruction_list(a + b) =~= spec_walk_clear_new_admin_instruction_list(a) + spec_walk_clear_new_admin_instruction_list(b));
        assert(spec_walk_close_order_token_account_instruction_list(a + b) =~= spec_walk_close_order_token_account_instruction_list(a) + spec_walk_close_order_token_account_instruction_list(b));
        assert(spec_walk_fill_foreign_order_instruction_list(a + b) =~= spec_walk_fill_foreign_order_instruction_list(a) + spec_walk_fill_foreign_order_instruction_list(b));
        assert(spec_walk_fill_native_order_instruction_list(a + b) =~= spec_walk_fill_native_order_instruction_list(a) + spec_walk_fill_native_order_instruction_list(b));
        assert(spec_walk_idl_instruction_instruction_list(a + b) =~= spec_walk_idl_instruction_instruction_list(a) + spec_walk_idl_instruction_instruction_list(b));
        assert(spec_walk_initialize_instruction_list(a + b) =~= spec_walk_initialize_instruction_list(a) + spec_walk_initialize_instruction_list(b));
        assert(spec_walk_open_order_instruction_list(a + b) =~= spec_walk_open_order_instruction_list(a) + spec_walk_open_order_instruction_list(b));
        assert(spec_walk_pause_instruction_list(a + b) =~= spec_walk_pause_instruction_list(a) + spec_walk_pause_instruction_list(b));
        assert(spec_walk_remove_destination_instruction_list(a + b) =~= spec_walk_remove_destination_instruction_list(a) + spec_walk_remove_destination_instruction_list(b));
        assert(spec_walk_report_order_cancel_instruction_list(a + b) =~= spec_walk_report_order_cancel_instruction_list(a) + spec_walk_report_order_cancel_instruction_list(b));
        assert(spec_walk_report_order_fill_instruction_list(a + b) =~= spec_walk_report_order_fill_instruction_list(a) + spec_walk_report_order_fill_instruction_list(b));
        assert(spec_walk_set_new_admin_instruction_list(a + b) =~= spec_walk_set_new_admin_instruction_list(a) + spec_walk_set_new_admin_instruction_list(b));
        assert(spec_walk_set_portal_authority_instruction_list(a + b) =~= spec_walk_set_portal_authority_instruction_list(a) + spec_walk_set_portal_authority_instruction_list(b));
        assert(spec_walk_unpause_instruction_list(a + b) =~= spec_walk_unpause_instruction_list(a) + spec_walk_unpause_instruction_list(b));
    }
}

proof fn lemma_records_append(a: Seq<WalkItem>, ra: Seq<WalkRecord>, b: Seq<WalkItem>, rb: Seq<WalkRecord>)
    requires
        spec_records_of(a, ra),
        spec_records_of(b, rb),
    ensures
        spec_records_of(a + b, ra + rb),
{
    assert forall|k: int| 0 <= k < (ra + rb).len() implies spec_item_decoded(#[trigger] (a + b)[k], (ra + rb)[k]) by {
        if k >= ra.len() {
            assert(rb[k - ra.len()] == (ra + rb)[k]);
            assert(b[k - a.len()] == (a + b)[k]);
        } else {
            assert(ra[k] == (ra + rb)[k]);
            assert(a[k] == (a + b)[k]);
        }
    }
}

proof fn lemma_records_split(a: Seq<WalkItem>, b: Seq<WalkItem>, rs: Seq<WalkRecord>)
    requires
        spec_records_of(a + b, rs),
    ensures
        spec_records_of(a, rs.take(a.len() as int)),
        spec_records_of(b, rs.skip(a.len() as int)),
        rs.take(a.len() as int) + rs.skip(a.len() as int) == rs,
{
    let n = a.len() as int;
    assert forall|k: int| 0 <= k < n implies spec_item_decoded(#[trigger] a[k], rs.take(n)[k]) by {
        assert((a + b)[k] == a[k]);
    }
    assert forall|k: int| 0 <= k < b.len() implies spec_item_decoded(#[trigger] b[k], rs.skip(n)[k]) by {
        assert((a + b)[n + k] == b[k]);
    }
    assert(rs.take(n) + rs.skip(n) =~= rs);
}

/// A block of one transaction is walked as that transaction's items.
pub proof fn lemma_block_items_single(t: BlockTransaction)
    ensures
        spec_block_items(seq![t]) == spec_tx_items(t),
{
    let e = Seq::<BlockTransaction>::empty();
    assert(seq![t].drop_last() =~= e);
    assert(seq![t].last() == t);
    assert(spec_block_items(e) == Seq::<WalkItem>::empty());
    assert(spec_block_items(seq![t]) == spec_block_items(e) + spec_tx_items(t));
    assert(Seq::<WalkItem>::empty() + spec_tx_items(t) =~= spec_tx_items(t));
}

proof fn lemma_block_items_last(txs: Seq<BlockTransaction>)
    requires
        txs.len() > 0,
    ensures
        spec_block_items(txs) == spec_block_items(txs.drop_last()) + spec_block_items(seq![txs.last()]),
{
    lemma_block_items_single(txs.last());
}

/// Laying end to end, list by list, what the indexer records of each
/// transaction of a block taken alone, in the block's order, gives what it
/// records of the block: records keep the order of their transactions and
/// never mix them; a block without transactions has every list empty.
pub proof fn lemma_block_data_joins(txs: Seq<BlockTransaction>, ds: Seq<pb::Data>, d: pb::Data)
    requires
        ds.len() == txs.len(),
        forall|i: int| 0 <= i < txs.len() ==> spec_program_data(seq![txs[i]], #[trigger] ds[i]),
        lists_joined(d, ds),
    ensures
        spec_program_data(txs, d),
{
    lemma_records_join(txs, ds);
    let rs = choose|rs: Seq<WalkRecord>| spec_records_of(spec_block_items(txs), rs) && walk_joins(rs, ds);
    assert(lists_match(d, rs));
}

proof fn lemma_records_join(txs: Seq<BlockTransaction>, ds: Seq<pb::Data>)
    requires
        ds.len() == txs.len(),
        forall|i: int| 0 <= i < txs.len() ==> spec_program_data(seq![txs[i]], #[trigger] ds[i]),
    ensures
        exists|rs: Seq<WalkRecord>| spec_records_of(spec_block_items(txs), rs) && walk_joins(rs, ds),
    decreases txs.len(),
{
    if txs.len() == 0 {
        let rs = Seq::<WalkRecord>::empty();
        assert(spec_records_of(spec_block_items(txs), rs));
        assert(walk_joins(rs, ds));
    } else {
        let p = txs.drop_last();
        let q = ds.drop_last();
        assert forall|i: int| 0 <= i < p.len() implies spec_program_data(seq![p[i]], #[trigger] q[i]) by {
            assert(p[i] == txs[i]);
            assert(q[i] == ds[i]);
        }
        lemma_records_join(p, q);
        let r0 = choose|rs: Seq<WalkRecord>| spec_records_of(spec_block_items(p), rs) && walk_joins(rs, q);
        let last = txs.len() - 1;
        assert(spec_program_data(seq![txs[last]], ds[last]));
        let r1 = choose|rs: Seq<WalkRecord>| spec_records_of(spec_block_items(seq![txs[last]]), rs) && lists_match(ds[last], rs);
        lemma_block_items_last(txs);
        lemma_records_append(spec_block_items(p), r0, spec_block_items(seq![txs[last]]), r1);
        lemma_walk_lists_append(r0, r1);
        assert(walk_joins(r0 + r1, ds));
    }
}

/// Whatever the indexer records of a block is made of records of its
/// transactions, each taken alone, walked one after another: every list
/// holds the first transaction's records of its kind, then the second's,
/// and so on (with `lemma_walk_lists_append`); a block without
/// transactions has every list empty.
pub proof fn lemma_block_data_splits(txs: Seq<BlockTransaction>, d: pb::Data)
    requires
        spec_program_data(txs, d),
    ensures
        exists|rss: Seq<Seq<WalkRecord>>|
            {
                &&& rss.len() == txs.len()
                &&& forall|i: int|
                    0 <= i < txs.len() ==> spec_records_of(spec_block_items(seq![txs[i]]), #[trigger] rss[i])
                &&& lists_match(d, spec_joined_records(rss))
            },
{
    let rs = choose|rs: Seq<WalkRecord>| spec_records_of(spec_block_items(txs), rs) && lists_match(d, rs);
    lemma_records_split_all(txs, rs);
}

proof fn lemma_records_split_all(txs: Seq<BlockTransaction>, rs: Seq<WalkRecord>)
    requires
        spec_records_of(spec_block_items(txs), rs),
    ensures
        exists|rss: Seq<Seq<WalkRecord>>|
            {
                &&& rss.len() == txs.len()
                &&& forall|i: int|
                    0 <= i < txs.len() ==> spec_records_of(spec_block_items(seq![txs[i]]), #[trigger] rss[i])
                &&& spec_joined_records(rss) == rs
            },
    decreases txs.len(),
{
    if txs.len() == 0 {
        let rss = Seq::<Seq<WalkRecord>>::empty();
        assert(rs =~= Seq::<WalkRecord>::empty());
        assert(spec_joined_records(rss) == rs);
    } else {
        let p = txs.drop_last();
        let a = spec_block_items(p);
        let b = spec_block_items(seq![txs.last()]);
        lemma_block_items_last(txs);
        lemma_records_split(a, b, rs);
        let n = a.len() as int;
        lemma_records_split_all(p, rs.take(n));
        let rss0 = choose|rss: Seq<Seq<WalkRecord>>|
            {
                &&& rss.len() == p.len()
                &&& forall|i: int|
                    0 <= i < p.len() ==> spec_records_of(spec_block_items(seq![p[i]]), #[trigger] rss[i])
                &&& spec_joined_records(rss) == rs.take(n)
            };
        let rss = rss0.push(rs.skip(n));
        assert(rss.drop_last() =~= rss0);
        assert forall|i: int| 0 <= i < txs.len() implies spec_records_of(spec_block_items(seq![txs[i]]), #[trigger] rss[i]) by {
            if i < p.len() {
                assert(txs[i] == p[i]);
                assert(rss[i] == rss0[i]);
            }
        }
        assert(spec_joined_records(rss) == rs);
    }
}


/// The `CancelReported` event as the program logs it (Borsh): its discriminator,
/// then its fields in declaration order, integers little-endian.
pub open spec fn spec_cancel_reported_event_bytes(order_id: [u8; 32]) -> Seq<u8> {
    CANCEL_REPORTED_EVENT_DISCRIMINATOR@ + order_id@
}

/// The program's `CancelReported` event, as logged, is indexed as a
/// `CancelReported` record of the transaction carrying each of the event's
/// fields (byte arrays widened, keys in base58, wide amounts truncated to
/// 64 bits).
pub proof fn lemma_cancel_reported_event_indexed(order_id: [u8; 32], trx: Seq<char>, r: Option<ProgramEvent>)
    requires
        spec_event_decoded(r, spec_cancel_reported_event_bytes(order_id), 0, trx),
    ensures
        r matches Some(ProgramEvent::CancelReported(p)) && {
            &&& p.trx_hash@ == trx
            &&& p.order_id@ == widen(order_id@)
        },
{
    let data = spec_cancel_reported_event_bytes(order_id);
    lemma_event_discriminators_distinct();
    lemma_layouts();
    lemma_le_round_trips();
    assert(data.len() == 40);
    assert(spec_disc_at(data, 0) =~= CANCEL_REPORTED_EVENT_DISCRIMINATOR@);
    assert(data.subrange(8, 40) =~= order_id@);
}

/// The `DestinationSupportUpdated` event as the program logs it (Borsh): its discriminator,
/// then its fields in declaration order, integers little-endian.
pub open spec fn spec_destination_support_updated_event_bytes(dest_chain_id: u32, is_supported: bool) -> Seq<u8> {
    DESTINATION_SUPPORT_UPDATED_EVENT_DISCRIMINATOR@ + le32(dest_chain_id) + seq![if is_supported { 1u8 } else { 0u8 }]
}

/// The program's `DestinationSupportUpdated` event, as logged, is indexed as a
/// `DestinationSupportUpdated` record of the transaction carrying each of the event's
/// fields (byte arrays widened, keys in base58, wide amounts truncated to
/// 64 bits).
pub proof fn lemma_destination_support_updated_event_indexed(dest_chain_id: u32, is_supported: bool, trx: Seq<char>, r: Option<ProgramEvent>)
    requires
        spec_event_decoded(r, spec_destination_support_updated_event_bytes(dest_chain_id, is_supported), 0, trx),
    ensures
        r matches Some(ProgramEvent::DestinationSupportUpdated(p)) && {
            &&& p.trx_hash@ == trx
            &&& p.dest_chain_id == dest_chain_id
            &&& p.is_supported == is_supported
        },
{
    let data = spec_destination_support_updated_event_bytes(dest_chain_id, is_supported);
    lemma_event_discriminators_distinct();
    lemma_layouts();
    lemma_le_round_trips();
    assert(data.len() == 13);
    assert(spec_disc_at(data, 0) =~= DESTINATION_SUPPORT_UPDATED_EVENT_DISCRIMINATOR@);
    assert(data.subrange(8, 12) =~= le32(dest_chain_id));
    assert(data[12] == (if is_supported { 1u8 } else { 0u8 }));
}

/// The `FillReported` event as the program logs it (Borsh): its discriminator,
/// then its fields in declaration order, integers little-endian.
pub open spec fn spec_fill_reported_event_bytes(order_id: [u8; 32], amount_in_to_release: u128, amount_out_filled: u128, origin_recipient: [u8; 32]) -> Seq<u8> {
    FILL_REPORTED_EVENT_DISCRIMINATOR@ + order_id@ + le128(amount_in_to_release) + le128(amount_out_filled) + origin_recipient@
}

/// The program's `FillReported` event, as logged, is indexed as a
/// `FillReported` record of the transaction carrying each of the event's
/// fields (byte arrays widened, keys in base58, wide amounts truncated to
/// 64 bits).
pub proof fn lemma_fill_reported_event_indexed(order_id: [u8; 32], amount_in_to_release: u128, amount_out_filled: u128, origin_recipient: [u8; 32], trx: Seq<char>, r: Option<ProgramEvent>)
    requires
        spec_event_decoded(r, spec_fill_reported_event_bytes(order_id, amount_in_to_release, amount_out_filled, origin_recipient), 0, trx),
    ensures
        r matches Some(ProgramEvent::FillReported(p)) && {
            &&& p.trx_hash@ == trx
            &&& p.order_id@ == widen(order_id@)
            &&& p.amount_in_to_release == amount_in_to_release as u64
            &&& p.amount_out_filled == amount_out_filled as u64
            &&& p.origin_recipient@ == widen(origin_recipient@)
        },
{
    let data = spec_fill_reported_event_bytes(order_id, amount_in_to_release, amount_out_filled, origin_recipient);
    lemma_event_discriminators_distinct();
    lemma_layouts();
    lemma_le_round_trips();
    assert(data.len() == 104);
    assert(spec_disc_at(data, 0) =~= FILL_REPORTED_EVENT_DISCRIMINATOR@);
    assert(data.subrange(8, 40) =~= order_id@);
    assert(data.subrange(40, 56) =~= le128(amount_in_to_release));
    assert(data.subrange(56, 72) =~= le128(amount_out_filled));
    assert(data.subrange(72, 104) =~= origin_recipient@);
}

/// The `OrderCancelled` event as the program logs it (Borsh): its discriminator,
/// then its fields in declaration order, integers little-endian.
pub open spec fn spec_order_cancelled_event_bytes(order_id: [u8; 32]) -> Seq<u8> {
    ORDER_CANCELLED_EVENT_DISCRIMINATOR@ + order_id@
}

/// The program's `OrderCancelled` event, as logged, is indexed as a
/// `OrderCancelled` record of the transaction carrying each of the event's
/// fields (byte arrays widened, keys in base58, wide amounts truncated to
/// 64 bits).
pub proof fn lemma_order_cancelled_event_indexed(order_id: [u8; 32], trx: Seq<char>, r: Option<ProgramEvent>)
    requires
        spec_event_decoded(r, spec_order_cancelled_event_bytes(order_id), 0, trx),
    ensures
        r matches Some(ProgramEvent::OrderCancelled(p)) && {
            &&& p.trx_hash@ == trx
            &&& p.order_id@ == widen(order_id@)
        },
{
    let data = spec_order_cancelled_event_bytes(order_id);
    lemma_event_discriminators_distinct();
    lemma_layouts();
    lemma_le_round_trips();
    assert(data.len() == 40);
    assert(spec_disc_at(data, 0) =~= ORDER_CANCELLED_EVENT_DISCRIMINATOR@);
    assert(data.subrange(8, 40) =~= order_id@);
}

/// The `OrderCompleted` event as the program logs it (Borsh): its discriminator,
/// then its fields in declaration order, integers little-endian.
pub open spec fn spec_order_completed_event_bytes(order_id: [u8; 32]) -> Seq<u8> {
    ORDER_COMPLETED_EVENT_DISCRIMINATOR@ + order_id@
}

/// The program's `OrderCompleted` event, as logged, is indexed as a
/// `OrderCompleted` record of the transaction carrying each of the event's
/// fields (byte arrays widened, keys in base58, wide amounts truncated to
/// 64 bits).
pub proof fn lemma_order_completed_event_indexed(order_id: [u8; 32], trx: Seq<char>, r: Option<ProgramEvent>)
    requires
        spec_event_decoded(r, spec_order_completed_event_bytes(order_id), 0, trx),
    ensures
        r matches Some(ProgramEvent::OrderCompleted(p)) && {
            &&& p.trx_hash@ == trx
            &&& p.order_id@ == widen(order_id@)
        },
{
    let data = spec_order_completed_event_bytes(order_id);
    lemma_event_discriminators_distinct();
    lemma_layouts();
    lemma_le_round_trips();
    assert(data.len() == 40);
    assert(spec_disc_at(data, 0) =~= ORDER_COMPLETED_EVENT_DISCRIMINATOR@);
    assert(data.subrange(8, 40) =~= order_id@);
}

/// The `OrderFilled` event as the program logs it (Borsh): its discriminator,
/// then its fields in declaration order, integers little-endian.
pub open spec fn spec_order_filled_event_bytes(order_id: [u8; 32], solver: [u8; 32], amount_in_to_release: u128, amount_out_filled: u128) -> Seq<u8> {
    ORDER_FILLED_EVENT_DISCRIMINATOR@ + order_id@ + solver@ + le128(amount_in_to_release) + le128(amount_out_filled)
}

/// The program's `OrderFilled` event, as logged, is indexed as a
/// `OrderFilled` record of the transaction carrying each of the event's
/// fields (byte arrays widened, keys in base58, wide amounts truncated to
/// 64 bits).
pub proof fn lemma_order_filled_event_indexed(order_id: [u8; 32], solver: [u8; 32], amount_in_to_release: u128, amount_out_filled: u128, trx: Seq<char>, r: Option<ProgramEvent>)
    requires
        spec_event_decoded(r, spec_order_filled_event_bytes(order_id, solver, amount_in_to_release, amount_out_filled), 0, trx),
    ensures
        r matches Some(ProgramEvent::OrderFilled(p)) && {
            &&& p.trx_hash@ == trx
            &&& p.order_id@ == widen(order_id@)
            &&& p.solver@ == spec_pubkey_string(solver@)
            &&& p.amount_in_to_release == amount_in_to_release as u64
            &&& p.amount_out_filled == amount_out_filled as u64
        },
{
    let data = spec_order_filled_event_bytes(order_id, solver, amount_in_to_release, amount_out_filled);
    lemma_event_discriminators_distinct();
    lemma_layouts();
    lemma_le_round_trips();
    assert(data.len() == 104);
    assert(spec_disc_at(data, 0) =~= ORDER_FILLED_EVENT_DISCRIMINATOR@);
    assert(data.subrange(8, 40) =~= order_id@);
    assert(data.subrange(40, 72) =~= solver@);
    assert(data.subrange(72, 88) =~= le128(amount_in_to_release));
    assert(data.subrange(88, 104) =~= le128(amount_out_filled));
}

/// The `OrderOpened` event as the program logs it (Borsh): its discriminator,
/// then its fields in declaration order, integers little-endian.
pub open spec fn spec_order_opened_event_bytes(order_id: [u8; 32], sender: [u8; 32], token_in: [u8; 32], amount_in: u64, dest_chain_id: u32, token_out: [u8; 32], amount_out: u128, solver: [u8; 32]) -> Seq<u8> {
    ORDER_OPENED_EVENT_DISCRIMINATOR@ + order_id@ + sender@ + token_in@ + le64(amount_in) + le32(dest_chain_id) + token_out@ + le128(amount_out) + solver@
}

/// The program's `OrderOpened` event, as logged, is indexed as a
/// `OrderOpened` record of the transaction carrying each of the event's
/// fields (byte arrays widened, keys in base58, wide amounts truncated to
/// 64 bits).
pub proof fn lemma_order_opened_event_indexed(order_id: [u8; 32], sender: [u8; 32], token_in: [u8; 32], amount_in: u64, dest_chain_id: u32, token_out: [u8; 32], amount_out: u128, solver: [u8; 32], trx: Seq<char>, r: Option<ProgramEvent>)
    requires
        spec_event_decoded(r, spec_order_opened_event_bytes(order_id, sender, token_in, amount_in, dest_chain_id, token_out, amount_out, solver), 0, trx),
    ensures
        r matches Some(ProgramEvent::OrderOpened(p)) && {
            &&& p.trx_hash@ == trx
            &&& p.order_id@ == widen(order_id@)
            &&& p.sender@ == spec_pubkey_string(sender@)
            &&& p.token_in@ == spec_pubkey_string(token_in@)
            &&& p.amount_in == amount_in
            &&& p.dest_chain_id == dest_chain_id
            &&& p.token_out@ == widen(token_out@)
            &&& p.amount_out == amount_out as u64
            &&& p.solver@ == widen(solver@)
        },
{
    let data = spec_order_opened_event_bytes(order_id, sender, token_in, amount_in, dest_chain_id, token_out, amount_out, solver);
    lemma_event_discriminators_distinct();
    lemma_layouts();
    lemma_le_round_trips();
    assert(data.len() == 196);
    assert(spec_disc_at(data, 0) =~= ORDER_OPENED_EVENT_DISCRIMINATOR@);
    assert(data.subrange(8, 40) =~= order_id@);
    assert(data.subrange(40, 72) =~= sender@);
    assert(data.subrange(72, 104) =~= token_in@);
    assert(data.subrange(104, 112) =~= le64(amount_in));
    assert(data.subrange(112, 116) =~= le32(dest_chain_id));
    assert(data.subrange(116, 148) =~= token_out@);
    assert(data.subrange(148, 164) =~= le128(amount_out));
    assert(data.subrange(164, 196) =~= solver@);
}

/// The `RefundClaimed` event as the program logs it (Borsh): its discriminator,
/// then its fields in declaration order, integers little-endian.
pub open spec fn spec_refund_claimed_event_bytes(order_id: [u8; 32], sender: [u8; 32], amount: u64) -> Seq<u8> {
    REFUND_CLAIMED_EVENT_DISCRIMINATOR@ + order_id@ + sender@ + le64(amount)
}

/// The program's `RefundClaimed` event, as logged, is indexed as a
/// `RefundClaimed` record of the transaction carrying each of the event's
/// fields (byte arrays widened, keys in base58, wide amounts truncated to
/// 64 bits).
pub proof fn lemma_refund_claimed_event_indexed(order_id: [u8; 32], sender: [u8; 32], amount: u64, trx: Seq<char>, r: Option<ProgramEvent>)
    requires
        spec_event_decoded(r, spec_refund_claimed_event_bytes(order_id, sender, amount), 0, trx),
    ensures
        r matches Some(ProgramEvent::RefundClaimed(p)) && {
            &&& p.trx_hash@ == trx
            &&& p.order_id@ == widen(order_id@)
            &&& p.sender@ == spec_pubkey_string(sender@)
            &&& p.amount == amount
        },
{
    let data = spec_refund_claimed_event_bytes(order_id, sender, amount);
    lemma_event_discriminators_distinct();
    lemma_layouts();
    lemma_le_round_trips();
    assert(data.len() == 80);
    assert(spec_disc_at(data, 0) =~= REFUND_CLAIMED_EVENT_DISCRIMINATOR@);
    assert(data.subrange(8, 40) =~= order_id@);
    assert(data.subrange(40, 72) =~= sender@);
    assert(data.subrange(72, 80) =~= le64(amount));
}


/// The record the indexer makes of a stored `OrderData` is the record
/// `map_option_order_data` makes of the `OrderData` those bytes hold.
pub proof fn lemma_order_data_record_maps_stored_value(p: pb::OrderData, v: OrderData, b: Seq<u8>, o: int)
    requires
        spec_pb_order_data_at(p, b, o),
        spec_order_data_at(b, o, v),
    ensures
        spec_pb_order_data_of(p, v),
{
}

/// The record the indexer makes of a stored `OrderParams` is the record
/// `map_option_order_params` makes of the `OrderParams` those bytes hold.
pub proof fn lemma_order_params_record_maps_stored_value(p: pb::OrderParams, v: OrderParams, b: Seq<u8>, o: int)
    requires
        spec_pb_order_params_at(p, b, o),
        spec_order_params_at(b, o, v),
    ensures
        spec_pb_order_params_of(p, v),
{
}

/// The record the indexer makes of a stored `FillParams` is the record
/// `map_option_fill_params` makes of the `FillParams` those bytes hold.
pub proof fn lemma_fill_params_record_maps_stored_value(p: pb::FillParams, v: FillParams, b: Seq<u8>, o: int)
    requires
        spec_pb_fill_params_at(p, b, o),
        spec_fill_params_at(b, o, v),
    ensures
        spec_pb_fill_params_of(p, v),
{
}

/// The record the indexer makes of a stored `CancelReport` is the record
/// `map_option_cancel_report` makes of the `CancelReport` those bytes hold.
pub proof fn lemma_cancel_report_record_maps_stored_value(p: pb::CancelReport, v: CancelReport, b: Seq<u8>, o: int)
    requires
        spec_pb_cancel_report_at(p, b, o),
        spec_cancel_report_at(b, o, v),
    ensures
        spec_pb_cancel_report_of(p, v),
{
}

/// The record the indexer makes of a stored `FillReport` is the record
/// `map_option_fill_report` makes of the `FillReport` those bytes hold.
pub proof fn lemma_fill_report_record_maps_stored_value(p: pb::FillReport, v: FillReport, b: Seq<u8>, o: int)
    requires
        spec_pb_fill_report_at(p, b, o),
        spec_fill_report_at(b, o, v),
    ensures
        spec_pb_fill_report_of(p, v),
{
}

/// The record the indexer makes of a stored `ForeignOrder` is the record
/// `map_option_foreign_order` makes of the `ForeignOrder` those bytes hold.
pub proof fn lemma_foreign_order_record_maps_stored_value(p: pb::ForeignOrder, v: ForeignOrder, b: Seq<u8>, o: int)
    requires
        spec_pb_foreign_order_at(p, b, o),
        spec_foreign_order_at(b, o, v),
    ensures
        spec_pb_foreign_order_of(p, v),
{
}

/// The record the indexer makes of a stored `NativeOrder` is the record
/// `map_option_native_order` makes of the `NativeOrder` those bytes hold.
pub proof fn lemma_native_order_record_maps_stored_value(p: pb::NativeOrder, v: NativeOrder, b: Seq<u8>, o: int)
    requires
        spec_pb_native_order_at(p, b, o),
        spec_native_order_at(b, o, v),
    ensures
        spec_pb_native_order_of(p, v),
{
}


/// The `add_destination` instruction data as the program reads it (Borsh): its
/// discriminator, then its arguments in order, integers little-endian.
pub open spec fn spec_add_destination_ix_bytes(dest_chain_id: u32) -> Seq<u8> {
    ADD_DESTINATION_DISCRIMINATOR@ + le32(dest_chain_id)
}

/// A `add_destination` instruction is indexed as a `AddDestination` record of the transaction
/// carrying each of its arguments (byte arrays widened, keys in base58,
/// nested values as their indexed records).
pub proof fn lemma_add_destination_ix_indexed(dest_chain_id: u32, trx: Seq<char>, accts: Seq<String>, r: Option<ProgramInstruction>)
    requires
        spec_instruction_decoded(r, spec_add_destination_ix_bytes(dest_chain_id), trx, accts),
    ensures
        r matches Some(ProgramInstruction::AddDestination(p)) && {
            &&& p.trx_hash@ == trx
            &&& p.dest_chain_id == dest_chain_id
        },
{
    let data = spec_add_destination_ix_bytes(dest_chain_id);
    lemma_instruction_discriminators_distinct();
    lemma_layouts();
    lemma_le_round_trips();
    assert(data.len() == 12);
    assert(spec_disc_at(data, 0) =~= ADD_DESTINATION_DISCRIMINATOR@);
    assert(data.subrange(8, 12) =~= le32(dest_chain_id));
}

/// The `remove_destination` instruction data as the program reads it (Borsh): its
/// discriminator, then its arguments in order, integers little-endian.
pub open spec fn spec_remove_destination_ix_bytes(dest_chain_id: u32) -> Seq<u8> {
    REMOVE_DESTINATION_DISCRIMINATOR@ + le32(dest_chain_id)
}

/// A `remove_destination` instruction is indexed as a `RemoveDestination` record of the transaction
/// carrying each of its arguments (byte arrays widened, keys in base58,
/// nested values as their indexed records).
pub proof fn lemma_remove_destination_ix_indexed(dest_chain_id: u32, trx: Seq<char>, accts: Seq<String>, r: Option<ProgramInstruction>)
    requires
        spec_instruction_decoded(r, spec_remove_destination_ix_bytes(dest_chain_id), trx, accts),
    ensures
        r matches Some(ProgramInstruction::RemoveDestination(p)) && {
            &&& p.trx_hash@ == trx
            &&& p.dest_chain_id == dest_chain_id
        },
{
    let data = spec_remove_destination_ix_bytes(dest_chain_id);
    lemma_instruction_discriminators_distinct();
    lemma_layouts();
    lemma_le_round_trips();
    assert(data.len() == 12);
    assert(spec_disc_at(data, 0) =~= REMOVE_DESTINATION_DISCRIMINATOR@);
    assert(data.subrange(8, 12) =~= le32(dest_chain_id));
}

/// The `cancel_native_order` instruction data as the program reads it (Borsh): its
/// discriminator, then its arguments in order, integers little-endian.
pub open spec fn spec_cancel_native_order_ix_bytes(order_id: [u8; 32]) -> Seq<u8> {
    CANCEL_NATIVE_ORDER_DISCRIMINATOR@ + order_id@
}

/// A `cancel_native_order` instruction is indexed as a `CancelNativeOrder` record of the transaction
/// carrying each of its arguments (byte arrays widened, keys in base58,
/// nested values as their indexed records).
pub proof fn lemma_cancel_native_order_ix_indexed(order_id: [u8; 32], trx: Seq<char>, accts: Seq<String>, r: Option<ProgramInstruction>)
    requires
        spec_instruction_decoded(r, spec_cancel_native_order_ix_bytes(order_id), trx, accts),
    ensures
        r matches Some(ProgramInstruction::CancelNativeOrder(p)) && {
            &&& p.trx_hash@ == trx
            &&& p.order_id@ == widen(order_id@)
        },
{
    let data = spec_cancel_native_order_ix_bytes(order_id);
    lemma_instruction_discriminators_distinct();
    lemma_layouts();
    lemma_le_round_trips();
    assert(data.len() == 40);
    assert(spec_disc_at(data, 0) =~= CANCEL_NATIVE_ORDER_DISCRIMINATOR@);
    assert(data.subrange(8, 40) =~= order_id@);
}

/// The `close_order_token_account` instruction data as the program reads it (Borsh): its
/// discriminator, then its arguments in order, integers little-endian.
pub open spec fn spec_close_order_token_account_ix_bytes(order_id: [u8; 32]) -> Seq<u8> {
    CLOSE_ORDER_TOKEN_ACCOUNT_DISCRIMINATOR@ + order_id@
}

/// A `close_order_token_account` instruction is indexed as a `CloseOrderTokenAccount` record of the transaction
/// carrying each of its arguments (byte arrays widened, keys in base58,
/// nested values as their indexed records).
pub proof fn lemma_close_order_token_account_ix_indexed(order_id: [u8; 32], trx: Seq<char>, accts: Seq<String>, r: Option<ProgramInstruction>)
    requires
        spec_instruction_decoded(r, spec_close_order_token_account_ix_bytes(order_id), trx, accts),
    ensures
        r matches Some(ProgramInstruction::CloseOrderTokenAccount(p)) && {
            &&& p.trx_hash@ == trx
            &&& p.order_id@ == widen(order_id@)
        },
{
    let data = spec_close_order_token_account_ix_bytes(order_id);
    lemma_instruction_discriminators_distinct();
    lemma_layouts();
    lemma_le_round_trips();
    assert(data.len() == 40);
    assert(spec_disc_at(data, 0) =~= CLOSE_ORDER_TOKEN_ACCOUNT_DISCRIMINATOR@);
    assert(data.subrange(8, 40) =~= order_id@);
}

/// The `initialize` instruction data as the program reads it (Borsh): its
/// discriminator, then its arguments in order, integers little-endian.
pub open spec fn spec_initialize_ix_bytes(chain_id: u32, portal_authority: [u8; 32]) -> Seq<u8> {
    INITIALIZE_DISCRIMINATOR@ + le32(chain_id) + portal_authority@
}

/// A `initialize` instruction is indexed as a `Initialize` record of the transaction
/// carrying each of its arguments (byte arrays widened, keys in base58,
/// nested values as their indexed records).
pub proof fn lemma_initialize_ix_indexed(chain_id: u32, portal_authority: [u8; 32], trx: Seq<char>, accts: Seq<String>, r: Option<ProgramInstruction>)
    requires
        spec_instruction_decoded(r, spec_initialize_ix_bytes(chain_id, portal_authority), trx, accts),
    ensures
        r matches Some(ProgramInstruction::Initialize(p)) && {
            &&& p.trx_hash@ == trx
            &&& p.chain_id == chain_id
            &&& p.portal_authority@ == spec_pubkey_string(portal_authority@)
        },
{
    let data = spec_initialize_ix_bytes(chain_id, portal_authority);
    lemma_instruction_discriminators_distinct();
    lemma_layouts();
    lemma_le_round_trips();
    assert(data.len() == 44);
    assert(spec_disc_at(data, 0) =~= INITIALIZE_DISCRIMINATOR@);
    assert(data.subrange(8, 12) =~= le32(chain_id));
    assert(data.subrange(12, 44) =~= portal_authority@);
}

/// The `set_new_admin` instruction data as the program reads it (Borsh): its
/// discriminator, then its arguments in order, integers little-endian.
pub open spec fn spec_set_new_admin_ix_bytes(new_admin: [u8; 32]) -> Seq<u8> {
    SET_NEW_ADMIN_DISCRIMINATOR@ + new_admin@
}

/// A `set_new_admin` instruction is indexed as a `SetNewAdmin` record of the transaction
/// carrying each of its arguments (byte arrays widened, keys in base58,
/// nested values as their indexed records).
pub proof fn lemma_set_new_admin_ix_indexed(new_admin: [u8; 32], trx: Seq<char>, accts: Seq<String>, r: Option<ProgramInstruction>)
    requires
        spec_instruction_decoded(r, spec_set_new_admin_ix_bytes(new_admin), trx, accts),
    ensures
        r matches Some(ProgramInstruction::SetNewAdmin(p)) && {
            &&& p.trx_hash@ == trx
            &&& p.new_admin@ == spec_pubkey_string(new_admin@)
        },
{
    let data = spec_set_new_admin_ix_bytes(new_admin);
    lemma_instruction_discriminators_distinct();
    lemma_layouts();
    lemma_le_round_trips();
    assert(data.len() == 40);
    assert(spec_disc_at(data, 0) =~= SET_NEW_ADMIN_DISCRIMINATOR@);
    assert(data.subrange(8, 40) =~= new_admin@);
}

/// The `set_portal_authority` instruction data as the program reads it (Borsh): its
/// discriminator, then its arguments in order, integers little-endian.
pub open spec fn spec_set_portal_authority_ix_bytes(portal_authority: [u8; 32]) -> Seq<u8> {
    SET_PORTAL_AUTHORITY_DISCRIMINATOR@ + portal_authority@
}

/// A `set_portal_authority` instruction is indexed as a `SetPortalAuthority` record of the transaction
/// carrying each of its arguments (byte arrays widened, keys in base58,
/// nested values as their indexed records).
pub proof fn lemma_set_portal_authority_ix_indexed(portal_authority: [u8; 32], trx: Seq<char>, accts: Seq<String>, r: Option<ProgramInstruction>)
    requires
        spec_instruction_decoded(r, spec_set_portal_authority_ix_bytes(portal_authority), trx, accts),
    ensures
        r matches Some(ProgramInstruction::SetPortalAuthority(p)) && {
            &&& p.trx_hash@ == trx
            &&& p.portal_authority@ == spec_pubkey_string(portal_authority@)
        },
{
    let data = spec_set_portal_authority_ix_bytes(portal_authority);
    lemma_instruction_discriminators_distinct();
    lemma_layouts();
    lemma_le_round_trips();
    assert(data.len() == 40);
    assert(spec_disc_at(data, 0) =~= SET_PORTAL_AUTHORITY_DISCRIMINATOR@);
    assert(data.subrange(8, 40) =~= portal_authority@);
}

/// The `report_order_cancel` instruction data as the program reads it (Borsh): its
/// discriminator, then its arguments in order, integers little-endian.
pub open spec fn spec_report_order_cancel_ix_bytes(source_chain_id: u32, cancel_report: CancelReport) -> Seq<u8> {
    REPORT_ORDER_CANCEL_DISCRIMINATOR@ + le32(source_chain_id) + spec_cancel_report_bytes(cancel_report)
}

/// A `report_order_cancel` instruction is indexed as a `ReportOrderCancel` record of the transaction
/// carrying each of its arguments (byte arrays widened, keys in base58,
/// nested values as their indexed records).
pub proof fn lemma_report_order_cancel_ix_indexed(source_chain_id: u32, cancel_report: CancelReport, trx: Seq<char>, accts: Seq<String>, r: Option<ProgramInstruction>)
    requires
        spec_instruction_decoded(r, spec_report_order_cancel_ix_bytes(source_chain_id, cancel_report), trx, accts),
    ensures
        r matches Some(ProgramInstruction::ReportOrderCancel(p)) && {
            &&& p.trx_hash@ == trx
            &&& p.source_chain_id == source_chain_id
            &&& p.cancel_report matches Some(q) && spec_pb_cancel_report_of(q, cancel_report)
        },
{
    let data = spec_report_order_cancel_ix_bytes(source_chain_id, cancel_report);
    lemma_instruction_discriminators_distinct();
    lemma_layouts();
    lemma_le_round_trips();
    assert(data.len() == 124);
    assert(spec_disc_at(data, 0) =~= REPORT_ORDER_CANCEL_DISCRIMINATOR@);
    assert(data.subrange(8, 12) =~= le32(source_chain_id));
    assert(data.subrange(12, 124) =~= spec_cancel_report_bytes(cancel_report));
    lemma_cancel_report_stored_at(data, 12, cancel_report);
    match r {
        Some(ProgramInstruction::ReportOrderCancel(p)) => {
            match p.cancel_report {
                Some(q) => lemma_cancel_report_record_maps_stored_value(q, cancel_report, data, 12),
                None => {},
            }
        },
        _ => {},
    }
}

/// The `report_order_fill` instruction data as the program reads it (Borsh): its
/// discriminator, then its arguments in order, integers little-endian.
pub open spec fn spec_report_order_fill_ix_bytes(source_chain_id: u32, fill_report: FillReport) -> Seq<u8> {
    REPORT_ORDER_FILL_DISCRIMINATOR@ + le32(source_chain_id) + spec_fill_report_bytes(fill_report)
}

/// A `report_order_fill` instruction is indexed as a `ReportOrderFill` record of the transaction
/// carrying each of its arguments (byte arrays widened, keys in base58,
/// nested values as their indexed records).
pub proof fn lemma_report_order_fill_ix_indexed(source_chain_id: u32, fill_report: FillReport, trx: Seq<char>, accts: Seq<String>, r: Option<ProgramInstruction>)
    requires
        spec_instruction_decoded(r, spec_report_order_fill_ix_bytes(source_chain_id, fill_report), trx, accts),
    ensures
        r matches Some(ProgramInstruction::ReportOrderFill(p)) && {
            &&& p.trx_hash@ == trx
            &&& p.source_chain_id == source_chain_id
            &&& p.fill_report matches Some(q) && spec_pb_fill_report_of(q, fill_report)
        },
{
    let data = spec_report_order_fill_ix_bytes(source_chain_id, fill_report);
    lemma_instruction_discriminators_distinct();
    lemma_layouts();
    lemma_le_round_trips();
    assert(data.len() == 140);
    assert(spec_disc_at(data, 0) =~= REPORT_ORDER_FILL_DISCRIMINATOR@);
    assert(data.subrange(8, 12) =~= le32(source_chain_id));
    assert(data.subrange(12, 140) =~= spec_fill_report_bytes(fill_report));
    lemma_fill_report_stored_at(data, 12, fill_report);
    match r {
        Some(ProgramInstruction::ReportOrderFill(p)) => {
            match p.fill_report {
                Some(q) => lemma_fill_report_record_maps_stored_value(q, fill_report, data, 12),
                None => {},
            }
        },
        _ => {},
    }
}

/// The `fill_foreign_order` instruction data as the program reads it (Borsh): its
/// discriminator, then its arguments in order, integers little-endian.
pub open spec fn spec_fill_foreign_order_ix_bytes(order_id: [u8; 32], order_data: OrderData, fill_params: FillParams) -> Seq<u8> {
    FILL_FOREIGN_ORDER_DISCRIMINATOR@ + order_id@ + spec_order_data_bytes(order_data) + spec_fill_params_bytes(fill_params)
}

/// A `fill_foreign_order` instruction is indexed as a `FillForeignOrder` record of the transaction
/// carrying each of its arguments (byte arrays widened, keys in base58,
/// nested values as their indexed records).
pub proof fn lemma_fill_foreign_order_ix_indexed(order_id: [u8; 32], order_data: OrderData, fill_params: FillParams, trx: Seq<char>, accts: Seq<String>, r: Option<ProgramInstruction>)
    requires
        spec_instruction_decoded(r, spec_fill_foreign_order_ix_bytes(order_id, order_data, fill_params), trx, accts),
    ensures
        r matches Some(ProgramInstruction::FillForeignOrder(p)) && {
            &&& p.trx_hash@ == trx
            &&& p.order_id@ == widen(order_id@)
            &&& p.order_data matches Some(q) && spec_pb_order_data_of(q, order_data)
            &&& p.fill_params matches Some(q) && spec_pb_fill_params_of(q, fill_params)
        },
{
    let data = spec_fill_foreign_order_ix_bytes(order_id, order_data, fill_params);
    lemma_instruction_discriminators_distinct();
    lemma_layouts();
    lemma_le_round_trips();
    assert(data.len() == 306);
    assert(spec_disc_at(data, 0) =~= FILL_FOREIGN_ORDER_DISCRIMINATOR@);
    assert(data.subrange(8, 40) =~= order_id@);
    assert(data.subrange(40, 266) =~= spec_order_data_bytes(order_data));
    lemma_order_data_stored_at(data, 40, order_data);
    assert(data.subrange(266, 306) =~= spec_fill_params_bytes(fill_params));
    lemma_fill_params_stored_at(data, 266, fill_params);
    match r {
        Some(ProgramInstruction::FillForeignOrder(p)) => {
            match p.order_data {
                Some(q) => lemma_order_data_record_maps_stored_value(q, order_data, data, 40),
                None => {},
            }
            match p.fill_params {
                Some(q) => lemma_fill_params_record_maps_stored_value(q, fill_params, data, 266),
                None => {},
            }
        },
        _ => {},
    }
}

/// The `fill_native_order` instruction data as the program reads it (Borsh): its
/// discriminator, then its arguments in order, integers little-endian.
pub open spec fn spec_fill_native_order_ix_bytes(order_id: [u8; 32], order_data: OrderData, fill_params: FillParams) -> Seq<u8> {
    FILL_NATIVE_ORDER_DISCRIMINATOR@ + order_id@ + spec_order_data_bytes(order_data) + spec_fill_params_bytes(fill_params)
}

/// A `fill_native_order` instruction is indexed as a `FillNativeOrder` record of the transaction
/// carrying each of its arguments (byte arrays widened, keys in base58,
/// nested values as their indexed records).
pub proof fn lemma_fill_native_order_ix_indexed(order_id: [u8; 32], order_data: OrderData, fill_params: FillParams, trx: Seq<char>, accts: Seq<String>, r: Option<ProgramInstruction>)
    requires
        spec_instruction_decoded(r, spec_fill_native_order_ix_bytes(order_id, order_data, fill_params), trx, accts),
    ensures
        r matches Some(ProgramInstruction::FillNativeOrder(p)) && {
            &&& p.trx_hash@ == trx
            &&& p.order_id@ == widen(order_id@)
            &&& p.order_data matches Some(q) && spec_pb_order_data_of(q, order_data)
            &&& p.fill_params matches Some(q) && spec_pb_fill_params_of(q, fill_params)
        },
{
    let data = spec_fill_native_order_ix_bytes(order_id, order_data, fill_params);
    lemma_instruction_discriminators_distinct();
    lemma_layouts();
    lemma_le_round_trips();
    assert(data.len() == 306);
    assert(spec_disc_at(data, 0) =~= FILL_NATIVE_ORDER_DISCRIMINATOR@);
    assert(data.subrange(8, 40) =~= order_id@);
    assert(data.subrange(40, 266) =~= spec_order_data_bytes(order_data));
    lemma_order_data_stored_at(data, 40, order_data);
    assert(data.subrange(266, 306) =~= spec_fill_params_bytes(fill_params));
    lemma_fill_params_stored_at(data, 266, fill_params);
    match r {
        Some(ProgramInstruction::FillNativeOrder(p)) => {
            match p.order_data {
                Some(q) => lemma_order_data_record_maps_stored_value(q, order_data, data, 40),
                None => {},
            }
            match p.fill_params {
                Some(q) => lemma_fill_params_record_maps_stored_value(q, fill_params, data, 266),
                None => {},
            }
        },
        _ => {},
    }
}

/// The `cancel_foreign_order` instruction data as the program reads it (Borsh): its
/// discriminator, then its arguments in order, integers little-endian.
pub open spec fn spec_cancel_foreign_order_ix_bytes(order_id: [u8; 32], order_data: OrderData) -> Seq<u8> {
    CANCEL_FOREIGN_ORDER_DISCRIMINATOR@ + order_id@ + spec_order_data_bytes(order_data)
}

/// A `cancel_foreign_order` instruction is indexed as a `CancelForeignOrder` record of the transaction
/// carrying each of its arguments (byte arrays widened, keys in base58,
/// nested values as their indexed records).
pub proof fn lemma_cancel_foreign_order_ix_indexed(order_id: [u8; 32], order_data: OrderData, trx: Seq<char>, accts: Seq<String>, r: Option<ProgramInstruction>)
    requires
        spec_instruction_decoded(r, spec_cancel_foreign_order_ix_bytes(order_id, order_data), trx, accts),
    ensures
        r matches Some(ProgramInstruction::CancelForeignOrder(p)) && {
            &&& p.trx_hash@ == trx
            &&& p.order_id@ == widen(order_id@)
            &&& p.order_data matches Some(q) && spec_pb_order_data_of(q, order_data)
        },
{
    let data = spec_cancel_foreign_order_ix_bytes(order_id, order_data);
    lemma_instruction_discriminators_distinct();
    lemma_layouts();
    lemma_le_round_trips();
    assert(data.len() == 266);
    assert(spec_disc_at(data, 0) =~= CANCEL_FOREIGN_ORDER_DISCRIMINATOR@);
    assert(data.subrange(8, 40) =~= order_id@);
    assert(data.subrange(40, 266) =~= spec_order_data_bytes(order_data));
    lemma_order_data_stored_at(data, 40, order_data);
    match r {
        Some(ProgramInstruction::CancelForeignOrder(p)) => {
            match p.order_data {
                Some(q) => lemma_order_data_record_maps_stored_value(q, order_data, data, 40),
                None => {},
            }
        },
        _ => {},
    }
}

/// The `open_order` instruction data as the program reads it (Borsh): its
/// discriminator, then its arguments in order, integers little-endian.
pub open spec fn spec_open_order_ix_bytes(params: OrderParams) -> Seq<u8> {
    OPEN_ORDER_DISCRIMINATOR@ + spec_order_params_bytes(params)
}

/// A `open_order` instruction is indexed as a `OpenOrder` record of the transaction
/// carrying each of its arguments (byte arrays widened, keys in base58,
/// nested values as their indexed records).
pub proof fn lemma_open_order_ix_indexed(params: OrderParams, trx: Seq<char>, accts: Seq<String>, r: Option<ProgramInstruction>)
    requires
        spec_instruction_decoded(r, spec_open_order_ix_bytes(params), trx, accts),
    ensures
        r matches Some(ProgramInstruction::OpenOrder(p)) && {
            &&& p.trx_hash@ == trx
            &&& p.params matches Some(q) && spec_pb_order_params_of(q, params)
        },
{
    let data = spec_open_order_ix_bytes(params);
    lemma_instruction_discriminators_distinct();
    lemma_layouts();
    lemma_le_round_trips();
    assert(data.len() == 148);
    assert(spec_disc_at(data, 0) =~= OPEN_ORDER_DISCRIMINATOR@);
    assert(data.subrange(8, 148) =~= spec_order_params_bytes(params));
    lemma_order_params_stored_at(data, 8, params);
    match r {
        Some(ProgramInstruction::OpenOrder(p)) => {
            match p.params {
                Some(q) => lemma_order_params_record_maps_stored_value(q, params, data, 8),
                None => {},
            }
        },
        _ => {},
    }
}

/// The `idl_instruction` instruction data as the program reads it (Borsh): its
/// discriminator, then its arguments in order, integers little-endian.
pub open spec fn spec_idl_instruction_ix_bytes(foreign: ForeignOrder, native: NativeOrder) -> Seq<u8> {
    IDL_INSTRUCTION_DISCRIMINATOR@ + spec_foreign_order_bytes(foreign) + spec_native_order_bytes(native)
}

/// A `idl_instruction` instruction is indexed as a `IdlInstruction` record of the transaction
/// carrying each of its arguments (byte arrays widened, keys in base58,
/// nested values as their indexed records).
pub proof fn lemma_idl_instruction_ix_indexed(foreign: ForeignOrder, native: NativeOrder, trx: Seq<char>, accts: Seq<String>, r: Option<ProgramInstruction>)
    requires
        spec_instruction_decoded(r, spec_idl_instruction_ix_bytes(foreign, native), trx, accts),
    ensures
        r matches Some(ProgramInstruction::IdlInstruction(p)) && {
            &&& p.trx_hash@ == trx
            &&& p.foreign matches Some(q) && spec_pb_foreign_order_of(q, foreign)
            &&& p.native matches Some(q) && spec_pb_native_order_of(q, native)
        },
{
    let data = spec_idl_instruction_ix_bytes(foreign, native);
    lemma_instruction_discriminators_distinct();
    lemma_layouts();
    lemma_le_round_trips();
    assert(data.len() == 360);
    assert(spec_disc_at(data, 0) =~= IDL_INSTRUCTION_DISCRIMINATOR@);
    assert(data.subrange(8, 57) =~= spec_foreign_order_bytes(foreign));
    lemma_foreign_order_stored_at(data, 8, foreign);
    assert(data.subrange(57, 360) =~= spec_native_order_bytes(native));
    lemma_native_order_stored_at(data, 57, native);
    match r {
        Some(ProgramInstruction::IdlInstruction(p)) => {
            match p.foreign {
                Some(q) => lemma_foreign_order_record_maps_stored_value(q, foreign, data, 8),
                None => {},
            }
            match p.native {
                Some(q) => lemma_native_order_record_maps_stored_value(q, native, data, 57),
                None => {},
            }
        },
        _ => {},
    }
}

} // verus!
