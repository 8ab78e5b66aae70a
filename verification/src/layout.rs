//! The byte layout (Borsh) of the order book program's account and
//! instruction types: how they are read from and written to bytes.
use crate::bytes::{append_bytes, le128, le16, le32, le64, lemma_layouts, push_u128_le, push_u16_le, push_u32_le, push_u64_le};
use crate::program::{CancelReport, FillParams, FillReport, ForeignOrder, NativeOrder, OrderData, OrderParams, OrderStatus};
use vstd::bytes::{spec_u128_from_le_bytes, spec_u16_from_le_bytes, spec_u32_from_le_bytes, spec_u64_from_le_bytes, u128_from_le_bytes, u16_from_le_bytes, u32_from_le_bytes, u64_from_le_bytes};
use vstd::prelude::*;

verus! {

/// The little-endian `u16` at `b[o..o + 2]`.
pub open spec fn rd_u16(b: Seq<u8>, o: int) -> u16 {
    spec_u16_from_le_bytes(b.subrange(o, o + 2))
}

/// The little-endian `u32` at `b[o..o + 4]`.
pub open spec fn rd_u32(b: Seq<u8>, o: int) -> u32 {
    spec_u32_from_le_bytes(b.subrange(o, o + 4))
}

/// The little-endian `u64` at `b[o..o + 8]`.
pub open spec fn rd_u64(b: Seq<u8>, o: int) -> u64 {
    spec_u64_from_le_bytes(b.subrange(o, o + 8))
}

/// The little-endian `u128` at `b[o..o + 16]`.
pub open spec fn rd_u128(b: Seq<u8>, o: int) -> u128 {
    spec_u128_from_le_bytes(b.subrange(o, o + 16))
}

/// The order status stored as the byte `x`: its variant index.
pub open spec fn spec_status_of_byte(x: u8) -> Option<OrderStatus> {
    if x == 0 {
        Some(OrderStatus::DoesNotExist)
    } else if x == 1 {
        Some(OrderStatus::Created)
    } else if x == 2 {
        Some(OrderStatus::Cancelled)
    } else if x == 3 {
        Some(OrderStatus::Completed)
    } else {
        None
    }
}

/// The boolean stored as the byte `x`: 0 and 1 only.
pub open spec fn spec_bool_of_byte(x: u8) -> Option<bool> {
    if x == 0 {
        Some(false)
    } else if x == 1 {
        Some(true)
    } else {
        None
    }
}

fn read_u16(data: &[u8], off: usize) -> (x: u16)
    requires
        off + 2 <= data@.len(),
    ensures
        x == rd_u16(data@, off as int),
{
    let _n = data.len();
    u16_from_le_bytes(&data[off..off + 2])
}

fn read_u32(data: &[u8], off: usize) -> (x: u32)
    requires
        off + 4 <= data@.len(),
    ensures
        x == rd_u32(data@, off as int),
{
    let _n = data.len();
    u32_from_le_bytes(&data[off..off + 4])
}

fn read_u64(data: &[u8], off: usize) -> (x: u64)
    requires
        off + 8 <= data@.len(),
    ensures
        x == rd_u64(data@, off as int),
{
    let _n = data.len();
    u64_from_le_bytes(&data[off..off + 8])
}

fn read_u128(data: &[u8], off: usize) -> (x: u128)
    requires
        off + 16 <= data@.len(),
    ensures
        x == rd_u128(data@, off as int),
{
    let _n = data.len();
    u128_from_le_bytes(&data[off..off + 16])
}

/// The 32 bytes at `data[off..off + 32]`.
pub fn read_key(data: &[u8], off: usize) -> (a: [u8; 32])
    requires
        off + 32 <= data@.len(),
    ensures
        a@ == data@.subrange(off as int, off + 32),
{
    let n = data.len();
    let mut a = [0u8; 32];
    for i in 0..32usize
        invariant
            n == data@.len(),
            off + 32 <= n,
            forall|j: int| 0 <= j < i ==> a@[j] == data@[off + j],
    {
        a[i] = data[off + i];
    }
    assert(a@ =~= data@.subrange(off as int, off + 32));
    a
}

fn read_status(data: &[u8], off: usize) -> (s: Option<OrderStatus>)
    requires
        off < data@.len(),
    ensures
        s == spec_status_of_byte(data@[off as int]),
{
    let x = data[off];
    if x == 0 {
        Some(OrderStatus::DoesNotExist)
    } else if x == 1 {
        Some(OrderStatus::Created)
    } else if x == 2 {
        Some(OrderStatus::Cancelled)
    } else if x == 3 {
        Some(OrderStatus::Completed)
    } else {
        None
    }
}

/// The boolean stored at `data[off]`, if the byte is 0 or 1.
pub fn read_bool(data: &[u8], off: usize) -> (v: Option<bool>)
    requires
        off < data@.len(),
    ensures
        v == spec_bool_of_byte(data@[off as int]),
{
    let x = data[off];
    if x == 0 {
        Some(false)
    } else if x == 1 {
        Some(true)
    } else {
        None
    }
}

/// Size in bytes of a stored `OrderData`.
pub const ORDER_DATA_LEN: usize = 226;

/// Whether `b[o..]` holds a readable `OrderData`.
pub open spec fn spec_order_data_fits(b: Seq<u8>, o: int) -> bool {
    0 <= o && o + 226 <= b.len()
}

/// Whether `v` is the `OrderData` stored at `b[o..]`.
pub open spec fn spec_order_data_at(b: Seq<u8>, o: int, v: OrderData) -> bool {
    &&& v.version == rd_u16(b, o)
    &&& v.sender@ == b.subrange(o + 2, o + 2 + 32)
    &&& v.nonce == rd_u64(b, o + 34)
    &&& v.origin_chain_id == rd_u32(b, o + 42)
    &&& v.dest_chain_id == rd_u32(b, o + 46)
    &&& v.created_at == rd_u64(b, o + 50)
    &&& v.fill_deadline == rd_u64(b, o + 58)
    &&& v.token_in@ == b.subrange(o + 66, o + 66 + 32)
    &&& v.token_out@ == b.subrange(o + 98, o + 98 + 32)
    &&& v.amount_in == rd_u128(b, o + 130)
    &&& v.amount_out == rd_u128(b, o + 146)
    &&& v.recipient@ == b.subrange(o + 162, o + 162 + 32)
    &&& v.solver@ == b.subrange(o + 194, o + 194 + 32)
}

/// Reads the `OrderData` stored at `data[off..]`, if the bytes hold one.
pub fn read_order_data(data: &[u8], off: usize) -> (r: Option<OrderData>)
    requires
        off <= data@.len(),
    ensures
        r is Some <==> spec_order_data_fits(data@, off as int),
        r matches Some(v) ==> spec_order_data_at(data@, off as int, v),
{
    if data.len() - off < 226 {
        return None;
    }
    let version = read_u16(data, off);
    let sender = read_key(data, off + 2);
    let nonce = read_u64(data, off + 34);
    let origin_chain_id = read_u32(data, off + 42);
    let dest_chain_id = read_u32(data, off + 46);
    let created_at = read_u64(data, off + 50);
    let fill_deadline = read_u64(data, off + 58);
    let token_in = read_key(data, off + 66);
    let token_out = read_key(data, off + 98);
    let amount_in = read_u128(data, off + 130);
    let amount_out = read_u128(data, off + 146);
    let recipient = read_key(data, off + 162);
    let solver = read_key(data, off + 194);
    Some(OrderData { version, sender, nonce, origin_chain_id, dest_chain_id, created_at, fill_deadline, token_in, token_out, amount_in, amount_out, recipient, solver })
}

/// The bytes a `OrderData` is stored as: its fields in declaration order,
/// integers little-endian.
pub open spec fn spec_order_data_bytes(v: OrderData) -> Seq<u8> {
    le16(v.version) + v.sender@ + le64(v.nonce) + le32(v.origin_chain_id) + le32(v.dest_chain_id) + le64(v.created_at) + le64(v.fill_deadline) + v.token_in@ + v.token_out@ + le128(v.amount_in) + le128(v.amount_out) + v.recipient@ + v.solver@
}

/// Appends the bytes of `v`.
pub fn write_order_data(out: &mut Vec<u8>, v: &OrderData)
    ensures
        final(out)@ == old(out)@ + spec_order_data_bytes(*v),
{
    push_u16_le(out, v.version);
    append_bytes(out, &v.sender);
    push_u64_le(out, v.nonce);
    push_u32_le(out, v.origin_chain_id);
    push_u32_le(out, v.dest_chain_id);
    push_u64_le(out, v.created_at);
    push_u64_le(out, v.fill_deadline);
    append_bytes(out, &v.token_in);
    append_bytes(out, &v.token_out);
    push_u128_le(out, v.amount_in);
    push_u128_le(out, v.amount_out);
    append_bytes(out, &v.recipient);
    append_bytes(out, &v.solver);
    proof {
        assert(final(out)@ =~= old(out)@ + spec_order_data_bytes(*v));
    }
}

/// Reading the stored bytes of a `OrderData` back gives the same value.
pub proof fn lemma_order_data_round_trip(v: OrderData, w: OrderData)
    ensures
        spec_order_data_bytes(v).len() == ORDER_DATA_LEN,
        spec_order_data_fits(spec_order_data_bytes(v), 0),
        spec_order_data_at(spec_order_data_bytes(v), 0, w) ==> w == v,
{
    lemma_layouts();
    lemma_le_round_trips();
    let b = spec_order_data_bytes(v);
    assert(b.len() == 226);
    assert(b.subrange(0, 2) =~= le16(v.version));
    assert(b.subrange(2, 34) =~= v.sender@);
    assert(b.subrange(34, 42) =~= le64(v.nonce));
    assert(b.subrange(42, 46) =~= le32(v.origin_chain_id));
    assert(b.subrange(46, 50) =~= le32(v.dest_chain_id));
    assert(b.subrange(50, 58) =~= le64(v.created_at));
    assert(b.subrange(58, 66) =~= le64(v.fill_deadline));
    assert(b.subrange(66, 98) =~= v.token_in@);
    assert(b.subrange(98, 130) =~= v.token_out@);
    assert(b.subrange(130, 146) =~= le128(v.amount_in));
    assert(b.subrange(146, 162) =~= le128(v.amount_out));
    assert(b.subrange(162, 194) =~= v.recipient@);
    assert(b.subrange(194, 226) =~= v.solver@);
    if spec_order_data_at(b, 0, w) {
        assert(w.sender =~= v.sender);
        assert(w.token_in =~= v.token_in);
        assert(w.token_out =~= v.token_out);
        assert(w.recipient =~= v.recipient);
        assert(w.solver =~= v.solver);
    }
}

/// Size in bytes of a stored `OrderParams`.
pub const ORDER_PARAMS_LEN: usize = 140;

/// Whether `b[o..]` holds a readable `OrderParams`.
pub open spec fn spec_order_params_fits(b: Seq<u8>, o: int) -> bool {
    0 <= o && o + 140 <= b.len()
}

/// Whether `v` is the `OrderParams` stored at `b[o..]`.
pub open spec fn spec_order_params_at(b: Seq<u8>, o: int, v: OrderParams) -> bool {
    &&& v.dest_chain_id == rd_u32(b, o)
    &&& v.created_at == rd_u64(b, o + 4)
    &&& v.fill_deadline == rd_u64(b, o + 12)
    &&& v.token_out@ == b.subrange(o + 20, o + 20 + 32)
    &&& v.amount_in == rd_u64(b, o + 52)
    &&& v.amount_out == rd_u128(b, o + 60)
    &&& v.recipient@ == b.subrange(o + 76, o + 76 + 32)
    &&& v.solver@ == b.subrange(o + 108, o + 108 + 32)
}

/// Reads the `OrderParams` stored at `data[off..]`, if the bytes hold one.
pub fn read_order_params(data: &[u8], off: usize) -> (r: Option<OrderParams>)
    requires
        off <= data@.len(),
    ensures
        r is Some <==> spec_order_params_fits(data@, off as int),
        r matches Some(v) ==> spec_order_params_at(data@, off as int, v),
{
    if data.len() - off < 140 {
        return None;
    }
    let dest_chain_id = read_u32(data, off);
    let created_at = read_u64(data, off + 4);
    let fill_deadline = read_u64(data, off + 12);
    let token_out = read_key(data, off + 20);
    let amount_in = read_u64(data, off + 52);
    let amount_out = read_u128(data, off + 60);
    let recipient = read_key(data, off + 76);
    let solver = read_key(data, off + 108);
    Some(OrderParams { dest_chain_id, created_at, fill_deadline, token_out, amount_in, amount_out, recipient, solver })
}

/// The bytes a `OrderParams` is stored as: its fields in declaration order,
/// integers little-endian.
pub open spec fn spec_order_params_bytes(v: OrderParams) -> Seq<u8> {
    le32(v.dest_chain_id) + le64(v.created_at) + le64(v.fill_deadline) + v.token_out@ + le64(v.amount_in) + le128(v.amount_out) + v.recipient@ + v.solver@
}

/// Appends the bytes of `v`.
pub fn write_order_params(out: &mut Vec<u8>, v: &OrderParams)
    ensures
        final(out)@ == old(out)@ + spec_order_params_bytes(*v),
{
    push_u32_le(out, v.dest_chain_id);
    push_u64_le(out, v.created_at);
    push_u64_le(out, v.fill_deadline);
    append_bytes(out, &v.token_out);
    push_u64_le(out, v.amount_in);
    push_u128_le(out, v.amount_out);
    append_bytes(out, &v.recipient);
    append_bytes(out, &v.solver);
    proof {
        assert(final(out)@ =~= old(out)@ + spec_order_params_bytes(*v));
    }
}

/// Reading the stored bytes of a `OrderParams` back gives the same value.
pub proof fn lemma_order_params_round_trip(v: OrderParams, w: OrderParams)
    ensures
        spec_order_params_bytes(v).len() == ORDER_PARAMS_LEN,
        spec_order_params_fits(spec_order_params_bytes(v), 0),
        spec_order_params_at(spec_order_params_bytes(v), 0, w) ==> w == v,
{
    lemma_layouts();
    lemma_le_round_trips();
    let b = spec_order_params_bytes(v);
    assert(b.len() == 140);
    assert(b.subrange(0, 4) =~= le32(v.dest_chain_id));
    assert(b.subrange(4, 12) =~= le64(v.created_at));
    assert(b.subrange(12, 20) =~= le64(v.fill_deadline));
    assert(b.subrange(20, 52) =~= v.token_out@);
    assert(b.subrange(52, 60) =~= le64(v.amount_in));
    assert(b.subrange(60, 76) =~= le128(v.amount_out));
    assert(b.subrange(76, 108) =~= v.recipient@);
    assert(b.subrange(108, 140) =~= v.solver@);
    if spec_order_params_at(b, 0, w) {
        assert(w.token_out =~= v.token_out);
        assert(w.recipient =~= v.recipient);
        assert(w.solver =~= v.solver);
    }
}

/// Size in bytes of a stored `FillParams`.
pub const FILL_PARAMS_LEN: usize = 40;

/// Whether `b[o..]` holds a readable `FillParams`.
pub open spec fn spec_fill_params_fits(b: Seq<u8>, o: int) -> bool {
    0 <= o && o + 40 <= b.len()
}

/// Whether `v` is the `FillParams` stored at `b[o..]`.
pub open spec fn spec_fill_params_at(b: Seq<u8>, o: int, v: FillParams) -> bool {
    &&& v.amount_out_to_fill == rd_u64(b, o)
    &&& v.origin_recipient@ == b.subrange(o + 8, o + 8 + 32)
}

/// Reads the `FillParams` stored at `data[off..]`, if the bytes hold one.
pub fn read_fill_params(data: &[u8], off: usize) -> (r: Option<FillParams>)
    requires
        off <= data@.len(),
    ensures
        r is Some <==> spec_fill_params_fits(data@, off as int),
        r matches Some(v) ==> spec_fill_params_at(data@, off as int, v),
{
    if data.len() - off < 40 {
        return None;
    }
    let amount_out_to_fill = read_u64(data, off);
    let origin_recipient = read_key(data, off + 8);
    Some(FillParams { amount_out_to_fill, origin_recipient })
}

/// Size in bytes of a stored `CancelReport`.
pub const CANCEL_REPORT_LEN: usize = 112;

/// Whether `b[o..]` holds a readable `CancelReport`.
pub open spec fn spec_cancel_report_fits(b: Seq<u8>, o: int) -> bool {
    0 <= o && o + 112 <= b.len()
}

/// Whether `v` is the `CancelReport` stored at `b[o..]`.
pub open spec fn spec_cancel_report_at(b: Seq<u8>, o: int, v: CancelReport) -> bool {
    &&& v.order_id@ == b.subrange(o, o + 32)
    &&& v.order_sender@ == b.subrange(o + 32, o + 32 + 32)
    &&& v.token_in@ == b.subrange(o + 64, o + 64 + 32)
    &&& v.amount_in_to_refund == rd_u128(b, o + 96)
}

/// Reads the `CancelReport` stored at `data[off..]`, if the bytes hold one.
pub fn read_cancel_report(data: &[u8], off: usize) -> (r: Option<CancelReport>)
    requires
        off <= data@.len(),
    ensures
        r is Some <==> spec_cancel_report_fits(data@, off as int),
        r matches Some(v) ==> spec_cancel_report_at(data@, off as int, v),
{
    if data.len() - off < 112 {
        return None;
    }
    let order_id = read_key(data, off);
    let order_sender = read_key(data, off + 32);
    let token_in = read_key(data, off + 64);
    let amount_in_to_refund = read_u128(data, off + 96);
    Some(CancelReport { order_id, order_sender, token_in, amount_in_to_refund })
}

/// Size in bytes of a stored `FillReport`.
pub const FILL_REPORT_LEN: usize = 128;

/// Whether `b[o..]` holds a readable `FillReport`.
pub open spec fn spec_fill_report_fits(b: Seq<u8>, o: int) -> bool {
    0 <= o && o + 128 <= b.len()
}

/// Whether `v` is the `FillReport` stored at `b[o..]`.
pub open spec fn spec_fill_report_at(b: Seq<u8>, o: int, v: FillReport) -> bool {
    &&& v.order_id@ == b.subrange(o, o + 32)
    &&& v.amount_in_to_release == rd_u128(b, o + 32)
    &&& v.amount_out_filled == rd_u128(b, o + 48)
    &&& v.origin_recipient@ == b.subrange(o + 64, o + 64 + 32)
    &&& v.token_in@ == b.subrange(o + 96, o + 96 + 32)
}

/// Reads the `FillReport` stored at `data[off..]`, if the bytes hold one.
pub fn read_fill_report(data: &[u8], off: usize) -> (r: Option<FillReport>)
    requires
        off <= data@.len(),
    ensures
        r is Some <==> spec_fill_report_fits(data@, off as int),
        r matches Some(v) ==> spec_fill_report_at(data@, off as int, v),
{
    if data.len() - off < 128 {
        return None;
    }
    let order_id = read_key(data, off);
    let amount_in_to_release = read_u128(data, off + 32);
    let amount_out_filled = read_u128(data, off + 48);
    let origin_recipient = read_key(data, off + 64);
    let token_in = read_key(data, off + 96);
    Some(FillReport { order_id, amount_in_to_release, amount_out_filled, origin_recipient, token_in })
}

/// Size in bytes of a stored `ForeignOrder`.
pub const FOREIGN_ORDER_LEN: usize = 49;

/// Whether `b[o..]` holds a readable `ForeignOrder`.
pub open spec fn spec_foreign_order_fits(b: Seq<u8>, o: int) -> bool {
    0 <= o && o + 49 <= b.len() && spec_status_of_byte(b[o]) is Some
}

/// Whether `v` is the `ForeignOrder` stored at `b[o..]`.
pub open spec fn spec_foreign_order_at(b: Seq<u8>, o: int, v: ForeignOrder) -> bool {
    &&& spec_status_of_byte(b[o]) == Some(v.status)
    &&& v.amount_in_released == rd_u128(b, o + 1)
    &&& v.amount_out_filled == rd_u128(b, o + 17)
    &&& v.amount_in_refunded == rd_u128(b, o + 33)
}

/// Reads the `ForeignOrder` stored at `data[off..]`, if the bytes hold one.
pub fn read_foreign_order(data: &[u8], off: usize) -> (r: Option<ForeignOrder>)
    requires
        off <= data@.len(),
    ensures
        r is Some <==> spec_foreign_order_fits(data@, off as int),
        r matches Some(v) ==> spec_foreign_order_at(data@, off as int, v),
{
    if data.len() - off < 49 {
        return None;
    }
    let status = match read_status(data, off) {
        Some(s) => s,
        None => {
            return None;
        },
    };
    let amount_in_released = read_u128(data, off + 1);
    let amount_out_filled = read_u128(data, off + 17);
    let amount_in_refunded = read_u128(data, off + 33);
    Some(ForeignOrder { status, amount_in_released, amount_out_filled, amount_in_refunded })
}

/// Size in bytes of a stored `NativeOrder`.
pub const NATIVE_ORDER_LEN: usize = 303;

/// Whether `b[o..]` holds a readable `NativeOrder`.
pub open spec fn spec_native_order_fits(b: Seq<u8>, o: int) -> bool {
    0 <= o && o + 303 <= b.len() && spec_status_of_byte(b[o]) is Some
}

/// Whether `v` is the `NativeOrder` stored at `b[o..]`.
pub open spec fn spec_native_order_at(b: Seq<u8>, o: int, v: NativeOrder) -> bool {
    &&& spec_status_of_byte(b[o]) == Some(v.status)
    &&& v.version == rd_u16(b, o + 1)
    &&& v.sender@ == b.subrange(o + 3, o + 3 + 32)
    &&& v.payer@ == b.subrange(o + 35, o + 35 + 32)
    &&& v.nonce == rd_u64(b, o + 67)
    &&& v.dest_chain_id == rd_u32(b, o + 75)
    &&& v.created_at == rd_u64(b, o + 79)
    &&& v.fill_deadline == rd_u64(b, o + 87)
    &&& v.token_in@ == b.subrange(o + 95, o + 95 + 32)
    &&& v.token_out@ == b.subrange(o + 127, o + 127 + 32)
    &&& v.amount_in == rd_u128(b, o + 159)
    &&& v.amount_out == rd_u128(b, o + 175)
    &&& v.recipient@ == b.subrange(o + 191, o + 191 + 32)
    &&& v.solver@ == b.subrange(o + 223, o + 223 + 32)
    &&& v.amount_in_released == rd_u128(b, o + 255)
    &&& v.amount_out_filled == rd_u128(b, o + 271)
    &&& v.amount_in_refunded == rd_u128(b, o + 287)
}

/// Reads the `NativeOrder` stored at `data[off..]`, if the bytes hold one.
pub fn read_native_order(data: &[u8], off: usize) -> (r: Option<NativeOrder>)
    requires
        off <= data@.len(),
    ensures
        r is Some <==> spec_native_order_fits(data@, off as int),
        r matches Some(v) ==> spec_native_order_at(data@, off as int, v),
{
    if data.len() - off < 303 {
        return None;
    }
    let status = match read_status(data, off) {
        Some(s) => s,
        None => {
            return None;
        },
    };
    let version = read_u16(data, off + 1);
    let sender = read_key(data, off + 3);
    let payer = read_key(data, off + 35);
    let nonce = read_u64(data, off + 67);
    let dest_chain_id = read_u32(data, off + 75);
    let created_at = read_u64(data, off + 79);
    let fill_deadline = read_u64(data, off + 87);
    let token_in = read_key(data, off + 95);
    let token_out = read_key(data, off + 127);
    let amount_in = read_u128(data, off + 159);
    let amount_out = read_u128(data, off + 175);
    let recipient = read_key(data, off + 191);
    let solver = read_key(data, off + 223);
    let amount_in_released = read_u128(data, off + 255);
    let amount_out_filled = read_u128(data, off + 271);
    let amount_in_refunded = read_u128(data, off + 287);
    Some(NativeOrder { status, version, sender, payer, nonce, dest_chain_id, created_at, fill_deadline, token_in, token_out, amount_in, amount_out, recipient, solver, amount_in_released, amount_out_filled, amount_in_refunded })
}

/// Reading the little-endian bytes of an integer gives the integer.
pub proof fn lemma_le_round_trips()
    ensures
        forall|x: u16| #[trigger] spec_u16_from_le_bytes(le16(x)) == x,
        forall|x: u32| #[trigger] spec_u32_from_le_bytes(le32(x)) == x,
        forall|x: u64| #[trigger] spec_u64_from_le_bytes(le64(x)) == x,
        forall|x: u128| #[trigger] spec_u128_from_le_bytes(le128(x)) == x,
{
    vstd::bytes::lemma_auto_spec_u16_to_from_le_bytes();
    vstd::bytes::lemma_auto_spec_u32_to_from_le_bytes();
    vstd::bytes::lemma_auto_spec_u64_to_from_le_bytes();
    vstd::bytes::lemma_auto_spec_u128_to_from_le_bytes();
    assert forall|x: u16| #[trigger] spec_u16_from_le_bytes(le16(x)) == x by {
        assert(le16(x).len() == 2);
    }
    assert forall|x: u32| #[trigger] spec_u32_from_le_bytes(le32(x)) == x by {
        assert(le32(x).len() == 4);
    }
    assert forall|x: u64| #[trigger] spec_u64_from_le_bytes(le64(x)) == x by {
        assert(le64(x).len() == 8);
    }
    assert forall|x: u128| #[trigger] spec_u128_from_le_bytes(le128(x)) == x by {
        assert(le128(x).len() == 16);
    }
}


/// The byte an order status is stored as: its variant index.
pub open spec fn spec_status_byte(s: OrderStatus) -> u8 {
    match s {
        OrderStatus::DoesNotExist => 0,
        OrderStatus::Created => 1,
        OrderStatus::Cancelled => 2,
        OrderStatus::Completed => 3,
    }
}

/// The Borsh bytes of a `FillParams`: its fields in declaration order, integers
/// little-endian, the status as its variant index.
pub open spec fn spec_fill_params_bytes(v: FillParams) -> Seq<u8> {
    le64(v.amount_out_to_fill) + v.origin_recipient@
}

/// Reading the Borsh bytes of a `FillParams` back gives the same value.
pub proof fn lemma_fill_params_round_trip(v: FillParams, w: FillParams)
    ensures
        spec_fill_params_bytes(v).len() == 40,
        spec_fill_params_fits(spec_fill_params_bytes(v), 0),
        spec_fill_params_at(spec_fill_params_bytes(v), 0, w) ==> w == v,
{
    lemma_layouts();
    lemma_le_round_trips();
    let b = spec_fill_params_bytes(v);
    assert(b.len() == 40);
    assert(b.subrange(0, 8) =~= le64(v.amount_out_to_fill));
    assert(b.subrange(8, 40) =~= v.origin_recipient@);
    if spec_fill_params_at(b, 0, w) {
        assert(w.origin_recipient =~= v.origin_recipient);
    }
}

/// The Borsh bytes of a `CancelReport`: its fields in declaration order, integers
/// little-endian, the status as its variant index.
pub open spec fn spec_cancel_report_bytes(v: CancelReport) -> Seq<u8> {
    v.order_id@ + v.order_sender@ + v.token_in@ + le128(v.amount_in_to_refund)
}

/// Reading the Borsh bytes of a `CancelReport` back gives the same value.
pub proof fn lemma_cancel_report_round_trip(v: CancelReport, w: CancelReport)
    ensures
        spec_cancel_report_bytes(v).len() == 112,
        spec_cancel_report_fits(spec_cancel_report_bytes(v), 0),
        spec_cancel_report_at(spec_cancel_report_bytes(v), 0, w) ==> w == v,
{
    lemma_layouts();
    lemma_le_round_trips();
    let b = spec_cancel_report_bytes(v);
    assert(b.len() == 112);
    assert(b.subrange(0, 32) =~= v.order_id@);
    assert(b.subrange(32, 64) =~= v.order_sender@);
    assert(b.subrange(64, 96) =~= v.token_in@);
    assert(b.subrange(96, 112) =~= le128(v.amount_in_to_refund));
    if spec_cancel_report_at(b, 0, w) {
        assert(w.order_id =~= v.order_id);
        assert(w.order_sender =~= v.order_sender);
        assert(w.token_in =~= v.token_in);
    }
}

/// The Borsh bytes of a `FillReport`: its fields in declaration order, integers
/// little-endian, the status as its variant index.
pub open spec fn spec_fill_report_bytes(v: FillReport) -> Seq<u8> {
    v.order_id@ + le128(v.amount_in_to_release) + le128(v.amount_out_filled) + v.origin_recipient@ + v.token_in@
}

/// Reading the Borsh bytes of a `FillReport` back gives the same value.
pub proof fn lemma_fill_report_round_trip(v: FillReport, w: FillReport)
    ensures
        spec_fill_report_bytes(v).len() == 128,
        spec_fill_report_fits(spec_fill_report_bytes(v), 0),
        spec_fill_report_at(spec_fill_report_bytes(v), 0, w) ==> w == v,
{
    lemma_layouts();
    lemma_le_round_trips();
    let b = spec_fill_report_bytes(v);
    assert(b.len() == 128);
    assert(b.subrange(0, 32) =~= v.order_id@);
    assert(b.subrange(32, 48) =~= le128(v.amount_in_to_release));
    assert(b.subrange(48, 64) =~= le128(v.amount_out_filled));
    assert(b.subrange(64, 96) =~= v.origin_recipient@);
    assert(b.subrange(96, 128) =~= v.token_in@);
    if spec_fill_report_at(b, 0, w) {
        assert(w.order_id =~= v.order_id);
        assert(w.origin_recipient =~= v.origin_recipient);
        assert(w.token_in =~= v.token_in);
    }
}

/// The Borsh bytes of a `ForeignOrder`: its fields in declaration order, integers
/// little-endian, the status as its variant index.
pub open spec fn spec_foreign_order_bytes(v: ForeignOrder) -> Seq<u8> {
    seq![spec_status_byte(v.status)] + le128(v.amount_in_released) + le128(v.amount_out_filled) + le128(v.amount_in_refunded)
}

/// Reading the Borsh bytes of a `ForeignOrder` back gives the same value.
pub proof fn lemma_foreign_order_round_trip(v: ForeignOrder, w: ForeignOrder)
    ensures
        spec_foreign_order_bytes(v).len() == 49,
        spec_foreign_order_fits(spec_foreign_order_bytes(v), 0),
        spec_foreign_order_at(spec_foreign_order_bytes(v), 0, w) ==> w == v,
{
    lemma_layouts();
    lemma_le_round_trips();
    let b = spec_foreign_order_bytes(v);
    assert(b.len() == 49);
    assert(b[0] == spec_status_byte(v.status));
    assert(b.subrange(1, 17) =~= le128(v.amount_in_released));
    assert(b.subrange(17, 33) =~= le128(v.amount_out_filled));
    assert(b.subrange(33, 49) =~= le128(v.amount_in_refunded));
    if spec_foreign_order_at(b, 0, w) {
    }
}

/// The Borsh bytes of a `NativeOrder`: its fields in declaration order, integers
/// little-endian, the status as its variant index.
pub open spec fn spec_native_order_bytes(v: NativeOrder) -> Seq<u8> {
    seq![spec_status_byte(v.status)] + le16(v.version) + v.sender@ + v.payer@ + le64(v.nonce) + le32(v.dest_chain_id) + le64(v.created_at) + le64(v.fill_deadline) + v.token_in@ + v.token_out@ + le128(v.amount_in) + le128(v.amount_out) + v.recipient@ + v.solver@ + le128(v.amount_in_released) + le128(v.amount_out_filled) + le128(v.amount_in_refunded)
}

/// Reading the Borsh bytes of a `NativeOrder` back gives the same value.
pub proof fn lemma_native_order_round_trip(v: NativeOrder, w: NativeOrder)
    ensures
        spec_native_order_bytes(v).len() == 303,
        spec_native_order_fits(spec_native_order_bytes(v), 0),
        spec_native_order_at(spec_native_order_bytes(v), 0, w) ==> w == v,
{
    lemma_layouts();
    lemma_le_round_trips();
    let b = spec_native_order_bytes(v);
    assert(b.len() == 303);
    assert(b[0] == spec_status_byte(v.status));
    assert(b.subrange(1, 3) =~= le16(v.version));
    assert(b.subrange(3, 35) =~= v.sender@);
    assert(b.subrange(35, 67) =~= v.payer@);
    assert(b.subrange(67, 75) =~= le64(v.nonce));
    assert(b.subrange(75, 79) =~= le32(v.dest_chain_id));
    assert(b.subrange(79, 87) =~= le64(v.created_at));
    assert(b.subrange(87, 95) =~= le64(v.fill_deadline));
    assert(b.subrange(95, 127) =~= v.token_in@);
    assert(b.subrange(127, 159) =~= v.token_out@);
    assert(b.subrange(159, 175) =~= le128(v.amount_in));
    assert(b.subrange(175, 191) =~= le128(v.amount_out));
    assert(b.subrange(191, 223) =~= v.recipient@);
    assert(b.subrange(223, 255) =~= v.solver@);
    assert(b.subrange(255, 271) =~= le128(v.amount_in_released));
    assert(b.subrange(271, 287) =~= le128(v.amount_out_filled));
    assert(b.subrange(287, 303) =~= le128(v.amount_in_refunded));
    if spec_native_order_at(b, 0, w) {
        assert(w.sender =~= v.sender);
        assert(w.payer =~= v.payer);
        assert(w.token_in =~= v.token_in);
        assert(w.token_out =~= v.token_out);
        assert(w.recipient =~= v.recipient);
        assert(w.solver =~= v.solver);
    }
}


/// Bytes that hold the Borsh bytes of a `OrderData` at `o` hold that `OrderData` there.
pub proof fn lemma_order_data_stored_at(b: Seq<u8>, o: int, v: OrderData)
    requires
        0 <= o,
        o + 226 <= b.len(),
        b.subrange(o, o + 226) == spec_order_data_bytes(v),
    ensures
        spec_order_data_at(b, o, v),
{
    lemma_layouts();
    lemma_le_round_trips();
    let e = spec_order_data_bytes(v);
    assert(b.subrange(o + 0, o + 2) =~= e.subrange(0, 2));
    assert(e.subrange(0, 2) =~= le16(v.version));
    assert(b.subrange(o + 2, o + 34) =~= e.subrange(2, 34));
    assert(e.subrange(2, 34) =~= v.sender@);
    assert(b.subrange(o + 34, o + 42) =~= e.subrange(34, 42));
    assert(e.subrange(34, 42) =~= le64(v.nonce));
    assert(b.subrange(o + 42, o + 46) =~= e.subrange(42, 46));
    assert(e.subrange(42, 46) =~= le32(v.origin_chain_id));
    assert(b.subrange(o + 46, o + 50) =~= e.subrange(46, 50));
    assert(e.subrange(46, 50) =~= le32(v.dest_chain_id));
    assert(b.subrange(o + 50, o + 58) =~= e.subrange(50, 58));
    assert(e.subrange(50, 58) =~= le64(v.created_at));
    assert(b.subrange(o + 58, o + 66) =~= e.subrange(58, 66));
    assert(e.subrange(58, 66) =~= le64(v.fill_deadline));
    assert(b.subrange(o + 66, o + 98) =~= e.subrange(66, 98));
    assert(e.subrange(66, 98) =~= v.token_in@);
    assert(b.subrange(o + 98, o + 130) =~= e.subrange(98, 130));
    assert(e.subrange(98, 130) =~= v.token_out@);
    assert(b.subrange(o + 130, o + 146) =~= e.subrange(130, 146));
    assert(e.subrange(130, 146) =~= le128(v.amount_in));
    assert(b.subrange(o + 146, o + 162) =~= e.subrange(146, 162));
    assert(e.subrange(146, 162) =~= le128(v.amount_out));
    assert(b.subrange(o + 162, o + 194) =~= e.subrange(162, 194));
    assert(e.subrange(162, 194) =~= v.recipient@);
    assert(b.subrange(o + 194, o + 226) =~= e.subrange(194, 226));
    assert(e.subrange(194, 226) =~= v.solver@);
}

/// Bytes that hold the Borsh bytes of a `OrderParams` at `o` hold that `OrderParams` there.
pub proof fn lemma_order_params_stored_at(b: Seq<u8>, o: int, v: OrderParams)
    requires
        0 <= o,
        o + 140 <= b.len(),
        b.subrange(o, o + 140) == spec_order_params_bytes(v),
    ensures
        spec_order_params_at(b, o, v),
{
    lemma_layouts();
    lemma_le_round_trips();
    let e = spec_order_params_bytes(v);
    assert(b.subrange(o + 0, o + 4) =~= e.subrange(0, 4));
    assert(e.subrange(0, 4) =~= le32(v.dest_chain_id));
    assert(b.subrange(o + 4, o + 12) =~= e.subrange(4, 12));
    assert(e.subrange(4, 12) =~= le64(v.created_at));
    assert(b.subrange(o + 12, o + 20) =~= e.subrange(12, 20));
    assert(e.subrange(12, 20) =~= le64(v.fill_deadline));
    assert(b.subrange(o + 20, o + 52) =~= e.subrange(20, 52));
    assert(e.subrange(20, 52) =~= v.token_out@);
    assert(b.subrange(o + 52, o + 60) =~= e.subrange(52, 60));
    assert(e.subrange(52, 60) =~= le64(v.amount_in));
    assert(b.subrange(o + 60, o + 76) =~= e.subrange(60, 76));
    assert(e.subrange(60, 76) =~= le128(v.amount_out));
    assert(b.subrange(o + 76, o + 108) =~= e.subrange(76, 108));
    assert(e.subrange(76, 108) =~= v.recipient@);
    assert(b.subrange(o + 108, o + 140) =~= e.subrange(108, 140));
    assert(e.subrange(108, 140) =~= v.solver@);
}

/// Bytes that hold the Borsh bytes of a `FillParams` at `o` hold that `FillParams` there.
pub proof fn lemma_fill_params_stored_at(b: Seq<u8>, o: int, v: FillParams)
    requires
        0 <= o,
        o + 40 <= b.len(),
        b.subrange(o, o + 40) == spec_fill_params_bytes(v),
    ensures
        spec_fill_params_at(b, o, v),
{
    lemma_layouts();
    lemma_le_round_trips();
    let e = spec_fill_params_bytes(v);
    assert(b.subrange(o + 0, o + 8) =~= e.subrange(0, 8));
    assert(e.subrange(0, 8) =~= le64(v.amount_out_to_fill));
    assert(b.subrange(o + 8, o + 40) =~= e.subrange(8, 40));
    assert(e.subrange(8, 40) =~= v.origin_recipient@);
}

/// Bytes that hold the Borsh bytes of a `CancelReport` at `o` hold that `CancelReport` there.
pub proof fn lemma_cancel_report_stored_at(b: Seq<u8>, o: int, v: CancelReport)
    requires
        0 <= o,
        o + 112 <= b.len(),
        b.subrange(o, o + 112) == spec_cancel_report_bytes(v),
    ensures
        spec_cancel_report_at(b, o, v),
{
    lemma_layouts();
    lemma_le_round_trips();
    let e = spec_cancel_report_bytes(v);
    assert(b.subrange(o + 0, o + 32) =~= e.subrange(0, 32));
    assert(e.subrange(0, 32) =~= v.order_id@);
    assert(b.subrange(o + 32, o + 64) =~= e.subrange(32, 64));
    assert(e.subrange(32, 64) =~= v.order_sender@);
    assert(b.subrange(o + 64, o + 96) =~= e.subrange(64, 96));
    assert(e.subrange(64, 96) =~= v.token_in@);
    assert(b.subrange(o + 96, o + 112) =~= e.subrange(96, 112));
    assert(e.subrange(96, 112) =~= le128(v.amount_in_to_refund));
}

/// Bytes that hold the Borsh bytes of a `FillReport` at `o` hold that `FillReport` there.
pub proof fn lemma_fill_report_stored_at(b: Seq<u8>, o: int, v: FillReport)
    requires
        0 <= o,
        o + 128 <= b.len(),
        b.subrange(o, o + 128) == spec_fill_report_bytes(v),
    ensures
        spec_fill_report_at(b, o, v),
{
    lemma_layouts();
    lemma_le_round_trips();
    let e = spec_fill_report_bytes(v);
    assert(b.subrange(o + 0, o + 32) =~= e.subrange(0, 32));
    assert(e.subrange(0, 32) =~= v.order_id@);
    assert(b.subrange(o + 32, o + 48) =~= e.subrange(32, 48));
    assert(e.subrange(32, 48) =~= le128(v.amount_in_to_release));
    assert(b.subrange(o + 48, o + 64) =~= e.subrange(48, 64));
    assert(e.subrange(48, 64) =~= le128(v.amount_out_filled));
    assert(b.subrange(o + 64, o + 96) =~= e.subrange(64, 96));
    assert(e.subrange(64, 96) =~= v.origin_recipient@);
    assert(b.subrange(o + 96, o + 128) =~= e.subrange(96, 128));
    assert(e.subrange(96, 128) =~= v.token_in@);
}

/// Bytes that hold the Borsh bytes of a `ForeignOrder` at `o` hold that `ForeignOrder` there.
pub proof fn lemma_foreign_order_stored_at(b: Seq<u8>, o: int, v: ForeignOrder)
    requires
        0 <= o,
        o + 49 <= b.len(),
        b.subrange(o, o + 49) == spec_foreign_order_bytes(v),
    ensures
        spec_foreign_order_at(b, o, v),
{
    lemma_layouts();
    lemma_le_round_trips();
    let e = spec_foreign_order_bytes(v);
    assert(b[o + 0] == e[0]);
    assert(e[0] == spec_status_byte(v.status));
    assert(b.subrange(o + 1, o + 17) =~= e.subrange(1, 17));
    assert(e.subrange(1, 17) =~= le128(v.amount_in_released));
    assert(b.subrange(o + 17, o + 33) =~= e.subrange(17, 33));
    assert(e.subrange(17, 33) =~= le128(v.amount_out_filled));
    assert(b.subrange(o + 33, o + 49) =~= e.subrange(33, 49));
    assert(e.subrange(33, 49) =~= le128(v.amount_in_refunded));
}

/// Bytes that hold the Borsh bytes of a `NativeOrder` at `o` hold that `NativeOrder` there.
pub proof fn lemma_native_order_stored_at(b: Seq<u8>, o: int, v: NativeOrder)
    requires
        0 <= o,
        o + 303 <= b.len(),
        b.subrange(o, o + 303) == spec_native_order_bytes(v),
    ensures
        spec_native_order_at(b, o, v),
{
    lemma_layouts();
    lemma_le_round_trips();
    let e = spec_native_order_bytes(v);
    assert(b[o + 0] == e[0]);
    assert(e[0] == spec_status_byte(v.status));
    assert(b.subrange(o + 1, o + 3) =~= e.subrange(1, 3));
    assert(e.subrange(1, 3) =~= le16(v.version));
    assert(b.subrange(o + 3, o + 35) =~= e.subrange(3, 35));
    assert(e.subrange(3, 35) =~= v.sender@);
    assert(b.subrange(o + 35, o + 67) =~= e.subrange(35, 67));
    assert(e.subrange(35, 67) =~= v.payer@);
    assert(b.subrange(o + 67, o + 75) =~= e.subrange(67, 75));
    assert(e.subrange(67, 75) =~= le64(v.nonce));
    assert(b.subrange(o + 75, o + 79) =~= e.subrange(75, 79));
    assert(e.subrange(75, 79) =~= le32(v.dest_chain_id));
    assert(b.subrange(o + 79, o + 87) =~= e.subrange(79, 87));
    assert(e.subrange(79, 87) =~= le64(v.created_at));
    assert(b.subrange(o + 87, o + 95) =~= e.subrange(87, 95));
    assert(e.subrange(87, 95) =~= le64(v.fill_deadline));
    assert(b.subrange(o + 95, o + 127) =~= e.subrange(95, 127));
    assert(e.subrange(95, 127) =~= v.token_in@);
    assert(b.subrange(o + 127, o + 159) =~= e.subrange(127, 159));
    assert(e.subrange(127, 159) =~= v.token_out@);
    assert(b.subrange(o + 159, o + 175) =~= e.subrange(159, 175));
    assert(e.subrange(159, 175) =~= le128(v.amount_in));
    assert(b.subrange(o + 175, o + 191) =~= e.subrange(175, 191));
    assert(e.subrange(175, 191) =~= le128(v.amount_out));
    assert(b.subrange(o + 191, o + 223) =~= e.subrange(191, 223));
    assert(e.subrange(191, 223) =~= v.recipient@);
    assert(b.subrange(o + 223, o + 255) =~= e.subrange(223, 255));
    assert(e.subrange(223, 255) =~= v.solver@);
    assert(b.subrange(o + 255, o + 271) =~= e.subrange(255, 271));
    assert(e.subrange(255, 271) =~= le128(v.amount_in_released));
    assert(b.subrange(o + 271, o + 287) =~= e.subrange(271, 287));
    assert(e.subrange(271, 287) =~= le128(v.amount_out_filled));
    assert(b.subrange(o + 287, o + 303) =~= e.subrange(287, 303));
    assert(e.subrange(287, 303) =~= le128(v.amount_in_refunded));
}

} // verus!
