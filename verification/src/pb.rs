//! The records the indexer extracts from the order book program's events
//! and instructions, and the names of order states.
use crate::text::str_equal;
use vstd::prelude::*;

verus! {

/// Everything the indexer extracted from one block, one list per kind of record.
#[derive(Clone, Debug, PartialEq, Eq)]
pub struct Data {
    pub cancel_reported_event_list: Vec<CancelReportedEvent>,
    pub destination_support_updated_event_list: Vec<DestinationSupportUpdatedEvent>,
    pub fill_reported_event_list: Vec<FillReportedEvent>,
    pub order_cancelled_event_list: Vec<OrderCancelledEvent>,
    pub order_completed_event_list: Vec<OrderCompletedEvent>,
    pub order_filled_event_list: Vec<OrderFilledEvent>,
    pub order_opened_event_list: Vec<OrderOpenedEvent>,
    pub refund_claimed_event_list: Vec<RefundClaimedEvent>,
    pub accept_admin_role_instruction_list: Vec<AcceptAdminRoleInstruction>,
    pub add_destination_instruction_list: Vec<AddDestinationInstruction>,
    pub cancel_foreign_order_instruction_list: Vec<CancelForeignOrderInstruction>,
    pub cancel_native_order_instruction_list: Vec<CancelNativeOrderInstruction>,
    pub clear_new_admin_instruction_list: Vec<ClearNewAdminInstruction>,
    pub close_order_token_account_instruction_list: Vec<CloseOrderTokenAccountInstruction>,
    pub fill_foreign_order_instruction_list: Vec<FillForeignOrderInstruction>,
    pub fill_native_order_instruction_list: Vec<FillNativeOrderInstruction>,
    pub idl_instruction_instruction_list: Vec<IdlInstructionInstruction>,
    pub initialize_instruction_list: Vec<InitializeInstruction>,
    pub open_order_instruction_list: Vec<OpenOrderInstruction>,
    pub pause_instruction_list: Vec<PauseInstruction>,
    pub remove_destination_instruction_list: Vec<RemoveDestinationInstruction>,
    pub report_order_cancel_instruction_list: Vec<ReportOrderCancelInstruction>,
    pub report_order_fill_instruction_list: Vec<ReportOrderFillInstruction>,
    pub set_new_admin_instruction_list: Vec<SetNewAdminInstruction>,
    pub set_portal_authority_instruction_list: Vec<SetPortalAuthorityInstruction>,
    pub unpause_instruction_list: Vec<UnpauseInstruction>,
}

/// A cancellation of an order was reported to its origin chain.
#[derive(Clone, Debug, PartialEq, Eq)]
pub struct CancelReportedEvent {
    pub trx_hash: String,
    pub order_id: Vec<u64>,
}

/// A destination chain was enabled or disabled.
#[derive(Clone, Debug, PartialEq, Eq)]
pub struct DestinationSupportUpdatedEvent {
    pub trx_hash: String,
    pub dest_chain_id: u32,
    pub is_supported: bool,
}

/// A fill of an order was reported to its origin chain.
#[derive(Clone, Debug, PartialEq, Eq)]
pub struct FillReportedEvent {
    pub trx_hash: String,
    pub order_id: Vec<u64>,
    pub amount_in_to_release: u64,
    pub amount_out_filled: u64,
    pub origin_recipient: Vec<u64>,
}

/// An order was cancelled.
#[derive(Clone, Debug, PartialEq, Eq)]
pub struct OrderCancelledEvent {
    pub trx_hash: String,
    pub order_id: Vec<u64>,
}

/// An order was completely filled.
#[derive(Clone, Debug, PartialEq, Eq)]
pub struct OrderCompletedEvent {
    pub trx_hash: String,
    pub order_id: Vec<u64>,
}

/// An order was (partly) filled by a solver.
#[derive(Clone, Debug, PartialEq, Eq)]
pub struct OrderFilledEvent {
    pub trx_hash: String,
    pub order_id: Vec<u64>,
    pub solver: String,
    pub amount_in_to_release: u64,
    pub amount_out_filled: u64,
}

/// An order was opened.
#[derive(Clone, Debug, PartialEq, Eq)]
pub struct OrderOpenedEvent {
    pub trx_hash: String,
    pub order_id: Vec<u64>,
    pub sender: String,
    pub token_in: String,
    pub amount_in: u64,
    pub dest_chain_id: u32,
    pub token_out: Vec<u64>,
    pub amount_out: u64,
    pub solver: Vec<u64>,
}

/// A sender claimed the refund of a cancelled order.
#[derive(Clone, Debug, PartialEq, Eq)]
pub struct RefundClaimedEvent {
    pub trx_hash: String,
    pub order_id: Vec<u64>,
    pub sender: String,
    pub amount: u64,
}

/// A pending admin accepted the admin role.
#[derive(Clone, Debug, PartialEq, Eq)]
pub struct AcceptAdminRoleInstruction {
    pub trx_hash: String,
    pub acct_new_admin: String,
    pub acct_global_account: String,
}

/// The admin enabled a destination chain.
#[derive(Clone, Debug, PartialEq, Eq)]
pub struct AddDestinationInstruction {
    pub trx_hash: String,
    pub dest_chain_id: u32,
    pub acct_admin: String,
    pub acct_global_account: String,
    pub acct_destination_account: String,
    pub acct_event_authority: String,
    pub acct_program: String,
}

/// A cancellation of an order opened on another chain.
#[derive(Clone, Debug, PartialEq, Eq)]
pub struct CancelForeignOrderInstruction {
    pub trx_hash: String,
    pub order_id: Vec<u64>,
    pub order_data: Option<OrderData>,
    pub acct_signer: String,
    pub acct_global_account: String,
    pub acct_order: String,
    pub acct_portal_global: String,
    pub acct_portal_authority: String,
    pub acct_bridge_adapter: String,
    pub acct_event_authority: String,
    pub acct_program: String,
}

/// A cancellation of an order opened on this chain.
#[derive(Clone, Debug, PartialEq, Eq)]
pub struct CancelNativeOrderInstruction {
    pub trx_hash: String,
    pub order_id: Vec<u64>,
    pub acct_signer: String,
    pub acct_sender: String,
    pub acct_global_account: String,
    pub acct_order: String,
    pub acct_token_in_mint: String,
    pub acct_sender_token_in_ata: String,
    pub acct_order_token_in_ata: String,
    pub acct_token_in_program: String,
    pub acct_event_authority: String,
    pub acct_program: String,
}

/// The admin withdrew a pending admin nomination.
#[derive(Clone, Debug, PartialEq, Eq)]
pub struct ClearNewAdminInstruction {
    pub trx_hash: String,
    pub acct_admin: String,
    pub acct_global_account: String,
}

/// The token account of a finalized order was closed.
#[derive(Clone, Debug, PartialEq, Eq)]
pub struct CloseOrderTokenAccountInstruction {
    pub trx_hash: String,
    pub order_id: Vec<u64>,
    pub acct_payer: String,
    pub acct_sender: String,
    pub acct_order: String,
    pub acct_token_in_mint: String,
    pub acct_order_token_in_ata: String,
    pub acct_recipient_token_account: String,
    pub acct_token_in_program: String,
}

/// A fill of an order opened on another chain.
#[derive(Clone, Debug, PartialEq, Eq)]
pub struct FillForeignOrderInstruction {
    pub trx_hash: String,
    pub order_id: Vec<u64>,
    pub order_data: Option<OrderData>,
    pub fill_params: Option<FillParams>,
    pub acct_solver: String,
    pub acct_global_account: String,
    pub acct_token_out_mint: String,
    pub acct_solver_token_out_account: String,
    pub acct_recipient: String,
    pub acct_recipient_token_out_ata: String,
    pub acct_token_out_program: String,
    pub acct_order: String,
    pub acct_portal_global: String,
    pub acct_portal_authority: String,
    pub acct_bridge_adapter: String,
    pub acct_event_authority: String,
    pub acct_program: String,
}

/// A fill of an order opened on this chain.
#[derive(Clone, Debug, PartialEq, Eq)]
pub struct FillNativeOrderInstruction {
    pub trx_hash: String,
    pub order_id: Vec<u64>,
    pub order_data: Option<OrderData>,
    pub fill_params: Option<FillParams>,
    pub acct_solver: String,
    pub acct_global_account: String,
    pub acct_token_out_mint: String,
    pub acct_solver_token_out_account: String,
    pub acct_recipient: String,
    pub acct_recipient_token_out_ata: String,
    pub acct_token_out_program: String,
    pub acct_order: String,
    pub acct_token_in_mint: String,
    pub acct_solver_token_in_account: String,
    pub acct_order_token_in_ata: String,
    pub acct_token_in_program: String,
    pub acct_event_authority: String,
    pub acct_program: String,
}

/// The instruction that publishes the order account layouts.
#[derive(Clone, Debug, PartialEq, Eq)]
pub struct IdlInstructionInstruction {
    pub trx_hash: String,
    pub foreign: Option<ForeignOrder>,
    pub native: Option<NativeOrder>,
}

/// The program was initialized.
#[derive(Clone, Debug, PartialEq, Eq)]
pub struct InitializeInstruction {
    pub trx_hash: String,
    pub chain_id: u32,
    pub portal_authority: String,
    pub acct_admin: String,
    pub acct_global_account: String,
}

/// An order was opened with the given parameters.
#[derive(Clone, Debug, PartialEq, Eq)]
pub struct OpenOrderInstruction {
    pub trx_hash: String,
    pub params: Option<OrderParams>,
    pub acct_payer: String,
    pub acct_token_authority: String,
    pub acct_global_account: String,
    pub acct_destination_account: String,
    pub acct_token_in_mint: String,
    pub acct_sender_token_in_account: String,
    pub acct_sender_nonce_account: String,
    pub acct_order: String,
    pub acct_order_token_in_ata: String,
    pub acct_token_in_program: String,
    pub acct_event_authority: String,
    pub acct_program: String,
}

/// The admin paused the program.
#[derive(Clone, Debug, PartialEq, Eq)]
pub struct PauseInstruction {
    pub trx_hash: String,
    pub acct_admin: String,
    pub acct_global_account: String,
}

/// The admin disabled a destination chain.
#[derive(Clone, Debug, PartialEq, Eq)]
pub struct RemoveDestinationInstruction {
    pub trx_hash: String,
    pub dest_chain_id: u32,
    pub acct_admin: String,
    pub acct_global_account: String,
    pub acct_destination_account: String,
    pub acct_event_authority: String,
    pub acct_program: String,
}

/// A relayed cancellation report was applied.
#[derive(Clone, Debug, PartialEq, Eq)]
pub struct ReportOrderCancelInstruction {
    pub trx_hash: String,
    pub source_chain_id: u32,
    pub cancel_report: Option<CancelReport>,
    pub acct_relayer: String,
    pub acct_portal_authority: String,
    pub acct_global_account: String,
    pub acct_order: String,
    pub acct_token_in_mint: String,
    pub acct_order_sender: String,
    pub acct_sender_token_in_ata: String,
    pub acct_order_token_in_ata: String,
    pub acct_token_in_program: String,
    pub acct_event_authority: String,
    pub acct_program: String,
}

/// A relayed fill report was applied.
#[derive(Clone, Debug, PartialEq, Eq)]
pub struct ReportOrderFillInstruction {
    pub trx_hash: String,
    pub source_chain_id: u32,
    pub fill_report: Option<FillReport>,
    pub acct_relayer: String,
    pub acct_portal_authority: String,
    pub acct_global_account: String,
    pub acct_order: String,
    pub acct_token_in_mint: String,
    pub acct_origin_recipient: String,
    pub acct_recipient_token_in_ata: String,
    pub acct_order_token_in_ata: String,
    pub acct_token_in_program: String,
    pub acct_event_authority: String,
    pub acct_program: String,
}

/// The admin nominated a new admin.
#[derive(Clone, Debug, PartialEq, Eq)]
pub struct SetNewAdminInstruction {
    pub trx_hash: String,
    pub new_admin: String,
    pub acct_admin: String,
    pub acct_global_account: String,
}

/// The admin set the portal authority.
#[derive(Clone, Debug, PartialEq, Eq)]
pub struct SetPortalAuthorityInstruction {
    pub trx_hash: String,
    pub portal_authority: String,
    pub acct_admin: String,
    pub acct_global_account: String,
}

/// The admin unpaused the program.
#[derive(Clone, Debug, PartialEq, Eq)]
pub struct UnpauseInstruction {
    pub trx_hash: String,
    pub acct_admin: String,
    pub acct_global_account: String,
}

/// The content of a cancellation report.
#[derive(Clone, Debug, PartialEq, Eq)]
pub struct CancelReport {
    pub order_id: Vec<u64>,
    pub order_sender: Vec<u64>,
    pub token_in: Vec<u64>,
    pub amount_in_to_refund: u64,
}

/// How much of an order a fill delivers, and to whom the input is released.
#[derive(Clone, Debug, PartialEq, Eq)]
pub struct FillParams {
    pub amount_out_to_fill: u64,
    pub origin_recipient: Vec<u64>,
}

/// The content of a fill report.
#[derive(Clone, Debug, PartialEq, Eq)]
pub struct FillReport {
    pub order_id: Vec<u64>,
    pub amount_in_to_release: u64,
    pub amount_out_filled: u64,
    pub origin_recipient: Vec<u64>,
    pub token_in: Vec<u64>,
}

/// The state kept for an order opened on another chain.
#[derive(Clone, Debug, PartialEq, Eq)]
pub struct ForeignOrder {
    pub status: i32,
    pub amount_in_released: u64,
    pub amount_out_filled: u64,
    pub amount_in_refunded: u64,
}

/// The state kept for an order opened on this chain.
#[derive(Clone, Debug, PartialEq, Eq)]
pub struct NativeOrder {
    pub status: i32,
    pub version: u64,
    pub sender: String,
    pub payer: String,
    pub nonce: u64,
    pub dest_chain_id: u32,
    pub created_at: u64,
    pub fill_deadline: u64,
    pub token_in: String,
    pub token_out: Vec<u64>,
    pub amount_in: u64,
    pub amount_out: u64,
    pub recipient: Vec<u64>,
    pub solver: Vec<u64>,
    pub amount_in_released: u64,
    pub amount_out_filled: u64,
    pub amount_in_refunded: u64,
}

/// The fields an order identifier is derived from.
#[derive(Clone, Debug, PartialEq, Eq)]
pub struct OrderData {
    pub version: u64,
    pub sender: Vec<u64>,
    pub nonce: u64,
    pub origin_chain_id: u32,
    pub dest_chain_id: u32,
    pub created_at: u64,
    pub fill_deadline: u64,
    pub token_in: Vec<u64>,
    pub token_out: Vec<u64>,
    pub amount_in: u64,
    pub amount_out: u64,
    pub recipient: Vec<u64>,
    pub solver: Vec<u64>,
}

/// The parameters an order is opened with.
#[derive(Clone, Debug, PartialEq, Eq)]
pub struct OrderParams {
    pub dest_chain_id: u32,
    pub created_at: u64,
    pub fill_deadline: u64,
    pub token_out: Vec<u64>,
    pub amount_in: u64,
    pub amount_out: u64,
    pub recipient: Vec<u64>,
    pub solver: Vec<u64>,
}

/// The state of an order, as indexed.
#[derive(Clone, Copy, Debug, PartialEq, Eq, Hash, PartialOrd, Ord)]
pub enum OrderStatusEnum {
    OrderStatusDoesNotExist,
    OrderStatusCreated,
    OrderStatusCancelled,
    OrderStatusCompleted,
}

/// The field name of each state in the schema.
pub open spec fn spec_status_name(s: OrderStatusEnum) -> Seq<char> {
    match s {
        OrderStatusEnum::OrderStatusDoesNotExist => "ORDER_STATUS_DOES_NOT_EXIST"@,
        OrderStatusEnum::OrderStatusCreated => "ORDER_STATUS_CREATED"@,
        OrderStatusEnum::OrderStatusCancelled => "ORDER_STATUS_CANCELLED"@,
        OrderStatusEnum::OrderStatusCompleted => "ORDER_STATUS_COMPLETED"@,
    }
}

/// The state whose schema field name is `name`, if any.
pub open spec fn spec_status_from_name(name: Seq<char>) -> Option<OrderStatusEnum> {
    if name == "ORDER_STATUS_DOES_NOT_EXIST"@ {
        Some(OrderStatusEnum::OrderStatusDoesNotExist)
    } else if name == "ORDER_STATUS_CREATED"@ {
        Some(OrderStatusEnum::OrderStatusCreated)
    } else if name == "ORDER_STATUS_CANCELLED"@ {
        Some(OrderStatusEnum::OrderStatusCancelled)
    } else if name == "ORDER_STATUS_COMPLETED"@ {
        Some(OrderStatusEnum::OrderStatusCompleted)
    } else {
        None
    }
}

/// The number each state is stored as.
pub open spec fn spec_status_number(s: OrderStatusEnum) -> i32 {
    match s {
        OrderStatusEnum::OrderStatusDoesNotExist => 0,
        OrderStatusEnum::OrderStatusCreated => 1,
        OrderStatusEnum::OrderStatusCancelled => 2,
        OrderStatusEnum::OrderStatusCompleted => 3,
    }
}

impl OrderStatusEnum {
    /// String value of the enum field names used in the schema definition.
    pub fn as_str_name(&self) -> (name: &'static str)
        ensures
            name@ == spec_status_name(*self),
    {
        match self {
            OrderStatusEnum::OrderStatusDoesNotExist => "ORDER_STATUS_DOES_NOT_EXIST",
            OrderStatusEnum::OrderStatusCreated => "ORDER_STATUS_CREATED",
            OrderStatusEnum::OrderStatusCancelled => "ORDER_STATUS_CANCELLED",
            OrderStatusEnum::OrderStatusCompleted => "ORDER_STATUS_COMPLETED",
        }
    }

    /// Creates an enum from field names used in the schema definition.
    pub fn from_str_name(value: &str) -> (r: Option<Self>)
        ensures
            r == spec_status_from_name(value@),
    {
        if str_equal(value, "ORDER_STATUS_DOES_NOT_EXIST") {
            Some(OrderStatusEnum::OrderStatusDoesNotExist)
        } else if str_equal(value, "ORDER_STATUS_CREATED") {
            Some(OrderStatusEnum::OrderStatusCreated)
        } else if str_equal(value, "ORDER_STATUS_CANCELLED") {
            Some(OrderStatusEnum::OrderStatusCancelled)
        } else if str_equal(value, "ORDER_STATUS_COMPLETED") {
            Some(OrderStatusEnum::OrderStatusCompleted)
        } else {
            None
        }
    }

    /// The number this state is stored as.
    pub fn number(&self) -> (n: i32)
        ensures
            n == spec_status_number(*self),
    {
        match self {
            OrderStatusEnum::OrderStatusDoesNotExist => 0,
            OrderStatusEnum::OrderStatusCreated => 1,
            OrderStatusEnum::OrderStatusCancelled => 2,
            OrderStatusEnum::OrderStatusCompleted => 3,
        }
    }
}

/// Reading a state's name back gives the state: the names are distinct.
pub proof fn lemma_status_name_round_trip(s: OrderStatusEnum)
    ensures
        spec_status_from_name(spec_status_name(s)) == Some(s),
{
    reveal_strlit("ORDER_STATUS_DOES_NOT_EXIST");
    reveal_strlit("ORDER_STATUS_CREATED");
    reveal_strlit("ORDER_STATUS_CANCELLED");
    reveal_strlit("ORDER_STATUS_COMPLETED");
    assert("ORDER_STATUS_DOES_NOT_EXIST"@.len() == 27);
    assert("ORDER_STATUS_CREATED"@.len() == 20);
    assert("ORDER_STATUS_CANCELLED"@.len() == 22);
    assert("ORDER_STATUS_COMPLETED"@.len() == 22);
    assert("ORDER_STATUS_CANCELLED"@[14] != "ORDER_STATUS_COMPLETED"@[14]);
}

} // verus!
