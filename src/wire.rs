//! Request and response bodies of the relay providers' HTTP interfaces.
//!
//! These are the shapes that bodies are encoded to and decoded from; the
//! encoding itself happens at the edge of the library.
use vstd::prelude::*;
use serde_json::Value;

verus! {

/// serde_json's JSON value, carried through opaque.
#[verifier::external_type_specification]
#[verifier::external_body]
pub struct ExValue(Value);

/// A transaction in a bloXroute submission entry.
#[derive(Debug, Clone)]
pub struct TransactionMessage {
    pub content: String,
}

/// One entry of a bloXroute batch or snipe submission.
#[derive(Debug, Clone)]
pub struct PostSubmitRequestEntry {
    pub transaction: TransactionMessage,
    pub skip_pre_flight: bool,
}

/// A bloXroute batch or snipe submission.
#[derive(Debug, Clone)]
pub struct SubmitBatchRequest {
    pub entries: Vec<PostSubmitRequestEntry>,
    pub use_staked_rpcs: bool,
}

/// A JSON-RPC response; every member may be missing.
#[derive(Debug)]
pub struct JsonRpcResponse {
    pub jsonrpc: Option<String>,
    pub id: Option<u32>,
    pub result: Option<String>,
    pub error: Option<Value>,
}

/// An error body of the form `{error, instance, request-id}`.
#[derive(Debug, Clone)]
pub struct ServiceErrorResponse {
    pub error: Option<String>,
    pub instance: Option<String>,
    pub request_id: Option<String>,
}

/// An error body of the form `{code, message, details}`.
#[derive(Debug)]
pub struct SimpleErrorResponse {
    pub code: Option<i32>,
    pub message: Option<String>,
    pub details: Option<Vec<Value>>,
}

/// BlockRazor's answer to a submission.
#[derive(Debug, Clone)]
pub struct BlockRazorResponse {
    pub signature: String,
    pub error: Option<String>,
}

/// bloXroute's answer to a single submission.
#[derive(Debug, Clone)]
pub struct BloxRouteResponse {
    pub signature: String,
    pub error: Option<String>,
}

/// bloXroute's answer to a batch submission.
#[derive(Debug, Clone)]
pub struct BloxRouteBatchResponse {
    pub transactions: Vec<BxRouteBatchSubmitTx>,
}

/// bloXroute's answer for one transaction of a batch.
#[derive(Debug, Clone)]
pub struct BxRouteBatchSubmitTx {
    pub signature: String,
    pub error: Option<String>,
    pub submitted: bool,
}

/// Jito's answer to a bundle status query.
#[derive(Debug)]
pub struct GetBundleStatusesResponse {
    pub jsonrpc: String,
    pub id: u32,
    pub result: Option<GetBundleStatusesResult>,
}

/// The statuses of a bundle status query, at a slot.
#[derive(Debug)]
pub struct GetBundleStatusesResult {
    pub context: Context,
    pub value: Vec<BundleStatus>,
}

/// The slot at which a query was answered.
#[derive(Debug, Clone, Copy)]
pub struct Context {
    pub slot: u64,
}

/// The status of one bundle.
#[derive(Debug)]
pub struct BundleStatus {
    pub bundle_id: String,
    pub transactions: Vec<String>,
    pub slot: u64,
    pub confirmation_status: String,
    pub err: Option<ErrorWrapper>,
}

/// A bundle's error member, whose `Ok` member may hold anything.
#[derive(Debug)]
pub struct ErrorWrapper {
    pub ok: Option<Value>,
}

} // verus!
