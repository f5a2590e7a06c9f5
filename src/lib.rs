//! Multi-provider race submission of one signed transaction to fast relay
//! services: region selection by probe latency, a circuit breaker per
//! provider, a fan-out dispatcher of `providers × attempts` submissions, the
//! permissive reading of the providers' answers, and the aggregation of every
//! attempt's outcome into a report.
use vstd::prelude::*;

pub mod dispatch;
pub mod elapsed;
pub mod health;
pub mod regions;
pub mod report;
pub mod response;
pub mod selector;
pub mod tip;
pub mod wire;

pub use dispatch::{
    dispatch_in_order, plan_submissions, AttemptOutcome, Dispatcher, SubmissionResult,
    SubmissionTask, SubmitError,
};
pub use elapsed::{format_elapsed, format_elapsed_parts};
pub use health::{ServiceHealth, COOLDOWN_MS, FAILURE_THRESHOLD};
pub use regions::{
    AstraRegionsType, AstraEndpoint, astra_endpoint, astra_regions, BRazorRegionsType, BRazorEndpoint, blockrazor_endpoint, blockrazor_regions, BxRouteRegionsType, BxRouteEndpoint, bloxroute_endpoint, bloxroute_regions, HeliusRegionsType, HeliusEndpoint, helius_endpoint, helius_regions, JitoRegionsType, JitoEndpoint, jito_endpoint, jito_regions, NextBlockRegionsType, NextBlockEndpoint, nextblock_endpoint, nextblock_regions, NozomiRegionsType, NozomiEndpoint, nozomi_endpoint, nozomi_regions, ZSlotRegionsType, ZSlotEndpoint, zero_slot_endpoint, zero_slot_regions,
};
pub use report::{aggregate, DispatchReport, ServiceStats};
pub use response::{classify_body, classify_response, MemberShape, ResponseKind};
pub use selector::{region_or_default, select_best, DEFAULT_REGION};
pub use tip::{compose_tip_instruction, ConfigError, TipPolicy, Tips};
pub use wire::{
    TransactionMessage, PostSubmitRequestEntry, SubmitBatchRequest, JsonRpcResponse, ServiceErrorResponse, SimpleErrorResponse, BlockRazorResponse, BloxRouteResponse, BloxRouteBatchResponse, BxRouteBatchSubmitTx, GetBundleStatusesResponse, GetBundleStatusesResult, Context, BundleStatus, ErrorWrapper,
};

verus! {

} // verus!
