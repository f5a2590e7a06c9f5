//! Tip instructions.
//!
//! Every provider is paid through a transfer appended to the transaction.
//! Composing a provider's instructions puts the optional compute-budget
//! instructions first, then the caller's own instructions unchanged, then
//! exactly one transfer of at least the provider's minimum tip to one of its
//! tip recipients.
#![allow(deprecated)]
use vstd::prelude::*;
use solana_sdk::compute_budget::ComputeBudgetInstruction;
use solana_sdk::instruction::{AccountMeta, Instruction};
use solana_sdk::pubkey::Pubkey;

verus! {

/// Solana's public key: 32 bytes, opaque here.
#[verifier::external_type_specification]
#[verifier::external_body]
pub struct ExPubkey(Pubkey);

/// Solana's account metadata, whose fields (`pubkey`, `is_signer`,
/// `is_writable`) are public and read here.
#[verifier::external_type_specification]
pub struct ExAccountMeta(AccountMeta);

/// Solana's instruction, whose fields (`program_id`, `accounts`, `data`) are
/// public and read here.
#[verifier::external_type_specification]
pub struct ExInstruction(Instruction);

/// Relies on `Pubkey`'s derived `Clone`: a copy of the same 32 bytes.
pub assume_specification[ <Pubkey as Clone>::clone ](p: &Pubkey) -> (r: Pubkey)
    ensures
        r == *p,
;

/// The public key made of the 32 bytes `bytes`, as `Pubkey::new_from_array`
/// makes it.
pub uninterp spec fn pubkey_of(bytes: Seq<u8>) -> Pubkey;

/// The bytes of the system program's id: 32 zeros (`111…1` in base 58).
pub open spec fn system_program_bytes() -> Seq<u8> {
    Seq::new(32, |i: int| 0u8)
}

/// The bytes of the compute-budget program's id (`ComputeBudget111…1` in
/// base 58).
pub open spec fn compute_budget_program_bytes() -> Seq<u8> {
    seq![
        3u8, 6, 70, 111, 229, 33, 23, 50, 255, 236, 173, 186, 114, 195, 155, 231, 188, 140, 229,
        187, 197, 247, 18, 107, 44, 67, 155, 58, 64, 0, 0, 0,
    ]
}

/// The system program's id.
pub open spec fn system_program_id() -> Pubkey {
    pubkey_of(system_program_bytes())
}

/// The compute-budget program's id.
pub open spec fn compute_budget_program_id() -> Pubkey {
    pubkey_of(compute_budget_program_bytes())
}

/// Little-endian bytes of a 32-bit integer.
pub open spec fn le_u32(x: u32) -> Seq<u8> {
    seq![
        (x % 0x100) as u8,
        ((x / 0x100) % 0x100) as u8,
        ((x / 0x1_0000) % 0x100) as u8,
        ((x / 0x100_0000) % 0x100) as u8,
    ]
}

/// Little-endian bytes of a 64-bit integer.
pub open spec fn le_u64(x: u64) -> Seq<u8> {
    le_u32((x % 0x1_0000_0000) as u32) + le_u32((x / 0x1_0000_0000) as u32)
}

/// Data of the compute-budget instruction that sets the unit limit.
pub open spec fn compute_limit_data(units: u32) -> Seq<u8> {
    seq![2u8] + le_u32(units)
}

/// Data of the compute-budget instruction that sets the unit price.
pub open spec fn compute_price_data(micro_lamports: u64) -> Seq<u8> {
    seq![3u8] + le_u64(micro_lamports)
}

/// Data of the system program's transfer instruction.
pub open spec fn transfer_data(lamports: u64) -> Seq<u8> {
    seq![2u8, 0u8, 0u8, 0u8] + le_u64(lamports)
}

/// Whether `ix` sets the compute unit limit to `units`.
pub open spec fn is_compute_limit(ix: Instruction, units: u32) -> bool {
    &&& ix.program_id == compute_budget_program_id()
    &&& ix.data@ == compute_limit_data(units)
    &&& ix.accounts@.len() == 0
}

/// Whether `ix` sets the compute unit price to `micro_lamports`.
pub open spec fn is_compute_price(ix: Instruction, micro_lamports: u64) -> bool {
    &&& ix.program_id == compute_budget_program_id()
    &&& ix.data@ == compute_price_data(micro_lamports)
    &&& ix.accounts@.len() == 0
}

/// Whether `ix` transfers `lamports` from `from`, which signs, to `to`.
pub open spec fn is_transfer(ix: Instruction, from: Pubkey, to: Pubkey, lamports: u64) -> bool {
    &&& ix.program_id == system_program_id()
    &&& ix.data@ == transfer_data(lamports)
    &&& ix.accounts@ == seq![
        AccountMeta { pubkey: from, is_signer: true, is_writable: true },
        AccountMeta { pubkey: to, is_signer: false, is_writable: true },
    ]
}

/// Relies on `ComputeBudgetInstruction::set_compute_unit_limit`: addressed to
/// the compute-budget program, discriminant 2 followed by the limit in
/// little-endian bytes, with no accounts.
pub assume_specification[ ComputeBudgetInstruction::set_compute_unit_limit ](units: u32) -> (r:
    Instruction)
    ensures
        r.program_id == pubkey_of(compute_budget_program_bytes()),
        is_compute_limit(r, units),
;

/// Relies on `ComputeBudgetInstruction::set_compute_unit_price`: addressed to
/// the compute-budget program, discriminant 3 followed by the price in
/// little-endian bytes, with no accounts.
pub assume_specification[ ComputeBudgetInstruction::set_compute_unit_price ](
    micro_lamports: u64,
) -> (r: Instruction)
    ensures
        r.program_id == pubkey_of(compute_budget_program_bytes()),
        is_compute_price(r, micro_lamports),
;

/// Relies on the system program's `transfer`: addressed to the system
/// program, with the bincode form of the
/// `Transfer` variant (index 2 as a little-endian `u32`, then the amount),
/// with the payer as a writable signer and the recipient as writable.
pub assume_specification[ solana_sdk::system_instruction::transfer ](
    from_pubkey: &Pubkey,
    to_pubkey: &Pubkey,
    lamports: u64,
) -> (r: Instruction)
    ensures
        r.program_id == pubkey_of(system_program_bytes()),
        is_transfer(r, *from_pubkey, *to_pubkey, lamports),
;

/// The key that the base-58 text `s` denotes, if it denotes one.
pub uninterp spec fn parsed_pubkey(s: Seq<char>) -> Option<Pubkey>;

/// Whether `s` is the base-58 text of a public key.
pub open spec fn is_pubkey_text(s: Seq<char>) -> bool {
    parsed_pubkey(s).is_some()
}

/// Relies on `Pubkey`'s `FromStr`: the key that the text denotes, or none
/// when it is not the base-58 text of 32 bytes.
#[verifier::external_body]
fn parse_pubkey(s: &str) -> (r: Option<Pubkey>)
    ensures
        r == parsed_pubkey(s@),
{
    s.parse::<Pubkey>().ok()
}

/// A provider's configuration is unusable.
#[derive(Debug, Clone, Copy, PartialEq, Eq)]
pub enum ConfigError {
    /// The tip recipient index lies outside the provider's table.
    TipIndexOutOfRange,
    /// The tip recipient at this index is not a public key.
    InvalidTipAccount(usize),
    /// The compute unit limit does not fit in 32 bits.
    ComputeUnitLimitTooLarge,
}

/// How a provider is tipped: the smallest tip it accepts, in lamports, and
/// its table of tip recipients.
#[derive(Debug, Clone)]
pub struct TipPolicy {
    pub min_tip_lamports: u64,
    pub recipients: Vec<Pubkey>,
}

impl TipPolicy {
    /// Builds a policy from the recipients' base-58 texts; the first text
    /// that is not a public key is reported by its index.
    pub fn from_accounts(min_tip_lamports: u64, accounts: &Vec<String>) -> (r: Result<
        TipPolicy,
        ConfigError,
    >)
        ensures
            r matches Ok(pol) ==> pol.min_tip_lamports == min_tip_lamports && pol.recipients@.len()
                == accounts@.len() && forall|i: int|
                0 <= i < accounts@.len() ==> Some(#[trigger] pol.recipients@[i]) == parsed_pubkey(
                    accounts@[i]@,
                ),
            r.is_ok() <==> forall|i: int| 0 <= i < accounts@.len() ==> is_pubkey_text(#[trigger] accounts@[i]@),
            r matches Err(e) ==> e matches ConfigError::InvalidTipAccount(i) && i < accounts@.len()
                && !is_pubkey_text(accounts@[i as int]@) && forall|j: int|
                0 <= j < i ==> is_pubkey_text(#[trigger] accounts@[j]@),
    {
        let mut recipients: Vec<Pubkey> = Vec::new();
        let mut i: usize = 0;
        while i < accounts.len()
            invariant
                i <= accounts@.len(),
                recipients@.len() == i,
                forall|j: int| 0 <= j < i ==> is_pubkey_text(#[trigger] accounts@[j]@),
                forall|j: int| 0 <= j < i ==> Some(#[trigger] recipients@[j]) == parsed_pubkey(accounts@[j]@),
            decreases accounts@.len() - i,
        {
            match parse_pubkey(accounts[i].as_str()) {
                Some(k) => recipients.push(k),
                None => {
                    return Err(ConfigError::InvalidTipAccount(i));
                },
            }
            i = i + 1;
        }
        Ok(TipPolicy { min_tip_lamports, recipients })
    }
}

/// What a caller asks of one submission's tip: the amount in lamports, the
/// index of the recipient in the provider's table, optional compute-budget
/// settings, the payer, and the caller's own instructions.
#[derive(Debug, Clone)]
pub struct Tips {
    pub tip_lamports: u64,
    pub tip_addr_idx: u8,
    pub cu: Option<u64>,
    pub priority_fee_micro_lamport: Option<u64>,
    pub payer: Pubkey,
    pub pure_ix: Vec<Instruction>,
}

/// The tip actually paid: the amount asked, raised to the provider's minimum.
pub open spec fn tip_paid(requested: u64, minimum: u64) -> u64 {
    if requested >= minimum {
        requested
    } else {
        minimum
    }
}

/// Number of compute-budget instructions that `tips` asks for.
pub open spec fn budget_count(tips: Tips) -> int {
    (if tips.cu.is_some() { 1int } else { 0int }) + (if tips.priority_fee_micro_lamport.is_some() {
        1int
    } else {
        0int
    })
}

/// Whether `ixs` is the instruction list that `tips` asks for under `policy`.
pub open spec fn is_tip_composition(ixs: Seq<Instruction>, policy: TipPolicy, tips: Tips) -> bool {
    let off = budget_count(tips);
    &&& ixs.len() == off + tips.pure_ix@.len() + 1
    &&& tips.cu matches Some(cu) ==> is_compute_limit(ixs[0], cu as u32)
    &&& tips.priority_fee_micro_lamport matches Some(fee) ==> is_compute_price(ixs[off - 1], fee)
    &&& forall|j: int| 0 <= j < tips.pure_ix@.len() ==> #[trigger] ixs[off + j] == tips.pure_ix@[j]
    &&& is_transfer(
        ixs[ixs.len() - 1],
        tips.payer,
        policy.recipients@[tips.tip_addr_idx as int],
        tip_paid(tips.tip_lamports, policy.min_tip_lamports),
    )
}

/// Whether `tips` asks for a compute unit limit that does not fit in 32
/// bits.
pub open spec fn limit_too_large(tips: Tips) -> bool {
    tips.cu matches Some(cu) && cu > u32::MAX
}

/// Composes the instructions of one submission to a provider: the compute
/// unit limit and price when asked for, the caller's instructions unchanged,
/// then one transfer of the tip, raised to the provider's minimum, from the
/// payer to the chosen recipient. Fails when the recipient index lies outside
/// the provider's table, and otherwise when the compute unit limit does not
/// fit in 32 bits.
pub fn compose_tip_instruction(policy: &TipPolicy, tips: Tips) -> (r: Result<
    Vec<Instruction>,
    ConfigError,
>)
    ensures
        r == Err::<Vec<Instruction>, ConfigError>(ConfigError::TipIndexOutOfRange) <==> tips.tip_addr_idx
            as int >= policy.recipients@.len(),
        r == Err::<Vec<Instruction>, ConfigError>(ConfigError::ComputeUnitLimitTooLarge) <==> (
        tips.tip_addr_idx as int) < policy.recipients@.len() && limit_too_large(tips),
        r.is_ok() <==> (tips.tip_addr_idx as int) < policy.recipients@.len() && !limit_too_large(
            tips,
        ),
        r matches Ok(ixs) ==> is_tip_composition(ixs@, *policy, tips),
{
    let idx = tips.tip_addr_idx as usize;
    if idx >= policy.recipients.len() {
        return Err(ConfigError::TipIndexOutOfRange);
    }
    if let Some(units) = tips.cu {
        if units > u32::MAX as u64 {
            return Err(ConfigError::ComputeUnitLimitTooLarge);
        }
    }
    let Tips { tip_lamports, tip_addr_idx: _, cu, priority_fee_micro_lamport, payer, pure_ix } = tips;
    let mut ixs: Vec<Instruction> = Vec::new();
    if let Some(units) = cu {
        ixs.push(ComputeBudgetInstruction::set_compute_unit_limit(units as u32));
    }
    if let Some(fee) = priority_fee_micro_lamport {
        ixs.push(ComputeBudgetInstruction::set_compute_unit_price(fee));
    }
    let ghost budget = ixs@;
    let mut extra = pure_ix;
    ixs.append(&mut extra);
    let amount = if tip_lamports >= policy.min_tip_lamports {
        tip_lamports
    } else {
        policy.min_tip_lamports
    };
    let recipient = policy.recipients[idx];
    ixs.push(solana_sdk::system_instruction::transfer(&payer, &recipient, amount));
    proof {
        assert(ixs@.subrange(0, budget.len() as int) =~= budget);
    }
    Ok(ixs)
}

/// The transfer that ends a composition is never below the provider's
/// minimum: a smaller tip is raised to the minimum, a larger one is paid
/// exactly as asked.
pub proof fn lemma_tip_floor(ixs: Seq<Instruction>, policy: TipPolicy, tips: Tips)
    requires
        is_tip_composition(ixs, policy, tips),
    ensures
        tips.tip_lamports < policy.min_tip_lamports ==> ixs.last().data@ == transfer_data(
            policy.min_tip_lamports,
        ),
        tips.tip_lamports >= policy.min_tip_lamports ==> ixs.last().data@ == transfer_data(
            tips.tip_lamports,
        ),
        tip_paid(tips.tip_lamports, policy.min_tip_lamports) >= policy.min_tip_lamports,
{
}

} // verus!
