//! The pump AMM program: swaps, pool creation and liquidity changes.
//!
//! An instruction of the program names what happened; the figures come from
//! the event record that the program emits for it, found as a CPI echo among
//! the instruction's children or, failing that, in the transaction's data logs.
use vstd::prelude::*;
use crate::bytes::{is_key, DecodeError, Pubkey};
use crate::codec::base58_of;
use crate::logs::{data_log, line_bytes};
use crate::source::{find_echo, find_log, first_echo, first_log};
use crate::tree::{flat, flatten, Failure, Instruction, Transaction, Block};
use instruction::{spec_unpack_status, InstructionKind, PumpfunAmmInstruction};
use instructions_cpi::{
    BuyCpiInstruction, CreatePoolCpiInstruction, PumpfunAmmCpiInstruction, SellCpiInstruction,
    BUY_EVENT_TAG, CREATE_POOL_EVENT_TAG, DEPOSIT_EVENT_TAG, SELL_EVENT_TAG, WITHDRAW_EVENT_TAG,
};
use log::PumpfunAmmLog;

pub mod instruction;
pub mod instructions_cpi;
pub mod log;

verus! {

pub const PUMPFUN_AMM_PROGRAM_ID: [u8; 32] = [
    12, 20, 222, 252, 130, 94, 198, 118, 148, 37, 8, 24, 187, 101, 64, 101, 244, 41, 141, 49, 86,
    213, 113, 180, 212, 248, 9, 12, 24, 233, 168, 99,
];

/// A pool was created.
#[derive(Debug, Clone, Copy)]
pub struct CreatePoolEvent {
    pub pool: Pubkey,
    pub creator: Pubkey,
    pub coin_creator: Pubkey,
    pub base_mint: Pubkey,
    pub quote_mint: Pubkey,
    pub base_mint_decimals: u32,
    pub quote_mint_decimals: u32,
    pub base_amount_in: Option<u64>,
    pub quote_amount_in: Option<u64>,
    pub pool_base_amount: Option<u64>,
    pub pool_quote_amount: Option<u64>,
    pub timestamp: i64,
}

/// A trade against a pool; `is_buy` tells its direction.
#[derive(Debug, Clone, Copy)]
pub struct SwapEvent {
    pub user: Pubkey,
    pub mint: Pubkey,
    pub bonding_curve: Pubkey,
    pub min_quote_amount_out: u64,
    pub base_amount_in: u64,
    pub is_buy: bool,
    pub virtual_sol_reserves: Option<u64>,
    pub virtual_token_reserves: Option<u64>,
    pub real_sol_reserves: Option<u64>,
    pub real_token_reserves: Option<u64>,
    pub user_token_pre_balance: Option<u64>,
    pub protocol_fee: Option<u64>,
    pub coin_creator_fee: Option<u64>,
    pub timestamp: i64,
}

impl SwapEvent {
    /// The side the trader received: `token` for a buy, `sol` for a sell.
    pub fn direction(&self) -> (r: &'static str)
        ensures
            r@ == (if self.is_buy {
                "token"@
            } else {
                "sol"@
            }),
    {
        if self.is_buy {
            "token"
        } else {
            "sol"
        }
    }
}

/// Liquidity added to (`is_add`) or removed from a pool.
#[derive(Debug, Clone, Copy)]
pub struct LiquidityEvent {
    pub pool: Pubkey,
    pub user: Pubkey,
    pub is_add: bool,
    pub pool_base_token_reserves: Option<u64>,
    pub pool_quote_token_reserves: Option<u64>,
}

#[derive(Debug, Clone, Copy)]
pub enum Event {
    CreatePool(CreatePoolEvent),
    Swap(SwapEvent),
    Liquidity(LiquidityEvent),
}

/// The events of one transaction, under its signature.
#[derive(Debug)]
pub struct PumpfunAmmTransactionEvents {
    pub signature: String,
    pub events: Vec<Event>,
}

/// The accounts that a swap names, by position.
#[derive(Debug, Clone, Copy)]
pub struct SwapAccounts {
    pub pool: Pubkey,
    pub user: Pubkey,
    pub base_mint: Pubkey,
}

/// The accounts that a deposit or withdrawal names, by position.
#[derive(Debug, Clone, Copy)]
pub struct LiquidityAccounts {
    pub pool: Pubkey,
    pub user: Pubkey,
}

/// Pool at position 0, user at 1, base mint at 3.
pub open spec fn spec_swap_accounts(a: Seq<Pubkey>) -> Result<SwapAccounts, DecodeError> {
    if a.len() < 4 {
        Err(DecodeError::AccountIndexOutOfRange)
    } else {
        Ok(SwapAccounts { pool: a[0], user: a[1], base_mint: a[3] })
    }
}

/// Pool at position 0, user at 2.
pub open spec fn spec_liquidity_accounts(a: Seq<Pubkey>) -> Result<LiquidityAccounts, DecodeError> {
    if a.len() < 3 {
        Err(DecodeError::AccountIndexOutOfRange)
    } else {
        Ok(LiquidityAccounts { pool: a[0], user: a[2] })
    }
}

pub fn swap_accounts(ix: &Instruction) -> (r: Result<SwapAccounts, DecodeError>)
    ensures
        r == spec_swap_accounts(ix.accounts@),
        r is Ok <==> ix.accounts@.len() >= 4,
{
    if ix.accounts.len() < 4 {
        return Err(DecodeError::AccountIndexOutOfRange);
    }
    Ok(SwapAccounts { pool: ix.accounts[0], user: ix.accounts[1], base_mint: ix.accounts[3] })
}

pub fn liquidity_accounts(ix: &Instruction) -> (r: Result<LiquidityAccounts, DecodeError>)
    ensures
        r == spec_liquidity_accounts(ix.accounts@),
        r is Ok <==> ix.accounts@.len() >= 3,
{
    if ix.accounts.len() < 3 {
        return Err(DecodeError::AccountIndexOutOfRange);
    }
    Ok(LiquidityAccounts { pool: ix.accounts[0], user: ix.accounts[2] })
}

/// The tag of the event record that an instruction of kind `k` emits.
pub open spec fn event_tag(k: InstructionKind) -> Seq<u8> {
    match k {
        InstructionKind::CreatePool => CREATE_POOL_EVENT_TAG@,
        InstructionKind::Buy => BUY_EVENT_TAG@,
        InstructionKind::Sell => SELL_EVENT_TAG@,
        InstructionKind::Deposit => DEPOSIT_EVENT_TAG@,
        InstructionKind::Withdraw => WITHDRAW_EVENT_TAG@,
    }
}

pub(crate) fn event_tag_of(k: InstructionKind) -> (r: [u8; 8])
    ensures
        r@ == event_tag(k),
{
    match k {
        InstructionKind::CreatePool => CREATE_POOL_EVENT_TAG,
        InstructionKind::Buy => BUY_EVENT_TAG,
        InstructionKind::Sell => SELL_EVENT_TAG,
        InstructionKind::Deposit => DEPOSIT_EVENT_TAG,
        InstructionKind::Withdraw => WITHDRAW_EVENT_TAG,
    }
}

/// The event record behind an instruction of kind `k` of `program`: the first
/// CPI echo of that kind among its children; else the first data log of that
/// kind in the transaction; else `MissingSource`. Only that one source is
/// decoded, and both sources share one layout per tag (`law_log_matches_echo`).
#[verifier::opaque]
pub open spec fn spec_resolve_source_of(
    program: Seq<u8>,
    ix: Instruction,
    logs: Seq<String>,
    k: InstructionKind,
) -> Result<PumpfunAmmCpiInstruction, DecodeError> {
    match first_echo(ix.inner@, program, event_tag(k), 0) {
        Some(j) => PumpfunAmmCpiInstruction::spec_unpack(ix.inner@[j as int].data@),
        None => match first_log(logs, event_tag(k), 0) {
            Some(j) => match PumpfunAmmLog::spec_unpack(data_log(line_bytes(logs[j as int]))->0) {
                Ok(l) => Ok(l.spec_to_cpi()),
                Err(e) => Err(e),
            },
            None => Err(DecodeError::MissingSource),
        },
    }
}

/// Finds and decodes the event record behind an instruction of kind `k` of
/// `program`.
pub fn resolve_source_of(
    program: &[u8; 32],
    ix: &Instruction,
    logs: &Vec<String>,
    k: InstructionKind,
) -> (r: Result<PumpfunAmmCpiInstruction, DecodeError>)
    ensures
        r == spec_resolve_source_of(program@, *ix, logs@, k),
{
    reveal(spec_resolve_source_of);
    let tag = event_tag_of(k);
    match find_echo(ix, program, &tag) {
        Some(j) => PumpfunAmmCpiInstruction::unpack(ix.inner[j].data.as_slice()),
        None => match find_log(logs, &tag) {
            Some((_, b)) => match PumpfunAmmLog::unpack(b.as_slice()) {
                Ok(l) => Ok(l.to_cpi()),
                Err(e) => Err(e),
            },
            None => Err(DecodeError::MissingSource),
        },
    }
}

/// The event record behind an instruction of this program.
pub open spec fn spec_resolve_source(ix: Instruction, logs: Seq<String>, k: InstructionKind) -> Result<
    PumpfunAmmCpiInstruction,
    DecodeError,
> {
    spec_resolve_source_of(PUMPFUN_AMM_PROGRAM_ID@, ix, logs, k)
}

pub fn resolve_source(ix: &Instruction, logs: &Vec<String>, k: InstructionKind) -> (r: Result<
    PumpfunAmmCpiInstruction,
    DecodeError,
>)
    ensures
        r == spec_resolve_source(*ix, logs@, k),
{
    resolve_source_of(&PUMPFUN_AMM_PROGRAM_ID, ix, logs, k)
}

pub open spec fn spec_create_pool_event(rec: CreatePoolCpiInstruction) -> CreatePoolEvent {
    CreatePoolEvent {
        pool: rec.pool,
        creator: rec.creator,
        coin_creator: rec.coin_creator,
        base_mint: rec.base_mint,
        quote_mint: rec.quote_mint,
        base_mint_decimals: rec.base_mint_decimals as u32,
        quote_mint_decimals: rec.quote_mint_decimals as u32,
        base_amount_in: Some(rec.base_amount_in),
        quote_amount_in: Some(rec.quote_amount_in),
        pool_base_amount: Some(rec.pool_base_amount),
        pool_quote_amount: Some(rec.pool_quote_amount),
        timestamp: rec.timestamp,
    }
}

/// A buy, as the swap event it reports: the quote paid in and base received.
pub open spec fn spec_buy_event(acc: SwapAccounts, rec: BuyCpiInstruction) -> SwapEvent {
    SwapEvent {
        user: acc.user,
        mint: acc.pool,
        bonding_curve: acc.base_mint,
        min_quote_amount_out: rec.base_amount_out,
        base_amount_in: rec.quote_amount_in,
        is_buy: true,
        virtual_sol_reserves: Some(0),
        virtual_token_reserves: Some(0),
        real_sol_reserves: Some(rec.pool_quote_token_reserves),
        real_token_reserves: Some(rec.pool_base_token_reserves),
        user_token_pre_balance: Some(0),
        protocol_fee: Some(rec.protocol_fee),
        coin_creator_fee: Some(rec.coin_creator_fee),
        timestamp: rec.timestamp,
    }
}

/// A sell, as the swap event it reports: the base paid in and quote received.
pub open spec fn spec_sell_event(acc: SwapAccounts, rec: SellCpiInstruction) -> SwapEvent {
    SwapEvent {
        user: acc.user,
        mint: acc.pool,
        bonding_curve: acc.base_mint,
        min_quote_amount_out: rec.quote_amount_out,
        base_amount_in: rec.base_amount_in,
        is_buy: false,
        virtual_sol_reserves: Some(0),
        virtual_token_reserves: Some(0),
        real_sol_reserves: Some(rec.pool_quote_token_reserves),
        real_token_reserves: Some(rec.pool_base_token_reserves),
        user_token_pre_balance: Some(0),
        protocol_fee: Some(rec.protocol_fee),
        coin_creator_fee: Some(rec.coin_creator_fee),
        timestamp: rec.timestamp,
    }
}

pub open spec fn spec_liquidity_event(acc: LiquidityAccounts, is_add: bool, base: u64, quote: u64) -> LiquidityEvent {
    LiquidityEvent {
        pool: acc.pool,
        user: acc.user,
        is_add,
        pool_base_token_reserves: Some(base),
        pool_quote_token_reserves: Some(quote),
    }
}

pub(crate) fn create_pool_event(rec: &CreatePoolCpiInstruction) -> (r: CreatePoolEvent)
    ensures
        r == spec_create_pool_event(*rec),
{
    CreatePoolEvent {
        pool: rec.pool,
        creator: rec.creator,
        coin_creator: rec.coin_creator,
        base_mint: rec.base_mint,
        quote_mint: rec.quote_mint,
        base_mint_decimals: rec.base_mint_decimals as u32,
        quote_mint_decimals: rec.quote_mint_decimals as u32,
        base_amount_in: Some(rec.base_amount_in),
        quote_amount_in: Some(rec.quote_amount_in),
        pool_base_amount: Some(rec.pool_base_amount),
        pool_quote_amount: Some(rec.pool_quote_amount),
        timestamp: rec.timestamp,
    }
}

fn buy_event(acc: &SwapAccounts, rec: &BuyCpiInstruction) -> (r: SwapEvent)
    ensures
        r == spec_buy_event(*acc, *rec),
{
    SwapEvent {
        user: acc.user,
        mint: acc.pool,
        bonding_curve: acc.base_mint,
        min_quote_amount_out: rec.base_amount_out,
        base_amount_in: rec.quote_amount_in,
        is_buy: true,
        virtual_sol_reserves: Some(0),
        virtual_token_reserves: Some(0),
        real_sol_reserves: Some(rec.pool_quote_token_reserves),
        real_token_reserves: Some(rec.pool_base_token_reserves),
        user_token_pre_balance: Some(0),
        protocol_fee: Some(rec.protocol_fee),
        coin_creator_fee: Some(rec.coin_creator_fee),
        timestamp: rec.timestamp,
    }
}

fn sell_event(acc: &SwapAccounts, rec: &SellCpiInstruction) -> (r: SwapEvent)
    ensures
        r == spec_sell_event(*acc, *rec),
{
    SwapEvent {
        user: acc.user,
        mint: acc.pool,
        bonding_curve: acc.base_mint,
        min_quote_amount_out: rec.quote_amount_out,
        base_amount_in: rec.base_amount_in,
        is_buy: false,
        virtual_sol_reserves: Some(0),
        virtual_token_reserves: Some(0),
        real_sol_reserves: Some(rec.pool_quote_token_reserves),
        real_token_reserves: Some(rec.pool_base_token_reserves),
        user_token_pre_balance: Some(0),
        protocol_fee: Some(rec.protocol_fee),
        coin_creator_fee: Some(rec.coin_creator_fee),
        timestamp: rec.timestamp,
    }
}

/// A pool creation, reported from the record that the program emitted for it.
pub open spec fn spec_parse_create_pool_instruction(ix: Instruction, logs: Seq<String>) -> Result<CreatePoolEvent, DecodeError> {
    match spec_resolve_source(ix, logs, InstructionKind::CreatePool) {
        Ok(PumpfunAmmCpiInstruction::CreatePoolCpi(rec)) => Ok(spec_create_pool_event(rec)),
        Ok(_) => Err(DecodeError::MissingSource),
        Err(e) => Err(e),
    }
}

fn parse_create_pool_instruction(instruction: &Instruction, logs: &Vec<String>) -> (r: Result<CreatePoolEvent, DecodeError>)
    ensures
        r == spec_parse_create_pool_instruction(*instruction, logs@),
{
    match resolve_source(instruction, logs, InstructionKind::CreatePool)? {
        PumpfunAmmCpiInstruction::CreatePoolCpi(rec) => Ok(create_pool_event(&rec)),
        _ => Err(DecodeError::MissingSource),
    }
}

/// A buy: the swap accounts by role, then the event record.
pub open spec fn spec_parse_buy_instruction(ix: Instruction, logs: Seq<String>) -> Result<SwapEvent, DecodeError> {
    match spec_swap_accounts(ix.accounts@) {
        Err(e) => Err(e),
        Ok(acc) => match spec_resolve_source(ix, logs, InstructionKind::Buy) {
            Ok(PumpfunAmmCpiInstruction::BuyCpi(rec)) => Ok(spec_buy_event(acc, rec)),
            Ok(_) => Err(DecodeError::MissingSource),
            Err(e) => Err(e),
        },
    }
}

fn parse_buy_instruction(instruction: &Instruction, logs: &Vec<String>) -> (r: Result<SwapEvent, DecodeError>)
    ensures
        r == spec_parse_buy_instruction(*instruction, logs@),
{
    let acc = swap_accounts(instruction)?;
    match resolve_source(instruction, logs, InstructionKind::Buy)? {
        PumpfunAmmCpiInstruction::BuyCpi(rec) => Ok(buy_event(&acc, &rec)),
        _ => Err(DecodeError::MissingSource),
    }
}

/// A sell: the swap accounts by role, then the event record.
pub open spec fn spec_parse_sell_instruction(ix: Instruction, logs: Seq<String>) -> Result<SwapEvent, DecodeError> {
    match spec_swap_accounts(ix.accounts@) {
        Err(e) => Err(e),
        Ok(acc) => match spec_resolve_source(ix, logs, InstructionKind::Sell) {
            Ok(PumpfunAmmCpiInstruction::SellCpi(rec)) => Ok(spec_sell_event(acc, rec)),
            Ok(_) => Err(DecodeError::MissingSource),
            Err(e) => Err(e),
        },
    }
}

fn parse_sell_instruction(instruction: &Instruction, logs: &Vec<String>) -> (r: Result<SwapEvent, DecodeError>)
    ensures
        r == spec_parse_sell_instruction(*instruction, logs@),
{
    let acc = swap_accounts(instruction)?;
    match resolve_source(instruction, logs, InstructionKind::Sell)? {
        PumpfunAmmCpiInstruction::SellCpi(rec) => Ok(sell_event(&acc, &rec)),
        _ => Err(DecodeError::MissingSource),
    }
}

/// A deposit: the liquidity accounts by role, then the event record.
pub open spec fn spec_parse_deposit_instruction(ix: Instruction, logs: Seq<String>) -> Result<LiquidityEvent, DecodeError> {
    match spec_liquidity_accounts(ix.accounts@) {
        Err(e) => Err(e),
        Ok(acc) => match spec_resolve_source(ix, logs, InstructionKind::Deposit) {
            Ok(PumpfunAmmCpiInstruction::DepositCpi(rec)) => Ok(spec_liquidity_event(acc, true, rec.pool_base_token_reserves, rec.pool_quote_token_reserves)),
            Ok(_) => Err(DecodeError::MissingSource),
            Err(e) => Err(e),
        },
    }
}

fn parse_deposit_instruction(instruction: &Instruction, logs: &Vec<String>) -> (r: Result<LiquidityEvent, DecodeError>)
    ensures
        r == spec_parse_deposit_instruction(*instruction, logs@),
{
    let acc = liquidity_accounts(instruction)?;
    match resolve_source(instruction, logs, InstructionKind::Deposit)? {
        PumpfunAmmCpiInstruction::DepositCpi(rec) => Ok(LiquidityEvent {
            pool: acc.pool,
            user: acc.user,
            is_add: true,
            pool_base_token_reserves: Some(rec.pool_base_token_reserves),
            pool_quote_token_reserves: Some(rec.pool_quote_token_reserves),
        }),
        _ => Err(DecodeError::MissingSource),
    }
}

/// A withdrawal: the liquidity accounts by role, then the event record.
pub open spec fn spec_parse_withdraw_instruction(ix: Instruction, logs: Seq<String>) -> Result<LiquidityEvent, DecodeError> {
    match spec_liquidity_accounts(ix.accounts@) {
        Err(e) => Err(e),
        Ok(acc) => match spec_resolve_source(ix, logs, InstructionKind::Withdraw) {
            Ok(PumpfunAmmCpiInstruction::WithdrawCpi(rec)) => Ok(spec_liquidity_event(acc, false, rec.pool_base_token_reserves, rec.pool_quote_token_reserves)),
            Ok(_) => Err(DecodeError::MissingSource),
            Err(e) => Err(e),
        },
    }
}

fn parse_withdraw_instruction(instruction: &Instruction, logs: &Vec<String>) -> (r: Result<LiquidityEvent, DecodeError>)
    ensures
        r == spec_parse_withdraw_instruction(*instruction, logs@),
{
    let acc = liquidity_accounts(instruction)?;
    match resolve_source(instruction, logs, InstructionKind::Withdraw)? {
        PumpfunAmmCpiInstruction::WithdrawCpi(rec) => Ok(LiquidityEvent {
            pool: acc.pool,
            user: acc.user,
            is_add: false,
            pool_base_token_reserves: Some(rec.pool_base_token_reserves),
            pool_quote_token_reserves: Some(rec.pool_quote_token_reserves),
        }),
        _ => Err(DecodeError::MissingSource),
    }
}

/// The event that one instruction yields: none for an instruction of another
/// program or an unrecognized tag; otherwise, once its arguments decode, the
/// event that the instruction's kind reports.
#[verifier::opaque]
pub open spec fn spec_parse_instruction(ix: Instruction, logs: Seq<String>) -> Result<
    Option<Event>,
    DecodeError,
> {
    if ix.program_id.0@ != PUMPFUN_AMM_PROGRAM_ID@ {
        Ok(None)
    } else {
        match spec_unpack_status(ix.data@) {
            Err(e) => Err(e),
            Ok(None) => Ok(None),
            Ok(Some(InstructionKind::CreatePool)) => match spec_parse_create_pool_instruction(ix, logs) {
                Ok(v) => Ok(Some(Event::CreatePool(v))),
                Err(e) => Err(e),
            },
            Ok(Some(InstructionKind::Buy)) => match spec_parse_buy_instruction(ix, logs) {
                Ok(v) => Ok(Some(Event::Swap(v))),
                Err(e) => Err(e),
            },
            Ok(Some(InstructionKind::Sell)) => match spec_parse_sell_instruction(ix, logs) {
                Ok(v) => Ok(Some(Event::Swap(v))),
                Err(e) => Err(e),
            },
            Ok(Some(InstructionKind::Deposit)) => match spec_parse_deposit_instruction(ix, logs) {
                Ok(v) => Ok(Some(Event::Liquidity(v))),
                Err(e) => Err(e),
            },
            Ok(Some(InstructionKind::Withdraw)) => match spec_parse_withdraw_instruction(ix, logs) {
                Ok(v) => Ok(Some(Event::Liquidity(v))),
                Err(e) => Err(e),
            },
        }
    }
}

/// Decodes one instruction of the transaction whose log lines are `logs`.
pub fn parse_instruction(instruction: &Instruction, logs: &Vec<String>) -> (r: Result<
    Option<Event>,
    DecodeError,
>)
    ensures
        r == spec_parse_instruction(*instruction, logs@),
{
    reveal(spec_parse_instruction);
    if !is_key(&instruction.program_id, &PUMPFUN_AMM_PROGRAM_ID) {
        return Ok(None);
    }
    match PumpfunAmmInstruction::unpack(instruction.data.as_slice())? {
        PumpfunAmmInstruction::CreatePool(_) => Ok(
            Some(Event::CreatePool(parse_create_pool_instruction(instruction, logs)?)),
        ),
        PumpfunAmmInstruction::Buy(_) => Ok(Some(Event::Swap(parse_buy_instruction(instruction, logs)?))),
        PumpfunAmmInstruction::Sell(_) => Ok(Some(Event::Swap(parse_sell_instruction(instruction, logs)?))),
        PumpfunAmmInstruction::Deposit => Ok(
            Some(Event::Liquidity(parse_deposit_instruction(instruction, logs)?)),
        ),
        PumpfunAmmInstruction::Withdraw => Ok(
            Some(Event::Liquidity(parse_withdraw_instruction(instruction, logs)?)),
        ),
        PumpfunAmmInstruction::Unknown => Ok(None),
    }
}

/// The events of the first `n` visited instructions, in visiting order.
pub open spec fn events_upto(nodes: Seq<(Instruction, Instruction)>, logs: Seq<String>, n: nat) -> Seq<
    Event,
>
    decreases n,
{
    if n == 0 || n > nodes.len() {
        seq![]
    } else {
        events_upto(nodes, logs, (n - 1) as nat) + match spec_parse_instruction(
            nodes[n - 1].0,
            logs,
        ) {
            Ok(Some(e)) => seq![e],
            _ => seq![],
        }
    }
}

/// The failures among the first `n` visited instructions, in visiting order.
pub open spec fn failures_upto(nodes: Seq<(Instruction, Instruction)>, logs: Seq<String>, n: nat) -> Seq<
    Failure,
>
    decreases n,
{
    if n == 0 || n > nodes.len() {
        seq![]
    } else {
        failures_upto(nodes, logs, (n - 1) as nat) + match spec_parse_instruction(
            nodes[n - 1].0,
            logs,
        ) {
            Err(e) => seq![Failure { index: (n - 1) as usize, error: e }],
            _ => seq![],
        }
    }
}

/// A failed transaction yields nothing; otherwise every instruction, in
/// pre-order, contributes its event, if any.
#[verifier::opaque]
pub open spec fn spec_transaction_events(tx: Transaction) -> Seq<Event> {
    if tx.failed {
        seq![]
    } else {
        events_upto(flat(tx), tx.logs@, flat(tx).len())
    }
}

#[verifier::opaque]
pub open spec fn spec_transaction_failures(tx: Transaction) -> Seq<Failure> {
    if tx.failed {
        seq![]
    } else {
        failures_upto(flat(tx), tx.logs@, flat(tx).len())
    }
}

/// Decodes a transaction: its events in instruction pre-order, and the
/// instructions that could not be decoded. A failure stops neither the
/// transaction nor the block.
pub fn parse_transaction(transaction: &Transaction) -> (r: (Vec<Event>, Vec<Failure>))
    ensures
        r.0@ == spec_transaction_events(*transaction),
        r.1@ == spec_transaction_failures(*transaction),
{
    reveal(spec_transaction_events);
    reveal(spec_transaction_failures);
    let mut events: Vec<Event> = Vec::new();
    let mut failures: Vec<Failure> = Vec::new();
    if transaction.failed {
        return (events, failures);
    }
    let nodes = flatten(transaction);
    let ghost gnodes = flat(*transaction);
    let n = nodes.len();
    let mut k: usize = 0;
    while k < n
        invariant
            n == nodes@.len(),
            k <= n,
            gnodes == flat(*transaction),
            crate::tree::nodes_view(nodes@) == gnodes,
            events@ == events_upto(gnodes, transaction.logs@, k as nat),
            failures@ == failures_upto(gnodes, transaction.logs@, k as nat),
        decreases n - k,
    {
        let (ix, _) = nodes[k];
        assert(*ix == gnodes[k as int].0);
        match parse_instruction(ix, &transaction.logs) {
            Ok(Some(e)) => events.push(e),
            Ok(None) => {},
            Err(error) => failures.push(Failure { index: k, error }),
        }
        k = k + 1;
    }
    (events, failures)
}

/// The block's records: one per transaction with at least one event, under
/// the base-58 text of its signature, in block order.
pub open spec fn block_records(txs: Seq<Transaction>, n: nat) -> Seq<(Seq<char>, Seq<Event>)>
    decreases n,
{
    if n == 0 || n > txs.len() {
        seq![]
    } else {
        let ev = spec_transaction_events(txs[n - 1]);
        block_records(txs, (n - 1) as nat) + if ev.len() == 0 {
            seq![]
        } else {
            seq![(base58_of(txs[n - 1].signature@), ev)]
        }
    }
}

/// The block's failures, each with the position of its transaction.
pub open spec fn block_failures(txs: Seq<Transaction>, n: nat) -> Seq<(usize, Failure)>
    decreases n,
{
    if n == 0 || n > txs.len() {
        seq![]
    } else {
        block_failures(txs, (n - 1) as nat) + spec_transaction_failures(txs[n - 1]).map_values(
            |f: Failure| ((n - 1) as usize, f),
        )
    }
}

pub open spec fn records_view(v: Seq<PumpfunAmmTransactionEvents>) -> Seq<(Seq<char>, Seq<Event>)> {
    v.map_values(|t: PumpfunAmmTransactionEvents| (t.signature@, t.events@))
}

/// Decodes every transaction of a block.
pub fn parse_block(block: &Block) -> (r: (Vec<PumpfunAmmTransactionEvents>, Vec<(usize, Failure)>))
    ensures
        records_view(r.0@) == block_records(block.transactions@, block.transactions@.len()),
        r.1@ == block_failures(block.transactions@, block.transactions@.len()),
{
    let mut records: Vec<PumpfunAmmTransactionEvents> = Vec::new();
    let mut failures: Vec<(usize, Failure)> = Vec::new();
    let n = block.transactions.len();
    let mut t: usize = 0;
    while t < n
        invariant
            n == block.transactions@.len(),
            t <= n,
            records_view(records@) == block_records(block.transactions@, t as nat),
            failures@ == block_failures(block.transactions@, t as nat),
        decreases n - t,
    {
        let tx = &block.transactions[t];
        let (events, tx_failures) = parse_transaction(tx);
        let ghost before = failures@;
        let m = tx_failures.len();
        let mut i: usize = 0;
        while i < m
            invariant
                m == tx_failures@.len(),
                i <= m,
                failures@ == before + tx_failures@.take(i as int).map_values(
                    |f: Failure| (t, f),
                ),
            decreases m - i,
        {
            failures.push((t, tx_failures[i]));
            assert(tx_failures@.take(i + 1) =~= tx_failures@.take(i as int).push(tx_failures@[i as int]));
            i = i + 1;
        }
        assert(tx_failures@.take(m as int) =~= tx_failures@);
        assert(failures@ =~= block_failures(block.transactions@, (t + 1) as nat));
        if events.len() > 0 {
            let signature = tx.signature_text();
            let ghost old_records = records@;
            records.push(PumpfunAmmTransactionEvents { signature, events });
            assert(records_view(records@) =~= records_view(old_records).push(
                (signature@, events@),
            ));
        } else {
            assert(events@ =~= Seq::<Event>::empty());
        }
        t = t + 1;
    }
    (records, failures)
}

/// Events come in instruction pre-order: for top-level instructions `[a, b]`
/// where `b` invoked `c`, and each of them yielding an event, the
/// transaction's events are those of `a`, `b` and `c`, in that order.
pub proof fn law_event_order(
    tx: Transaction,
    a: Instruction,
    b: Instruction,
    c: Instruction,
    ea: Event,
    eb: Event,
    ec: Event,
)
    requires
        !tx.failed,
        tx.instructions@ == seq![a, b],
        a.inner@.len() == 0,
        b.inner@ == seq![c],
        c.inner@.len() == 0,
        spec_parse_instruction(a, tx.logs@) == Ok::<Option<Event>, DecodeError>(Some(ea)),
        spec_parse_instruction(b, tx.logs@) == Ok::<Option<Event>, DecodeError>(Some(eb)),
        spec_parse_instruction(c, tx.logs@) == Ok::<Option<Event>, DecodeError>(Some(ec)),
    ensures
        spec_transaction_events(tx) == seq![ea, eb, ec],
{
    reveal(spec_transaction_events);
    crate::tree::law_preorder(tx, a, b, c);
    let nodes = flat(tx);
    assert(events_upto(nodes, tx.logs@, 0) =~= Seq::<Event>::empty());
    assert(events_upto(nodes, tx.logs@, 1) =~= seq![ea]);
    assert(events_upto(nodes, tx.logs@, 2) =~= seq![ea, eb]);
    assert(events_upto(nodes, tx.logs@, 3) =~= seq![ea, eb, ec]);
}

/// Decoding is a function of the transaction alone: equal transactions give
/// equal events and failures, however and wherever they are decoded.
pub proof fn law_deterministic(t1: Transaction, t2: Transaction)
    requires
        t1 == t2,
    ensures
        spec_transaction_events(t1) == spec_transaction_events(t2),
        spec_transaction_failures(t1) == spec_transaction_failures(t2),
{
}

proof fn lemma_block_prefix(a: Seq<Transaction>, b: Seq<Transaction>, m: nat)
    requires
        m <= a.len(),
    ensures
        block_records(a + b, m) == block_records(a, m),
        block_failures(a + b, m) == block_failures(a, m),
    decreases m,
{
    if m > 0 {
        lemma_block_prefix(a, b, (m - 1) as nat);
        assert((a + b)[m - 1] == a[m - 1]);
    }
}

/// Splitting a block's transactions in two, decoding each part on its own
/// and joining the results gives the same records as decoding the whole.
pub proof fn law_split_block(a: Seq<Transaction>, b: Seq<Transaction>)
    ensures
        block_records(a + b, a.len() + b.len()) == block_records(a, a.len()) + block_records(
            b,
            b.len(),
        ),
{
    lemma_split_block(a, b, b.len());
}

proof fn lemma_split_block(a: Seq<Transaction>, b: Seq<Transaction>, k: nat)
    requires
        k <= b.len(),
    ensures
        block_records(a + b, a.len() + k) == block_records(a, a.len()) + block_records(b, k),
    decreases k,
{
    if k == 0 {
        lemma_block_prefix(a, b, a.len());
        assert(block_records(b, 0) =~= Seq::<(Seq<char>, Seq<Event>)>::empty());
        assert(block_records(a, a.len()) + block_records(b, 0) =~= block_records(a, a.len()));
    } else {
        lemma_split_block(a, b, (k - 1) as nat);
        assert((a + b)[a.len() + k - 1] == b[k - 1]);
        let tail = {
            let ev = spec_transaction_events(b[k - 1]);
            if ev.len() == 0 {
                Seq::<(Seq<char>, Seq<Event>)>::empty()
            } else {
                seq![(base58_of(b[k - 1].signature@), ev)]
            }
        };
        assert(block_records(b, k) == block_records(b, (k - 1) as nat) + tail);
        assert(block_records(a + b, a.len() + k) == block_records(a + b, (a.len() + k - 1) as nat)
            + tail);
        assert(block_records(a, a.len()) + block_records(b, (k - 1) as nat) + tail =~= block_records(
            a,
            a.len(),
        ) + (block_records(b, (k - 1) as nat) + tail));
    }
}

/// A transaction that failed on the ledger adds nothing to its block: no
/// record and no failure, whatever its instructions hold.
pub proof fn law_failed_transaction_omitted(txs: Seq<Transaction>, t: Transaction)
    requires
        t.failed,
    ensures
        block_records(txs.push(t), txs.len() + 1) == block_records(txs, txs.len()),
        block_failures(txs.push(t), txs.len() + 1) == block_failures(txs, txs.len()),
{
    reveal(spec_transaction_events);
    reveal(spec_transaction_failures);
    lemma_block_prefix(txs, seq![t], txs.len());
    assert(txs.push(t) == txs + seq![t]);
    assert(txs.push(t)[txs.len() as int] == t);
    assert(spec_transaction_failures(t).map_values(|f: Failure| (txs.len() as usize, f)) =~= Seq::<
        (usize, Failure),
    >::empty());
    assert(block_failures(txs.push(t), txs.len() + 1) =~= block_failures(txs, txs.len()));
    assert(block_records(txs.push(t), txs.len() + 1) =~= block_records(txs, txs.len()));
}

proof fn lemma_events_prefix(
    n1: Seq<(Instruction, Instruction)>,
    n2: Seq<(Instruction, Instruction)>,
    logs: Seq<String>,
    k: nat,
)
    requires
        k <= n1.len(),
    ensures
        events_upto(n1 + n2, logs, k) == events_upto(n1, logs, k),
    decreases k,
{
    if k > 0 {
        lemma_events_prefix(n1, n2, logs, (k - 1) as nat);
        assert((n1 + n2)[k - 1] == n1[k - 1]);
    }
}

proof fn lemma_events_concat(
    n1: Seq<(Instruction, Instruction)>,
    n2: Seq<(Instruction, Instruction)>,
    logs: Seq<String>,
    j: nat,
)
    requires
        j <= n2.len(),
    ensures
        events_upto(n1 + n2, logs, n1.len() + j) == events_upto(n1, logs, n1.len()) + events_upto(
            n2,
            logs,
            j,
        ),
    decreases j,
{
    if j == 0 {
        lemma_events_prefix(n1, n2, logs, n1.len());
        assert(events_upto(n1, logs, n1.len()) + events_upto(n2, logs, 0) =~= events_upto(
            n1,
            logs,
            n1.len(),
        ));
    } else {
        lemma_events_concat(n1, n2, logs, (j - 1) as nat);
        assert((n1 + n2)[n1.len() + j - 1] == n2[j - 1]);
        assert(events_upto(n1 + n2, logs, n1.len() + j) =~= events_upto(n1, logs, n1.len())
            + events_upto(n2, logs, j));
    }
}

/// An instruction of another program, which invoked nothing, is skipped
/// wherever it stands among the top-level instructions, and leaves the
/// others' events as they were: `pre ++ [x] ++ post` yields exactly the
/// events of `pre ++ post`.
pub proof fn law_foreign_instruction_skipped(
    tx: Transaction,
    without: Transaction,
    pre: Seq<Instruction>,
    x: Instruction,
    post: Seq<Instruction>,
)
    requires
        !tx.failed,
        !without.failed,
        tx.logs@ == without.logs@,
        tx.instructions@ == pre + seq![x] + post,
        without.instructions@ == pre + post,
        x.program_id.0@ != PUMPFUN_AMM_PROGRAM_ID@,
        x.inner@.len() == 0,
    ensures
        spec_transaction_events(tx) == spec_transaction_events(without),
{
    reveal(spec_transaction_events);
    reveal(spec_parse_instruction);
    let logs = tx.logs@;
    let px = pre + seq![x];
    let wp = crate::tree::walk(pre, pre.len());
    let wq = crate::tree::walk(post, post.len());
    let sx = seq![(x, x)];
    crate::tree::lemma_walk_concat(px, post, post.len());
    crate::tree::lemma_walk_concat(pre, seq![x], 1);
    crate::tree::lemma_walk_concat(pre, post, post.len());
    assert(crate::tree::walk(seq![x], 0) =~= Seq::<(Instruction, Instruction)>::empty());
    assert(crate::tree::forest(x.inner@, x, 0) =~= Seq::<(Instruction, Instruction)>::empty());
    assert(crate::tree::subtree(x, x) =~= sx);
    assert(crate::tree::walk(seq![x], 1) =~= sx);
    assert(flat(tx) =~= wp + sx + wq);
    assert(flat(without) =~= wp + wq);
    assert(events_upto(sx, logs, 0) =~= Seq::<Event>::empty());
    assert(events_upto(sx, logs, 1) =~= Seq::<Event>::empty());
    lemma_events_concat(wp + sx, wq, logs, wq.len());
    lemma_events_concat(wp, sx, logs, sx.len());
    lemma_events_concat(wp, wq, logs, wq.len());
    assert(events_upto(wp, logs, wp.len()) + Seq::<Event>::empty() =~= events_upto(
        wp,
        logs,
        wp.len(),
    ));
}

} // verus!
