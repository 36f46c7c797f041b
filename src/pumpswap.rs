//! The pump swap program: swaps, pool creation and liquidity changes, whose
//! figures come from the event record that the program echoes to itself
//! through a cross-program invocation or, failing that, writes to its data
//! log.
use vstd::prelude::*;
use crate::bytes::{is_key, DecodeError, Pubkey};
use crate::codec::base58_of;
use crate::pumpfun_amm::instruction::InstructionKind;
use crate::pumpfun_amm::instructions_cpi::{
    BuyCpiInstruction, CreatePoolCpiInstruction, PumpfunAmmCpiInstruction, SellCpiInstruction,
};
use crate::pumpfun_amm::{
    create_pool_event, liquidity_accounts, resolve_source_of, spec_resolve_source_of, spec_create_pool_event,
    spec_liquidity_accounts, spec_liquidity_event, spec_swap_accounts, swap_accounts,
    CreatePoolEvent, LiquidityEvent, SwapAccounts,
};
use crate::tree::{flat, flatten, Block, Failure, Instruction, Transaction};
use instruction::PumpswapInstruction;

pub mod instruction;

verus! {

pub const PUMPSWAP_PROGRAM_ID: [u8; 32] = [
    12, 20, 222, 252, 130, 94, 198, 118, 148, 37, 8, 24, 187, 101, 64, 101, 244, 41, 141, 49, 86,
    213, 113, 180, 212, 248, 9, 12, 24, 233, 168, 99,
];

/// The system program's key, all zero bytes, which stands for "no coin creator".
pub const SYSTEM_PROGRAM_ID: [u8; 32] = [
    0, 0, 0, 0, 0, 0, 0, 0, 0, 0, 0, 0, 0, 0, 0, 0, 0, 0, 0, 0, 0, 0, 0, 0, 0, 0, 0, 0, 0, 0, 0, 0,
];

/// A trade against a pool; `is_buy` tells its direction.
#[derive(Debug, Clone, Copy)]
pub struct SwapEvent {
    pub user: Pubkey,
    pub mint: Pubkey,
    pub pool: Pubkey,
    pub sol_amount: Option<u64>,
    pub token_amount: u64,
    pub is_buy: bool,
    pub virtual_sol_reserves: Option<u64>,
    pub virtual_token_reserves: Option<u64>,
    pub real_sol_reserves: Option<u64>,
    pub real_token_reserves: Option<u64>,
    pub user_token_pre_balance: Option<u64>,
    pub protocol_fee: Option<u64>,
    pub coin_creator_fee: Option<u64>,
    pub timestamp: i64,
}

impl SwapEvent {
    /// The side the trader received: `token` for a buy, `sol` for a sell.
    pub fn direction(&self) -> (r: &'static str)
        ensures
            r@ == (if self.is_buy {
                "token"@
            } else {
                "sol"@
            }),
    {
        if self.is_buy {
            "token"
        } else {
            "sol"
        }
    }
}

#[derive(Debug, Clone, Copy)]
pub enum Event {
    CreatePool(CreatePoolEvent),
    Swap(SwapEvent),
    Liquidity(LiquidityEvent),
}

/// The events of one transaction, under its signature.
#[derive(Debug)]
pub struct PumpswapTransactionEvents {
    pub signature: String,
    pub events: Vec<Event>,
}

/// The event record behind an instruction of kind `k`: the first CPI echo of
/// that kind among its children, else the first data log of that kind, else
/// `MissingSource`.
pub open spec fn spec_resolve_source(ix: Instruction, logs: Seq<String>, k: InstructionKind) -> Result<
    PumpfunAmmCpiInstruction,
    DecodeError,
> {
    spec_resolve_source_of(PUMPSWAP_PROGRAM_ID@, ix, logs, k)
}

pub fn resolve_source(ix: &Instruction, logs: &Vec<String>, k: InstructionKind) -> (r: Result<
    PumpfunAmmCpiInstruction,
    DecodeError,
>)
    ensures
        r == spec_resolve_source(*ix, logs@, k),
{
    resolve_source_of(&PUMPSWAP_PROGRAM_ID, ix, logs, k)
}

/// The kind of the decoded instruction, `None` for an unrecognized one, or
/// the decode error.
pub open spec fn spec_unpack_kind(s: Seq<u8>) -> Result<Option<InstructionKind>, DecodeError> {
    match PumpswapInstruction::spec_unpack(s) {
        Ok(p) => Ok(p.kind()),
        Err(e) => Err(e),
    }
}

/// A pool creation; this program records no coin creator.
pub open spec fn spec_pool_event(rec: CreatePoolCpiInstruction) -> CreatePoolEvent {
    let e = spec_create_pool_event(rec);
    CreatePoolEvent { coin_creator: Pubkey(SYSTEM_PROGRAM_ID), ..e }
}

/// A buy: quote paid in, base received.
pub open spec fn spec_buy_event(acc: SwapAccounts, rec: BuyCpiInstruction) -> SwapEvent {
    SwapEvent {
        user: acc.user,
        mint: acc.base_mint,
        pool: acc.pool,
        sol_amount: Some(rec.quote_amount_in),
        token_amount: rec.base_amount_out,
        is_buy: true,
        virtual_sol_reserves: Some(0),
        virtual_token_reserves: Some(0),
        real_sol_reserves: Some(rec.pool_quote_token_reserves),
        real_token_reserves: Some(rec.pool_base_token_reserves),
        user_token_pre_balance: Some(0),
        protocol_fee: Some(rec.protocol_fee),
        coin_creator_fee: Some(0),
        timestamp: rec.timestamp,
    }
}

/// A sell: base paid in, quote received.
pub open spec fn spec_sell_event(acc: SwapAccounts, rec: SellCpiInstruction) -> SwapEvent {
    SwapEvent {
        user: acc.user,
        mint: acc.base_mint,
        pool: acc.pool,
        sol_amount: Some(rec.quote_amount_out),
        token_amount: rec.base_amount_in,
        is_buy: false,
        virtual_sol_reserves: Some(0),
        virtual_token_reserves: Some(0),
        real_sol_reserves: Some(rec.pool_quote_token_reserves),
        real_token_reserves: Some(rec.pool_base_token_reserves),
        user_token_pre_balance: Some(0),
        protocol_fee: Some(rec.protocol_fee),
        coin_creator_fee: Some(0),
        timestamp: rec.timestamp,
    }
}

fn pool_event(rec: &CreatePoolCpiInstruction) -> (r: CreatePoolEvent)
    ensures
        r == spec_pool_event(*rec),
{
    let mut e = create_pool_event(rec);
    e.coin_creator = Pubkey(SYSTEM_PROGRAM_ID);
    e
}

fn buy_event(acc: &SwapAccounts, rec: &BuyCpiInstruction) -> (r: SwapEvent)
    ensures
        r == spec_buy_event(*acc, *rec),
{
    SwapEvent {
        user: acc.user,
        mint: acc.base_mint,
        pool: acc.pool,
        sol_amount: Some(rec.quote_amount_in),
        token_amount: rec.base_amount_out,
        is_buy: true,
        virtual_sol_reserves: Some(0),
        virtual_token_reserves: Some(0),
        real_sol_reserves: Some(rec.pool_quote_token_reserves),
        real_token_reserves: Some(rec.pool_base_token_reserves),
        user_token_pre_balance: Some(0),
        protocol_fee: Some(rec.protocol_fee),
        coin_creator_fee: Some(0),
        timestamp: rec.timestamp,
    }
}

fn sell_event(acc: &SwapAccounts, rec: &SellCpiInstruction) -> (r: SwapEvent)
    ensures
        r == spec_sell_event(*acc, *rec),
{
    SwapEvent {
        user: acc.user,
        mint: acc.base_mint,
        pool: acc.pool,
        sol_amount: Some(rec.quote_amount_out),
        token_amount: rec.base_amount_in,
        is_buy: false,
        virtual_sol_reserves: Some(0),
        virtual_token_reserves: Some(0),
        real_sol_reserves: Some(rec.pool_quote_token_reserves),
        real_token_reserves: Some(rec.pool_base_token_reserves),
        user_token_pre_balance: Some(0),
        protocol_fee: Some(rec.protocol_fee),
        coin_creator_fee: Some(0),
        timestamp: rec.timestamp,
    }
}

/// A pool creation, reported from the record that the program echoed for it.
pub open spec fn spec_parse_create_pool_instruction(ix: Instruction, logs: Seq<String>) -> Result<CreatePoolEvent, DecodeError> {
    match spec_resolve_source(ix, logs, InstructionKind::CreatePool) {
        Ok(PumpfunAmmCpiInstruction::CreatePoolCpi(rec)) => Ok(spec_pool_event(rec)),
        Ok(_) => Err(DecodeError::MissingSource),
        Err(e) => Err(e),
    }
}

fn parse_create_pool_instruction(instruction: &Instruction, logs: &Vec<String>) -> (r: Result<CreatePoolEvent, DecodeError>)
    ensures
        r == spec_parse_create_pool_instruction(*instruction, logs@),
{
    match resolve_source(instruction, logs, InstructionKind::CreatePool)? {
        PumpfunAmmCpiInstruction::CreatePoolCpi(rec) => Ok(pool_event(&rec)),
        _ => Err(DecodeError::MissingSource),
    }
}

/// A buy: the swap accounts by role, then the event record.
pub open spec fn spec_parse_buy_instruction(ix: Instruction, logs: Seq<String>) -> Result<SwapEvent, DecodeError> {
    match spec_swap_accounts(ix.accounts@) {
        Err(e) => Err(e),
        Ok(acc) => match spec_resolve_source(ix, logs, InstructionKind::Buy) {
            Ok(PumpfunAmmCpiInstruction::BuyCpi(rec)) => Ok(spec_buy_event(acc, rec)),
            Ok(_) => Err(DecodeError::MissingSource),
            Err(e) => Err(e),
        },
    }
}

fn parse_buy_instruction(instruction: &Instruction, logs: &Vec<String>) -> (r: Result<SwapEvent, DecodeError>)
    ensures
        r == spec_parse_buy_instruction(*instruction, logs@),
{
    let acc = swap_accounts(instruction)?;
    match resolve_source(instruction, logs, InstructionKind::Buy)? {
        PumpfunAmmCpiInstruction::BuyCpi(rec) => Ok(buy_event(&acc, &rec)),
        _ => Err(DecodeError::MissingSource),
    }
}

/// A sell: the swap accounts by role, then the event record.
pub open spec fn spec_parse_sell_instruction(ix: Instruction, logs: Seq<String>) -> Result<SwapEvent, DecodeError> {
    match spec_swap_accounts(ix.accounts@) {
        Err(e) => Err(e),
        Ok(acc) => match spec_resolve_source(ix, logs, InstructionKind::Sell) {
            Ok(PumpfunAmmCpiInstruction::SellCpi(rec)) => Ok(spec_sell_event(acc, rec)),
            Ok(_) => Err(DecodeError::MissingSource),
            Err(e) => Err(e),
        },
    }
}

fn parse_sell_instruction(instruction: &Instruction, logs: &Vec<String>) -> (r: Result<SwapEvent, DecodeError>)
    ensures
        r == spec_parse_sell_instruction(*instruction, logs@),
{
    let acc = swap_accounts(instruction)?;
    match resolve_source(instruction, logs, InstructionKind::Sell)? {
        PumpfunAmmCpiInstruction::SellCpi(rec) => Ok(sell_event(&acc, &rec)),
        _ => Err(DecodeError::MissingSource),
    }
}

/// A deposit: the liquidity accounts by role, then the event record.
pub open spec fn spec_parse_deposit_instruction(ix: Instruction, logs: Seq<String>) -> Result<LiquidityEvent, DecodeError> {
    match spec_liquidity_accounts(ix.accounts@) {
        Err(e) => Err(e),
        Ok(acc) => match spec_resolve_source(ix, logs, InstructionKind::Deposit) {
            Ok(PumpfunAmmCpiInstruction::DepositCpi(rec)) => Ok(spec_liquidity_event(acc, true, rec.pool_base_token_reserves, rec.pool_quote_token_reserves)),
            Ok(_) => Err(DecodeError::MissingSource),
            Err(e) => Err(e),
        },
    }
}

fn parse_deposit_instruction(instruction: &Instruction, logs: &Vec<String>) -> (r: Result<LiquidityEvent, DecodeError>)
    ensures
        r == spec_parse_deposit_instruction(*instruction, logs@),
{
    let acc = liquidity_accounts(instruction)?;
    match resolve_source(instruction, logs, InstructionKind::Deposit)? {
        PumpfunAmmCpiInstruction::DepositCpi(rec) => Ok(LiquidityEvent {
            pool: acc.pool,
            user: acc.user,
            is_add: true,
            pool_base_token_reserves: Some(rec.pool_base_token_reserves),
            pool_quote_token_reserves: Some(rec.pool_quote_token_reserves),
        }),
        _ => Err(DecodeError::MissingSource),
    }
}

/// A withdrawal: the liquidity accounts by role, then the event record.
pub open spec fn spec_parse_withdraw_instruction(ix: Instruction, logs: Seq<String>) -> Result<LiquidityEvent, DecodeError> {
    match spec_liquidity_accounts(ix.accounts@) {
        Err(e) => Err(e),
        Ok(acc) => match spec_resolve_source(ix, logs, InstructionKind::Withdraw) {
            Ok(PumpfunAmmCpiInstruction::WithdrawCpi(rec)) => Ok(spec_liquidity_event(acc, false, rec.pool_base_token_reserves, rec.pool_quote_token_reserves)),
            Ok(_) => Err(DecodeError::MissingSource),
            Err(e) => Err(e),
        },
    }
}

fn parse_withdraw_instruction(instruction: &Instruction, logs: &Vec<String>) -> (r: Result<LiquidityEvent, DecodeError>)
    ensures
        r == spec_parse_withdraw_instruction(*instruction, logs@),
{
    let acc = liquidity_accounts(instruction)?;
    match resolve_source(instruction, logs, InstructionKind::Withdraw)? {
        PumpfunAmmCpiInstruction::WithdrawCpi(rec) => Ok(LiquidityEvent {
            pool: acc.pool,
            user: acc.user,
            is_add: false,
            pool_base_token_reserves: Some(rec.pool_base_token_reserves),
            pool_quote_token_reserves: Some(rec.pool_quote_token_reserves),
        }),
        _ => Err(DecodeError::MissingSource),
    }
}

/// The event that one instruction yields: none for an instruction of another
/// program or an unrecognized tag; otherwise, once its arguments decode, the
/// event that the instruction's kind reports.
#[verifier::opaque]
pub open spec fn spec_parse_instruction(ix: Instruction, logs: Seq<String>) -> Result<
    Option<Event>,
    DecodeError,
> {
    if ix.program_id.0@ != PUMPSWAP_PROGRAM_ID@ {
        Ok(None)
    } else {
        match spec_unpack_kind(ix.data@) {
            Err(e) => Err(e),
            Ok(None) => Ok(None),
            Ok(Some(InstructionKind::CreatePool)) => match spec_parse_create_pool_instruction(ix, logs) {
                Ok(v) => Ok(Some(Event::CreatePool(v))),
                Err(e) => Err(e),
            },
            Ok(Some(InstructionKind::Buy)) => match spec_parse_buy_instruction(ix, logs) {
                Ok(v) => Ok(Some(Event::Swap(v))),
                Err(e) => Err(e),
            },
            Ok(Some(InstructionKind::Sell)) => match spec_parse_sell_instruction(ix, logs) {
                Ok(v) => Ok(Some(Event::Swap(v))),
                Err(e) => Err(e),
            },
            Ok(Some(InstructionKind::Deposit)) => match spec_parse_deposit_instruction(ix, logs) {
                Ok(v) => Ok(Some(Event::Liquidity(v))),
                Err(e) => Err(e),
            },
            Ok(Some(InstructionKind::Withdraw)) => match spec_parse_withdraw_instruction(ix, logs) {
                Ok(v) => Ok(Some(Event::Liquidity(v))),
                Err(e) => Err(e),
            },
        }
    }
}

/// Decodes one instruction of the transaction whose log lines are `logs`.
pub fn parse_instruction(instruction: &Instruction, logs: &Vec<String>) -> (r: Result<
    Option<Event>,
    DecodeError,
>)
    ensures
        r == spec_parse_instruction(*instruction, logs@),
{
    reveal(spec_parse_instruction);
    if !is_key(&instruction.program_id, &PUMPSWAP_PROGRAM_ID) {
        return Ok(None);
    }
    match PumpswapInstruction::unpack(instruction.data.as_slice())? {
        PumpswapInstruction::CreatePool(_) => Ok(
            Some(Event::CreatePool(parse_create_pool_instruction(instruction, logs)?)),
        ),
        PumpswapInstruction::Buy(_) => Ok(Some(Event::Swap(parse_buy_instruction(instruction, logs)?))),
        PumpswapInstruction::Sell(_) => Ok(Some(Event::Swap(parse_sell_instruction(instruction, logs)?))),
        PumpswapInstruction::Deposit => Ok(
            Some(Event::Liquidity(parse_deposit_instruction(instruction, logs)?)),
        ),
        PumpswapInstruction::Withdraw => Ok(
            Some(Event::Liquidity(parse_withdraw_instruction(instruction, logs)?)),
        ),
        PumpswapInstruction::Unknown => Ok(None),
    }
}

/// The events of the first `n` visited instructions, in visiting order.
pub open spec fn events_upto(nodes: Seq<(Instruction, Instruction)>, logs: Seq<String>, n: nat) -> Seq<
    Event,
>
    decreases n,
{
    if n == 0 || n > nodes.len() {
        seq![]
    } else {
        events_upto(nodes, logs, (n - 1) as nat) + match spec_parse_instruction(
            nodes[n - 1].0,
            logs,
        ) {
            Ok(Some(e)) => seq![e],
            _ => seq![],
        }
    }
}

/// The failures among the first `n` visited instructions, in visiting order.
pub open spec fn failures_upto(nodes: Seq<(Instruction, Instruction)>, logs: Seq<String>, n: nat) -> Seq<
    Failure,
>
    decreases n,
{
    if n == 0 || n > nodes.len() {
        seq![]
    } else {
        failures_upto(nodes, logs, (n - 1) as nat) + match spec_parse_instruction(
            nodes[n - 1].0,
            logs,
        ) {
            Err(e) => seq![Failure { index: (n - 1) as usize, error: e }],
            _ => seq![],
        }
    }
}

/// A failed transaction yields nothing; otherwise every instruction, in
/// pre-order, contributes its event, if any.
#[verifier::opaque]
pub open spec fn spec_transaction_events(tx: Transaction) -> Seq<Event> {
    if tx.failed {
        seq![]
    } else {
        events_upto(flat(tx), tx.logs@, flat(tx).len())
    }
}

#[verifier::opaque]
pub open spec fn spec_transaction_failures(tx: Transaction) -> Seq<Failure> {
    if tx.failed {
        seq![]
    } else {
        failures_upto(flat(tx), tx.logs@, flat(tx).len())
    }
}

/// Decodes a transaction: its events in instruction pre-order, and the
/// instructions that could not be decoded. A failure stops neither the
/// transaction nor the block.
pub fn parse_transaction(transaction: &Transaction) -> (r: (Vec<Event>, Vec<Failure>))
    ensures
        r.0@ == spec_transaction_events(*transaction),
        r.1@ == spec_transaction_failures(*transaction),
{
    reveal(spec_transaction_events);
    reveal(spec_transaction_failures);
    let mut events: Vec<Event> = Vec::new();
    let mut failures: Vec<Failure> = Vec::new();
    if transaction.failed {
        return (events, failures);
    }
    let nodes = flatten(transaction);
    let ghost gnodes = flat(*transaction);
    let n = nodes.len();
    let mut k: usize = 0;
    while k < n
        invariant
            n == nodes@.len(),
            k <= n,
            gnodes == flat(*transaction),
            crate::tree::nodes_view(nodes@) == gnodes,
            events@ == events_upto(gnodes, transaction.logs@, k as nat),
            failures@ == failures_upto(gnodes, transaction.logs@, k as nat),
        decreases n - k,
    {
        let (ix, _) = nodes[k];
        assert(*ix == gnodes[k as int].0);
        match parse_instruction(ix, &transaction.logs) {
            Ok(Some(e)) => events.push(e),
            Ok(None) => {},
            Err(error) => failures.push(Failure { index: k, error }),
        }
        k = k + 1;
    }
    (events, failures)
}

/// The block's records: one per transaction with at least one event, under
/// the base-58 text of its signature, in block order.
pub open spec fn block_records(txs: Seq<Transaction>, n: nat) -> Seq<(Seq<char>, Seq<Event>)>
    decreases n,
{
    if n == 0 || n > txs.len() {
        seq![]
    } else {
        let ev = spec_transaction_events(txs[n - 1]);
        block_records(txs, (n - 1) as nat) + if ev.len() == 0 {
            seq![]
        } else {
            seq![(base58_of(txs[n - 1].signature@), ev)]
        }
    }
}

/// The block's failures, each with the position of its transaction.
pub open spec fn block_failures(txs: Seq<Transaction>, n: nat) -> Seq<(usize, Failure)>
    decreases n,
{
    if n == 0 || n > txs.len() {
        seq![]
    } else {
        block_failures(txs, (n - 1) as nat) + spec_transaction_failures(txs[n - 1]).map_values(
            |f: Failure| ((n - 1) as usize, f),
        )
    }
}

pub open spec fn records_view(v: Seq<PumpswapTransactionEvents>) -> Seq<(Seq<char>, Seq<Event>)> {
    v.map_values(|t: PumpswapTransactionEvents| (t.signature@, t.events@))
}

/// Decodes every transaction of a block.
pub fn parse_block(block: &Block) -> (r: (Vec<PumpswapTransactionEvents>, Vec<(usize, Failure)>))
    ensures
        records_view(r.0@) == block_records(block.transactions@, block.transactions@.len()),
        r.1@ == block_failures(block.transactions@, block.transactions@.len()),
{
    let mut records: Vec<PumpswapTransactionEvents> = Vec::new();
    let mut failures: Vec<(usize, Failure)> = Vec::new();
    let n = block.transactions.len();
    let mut t: usize = 0;
    while t < n
        invariant
            n == block.transactions@.len(),
            t <= n,
            records_view(records@) == block_records(block.transactions@, t as nat),
            failures@ == block_failures(block.transactions@, t as nat),
        decreases n - t,
    {
        let tx = &block.transactions[t];
        let (events, tx_failures) = parse_transaction(tx);
        let ghost before = failures@;
        let m = tx_failures.len();
        let mut i: usize = 0;
        while i < m
            invariant
                m == tx_failures@.len(),
                i <= m,
                failures@ == before + tx_failures@.take(i as int).map_values(
                    |f: Failure| (t, f),
                ),
            decreases m - i,
        {
            failures.push((t, tx_failures[i]));
            assert(tx_failures@.take(i + 1) =~= tx_failures@.take(i as int).push(tx_failures@[i as int]));
            i = i + 1;
        }
        assert(tx_failures@.take(m as int) =~= tx_failures@);
        assert(failures@ =~= block_failures(block.transactions@, (t + 1) as nat));
        if events.len() > 0 {
            let signature = tx.signature_text();
            let ghost old_records = records@;
            records.push(PumpswapTransactionEvents { signature, events });
            assert(records_view(records@) =~= records_view(old_records).push(
                (signature@, events@),
            ));
        } else {
            assert(events@ =~= Seq::<Event>::empty());
        }
        t = t + 1;
    }
    (records, failures)
}

} // verus!
