//! The launch program: bonding-curve pools, trades and vesting.
//!
//! The program emits each event as a CPI echo to itself: the echo's payload
//! holds an 8-byte marker, the event tag and the event record. Pool creations
//! and trades count only on the tracked platforms, which the top-level
//! instruction names among its accounts.
use vstd::prelude::*;
use crate::bytes::{is_key, rest, spec_rest, spec_tag_at, tag_at, DecodeError, Pubkey};
use crate::codec::base58_of;
use crate::tree::{flat, flatten, nodes_view, Block, Failure, Instruction, Transaction};
use idl::{
    ClaimVestedEvent, CreateVestingEvent, CurveParams, PlatformConfigParam, PoolCreateEvent,
    PoolCreateEventModel, PoolStatus, TradeDirection, TradeEvent, CLAIM_VESTED_EVENT_TAG,
    CREATE_VESTING_EVENT_TAG, POOL_CREATE_EVENT_TAG, TRADE_EVENT_TAG,
};

pub mod idl;

verus! {

pub const FRENS_PROGRAM_ID: [u8; 32] = [
    5, 4, 58, 221, 36, 233, 139, 144, 62, 26, 55, 173, 136, 157, 147, 194, 32, 27, 0, 246, 63, 174,
    46, 76, 104, 70, 143, 240, 143, 104, 97, 76,
];

pub const CREATOR_PLATFORM_ID: [u8; 32] = [
    4, 221, 254, 22, 195, 5, 34, 70, 26, 3, 98, 129, 55, 61, 118, 252, 7, 245, 185, 164, 201, 180,
    15, 140, 67, 207, 47, 255, 59, 219, 21, 180,
];

pub const CONTENT_PLATFORM_ID: [u8; 32] = [
    133, 98, 151, 78, 195, 155, 32, 40, 173, 253, 6, 239, 5, 241, 254, 167, 192, 169, 38, 157, 205,
    90, 98, 190, 1, 55, 36, 191, 222, 31, 232, 77,
];

/// Position of the platform account in a top-level instruction.
pub const PLATFORM_ACCOUNT: usize = 3;

/// Position of the mint account in a top-level pool-creating instruction.
pub const CREATE_MINT_ACCOUNT: usize = 6;

/// Position of the mint account in a top-level trading instruction.
pub const TRADE_MINT_ACCOUNT: usize = 9;

/// The minted token, as reported.
#[derive(Debug)]
pub struct MintParams {
    pub decimals: u64,
    pub name: String,
    pub symbol: String,
    pub uri: String,
}

impl View for MintParams {
    type V = (u64, Seq<char>, Seq<char>, Seq<char>);

    open spec fn view(&self) -> (u64, Seq<char>, Seq<char>, Seq<char>) {
        (self.decimals, self.name@, self.symbol@, self.uri@)
    }
}

#[derive(Debug, Clone, Copy, PartialEq, Eq, Structural)]
pub struct VestingParams {
    pub total_locked_amount: u64,
    pub cliff_period: u64,
    pub unlock_period: u64,
}

#[derive(Debug, Clone, Copy, PartialEq, Eq, Structural)]
pub struct MigrateNftInfo {
    pub platform_scale: u64,
    pub creator_scale: u64,
    pub burn_scale: u64,
}

#[derive(Debug)]
pub struct PlatformParams {
    pub migrate_nft_info: Option<MigrateNftInfo>,
    pub fee_rate: u64,
    pub name: String,
    pub web: String,
    pub img: String,
}

/// A pool was created on a tracked platform, under its transaction's hash.
#[derive(Debug)]
pub struct PoolCreateEventEvent {
    pub trx_hash: String,
    pub platform_id: Pubkey,
    pub mint: Pubkey,
    pub pool_state: Pubkey,
    pub creator: Pubkey,
    pub config: Pubkey,
    pub base_mint_param: Option<MintParams>,
    pub curve_param: i32,
    pub vesting_param: Option<VestingParams>,
}

pub struct PoolCreateEventEventModel {
    pub trx_hash: Seq<char>,
    pub platform_id: Pubkey,
    pub mint: Pubkey,
    pub pool_state: Pubkey,
    pub creator: Pubkey,
    pub config: Pubkey,
    pub base_mint_param: Option<(u64, Seq<char>, Seq<char>, Seq<char>)>,
    pub curve_param: i32,
    pub vesting_param: Option<VestingParams>,
}

impl View for PoolCreateEventEvent {
    type V = PoolCreateEventEventModel;

    open spec fn view(&self) -> PoolCreateEventEventModel {
        PoolCreateEventEventModel {
            trx_hash: self.trx_hash@,
            platform_id: self.platform_id,
            mint: self.mint,
            pool_state: self.pool_state,
            creator: self.creator,
            config: self.config,
            base_mint_param: match self.base_mint_param {
                Some(m) => Some(m@),
                None => None,
            },
            curve_param: self.curve_param,
            vesting_param: self.vesting_param,
        }
    }
}

/// A trade on a tracked platform, under its transaction's hash.
#[derive(Debug)]
pub struct TradeEventEvent {
    pub trx_hash: String,
    pub platform_id: Pubkey,
    pub mint: Pubkey,
    pub pool_state: Pubkey,
    pub total_base_sell: u64,
    pub virtual_base: u64,
    pub virtual_quote: u64,
    pub real_base_before: u64,
    pub real_quote_before: u64,
    pub real_base_after: u64,
    pub real_quote_after: u64,
    pub amount_in: u64,
    pub amount_out: u64,
    pub protocol_fee: u64,
    pub platform_fee: u64,
    pub share_fee: u64,
    pub trade_direction: i32,
    pub pool_status: i32,
}

pub struct TradeEventEventModel {
    pub trx_hash: Seq<char>,
    pub platform_id: Pubkey,
    pub mint: Pubkey,
    pub pool_state: Pubkey,
    pub total_base_sell: u64,
    pub virtual_base: u64,
    pub virtual_quote: u64,
    pub real_base_before: u64,
    pub real_quote_before: u64,
    pub real_base_after: u64,
    pub real_quote_after: u64,
    pub amount_in: u64,
    pub amount_out: u64,
    pub protocol_fee: u64,
    pub platform_fee: u64,
    pub share_fee: u64,
    pub trade_direction: i32,
    pub pool_status: i32,
}

impl View for TradeEventEvent {
    type V = TradeEventEventModel;

    open spec fn view(&self) -> TradeEventEventModel {
        TradeEventEventModel {
            trx_hash: self.trx_hash@,
            platform_id: self.platform_id,
            mint: self.mint,
            pool_state: self.pool_state,
            total_base_sell: self.total_base_sell,
            virtual_base: self.virtual_base,
            virtual_quote: self.virtual_quote,
            real_base_before: self.real_base_before,
            real_quote_before: self.real_quote_before,
            real_base_after: self.real_base_after,
            real_quote_after: self.real_quote_after,
            amount_in: self.amount_in,
            amount_out: self.amount_out,
            protocol_fee: self.protocol_fee,
            platform_fee: self.platform_fee,
            share_fee: self.share_fee,
            trade_direction: self.trade_direction,
            pool_status: self.pool_status,
        }
    }
}

/// Vested tokens were claimed, under the transaction's hash.
#[derive(Debug)]
pub struct ClaimVestedEventEvent {
    pub trx_hash: String,
    pub pool_state: Pubkey,
    pub beneficiary: Pubkey,
    pub claim_amount: u64,
}

pub struct ClaimVestedEventEventModel {
    pub trx_hash: Seq<char>,
    pub pool_state: Pubkey,
    pub beneficiary: Pubkey,
    pub claim_amount: u64,
}

impl View for ClaimVestedEventEvent {
    type V = ClaimVestedEventEventModel;

    open spec fn view(&self) -> ClaimVestedEventEventModel {
        ClaimVestedEventEventModel {
            trx_hash: self.trx_hash@,
            pool_state: self.pool_state,
            beneficiary: self.beneficiary,
            claim_amount: self.claim_amount,
        }
    }
}

/// A vesting account was created, under the transaction's hash.
#[derive(Debug)]
pub struct CreateVestingEventEvent {
    pub trx_hash: String,
    pub pool_state: Pubkey,
    pub beneficiary: Pubkey,
    pub share_amount: u64,
}

pub struct CreateVestingEventEventModel {
    pub trx_hash: Seq<char>,
    pub pool_state: Pubkey,
    pub beneficiary: Pubkey,
    pub share_amount: u64,
}

impl View for CreateVestingEventEvent {
    type V = CreateVestingEventEventModel;

    open spec fn view(&self) -> CreateVestingEventEventModel {
        CreateVestingEventEventModel {
            trx_hash: self.trx_hash@,
            pool_state: self.pool_state,
            beneficiary: self.beneficiary,
            share_amount: self.share_amount,
        }
    }
}

#[derive(Debug)]
pub enum Event {
    PoolCreateEvent(PoolCreateEventEvent),
    TradeEvent(TradeEventEvent),
    ClaimVested(ClaimVestedEventEvent),
    CreateVestingEvent(CreateVestingEventEvent),
}

pub enum EventModel {
    PoolCreateEvent(PoolCreateEventEventModel),
    TradeEvent(TradeEventEventModel),
    ClaimVested(ClaimVestedEventEventModel),
    CreateVestingEvent(CreateVestingEventEventModel),
}

impl View for Event {
    type V = EventModel;

    open spec fn view(&self) -> EventModel {
        match self {
            Event::PoolCreateEvent(e) => EventModel::PoolCreateEvent(e@),
            Event::TradeEvent(e) => EventModel::TradeEvent(e@),
            Event::ClaimVested(e) => EventModel::ClaimVested(e@),
            Event::CreateVestingEvent(e) => EventModel::CreateVestingEvent(e@),
        }
    }
}

/// The events of one transaction, under its signature.
#[derive(Debug)]
pub struct FrensTransactionEvents {
    pub signature: String,
    pub events: Vec<Event>,
}

/// Constant 0, fixed 1, linear 2.
pub open spec fn spec_curve_index(value: CurveParams) -> i32 {
    match value {
        CurveParams::Constant { .. } => 0,
        CurveParams::Fixed { .. } => 1,
        CurveParams::Linear { .. } => 2,
    }
}

pub fn map_enum_curve_params(value: CurveParams) -> (r: i32)
    ensures
        r == spec_curve_index(value),
{
    match value {
        CurveParams::Constant { .. } => 0,
        CurveParams::Fixed { .. } => 1,
        CurveParams::Linear { .. } => 2,
    }
}

/// Buy 0, sell 1.
pub open spec fn spec_trade_direction_index(value: TradeDirection) -> i32 {
    match value {
        TradeDirection::Buy => 0,
        TradeDirection::Sell => 1,
    }
}

pub fn map_enum_trade_direction(value: TradeDirection) -> (r: i32)
    ensures
        r == spec_trade_direction_index(value),
{
    match value {
        TradeDirection::Buy => 0,
        TradeDirection::Sell => 1,
    }
}

/// Fund 0, migrate 1, trade 2.
pub open spec fn spec_pool_status_index(value: PoolStatus) -> i32 {
    match value {
        PoolStatus::Fund => 0,
        PoolStatus::Migrate => 1,
        PoolStatus::Trade => 2,
    }
}

pub fn map_enum_pool_status(value: PoolStatus) -> (r: i32)
    ensures
        r == spec_pool_status_index(value),
{
    match value {
        PoolStatus::Fund => 0,
        PoolStatus::Migrate => 1,
        PoolStatus::Trade => 2,
    }
}

/// Fee wallet 0, NFT wallet 1, NFT split 2, fee rate 3, name 4, web 5,
/// image 6.
pub open spec fn spec_platform_config_index(value: PlatformConfigParam) -> i32 {
    match value {
        PlatformConfigParam::FeeWallet(_) => 0,
        PlatformConfigParam::NFTWallet(_) => 1,
        PlatformConfigParam::MigrateNftInfo(_) => 2,
        PlatformConfigParam::FeeRate(_) => 3,
        PlatformConfigParam::Name(_) => 4,
        PlatformConfigParam::Web(_) => 5,
        PlatformConfigParam::Img(_) => 6,
    }
}

pub fn map_enum_platform_config_param(value: PlatformConfigParam) -> (r: i32)
    ensures
        r == spec_platform_config_index(value),
{
    match value {
        PlatformConfigParam::FeeWallet(_) => 0,
        PlatformConfigParam::NFTWallet(_) => 1,
        PlatformConfigParam::MigrateNftInfo(_) => 2,
        PlatformConfigParam::FeeRate(_) => 3,
        PlatformConfigParam::Name(_) => 4,
        PlatformConfigParam::Web(_) => 5,
        PlatformConfigParam::Img(_) => 6,
    }
}

pub open spec fn spec_migrate_nft_info(v: idl::MigrateNftInfo) -> MigrateNftInfo {
    MigrateNftInfo {
        platform_scale: v.platform_scale,
        creator_scale: v.creator_scale,
        burn_scale: v.burn_scale,
    }
}

pub fn map_option_migrate_nft_info(value: Option<idl::MigrateNftInfo>) -> (r: Option<MigrateNftInfo>)
    ensures
        r == match value {
            Some(v) => Some(spec_migrate_nft_info(v)),
            None => None,
        },
{
    match value {
        Some(v) => Some(
            MigrateNftInfo {
                platform_scale: v.platform_scale,
                creator_scale: v.creator_scale,
                burn_scale: v.burn_scale,
            },
        ),
        None => None,
    }
}

/// The reported mint parameters: the same, with the decimals widened.
pub open spec fn spec_mint_params(m: (u8, Seq<char>, Seq<char>, Seq<char>)) -> (
    u64,
    Seq<char>,
    Seq<char>,
    Seq<char>,
) {
    (m.0 as u64, m.1, m.2, m.3)
}

pub fn map_option_mint_params(value: Option<idl::MintParams>) -> (r: Option<MintParams>)
    ensures
        r is Some <==> value is Some,
        r is Some ==> r->0@ == spec_mint_params(value->0@),
{
    match value {
        Some(m) => Some(
            MintParams { decimals: m.decimals as u64, name: m.name, symbol: m.symbol, uri: m.uri },
        ),
        None => None,
    }
}

pub fn map_option_platform_params(value: Option<idl::PlatformParams>) -> (r: Option<PlatformParams>)
    ensures
        r is Some <==> value is Some,
        r is Some ==> ({
            let (p, q) = (value->0, r->0);
            &&& q.migrate_nft_info == Some(spec_migrate_nft_info(p.migrate_nft_info))
            &&& q.fee_rate == p.fee_rate
            &&& q.name@ == p.name@
            &&& q.web@ == p.web@
            &&& q.img@ == p.img@
        }),
{
    match value {
        Some(p) => Some(
            PlatformParams {
                migrate_nft_info: Some(
                    MigrateNftInfo {
                        platform_scale: p.migrate_nft_info.platform_scale,
                        creator_scale: p.migrate_nft_info.creator_scale,
                        burn_scale: p.migrate_nft_info.burn_scale,
                    },
                ),
                fee_rate: p.fee_rate,
                name: p.name,
                web: p.web,
                img: p.img,
            },
        ),
        None => None,
    }
}

pub open spec fn spec_vesting_params(v: idl::VestingParams) -> VestingParams {
    VestingParams {
        total_locked_amount: v.total_locked_amount,
        cliff_period: v.cliff_period,
        unlock_period: v.unlock_period,
    }
}

pub fn map_option_vesting_params(value: Option<idl::VestingParams>) -> (r: Option<VestingParams>)
    ensures
        r == match value {
            Some(v) => Some(spec_vesting_params(v)),
            None => None,
        },
{
    match value {
        Some(v) => Some(
            VestingParams {
                total_locked_amount: v.total_locked_amount,
                cliff_period: v.cliff_period,
                unlock_period: v.unlock_period,
            },
        ),
        None => None,
    }
}

/// Whether pool creations and trades on this platform are reported.
pub open spec fn is_tracked_platform(k: Pubkey) -> bool {
    k.0@ == CREATOR_PLATFORM_ID@ || k.0@ == CONTENT_PLATFORM_ID@
}

pub open spec fn spec_pool_create_event(
    hash: Seq<char>,
    platform: Pubkey,
    mint: Pubkey,
    ev: PoolCreateEventModel,
) -> PoolCreateEventEventModel {
    PoolCreateEventEventModel {
        trx_hash: hash,
        platform_id: platform,
        mint,
        pool_state: ev.pool_state,
        creator: ev.creator,
        config: ev.config,
        base_mint_param: Some(spec_mint_params(ev.base_mint_param)),
        curve_param: spec_curve_index(ev.curve_param),
        vesting_param: Some(spec_vesting_params(ev.vesting_param)),
    }
}

pub open spec fn spec_trade_event(hash: Seq<char>, platform: Pubkey, mint: Pubkey, ev: TradeEvent) -> TradeEventEventModel {
    TradeEventEventModel {
        trx_hash: hash,
        platform_id: platform,
        mint,
        pool_state: ev.pool_state,
        total_base_sell: ev.total_base_sell,
        virtual_base: ev.virtual_base,
        virtual_quote: ev.virtual_quote,
        real_base_before: ev.real_base_before,
        real_quote_before: ev.real_quote_before,
        real_base_after: ev.real_base_after,
        real_quote_after: ev.real_quote_after,
        amount_in: ev.amount_in,
        amount_out: ev.amount_out,
        protocol_fee: ev.protocol_fee,
        platform_fee: ev.platform_fee,
        share_fee: ev.share_fee,
        trade_direction: spec_trade_direction_index(ev.trade_direction),
        pool_status: spec_pool_status_index(ev.pool_status),
    }
}

/// A pool creation: none on an untracked platform; otherwise the event
/// record, with the platform and the mint that the top-level instruction
/// names.
pub open spec fn spec_parse_create_instruction(ix: Instruction, top: Instruction, hash: Seq<char>) -> Result<
    Option<PoolCreateEventEventModel>,
    DecodeError,
> {
    match top.spec_account(PLATFORM_ACCOUNT as int) {
        Err(e) => Err(e),
        Ok(platform) => if !is_tracked_platform(platform) {
            Ok(None)
        } else {
            match top.spec_account(CREATE_MINT_ACCOUNT as int) {
                Err(e) => Err(e),
                Ok(mint) => match PoolCreateEvent::spec_unpack(spec_rest(ix.data@, 16)) {
                    Err(e) => Err(e),
                    Ok(ev) => Ok(Some(spec_pool_create_event(hash, platform, mint, ev))),
                },
            }
        },
    }
}

/// A trade: none on an untracked platform; otherwise the event record, with
/// the platform and the mint that the top-level instruction names.
pub open spec fn spec_parse_trade_instruction(ix: Instruction, top: Instruction, hash: Seq<char>) -> Result<
    Option<TradeEventEventModel>,
    DecodeError,
> {
    match top.spec_account(PLATFORM_ACCOUNT as int) {
        Err(e) => Err(e),
        Ok(platform) => if !is_tracked_platform(platform) {
            Ok(None)
        } else {
            match top.spec_account(TRADE_MINT_ACCOUNT as int) {
                Err(e) => Err(e),
                Ok(mint) => match TradeEvent::spec_unpack(spec_rest(ix.data@, 16)) {
                    Err(e) => Err(e),
                    Ok(ev) => Ok(Some(spec_trade_event(hash, platform, mint, ev))),
                },
            }
        },
    }
}

pub open spec fn spec_parse_claim_instruction(ix: Instruction, hash: Seq<char>) -> Result<
    ClaimVestedEventEventModel,
    DecodeError,
> {
    match ClaimVestedEvent::spec_unpack(spec_rest(ix.data@, 16)) {
        Err(e) => Err(e),
        Ok(ev) => Ok(
            ClaimVestedEventEventModel {
                trx_hash: hash,
                pool_state: ev.pool_state,
                beneficiary: ev.beneficiary,
                claim_amount: ev.claim_amount,
            },
        ),
    }
}

pub open spec fn spec_parse_create_vesting_instruction(ix: Instruction, hash: Seq<char>) -> Result<
    CreateVestingEventEventModel,
    DecodeError,
> {
    match CreateVestingEvent::spec_unpack(spec_rest(ix.data@, 16)) {
        Err(e) => Err(e),
        Ok(ev) => Ok(
            CreateVestingEventEventModel {
                trx_hash: hash,
                pool_state: ev.pool_state,
                beneficiary: ev.beneficiary,
                share_amount: ev.share_amount,
            },
        ),
    }
}

/// The event that one visited instruction yields, given its top-level
/// ancestor `top`: none for another program, a payload too short for a tag,
/// an unknown tag or an untracked platform; otherwise the event decoded from
/// the bytes after the tag, or why it could not be. Each event carries the
/// base-58 text of the transaction's signature.
#[verifier::opaque]
pub open spec fn spec_parse_instruction(signature: Seq<u8>, ix: Instruction, top: Instruction) -> Result<
    Option<EventModel>,
    DecodeError,
> {
    let d = ix.data@;
    let hash = base58_of(signature);
    if ix.program_id.0@ != FRENS_PROGRAM_ID@ || d.len() < 16 {
        Ok(None)
    } else if spec_tag_at(d, 8, POOL_CREATE_EVENT_TAG@) {
        match spec_parse_create_instruction(ix, top, hash) {
            Err(e) => Err(e),
            Ok(None) => Ok(None),
            Ok(Some(e)) => Ok(Some(EventModel::PoolCreateEvent(e))),
        }
    } else if spec_tag_at(d, 8, TRADE_EVENT_TAG@) {
        match spec_parse_trade_instruction(ix, top, hash) {
            Err(e) => Err(e),
            Ok(None) => Ok(None),
            Ok(Some(e)) => Ok(Some(EventModel::TradeEvent(e))),
        }
    } else if spec_tag_at(d, 8, CLAIM_VESTED_EVENT_TAG@) {
        match spec_parse_claim_instruction(ix, hash) {
            Err(e) => Err(e),
            Ok(e) => Ok(Some(EventModel::ClaimVested(e))),
        }
    } else if spec_tag_at(d, 8, CREATE_VESTING_EVENT_TAG@) {
        match spec_parse_create_vesting_instruction(ix, hash) {
            Err(e) => Err(e),
            Ok(e) => Ok(Some(EventModel::CreateVestingEvent(e))),
        }
    } else {
        Ok(None)
    }
}

/// The platform named by the top-level instruction, if it is a tracked one.
fn tracked_platform(top: &Instruction) -> (r: Result<Option<Pubkey>, DecodeError>)
    ensures
        match top.spec_account(PLATFORM_ACCOUNT as int) {
            Err(e) => r == Err::<Option<Pubkey>, DecodeError>(e),
            Ok(p) => r == Ok::<Option<Pubkey>, DecodeError>(
                if is_tracked_platform(p) {
                    Some(p)
                } else {
                    None
                },
            ),
        },
{
    let platform = top.account(PLATFORM_ACCOUNT)?;
    if is_key(&platform, &CREATOR_PLATFORM_ID) || is_key(&platform, &CONTENT_PLATFORM_ID) {
        Ok(Some(platform))
    } else {
        Ok(None)
    }
}

fn parse_create_instruction(transaction: &Transaction, instruction: &Instruction, top: &Instruction) -> (r: Result<
    Option<PoolCreateEventEvent>,
    DecodeError,
>)
    requires
        instruction.data@.len() >= 16,
    ensures
        match r {
            Ok(Some(e)) => spec_parse_create_instruction(*instruction, *top, base58_of(transaction.signature@)) == Ok::<
                Option<PoolCreateEventEventModel>,
                DecodeError,
            >(Some(e@)),
            Ok(None) => spec_parse_create_instruction(*instruction, *top, base58_of(transaction.signature@)) == Ok::<
                Option<PoolCreateEventEventModel>,
                DecodeError,
            >(None),
            Err(e) => spec_parse_create_instruction(*instruction, *top, base58_of(transaction.signature@)) == Err::<
                Option<PoolCreateEventEventModel>,
                DecodeError,
            >(e),
        },
{
    let platform = match tracked_platform(top)? {
        Some(p) => p,
        None => return Ok(None),
    };
    let mint = top.account(CREATE_MINT_ACCOUNT)?;
    let ev = PoolCreateEvent::unpack(rest(instruction.data.as_slice(), 16))?;
    let curve_param = map_enum_curve_params(ev.curve_param);
    let vesting_param = map_option_vesting_params(Some(ev.vesting_param));
    let base_mint_param = map_option_mint_params(Some(ev.base_mint_param));
    let out = PoolCreateEventEvent {
        trx_hash: transaction.signature_text(),
        platform_id: platform,
        mint,
        pool_state: ev.pool_state,
        creator: ev.creator,
        config: ev.config,
        base_mint_param,
        curve_param,
        vesting_param,
    };
    assert(out@ == spec_pool_create_event(base58_of(transaction.signature@), platform, mint, ev@));
    Ok(Some(out))
}

fn parse_trade_instruction(transaction: &Transaction, instruction: &Instruction, top: &Instruction) -> (r: Result<
    Option<TradeEventEvent>,
    DecodeError,
>)
    requires
        instruction.data@.len() >= 16,
    ensures
        match r {
            Ok(Some(e)) => spec_parse_trade_instruction(*instruction, *top, base58_of(transaction.signature@))
                == Ok::<Option<TradeEventEventModel>, DecodeError>(Some(e@)),
            Ok(None) => spec_parse_trade_instruction(*instruction, *top, base58_of(transaction.signature@))
                == Ok::<Option<TradeEventEventModel>, DecodeError>(None),
            Err(e) => spec_parse_trade_instruction(*instruction, *top, base58_of(transaction.signature@))
                == Err::<Option<TradeEventEventModel>, DecodeError>(e),
        },
{
    let platform = match tracked_platform(top)? {
        Some(p) => p,
        None => return Ok(None),
    };
    let mint = top.account(TRADE_MINT_ACCOUNT)?;
    let ev = TradeEvent::unpack(rest(instruction.data.as_slice(), 16))?;
    Ok(
        Some(
            TradeEventEvent {
                trx_hash: transaction.signature_text(),
                platform_id: platform,
                mint,
                pool_state: ev.pool_state,
                total_base_sell: ev.total_base_sell,
                virtual_base: ev.virtual_base,
                virtual_quote: ev.virtual_quote,
                real_base_before: ev.real_base_before,
                real_quote_before: ev.real_quote_before,
                real_base_after: ev.real_base_after,
                real_quote_after: ev.real_quote_after,
                amount_in: ev.amount_in,
                amount_out: ev.amount_out,
                protocol_fee: ev.protocol_fee,
                platform_fee: ev.platform_fee,
                share_fee: ev.share_fee,
                trade_direction: map_enum_trade_direction(ev.trade_direction),
                pool_status: map_enum_pool_status(ev.pool_status),
            },
        ),
    )
}

fn parse_claim_instruction(transaction: &Transaction, instruction: &Instruction) -> (r: Result<
    ClaimVestedEventEvent,
    DecodeError,
>)
    requires
        instruction.data@.len() >= 16,
    ensures
        match r {
            Ok(e) => spec_parse_claim_instruction(*instruction, base58_of(transaction.signature@))
                == Ok::<ClaimVestedEventEventModel, DecodeError>(e@),
            Err(e) => spec_parse_claim_instruction(*instruction, base58_of(transaction.signature@))
                == Err::<ClaimVestedEventEventModel, DecodeError>(e),
        },
{
    let ev = ClaimVestedEvent::unpack(rest(instruction.data.as_slice(), 16))?;
    Ok(
        ClaimVestedEventEvent {
            trx_hash: transaction.signature_text(),
            pool_state: ev.pool_state,
            beneficiary: ev.beneficiary,
            claim_amount: ev.claim_amount,
        },
    )
}

fn parse_create_vesting_instruction(transaction: &Transaction, instruction: &Instruction) -> (r: Result<
    CreateVestingEventEvent,
    DecodeError,
>)
    requires
        instruction.data@.len() >= 16,
    ensures
        match r {
            Ok(e) => spec_parse_create_vesting_instruction(*instruction, base58_of(transaction.signature@))
                == Ok::<CreateVestingEventEventModel, DecodeError>(e@),
            Err(e) => spec_parse_create_vesting_instruction(*instruction, base58_of(transaction.signature@))
                == Err::<CreateVestingEventEventModel, DecodeError>(e),
        },
{
    let ev = CreateVestingEvent::unpack(rest(instruction.data.as_slice(), 16))?;
    Ok(
        CreateVestingEventEvent {
            trx_hash: transaction.signature_text(),
            pool_state: ev.pool_state,
            beneficiary: ev.beneficiary,
            share_amount: ev.share_amount,
        },
    )
}

/// Decodes one visited instruction of `transaction`, given its top-level
/// ancestor.
pub fn parse_instruction(transaction: &Transaction, instruction: &Instruction, top: &Instruction) -> (r: Result<
    Option<Event>,
    DecodeError,
>)
    ensures
        match r {
            Ok(Some(e)) => spec_parse_instruction(transaction.signature@, *instruction, *top) == Ok::<
                Option<EventModel>,
                DecodeError,
            >(Some(e@)),
            Ok(None) => spec_parse_instruction(transaction.signature@, *instruction, *top) == Ok::<
                Option<EventModel>,
                DecodeError,
            >(None),
            Err(e) => spec_parse_instruction(transaction.signature@, *instruction, *top) == Err::<
                Option<EventModel>,
                DecodeError,
            >(e),
        },
{
    reveal(spec_parse_instruction);
    let data = instruction.data.as_slice();
    if !is_key(&instruction.program_id, &FRENS_PROGRAM_ID) || data.len() < 16 {
        return Ok(None);
    }
    if tag_at(data, 8, &POOL_CREATE_EVENT_TAG) {
        match parse_create_instruction(transaction, instruction, top)? {
            Some(e) => Ok(Some(Event::PoolCreateEvent(e))),
            None => Ok(None),
        }
    } else if tag_at(data, 8, &TRADE_EVENT_TAG) {
        match parse_trade_instruction(transaction, instruction, top)? {
            Some(e) => Ok(Some(Event::TradeEvent(e))),
            None => Ok(None),
        }
    } else if tag_at(data, 8, &CLAIM_VESTED_EVENT_TAG) {
        Ok(Some(Event::ClaimVested(parse_claim_instruction(transaction, instruction)?)))
    } else if tag_at(data, 8, &CREATE_VESTING_EVENT_TAG) {
        Ok(Some(Event::CreateVestingEvent(parse_create_vesting_instruction(transaction, instruction)?)))
    } else {
        Ok(None)
    }
}

pub open spec fn events_view(v: Seq<Event>) -> Seq<EventModel> {
    v.map_values(|e: Event| e@)
}

/// The events of the first `n` visited instructions, in visiting order.
pub open spec fn events_upto(nodes: Seq<(Instruction, Instruction)>, signature: Seq<u8>, n: nat) -> Seq<EventModel>
    decreases n,
{
    if n == 0 || n > nodes.len() {
        seq![]
    } else {
        events_upto(nodes, signature, (n - 1) as nat) + match spec_parse_instruction(
            signature,
            nodes[n - 1].0,
            nodes[n - 1].1,
        ) {
            Ok(Some(e)) => seq![e],
            _ => seq![],
        }
    }
}

/// The failures among the first `n` visited instructions, in visiting order.
pub open spec fn failures_upto(nodes: Seq<(Instruction, Instruction)>, signature: Seq<u8>, n: nat) -> Seq<Failure>
    decreases n,
{
    if n == 0 || n > nodes.len() {
        seq![]
    } else {
        failures_upto(nodes, signature, (n - 1) as nat) + match spec_parse_instruction(
            signature,
            nodes[n - 1].0,
            nodes[n - 1].1,
        ) {
            Err(e) => seq![Failure { index: (n - 1) as usize, error: e }],
            _ => seq![],
        }
    }
}

/// A failed transaction yields nothing; otherwise every instruction, in
/// pre-order, contributes its event, if any.
#[verifier::opaque]
pub open spec fn spec_transaction_events(tx: Transaction) -> Seq<EventModel> {
    if tx.failed {
        seq![]
    } else {
        events_upto(flat(tx), tx.signature@, flat(tx).len())
    }
}

#[verifier::opaque]
pub open spec fn spec_transaction_failures(tx: Transaction) -> Seq<Failure> {
    if tx.failed {
        seq![]
    } else {
        failures_upto(flat(tx), tx.signature@, flat(tx).len())
    }
}

/// Decodes a transaction: its events in instruction pre-order, and the
/// instructions that could not be decoded. A failure stops neither the
/// transaction nor the block.
pub fn parse_transaction(transaction: &Transaction) -> (r: (Vec<Event>, Vec<Failure>))
    ensures
        events_view(r.0@) == spec_transaction_events(*transaction),
        r.1@ == spec_transaction_failures(*transaction),
{
    reveal(spec_transaction_events);
    reveal(spec_transaction_failures);
    let mut events: Vec<Event> = Vec::new();
    let mut failures: Vec<Failure> = Vec::new();
    if transaction.failed {
        assert(events_view(events@) =~= Seq::<EventModel>::empty());
        return (events, failures);
    }
    let nodes = flatten(transaction);
    let ghost gnodes = flat(*transaction);
    let n = nodes.len();
    let mut k: usize = 0;
    while k < n
        invariant
            n == nodes@.len(),
            k <= n,
            gnodes == flat(*transaction),
            nodes_view(nodes@) == gnodes,
            events_view(events@) == events_upto(gnodes, transaction.signature@, k as nat),
            failures@ == failures_upto(gnodes, transaction.signature@, k as nat),
        decreases n - k,
    {
        let (ix, top) = nodes[k];
        assert(*ix == gnodes[k as int].0 && *top == gnodes[k as int].1);
        match parse_instruction(transaction, ix, top) {
            Ok(Some(e)) => {
                let ghost before = events@;
                events.push(e);
                assert(events_view(events@) =~= events_view(before).push(e@));
            },
            Ok(None) => {},
            Err(error) => failures.push(Failure { index: k, error }),
        }
        k = k + 1;
    }
    (events, failures)
}

/// The block's records: one per transaction with at least one event, under
/// the base-58 text of its signature, in block order.
pub open spec fn block_records(txs: Seq<Transaction>, n: nat) -> Seq<(Seq<char>, Seq<EventModel>)>
    decreases n,
{
    if n == 0 || n > txs.len() {
        seq![]
    } else {
        let ev = spec_transaction_events(txs[n - 1]);
        block_records(txs, (n - 1) as nat) + if ev.len() == 0 {
            seq![]
        } else {
            seq![(base58_of(txs[n - 1].signature@), ev)]
        }
    }
}

/// The block's failures, each with the position of its transaction.
pub open spec fn block_failures(txs: Seq<Transaction>, n: nat) -> Seq<(usize, Failure)>
    decreases n,
{
    if n == 0 || n > txs.len() {
        seq![]
    } else {
        block_failures(txs, (n - 1) as nat) + spec_transaction_failures(txs[n - 1]).map_values(
            |f: Failure| ((n - 1) as usize, f),
        )
    }
}

pub open spec fn records_view(v: Seq<FrensTransactionEvents>) -> Seq<(Seq<char>, Seq<EventModel>)> {
    v.map_values(|t: FrensTransactionEvents| (t.signature@, events_view(t.events@)))
}

/// Decodes every transaction of a block.
pub fn parse_block(block: &Block) -> (r: (Vec<FrensTransactionEvents>, Vec<(usize, Failure)>))
    ensures
        records_view(r.0@) == block_records(block.transactions@, block.transactions@.len()),
        r.1@ == block_failures(block.transactions@, block.transactions@.len()),
{
    let mut records: Vec<FrensTransactionEvents> = Vec::new();
    let mut failures: Vec<(usize, Failure)> = Vec::new();
    let n = block.transactions.len();
    let mut t: usize = 0;
    while t < n
        invariant
            n == block.transactions@.len(),
            t <= n,
            records_view(records@) == block_records(block.transactions@, t as nat),
            failures@ == block_failures(block.transactions@, t as nat),
        decreases n - t,
    {
        let tx = &block.transactions[t];
        let (events, tx_failures) = parse_transaction(tx);
        let ghost before = failures@;
        let m = tx_failures.len();
        let mut i: usize = 0;
        while i < m
            invariant
                m == tx_failures@.len(),
                i <= m,
                failures@ == before + tx_failures@.take(i as int).map_values(
                    |f: Failure| (t, f),
                ),
            decreases m - i,
        {
            failures.push((t, tx_failures[i]));
            assert(tx_failures@.take(i + 1) =~= tx_failures@.take(i as int).push(tx_failures@[i as int]));
            i = i + 1;
        }
        assert(tx_failures@.take(m as int) =~= tx_failures@);
        assert(failures@ =~= block_failures(block.transactions@, (t + 1) as nat));
        if events.len() > 0 {
            let signature = tx.signature_text();
            let ghost old_records = records@;
            let ghost ev = events_view(events@);
            records.push(FrensTransactionEvents { signature, events });
            assert(records_view(records@) =~= records_view(old_records).push((signature@, ev)));
        } else {
            assert(events_view(events@) =~= Seq::<EventModel>::empty());
        }
        t = t + 1;
    }
    (records, failures)
}

/// The enum mappings are exhaustive and one-to-one: distinct variants map to
/// distinct integers, a decoded variant index maps back to itself, and an
/// index outside the known set is `UnmappedEnumVariant`.
pub proof fn law_enum_mappings(
    d1: TradeDirection,
    d2: TradeDirection,
    s1: PoolStatus,
    s2: PoolStatus,
    c1: CurveParams,
    c2: CurveParams,
    i: u8,
)
    ensures
        spec_trade_direction_index(d1) == spec_trade_direction_index(d2) <==> d1 == d2,
        spec_pool_status_index(s1) == spec_pool_status_index(s2) <==> s1 == s2,
        spec_curve_index(c1) == spec_curve_index(c2) <==> (c1 is Constant && c2 is Constant) || (
        c1 is Fixed && c2 is Fixed) || (c1 is Linear && c2 is Linear),
        idl::spec_trade_direction(i) matches Ok(d) ==> spec_trade_direction_index(d) == i as i32,
        idl::spec_pool_status(i) matches Ok(p) ==> spec_pool_status_index(p) == i as i32,
        idl::spec_trade_direction(i) is Err <==> i > 1,
        idl::spec_pool_status(i) is Err <==> i > 2,
        idl::spec_trade_direction(i) matches Err(e) ==> e == DecodeError::UnmappedEnumVariant,
        idl::spec_pool_status(i) matches Err(e) ==> e == DecodeError::UnmappedEnumVariant,
{
}

} // verus!
