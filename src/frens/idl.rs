//! The launch program's event records and the types they are built from,
//! as the program lays them out: fixed-width little-endian integers, 32-byte
//! keys, length-prefixed text, and enums as a one-byte variant index followed
//! by the variant's fields.
use vstd::prelude::*;
use crate::bytes::{
    key_at, read_pubkey, read_string, read_u64, read_u8, spec_key_at, spec_string_at,
    spec_u64_at, spec_u8_at, u64_at, u8_at, DecodeError, Pubkey,
};

verus! {

pub const POOL_CREATE_EVENT_TAG: [u8; 8] = [151, 215, 226, 9, 118, 161, 115, 174];
pub const TRADE_EVENT_TAG: [u8; 8] = [189, 219, 127, 211, 78, 230, 97, 238];
pub const CLAIM_VESTED_EVENT_TAG: [u8; 8] = [21, 194, 114, 87, 120, 211, 226, 32];
pub const CREATE_VESTING_EVENT_TAG: [u8; 8] = [150, 152, 11, 179, 52, 210, 191, 125];

#[derive(Debug, Clone, Copy, PartialEq, Eq, Structural)]
pub enum TradeDirection {
    Buy,
    Sell,
}

#[derive(Debug, Clone, Copy, PartialEq, Eq, Structural)]
pub enum PoolStatus {
    Fund,
    Migrate,
    Trade,
}

/// Variant index 0 is `Buy`, 1 is `Sell`; any other is unmapped.
pub open spec fn spec_trade_direction(i: u8) -> Result<TradeDirection, DecodeError> {
    if i == 0 {
        Ok(TradeDirection::Buy)
    } else if i == 1 {
        Ok(TradeDirection::Sell)
    } else {
        Err(DecodeError::UnmappedEnumVariant)
    }
}

pub fn trade_direction_from_index(i: u8) -> (r: Result<TradeDirection, DecodeError>)
    ensures
        r == spec_trade_direction(i),
        r is Err <==> i > 1,
{
    if i == 0 {
        Ok(TradeDirection::Buy)
    } else if i == 1 {
        Ok(TradeDirection::Sell)
    } else {
        Err(DecodeError::UnmappedEnumVariant)
    }
}

/// Variant index 0 is `Fund`, 1 is `Migrate`, 2 is `Trade`; any other is
/// unmapped.
pub open spec fn spec_pool_status(i: u8) -> Result<PoolStatus, DecodeError> {
    if i == 0 {
        Ok(PoolStatus::Fund)
    } else if i == 1 {
        Ok(PoolStatus::Migrate)
    } else if i == 2 {
        Ok(PoolStatus::Trade)
    } else {
        Err(DecodeError::UnmappedEnumVariant)
    }
}

pub fn pool_status_from_index(i: u8) -> (r: Result<PoolStatus, DecodeError>)
    ensures
        r == spec_pool_status(i),
        r is Err <==> i > 2,
{
    if i == 0 {
        Ok(PoolStatus::Fund)
    } else if i == 1 {
        Ok(PoolStatus::Migrate)
    } else if i == 2 {
        Ok(PoolStatus::Trade)
    } else {
        Err(DecodeError::UnmappedEnumVariant)
    }
}

#[derive(Debug, Clone, Copy, PartialEq, Eq, Structural)]
pub struct ConstantCurve {
    pub supply: u64,
    pub total_base_sell: u64,
    pub total_quote_fund_raising: u64,
    pub migrate_type: u8,
}

#[derive(Debug, Clone, Copy, PartialEq, Eq, Structural)]
pub struct FixedCurve {
    pub supply: u64,
    pub total_quote_fund_raising: u64,
    pub migrate_type: u8,
}

#[derive(Debug, Clone, Copy, PartialEq, Eq, Structural)]
pub struct LinearCurve {
    pub supply: u64,
    pub total_quote_fund_raising: u64,
    pub migrate_type: u8,
}

/// The shape of a bonding curve.
#[derive(Debug, Clone, Copy, PartialEq, Eq, Structural)]
pub enum CurveParams {
    Constant { data: ConstantCurve },
    Fixed { data: FixedCurve },
    Linear { data: LinearCurve },
}

/// A curve at `pos`: index 0 is a constant curve (three `u64` and a `u8`),
/// 1 a fixed and 2 a linear one (two `u64` and a `u8` each); any other index
/// is unmapped. Gives the curve and the position past it.
pub open spec fn spec_curve_params_at(s: Seq<u8>, pos: int) -> Result<(CurveParams, int), DecodeError> {
    if pos < 0 || pos + 1 > s.len() {
        Err(DecodeError::Truncated)
    } else {
        let i = s[pos];
        let p = pos + 1;
        if i == 0 {
            if p + 25 > s.len() {
                Err(DecodeError::Truncated)
            } else {
                Ok(
                    (
                        CurveParams::Constant {
                            data: ConstantCurve {
                                supply: spec_u64_at(s, p),
                                total_base_sell: spec_u64_at(s, p + 8),
                                total_quote_fund_raising: spec_u64_at(s, p + 16),
                                migrate_type: spec_u8_at(s, p + 24),
                            },
                        },
                        p + 25,
                    ),
                )
            }
        } else if i == 1 || i == 2 {
            if p + 17 > s.len() {
                Err(DecodeError::Truncated)
            } else {
                let supply = spec_u64_at(s, p);
                let raising = spec_u64_at(s, p + 8);
                let migrate = spec_u8_at(s, p + 16);
                if i == 1 {
                    Ok(
                        (
                            CurveParams::Fixed {
                                data: FixedCurve {
                                    supply,
                                    total_quote_fund_raising: raising,
                                    migrate_type: migrate,
                                },
                            },
                            p + 17,
                        ),
                    )
                } else {
                    Ok(
                        (
                            CurveParams::Linear {
                                data: LinearCurve {
                                    supply,
                                    total_quote_fund_raising: raising,
                                    migrate_type: migrate,
                                },
                            },
                            p + 17,
                        ),
                    )
                }
            }
        } else {
            Err(DecodeError::UnmappedEnumVariant)
        }
    }
}

pub fn read_curve_params(data: &[u8], pos: usize) -> (r: Result<(CurveParams, usize), DecodeError>)
    ensures
        r matches Ok((v, end)) ==> spec_curve_params_at(data@, pos as int) == Ok::<
            (CurveParams, int),
            DecodeError,
        >((v, end as int)),
        r matches Err(e) ==> spec_curve_params_at(data@, pos as int) == Err::<
            (CurveParams, int),
            DecodeError,
        >(e),
{
    let (i, p) = read_u8(data, pos)?;
    let n = data.len();
    if i == 0 {
        if p > n || n - p < 25 {
            return Err(DecodeError::Truncated);
        }
        Ok(
            (
                CurveParams::Constant {
                    data: ConstantCurve {
                        supply: u64_at(data, p),
                        total_base_sell: u64_at(data, p + 8),
                        total_quote_fund_raising: u64_at(data, p + 16),
                        migrate_type: u8_at(data, p + 24),
                    },
                },
                p + 25,
            ),
        )
    } else if i == 1 || i == 2 {
        if p > n || n - p < 17 {
            return Err(DecodeError::Truncated);
        }
        let supply = u64_at(data, p);
        let raising = u64_at(data, p + 8);
        let migrate = u8_at(data, p + 16);
        if i == 1 {
            Ok(
                (
                    CurveParams::Fixed {
                        data: FixedCurve {
                            supply,
                            total_quote_fund_raising: raising,
                            migrate_type: migrate,
                        },
                    },
                    p + 17,
                ),
            )
        } else {
            Ok(
                (
                    CurveParams::Linear {
                        data: LinearCurve {
                            supply,
                            total_quote_fund_raising: raising,
                            migrate_type: migrate,
                        },
                    },
                    p + 17,
                ),
            )
        }
    } else {
        Err(DecodeError::UnmappedEnumVariant)
    }
}

/// The token minted at launch.
#[derive(Debug)]
pub struct MintParams {
    pub decimals: u8,
    pub name: String,
    pub symbol: String,
    pub uri: String,
}

impl View for MintParams {
    type V = (u8, Seq<char>, Seq<char>, Seq<char>);

    open spec fn view(&self) -> (u8, Seq<char>, Seq<char>, Seq<char>) {
        (self.decimals, self.name@, self.symbol@, self.uri@)
    }
}

/// Mint parameters at `pos`: decimals, then name, symbol and URI as
/// length-prefixed text.
pub open spec fn spec_mint_params_at(s: Seq<u8>, pos: int) -> Result<
    ((u8, Seq<char>, Seq<char>, Seq<char>), int),
    DecodeError,
> {
    if pos < 0 || pos + 1 > s.len() {
        Err(DecodeError::Truncated)
    } else {
        match spec_string_at(s, pos + 1) {
            Err(e) => Err(e),
            Ok((name, p)) => match spec_string_at(s, p) {
                Err(e) => Err(e),
                Ok((symbol, q)) => match spec_string_at(s, q) {
                    Err(e) => Err(e),
                    Ok((uri, end)) => Ok(((s[pos], name, symbol, uri), end)),
                },
            },
        }
    }
}

pub fn read_mint_params(data: &[u8], pos: usize) -> (r: Result<(MintParams, usize), DecodeError>)
    ensures
        r matches Ok((v, end)) ==> spec_mint_params_at(data@, pos as int) == Ok::<
            ((u8, Seq<char>, Seq<char>, Seq<char>), int),
            DecodeError,
        >((v@, end as int)),
        r matches Err(e) ==> spec_mint_params_at(data@, pos as int) == Err::<
            ((u8, Seq<char>, Seq<char>, Seq<char>), int),
            DecodeError,
        >(e),
{
    let (decimals, p) = read_u8(data, pos)?;
    let (name, p) = read_string(data, p)?;
    let (symbol, p) = read_string(data, p)?;
    let (uri, p) = read_string(data, p)?;
    Ok((MintParams { decimals, name, symbol, uri }, p))
}

/// How the creator's share unlocks.
#[derive(Debug, Clone, Copy, PartialEq, Eq, Structural)]
pub struct VestingParams {
    pub total_locked_amount: u64,
    pub cliff_period: u64,
    pub unlock_period: u64,
}

pub open spec fn spec_vesting_params_at(s: Seq<u8>, pos: int) -> Result<(VestingParams, int), DecodeError> {
    if pos < 0 || pos + 24 > s.len() {
        Err(DecodeError::Truncated)
    } else {
        Ok(
            (
                VestingParams {
                    total_locked_amount: spec_u64_at(s, pos),
                    cliff_period: spec_u64_at(s, pos + 8),
                    unlock_period: spec_u64_at(s, pos + 16),
                },
                pos + 24,
            ),
        )
    }
}

pub fn read_vesting_params(data: &[u8], pos: usize) -> (r: Result<(VestingParams, usize), DecodeError>)
    ensures
        r matches Ok((v, end)) ==> spec_vesting_params_at(data@, pos as int) == Ok::<
            (VestingParams, int),
            DecodeError,
        >((v, end as int)),
        r matches Err(e) ==> spec_vesting_params_at(data@, pos as int) == Err::<
            (VestingParams, int),
            DecodeError,
        >(e),
{
    let (total_locked_amount, p) = read_u64(data, pos)?;
    let (cliff_period, p) = read_u64(data, p)?;
    let (unlock_period, p) = read_u64(data, p)?;
    Ok((VestingParams { total_locked_amount, cliff_period, unlock_period }, p))
}

/// What a platform's NFT proceeds are split into.
#[derive(Debug, Clone, Copy, PartialEq, Eq, Structural)]
pub struct MigrateNftInfo {
    pub platform_scale: u64,
    pub creator_scale: u64,
    pub burn_scale: u64,
}

/// A platform's configuration.
#[derive(Debug)]
pub struct PlatformParams {
    pub migrate_nft_info: MigrateNftInfo,
    pub fee_rate: u64,
    pub name: String,
    pub web: String,
    pub img: String,
}

/// One setting of a platform's configuration.
#[derive(Debug)]
pub enum PlatformConfigParam {
    FeeWallet(Pubkey),
    NFTWallet(Pubkey),
    MigrateNftInfo(MigrateNftInfo),
    FeeRate(u64),
    Name(String),
    Web(String),
    Img(String),
}

/// A pool was created on the launch program.
#[derive(Debug)]
pub struct PoolCreateEvent {
    pub pool_state: Pubkey,
    pub creator: Pubkey,
    pub config: Pubkey,
    pub base_mint_param: MintParams,
    pub curve_param: CurveParams,
    pub vesting_param: VestingParams,
}

pub struct PoolCreateEventModel {
    pub pool_state: Pubkey,
    pub creator: Pubkey,
    pub config: Pubkey,
    pub base_mint_param: (u8, Seq<char>, Seq<char>, Seq<char>),
    pub curve_param: CurveParams,
    pub vesting_param: VestingParams,
}

impl View for PoolCreateEvent {
    type V = PoolCreateEventModel;

    open spec fn view(&self) -> PoolCreateEventModel {
        PoolCreateEventModel {
            pool_state: self.pool_state,
            creator: self.creator,
            config: self.config,
            base_mint_param: self.base_mint_param@,
            curve_param: self.curve_param,
            vesting_param: self.vesting_param,
        }
    }
}

impl PoolCreateEvent {
    /// Three keys, the mint parameters, the curve and the vesting parameters,
    /// one after the other; bytes after them are ignored.
    pub open spec fn spec_unpack(s: Seq<u8>) -> Result<PoolCreateEventModel, DecodeError> {
        if s.len() < 96 {
            Err(DecodeError::Truncated)
        } else {
            match spec_mint_params_at(s, 96) {
                Err(e) => Err(e),
                Ok((mint, p)) => match spec_curve_params_at(s, p) {
                    Err(e) => Err(e),
                    Ok((curve, q)) => match spec_vesting_params_at(s, q) {
                        Err(e) => Err(e),
                        Ok((vesting, _)) => Ok(
                            PoolCreateEventModel {
                                pool_state: spec_key_at(s, 0),
                                creator: spec_key_at(s, 32),
                                config: spec_key_at(s, 64),
                                base_mint_param: mint,
                                curve_param: curve,
                                vesting_param: vesting,
                            },
                        ),
                    },
                },
            }
        }
    }

    pub fn unpack(data: &[u8]) -> (r: Result<Self, DecodeError>)
        ensures
            r matches Ok(v) ==> Self::spec_unpack(data@) == Ok::<
                PoolCreateEventModel,
                DecodeError,
            >(v@),
            r matches Err(e) ==> Self::spec_unpack(data@) == Err::<
                PoolCreateEventModel,
                DecodeError,
            >(e),
    {
        let (pool_state, p) = read_pubkey(data, 0)?;
        let (creator, p) = read_pubkey(data, p)?;
        let (config, p) = read_pubkey(data, p)?;
        let (base_mint_param, p) = read_mint_params(data, p)?;
        let (curve_param, p) = read_curve_params(data, p)?;
        let (vesting_param, _) = read_vesting_params(data, p)?;
        Ok(PoolCreateEvent { pool_state, creator, config, base_mint_param, curve_param, vesting_param })
    }
}

/// A trade on a launch pool.
#[derive(Debug, Clone, Copy)]
pub struct TradeEvent {
    pub pool_state: Pubkey,
    pub total_base_sell: u64,
    pub virtual_base: u64,
    pub virtual_quote: u64,
    pub real_base_before: u64,
    pub real_quote_before: u64,
    pub real_base_after: u64,
    pub real_quote_after: u64,
    pub amount_in: u64,
    pub amount_out: u64,
    pub protocol_fee: u64,
    pub platform_fee: u64,
    pub share_fee: u64,
    pub trade_direction: TradeDirection,
    pub pool_status: PoolStatus,
}

impl TradeEvent {
    /// A key, twelve `u64` figures, then the direction and the pool status as
    /// one-byte variant indexes: 130 bytes; bytes after them are ignored.
    pub open spec fn spec_unpack(s: Seq<u8>) -> Result<Self, DecodeError> {
        if s.len() < 130 {
            Err(DecodeError::Truncated)
        } else {
            match spec_trade_direction(s[128]) {
                Err(e) => Err(e),
                Ok(trade_direction) => match spec_pool_status(s[129]) {
                    Err(e) => Err(e),
                    Ok(pool_status) => Ok(
                        TradeEvent {
                            pool_state: spec_key_at(s, 0),
                            total_base_sell: spec_u64_at(s, 32),
                            virtual_base: spec_u64_at(s, 40),
                            virtual_quote: spec_u64_at(s, 48),
                            real_base_before: spec_u64_at(s, 56),
                            real_quote_before: spec_u64_at(s, 64),
                            real_base_after: spec_u64_at(s, 72),
                            real_quote_after: spec_u64_at(s, 80),
                            amount_in: spec_u64_at(s, 88),
                            amount_out: spec_u64_at(s, 96),
                            protocol_fee: spec_u64_at(s, 104),
                            platform_fee: spec_u64_at(s, 112),
                            share_fee: spec_u64_at(s, 120),
                            trade_direction,
                            pool_status,
                        },
                    ),
                },
            }
        }
    }

    pub fn unpack(data: &[u8]) -> (r: Result<Self, DecodeError>)
        ensures
            r == Self::spec_unpack(data@),
    {
        if data.len() < 130 {
            return Err(DecodeError::Truncated);
        }
        let trade_direction = trade_direction_from_index(data[128])?;
        let pool_status = pool_status_from_index(data[129])?;
        Ok(
            TradeEvent {
                pool_state: key_at(data, 0),
                total_base_sell: u64_at(data, 32),
                virtual_base: u64_at(data, 40),
                virtual_quote: u64_at(data, 48),
                real_base_before: u64_at(data, 56),
                real_quote_before: u64_at(data, 64),
                real_base_after: u64_at(data, 72),
                real_quote_after: u64_at(data, 80),
                amount_in: u64_at(data, 88),
                amount_out: u64_at(data, 96),
                protocol_fee: u64_at(data, 104),
                platform_fee: u64_at(data, 112),
                share_fee: u64_at(data, 120),
                trade_direction,
                pool_status,
            },
        )
    }
}

/// Vested tokens were claimed.
#[derive(Debug, Clone, Copy)]
pub struct ClaimVestedEvent {
    pub pool_state: Pubkey,
    pub beneficiary: Pubkey,
    pub claim_amount: u64,
}

impl ClaimVestedEvent {
    /// The record as laid out in `s`: 72 bytes of fixed-width fields; any
    /// bytes after them are ignored.
    pub open spec fn spec_unpack(s: Seq<u8>) -> Result<Self, DecodeError> {
        if s.len() < 72 {
            Err(DecodeError::Truncated)
        } else {
            Ok(ClaimVestedEvent {
                pool_state: spec_key_at(s, 0),
                beneficiary: spec_key_at(s, 32),
                claim_amount: spec_u64_at(s, 64),
            })
        }
    }

    pub fn unpack(data: &[u8]) -> (r: Result<Self, DecodeError>)
        ensures
            r == Self::spec_unpack(data@),
    {
        if data.len() < 72 {
            return Err(DecodeError::Truncated);
        }
        Ok(ClaimVestedEvent {
            pool_state: key_at(data, 0),
            beneficiary: key_at(data, 32),
            claim_amount: u64_at(data, 64),
        })
    }
}

/// A vesting account was created.
#[derive(Debug, Clone, Copy)]
pub struct CreateVestingEvent {
    pub pool_state: Pubkey,
    pub beneficiary: Pubkey,
    pub share_amount: u64,
}

impl CreateVestingEvent {
    /// The record as laid out in `s`: 72 bytes of fixed-width fields; any
    /// bytes after them are ignored.
    pub open spec fn spec_unpack(s: Seq<u8>) -> Result<Self, DecodeError> {
        if s.len() < 72 {
            Err(DecodeError::Truncated)
        } else {
            Ok(CreateVestingEvent {
                pool_state: spec_key_at(s, 0),
                beneficiary: spec_key_at(s, 32),
                share_amount: spec_u64_at(s, 64),
            })
        }
    }

    pub fn unpack(data: &[u8]) -> (r: Result<Self, DecodeError>)
        ensures
            r == Self::spec_unpack(data@),
    {
        if data.len() < 72 {
            return Err(DecodeError::Truncated);
        }
        Ok(CreateVestingEvent {
            pool_state: key_at(data, 0),
            beneficiary: key_at(data, 32),
            share_amount: u64_at(data, 64),
        })
    }
}

} // verus!
