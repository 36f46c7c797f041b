//! Event records that the pool program writes to its data log: an 8-byte
//! event tag, then the record.
use vstd::prelude::*;
use crate::bytes::{
    i64_at, key_at, rest, spec_i64_at, spec_key_at, spec_rest, spec_tag_at, spec_u16_at,
    spec_u64_at, spec_u8_at, tag_at, u16_at, u64_at, u8_at, DecodeError,
};
use super::instructions_cpi::{
    BuyCpiInstruction, CreatePoolCpiInstruction, DepositCpiInstruction, PumpfunAmmCpiInstruction,
    SellCpiInstruction, WithdrawCpiInstruction, BUY_EVENT_TAG, CREATE_POOL_EVENT_TAG,
    DEPOSIT_EVENT_TAG, SELL_EVENT_TAG, WITHDRAW_EVENT_TAG,
};

pub use crate::bytes::Pubkey;

verus! {

/// A decoded data-log event.
#[derive(Debug, Clone, Copy)]
pub enum PumpfunAmmLog {
    CreatePool(CreatePoolLog),
    Buy(BuyLog),
    Sell(SellLog),
    Deposit(DepositLog),
    Withdraw(WithdrawLog),
}

impl PumpfunAmmLog {
    /// A log shorter than a tag, or whose tag is none of the five event tags,
    /// is `Unrecognized`; otherwise the record that the tag names is decoded
    /// from the bytes after the tag.
    pub open spec fn spec_unpack(s: Seq<u8>) -> Result<Self, DecodeError> {
        let body = spec_rest(s, 8);
        if spec_tag_at(s, 0, CREATE_POOL_EVENT_TAG@) {
            match CreatePoolLog::spec_unpack(body) {
                Ok(v) => Ok(Self::CreatePool(v)),
                Err(e) => Err(e),
            }
        } else if spec_tag_at(s, 0, BUY_EVENT_TAG@) {
            match BuyLog::spec_unpack(body) {
                Ok(v) => Ok(Self::Buy(v)),
                Err(e) => Err(e),
            }
        } else if spec_tag_at(s, 0, SELL_EVENT_TAG@) {
            match SellLog::spec_unpack(body) {
                Ok(v) => Ok(Self::Sell(v)),
                Err(e) => Err(e),
            }
        } else if spec_tag_at(s, 0, DEPOSIT_EVENT_TAG@) {
            match DepositLog::spec_unpack(body) {
                Ok(v) => Ok(Self::Deposit(v)),
                Err(e) => Err(e),
            }
        } else if spec_tag_at(s, 0, WITHDRAW_EVENT_TAG@) {
            match WithdrawLog::spec_unpack(body) {
                Ok(v) => Ok(Self::Withdraw(v)),
                Err(e) => Err(e),
            }
        } else {
            Err(DecodeError::Unrecognized)
        }
    }

    pub fn unpack(data: &[u8]) -> (r: Result<Self, DecodeError>)
        ensures
            r == Self::spec_unpack(data@),
    {
        if data.len() < 8 {
            return Err(DecodeError::Unrecognized);
        }
        let body = rest(data, 8);
        if tag_at(data, 0, &CREATE_POOL_EVENT_TAG) {
            match CreatePoolLog::unpack(body) {
                Ok(v) => Ok(Self::CreatePool(v)),
                Err(e) => Err(e),
            }
        } else if tag_at(data, 0, &BUY_EVENT_TAG) {
            match BuyLog::unpack(body) {
                Ok(v) => Ok(Self::Buy(v)),
                Err(e) => Err(e),
            }
        } else if tag_at(data, 0, &SELL_EVENT_TAG) {
            match SellLog::unpack(body) {
                Ok(v) => Ok(Self::Sell(v)),
                Err(e) => Err(e),
            }
        } else if tag_at(data, 0, &DEPOSIT_EVENT_TAG) {
            match DepositLog::unpack(body) {
                Ok(v) => Ok(Self::Deposit(v)),
                Err(e) => Err(e),
            }
        } else if tag_at(data, 0, &WITHDRAW_EVENT_TAG) {
            match WithdrawLog::unpack(body) {
                Ok(v) => Ok(Self::Withdraw(v)),
                Err(e) => Err(e),
            }
        } else {
            Err(DecodeError::Unrecognized)
        }
    }

    /// The event in the shape of its CPI echo.
    pub open spec fn spec_to_cpi(self) -> PumpfunAmmCpiInstruction {
        match self {
            Self::CreatePool(v) => PumpfunAmmCpiInstruction::CreatePoolCpi(v.spec_to_cpi()),
            Self::Buy(v) => PumpfunAmmCpiInstruction::BuyCpi(v.spec_to_cpi()),
            Self::Sell(v) => PumpfunAmmCpiInstruction::SellCpi(v.spec_to_cpi()),
            Self::Deposit(v) => PumpfunAmmCpiInstruction::DepositCpi(v.spec_to_cpi()),
            Self::Withdraw(v) => PumpfunAmmCpiInstruction::WithdrawCpi(v.spec_to_cpi()),
        }
    }

    pub fn to_cpi(&self) -> (r: PumpfunAmmCpiInstruction)
        ensures
            r == self.spec_to_cpi(),
    {
        match self {
            Self::CreatePool(v) => PumpfunAmmCpiInstruction::CreatePoolCpi(v.to_cpi()),
            Self::Buy(v) => PumpfunAmmCpiInstruction::BuyCpi(v.to_cpi()),
            Self::Sell(v) => PumpfunAmmCpiInstruction::SellCpi(v.to_cpi()),
            Self::Deposit(v) => PumpfunAmmCpiInstruction::DepositCpi(v.to_cpi()),
            Self::Withdraw(v) => PumpfunAmmCpiInstruction::WithdrawCpi(v.to_cpi()),
        }
    }
}

/// A pool was created.
#[derive(Debug, Clone, Copy)]
pub struct CreatePoolLog {
    pub timestamp: i64,
    pub index: u16,
    pub creator: Pubkey,
    pub base_mint: Pubkey,
    pub quote_mint: Pubkey,
    pub base_mint_decimals: u8,
    pub quote_mint_decimals: u8,
    pub base_amount_in: u64,
    pub quote_amount_in: u64,
    pub pool_base_amount: u64,
    pub pool_quote_amount: u64,
    pub minimum_liquidity: u64,
    pub initial_liquidity: u64,
    pub lp_token_amount_out: u64,
    pub pool_bump: u8,
    pub pool: Pubkey,
    pub lp_mint: Pubkey,
    pub user_base_token_account: Pubkey,
    pub user_quote_token_account: Pubkey,
    pub coin_creator: Pubkey,
}

impl CreatePoolLog {
    /// The record as laid out in `s`: 325 bytes of fixed-width fields; any
    /// bytes after them are ignored.
    pub open spec fn spec_unpack(s: Seq<u8>) -> Result<Self, DecodeError> {
        if s.len() < 325 {
            Err(DecodeError::Truncated)
        } else {
            Ok(CreatePoolLog {
                timestamp: spec_i64_at(s, 0),
                index: spec_u16_at(s, 8),
                creator: spec_key_at(s, 10),
                base_mint: spec_key_at(s, 42),
                quote_mint: spec_key_at(s, 74),
                base_mint_decimals: spec_u8_at(s, 106),
                quote_mint_decimals: spec_u8_at(s, 107),
                base_amount_in: spec_u64_at(s, 108),
                quote_amount_in: spec_u64_at(s, 116),
                pool_base_amount: spec_u64_at(s, 124),
                pool_quote_amount: spec_u64_at(s, 132),
                minimum_liquidity: spec_u64_at(s, 140),
                initial_liquidity: spec_u64_at(s, 148),
                lp_token_amount_out: spec_u64_at(s, 156),
                pool_bump: spec_u8_at(s, 164),
                pool: spec_key_at(s, 165),
                lp_mint: spec_key_at(s, 197),
                user_base_token_account: spec_key_at(s, 229),
                user_quote_token_account: spec_key_at(s, 261),
                coin_creator: spec_key_at(s, 293),
            })
        }
    }

    pub fn unpack(data: &[u8]) -> (r: Result<Self, DecodeError>)
        ensures
            r == Self::spec_unpack(data@),
    {
        if data.len() < 325 {
            return Err(DecodeError::Truncated);
        }
        Ok(CreatePoolLog {
            timestamp: i64_at(data, 0),
            index: u16_at(data, 8),
            creator: key_at(data, 10),
            base_mint: key_at(data, 42),
            quote_mint: key_at(data, 74),
            base_mint_decimals: u8_at(data, 106),
            quote_mint_decimals: u8_at(data, 107),
            base_amount_in: u64_at(data, 108),
            quote_amount_in: u64_at(data, 116),
            pool_base_amount: u64_at(data, 124),
            pool_quote_amount: u64_at(data, 132),
            minimum_liquidity: u64_at(data, 140),
            initial_liquidity: u64_at(data, 148),
            lp_token_amount_out: u64_at(data, 156),
            pool_bump: u8_at(data, 164),
            pool: key_at(data, 165),
            lp_mint: key_at(data, 197),
            user_base_token_account: key_at(data, 229),
            user_quote_token_account: key_at(data, 261),
            coin_creator: key_at(data, 293),
        })
    }
}

impl CreatePoolLog {
    /// The same record in the shape of its CPI echo.
    pub open spec fn spec_to_cpi(self) -> CreatePoolCpiInstruction {
        CreatePoolCpiInstruction {
            timestamp: self.timestamp,
            index: self.index,
            creator: self.creator,
            base_mint: self.base_mint,
            quote_mint: self.quote_mint,
            base_mint_decimals: self.base_mint_decimals,
            quote_mint_decimals: self.quote_mint_decimals,
            base_amount_in: self.base_amount_in,
            quote_amount_in: self.quote_amount_in,
            pool_base_amount: self.pool_base_amount,
            pool_quote_amount: self.pool_quote_amount,
            minimum_liquidity: self.minimum_liquidity,
            initial_liquidity: self.initial_liquidity,
            lp_token_amount_out: self.lp_token_amount_out,
            pool_bump: self.pool_bump,
            pool: self.pool,
            lp_mint: self.lp_mint,
            user_base_token_account: self.user_base_token_account,
            user_quote_token_account: self.user_quote_token_account,
            coin_creator: self.coin_creator,
        }
    }

    pub fn to_cpi(&self) -> (r: CreatePoolCpiInstruction)
        ensures
            r == self.spec_to_cpi(),
    {
        CreatePoolCpiInstruction {
            timestamp: self.timestamp,
            index: self.index,
            creator: self.creator,
            base_mint: self.base_mint,
            quote_mint: self.quote_mint,
            base_mint_decimals: self.base_mint_decimals,
            quote_mint_decimals: self.quote_mint_decimals,
            base_amount_in: self.base_amount_in,
            quote_amount_in: self.quote_amount_in,
            pool_base_amount: self.pool_base_amount,
            pool_quote_amount: self.pool_quote_amount,
            minimum_liquidity: self.minimum_liquidity,
            initial_liquidity: self.initial_liquidity,
            lp_token_amount_out: self.lp_token_amount_out,
            pool_bump: self.pool_bump,
            pool: self.pool,
            lp_mint: self.lp_mint,
            user_base_token_account: self.user_base_token_account,
            user_quote_token_account: self.user_quote_token_account,
            coin_creator: self.coin_creator,
        }
    }
}

/// Base tokens were bought from a pool.
#[derive(Debug, Clone, Copy)]
pub struct BuyLog {
    pub timestamp: i64,
    pub base_amount_out: u64,
    pub max_quote_amount_in: u64,
    pub user_base_token_reserves: u64,
    pub user_quote_token_reserves: u64,
    pub pool_base_token_reserves: u64,
    pub pool_quote_token_reserves: u64,
    pub quote_amount_in: u64,
    pub lp_fee_basis_points: u16,
    pub lp_fee: u64,
    pub protocol_fee_basis_points: u16,
    pub protocol_fee: u64,
    pub quote_amount_in_with_lp_fee: u64,
    pub user_quote_amount_in: u64,
    pub pool: Pubkey,
    pub user: Pubkey,
    pub user_base_token_account: Pubkey,
    pub user_quote_token_account: Pubkey,
    pub protocol_fee_recipient: Pubkey,
    pub protocol_fee_recipient_token_account: Pubkey,
    pub coin_creator: Pubkey,
    pub coin_creator_fee_basis_points: u16,
    pub coin_creator_fee: u64,
}

impl BuyLog {
    /// The record as laid out in `s`: 334 bytes of fixed-width fields; any
    /// bytes after them are ignored.
    pub open spec fn spec_unpack(s: Seq<u8>) -> Result<Self, DecodeError> {
        if s.len() < 334 {
            Err(DecodeError::Truncated)
        } else {
            Ok(BuyLog {
                timestamp: spec_i64_at(s, 0),
                base_amount_out: spec_u64_at(s, 8),
                max_quote_amount_in: spec_u64_at(s, 16),
                user_base_token_reserves: spec_u64_at(s, 24),
                user_quote_token_reserves: spec_u64_at(s, 32),
                pool_base_token_reserves: spec_u64_at(s, 40),
                pool_quote_token_reserves: spec_u64_at(s, 48),
                quote_amount_in: spec_u64_at(s, 56),
                lp_fee_basis_points: spec_u16_at(s, 64),
                lp_fee: spec_u64_at(s, 66),
                protocol_fee_basis_points: spec_u16_at(s, 74),
                protocol_fee: spec_u64_at(s, 76),
                quote_amount_in_with_lp_fee: spec_u64_at(s, 84),
                user_quote_amount_in: spec_u64_at(s, 92),
                pool: spec_key_at(s, 100),
                user: spec_key_at(s, 132),
                user_base_token_account: spec_key_at(s, 164),
                user_quote_token_account: spec_key_at(s, 196),
                protocol_fee_recipient: spec_key_at(s, 228),
                protocol_fee_recipient_token_account: spec_key_at(s, 260),
                coin_creator: spec_key_at(s, 292),
                coin_creator_fee_basis_points: spec_u16_at(s, 324),
                coin_creator_fee: spec_u64_at(s, 326),
            })
        }
    }

    pub fn unpack(data: &[u8]) -> (r: Result<Self, DecodeError>)
        ensures
            r == Self::spec_unpack(data@),
    {
        if data.len() < 334 {
            return Err(DecodeError::Truncated);
        }
        Ok(BuyLog {
            timestamp: i64_at(data, 0),
            base_amount_out: u64_at(data, 8),
            max_quote_amount_in: u64_at(data, 16),
            user_base_token_reserves: u64_at(data, 24),
            user_quote_token_reserves: u64_at(data, 32),
            pool_base_token_reserves: u64_at(data, 40),
            pool_quote_token_reserves: u64_at(data, 48),
            quote_amount_in: u64_at(data, 56),
            lp_fee_basis_points: u16_at(data, 64),
            lp_fee: u64_at(data, 66),
            protocol_fee_basis_points: u16_at(data, 74),
            protocol_fee: u64_at(data, 76),
            quote_amount_in_with_lp_fee: u64_at(data, 84),
            user_quote_amount_in: u64_at(data, 92),
            pool: key_at(data, 100),
            user: key_at(data, 132),
            user_base_token_account: key_at(data, 164),
            user_quote_token_account: key_at(data, 196),
            protocol_fee_recipient: key_at(data, 228),
            protocol_fee_recipient_token_account: key_at(data, 260),
            coin_creator: key_at(data, 292),
            coin_creator_fee_basis_points: u16_at(data, 324),
            coin_creator_fee: u64_at(data, 326),
        })
    }
}

impl BuyLog {
    /// The same record in the shape of its CPI echo.
    pub open spec fn spec_to_cpi(self) -> BuyCpiInstruction {
        BuyCpiInstruction {
            timestamp: self.timestamp,
            base_amount_out: self.base_amount_out,
            max_quote_amount_in: self.max_quote_amount_in,
            user_base_token_reserves: self.user_base_token_reserves,
            user_quote_token_reserves: self.user_quote_token_reserves,
            pool_base_token_reserves: self.pool_base_token_reserves,
            pool_quote_token_reserves: self.pool_quote_token_reserves,
            quote_amount_in: self.quote_amount_in,
            lp_fee_basis_points: self.lp_fee_basis_points,
            lp_fee: self.lp_fee,
            protocol_fee_basis_points: self.protocol_fee_basis_points,
            protocol_fee: self.protocol_fee,
            quote_amount_in_with_lp_fee: self.quote_amount_in_with_lp_fee,
            user_quote_amount_in: self.user_quote_amount_in,
            pool: self.pool,
            user: self.user,
            user_base_token_account: self.user_base_token_account,
            user_quote_token_account: self.user_quote_token_account,
            protocol_fee_recipient: self.protocol_fee_recipient,
            protocol_fee_recipient_token_account: self.protocol_fee_recipient_token_account,
            coin_creator: self.coin_creator,
            coin_creator_fee_basis_points: self.coin_creator_fee_basis_points,
            coin_creator_fee: self.coin_creator_fee,
        }
    }

    pub fn to_cpi(&self) -> (r: BuyCpiInstruction)
        ensures
            r == self.spec_to_cpi(),
    {
        BuyCpiInstruction {
            timestamp: self.timestamp,
            base_amount_out: self.base_amount_out,
            max_quote_amount_in: self.max_quote_amount_in,
            user_base_token_reserves: self.user_base_token_reserves,
            user_quote_token_reserves: self.user_quote_token_reserves,
            pool_base_token_reserves: self.pool_base_token_reserves,
            pool_quote_token_reserves: self.pool_quote_token_reserves,
            quote_amount_in: self.quote_amount_in,
            lp_fee_basis_points: self.lp_fee_basis_points,
            lp_fee: self.lp_fee,
            protocol_fee_basis_points: self.protocol_fee_basis_points,
            protocol_fee: self.protocol_fee,
            quote_amount_in_with_lp_fee: self.quote_amount_in_with_lp_fee,
            user_quote_amount_in: self.user_quote_amount_in,
            pool: self.pool,
            user: self.user,
            user_base_token_account: self.user_base_token_account,
            user_quote_token_account: self.user_quote_token_account,
            protocol_fee_recipient: self.protocol_fee_recipient,
            protocol_fee_recipient_token_account: self.protocol_fee_recipient_token_account,
            coin_creator: self.coin_creator,
            coin_creator_fee_basis_points: self.coin_creator_fee_basis_points,
            coin_creator_fee: self.coin_creator_fee,
        }
    }
}

/// Base tokens were sold to a pool.
#[derive(Debug, Clone, Copy)]
pub struct SellLog {
    pub timestamp: i64,
    pub base_amount_in: u64,
    pub min_quote_amount_out: u64,
    pub user_base_token_reserves: u64,
    pub user_quote_token_reserves: u64,
    pub pool_base_token_reserves: u64,
    pub pool_quote_token_reserves: u64,
    pub quote_amount_out: u64,
    pub lp_fee_basis_points: u64,
    pub lp_fee: u64,
    pub protocol_fee_basis_points: u64,
    pub protocol_fee: u64,
    pub quote_amount_out_without_lp_fee: u64,
    pub user_quote_amount_out: u64,
    pub pool: Pubkey,
    pub user: Pubkey,
    pub user_base_token_account: Pubkey,
    pub user_quote_token_account: Pubkey,
    pub protocol_fee_recipient: Pubkey,
    pub protocol_fee_recipient_token_account: Pubkey,
    pub coin_creator: Pubkey,
    pub coin_creator_fee_basis_points: u64,
    pub coin_creator_fee: u64,
}

impl SellLog {
    /// The record as laid out in `s`: 352 bytes of fixed-width fields; any
    /// bytes after them are ignored.
    pub open spec fn spec_unpack(s: Seq<u8>) -> Result<Self, DecodeError> {
        if s.len() < 352 {
            Err(DecodeError::Truncated)
        } else {
            Ok(SellLog {
                timestamp: spec_i64_at(s, 0),
                base_amount_in: spec_u64_at(s, 8),
                min_quote_amount_out: spec_u64_at(s, 16),
                user_base_token_reserves: spec_u64_at(s, 24),
                user_quote_token_reserves: spec_u64_at(s, 32),
                pool_base_token_reserves: spec_u64_at(s, 40),
                pool_quote_token_reserves: spec_u64_at(s, 48),
                quote_amount_out: spec_u64_at(s, 56),
                lp_fee_basis_points: spec_u64_at(s, 64),
                lp_fee: spec_u64_at(s, 72),
                protocol_fee_basis_points: spec_u64_at(s, 80),
                protocol_fee: spec_u64_at(s, 88),
                quote_amount_out_without_lp_fee: spec_u64_at(s, 96),
                user_quote_amount_out: spec_u64_at(s, 104),
                pool: spec_key_at(s, 112),
                user: spec_key_at(s, 144),
                user_base_token_account: spec_key_at(s, 176),
                user_quote_token_account: spec_key_at(s, 208),
                protocol_fee_recipient: spec_key_at(s, 240),
                protocol_fee_recipient_token_account: spec_key_at(s, 272),
                coin_creator: spec_key_at(s, 304),
                coin_creator_fee_basis_points: spec_u64_at(s, 336),
                coin_creator_fee: spec_u64_at(s, 344),
            })
        }
    }

    pub fn unpack(data: &[u8]) -> (r: Result<Self, DecodeError>)
        ensures
            r == Self::spec_unpack(data@),
    {
        if data.len() < 352 {
            return Err(DecodeError::Truncated);
        }
        Ok(SellLog {
            timestamp: i64_at(data, 0),
            base_amount_in: u64_at(data, 8),
            min_quote_amount_out: u64_at(data, 16),
            user_base_token_reserves: u64_at(data, 24),
            user_quote_token_reserves: u64_at(data, 32),
            pool_base_token_reserves: u64_at(data, 40),
            pool_quote_token_reserves: u64_at(data, 48),
            quote_amount_out: u64_at(data, 56),
            lp_fee_basis_points: u64_at(data, 64),
            lp_fee: u64_at(data, 72),
            protocol_fee_basis_points: u64_at(data, 80),
            protocol_fee: u64_at(data, 88),
            quote_amount_out_without_lp_fee: u64_at(data, 96),
            user_quote_amount_out: u64_at(data, 104),
            pool: key_at(data, 112),
            user: key_at(data, 144),
            user_base_token_account: key_at(data, 176),
            user_quote_token_account: key_at(data, 208),
            protocol_fee_recipient: key_at(data, 240),
            protocol_fee_recipient_token_account: key_at(data, 272),
            coin_creator: key_at(data, 304),
            coin_creator_fee_basis_points: u64_at(data, 336),
            coin_creator_fee: u64_at(data, 344),
        })
    }
}

impl SellLog {
    /// The same record in the shape of its CPI echo.
    pub open spec fn spec_to_cpi(self) -> SellCpiInstruction {
        SellCpiInstruction {
            timestamp: self.timestamp,
            base_amount_in: self.base_amount_in,
            min_quote_amount_out: self.min_quote_amount_out,
            user_base_token_reserves: self.user_base_token_reserves,
            user_quote_token_reserves: self.user_quote_token_reserves,
            pool_base_token_reserves: self.pool_base_token_reserves,
            pool_quote_token_reserves: self.pool_quote_token_reserves,
            quote_amount_out: self.quote_amount_out,
            lp_fee_basis_points: self.lp_fee_basis_points,
            lp_fee: self.lp_fee,
            protocol_fee_basis_points: self.protocol_fee_basis_points,
            protocol_fee: self.protocol_fee,
            quote_amount_out_without_lp_fee: self.quote_amount_out_without_lp_fee,
            user_quote_amount_out: self.user_quote_amount_out,
            pool: self.pool,
            user: self.user,
            user_base_token_account: self.user_base_token_account,
            user_quote_token_account: self.user_quote_token_account,
            protocol_fee_recipient: self.protocol_fee_recipient,
            protocol_fee_recipient_token_account: self.protocol_fee_recipient_token_account,
            coin_creator: self.coin_creator,
            coin_creator_fee_basis_points: self.coin_creator_fee_basis_points,
            coin_creator_fee: self.coin_creator_fee,
        }
    }

    pub fn to_cpi(&self) -> (r: SellCpiInstruction)
        ensures
            r == self.spec_to_cpi(),
    {
        SellCpiInstruction {
            timestamp: self.timestamp,
            base_amount_in: self.base_amount_in,
            min_quote_amount_out: self.min_quote_amount_out,
            user_base_token_reserves: self.user_base_token_reserves,
            user_quote_token_reserves: self.user_quote_token_reserves,
            pool_base_token_reserves: self.pool_base_token_reserves,
            pool_quote_token_reserves: self.pool_quote_token_reserves,
            quote_amount_out: self.quote_amount_out,
            lp_fee_basis_points: self.lp_fee_basis_points,
            lp_fee: self.lp_fee,
            protocol_fee_basis_points: self.protocol_fee_basis_points,
            protocol_fee: self.protocol_fee,
            quote_amount_out_without_lp_fee: self.quote_amount_out_without_lp_fee,
            user_quote_amount_out: self.user_quote_amount_out,
            pool: self.pool,
            user: self.user,
            user_base_token_account: self.user_base_token_account,
            user_quote_token_account: self.user_quote_token_account,
            protocol_fee_recipient: self.protocol_fee_recipient,
            protocol_fee_recipient_token_account: self.protocol_fee_recipient_token_account,
            coin_creator: self.coin_creator,
            coin_creator_fee_basis_points: self.coin_creator_fee_basis_points,
            coin_creator_fee: self.coin_creator_fee,
        }
    }
}

/// Liquidity was added to a pool.
#[derive(Debug, Clone, Copy)]
pub struct DepositLog {
    pub timestamp: i64,
    pub lp_token_amount_out: u64,
    pub max_base_amount_in: u64,
    pub max_quote_amount_in: u64,
    pub user_base_token_reserves: u64,
    pub user_quote_token_reserves: u64,
    pub pool_base_token_reserves: u64,
    pub pool_quote_token_reserves: u64,
    pub base_amount_in: u64,
    pub quote_amount_in: u64,
    pub lp_mint_supply: u64,
    pub pool: Pubkey,
    pub user: Pubkey,
    pub user_base_token_account: Pubkey,
    pub user_quote_token_account: Pubkey,
    pub user_pool_token_account: Pubkey,
}

impl DepositLog {
    /// The record as laid out in `s`: 248 bytes of fixed-width fields; any
    /// bytes after them are ignored.
    pub open spec fn spec_unpack(s: Seq<u8>) -> Result<Self, DecodeError> {
        if s.len() < 248 {
            Err(DecodeError::Truncated)
        } else {
            Ok(DepositLog {
                timestamp: spec_i64_at(s, 0),
                lp_token_amount_out: spec_u64_at(s, 8),
                max_base_amount_in: spec_u64_at(s, 16),
                max_quote_amount_in: spec_u64_at(s, 24),
                user_base_token_reserves: spec_u64_at(s, 32),
                user_quote_token_reserves: spec_u64_at(s, 40),
                pool_base_token_reserves: spec_u64_at(s, 48),
                pool_quote_token_reserves: spec_u64_at(s, 56),
                base_amount_in: spec_u64_at(s, 64),
                quote_amount_in: spec_u64_at(s, 72),
                lp_mint_supply: spec_u64_at(s, 80),
                pool: spec_key_at(s, 88),
                user: spec_key_at(s, 120),
                user_base_token_account: spec_key_at(s, 152),
                user_quote_token_account: spec_key_at(s, 184),
                user_pool_token_account: spec_key_at(s, 216),
            })
        }
    }

    pub fn unpack(data: &[u8]) -> (r: Result<Self, DecodeError>)
        ensures
            r == Self::spec_unpack(data@),
    {
        if data.len() < 248 {
            return Err(DecodeError::Truncated);
        }
        Ok(DepositLog {
            timestamp: i64_at(data, 0),
            lp_token_amount_out: u64_at(data, 8),
            max_base_amount_in: u64_at(data, 16),
            max_quote_amount_in: u64_at(data, 24),
            user_base_token_reserves: u64_at(data, 32),
            user_quote_token_reserves: u64_at(data, 40),
            pool_base_token_reserves: u64_at(data, 48),
            pool_quote_token_reserves: u64_at(data, 56),
            base_amount_in: u64_at(data, 64),
            quote_amount_in: u64_at(data, 72),
            lp_mint_supply: u64_at(data, 80),
            pool: key_at(data, 88),
            user: key_at(data, 120),
            user_base_token_account: key_at(data, 152),
            user_quote_token_account: key_at(data, 184),
            user_pool_token_account: key_at(data, 216),
        })
    }
}

impl DepositLog {
    /// The same record in the shape of its CPI echo.
    pub open spec fn spec_to_cpi(self) -> DepositCpiInstruction {
        DepositCpiInstruction {
            timestamp: self.timestamp,
            lp_token_amount_out: self.lp_token_amount_out,
            max_base_amount_in: self.max_base_amount_in,
            max_quote_amount_in: self.max_quote_amount_in,
            user_base_token_reserves: self.user_base_token_reserves,
            user_quote_token_reserves: self.user_quote_token_reserves,
            pool_base_token_reserves: self.pool_base_token_reserves,
            pool_quote_token_reserves: self.pool_quote_token_reserves,
            base_amount_in: self.base_amount_in,
            quote_amount_in: self.quote_amount_in,
            lp_mint_supply: self.lp_mint_supply,
            pool: self.pool,
            user: self.user,
            user_base_token_account: self.user_base_token_account,
            user_quote_token_account: self.user_quote_token_account,
            user_pool_token_account: self.user_pool_token_account,
        }
    }

    pub fn to_cpi(&self) -> (r: DepositCpiInstruction)
        ensures
            r == self.spec_to_cpi(),
    {
        DepositCpiInstruction {
            timestamp: self.timestamp,
            lp_token_amount_out: self.lp_token_amount_out,
            max_base_amount_in: self.max_base_amount_in,
            max_quote_amount_in: self.max_quote_amount_in,
            user_base_token_reserves: self.user_base_token_reserves,
            user_quote_token_reserves: self.user_quote_token_reserves,
            pool_base_token_reserves: self.pool_base_token_reserves,
            pool_quote_token_reserves: self.pool_quote_token_reserves,
            base_amount_in: self.base_amount_in,
            quote_amount_in: self.quote_amount_in,
            lp_mint_supply: self.lp_mint_supply,
            pool: self.pool,
            user: self.user,
            user_base_token_account: self.user_base_token_account,
            user_quote_token_account: self.user_quote_token_account,
            user_pool_token_account: self.user_pool_token_account,
        }
    }
}

/// Liquidity was removed from a pool.
#[derive(Debug, Clone, Copy)]
pub struct WithdrawLog {
    pub timestamp: i64,
    pub lp_token_amount_in: u64,
    pub min_base_amount_out: u64,
    pub min_quote_amount_out: u64,
    pub user_base_token_reserves: u64,
    pub user_quote_token_reserves: u64,
    pub pool_base_token_reserves: u64,
    pub pool_quote_token_reserves: u64,
    pub base_amount_out: u64,
    pub quote_amount_out: u64,
    pub lp_mint_supply: u64,
    pub pool: Pubkey,
    pub user: Pubkey,
    pub user_base_token_account: Pubkey,
    pub user_quote_token_account: Pubkey,
    pub user_pool_token_account: Pubkey,
}

impl WithdrawLog {
    /// The record as laid out in `s`: 248 bytes of fixed-width fields; any
    /// bytes after them are ignored.
    pub open spec fn spec_unpack(s: Seq<u8>) -> Result<Self, DecodeError> {
        if s.len() < 248 {
            Err(DecodeError::Truncated)
        } else {
            Ok(WithdrawLog {
                timestamp: spec_i64_at(s, 0),
                lp_token_amount_in: spec_u64_at(s, 8),
                min_base_amount_out: spec_u64_at(s, 16),
                min_quote_amount_out: spec_u64_at(s, 24),
                user_base_token_reserves: spec_u64_at(s, 32),
                user_quote_token_reserves: spec_u64_at(s, 40),
                pool_base_token_reserves: spec_u64_at(s, 48),
                pool_quote_token_reserves: spec_u64_at(s, 56),
                base_amount_out: spec_u64_at(s, 64),
                quote_amount_out: spec_u64_at(s, 72),
                lp_mint_supply: spec_u64_at(s, 80),
                pool: spec_key_at(s, 88),
                user: spec_key_at(s, 120),
                user_base_token_account: spec_key_at(s, 152),
                user_quote_token_account: spec_key_at(s, 184),
                user_pool_token_account: spec_key_at(s, 216),
            })
        }
    }

    pub fn unpack(data: &[u8]) -> (r: Result<Self, DecodeError>)
        ensures
            r == Self::spec_unpack(data@),
    {
        if data.len() < 248 {
            return Err(DecodeError::Truncated);
        }
        Ok(WithdrawLog {
            timestamp: i64_at(data, 0),
            lp_token_amount_in: u64_at(data, 8),
            min_base_amount_out: u64_at(data, 16),
            min_quote_amount_out: u64_at(data, 24),
            user_base_token_reserves: u64_at(data, 32),
            user_quote_token_reserves: u64_at(data, 40),
            pool_base_token_reserves: u64_at(data, 48),
            pool_quote_token_reserves: u64_at(data, 56),
            base_amount_out: u64_at(data, 64),
            quote_amount_out: u64_at(data, 72),
            lp_mint_supply: u64_at(data, 80),
            pool: key_at(data, 88),
            user: key_at(data, 120),
            user_base_token_account: key_at(data, 152),
            user_quote_token_account: key_at(data, 184),
            user_pool_token_account: key_at(data, 216),
        })
    }
}

impl WithdrawLog {
    /// The same record in the shape of its CPI echo.
    pub open spec fn spec_to_cpi(self) -> WithdrawCpiInstruction {
        WithdrawCpiInstruction {
            timestamp: self.timestamp,
            lp_token_amount_in: self.lp_token_amount_in,
            min_base_amount_out: self.min_base_amount_out,
            min_quote_amount_out: self.min_quote_amount_out,
            user_base_token_reserves: self.user_base_token_reserves,
            user_quote_token_reserves: self.user_quote_token_reserves,
            pool_base_token_reserves: self.pool_base_token_reserves,
            pool_quote_token_reserves: self.pool_quote_token_reserves,
            base_amount_out: self.base_amount_out,
            quote_amount_out: self.quote_amount_out,
            lp_mint_supply: self.lp_mint_supply,
            pool: self.pool,
            user: self.user,
            user_base_token_account: self.user_base_token_account,
            user_quote_token_account: self.user_quote_token_account,
            user_pool_token_account: self.user_pool_token_account,
        }
    }

    pub fn to_cpi(&self) -> (r: WithdrawCpiInstruction)
        ensures
            r == self.spec_to_cpi(),
    {
        WithdrawCpiInstruction {
            timestamp: self.timestamp,
            lp_token_amount_in: self.lp_token_amount_in,
            min_base_amount_out: self.min_base_amount_out,
            min_quote_amount_out: self.min_quote_amount_out,
            user_base_token_reserves: self.user_base_token_reserves,
            user_quote_token_reserves: self.user_quote_token_reserves,
            pool_base_token_reserves: self.pool_base_token_reserves,
            pool_quote_token_reserves: self.pool_quote_token_reserves,
            base_amount_out: self.base_amount_out,
            quote_amount_out: self.quote_amount_out,
            lp_mint_supply: self.lp_mint_supply,
            pool: self.pool,
            user: self.user,
            user_base_token_account: self.user_base_token_account,
            user_quote_token_account: self.user_quote_token_account,
            user_pool_token_account: self.user_pool_token_account,
        }
    }
}

/// One layout per tag: a data-log record decodes to exactly what the CPI echo
/// made of any 8-byte marker followed by the same bytes decodes to. A log
/// whose tag is in no entry is the echo table's `Unknown`.
pub proof fn law_log_matches_echo(marker: Seq<u8>, b: Seq<u8>)
    requires
        marker.len() == 8,
    ensures
        match PumpfunAmmLog::spec_unpack(b) {
            Ok(l) => PumpfunAmmCpiInstruction::spec_unpack(marker + b) == Ok::<
                PumpfunAmmCpiInstruction,
                DecodeError,
            >(l.spec_to_cpi()),
            Err(DecodeError::Unrecognized) => PumpfunAmmCpiInstruction::spec_unpack(marker + b)
                == Ok::<PumpfunAmmCpiInstruction, DecodeError>(PumpfunAmmCpiInstruction::Unknown),
            Err(e) => PumpfunAmmCpiInstruction::spec_unpack(marker + b) == Err::<
                PumpfunAmmCpiInstruction,
                DecodeError,
            >(e),
        },
{
    let s = marker + b;
    if b.len() >= 8 {
        assert(s.subrange(8, 16) =~= b.subrange(0, 8));
        assert(spec_rest(s, 16) =~= spec_rest(b, 8));
    } else {
        assert(!spec_tag_at(b, 0, CREATE_POOL_EVENT_TAG@));
    }
}

} // verus!
