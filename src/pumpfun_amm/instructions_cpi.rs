//! Event records that the pool program echoes to itself through a
//! cross-program invocation: an 8-byte echo marker, an 8-byte event tag, then
//! the record.
use vstd::prelude::*;
use crate::bytes::{
    i64_at, key_at, rest, spec_i64_at, spec_key_at, spec_rest, spec_tag_at, spec_u16_at,
    spec_u64_at, spec_u8_at, tag_at, u16_at, u64_at, u8_at, DecodeError, Pubkey,
};

verus! {

pub const CREATE_POOL_EVENT_TAG: [u8; 8] = [177, 49, 12, 210, 160, 118, 167, 116];
pub const BUY_EVENT_TAG: [u8; 8] = [103, 244, 82, 31, 44, 245, 119, 119];
pub const SELL_EVENT_TAG: [u8; 8] = [62, 47, 55, 10, 165, 3, 220, 42];
pub const DEPOSIT_EVENT_TAG: [u8; 8] = [120, 248, 61, 83, 31, 142, 107, 144];
pub const WITHDRAW_EVENT_TAG: [u8; 8] = [22, 9, 133, 26, 160, 44, 71, 192];

/// A decoded event echo.
#[derive(Debug, Clone, Copy)]
pub enum PumpfunAmmCpiInstruction {
    CreatePoolCpi(CreatePoolCpiInstruction),
    BuyCpi(BuyCpiInstruction),
    SellCpi(SellCpiInstruction),
    DepositCpi(DepositCpiInstruction),
    WithdrawCpi(WithdrawCpiInstruction),
    Unknown,
}

impl PumpfunAmmCpiInstruction {
    /// Payloads of fewer than 16 bytes, or whose tag (after the echo marker)
    /// is none of the five event tags, are `Unknown`; otherwise the record
    /// that the tag names is decoded from the bytes after the tag.
    pub open spec fn spec_unpack(s: Seq<u8>) -> Result<Self, DecodeError> {
        if s.len() < 16 {
            Ok(Self::Unknown)
        } else {
            let body = spec_rest(s, 16);
            if spec_tag_at(s, 8, CREATE_POOL_EVENT_TAG@) {
                match CreatePoolCpiInstruction::spec_unpack(body) {
                    Ok(v) => Ok(Self::CreatePoolCpi(v)),
                    Err(e) => Err(e),
                }
            } else if spec_tag_at(s, 8, BUY_EVENT_TAG@) {
                match BuyCpiInstruction::spec_unpack(body) {
                    Ok(v) => Ok(Self::BuyCpi(v)),
                    Err(e) => Err(e),
                }
            } else if spec_tag_at(s, 8, SELL_EVENT_TAG@) {
                match SellCpiInstruction::spec_unpack(body) {
                    Ok(v) => Ok(Self::SellCpi(v)),
                    Err(e) => Err(e),
                }
            } else if spec_tag_at(s, 8, DEPOSIT_EVENT_TAG@) {
                match DepositCpiInstruction::spec_unpack(body) {
                    Ok(v) => Ok(Self::DepositCpi(v)),
                    Err(e) => Err(e),
                }
            } else if spec_tag_at(s, 8, WITHDRAW_EVENT_TAG@) {
                match WithdrawCpiInstruction::spec_unpack(body) {
                    Ok(v) => Ok(Self::WithdrawCpi(v)),
                    Err(e) => Err(e),
                }
            } else {
                Ok(Self::Unknown)
            }
        }
    }

    pub fn unpack(data: &[u8]) -> (r: Result<Self, DecodeError>)
        ensures
            r == Self::spec_unpack(data@),
    {
        if data.len() < 16 {
            return Ok(Self::Unknown);
        }
        let body = rest(data, 16);
        if tag_at(data, 8, &CREATE_POOL_EVENT_TAG) {
            match CreatePoolCpiInstruction::unpack(body) {
                Ok(v) => Ok(Self::CreatePoolCpi(v)),
                Err(e) => Err(e),
            }
        } else if tag_at(data, 8, &BUY_EVENT_TAG) {
            match BuyCpiInstruction::unpack(body) {
                Ok(v) => Ok(Self::BuyCpi(v)),
                Err(e) => Err(e),
            }
        } else if tag_at(data, 8, &SELL_EVENT_TAG) {
            match SellCpiInstruction::unpack(body) {
                Ok(v) => Ok(Self::SellCpi(v)),
                Err(e) => Err(e),
            }
        } else if tag_at(data, 8, &DEPOSIT_EVENT_TAG) {
            match DepositCpiInstruction::unpack(body) {
                Ok(v) => Ok(Self::DepositCpi(v)),
                Err(e) => Err(e),
            }
        } else if tag_at(data, 8, &WITHDRAW_EVENT_TAG) {
            match WithdrawCpiInstruction::unpack(body) {
                Ok(v) => Ok(Self::WithdrawCpi(v)),
                Err(e) => Err(e),
            }
        } else {
            Ok(Self::Unknown)
        }
    }
}

/// A pool was created.
#[derive(Debug, Clone, Copy)]
pub struct CreatePoolCpiInstruction {
    pub timestamp: i64,
    pub index: u16,
    pub creator: Pubkey,
    pub base_mint: Pubkey,
    pub quote_mint: Pubkey,
    pub base_mint_decimals: u8,
    pub quote_mint_decimals: u8,
    pub base_amount_in: u64,
    pub quote_amount_in: u64,
    pub pool_base_amount: u64,
    pub pool_quote_amount: u64,
    pub minimum_liquidity: u64,
    pub initial_liquidity: u64,
    pub lp_token_amount_out: u64,
    pub pool_bump: u8,
    pub pool: Pubkey,
    pub lp_mint: Pubkey,
    pub user_base_token_account: Pubkey,
    pub user_quote_token_account: Pubkey,
    pub coin_creator: Pubkey,
}

impl CreatePoolCpiInstruction {
    /// The record as laid out in `s`: 325 bytes of fixed-width fields; any
    /// bytes after them are ignored.
    pub open spec fn spec_unpack(s: Seq<u8>) -> Result<Self, DecodeError> {
        if s.len() < 325 {
            Err(DecodeError::Truncated)
        } else {
            Ok(CreatePoolCpiInstruction {
                timestamp: spec_i64_at(s, 0),
                index: spec_u16_at(s, 8),
                creator: spec_key_at(s, 10),
                base_mint: spec_key_at(s, 42),
                quote_mint: spec_key_at(s, 74),
                base_mint_decimals: spec_u8_at(s, 106),
                quote_mint_decimals: spec_u8_at(s, 107),
                base_amount_in: spec_u64_at(s, 108),
                quote_amount_in: spec_u64_at(s, 116),
                pool_base_amount: spec_u64_at(s, 124),
                pool_quote_amount: spec_u64_at(s, 132),
                minimum_liquidity: spec_u64_at(s, 140),
                initial_liquidity: spec_u64_at(s, 148),
                lp_token_amount_out: spec_u64_at(s, 156),
                pool_bump: spec_u8_at(s, 164),
                pool: spec_key_at(s, 165),
                lp_mint: spec_key_at(s, 197),
                user_base_token_account: spec_key_at(s, 229),
                user_quote_token_account: spec_key_at(s, 261),
                coin_creator: spec_key_at(s, 293),
            })
        }
    }

    pub fn unpack(data: &[u8]) -> (r: Result<Self, DecodeError>)
        ensures
            r == Self::spec_unpack(data@),
    {
        if data.len() < 325 {
            return Err(DecodeError::Truncated);
        }
        Ok(CreatePoolCpiInstruction {
            timestamp: i64_at(data, 0),
            index: u16_at(data, 8),
            creator: key_at(data, 10),
            base_mint: key_at(data, 42),
            quote_mint: key_at(data, 74),
            base_mint_decimals: u8_at(data, 106),
            quote_mint_decimals: u8_at(data, 107),
            base_amount_in: u64_at(data, 108),
            quote_amount_in: u64_at(data, 116),
            pool_base_amount: u64_at(data, 124),
            pool_quote_amount: u64_at(data, 132),
            minimum_liquidity: u64_at(data, 140),
            initial_liquidity: u64_at(data, 148),
            lp_token_amount_out: u64_at(data, 156),
            pool_bump: u8_at(data, 164),
            pool: key_at(data, 165),
            lp_mint: key_at(data, 197),
            user_base_token_account: key_at(data, 229),
            user_quote_token_account: key_at(data, 261),
            coin_creator: key_at(data, 293),
        })
    }
}

/// Base tokens were bought from a pool.
#[derive(Debug, Clone, Copy)]
pub struct BuyCpiInstruction {
    pub timestamp: i64,
    pub base_amount_out: u64,
    pub max_quote_amount_in: u64,
    pub user_base_token_reserves: u64,
    pub user_quote_token_reserves: u64,
    pub pool_base_token_reserves: u64,
    pub pool_quote_token_reserves: u64,
    pub quote_amount_in: u64,
    pub lp_fee_basis_points: u16,
    pub lp_fee: u64,
    pub protocol_fee_basis_points: u16,
    pub protocol_fee: u64,
    pub quote_amount_in_with_lp_fee: u64,
    pub user_quote_amount_in: u64,
    pub pool: Pubkey,
    pub user: Pubkey,
    pub user_base_token_account: Pubkey,
    pub user_quote_token_account: Pubkey,
    pub protocol_fee_recipient: Pubkey,
    pub protocol_fee_recipient_token_account: Pubkey,
    pub coin_creator: Pubkey,
    pub coin_creator_fee_basis_points: u16,
    pub coin_creator_fee: u64,
}

impl BuyCpiInstruction {
    /// The record as laid out in `s`: 334 bytes of fixed-width fields; any
    /// bytes after them are ignored.
    pub open spec fn spec_unpack(s: Seq<u8>) -> Result<Self, DecodeError> {
        if s.len() < 334 {
            Err(DecodeError::Truncated)
        } else {
            Ok(BuyCpiInstruction {
                timestamp: spec_i64_at(s, 0),
                base_amount_out: spec_u64_at(s, 8),
                max_quote_amount_in: spec_u64_at(s, 16),
                user_base_token_reserves: spec_u64_at(s, 24),
                user_quote_token_reserves: spec_u64_at(s, 32),
                pool_base_token_reserves: spec_u64_at(s, 40),
                pool_quote_token_reserves: spec_u64_at(s, 48),
                quote_amount_in: spec_u64_at(s, 56),
                lp_fee_basis_points: spec_u16_at(s, 64),
                lp_fee: spec_u64_at(s, 66),
                protocol_fee_basis_points: spec_u16_at(s, 74),
                protocol_fee: spec_u64_at(s, 76),
                quote_amount_in_with_lp_fee: spec_u64_at(s, 84),
                user_quote_amount_in: spec_u64_at(s, 92),
                pool: spec_key_at(s, 100),
                user: spec_key_at(s, 132),
                user_base_token_account: spec_key_at(s, 164),
                user_quote_token_account: spec_key_at(s, 196),
                protocol_fee_recipient: spec_key_at(s, 228),
                protocol_fee_recipient_token_account: spec_key_at(s, 260),
                coin_creator: spec_key_at(s, 292),
                coin_creator_fee_basis_points: spec_u16_at(s, 324),
                coin_creator_fee: spec_u64_at(s, 326),
            })
        }
    }

    pub fn unpack(data: &[u8]) -> (r: Result<Self, DecodeError>)
        ensures
            r == Self::spec_unpack(data@),
    {
        if data.len() < 334 {
            return Err(DecodeError::Truncated);
        }
        Ok(BuyCpiInstruction {
            timestamp: i64_at(data, 0),
            base_amount_out: u64_at(data, 8),
            max_quote_amount_in: u64_at(data, 16),
            user_base_token_reserves: u64_at(data, 24),
            user_quote_token_reserves: u64_at(data, 32),
            pool_base_token_reserves: u64_at(data, 40),
            pool_quote_token_reserves: u64_at(data, 48),
            quote_amount_in: u64_at(data, 56),
            lp_fee_basis_points: u16_at(data, 64),
            lp_fee: u64_at(data, 66),
            protocol_fee_basis_points: u16_at(data, 74),
            protocol_fee: u64_at(data, 76),
            quote_amount_in_with_lp_fee: u64_at(data, 84),
            user_quote_amount_in: u64_at(data, 92),
            pool: key_at(data, 100),
            user: key_at(data, 132),
            user_base_token_account: key_at(data, 164),
            user_quote_token_account: key_at(data, 196),
            protocol_fee_recipient: key_at(data, 228),
            protocol_fee_recipient_token_account: key_at(data, 260),
            coin_creator: key_at(data, 292),
            coin_creator_fee_basis_points: u16_at(data, 324),
            coin_creator_fee: u64_at(data, 326),
        })
    }
}

/// Base tokens were sold to a pool.
#[derive(Debug, Clone, Copy)]
pub struct SellCpiInstruction {
    pub timestamp: i64,
    pub base_amount_in: u64,
    pub min_quote_amount_out: u64,
    pub user_base_token_reserves: u64,
    pub user_quote_token_reserves: u64,
    pub pool_base_token_reserves: u64,
    pub pool_quote_token_reserves: u64,
    pub quote_amount_out: u64,
    pub lp_fee_basis_points: u64,
    pub lp_fee: u64,
    pub protocol_fee_basis_points: u64,
    pub protocol_fee: u64,
    pub quote_amount_out_without_lp_fee: u64,
    pub user_quote_amount_out: u64,
    pub pool: Pubkey,
    pub user: Pubkey,
    pub user_base_token_account: Pubkey,
    pub user_quote_token_account: Pubkey,
    pub protocol_fee_recipient: Pubkey,
    pub protocol_fee_recipient_token_account: Pubkey,
    pub coin_creator: Pubkey,
    pub coin_creator_fee_basis_points: u64,
    pub coin_creator_fee: u64,
}

impl SellCpiInstruction {
    /// The record as laid out in `s`: 352 bytes of fixed-width fields; any
    /// bytes after them are ignored.
    pub open spec fn spec_unpack(s: Seq<u8>) -> Result<Self, DecodeError> {
        if s.len() < 352 {
            Err(DecodeError::Truncated)
        } else {
            Ok(SellCpiInstruction {
                timestamp: spec_i64_at(s, 0),
                base_amount_in: spec_u64_at(s, 8),
                min_quote_amount_out: spec_u64_at(s, 16),
                user_base_token_reserves: spec_u64_at(s, 24),
                user_quote_token_reserves: spec_u64_at(s, 32),
                pool_base_token_reserves: spec_u64_at(s, 40),
                pool_quote_token_reserves: spec_u64_at(s, 48),
                quote_amount_out: spec_u64_at(s, 56),
                lp_fee_basis_points: spec_u64_at(s, 64),
                lp_fee: spec_u64_at(s, 72),
                protocol_fee_basis_points: spec_u64_at(s, 80),
                protocol_fee: spec_u64_at(s, 88),
                quote_amount_out_without_lp_fee: spec_u64_at(s, 96),
                user_quote_amount_out: spec_u64_at(s, 104),
                pool: spec_key_at(s, 112),
                user: spec_key_at(s, 144),
                user_base_token_account: spec_key_at(s, 176),
                user_quote_token_account: spec_key_at(s, 208),
                protocol_fee_recipient: spec_key_at(s, 240),
                protocol_fee_recipient_token_account: spec_key_at(s, 272),
                coin_creator: spec_key_at(s, 304),
                coin_creator_fee_basis_points: spec_u64_at(s, 336),
                coin_creator_fee: spec_u64_at(s, 344),
            })
        }
    }

    pub fn unpack(data: &[u8]) -> (r: Result<Self, DecodeError>)
        ensures
            r == Self::spec_unpack(data@),
    {
        if data.len() < 352 {
            return Err(DecodeError::Truncated);
        }
        Ok(SellCpiInstruction {
            timestamp: i64_at(data, 0),
            base_amount_in: u64_at(data, 8),
            min_quote_amount_out: u64_at(data, 16),
            user_base_token_reserves: u64_at(data, 24),
            user_quote_token_reserves: u64_at(data, 32),
            pool_base_token_reserves: u64_at(data, 40),
            pool_quote_token_reserves: u64_at(data, 48),
            quote_amount_out: u64_at(data, 56),
            lp_fee_basis_points: u64_at(data, 64),
            lp_fee: u64_at(data, 72),
            protocol_fee_basis_points: u64_at(data, 80),
            protocol_fee: u64_at(data, 88),
            quote_amount_out_without_lp_fee: u64_at(data, 96),
            user_quote_amount_out: u64_at(data, 104),
            pool: key_at(data, 112),
            user: key_at(data, 144),
            user_base_token_account: key_at(data, 176),
            user_quote_token_account: key_at(data, 208),
            protocol_fee_recipient: key_at(data, 240),
            protocol_fee_recipient_token_account: key_at(data, 272),
            coin_creator: key_at(data, 304),
            coin_creator_fee_basis_points: u64_at(data, 336),
            coin_creator_fee: u64_at(data, 344),
        })
    }
}

/// Liquidity was added to a pool.
#[derive(Debug, Clone, Copy)]
pub struct DepositCpiInstruction {
    pub timestamp: i64,
    pub lp_token_amount_out: u64,
    pub max_base_amount_in: u64,
    pub max_quote_amount_in: u64,
    pub user_base_token_reserves: u64,
    pub user_quote_token_reserves: u64,
    pub pool_base_token_reserves: u64,
    pub pool_quote_token_reserves: u64,
    pub base_amount_in: u64,
    pub quote_amount_in: u64,
    pub lp_mint_supply: u64,
    pub pool: Pubkey,
    pub user: Pubkey,
    pub user_base_token_account: Pubkey,
    pub user_quote_token_account: Pubkey,
    pub user_pool_token_account: Pubkey,
}

impl DepositCpiInstruction {
    /// The record as laid out in `s`: 248 bytes of fixed-width fields; any
    /// bytes after them are ignored.
    pub open spec fn spec_unpack(s: Seq<u8>) -> Result<Self, DecodeError> {
        if s.len() < 248 {
            Err(DecodeError::Truncated)
        } else {
            Ok(DepositCpiInstruction {
                timestamp: spec_i64_at(s, 0),
                lp_token_amount_out: spec_u64_at(s, 8),
                max_base_amount_in: spec_u64_at(s, 16),
                max_quote_amount_in: spec_u64_at(s, 24),
                user_base_token_reserves: spec_u64_at(s, 32),
                user_quote_token_reserves: spec_u64_at(s, 40),
                pool_base_token_reserves: spec_u64_at(s, 48),
                pool_quote_token_reserves: spec_u64_at(s, 56),
                base_amount_in: spec_u64_at(s, 64),
                quote_amount_in: spec_u64_at(s, 72),
                lp_mint_supply: spec_u64_at(s, 80),
                pool: spec_key_at(s, 88),
                user: spec_key_at(s, 120),
                user_base_token_account: spec_key_at(s, 152),
                user_quote_token_account: spec_key_at(s, 184),
                user_pool_token_account: spec_key_at(s, 216),
            })
        }
    }

    pub fn unpack(data: &[u8]) -> (r: Result<Self, DecodeError>)
        ensures
            r == Self::spec_unpack(data@),
    {
        if data.len() < 248 {
            return Err(DecodeError::Truncated);
        }
        Ok(DepositCpiInstruction {
            timestamp: i64_at(data, 0),
            lp_token_amount_out: u64_at(data, 8),
            max_base_amount_in: u64_at(data, 16),
            max_quote_amount_in: u64_at(data, 24),
            user_base_token_reserves: u64_at(data, 32),
            user_quote_token_reserves: u64_at(data, 40),
            pool_base_token_reserves: u64_at(data, 48),
            pool_quote_token_reserves: u64_at(data, 56),
            base_amount_in: u64_at(data, 64),
            quote_amount_in: u64_at(data, 72),
            lp_mint_supply: u64_at(data, 80),
            pool: key_at(data, 88),
            user: key_at(data, 120),
            user_base_token_account: key_at(data, 152),
            user_quote_token_account: key_at(data, 184),
            user_pool_token_account: key_at(data, 216),
        })
    }
}

/// Liquidity was removed from a pool.
#[derive(Debug, Clone, Copy)]
pub struct WithdrawCpiInstruction {
    pub timestamp: i64,
    pub lp_token_amount_in: u64,
    pub min_base_amount_out: u64,
    pub min_quote_amount_out: u64,
    pub user_base_token_reserves: u64,
    pub user_quote_token_reserves: u64,
    pub pool_base_token_reserves: u64,
    pub pool_quote_token_reserves: u64,
    pub base_amount_out: u64,
    pub quote_amount_out: u64,
    pub lp_mint_supply: u64,
    pub pool: Pubkey,
    pub user: Pubkey,
    pub user_base_token_account: Pubkey,
    pub user_quote_token_account: Pubkey,
    pub user_pool_token_account: Pubkey,
}

impl WithdrawCpiInstruction {
    /// The record as laid out in `s`: 248 bytes of fixed-width fields; any
    /// bytes after them are ignored.
    pub open spec fn spec_unpack(s: Seq<u8>) -> Result<Self, DecodeError> {
        if s.len() < 248 {
            Err(DecodeError::Truncated)
        } else {
            Ok(WithdrawCpiInstruction {
                timestamp: spec_i64_at(s, 0),
                lp_token_amount_in: spec_u64_at(s, 8),
                min_base_amount_out: spec_u64_at(s, 16),
                min_quote_amount_out: spec_u64_at(s, 24),
                user_base_token_reserves: spec_u64_at(s, 32),
                user_quote_token_reserves: spec_u64_at(s, 40),
                pool_base_token_reserves: spec_u64_at(s, 48),
                pool_quote_token_reserves: spec_u64_at(s, 56),
                base_amount_out: spec_u64_at(s, 64),
                quote_amount_out: spec_u64_at(s, 72),
                lp_mint_supply: spec_u64_at(s, 80),
                pool: spec_key_at(s, 88),
                user: spec_key_at(s, 120),
                user_base_token_account: spec_key_at(s, 152),
                user_quote_token_account: spec_key_at(s, 184),
                user_pool_token_account: spec_key_at(s, 216),
            })
        }
    }

    pub fn unpack(data: &[u8]) -> (r: Result<Self, DecodeError>)
        ensures
            r == Self::spec_unpack(data@),
    {
        if data.len() < 248 {
            return Err(DecodeError::Truncated);
        }
        Ok(WithdrawCpiInstruction {
            timestamp: i64_at(data, 0),
            lp_token_amount_in: u64_at(data, 8),
            min_base_amount_out: u64_at(data, 16),
            min_quote_amount_out: u64_at(data, 24),
            user_base_token_reserves: u64_at(data, 32),
            user_quote_token_reserves: u64_at(data, 40),
            pool_base_token_reserves: u64_at(data, 48),
            pool_quote_token_reserves: u64_at(data, 56),
            base_amount_out: u64_at(data, 64),
            quote_amount_out: u64_at(data, 72),
            lp_mint_supply: u64_at(data, 80),
            pool: key_at(data, 88),
            user: key_at(data, 120),
            user_base_token_account: key_at(data, 152),
            user_quote_token_account: key_at(data, 184),
            user_pool_token_account: key_at(data, 216),
        })
    }
}

/// The echo table never guesses: a payload too short for a tag, or whose tag
/// is in no entry, is `Unknown`; a known tag followed by fewer bytes than its
/// record needs is `Truncated`, never a partly filled record.
pub proof fn law_echo_table(s: Seq<u8>)
    ensures
        s.len() < 16 ==> PumpfunAmmCpiInstruction::spec_unpack(s) == Ok::<
            PumpfunAmmCpiInstruction,
            DecodeError,
        >(PumpfunAmmCpiInstruction::Unknown),
        !spec_tag_at(s, 8, CREATE_POOL_EVENT_TAG@) && !spec_tag_at(s, 8, BUY_EVENT_TAG@)
            && !spec_tag_at(s, 8, SELL_EVENT_TAG@) && !spec_tag_at(s, 8, DEPOSIT_EVENT_TAG@)
            && !spec_tag_at(s, 8, WITHDRAW_EVENT_TAG@) ==> PumpfunAmmCpiInstruction::spec_unpack(s)
            == Ok::<PumpfunAmmCpiInstruction, DecodeError>(PumpfunAmmCpiInstruction::Unknown),
        spec_tag_at(s, 8, CREATE_POOL_EVENT_TAG@) && s.len() < 16 + 325
            ==> PumpfunAmmCpiInstruction::spec_unpack(s) == Err::<
            PumpfunAmmCpiInstruction,
            DecodeError,
        >(DecodeError::Truncated),
        spec_tag_at(s, 8, BUY_EVENT_TAG@) && s.len() < 16 + 334
            ==> PumpfunAmmCpiInstruction::spec_unpack(s) == Err::<
            PumpfunAmmCpiInstruction,
            DecodeError,
        >(DecodeError::Truncated),
        spec_tag_at(s, 8, SELL_EVENT_TAG@) && s.len() < 16 + 352
            ==> PumpfunAmmCpiInstruction::spec_unpack(s) == Err::<
            PumpfunAmmCpiInstruction,
            DecodeError,
        >(DecodeError::Truncated),
        spec_tag_at(s, 8, DEPOSIT_EVENT_TAG@) && s.len() < 16 + 248
            ==> PumpfunAmmCpiInstruction::spec_unpack(s) == Err::<
            PumpfunAmmCpiInstruction,
            DecodeError,
        >(DecodeError::Truncated),
        spec_tag_at(s, 8, WITHDRAW_EVENT_TAG@) && s.len() < 16 + 248
            ==> PumpfunAmmCpiInstruction::spec_unpack(s) == Err::<
            PumpfunAmmCpiInstruction,
            DecodeError,
        >(DecodeError::Truncated),
{
    if s.len() >= 16 {
        let t = s.subrange(8, 16);
        assert(t[0] == s[8]);
        assert(CREATE_POOL_EVENT_TAG@[0] == 177);
        assert(BUY_EVENT_TAG@[0] == 103);
        assert(SELL_EVENT_TAG@[0] == 62);
        assert(DEPOSIT_EVENT_TAG@[0] == 120);
        assert(WITHDRAW_EVENT_TAG@[0] == 22);
    }
}

} // verus!
