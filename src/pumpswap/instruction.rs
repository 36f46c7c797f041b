//! Arguments of the swap program's instructions: an 8-byte tag, then the
//! arguments of the instruction that the tag names.
use vstd::prelude::*;
use crate::bytes::{
    rest, spec_rest, spec_tag_at, spec_u16_at, spec_u64_at, tag_at, u16_at, u64_at, DecodeError,
};
use crate::pumpfun_amm::instruction::InstructionKind;

verus! {

pub const CREATE_POOL_TAG: [u8; 8] = [233, 146, 209, 142, 207, 104, 64, 188];
pub const BUY_TAG: [u8; 8] = [102, 6, 61, 18, 1, 218, 235, 234];
pub const SELL_TAG: [u8; 8] = [51, 230, 133, 164, 1, 127, 131, 173];
pub const DEPOSIT_TAG: [u8; 8] = [242, 35, 198, 137, 82, 225, 242, 182];
pub const WITHDRAW_TAG: [u8; 8] = [183, 18, 70, 156, 148, 109, 161, 34];

/// The table entry that the payload's leading tag selects, if any.
pub open spec fn spec_classify(s: Seq<u8>) -> Option<InstructionKind> {
    if spec_tag_at(s, 0, CREATE_POOL_TAG@) {
        Some(InstructionKind::CreatePool)
    } else if spec_tag_at(s, 0, BUY_TAG@) {
        Some(InstructionKind::Buy)
    } else if spec_tag_at(s, 0, SELL_TAG@) {
        Some(InstructionKind::Sell)
    } else if spec_tag_at(s, 0, DEPOSIT_TAG@) {
        Some(InstructionKind::Deposit)
    } else if spec_tag_at(s, 0, WITHDRAW_TAG@) {
        Some(InstructionKind::Withdraw)
    } else {
        None
    }
}

/// Looks the payload's tag up in the instruction table; `None` stands for
/// an unrecognized payload, including one too short to hold a tag.
pub fn classify(data: &[u8]) -> (r: Option<InstructionKind>)
    ensures
        r == spec_classify(data@),
        data@.len() < 8 ==> r is None,
{
    if tag_at(data, 0, &CREATE_POOL_TAG) {
        Some(InstructionKind::CreatePool)
    } else if tag_at(data, 0, &BUY_TAG) {
        Some(InstructionKind::Buy)
    } else if tag_at(data, 0, &SELL_TAG) {
        Some(InstructionKind::Sell)
    } else if tag_at(data, 0, &DEPOSIT_TAG) {
        Some(InstructionKind::Deposit)
    } else if tag_at(data, 0, &WITHDRAW_TAG) {
        Some(InstructionKind::Withdraw)
    } else {
        None
    }
}

/// A decoded instruction of the swap program.
#[derive(Debug, Clone, Copy)]
pub enum PumpswapInstruction {
    CreatePool(CreatePoolInstruction),
    Buy(BuyInstruction),
    Sell(SellInstruction),
    Deposit,
    Withdraw,
    Unknown,
}

impl PumpswapInstruction {
    /// The tag selects the instruction, whose arguments are decoded from the
    /// bytes after it; an unrecognized payload is `Unknown`.
    pub open spec fn spec_unpack(s: Seq<u8>) -> Result<Self, DecodeError> {
        let body = spec_rest(s, 8);
        match spec_classify(s) {
            None => Ok(Self::Unknown),
            Some(InstructionKind::CreatePool) => match CreatePoolInstruction::spec_unpack(body) {
                Ok(v) => Ok(Self::CreatePool(v)),
                Err(e) => Err(e),
            },
            Some(InstructionKind::Buy) => match BuyInstruction::spec_unpack(body) {
                Ok(v) => Ok(Self::Buy(v)),
                Err(e) => Err(e),
            },
            Some(InstructionKind::Sell) => match SellInstruction::spec_unpack(body) {
                Ok(v) => Ok(Self::Sell(v)),
                Err(e) => Err(e),
            },
            Some(InstructionKind::Deposit) => Ok(Self::Deposit),
            Some(InstructionKind::Withdraw) => Ok(Self::Withdraw),
        }
    }

    pub open spec fn kind(self) -> Option<InstructionKind> {
        match self {
            Self::CreatePool(_) => Some(InstructionKind::CreatePool),
            Self::Buy(_) => Some(InstructionKind::Buy),
            Self::Sell(_) => Some(InstructionKind::Sell),
            Self::Deposit => Some(InstructionKind::Deposit),
            Self::Withdraw => Some(InstructionKind::Withdraw),
            Self::Unknown => None,
        }
    }

    pub fn unpack(data: &[u8]) -> (r: Result<Self, DecodeError>)
        ensures
            r == Self::spec_unpack(data@),
    {
        match classify(data) {
            None => Ok(Self::Unknown),
            Some(InstructionKind::CreatePool) => {
                let v = CreatePoolInstruction::unpack(rest(data, 8))?;
                Ok(Self::CreatePool(v))
            },
            Some(InstructionKind::Buy) => {
                let v = BuyInstruction::unpack(rest(data, 8))?;
                Ok(Self::Buy(v))
            },
            Some(InstructionKind::Sell) => {
                let v = SellInstruction::unpack(rest(data, 8))?;
                Ok(Self::Sell(v))
            },
            Some(InstructionKind::Deposit) => Ok(Self::Deposit),
            Some(InstructionKind::Withdraw) => Ok(Self::Withdraw),
        }
    }
}

/// Arguments of a deposit.
#[derive(Debug, Clone, Copy)]
pub struct DepositInstruction {
    pub lp_token_amount_out: u64,
    pub max_base_amount_in: u64,
    pub max_quote_amount_in: u64,
}

impl DepositInstruction {
    /// The record as laid out in `s`: 24 bytes of fixed-width fields; any
    /// bytes after them are ignored.
    pub open spec fn spec_unpack(s: Seq<u8>) -> Result<Self, DecodeError> {
        if s.len() < 24 {
            Err(DecodeError::Truncated)
        } else {
            Ok(DepositInstruction {
                lp_token_amount_out: spec_u64_at(s, 0),
                max_base_amount_in: spec_u64_at(s, 8),
                max_quote_amount_in: spec_u64_at(s, 16),
            })
        }
    }

    pub fn _unpack(data: &[u8]) -> (r: Result<Self, DecodeError>)
        ensures
            r == Self::spec_unpack(data@),
    {
        if data.len() < 24 {
            return Err(DecodeError::Truncated);
        }
        Ok(DepositInstruction {
            lp_token_amount_out: u64_at(data, 0),
            max_base_amount_in: u64_at(data, 8),
            max_quote_amount_in: u64_at(data, 16),
        })
    }
}

/// Arguments of a withdrawal.
#[derive(Debug, Clone, Copy)]
pub struct WithdrawInstruction {
    pub lp_token_amount_in: u64,
    pub min_base_amount_out: u64,
    pub min_quote_amount_out: u64,
}

impl WithdrawInstruction {
    /// The record as laid out in `s`: 24 bytes of fixed-width fields; any
    /// bytes after them are ignored.
    pub open spec fn spec_unpack(s: Seq<u8>) -> Result<Self, DecodeError> {
        if s.len() < 24 {
            Err(DecodeError::Truncated)
        } else {
            Ok(WithdrawInstruction {
                lp_token_amount_in: spec_u64_at(s, 0),
                min_base_amount_out: spec_u64_at(s, 8),
                min_quote_amount_out: spec_u64_at(s, 16),
            })
        }
    }

    pub fn _unpack(data: &[u8]) -> (r: Result<Self, DecodeError>)
        ensures
            r == Self::spec_unpack(data@),
    {
        if data.len() < 24 {
            return Err(DecodeError::Truncated);
        }
        Ok(WithdrawInstruction {
            lp_token_amount_in: u64_at(data, 0),
            min_base_amount_out: u64_at(data, 8),
            min_quote_amount_out: u64_at(data, 16),
        })
    }
}

/// Arguments of a pool creation.
#[derive(Debug, Clone, Copy)]
pub struct CreatePoolInstruction {
    pub index: u16,
    pub base_amount_in: u64,
    pub quote_amount_in: u64,
}

impl CreatePoolInstruction {
    /// The record as laid out in `s`: 18 bytes of fixed-width fields; any
    /// bytes after them are ignored.
    pub open spec fn spec_unpack(s: Seq<u8>) -> Result<Self, DecodeError> {
        if s.len() < 18 {
            Err(DecodeError::Truncated)
        } else {
            Ok(CreatePoolInstruction {
                index: spec_u16_at(s, 0),
                base_amount_in: spec_u64_at(s, 2),
                quote_amount_in: spec_u64_at(s, 10),
            })
        }
    }

    pub fn unpack(data: &[u8]) -> (r: Result<Self, DecodeError>)
        ensures
            r == Self::spec_unpack(data@),
    {
        if data.len() < 18 {
            return Err(DecodeError::Truncated);
        }
        Ok(CreatePoolInstruction {
            index: u16_at(data, 0),
            base_amount_in: u64_at(data, 2),
            quote_amount_in: u64_at(data, 10),
        })
    }
}

/// Arguments of a buy.
#[derive(Debug, Clone, Copy)]
pub struct BuyInstruction {
    pub base_amount_out: u64,
    pub max_quote_amount_in: u64,
}

impl BuyInstruction {
    /// The record as laid out in `s`: 16 bytes of fixed-width fields; any
    /// bytes after them are ignored.
    pub open spec fn spec_unpack(s: Seq<u8>) -> Result<Self, DecodeError> {
        if s.len() < 16 {
            Err(DecodeError::Truncated)
        } else {
            Ok(BuyInstruction {
                base_amount_out: spec_u64_at(s, 0),
                max_quote_amount_in: spec_u64_at(s, 8),
            })
        }
    }

    pub fn unpack(data: &[u8]) -> (r: Result<Self, DecodeError>)
        ensures
            r == Self::spec_unpack(data@),
    {
        if data.len() < 16 {
            return Err(DecodeError::Truncated);
        }
        Ok(BuyInstruction {
            base_amount_out: u64_at(data, 0),
            max_quote_amount_in: u64_at(data, 8),
        })
    }
}

/// Arguments of a sell.
#[derive(Debug, Clone, Copy)]
pub struct SellInstruction {
    pub base_amount_in: u64,
    pub min_quote_amount_out: u64,
}

impl SellInstruction {
    /// The record as laid out in `s`: 16 bytes of fixed-width fields; any
    /// bytes after them are ignored.
    pub open spec fn spec_unpack(s: Seq<u8>) -> Result<Self, DecodeError> {
        if s.len() < 16 {
            Err(DecodeError::Truncated)
        } else {
            Ok(SellInstruction {
                base_amount_in: spec_u64_at(s, 0),
                min_quote_amount_out: spec_u64_at(s, 8),
            })
        }
    }

    pub fn unpack(data: &[u8]) -> (r: Result<Self, DecodeError>)
        ensures
            r == Self::spec_unpack(data@),
    {
        if data.len() < 16 {
            return Err(DecodeError::Truncated);
        }
        Ok(SellInstruction {
            base_amount_in: u64_at(data, 0),
            min_quote_amount_out: u64_at(data, 8),
        })
    }
}

} // verus!
