//! Arguments of the pool program's instructions: an 8-byte tag, then the
//! arguments of the instruction that the tag names.
use vstd::prelude::*;
use crate::bytes::{
    read_string, read_u64, rest, spec_rest, spec_string_at, spec_tag_at, spec_u64_at, tag_at,
    u64_at, DecodeError,
};

verus! {

pub const CREATE_POOL_TAG: [u8; 8] = [242, 35, 198, 137, 82, 225, 242, 182];
pub const BUY_TAG: [u8; 8] = [102, 6, 61, 18, 1, 218, 235, 234];
pub const SELL_TAG: [u8; 8] = [51, 230, 133, 164, 1, 127, 131, 173];
pub const DEPOSIT_TAG: [u8; 8] = [120, 248, 61, 83, 31, 142, 107, 144];
pub const WITHDRAW_TAG: [u8; 8] = [183, 18, 70, 156, 148, 109, 161, 34];

/// The instructions of the pool program that carry an event.
#[derive(Debug, Clone, Copy, PartialEq, Eq, Structural)]
pub enum InstructionKind {
    CreatePool,
    Buy,
    Sell,
    Deposit,
    Withdraw,
}

/// The table entry that the payload's leading tag selects, if any.
pub open spec fn spec_classify(s: Seq<u8>) -> Option<InstructionKind> {
    if spec_tag_at(s, 0, CREATE_POOL_TAG@) {
        Some(InstructionKind::CreatePool)
    } else if spec_tag_at(s, 0, BUY_TAG@) {
        Some(InstructionKind::Buy)
    } else if spec_tag_at(s, 0, SELL_TAG@) {
        Some(InstructionKind::Sell)
    } else if spec_tag_at(s, 0, DEPOSIT_TAG@) {
        Some(InstructionKind::Deposit)
    } else if spec_tag_at(s, 0, WITHDRAW_TAG@) {
        Some(InstructionKind::Withdraw)
    } else {
        None
    }
}

/// Looks the payload's tag up in the instruction table; `None` stands for
/// an unrecognized payload, including one too short to hold a tag.
pub fn classify(data: &[u8]) -> (r: Option<InstructionKind>)
    ensures
        r == spec_classify(data@),
        data@.len() < 8 ==> r is None,
{
    if tag_at(data, 0, &CREATE_POOL_TAG) {
        Some(InstructionKind::CreatePool)
    } else if tag_at(data, 0, &BUY_TAG) {
        Some(InstructionKind::Buy)
    } else if tag_at(data, 0, &SELL_TAG) {
        Some(InstructionKind::Sell)
    } else if tag_at(data, 0, &DEPOSIT_TAG) {
        Some(InstructionKind::Deposit)
    } else if tag_at(data, 0, &WITHDRAW_TAG) {
        Some(InstructionKind::Withdraw)
    } else {
        None
    }
}

/// A decoded instruction of the pool program.
#[derive(Debug)]
pub enum PumpfunAmmInstruction {
    CreatePool(CreatePoolInstruction),
    Buy(BuyInstruction),
    Sell(SellInstruction),
    Deposit,
    Withdraw,
    Unknown,
}

/// What decoding a payload yields: the kind of a recognized instruction whose
/// arguments decode, `None` for an unrecognized one, or the decode error.
pub open spec fn spec_unpack_status(s: Seq<u8>) -> Result<Option<InstructionKind>, DecodeError> {
    let body = spec_rest(s, 8);
    match spec_classify(s) {
        None => Ok(None),
        Some(InstructionKind::CreatePool) => match CreatePoolInstruction::spec_unpack(body) {
            Ok(_) => Ok(Some(InstructionKind::CreatePool)),
            Err(e) => Err(e),
        },
        Some(InstructionKind::Buy) => match BuyInstruction::spec_unpack(body) {
            Ok(_) => Ok(Some(InstructionKind::Buy)),
            Err(e) => Err(e),
        },
        Some(InstructionKind::Sell) => match SellInstruction::spec_unpack(body) {
            Ok(_) => Ok(Some(InstructionKind::Sell)),
            Err(e) => Err(e),
        },
        Some(k) => Ok(Some(k)),
    }
}

impl PumpfunAmmInstruction {
    pub open spec fn kind(self) -> Option<InstructionKind> {
        match self {
            Self::CreatePool(_) => Some(InstructionKind::CreatePool),
            Self::Buy(_) => Some(InstructionKind::Buy),
            Self::Sell(_) => Some(InstructionKind::Sell),
            Self::Deposit => Some(InstructionKind::Deposit),
            Self::Withdraw => Some(InstructionKind::Withdraw),
            Self::Unknown => None,
        }
    }

    /// Decodes a payload: its tag selects the instruction, whose arguments are
    /// decoded from the bytes after the tag. An unrecognized tag gives
    /// `Unknown`.
    pub fn unpack(data: &[u8]) -> (r: Result<Self, DecodeError>)
        ensures
            r matches Ok(v) ==> spec_unpack_status(data@) == Ok::<
                Option<InstructionKind>,
                DecodeError,
            >(v.kind()),
            r matches Err(e) ==> spec_unpack_status(data@) == Err::<
                Option<InstructionKind>,
                DecodeError,
            >(e),
            r matches Ok(PumpfunAmmInstruction::CreatePool(v)) ==> CreatePoolInstruction::spec_unpack(
                spec_rest(data@, 8),
            ) == Ok::<(Seq<char>, Seq<char>, Seq<char>), DecodeError>(v@),
            r matches Ok(PumpfunAmmInstruction::Buy(v)) ==> BuyInstruction::spec_unpack(
                spec_rest(data@, 8),
            ) == Ok::<BuyInstruction, DecodeError>(v),
            r matches Ok(PumpfunAmmInstruction::Sell(v)) ==> SellInstruction::spec_unpack(
                spec_rest(data@, 8),
            ) == Ok::<SellInstruction, DecodeError>(v),
    {
        match classify(data) {
            None => Ok(Self::Unknown),
            Some(InstructionKind::CreatePool) => {
                let v = CreatePoolInstruction::unpack(rest(data, 8))?;
                Ok(Self::CreatePool(v))
            },
            Some(InstructionKind::Buy) => {
                let v = BuyInstruction::unpack(rest(data, 8))?;
                Ok(Self::Buy(v))
            },
            Some(InstructionKind::Sell) => {
                let v = SellInstruction::unpack(rest(data, 8))?;
                Ok(Self::Sell(v))
            },
            Some(InstructionKind::Deposit) => Ok(Self::Deposit),
            Some(InstructionKind::Withdraw) => Ok(Self::Withdraw),
        }
    }
}

/// Arguments of a deposit: a text amount and two limits.
#[derive(Debug)]
pub struct DepositInstruction {
    pub lp_token_amount_out: String,
    pub max_base_amount_in: u64,
    pub max_quote_amount_in: u64,
}

impl View for DepositInstruction {
    type V = (Seq<char>, u64, u64);

    open spec fn view(&self) -> (Seq<char>, u64, u64) {
        (self.lp_token_amount_out@, self.max_base_amount_in, self.max_quote_amount_in)
    }
}

/// A length-prefixed text field followed by two `u64` fields.
pub open spec fn spec_text_u64_u64(s: Seq<u8>) -> Result<(Seq<char>, u64, u64), DecodeError> {
    match spec_string_at(s, 0) {
        Err(e) => Err(e),
        Ok((t, p)) => if p + 16 > s.len() {
            Err(DecodeError::Truncated)
        } else {
            Ok((t, spec_u64_at(s, p), spec_u64_at(s, p + 8)))
        },
    }
}

fn unpack_text_u64_u64(data: &[u8]) -> (r: Result<(String, u64, u64), DecodeError>)
    ensures
        r matches Ok((t, a, b)) ==> spec_text_u64_u64(data@) == Ok::<
            (Seq<char>, u64, u64),
            DecodeError,
        >((t@, a, b)),
        r matches Err(e) ==> spec_text_u64_u64(data@) == Err::<(Seq<char>, u64, u64), DecodeError>(
            e,
        ),
{
    let (t, p) = read_string(data, 0)?;
    let (a, p) = read_u64(data, p)?;
    let (b, _) = read_u64(data, p)?;
    Ok((t, a, b))
}

impl DepositInstruction {
    pub open spec fn spec_unpack(s: Seq<u8>) -> Result<(Seq<char>, u64, u64), DecodeError> {
        spec_text_u64_u64(s)
    }

    pub fn unpack(data: &[u8]) -> (r: Result<Self, DecodeError>)
        ensures
            r matches Ok(v) ==> Self::spec_unpack(data@) == Ok::<
                (Seq<char>, u64, u64),
                DecodeError,
            >(v@),
            r matches Err(e) ==> Self::spec_unpack(data@) == Err::<
                (Seq<char>, u64, u64),
                DecodeError,
            >(e),
    {
        let (t, a, b) = unpack_text_u64_u64(data)?;
        Ok(DepositInstruction { lp_token_amount_out: t, max_base_amount_in: a, max_quote_amount_in: b })
    }
}

/// Arguments of a withdrawal: a text amount and two limits.
#[derive(Debug)]
pub struct WithdrawInstruction {
    pub lp_token_amount_out: String,
    pub max_base_amount_in: u64,
    pub max_quote_amount_in: u64,
}

impl View for WithdrawInstruction {
    type V = (Seq<char>, u64, u64);

    open spec fn view(&self) -> (Seq<char>, u64, u64) {
        (self.lp_token_amount_out@, self.max_base_amount_in, self.max_quote_amount_in)
    }
}

impl WithdrawInstruction {
    pub open spec fn spec_unpack(s: Seq<u8>) -> Result<(Seq<char>, u64, u64), DecodeError> {
        spec_text_u64_u64(s)
    }

    pub fn unpack(data: &[u8]) -> (r: Result<Self, DecodeError>)
        ensures
            r matches Ok(v) ==> Self::spec_unpack(data@) == Ok::<
                (Seq<char>, u64, u64),
                DecodeError,
            >(v@),
            r matches Err(e) ==> Self::spec_unpack(data@) == Err::<
                (Seq<char>, u64, u64),
                DecodeError,
            >(e),
    {
        let (t, a, b) = unpack_text_u64_u64(data)?;
        Ok(
            WithdrawInstruction {
                lp_token_amount_out: t,
                max_base_amount_in: a,
                max_quote_amount_in: b,
            },
        )
    }
}

/// Arguments of a pool creation: three length-prefixed text fields.
#[derive(Debug)]
pub struct CreatePoolInstruction {
    pub base_amount_in: String,
    pub quote_amount_in: String,
    pub coin_creator: String,
}

impl View for CreatePoolInstruction {
    type V = (Seq<char>, Seq<char>, Seq<char>);

    open spec fn view(&self) -> (Seq<char>, Seq<char>, Seq<char>) {
        (self.base_amount_in@, self.quote_amount_in@, self.coin_creator@)
    }
}

impl CreatePoolInstruction {
    pub open spec fn spec_unpack(s: Seq<u8>) -> Result<(Seq<char>, Seq<char>, Seq<char>), DecodeError> {
        match spec_string_at(s, 0) {
            Err(e) => Err(e),
            Ok((a, p)) => match spec_string_at(s, p) {
                Err(e) => Err(e),
                Ok((b, q)) => match spec_string_at(s, q) {
                    Err(e) => Err(e),
                    Ok((c, _)) => Ok((a, b, c)),
                },
            },
        }
    }

    pub fn unpack(data: &[u8]) -> (r: Result<Self, DecodeError>)
        ensures
            r matches Ok(v) ==> Self::spec_unpack(data@) == Ok::<
                (Seq<char>, Seq<char>, Seq<char>),
                DecodeError,
            >(v@),
            r matches Err(e) ==> Self::spec_unpack(data@) == Err::<
                (Seq<char>, Seq<char>, Seq<char>),
                DecodeError,
            >(e),
    {
        let (a, p) = read_string(data, 0)?;
        let (b, q) = read_string(data, p)?;
        let (c, _) = read_string(data, q)?;
        Ok(CreatePoolInstruction { base_amount_in: a, quote_amount_in: b, coin_creator: c })
    }
}

/// Arguments of a buy.
#[derive(Debug, Clone, Copy, PartialEq, Eq, Structural)]
pub struct BuyInstruction {
    pub base_amount_out: u64,
    pub max_quote_amount_in: u64,
}

impl BuyInstruction {
    pub open spec fn spec_unpack(s: Seq<u8>) -> Result<Self, DecodeError> {
        if s.len() < 16 {
            Err(DecodeError::Truncated)
        } else {
            Ok(BuyInstruction { base_amount_out: spec_u64_at(s, 0), max_quote_amount_in: spec_u64_at(s, 8) })
        }
    }

    pub fn unpack(data: &[u8]) -> (r: Result<Self, DecodeError>)
        ensures
            r == Self::spec_unpack(data@),
    {
        if data.len() < 16 {
            return Err(DecodeError::Truncated);
        }
        Ok(BuyInstruction { base_amount_out: u64_at(data, 0), max_quote_amount_in: u64_at(data, 8) })
    }
}

/// Arguments of a sell.
#[derive(Debug, Clone, Copy, PartialEq, Eq, Structural)]
pub struct SellInstruction {
    pub base_amount_in: u64,
    pub min_quote_amount_out: u64,
}

impl SellInstruction {
    pub open spec fn spec_unpack(s: Seq<u8>) -> Result<Self, DecodeError> {
        if s.len() < 16 {
            Err(DecodeError::Truncated)
        } else {
            Ok(SellInstruction { base_amount_in: spec_u64_at(s, 0), min_quote_amount_out: spec_u64_at(s, 8) })
        }
    }

    pub fn unpack(data: &[u8]) -> (r: Result<Self, DecodeError>)
        ensures
            r == Self::spec_unpack(data@),
    {
        if data.len() < 16 {
            return Err(DecodeError::Truncated);
        }
        Ok(SellInstruction { base_amount_in: u64_at(data, 0), min_quote_amount_out: u64_at(data, 8) })
    }
}

} // verus!
