use base64::Engine;
use dex_events::bytes::{DecodeError, Pubkey};
use dex_events::pumpfun_amm::instructions_cpi::{BUY_EVENT_TAG, CREATE_POOL_EVENT_TAG};
use dex_events::pumpswap::instruction::{
    BuyInstruction, CreatePoolInstruction, DepositInstruction, PumpswapInstruction,
    WithdrawInstruction, BUY_TAG, CREATE_POOL_TAG, DEPOSIT_TAG,
};
use dex_events::pumpswap::{parse_block, parse_transaction, Event, PUMPSWAP_PROGRAM_ID};
use dex_events::tree::{Block, Instruction, Transaction};

fn le(v: u64, out: &mut Vec<u8>) {
    out.extend_from_slice(&v.to_le_bytes());
}

fn echo_payload(tag: [u8; 8], body_len: usize) -> Vec<u8> {
    let mut v = vec![0u8; 8];
    v.extend_from_slice(&tag);
    for i in 0..body_len {
        v.push((i % 251) as u8);
    }
    v
}

fn swap(data: Vec<u8>, inner: Vec<Instruction>) -> Instruction {
    Instruction {
        program_id: Pubkey(PUMPSWAP_PROGRAM_ID),
        accounts: (0..4u8).map(|i| Pubkey([i + 1; 32])).collect(),
        data,
        inner,
    }
}

#[test]
fn instruction_unpack_by_tag() {
    let mut data = CREATE_POOL_TAG.to_vec();
    data.extend_from_slice(&5u16.to_le_bytes());
    le(100, &mut data);
    le(200, &mut data);
    match PumpswapInstruction::unpack(&data) {
        Ok(PumpswapInstruction::CreatePool(c)) => {
            assert_eq!((c.index, c.base_amount_in, c.quote_amount_in), (5, 100, 200));
        }
        other => panic!("unexpected {:?}", other),
    }
    assert!(matches!(PumpswapInstruction::unpack(&DEPOSIT_TAG), Ok(PumpswapInstruction::Deposit)));
    assert!(matches!(PumpswapInstruction::unpack(&[1, 2]), Ok(PumpswapInstruction::Unknown)));
    assert!(matches!(PumpswapInstruction::unpack(&BUY_TAG), Err(DecodeError::Truncated)));
}

#[test]
fn argument_records() {
    let mut b = Vec::new();
    le(1, &mut b);
    le(2, &mut b);
    le(3, &mut b);
    let d = DepositInstruction::_unpack(&b).unwrap();
    assert_eq!((d.lp_token_amount_out, d.max_base_amount_in, d.max_quote_amount_in), (1, 2, 3));
    let w = WithdrawInstruction::_unpack(&b).unwrap();
    assert_eq!(w.min_quote_amount_out, 3);
    let buy = BuyInstruction::unpack(&b).unwrap();
    assert_eq!(buy.max_quote_amount_in, 2);
    assert!(CreatePoolInstruction::unpack(&b[..17]).is_err());
}

#[test]
fn create_pool_reports_no_coin_creator() {
    let mut data = CREATE_POOL_TAG.to_vec();
    data.extend_from_slice(&[0u8; 18]);
    let ix = swap(data, vec![swap(echo_payload(CREATE_POOL_EVENT_TAG, 325), vec![])]);
    let t = Transaction { signature: vec![1u8; 64], failed: false, instructions: vec![ix], logs: vec![] };
    let (records, failures) = parse_block(&Block { transactions: vec![t] });
    assert!(failures.is_empty());
    assert_eq!(records.len(), 1);
    match &records[0].events[0] {
        Event::CreatePool(e) => {
            assert_eq!(e.coin_creator.to_string(), "11111111111111111111111111111111");
            assert_eq!(e.base_mint_decimals, 106 % 251);
        }
        other => panic!("unexpected {:?}", other),
    }
}

#[test]
fn buy_without_echo_is_missing_source() {
    let mut data = BUY_TAG.to_vec();
    le(1, &mut data);
    le(2, &mut data);
    let t = Transaction {
        signature: vec![1u8; 64],
        failed: false,
        instructions: vec![swap(data.clone(), vec![])],
        logs: vec![],
    };
    let (events, failures) = parse_transaction(&t);
    assert!(events.is_empty());
    assert_eq!(failures[0].error, DecodeError::MissingSource);
    let t2 = Transaction {
        signature: vec![1u8; 64],
        failed: false,
        instructions: vec![swap(data, vec![swap(echo_payload(BUY_EVENT_TAG, 334), vec![])])],
        logs: vec![],
    };
    let (events, failures) = parse_transaction(&t2);
    assert!(failures.is_empty());
    assert!(matches!(events[0], Event::Swap(s) if s.is_buy && s.pool.0 == [1u8; 32]
        && s.mint.0 == [4u8; 32] && s.coin_creator_fee == Some(0)));
}

#[test]
fn buy_falls_back_to_data_log() {
    let mut data = BUY_TAG.to_vec();
    le(1, &mut data);
    le(2, &mut data);
    let record = echo_payload(BUY_EVENT_TAG, 334)[8..].to_vec();
    let line = format!("Program data: {}", base64::engine::general_purpose::STANDARD.encode(&record));
    let from_log = Transaction {
        signature: vec![1u8; 64],
        failed: false,
        instructions: vec![swap(data.clone(), vec![])],
        logs: vec![line],
    };
    let from_echo = Transaction {
        signature: vec![1u8; 64],
        failed: false,
        instructions: vec![swap(data, vec![swap(echo_payload(BUY_EVENT_TAG, 334), vec![])])],
        logs: vec![],
    };
    let (a, fa) = parse_transaction(&from_log);
    let (b, _) = parse_transaction(&from_echo);
    assert!(fa.is_empty());
    assert_eq!(a.len(), 1);
    assert_eq!(format!("{:?}", a), format!("{:?}", b));
}
