use base64::Engine;
use dex_events::bytes::{DecodeError, Pubkey};
use dex_events::pumpfun_amm::instruction::{
    classify, InstructionKind, PumpfunAmmInstruction, BUY_TAG, CREATE_POOL_TAG, DEPOSIT_TAG,
    SELL_TAG,
};
use dex_events::pumpfun_amm::instructions_cpi::{
    PumpfunAmmCpiInstruction, BUY_EVENT_TAG, CREATE_POOL_EVENT_TAG, DEPOSIT_EVENT_TAG,
    SELL_EVENT_TAG,
};
use dex_events::pumpfun_amm::log::PumpfunAmmLog;
use dex_events::pumpfun_amm::{
    liquidity_accounts, parse_block, parse_instruction, parse_transaction, swap_accounts, Event,
    PUMPFUN_AMM_PROGRAM_ID,
};
use dex_events::tree::{Block, Instruction, Transaction};

const MARKER: [u8; 8] = [228, 69, 165, 46, 81, 203, 154, 29];

fn key(b: u8) -> Pubkey {
    Pubkey([b; 32])
}

struct Rec(Vec<u8>);

impl Rec {
    fn new(prefix: &[u8]) -> Rec {
        Rec(prefix.to_vec())
    }
    fn u8(mut self, v: u8) -> Rec {
        self.0.push(v);
        self
    }
    fn u16(mut self, v: u16) -> Rec {
        self.0.extend_from_slice(&v.to_le_bytes());
        self
    }
    fn u64(mut self, v: u64) -> Rec {
        self.0.extend_from_slice(&v.to_le_bytes());
        self
    }
    fn i64(mut self, v: i64) -> Rec {
        self.0.extend_from_slice(&v.to_le_bytes());
        self
    }
    fn key(mut self, b: u8) -> Rec {
        self.0.extend_from_slice(&[b; 32]);
        self
    }
    fn text(mut self, t: &str) -> Rec {
        self.0.extend_from_slice(&(t.len() as u32).to_le_bytes());
        self.0.extend_from_slice(t.as_bytes());
        self
    }
}

fn prefix(a: &[u8], b: &[u8]) -> Vec<u8> {
    let mut v = a.to_vec();
    v.extend_from_slice(b);
    v
}

fn create_pool_record(p: &[u8]) -> Vec<u8> {
    Rec::new(p)
        .i64(1_700_000_000)
        .u16(7)
        .key(1)
        .key(2)
        .key(3)
        .u8(6)
        .u8(9)
        .u64(1000)
        .u64(2000)
        .u64(3000)
        .u64(4000)
        .u64(5)
        .u64(6)
        .u64(7)
        .u8(254)
        .key(4)
        .key(5)
        .key(6)
        .key(7)
        .key(8)
        .0
}

fn buy_record(p: &[u8]) -> Vec<u8> {
    Rec::new(p)
        .i64(-5)
        .u64(11)
        .u64(12)
        .u64(13)
        .u64(14)
        .u64(15)
        .u64(16)
        .u64(17)
        .u16(20)
        .u64(18)
        .u16(5)
        .u64(19)
        .u64(20)
        .u64(21)
        .key(31)
        .key(32)
        .key(33)
        .key(34)
        .key(35)
        .key(36)
        .key(37)
        .u16(3)
        .u64(22)
        .0
}

fn sell_record_cpi(p: &[u8]) -> Vec<u8> {
    Rec::new(p)
        .i64(99)
        .u64(41)
        .u64(42)
        .u64(43)
        .u64(44)
        .u64(45)
        .u64(46)
        .u64(47)
        .u64(20)
        .u64(48)
        .u64(5)
        .u64(49)
        .u64(50)
        .u64(51)
        .key(31)
        .key(32)
        .key(33)
        .key(34)
        .key(35)
        .key(36)
        .key(37)
        .u64(3)
        .u64(52)
        .0
}

fn liquidity_record(p: &[u8]) -> Vec<u8> {
    let mut r = Rec::new(p).i64(3);
    for v in 1..=10u64 {
        r = r.u64(v * 100);
    }
    r.key(1).key(2).key(3).key(4).key(5).0
}

fn amm(data: Vec<u8>, accounts: Vec<Pubkey>, inner: Vec<Instruction>) -> Instruction {
    Instruction { program_id: Pubkey(PUMPFUN_AMM_PROGRAM_ID), accounts, data, inner }
}

fn echo(record: Vec<u8>) -> Instruction {
    amm(record, vec![key(90)], vec![])
}

fn swap_keys() -> Vec<Pubkey> {
    vec![key(50), key(51), key(52), key(53)]
}

fn buy_ix(inner: Vec<Instruction>) -> Instruction {
    amm(Rec::new(&BUY_TAG).u64(1).u64(2).0, swap_keys(), inner)
}

fn sell_ix(inner: Vec<Instruction>) -> Instruction {
    amm(Rec::new(&SELL_TAG).u64(1).u64(2).0, swap_keys(), inner)
}

fn tx(instructions: Vec<Instruction>, logs: Vec<String>) -> Transaction {
    Transaction { signature: vec![7u8; 64], failed: false, instructions, logs }
}

fn echo_prefix(tag: [u8; 8]) -> Vec<u8> {
    prefix(&MARKER, &tag)
}

#[test]
fn classify_short_payload_is_unrecognized() {
    assert!(classify(&[]).is_none());
    assert!(classify(&BUY_TAG[..7]).is_none());
    assert!(matches!(PumpfunAmmInstruction::unpack(&[1, 2, 3]), Ok(PumpfunAmmInstruction::Unknown)));
    assert!(matches!(
        PumpfunAmmCpiInstruction::unpack(&BUY_EVENT_TAG),
        Ok(PumpfunAmmCpiInstruction::Unknown)
    ));
}

#[test]
fn classify_known_and_unknown_tags() {
    assert_eq!(classify(&BUY_TAG), Some(InstructionKind::Buy));
    assert_eq!(classify(&prefix(&SELL_TAG, &[1, 2])), Some(InstructionKind::Sell));
    assert_eq!(classify(&CREATE_POOL_TAG), Some(InstructionKind::CreatePool));
    assert_eq!(classify(&[9u8; 20]), None);
    assert!(matches!(
        PumpfunAmmCpiInstruction::unpack(&[9u8; 40]),
        Ok(PumpfunAmmCpiInstruction::Unknown)
    ));
}

#[test]
fn known_tag_with_truncated_body_is_truncated() {
    let mut data = buy_record(&echo_prefix(BUY_EVENT_TAG));
    data.pop();
    assert!(matches!(PumpfunAmmCpiInstruction::unpack(&data), Err(DecodeError::Truncated)));
    assert!(matches!(
        PumpfunAmmInstruction::unpack(&prefix(&BUY_TAG, &[1, 2, 3])),
        Err(DecodeError::Truncated)
    ));
}

#[test]
fn buy_echo_decodes_every_field() {
    let data = buy_record(&echo_prefix(BUY_EVENT_TAG));
    match PumpfunAmmCpiInstruction::unpack(&data) {
        Ok(PumpfunAmmCpiInstruction::BuyCpi(b)) => {
            assert_eq!(b.timestamp, -5);
            assert_eq!(b.base_amount_out, 11);
            assert_eq!(b.quote_amount_in, 17);
            assert_eq!(b.lp_fee_basis_points, 20);
            assert_eq!(b.protocol_fee, 19);
            assert_eq!(b.coin_creator.0, [37u8; 32]);
            assert_eq!(b.coin_creator_fee_basis_points, 3);
            assert_eq!(b.coin_creator_fee, 22);
        }
        other => panic!("unexpected {:?}", other),
    }
}

#[test]
fn create_pool_instruction_text_arguments() {
    let data = Rec::new(&CREATE_POOL_TAG).text("100").text("200").text("abc").0;
    match PumpfunAmmInstruction::unpack(&data) {
        Ok(PumpfunAmmInstruction::CreatePool(c)) => {
            assert_eq!(c.base_amount_in, "100");
            assert_eq!(c.quote_amount_in, "200");
            assert_eq!(c.coin_creator, "abc");
        }
        other => panic!("unexpected {:?}", other),
    }
}

#[test]
fn create_pool_instruction_invalid_utf8() {
    let data = Rec::new(&CREATE_POOL_TAG).text("1").u64(2).u8(0xff).u8(0xfe).0;
    let mut bad = Rec::new(&CREATE_POOL_TAG).text("1").text("2").0;
    bad.extend_from_slice(&2u32.to_le_bytes());
    bad.extend_from_slice(&[0xff, 0xfe]);
    assert!(PumpfunAmmInstruction::unpack(&data).is_err());
    assert!(matches!(PumpfunAmmInstruction::unpack(&bad), Err(DecodeError::InvalidUtf8)));
}

#[test]
fn swap_accounts_need_four() {
    let ok = amm(vec![], swap_keys(), vec![]);
    let acc = swap_accounts(&ok).unwrap();
    assert_eq!(acc.pool.0, [50u8; 32]);
    assert_eq!(acc.user.0, [51u8; 32]);
    assert_eq!(acc.base_mint.0, [53u8; 32]);
    let short = amm(vec![], vec![key(1), key(2), key(3)], vec![]);
    assert!(matches!(swap_accounts(&short), Err(DecodeError::AccountIndexOutOfRange)));
}

#[test]
fn liquidity_accounts_need_three() {
    let ok = amm(vec![], vec![key(1), key(2), key(3)], vec![]);
    let acc = liquidity_accounts(&ok).unwrap();
    assert_eq!(acc.pool.0, [1u8; 32]);
    assert_eq!(acc.user.0, [3u8; 32]);
    let short = amm(vec![], vec![key(1), key(2)], vec![]);
    assert!(matches!(liquidity_accounts(&short), Err(DecodeError::AccountIndexOutOfRange)));
}

#[test]
fn scenario_create_pool_with_echo() {
    let create = amm(
        Rec::new(&CREATE_POOL_TAG).text("1").text("2").text("x").0,
        vec![],
        vec![echo(create_pool_record(&echo_prefix(CREATE_POOL_EVENT_TAG)))],
    );
    let block = Block { transactions: vec![tx(vec![create], vec![])] };
    let (records, failures) = parse_block(&block);
    assert!(failures.is_empty());
    assert_eq!(records.len(), 1);
    assert_eq!(records[0].signature, bs58::encode(vec![7u8; 64]).into_string());
    assert_eq!(records[0].events.len(), 1);
    match &records[0].events[0] {
        Event::CreatePool(e) => {
            assert_eq!(e.pool.0, [4u8; 32]);
            assert_eq!(e.creator.0, [1u8; 32]);
            assert_eq!(e.coin_creator.0, [8u8; 32]);
            assert_eq!(e.base_mint.0, [2u8; 32]);
            assert_eq!(e.quote_mint.0, [3u8; 32]);
            assert_eq!(e.base_mint_decimals, 6);
            assert_eq!(e.quote_mint_decimals, 9);
            assert_eq!(e.base_amount_in, Some(1000));
            assert_eq!(e.quote_amount_in, Some(2000));
            assert_eq!(e.pool_base_amount, Some(3000));
            assert_eq!(e.pool_quote_amount, Some(4000));
            assert_eq!(e.timestamp, 1_700_000_000);
        }
        other => panic!("unexpected {:?}", other),
    }
}

#[test]
fn scenario_failed_transaction_is_omitted() {
    let mut t = tx(vec![buy_ix(vec![echo(buy_record(&echo_prefix(BUY_EVENT_TAG)))])], vec![]);
    t.failed = true;
    let (events, failures) = parse_transaction(&t);
    assert!(events.is_empty() && failures.is_empty());
    let (records, failures) = parse_block(&Block { transactions: vec![t] });
    assert!(records.is_empty() && failures.is_empty());
}

#[test]
fn scenario_buy_falls_back_to_log() {
    let record = buy_record(&BUY_EVENT_TAG);
    let line = format!("Program data: {}", base64::engine::general_purpose::STANDARD.encode(&record));
    let logs = vec!["Program log: Instruction: Buy".to_string(), line];
    let from_log = parse_instruction(&buy_ix(vec![]), &logs).unwrap().unwrap();
    let from_echo =
        parse_instruction(&buy_ix(vec![echo(buy_record(&echo_prefix(BUY_EVENT_TAG)))]), &vec![])
            .unwrap()
            .unwrap();
    assert_eq!(format!("{:?}", from_log), format!("{:?}", from_echo));
    match from_log {
        Event::Swap(s) => {
            assert!(s.is_buy);
            assert_eq!(s.user.0, [51u8; 32]);
            assert_eq!(s.mint.0, [50u8; 32]);
            assert_eq!(s.bonding_curve.0, [53u8; 32]);
            assert_eq!(s.base_amount_in, 17);
            assert_eq!(s.min_quote_amount_out, 11);
            assert_eq!(s.real_sol_reserves, Some(16));
            assert_eq!(s.real_token_reserves, Some(15));
            assert_eq!(s.protocol_fee, Some(19));
            assert_eq!(s.coin_creator_fee, Some(22));
            assert_eq!(s.virtual_sol_reserves, Some(0));
            assert_eq!(s.timestamp, -5);
        }
        other => panic!("unexpected {:?}", other),
    }
}

#[test]
fn echo_is_preferred_over_log() {
    let log_record = Rec::new(&BUY_EVENT_TAG).0;
    let line = format!("Program data: {}", base64::engine::general_purpose::STANDARD.encode(&log_record));
    let e = parse_instruction(&buy_ix(vec![echo(buy_record(&echo_prefix(BUY_EVENT_TAG)))]), &vec![line])
        .unwrap()
        .unwrap();
    assert!(matches!(e, Event::Swap(s) if s.base_amount_in == 17));
}

#[test]
fn buy_without_source_is_missing_source() {
    let logs = vec!["Program data: not base64!".to_string(), "Program log: x".to_string()];
    assert!(matches!(parse_instruction(&buy_ix(vec![]), &logs), Err(DecodeError::MissingSource)));
    let t = tx(vec![buy_ix(vec![])], logs);
    let (events, failures) = parse_transaction(&t);
    assert!(events.is_empty());
    assert_eq!(failures.len(), 1);
    assert_eq!(failures[0].index, 0);
    assert_eq!(failures[0].error, DecodeError::MissingSource);
}

#[test]
fn scenario_untracked_program_is_skipped() {
    let foreign = Instruction {
        program_id: key(200),
        accounts: vec![],
        data: prefix(&BUY_TAG, &[0u8; 16]),
        inner: vec![],
    };
    let t = tx(
        vec![
            buy_ix(vec![echo(buy_record(&echo_prefix(BUY_EVENT_TAG)))]),
            foreign,
            sell_ix(vec![echo(sell_record_cpi(&echo_prefix(SELL_EVENT_TAG)))]),
        ],
        vec![],
    );
    let (events, failures) = parse_transaction(&t);
    assert!(failures.is_empty());
    assert_eq!(events.len(), 2);
    assert!(matches!(events[0], Event::Swap(s) if s.is_buy && s.base_amount_in == 17));
    assert!(matches!(events[1], Event::Swap(s) if !s.is_buy && s.base_amount_in == 41
        && s.min_quote_amount_out == 47 && s.coin_creator_fee == Some(52)));
}

#[test]
fn events_follow_pre_order() {
    let deposit = amm(
        DEPOSIT_TAG.to_vec(),
        vec![key(1), key(2), key(3)],
        vec![echo(liquidity_record(&echo_prefix(DEPOSIT_EVENT_TAG)))],
    );
    let sell_in_deposit = amm(
        DEPOSIT_TAG.to_vec(),
        vec![key(4), key(5), key(6)],
        vec![
            echo(liquidity_record(&echo_prefix(DEPOSIT_EVENT_TAG))),
            sell_ix(vec![echo(sell_record_cpi(&echo_prefix(SELL_EVENT_TAG)))]),
        ],
    );
    let t = tx(vec![deposit, sell_in_deposit], vec![]);
    let (events, failures) = parse_transaction(&t);
    assert!(failures.is_empty());
    assert_eq!(events.len(), 3);
    assert!(matches!(events[0], Event::Liquidity(l) if l.is_add && l.pool.0 == [1u8; 32]
        && l.user.0 == [3u8; 32] && l.pool_base_token_reserves == Some(600)));
    assert!(matches!(events[1], Event::Liquidity(l) if l.pool.0 == [4u8; 32]));
    assert!(matches!(events[2], Event::Swap(s) if !s.is_buy));
}

#[test]
fn failure_does_not_stop_the_transaction() {
    let short = amm(
        Rec::new(&BUY_TAG).u64(1).u64(2).0,
        vec![key(1)],
        vec![echo(buy_record(&echo_prefix(BUY_EVENT_TAG)))],
    );
    let good = buy_ix(vec![echo(buy_record(&echo_prefix(BUY_EVENT_TAG)))]);
    let (events, failures) = parse_transaction(&tx(vec![short, good], vec![]));
    assert_eq!(events.len(), 1);
    assert_eq!(failures.len(), 1);
    assert_eq!(failures[0].index, 0);
    assert_eq!(failures[0].error, DecodeError::AccountIndexOutOfRange);
}

#[test]
fn log_record_unknown_tag_is_unrecognized() {
    assert!(matches!(PumpfunAmmLog::unpack(&[1, 2, 3]), Err(DecodeError::Unrecognized)));
    assert!(matches!(PumpfunAmmLog::unpack(&[0u8; 400]), Err(DecodeError::Unrecognized)));
    let sell = Rec::new(&SELL_EVENT_TAG).u64(1).0;
    assert!(matches!(PumpfunAmmLog::unpack(&sell), Err(DecodeError::Truncated)));
}

#[test]
fn decoding_twice_gives_the_same_events() {
    let t = tx(vec![buy_ix(vec![echo(buy_record(&echo_prefix(BUY_EVENT_TAG)))])], vec![]);
    let (a, _) = parse_transaction(&t);
    let (b, _) = parse_transaction(&t);
    assert_eq!(format!("{:?}", a), format!("{:?}", b));
}

#[test]
fn program_id_renders_as_base58() {
    assert_eq!(
        Pubkey(PUMPFUN_AMM_PROGRAM_ID).to_string(),
        "pAMMBay6oceH9fJKBRHGP5D4bD4sWpmSwMn52FMfXEA"
    );
    assert_eq!(Pubkey([0u8; 32]).to_string(), "11111111111111111111111111111111");
}

#[test]
fn sell_log_decodes_like_its_echo() {
    let record = Rec::new(&SELL_EVENT_TAG)
        .i64(8)
        .u64(61)
        .u64(62)
        .u64(63)
        .u64(64)
        .u64(65)
        .u64(66)
        .u64(67)
        .u64(25)
        .u64(68)
        .u64(5)
        .u64(69)
        .u64(70)
        .u64(71)
        .key(31)
        .key(32)
        .key(33)
        .key(34)
        .key(35)
        .key(36)
        .key(37)
        .u64(3)
        .u64(72)
        .0;
    match PumpfunAmmLog::unpack(&record) {
        Ok(PumpfunAmmLog::Sell(l)) => {
            let c = l.to_cpi();
            assert_eq!(c.lp_fee_basis_points, 25);
            assert_eq!(c.coin_creator_fee, 72);
        }
        other => panic!("unexpected {:?}", other),
    }
    let echoed = parse_instruction(&sell_ix(vec![echo(prefix(&MARKER, &record))]), &vec![])
        .unwrap()
        .unwrap();
    let line = format!("Program data: {}", base64::engine::general_purpose::STANDARD.encode(&record));
    let e = parse_instruction(&sell_ix(vec![]), &vec![line]).unwrap().unwrap();
    assert_eq!(format!("{:?}", e), format!("{:?}", echoed));
    assert!(matches!(e, Event::Swap(s) if !s.is_buy && s.base_amount_in == 61
        && s.min_quote_amount_out == 67 && s.protocol_fee == Some(69) && s.coin_creator_fee == Some(72)));
}

#[test]
fn swap_direction_text() {
    let buy = parse_instruction(&buy_ix(vec![echo(buy_record(&echo_prefix(BUY_EVENT_TAG)))]), &vec![])
        .unwrap()
        .unwrap();
    match buy {
        Event::Swap(s) => assert_eq!(s.direction(), "token"),
        other => panic!("unexpected {:?}", other),
    }
    let sell = parse_instruction(&sell_ix(vec![echo(sell_record_cpi(&echo_prefix(SELL_EVENT_TAG)))]), &vec![])
        .unwrap()
        .unwrap();
    match sell {
        Event::Swap(s) => assert_eq!(s.direction(), "sol"),
        other => panic!("unexpected {:?}", other),
    }
}
