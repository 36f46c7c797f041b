use dex_events::bytes::{read_string, u16_at, u64_at, i64_at, DecodeError, Pubkey};
use dex_events::frens::idl::{
    pool_status_from_index, trade_direction_from_index, CurveParams, MigrateNftInfo,
    PlatformConfigParam, PoolStatus, TradeDirection, VestingParams, CLAIM_VESTED_EVENT_TAG,
    CREATE_VESTING_EVENT_TAG, POOL_CREATE_EVENT_TAG, TRADE_EVENT_TAG,
};
use dex_events::frens::{
    map_enum_curve_params, map_enum_platform_config_param, map_enum_pool_status,
    map_enum_trade_direction, map_option_migrate_nft_info, map_option_vesting_params,
    parse_block, parse_instruction, parse_transaction, Event, CONTENT_PLATFORM_ID,
    CREATOR_PLATFORM_ID, FRENS_PROGRAM_ID,
};
use dex_events::tree::{Block, Instruction, Transaction};

const MARKER: [u8; 8] = [228, 69, 165, 46, 81, 203, 154, 29];

fn key(b: u8) -> Pubkey {
    Pubkey([b; 32])
}

fn payload(tag: [u8; 8], body: &[u8]) -> Vec<u8> {
    let mut v = MARKER.to_vec();
    v.extend_from_slice(&tag);
    v.extend_from_slice(body);
    v
}

fn le(v: u64, out: &mut Vec<u8>) {
    out.extend_from_slice(&v.to_le_bytes());
}

fn text(t: &str, out: &mut Vec<u8>) {
    out.extend_from_slice(&(t.len() as u32).to_le_bytes());
    out.extend_from_slice(t.as_bytes());
}

fn pool_create_body(curve_index: u8) -> Vec<u8> {
    let mut b = Vec::new();
    b.extend_from_slice(&[1u8; 32]);
    b.extend_from_slice(&[2u8; 32]);
    b.extend_from_slice(&[3u8; 32]);
    b.push(6);
    text("Frog", &mut b);
    text("FRG", &mut b);
    text("https://x", &mut b);
    b.push(curve_index);
    le(1_000_000, &mut b);
    le(800_000, &mut b);
    le(85, &mut b);
    b.push(1);
    le(10, &mut b);
    le(20, &mut b);
    le(30, &mut b);
    b
}

fn trade_body(direction: u8, status: u8) -> Vec<u8> {
    let mut b = Vec::new();
    b.extend_from_slice(&[9u8; 32]);
    for v in 1..=12u64 {
        le(v, &mut b);
    }
    b.push(direction);
    b.push(status);
    b
}

fn top_accounts(platform: Pubkey) -> Vec<Pubkey> {
    let mut a: Vec<Pubkey> = (0..10u8).map(|i| key(100 + i)).collect();
    a[3] = platform;
    a
}

fn frens(data: Vec<u8>, accounts: Vec<Pubkey>, inner: Vec<Instruction>) -> Instruction {
    Instruction { program_id: Pubkey(FRENS_PROGRAM_ID), accounts, data, inner }
}

fn tx(instructions: Vec<Instruction>) -> Transaction {
    Transaction { signature: vec![3u8; 64], failed: false, instructions, logs: vec![] }
}

#[test]
fn pool_create_on_tracked_platform() {
    let echo = frens(payload(POOL_CREATE_EVENT_TAG, &pool_create_body(0)), vec![], vec![]);
    let top = frens(vec![1, 2, 3], top_accounts(Pubkey(CREATOR_PLATFORM_ID)), vec![echo]);
    let (events, failures) = parse_transaction(&tx(vec![top]));
    assert!(failures.is_empty());
    assert_eq!(events.len(), 1);
    match &events[0] {
        Event::PoolCreateEvent(e) => {
            assert_eq!(e.trx_hash, bs58::encode(vec![3u8; 64]).into_string());
            assert_eq!(e.platform_id.0, CREATOR_PLATFORM_ID);
            assert_eq!(e.mint.0, [106u8; 32]);
            assert_eq!(e.pool_state.0, [1u8; 32]);
            assert_eq!(e.creator.0, [2u8; 32]);
            assert_eq!(e.config.0, [3u8; 32]);
            let m = e.base_mint_param.as_ref().unwrap();
            assert_eq!(m.decimals, 6);
            assert_eq!(m.name, "Frog");
            assert_eq!(m.symbol, "FRG");
            assert_eq!(m.uri, "https://x");
            assert_eq!(e.curve_param, 0);
            assert_eq!(
                e.vesting_param,
                Some(dex_events::frens::VestingParams {
                    total_locked_amount: 10,
                    cliff_period: 20,
                    unlock_period: 30
                })
            );
        }
        other => panic!("unexpected {:?}", other),
    }
}

#[test]
fn pool_create_on_untracked_platform_is_skipped() {
    let echo = frens(payload(POOL_CREATE_EVENT_TAG, &pool_create_body(0)), vec![], vec![]);
    let top = frens(vec![], top_accounts(key(77)), vec![echo]);
    let (events, failures) = parse_transaction(&tx(vec![top]));
    assert!(events.is_empty() && failures.is_empty());
}

#[test]
fn trade_on_content_platform() {
    let echo = frens(payload(TRADE_EVENT_TAG, &trade_body(1, 2)), vec![], vec![]);
    let top = frens(vec![], top_accounts(Pubkey(CONTENT_PLATFORM_ID)), vec![echo]);
    let (events, _) = parse_transaction(&tx(vec![top]));
    assert_eq!(events.len(), 1);
    match &events[0] {
        Event::TradeEvent(t) => {
            assert_eq!(t.trx_hash, bs58::encode(vec![3u8; 64]).into_string());
            assert_eq!(t.mint.0, [109u8; 32]);
            assert_eq!(t.pool_state.0, [9u8; 32]);
            assert_eq!(t.total_base_sell, 1);
            assert_eq!(t.share_fee, 12);
            assert_eq!(t.amount_in, 8);
            assert_eq!(t.trade_direction, 1);
            assert_eq!(t.pool_status, 2);
        }
        other => panic!("unexpected {:?}", other),
    }
}

#[test]
fn trade_with_unmapped_status_fails() {
    let echo = frens(payload(TRADE_EVENT_TAG, &trade_body(0, 3)), vec![], vec![]);
    let top = frens(vec![], top_accounts(Pubkey(CONTENT_PLATFORM_ID)), vec![]);
    assert!(matches!(parse_instruction(&tx(vec![]), &echo, &top), Err(DecodeError::UnmappedEnumVariant)));
}

#[test]
fn trade_with_short_account_list_fails() {
    let echo = frens(payload(TRADE_EVENT_TAG, &trade_body(0, 0)), vec![], vec![]);
    let mut accounts = top_accounts(Pubkey(CONTENT_PLATFORM_ID));
    accounts.truncate(9);
    let top = frens(vec![], accounts.clone(), vec![]);
    assert!(matches!(parse_instruction(&tx(vec![]), &echo, &top), Err(DecodeError::AccountIndexOutOfRange)));
    accounts.push(key(1));
    let top = frens(vec![], accounts, vec![]);
    assert!(matches!(parse_instruction(&tx(vec![]), &echo, &top), Ok(Some(Event::TradeEvent(_)))));
}

#[test]
fn short_payload_yields_nothing() {
    let top = frens(vec![], top_accounts(Pubkey(CONTENT_PLATFORM_ID)), vec![]);
    let short = frens(POOL_CREATE_EVENT_TAG.to_vec(), vec![], vec![]);
    assert!(matches!(parse_instruction(&tx(vec![]), &short, &top), Ok(None)));
}

#[test]
fn unknown_curve_is_unmapped() {
    let echo = frens(payload(POOL_CREATE_EVENT_TAG, &pool_create_body(3)), vec![], vec![]);
    let top = frens(vec![], top_accounts(Pubkey(CREATOR_PLATFORM_ID)), vec![]);
    assert!(matches!(parse_instruction(&tx(vec![]), &echo, &top), Err(DecodeError::UnmappedEnumVariant)));
}

#[test]
fn truncated_pool_create_is_truncated() {
    let mut body = pool_create_body(0);
    body.truncate(body.len() - 1);
    let echo = frens(payload(POOL_CREATE_EVENT_TAG, &body), vec![], vec![]);
    let top = frens(vec![], top_accounts(Pubkey(CREATOR_PLATFORM_ID)), vec![]);
    assert!(matches!(parse_instruction(&tx(vec![]), &echo, &top), Err(DecodeError::Truncated)));
}

#[test]
fn vesting_events_in_pre_order() {
    let mut claim_a = vec![5u8; 64];
    le(11, &mut claim_a);
    let mut vesting_b = vec![6u8; 64];
    le(22, &mut vesting_b);
    let mut claim_c = vec![7u8; 64];
    le(33, &mut claim_c);
    let c = frens(payload(CLAIM_VESTED_EVENT_TAG, &claim_c), vec![], vec![]);
    let a = frens(payload(CLAIM_VESTED_EVENT_TAG, &claim_a), vec![], vec![]);
    let b = frens(payload(CREATE_VESTING_EVENT_TAG, &vesting_b), vec![], vec![c]);
    let (events, failures) = parse_transaction(&tx(vec![a, b]));
    assert!(failures.is_empty());
    assert_eq!(events.len(), 3);
    assert!(matches!(&events[0], Event::ClaimVested(e) if e.claim_amount == 11
        && e.trx_hash == bs58::encode(vec![3u8; 64]).into_string()));
    assert!(matches!(&events[1], Event::CreateVestingEvent(e) if e.share_amount == 22
        && e.beneficiary.0 == [6u8; 32]));
    assert!(matches!(&events[2], Event::ClaimVested(e) if e.claim_amount == 33));
}

#[test]
fn decode_failure_is_isolated() {
    let bad = frens(payload(CLAIM_VESTED_EVENT_TAG, &[1u8; 10]), vec![], vec![]);
    let mut good_body = vec![5u8; 64];
    le(44, &mut good_body);
    let good = frens(payload(CLAIM_VESTED_EVENT_TAG, &good_body), vec![], vec![]);
    let t = tx(vec![bad, good]);
    let (events, failures) = parse_transaction(&t);
    assert_eq!(events.len(), 1);
    assert_eq!(failures.len(), 1);
    assert_eq!(failures[0].error, DecodeError::Truncated);
    let (records, block_failures) = parse_block(&Block { transactions: vec![t] });
    assert_eq!(records.len(), 1);
    assert_eq!(block_failures.len(), 1);
    assert_eq!(block_failures[0].0, 0);
}

#[test]
fn enum_mappings_are_distinct() {
    assert_eq!(map_enum_trade_direction(TradeDirection::Buy), 0);
    assert_eq!(map_enum_trade_direction(TradeDirection::Sell), 1);
    assert_eq!(map_enum_pool_status(PoolStatus::Fund), 0);
    assert_eq!(map_enum_pool_status(PoolStatus::Migrate), 1);
    assert_eq!(map_enum_pool_status(PoolStatus::Trade), 2);
    let lin = CurveParams::Linear {
        data: dex_events::frens::idl::LinearCurve { supply: 1, total_quote_fund_raising: 2, migrate_type: 0 },
    };
    assert_eq!(map_enum_curve_params(lin), 2);
    assert_eq!(map_enum_platform_config_param(PlatformConfigParam::FeeWallet(key(1))), 0);
    assert_eq!(map_enum_platform_config_param(PlatformConfigParam::FeeRate(5)), 3);
    assert_eq!(map_enum_platform_config_param(PlatformConfigParam::Img("i".to_string())), 6);
}

#[test]
fn enum_index_outside_known_set_is_unmapped() {
    assert_eq!(trade_direction_from_index(1), Ok(TradeDirection::Sell));
    assert_eq!(trade_direction_from_index(2), Err(DecodeError::UnmappedEnumVariant));
    assert_eq!(pool_status_from_index(2), Ok(PoolStatus::Trade));
    assert_eq!(pool_status_from_index(3), Err(DecodeError::UnmappedEnumVariant));
}

#[test]
fn option_mappings_copy_fields() {
    let m = map_option_migrate_nft_info(Some(MigrateNftInfo { platform_scale: 1, creator_scale: 2, burn_scale: 3 }));
    assert_eq!(m.unwrap().burn_scale, 3);
    assert!(map_option_migrate_nft_info(None).is_none());
    let v = map_option_vesting_params(Some(VestingParams { total_locked_amount: 4, cliff_period: 5, unlock_period: 6 }));
    assert_eq!(v.unwrap().cliff_period, 5);
}

#[test]
fn little_endian_readers() {
    let data = [0x34, 0x12, 0xff, 0xff, 0xff, 0xff, 0xff, 0xff, 0xff, 0xff];
    assert_eq!(u16_at(&data, 0), 0x1234);
    assert_eq!(i64_at(&data, 2), -1);
    assert_eq!(u64_at(&data, 2), u64::MAX);
}

#[test]
fn string_reader_errors() {
    let mut ok = Vec::new();
    text("hé", &mut ok);
    let (s, end) = read_string(&ok, 0).unwrap();
    assert_eq!(s, "hé");
    assert_eq!(end, 7);
    assert_eq!(read_string(&ok[..5], 0), Err(DecodeError::Truncated));
    assert_eq!(read_string(&[2, 0, 0, 0, 0xc3, 0x28], 0), Err(DecodeError::InvalidUtf8));
    assert_eq!(read_string(&[1, 0], 0), Err(DecodeError::Truncated));
}
