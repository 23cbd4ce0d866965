use pol_indexer::amount::Amount;
use pol_indexer::classify::{classify, flow_entry, is_watched};
use pol_indexer::decode::{decode_transfer, transfer_signature_bytes, RawLog};
use pol_indexer::models::{addresses_from_trimmed, parse_address, parse_addresses, AddressError};
use pol_indexer::netflow::{apply_delta, block_delta, capped_i128, next_cumulative, FlowEntry};

const MAX_DEC: &str =
    "115792089237316195423570985008687907853269984665640564039457584007913129639935";
const OVER_MAX_DEC: &str =
    "115792089237316195423570985008687907853269984665640564039457584007913129639936";

fn addr(last: u8) -> Vec<u8> {
    let mut a = vec![0u8; 20];
    a[19] = last;
    a
}

fn topic_of(a: &[u8]) -> Vec<u8> {
    let mut t = vec![0u8; 12];
    t.extend_from_slice(a);
    t
}

fn value_word(v: u64) -> Vec<u8> {
    let mut d = vec![0u8; 24];
    d.extend_from_slice(&v.to_be_bytes());
    d
}

fn transfer_log(from: &[u8], to: &[u8], value: u64) -> RawLog {
    RawLog {
        address: addr(0xee),
        topics: vec![transfer_signature_bytes(), topic_of(from), topic_of(to)],
        data: value_word(value),
        block_number: Some(7),
        transaction_hash: Some(vec![0xab; 32]),
        log_index: Some(3),
    }
}

fn amount(v: u128) -> Amount {
    Amount::from_u128(v)
}

#[test]
fn decodes_matching_log() {
    let lg = transfer_log(&addr(1), &addr(2), 100);
    let t = decode_transfer(&lg).expect("transfer");
    assert_eq!(t.from, addr(1));
    assert_eq!(t.to, addr(2));
    assert_eq!(t.value, amount(100));
    assert_eq!(t.block_number, 7);
    assert_eq!(t.log_index, 3);
    assert_eq!(t.tx_hash, vec![0xab; 32]);
}

#[test]
fn decode_reads_last_32_bytes_of_payload() {
    let mut lg = transfer_log(&addr(1), &addr(2), 5);
    let mut data = vec![0xffu8; 8];
    data.extend_from_slice(&value_word(42));
    lg.data = data;
    assert_eq!(decode_transfer(&lg).unwrap().value, amount(42));
}

#[test]
fn decode_rejects_wrong_topic_count() {
    let mut lg = transfer_log(&addr(1), &addr(2), 100);
    lg.topics.pop();
    assert!(decode_transfer(&lg).is_none());
    let mut lg4 = transfer_log(&addr(1), &addr(2), 100);
    lg4.topics.push(vec![0u8; 32]);
    assert!(decode_transfer(&lg4).is_none());
}

#[test]
fn decode_rejects_other_signature() {
    let mut lg = transfer_log(&addr(1), &addr(2), 100);
    lg.topics[0][0] = 0x8c;
    assert!(decode_transfer(&lg).is_none());
}

#[test]
fn decode_rejects_short_payload_and_missing_provenance() {
    let mut lg = transfer_log(&addr(1), &addr(2), 100);
    lg.data.truncate(31);
    assert!(decode_transfer(&lg).is_none());
    let mut lg = transfer_log(&addr(1), &addr(2), 100);
    lg.block_number = None;
    assert!(decode_transfer(&lg).is_none());
    let mut lg = transfer_log(&addr(1), &addr(2), 100);
    lg.transaction_hash = None;
    assert!(decode_transfer(&lg).is_none());
    let mut lg = transfer_log(&addr(1), &addr(2), 100);
    lg.log_index = None;
    assert!(decode_transfer(&lg).is_none());
}

#[test]
fn amount_decimal_round_trip() {
    let a = Amount::parse_decimal("150").unwrap();
    assert_eq!(a, amount(150));
    assert_eq!(a.to_decimal(), "150");
    assert_eq!(Amount::zero().to_decimal(), "0");
    assert_eq!(Amount::parse_decimal(MAX_DEC).unwrap().to_decimal(), MAX_DEC);
    assert!(Amount::parse_decimal(OVER_MAX_DEC).is_none());
    assert!(Amount::parse_decimal("12a").is_none());
    assert!(Amount::parse_decimal("0x10").is_none());
}

#[test]
fn amount_saturates_at_both_ends() {
    let max = Amount::parse_decimal(MAX_DEC).unwrap();
    assert_eq!(max.saturating_add(amount(1)).to_decimal(), MAX_DEC);
    assert_eq!(amount(50).saturating_sub(amount(100)), Amount::zero());
    assert_eq!(amount(150).saturating_sub(amount(100)), amount(50));
    assert_eq!(amount(1u128 << 100).saturating_add(amount(1u128 << 100)).to_decimal(),
        "2535301200456458802993406410752");
}

#[test]
fn amount_from_big_endian_bytes() {
    let a = Amount::from_be_bytes(&[0x01, 0x00]);
    assert_eq!(a, amount(256));
    let b = Amount::from_be_bytes(&[0xff; 32]);
    assert_eq!(b.to_decimal(), MAX_DEC);
}

#[test]
fn capped_value_for_delta() {
    assert_eq!(capped_i128(&amount(100)), 100);
    assert_eq!(capped_i128(&amount(i128::MAX as u128)), i128::MAX);
    assert_eq!(capped_i128(&amount(u128::MAX)), i128::MAX);
    let big = Amount::parse_decimal(MAX_DEC).unwrap();
    assert_eq!(capped_i128(&big), i128::MAX);
}

#[test]
fn cumulative_update_law_examples() {
    assert_eq!(apply_delta(amount(50), 100), amount(150));
    assert_eq!(apply_delta(amount(50), -100), Amount::zero());
    assert_eq!(apply_delta(amount(50), 0), amount(50));
    assert_eq!(apply_delta(amount(50), i128::MIN), Amount::zero());
    let max = Amount::parse_decimal(MAX_DEC).unwrap();
    assert_eq!(apply_delta(max, i128::MAX), max);
    assert_eq!(apply_delta(max, -1).to_decimal(),
        "115792089237316195423570985008687907853269984665640564039457584007913129639934");
}

#[test]
fn next_cumulative_reads_stored_decimal() {
    assert_eq!(next_cumulative("0", 5), "5");
    assert_eq!(next_cumulative("not a number", 5), "5");
    assert_eq!(next_cumulative(MAX_DEC, 1), MAX_DEC);
}

#[test]
fn classification_flags() {
    let watched = vec![addr(1), addr(2)];
    assert!(is_watched(&watched, &addr(2)));
    assert!(!is_watched(&watched, &addr(3)));
    let t_in = decode_transfer(&transfer_log(&addr(9), &addr(1), 1)).unwrap();
    assert_eq!(classify(&watched, &t_in), (true, false));
    let t_out = decode_transfer(&transfer_log(&addr(1), &addr(9), 1)).unwrap();
    assert_eq!(classify(&watched, &t_out), (false, true));
    let t_both = decode_transfer(&transfer_log(&addr(1), &addr(2), 1)).unwrap();
    assert_eq!(classify(&watched, &t_both), (false, false));
    let t_none = decode_transfer(&transfer_log(&addr(8), &addr(9), 1)).unwrap();
    assert_eq!(classify(&watched, &t_none), (false, false));
}

#[test]
fn outflow_clamps_cumulative_at_zero() {
    let watched = vec![addr(1)];
    let t = decode_transfer(&transfer_log(&addr(1), &addr(9), 100)).unwrap();
    let delta = block_delta(&vec![flow_entry(&watched, &t, true)]);
    assert_eq!(delta, -100);
    assert_eq!(next_cumulative("50", delta), "0");
}

#[test]
fn inflow_adds_to_cumulative() {
    let watched = vec![addr(1)];
    let t = decode_transfer(&transfer_log(&addr(9), &addr(1), 100)).unwrap();
    let delta = block_delta(&vec![flow_entry(&watched, &t, true)]);
    assert_eq!(delta, 100);
    assert_eq!(next_cumulative("50", delta), "150");
}

#[test]
fn redelivered_log_counts_once() {
    let watched = vec![addr(1)];
    let t = decode_transfer(&transfer_log(&addr(9), &addr(1), 100)).unwrap();
    let first = block_delta(&vec![flow_entry(&watched, &t, true)]);
    let stored = next_cumulative("50", first);
    assert_eq!(stored, "150");
    let second = block_delta(&vec![flow_entry(&watched, &t, false)]);
    assert_eq!(second, 0);
    assert_eq!(next_cumulative(&stored, second), "150");
}

#[test]
fn block_delta_saturates_in_i128() {
    let e = FlowEntry { value: amount(i128::MAX as u128), is_inflow: true, is_outflow: false, newly_stored: true };
    assert_eq!(block_delta(&vec![e, e]), i128::MAX);
    let o = FlowEntry { value: amount(i128::MAX as u128), is_inflow: false, is_outflow: true, newly_stored: true };
    assert_eq!(block_delta(&vec![o, o]), i128::MIN);
    assert_eq!(block_delta(&vec![]), 0);
    assert_eq!(block_delta(&vec![e, o]), 0);
}

#[test]
fn parses_addresses() {
    let a = parse_address("0x00000000000000000000000000000000000000Ff").unwrap();
    assert_eq!(a, addr(0xff));
    let b = parse_address("00000000000000000000000000000000000000fe").unwrap();
    assert_eq!(b, addr(0xfe));
    assert!(matches!(parse_address("0x1234"), Err(AddressError::Invalid(s)) if s == "0x1234"));
    let list = parse_addresses(" 0x00000000000000000000000000000000000000ff , ,0x0000000000000000000000000000000000000001").unwrap();
    assert_eq!(list, vec![addr(0xff), addr(1)]);
}

#[test]
fn empty_address_list_fails_startup() {
    assert!(matches!(parse_addresses(""), Err(AddressError::Empty)));
    assert!(matches!(parse_addresses(" , "), Err(AddressError::Empty)));
    assert!(matches!(parse_addresses("0xzz"), Err(AddressError::Invalid(_))));
    assert_eq!(AddressError::Empty.message(), "No addresses to watch were provided");
    assert_eq!(AddressError::Invalid("q".to_string()).message(), "Invalid address: q");
}

#[test]
fn zero_delta_issues_no_write() {
    assert_eq!(pol_indexer::netflow::cumulative_write("50", 0), None);
    assert_eq!(pol_indexer::netflow::cumulative_write("50", -20), Some("30".to_string()));
}

#[test]
fn signature_is_keccak_of_transfer_event() {
    let expected = ethers::utils::keccak256("Transfer(address,address,uint256)");
    assert_eq!(transfer_signature_bytes(), expected.to_vec());
    let hex: String = transfer_signature_bytes().iter().map(|b| format!("{:02x}", b)).collect();
    assert_eq!(hex, "ddf252ad1be2c89b69c2b068fc378daa952ba7f163c4a11628f55a4df523b3ef");
}

#[test]
fn real_transfer_log_decodes() {
    let sig = ethers::utils::keccak256("Transfer(address,address,uint256)").to_vec();
    let mut data = vec![0u8; 31];
    data.push(0x64);
    let lg = RawLog {
        address: addr(0xee),
        topics: vec![sig, topic_of(&[0x11; 20]), topic_of(&[0x22; 20])],
        data,
        block_number: Some(7),
        transaction_hash: Some(vec![0xab; 32]),
        log_index: Some(3),
    };
    let t = decode_transfer(&lg).expect("transfer");
    assert_eq!(t.from, vec![0x11; 20]);
    assert_eq!(t.to, vec![0x22; 20]);
    assert_eq!(t.value, amount(100));
}

#[test]
fn addresses_from_trimmed_pieces() {
    let ok = addresses_from_trimmed(&vec![
        String::new(),
        "0x00000000000000000000000000000000000000ff".to_string(),
        "0000000000000000000000000000000000000001".to_string(),
    ])
    .unwrap();
    assert_eq!(ok, vec![addr(0xff), addr(1)]);
    assert!(matches!(addresses_from_trimmed(&vec![]), Err(AddressError::Empty)));
    assert!(matches!(addresses_from_trimmed(&vec![String::new(), String::new()]), Err(AddressError::Empty)));
    assert!(matches!(
        addresses_from_trimmed(&vec!["0x12".to_string(), "0x00000000000000000000000000000000000000ff".to_string()]),
        Err(AddressError::Invalid(s)) if s == "0x12"
    ));
}

#[test]
fn address_list_trims_unicode_white_space() {
    let list = parse_addresses("\u{a0}0x00000000000000000000000000000000000000ff\u{3000},\t").unwrap();
    assert_eq!(list, vec![addr(0xff)]);
}
