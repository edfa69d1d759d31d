use alloy_primitives::FixedBytes;
use alloy_sol_types::{sol_data, SolType};
use tracevm::decoder::{
    decode_parsed, decode_record, event_signature, flatten_offsets, parse_opcode, signature_hash,
    DecodedLog, StorageOp, TraceCallbackData, TraceRecord,
};
use tracevm::error::DecodeError;
use tracevm::wire::{Address, Hash32};

fn word_text(last: u8) -> String {
    format!("{}{:02x}", "00".repeat(31), last)
}

fn word_bytes(last: u8) -> [u8; 32] {
    let mut bytes = [0u8; 32];
    bytes[31] = last;
    bytes
}

fn hash_from_hex(text: &str) -> Hash32 {
    let mut bytes = [0u8; 32];
    for i in 0..32 {
        bytes[i] = u8::from_str_radix(&text[2 * i..2 * i + 2], 16).unwrap();
    }
    Hash32 { bytes }
}

fn record(opcode: &str) -> TraceRecord {
    TraceRecord {
        opcode: opcode.to_string(),
        key: word_text(1),
        value: word_text(2),
        offsets: vec![("a".to_string(), "b".to_string())],
    }
}

fn expected_hash(op: StorageOp) -> Hash32 {
    hash_from_hex(match op {
        StorageOp::Sload => "88bc2fad6811cfdbd6404572cf60b49b31534dc39a2b8ff038da35ae38de2f9f",
        StorageOp::Sstore => "976604553163ae7917581cea2fce786fa5282511f25a7442b536487127ef4f2a",
        StorageOp::Tload => "c3f01edc922819b933d693422a53130b21cf21fa058fa2387618ff3911bc7666",
        StorageOp::Tstore => "003511675cb1dccc25f866e3c96568b17cb6b497d2988bdb8ca9be9765bf6a04",
    })
}

fn expected_data() -> Vec<u8> {
    let mut data = Vec::new();
    data.extend_from_slice(&word_bytes(1));
    data.extend_from_slice(&word_bytes(2));
    data.extend_from_slice(&word_bytes(0x60));
    data.extend_from_slice(&word_bytes(1));
    data.extend_from_slice(&word_bytes(0x20));
    data.extend_from_slice(&word_bytes(3));
    let mut text = [0u8; 32];
    text[..3].copy_from_slice(b"a b");
    data.extend_from_slice(&text);
    data
}

fn check_schema(name: &str, op: StorageOp) {
    let log = decode_record(&record(name)).unwrap();
    assert_eq!(
        log,
        DecodedLog { address: Address::zero(), topics: vec![expected_hash(op)], data: expected_data() }
    );
    type Fields = (sol_data::FixedBytes<32>, sol_data::FixedBytes<32>, sol_data::Array<sol_data::String>);
    let (key, value, offsets) = <Fields as SolType>::abi_decode_sequence(&log.data, true).unwrap();
    assert_eq!(key, FixedBytes(word_bytes(1)));
    assert_eq!(value, FixedBytes(word_bytes(2)));
    assert_eq!(offsets, vec!["a b".to_string()]);
}

#[test]
fn sload_record_decodes() {
    check_schema("sload", StorageOp::Sload);
}

#[test]
fn sstore_record_decodes() {
    check_schema("sstore", StorageOp::Sstore);
}

#[test]
fn tload_record_decodes() {
    check_schema("tload", StorageOp::Tload);
}

#[test]
fn tstore_record_decodes() {
    check_schema("tstore", StorageOp::Tstore);
}

#[test]
fn signature_hashes_are_fixed() {
    for op in [StorageOp::Sload, StorageOp::Sstore, StorageOp::Tload, StorageOp::Tstore] {
        assert_eq!(signature_hash(op), expected_hash(op));
    }
    assert_eq!(event_signature(StorageOp::Sload), "SLOAD(bytes32,bytes32,string[])");
    assert_eq!(event_signature(StorageOp::Sstore), "SSTORE(bytes32,bytes32,string[])");
    assert_eq!(event_signature(StorageOp::Tload), "TLOAD(bytes32,bytes32,string[])");
    assert_eq!(event_signature(StorageOp::Tstore), "TSTORE(bytes32,bytes32,string[])");
}

#[test]
fn operation_names_are_exact() {
    assert_eq!(parse_opcode(&"sload".to_string()), Some(StorageOp::Sload));
    assert_eq!(parse_opcode(&"sstore".to_string()), Some(StorageOp::Sstore));
    assert_eq!(parse_opcode(&"tload".to_string()), Some(StorageOp::Tload));
    assert_eq!(parse_opcode(&"tstore".to_string()), Some(StorageOp::Tstore));
    for other in ["", "xyz", "SLOAD", "sload ", " sload", "sloadx", "load"] {
        assert_eq!(parse_opcode(&other.to_string()), None);
    }
}

#[test]
fn unknown_opcode_is_rejected() {
    assert_eq!(decode_record(&record("xyz")), Err(DecodeError::UnknownOpcode));
    assert_eq!(decode_parsed(Some(record("xyz"))), Err(DecodeError::UnknownOpcode));
}

#[test]
fn malformed_hex_is_rejected() {
    let mut short_key = record("sload");
    short_key.key = "00".repeat(31);
    assert_eq!(decode_record(&short_key), Err(DecodeError::MalformedHex));

    let mut bad_value = record("sstore");
    bad_value.value = format!("{}zz", "00".repeat(31));
    assert_eq!(decode_record(&bad_value), Err(DecodeError::MalformedHex));

    let mut prefixed = record("sload");
    prefixed.key = format!("0x{}", word_text(1));
    assert_eq!(decode_record(&prefixed), Err(DecodeError::MalformedHex));
}

#[test]
fn malformed_hex_comes_before_unknown_opcode() {
    let mut both = record("xyz");
    both.value = "12".to_string();
    assert_eq!(decode_record(&both), Err(DecodeError::MalformedHex));
}

#[test]
fn unparsed_text_is_malformed_record() {
    assert_eq!(decode_parsed(None), Err(DecodeError::MalformedRecord));
    assert_eq!(decode_parsed(Some(record("tload"))), decode_record(&record("tload")));
}

#[test]
fn offsets_are_joined_in_order() {
    let pairs = vec![
        ("a".to_string(), "b".to_string()),
        ("".to_string(), "x".to_string()),
        ("left side".to_string(), "".to_string()),
        ("0x20".to_string(), "0x40".to_string()),
    ];
    assert_eq!(flatten_offsets(&pairs), vec!["a b", " x", "left side ", "0x20 0x40"]);
    assert_eq!(flatten_offsets(&Vec::new()), Vec::<String>::new());
}

#[test]
fn record_without_offsets_decodes() {
    let mut bare = record("tstore");
    bare.offsets = Vec::new();
    bare.key = "Ab".repeat(32);
    let log = decode_record(&bare).unwrap();
    let mut data = Vec::new();
    data.extend_from_slice(&[0xab; 32]);
    data.extend_from_slice(&word_bytes(2));
    data.extend_from_slice(&word_bytes(0x60));
    data.extend_from_slice(&word_bytes(0));
    assert_eq!(log.data, data);
    assert_eq!(log.topics, vec![expected_hash(StorageOp::Tstore)]);
    assert!(log.address.is_zero());
}

#[test]
fn queue_is_first_in_first_out() {
    let mut queue = TraceCallbackData::new();
    assert_eq!(queue.dequeue(), None);
    let records = ["{\"n\":1}", "second", "", "fourth record", "{\"n\":5}"];
    for text in records {
        queue.push(text);
    }
    for text in records {
        assert_eq!(queue.dequeue(), Some(text.to_string()));
    }
    assert_eq!(queue.dequeue(), None);
    assert_eq!(queue.dequeue(), None);
}

#[test]
fn queue_interleaves_push_and_dequeue() {
    let mut queue = TraceCallbackData::new();
    queue.push("a");
    queue.push("b");
    assert_eq!(queue.dequeue(), Some("a".to_string()));
    queue.push("c");
    assert_eq!(queue.dequeue(), Some("b".to_string()));
    assert_eq!(queue.dequeue(), Some("c".to_string()));
    assert_eq!(queue.dequeue(), None);
    queue.push("d");
    assert_eq!(queue.dequeue(), Some("d".to_string()));
}

fn text_of(value: &serde_json::Value) -> Option<String> {
    value.as_str().map(|text| text.to_string())
}

fn parse(text: &str) -> Option<TraceRecord> {
    let document: serde_json::Value = serde_json::from_str(text).ok()?;
    let fields = document.get("solidity")?;
    let mut offsets = Vec::new();
    for pair in fields.get("offsets")?.as_array()? {
        let pair = pair.as_array()?;
        if pair.len() != 2 {
            return None;
        }
        offsets.push((text_of(&pair[0])?, text_of(&pair[1])?));
    }
    Some(TraceRecord {
        opcode: text_of(fields.get("opcode")?)?,
        key: text_of(fields.get("key")?)?,
        value: text_of(fields.get("value")?)?,
        offsets,
    })
}

fn record_text(opcode: &str, key: &str) -> String {
    format!(
        "{{\"solidity\":{{\"opcode\":\"{}\",\"key\":\"{}\",\"value\":\"{}\",\"offsets\":[[\"a\",\"b\"]]}}}}",
        opcode,
        key,
        word_text(2)
    )
}

#[test]
fn pull_decodes_oldest_record() {
    let mut queue = TraceCallbackData::new();
    assert_eq!(queue.pull(parse), None);
    queue.push(&record_text("sstore", &word_text(1)));
    queue.push(&record_text("tload", &word_text(1)));
    assert_eq!(
        queue.pull(parse),
        Some(Ok(DecodedLog {
            address: Address::zero(),
            topics: vec![expected_hash(StorageOp::Sstore)],
            data: expected_data(),
        }))
    );
    assert_eq!(
        queue.pull(parse),
        Some(Ok(DecodedLog {
            address: Address::zero(),
            topics: vec![expected_hash(StorageOp::Tload)],
            data: expected_data(),
        }))
    );
    assert_eq!(queue.pull(parse), None);
}

#[test]
fn pull_reports_each_failure() {
    let mut queue = TraceCallbackData::new();
    queue.push("not a record");
    queue.push("{\"solidity\":{\"opcode\":\"sload\"}}");
    queue.push(&record_text("xyz", &word_text(1)));
    queue.push(&record_text("sload", "12"));
    queue.push(&record_text("sload", &word_text(1)));
    assert_eq!(queue.pull(parse), Some(Err(DecodeError::MalformedRecord)));
    assert_eq!(queue.pull(parse), Some(Err(DecodeError::MalformedRecord)));
    assert_eq!(queue.pull(parse), Some(Err(DecodeError::UnknownOpcode)));
    assert_eq!(queue.pull(parse), Some(Err(DecodeError::MalformedHex)));
    assert!(matches!(queue.pull(parse), Some(Ok(_))));
    assert_eq!(queue.pull(parse), None);
}

#[test]
fn pull_parses_the_oldest_text_once() {
    let seen = std::cell::RefCell::new(Vec::new());
    let mut queue = TraceCallbackData::new();
    queue.push("first");
    queue.push("second");
    let outcome = queue.pull(|text: &str| {
        seen.borrow_mut().push(text.to_string());
        Some(record("tstore"))
    });
    assert_eq!(outcome, Some(decode_record(&record("tstore"))));
    assert_eq!(*seen.borrow(), vec!["first".to_string()]);
    assert_eq!(queue.dequeue(), Some("second".to_string()));
}
