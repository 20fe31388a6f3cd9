use shielded_recv::amount::Amount;
use shielded_recv::metadata::{PacketMetadata, ShieldedRecvMetadata};

const MEMO: &str = r#"{"shielded_recv":{"overflow_receiver":"alice","target_amount":"100"}}"#;

fn object(text: &str) -> serde_json::Map<String, serde_json::Value> {
    serde_json::from_str(text).unwrap()
}

#[test]
fn new_metadata_holds_receiver_and_amount() {
    let m = PacketMetadata::new("alice".to_string(), Amount::from_u64(100));
    assert_eq!(m.overflow_receiver(), "alice");
    assert_eq!(*m.target_amount(), Amount::from_u64(100));
}

#[test]
fn metadata_is_written_as_memo() {
    let m = PacketMetadata::new("alice".to_string(), Amount::from_u64(100));
    assert_eq!(m.to_memo(), MEMO);
}

#[test]
fn memo_is_read() {
    let m = PacketMetadata::from_memo(MEMO).unwrap();
    assert_eq!(m.overflow_receiver(), "alice");
    assert_eq!(m.target_amount().limbs(), [100, 0, 0, 0]);
    assert_eq!(m, PacketMetadata::new("alice".to_string(), Amount::from_u64(100)));
}

#[test]
fn memo_with_other_keys_is_read() {
    let memo = r#"{"forward":{"receiver":"bob","port":"transfer"},
        "shielded_recv":{"note":1,"target_amount":"7","overflow_receiver":"carol"}}"#;
    let m = PacketMetadata::from_memo(memo).unwrap();
    assert_eq!(m.overflow_receiver(), "carol");
    assert_eq!(*m.target_amount(), Amount::from_u64(7));
}

#[test]
fn memo_that_is_no_json_is_not_read() {
    assert_eq!(PacketMetadata::from_memo(""), None);
    assert_eq!(PacketMetadata::from_memo("hello"), None);
    assert_eq!(PacketMetadata::from_memo(r#"{"shielded_recv":"#), None);
}

#[test]
fn memo_without_the_directive_is_not_read() {
    assert_eq!(PacketMetadata::from_memo("{}"), None);
    assert_eq!(PacketMetadata::from_memo(r#"{"forward":{"receiver":"bob"}}"#), None);
    assert_eq!(PacketMetadata::from_memo("[]"), None);
    assert_eq!(PacketMetadata::from_memo("null"), None);
    assert_eq!(PacketMetadata::from_memo(r#""shielded_recv""#), None);
}

#[test]
fn directive_with_missing_or_malformed_fields_is_not_read() {
    let cases = [
        r#"{"shielded_recv":{}}"#,
        r#"{"shielded_recv":null}"#,
        r#"{"shielded_recv":"alice"}"#,
        r#"{"shielded_recv":{"overflow_receiver":"alice"}}"#,
        r#"{"shielded_recv":{"target_amount":"100"}}"#,
        r#"{"shielded_recv":{"overflow_receiver":"alice","target_amount":100}}"#,
        r#"{"shielded_recv":{"overflow_receiver":"alice","target_amount":"1e3"}}"#,
        r#"{"shielded_recv":{"overflow_receiver":"alice","target_amount":"-1"}}"#,
        r#"{"shielded_recv":{"overflow_receiver":7,"target_amount":"100"}}"#,
        r#"{"shielded_recv":{"overflow_receiver":null,"target_amount":"100"}}"#,
        r#"{"shielded_recv":{"overflow_receiver":"alice","target_amount":"115792089237316195423570985008687907853269984665640564039457584007913129639936"}}"#,
    ];
    for memo in cases {
        assert_eq!(PacketMetadata::from_memo(memo), None, "{}", memo);
    }
}

#[test]
fn metadata_round_trips_through_memo() {
    let receivers = ["", "alice", "a\"b\\c", "line\nbreak\ttab", "\u{1F512} caf\u{e9}", "{\"x\":1}"];
    let amounts = [[0, 0, 0, 0], [1, 0, 0, 0], [0, 0, 0, 1], [u64::MAX; 4]];
    for receiver in receivers {
        for limbs in amounts {
            let m = PacketMetadata::new(receiver.to_string(), Amount::from_limbs(limbs));
            let back = PacketMetadata::from_memo(&m.to_memo()).unwrap();
            assert_eq!(back, m);
            assert_eq!(back.overflow_receiver(), receiver);
            assert_eq!(back.target_amount().limbs(), limbs);
            assert_eq!(PacketMetadata::from_json(&m.to_json()), Some(m));
        }
    }
}

#[test]
fn inner_metadata_round_trips_through_json() {
    let m = PacketMetadata::new("dave".to_string(), Amount::from_u64(5));
    let v = m.to_json();
    let inner = v.get("shielded_recv").unwrap();
    let parsed = ShieldedRecvMetadata::from_json(inner).unwrap();
    assert_eq!(parsed.overflow_receiver(), "dave");
    assert_eq!(*parsed.target_amount(), Amount::from_u64(5));
    assert_eq!(parsed.to_json(), *inner);
}

#[test]
fn metadata_is_read_from_memo_object() {
    let m = PacketMetadata::from_json_object(&object(MEMO)).unwrap();
    assert_eq!(m.overflow_receiver(), "alice");
    assert_eq!(PacketMetadata::from_json_object(&object(r#"{"a":1}"#)), None);
}

#[test]
fn overflow_receive_msg_is_told_by_its_key() {
    assert!(PacketMetadata::is_overflow_receive_msg(&object(MEMO)));
    assert!(PacketMetadata::is_overflow_receive_msg(&object(r#"{"shielded_recv":null}"#)));
    assert!(!PacketMetadata::is_overflow_receive_msg(&object("{}")));
    assert!(!PacketMetadata::is_overflow_receive_msg(&object(r#"{"Shielded_recv":{}}"#)));
    assert!(!PacketMetadata::is_overflow_receive_msg(&object(
        r#"{"forward":{"shielded_recv":{}}}"#
    )));
}

#[test]
fn strip_takes_out_the_directive_only() {
    let memo = object(
        r#"{"a":1,"shielded_recv":{"overflow_receiver":"alice","target_amount":"100"},"forward":{"receiver":"bob","next":[1,2,{"k":null}]}}"#,
    );
    assert!(PacketMetadata::is_overflow_receive_msg(&memo));
    let stripped = PacketMetadata::strip_middleware_msg(memo.clone());
    assert!(!PacketMetadata::is_overflow_receive_msg(&stripped));
    assert_eq!(stripped.len(), memo.len() - 1);
    for (key, value) in memo.iter() {
        if key != "shielded_recv" {
            assert_eq!(stripped.get(key), Some(value));
        }
    }
    assert_eq!(
        serde_json::Value::Object(stripped).to_string(),
        r#"{"a":1,"forward":{"next":[1,2,{"k":null}],"receiver":"bob"}}"#
    );
}

#[test]
fn strip_leaves_a_memo_without_directive_as_it_is() {
    let memo = object(r#"{"a":1,"forward":{"receiver":"bob"}}"#);
    assert_eq!(PacketMetadata::strip_middleware_msg(memo.clone()), memo);
    let empty = object("{}");
    assert_eq!(PacketMetadata::strip_middleware_msg(empty.clone()), empty);
}
