use std::collections::BTreeMap;

use actor_interfaces::keyvalue::{GetResponse, SetArgs};
use actor_interfaces::message::{decode, encode};

#[test]
fn rmp_serde_reads_our_envelopes() {
    let set = SetArgs { key: "k".to_string(), value: "v".to_string(), expires: 300 };
    let bytes = encode(&set).unwrap();
    let read: BTreeMap<String, serde_json::Value> = rmp_serde::from_slice(&bytes).unwrap();
    assert_eq!(read.len(), 3);
    assert_eq!(read["key"], serde_json::Value::from("k"));
    assert_eq!(read["value"], serde_json::Value::from("v"));
    assert_eq!(read["expires"], serde_json::Value::from(300));
}

#[test]
fn we_read_rmp_serde_envelopes() {
    let mut m: BTreeMap<String, serde_json::Value> = BTreeMap::new();
    m.insert("value".to_string(), serde_json::Value::from("hello"));
    m.insert("exists".to_string(), serde_json::Value::from(true));
    m.insert("unrelated".to_string(), serde_json::Value::from(-12));
    let bytes = rmp_serde::to_vec(&m).unwrap();
    let resp = decode::<GetResponse>(&bytes).unwrap();
    assert_eq!(resp, GetResponse { value: "hello".to_string(), exists: true });
}

#[test]
fn negative_and_wide_integers_agree_with_rmp_serde() {
    for v in [-1i64, -33, -200, -70000, -5_000_000_000, 0, 200, 70000, 5_000_000_000] {
        let theirs = rmp_serde::to_vec(&v).unwrap();
        let value = if v < 0 {
            actor_interfaces::value::Value::Int(v)
        } else {
            actor_interfaces::value::Value::UInt(v as u64)
        };
        let ours = actor_interfaces::envelope::encode_value(&value).unwrap();
        assert_eq!(ours, theirs, "{}", v);
    }
}
