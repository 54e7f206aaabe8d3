use actor_interfaces::blobstore::{Container, FileChunk, StartDownloadArgs};
use actor_interfaces::envelope::{decode_value, encode_value, DecodeError};
use actor_interfaces::keyvalue::{GetResponse, SetArgs, SetUnionArgs};
use actor_interfaces::message::{decode, encode};
use actor_interfaces::messaging::BrokerMessage;
use actor_interfaces::value::{Field, Value};

fn field(name: &str, value: Value) -> Field {
    Field { name: name.to_string(), value }
}

fn record(fields: Vec<Field>) -> Vec<u8> {
    encode_value(&Value::Record(fields)).unwrap()
}

fn bytes_of(v: Value) -> Vec<u8> {
    encode_value(&v).unwrap()
}

#[test]
fn integers_take_their_shortest_form() {
    assert_eq!(bytes_of(Value::UInt(0)), vec![0x00]);
    assert_eq!(bytes_of(Value::UInt(127)), vec![0x7f]);
    assert_eq!(bytes_of(Value::UInt(200)), vec![0xcc, 0xc8]);
    assert_eq!(bytes_of(Value::UInt(256)), vec![0xcd, 0x01, 0x00]);
    assert_eq!(bytes_of(Value::UInt(65536)), vec![0xce, 0x00, 0x01, 0x00, 0x00]);
    assert_eq!(
        bytes_of(Value::UInt(u64::MAX)),
        vec![0xcf, 0xff, 0xff, 0xff, 0xff, 0xff, 0xff, 0xff, 0xff]
    );
    assert_eq!(bytes_of(Value::Int(-1)), vec![0xff]);
    assert_eq!(bytes_of(Value::Int(-32)), vec![0xe0]);
    assert_eq!(bytes_of(Value::Int(-33)), vec![0xd0, 0xdf]);
    assert_eq!(bytes_of(Value::Int(-129)), vec![0xd1, 0xff, 0x7f]);
    assert_eq!(bytes_of(Value::Int(-40000)), vec![0xd2, 0xff, 0xff, 0x63, 0xc0]);
    assert_eq!(
        bytes_of(Value::Int(i64::MIN)),
        vec![0xd3, 0x80, 0x00, 0x00, 0x00, 0x00, 0x00, 0x00, 0x00]
    );
    assert_eq!(bytes_of(Value::Int(5)), vec![0x05]);
}

#[test]
fn integers_read_back() {
    for v in [0i64, 1, 127, 128, 255, 256, 65535, 65536, -1, -32, -33, -128, -129, -32768, -32769, i64::MIN, i64::MAX] {
        match decode_value(&bytes_of(Value::Int(v))).unwrap() {
            Value::UInt(n) => assert_eq!(n as i64, v),
            Value::Int(n) => assert_eq!(n, v),
            other => panic!("{:?}", other),
        }
    }
}

#[test]
fn strings_bytes_and_collections_have_their_headers() {
    assert_eq!(bytes_of(Value::Nil), vec![0xc0]);
    assert_eq!(bytes_of(Value::Bool(false)), vec![0xc2]);
    assert_eq!(bytes_of(Value::Bool(true)), vec![0xc3]);
    assert_eq!(bytes_of(Value::Str("ab".to_string())), vec![0xa2, b'a', b'b']);
    let s31 = "x".repeat(31);
    assert_eq!(bytes_of(Value::Str(s31.clone()))[0], 0xbf);
    let s32 = "x".repeat(32);
    assert_eq!(bytes_of(Value::Str(s32))[..2], [0xd9, 32]);
    assert_eq!(bytes_of(Value::Bin(vec![1, 2])), vec![0xc4, 2, 1, 2]);
    assert_eq!(bytes_of(Value::Array(vec![Value::UInt(1)])), vec![0x91, 0x01]);
    assert_eq!(
        bytes_of(Value::Record(vec![field("a", Value::Nil)])),
        vec![0x81, 0xa1, b'a', 0xc0]
    );
    let long: Vec<Value> = (0..20).map(|_| Value::Nil).collect();
    assert_eq!(bytes_of(Value::Array(long))[..3], [0xdc, 0x00, 20]);
    assert_eq!(bytes_of(Value::Str("é".to_string())), vec![0xa2, 0xc3, 0xa9]);
}

#[test]
fn malformed_bytes_are_rejected() {
    assert_eq!(decode_value(&[]).unwrap_err(), DecodeError::Malformed);
    assert_eq!(decode_value(&[0xc1]).unwrap_err(), DecodeError::Malformed);
    assert_eq!(decode_value(&[0xa3, b'a']).unwrap_err(), DecodeError::Malformed);
    assert_eq!(decode_value(&[0xc0, 0xc0]).unwrap_err(), DecodeError::Malformed);
    assert_eq!(decode_value(&[0xa2, 0xff, 0xfe]).unwrap_err(), DecodeError::Malformed);
    assert_eq!(decode_value(&[0x81, 0x01, 0x02]).unwrap_err(), DecodeError::Malformed);
    assert_eq!(decode::<SetArgs>(&[0xcb, 0, 0, 0]).unwrap_err(), DecodeError::Malformed);
    assert_eq!(decode::<SetArgs>(&[0xcb, 0, 0, 0, 0, 0, 0, 0, 0]).unwrap_err(), DecodeError::WrongType);
}

#[test]
fn round_trip_of_records() {
    let set = SetArgs { key: "k".to_string(), value: "v".to_string(), expires: -7 };
    assert_eq!(decode::<SetArgs>(&encode(&set).unwrap()).unwrap(), set);
    let get = GetResponse { value: String::new(), exists: false };
    assert_eq!(decode::<GetResponse>(&encode(&get).unwrap()).unwrap(), get);
    let union = SetUnionArgs { keys: vec!["a".to_string(), "b".to_string()] };
    assert_eq!(decode::<SetUnionArgs>(&encode(&union).unwrap()).unwrap(), union);
    let chunk = FileChunk {
        sequence_no: 3,
        container: Container { id: "photos".to_string() },
        id: "cat.png".to_string(),
        total_bytes: 1 << 40,
        chunk_size: 4096,
        context: None,
        chunk_bytes: vec![0, 1, 2, 255],
    };
    assert_eq!(decode::<FileChunk>(&encode(&chunk).unwrap()).unwrap(), chunk);
    let with_context = FileChunk { context: Some("upload-1".to_string()), ..chunk };
    assert_eq!(decode::<FileChunk>(&encode(&with_context).unwrap()).unwrap(), with_context);
}

#[test]
fn records_are_maps_keyed_by_field_name() {
    let set = SetArgs { key: "k".to_string(), value: "v".to_string(), expires: 0 };
    let mut expected = vec![0x83, 0xa3, b'k', b'e', b'y', 0xa1, b'k'];
    expected.extend_from_slice(&[0xa5, b'v', b'a', b'l', b'u', b'e', 0xa1, b'v']);
    expected.extend_from_slice(&[0xa7, b'e', b'x', b'p', b'i', b'r', b'e', b's', 0x00]);
    assert_eq!(encode(&set).unwrap(), expected);
}

#[test]
fn field_order_does_not_matter() {
    let bytes = record(vec![
        field("expires", Value::UInt(9)),
        field("value", Value::Str("v".to_string())),
        field("key", Value::Str("k".to_string())),
    ]);
    let set = decode::<SetArgs>(&bytes).unwrap();
    assert_eq!(set, SetArgs { key: "k".to_string(), value: "v".to_string(), expires: 9 });
}

#[test]
fn unknown_fields_are_ignored() {
    let bytes = record(vec![
        field("key", Value::Str("k".to_string())),
        field("ttl_policy", Value::Array(vec![Value::Bool(true)])),
        field("value", Value::Str("v".to_string())),
        field("expires", Value::Int(-1)),
        field("extra", Value::Bin(vec![9])),
    ]);
    let set = decode::<SetArgs>(&bytes).unwrap();
    assert_eq!(set, SetArgs { key: "k".to_string(), value: "v".to_string(), expires: -1 });
}

#[test]
fn missing_required_field_is_rejected() {
    let bytes = record(vec![
        field("key", Value::Str("k".to_string())),
        field("expires", Value::UInt(0)),
    ]);
    assert_eq!(decode::<SetArgs>(&bytes).unwrap_err(), DecodeError::MissingField);
}

#[test]
fn wrong_type_or_range_is_rejected() {
    let bytes = record(vec![
        field("key", Value::Str("k".to_string())),
        field("value", Value::Str("v".to_string())),
        field("expires", Value::UInt(1 << 31)),
    ]);
    assert_eq!(decode::<SetArgs>(&bytes).unwrap_err(), DecodeError::WrongType);
    let bytes = record(vec![
        field("key", Value::UInt(1)),
        field("value", Value::Str("v".to_string())),
        field("expires", Value::UInt(0)),
    ]);
    assert_eq!(decode::<SetArgs>(&bytes).unwrap_err(), DecodeError::WrongType);
    assert_eq!(decode::<SetArgs>(&bytes_of(Value::Nil)).unwrap_err(), DecodeError::WrongType);
    let nil_required = record(vec![
        field("key", Value::Nil),
        field("value", Value::Str("v".to_string())),
        field("expires", Value::UInt(0)),
    ]);
    assert_eq!(decode::<SetArgs>(&nil_required).unwrap_err(), DecodeError::WrongType);
}

#[test]
fn optional_field_may_be_absent_or_nil() {
    let without = record(vec![
        field("blob_id", Value::Str("b".to_string())),
        field("container_id", Value::Str("c".to_string())),
        field("chunk_size", Value::UInt(10)),
    ]);
    let args = decode::<StartDownloadArgs>(&without).unwrap();
    assert_eq!(args.context, None);
    let with_nil = record(vec![
        field("blob_id", Value::Str("b".to_string())),
        field("container_id", Value::Str("c".to_string())),
        field("chunk_size", Value::UInt(10)),
        field("context", Value::Nil),
    ]);
    assert_eq!(decode::<StartDownloadArgs>(&with_nil).unwrap().context, None);
}

#[test]
fn additive_evolution_both_ways() {
    // An older revision of StartDownloadArgs had no context field.
    let older = record(vec![
        field("blob_id", Value::Str("b".to_string())),
        field("container_id", Value::Str("c".to_string())),
        field("chunk_size", Value::UInt(10)),
    ]);
    let newer = decode::<StartDownloadArgs>(&older).unwrap();
    assert_eq!(
        newer,
        StartDownloadArgs {
            blob_id: "b".to_string(),
            container_id: "c".to_string(),
            chunk_size: 10,
            context: None,
        }
    );
    // A newer revision of SetArgs with a field that this one lacks.
    let from_newer = record(vec![
        field("key", Value::Str("k".to_string())),
        field("value", Value::Str("v".to_string())),
        field("expires", Value::UInt(5)),
        field("consistency", Value::Str("strong".to_string())),
    ]);
    assert_eq!(
        decode::<SetArgs>(&from_newer).unwrap(),
        SetArgs { key: "k".to_string(), value: "v".to_string(), expires: 5 }
    );
}

#[test]
fn binary_payload_round_trips_byte_for_byte() {
    let msg = BrokerMessage {
        subject: "s".to_string(),
        reply_to: String::new(),
        body: vec![0xFF, 0x00, 0x01],
    };
    let bytes = encode(&msg).unwrap();
    let back = decode::<BrokerMessage>(&bytes).unwrap();
    assert_eq!(back.body, vec![0xFF, 0x00, 0x01]);
    assert_eq!(back, msg);
    assert!(bytes.windows(5).any(|w| w == [0xc4, 3, 0xFF, 0x00, 0x01]));
}

#[test]
fn text_is_checked_as_utf8() {
    match decode_value(&[0xa2, 0xc3, 0xa9]) {
        Ok(Value::Str(s)) => assert_eq!(s, "é"),
        other => panic!("{:?}", other),
    }
    assert_eq!(decode_value(&[0xa2, 0xc3, 0x28]).unwrap_err(), DecodeError::Malformed);
}
