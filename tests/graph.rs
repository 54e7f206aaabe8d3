use actor_interfaces::envelope::{decode_value, encode_value, DecodeError};
use actor_interfaces::error::Error;
use actor_interfaces::eventstreams::{StreamQuery, TimeRange};
use actor_interfaces::extras::{count_of, text_of};
use actor_interfaces::graphdb::{Column, Node, QueryResponse, Relation, ResultSet, Scalar};
use actor_interfaces::message::{decode, encode};
use actor_interfaces::value::Value;

fn scalar_int(n: i64) -> Scalar {
    Scalar { bool_value: None, int_value: Some(n), double_value: None, string_value: None }
}

#[test]
fn doubles_travel_as_their_bits() {
    let x: f64 = 1.5;
    let ours = encode_value(&Value::Float64Bits(x.to_bits())).unwrap();
    assert_eq!(ours, rmp_serde::to_vec(&x).unwrap());
    match decode_value(&ours).unwrap() {
        Value::Float64Bits(bits) => assert_eq!(f64::from_bits(bits), 1.5),
        other => panic!("{:?}", other),
    }
    let y: f32 = -0.25;
    match decode_value(&rmp_serde::to_vec(&y).unwrap()).unwrap() {
        Value::Float32Bits(bits) => assert_eq!(f32::from_bits(bits), -0.25),
        other => panic!("{:?}", other),
    }
}

#[test]
fn result_sets_round_trip() {
    let scalar = Scalar {
        bool_value: Some(true),
        int_value: Some(-3),
        double_value: Some(2.5f64.to_bits()),
        string_value: Some("s".to_string()),
    };
    let node = Node {
        labels: vec!["Person".to_string()],
        properties: vec![("age".to_string(), scalar_int(42)), ("name".to_string(), scalar.clone())],
    };
    let relation = Relation { relation_type: "KNOWS".to_string(), properties: Vec::new() };
    let rs = ResultSet {
        columns: vec![
            Column { scalars: Some(vec![scalar.clone(), scalar_int(7)]), nodes: None, relations: None },
            Column { scalars: None, nodes: Some(vec![node]), relations: Some(vec![relation]) },
        ],
        statistics: vec!["Query internal execution time: 0.1 ms".to_string()],
    };
    let resp = QueryResponse { result_set: rs };
    let back = decode::<QueryResponse>(&encode(&resp).unwrap()).unwrap();
    assert_eq!(back, resp);
    assert_eq!(f64::from_bits(back.result_set.columns[0].scalars.as_ref().unwrap()[0].double_value.unwrap()), 2.5);
}

#[test]
fn optional_nested_record() {
    let all = StreamQuery { stream_id: "s".to_string(), range: None, count: 10 };
    assert_eq!(decode::<StreamQuery>(&encode(&all).unwrap()).unwrap(), all);
    let some = StreamQuery {
        stream_id: "s".to_string(),
        range: Some(TimeRange { min_time: 1, max_time: 2 }),
        count: 0,
    };
    assert_eq!(decode::<StreamQuery>(&encode(&some).unwrap()).unwrap(), some);
}

#[test]
fn scalar_replies() {
    assert_eq!(text_of(Value::Str("id".to_string())), Ok("id".to_string()));
    assert_eq!(text_of(Value::UInt(1)), Err(Error::Decode(DecodeError::WrongType)));
    assert_eq!(count_of(Value::UInt(5), 10), Ok(5));
    assert_eq!(count_of(Value::UInt(11), 10), Err(Error::Decode(DecodeError::WrongType)));
    assert_eq!(count_of(Value::Int(-1), 10), Err(Error::Decode(DecodeError::WrongType)));
}
