use actor_interfaces::blobstore::{self, Container, StartDownloadArgs};
use actor_interfaces::envelope::DecodeError;
use actor_interfaces::error::Error;
use actor_interfaces::extras::{self, count_from_reply, text_from_reply};
use actor_interfaces::graphdb::{self, DeleteGraphArgs, QueryGraphArgs};
use actor_interfaces::host::{finish_unit, HostRequest};
use actor_interfaces::keyvalue::{self, SetArgs};
use actor_interfaces::logging::{self, WriteLogArgs};
use actor_interfaces::message::{decode, encode};
use actor_interfaces::messaging::{self, PublishArgs, RequestArgs, MAX_TIMEOUT_MS};

fn parts(q: &HostRequest) -> (&str, &str, &str) {
    (q.binding.as_str(), q.capability.as_str(), q.operation.as_str())
}

#[test]
fn set_request_carries_binding_operation_and_record() {
    let h = keyvalue::host("store-2");
    let args = SetArgs { key: "k".to_string(), value: "v".to_string(), expires: 0 };
    let q = h.set_request(&args).unwrap();
    assert_eq!(parts(&q), ("store-2", "wasmcloud:keyvalue", "Set"));
    assert_eq!(decode::<SetArgs>(&q.payload).unwrap(), args);
    assert_eq!(q.payload, encode(&args).unwrap());
}

#[test]
fn start_download_request_carries_its_arguments() {
    let h = blobstore::default();
    let args = StartDownloadArgs {
        blob_id: "b".to_string(),
        container_id: "c".to_string(),
        chunk_size: 4096,
        context: Some("ctx".to_string()),
    };
    let q = h.start_download_request(&args).unwrap();
    assert_eq!(parts(&q), ("default", "wasmcloud:blobstore", "StartDownload"));
    assert_eq!(decode::<StartDownloadArgs>(&q.payload).unwrap(), args);
}

#[test]
fn publish_request_uses_its_binding() {
    let mb = messaging::host("b2");
    let q = mb.publish_request("subj", None, &[0xFF, 0x00]).unwrap();
    assert_eq!(parts(&q), ("b2", "wasmcloud:messaging", "Publish"));
    assert_eq!(
        decode::<PublishArgs>(&q.payload).unwrap(),
        PublishArgs { subject: "subj".to_string(), reply_to: String::new(), body: vec![0xFF, 0x00] }
    );
    let q = mb.publish_request("subj", Some("inbox"), &[]).unwrap();
    assert_eq!(decode::<PublishArgs>(&q.payload).unwrap().reply_to, "inbox");
}

#[test]
fn request_timeout_is_kept_or_clamped() {
    let mb = messaging::default();
    let q = mb.request_request("s", &[1], 2500).unwrap();
    assert_eq!(parts(&q), ("default", "wasmcloud:messaging", "Request"));
    assert_eq!(decode::<RequestArgs>(&q.payload).unwrap().timeout, 2500);
    let q = mb.request_request("s", &[1], u64::MAX).unwrap();
    assert_eq!(decode::<RequestArgs>(&q.payload).unwrap().timeout, MAX_TIMEOUT_MS);
}

#[test]
fn graph_requests_use_the_graph_binding() {
    let g = graphdb::host("g2").graph("social");
    let q = g.query_graph_request("MATCH (n) RETURN n").unwrap();
    assert_eq!(parts(&q), ("g2", "wasmcloud:graphdb", "QueryGraph"));
    let args = decode::<QueryGraphArgs>(&q.payload).unwrap();
    assert_eq!((args.graph_name.as_str(), args.query.as_str()), ("social", "MATCH (n) RETURN n"));
    let q = g.delete_request().unwrap();
    assert_eq!(parts(&q), ("g2", "wasmcloud:graphdb", "DeleteGraph"));
    assert_eq!(decode::<DeleteGraphArgs>(&q.payload).unwrap().graph_name, "social");
}

#[test]
fn write_log_request_keeps_a_known_level_as_given() {
    let sink = logging::host("audit");
    let q = sink.write_log_request("actor", "WARN", "careful").unwrap();
    assert_eq!(parts(&q), ("audit", "wasmcloud:logging", "WriteLog"));
    assert_eq!(
        decode::<WriteLogArgs>(&q.payload).unwrap(),
        WriteLogArgs { target: "actor".to_string(), level: "WARN".to_string(), text: "careful".to_string() }
    );
    let q = sink.write_log_request("", "loud", "x").unwrap();
    assert_eq!(decode::<WriteLogArgs>(&q.payload).unwrap().level, "info");
}

#[test]
fn unit_replies_succeed_exactly_when_the_host_does() {
    assert_eq!(finish_unit(Ok(vec![1, 2, 3])), Ok(()));
    assert_eq!(finish_unit(Err("down".to_string())), Err(Error::Call("down".to_string())));
}

#[test]
fn extras_requests_and_replies() {
    let h = extras::host("x");
    let q = h.request_guid_request();
    assert_eq!(parts(&q), ("x", "wasmcloud:extras", "RequestGuid"));
    assert!(q.payload.is_empty());
    let q = h.request_random_request(1, 6);
    assert_eq!(parts(&q), ("x", "wasmcloud:extras", "RequestRandom"));
    assert_eq!(q.payload, vec![0x82, 0xa3, b'm', b'i', b'n', 0x01, 0xa3, b'm', b'a', b'x', 0x06]);
    let q = h.request_sequence_request();
    assert_eq!(parts(&q), ("x", "wasmcloud:extras", "RequestSequence"));
    assert_eq!(text_from_reply(Ok(vec![0xa2, b'i', b'd'])), Ok("id".to_string()));
    assert_eq!(text_from_reply(Ok(vec![0x01])), Err(Error::Decode(DecodeError::WrongType)));
    assert_eq!(text_from_reply(Ok(vec![])), Err(Error::Decode(DecodeError::Malformed)));
    assert_eq!(text_from_reply(Err("no".to_string())), Err(Error::Call("no".to_string())));
    assert_eq!(count_from_reply(Ok(vec![0xcc, 200]), 255), Ok(200));
    assert_eq!(count_from_reply(Ok(vec![0xcd, 1, 0]), 255), Err(Error::Decode(DecodeError::WrongType)));
    assert_eq!(count_from_reply(Ok(vec![0xff]), 255), Err(Error::Decode(DecodeError::WrongType)));
}

#[test]
fn container_new() {
    assert_eq!(Container::new("photos").id, "photos");
}
