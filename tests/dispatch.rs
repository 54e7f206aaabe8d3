use actor_interfaces::blobstore::{Container, FileChunk, ReceiveChunkArgs, OP_RECEIVE_CHUNK};
use actor_interfaces::dispatch::{handle, handle_value, Dispatcher};
use actor_interfaces::eventstreams::{Event, OP_DELIVER_EVENT};
use actor_interfaces::value::Value;
use actor_interfaces::envelope::DecodeError;
use actor_interfaces::error::Error;
use actor_interfaces::host::finish;
use actor_interfaces::http_server::{Request, Response, OP_HANDLE_REQUEST};
use actor_interfaces::keyvalue::{GetArgs, GetResponse, SetArgs, SetResponse, OP_GET, OP_SET};
use actor_interfaces::message::encode;

type Handler = fn(Vec<u8>) -> Result<Vec<u8>, Error>;

fn set_echo(payload: Vec<u8>) -> Result<Vec<u8>, Error> {
    handle(&|a: SetArgs| Ok::<SetResponse, String>(SetResponse { value: a.value }), &payload)
}

fn get_missing(payload: Vec<u8>) -> Result<Vec<u8>, Error> {
    handle(
        &|_: GetArgs| Ok::<GetResponse, String>(GetResponse { value: String::new(), exists: false }),
        &payload,
    )
}

fn answer_a(payload: Vec<u8>) -> Result<Vec<u8>, Error> {
    handle(&|_: GetArgs| Ok::<GetResponse, String>(GetResponse { value: "A".to_string(), exists: true }), &payload)
}

fn answer_b(payload: Vec<u8>) -> Result<Vec<u8>, Error> {
    handle(&|_: GetArgs| Ok::<GetResponse, String>(GetResponse { value: "B".to_string(), exists: true }), &payload)
}

fn refuse(payload: Vec<u8>) -> Result<Vec<u8>, Error> {
    handle(&|_: GetArgs| Err::<GetResponse, String>("no such store".to_string()), &payload)
}

fn to_outcome(r: Result<Vec<u8>, Error>) -> Result<Vec<u8>, String> {
    r.map_err(|e| format!("{:?}", e))
}

fn hr(payload: Vec<u8>) -> Result<Vec<u8>, Error> {
    handle(&|_: Request| Ok::<Response, String>(Response::ok()), &payload)
}

fn get_args(key: &str) -> Vec<u8> {
    encode(&GetArgs { key: key.to_string() }).unwrap()
}

#[test]
fn lib_it_works() {
    let mut d: Dispatcher<Handler> = Dispatcher::new();
    d.register(OP_HANDLE_REQUEST, hr);
    assert!(d.handler(OP_HANDLE_REQUEST).is_some());
}

#[test]
fn set_scenario_through_dispatch_and_proxy() {
    let mut d: Dispatcher<Handler> = Dispatcher::new();
    d.register(OP_SET, set_echo);
    let args = SetArgs { key: "k".to_string(), value: "v".to_string(), expires: 0 };
    let reply = d.dispatch(OP_SET, encode(&args).unwrap());
    let resp: SetResponse = finish(to_outcome(reply)).unwrap();
    assert_eq!(resp, SetResponse { value: "v".to_string() });
}

#[test]
fn get_of_unset_key_is_no_error() {
    let mut d: Dispatcher<Handler> = Dispatcher::new();
    d.register(OP_GET, get_missing);
    let reply = d.dispatch(OP_GET, get_args("never-set"));
    let resp: GetResponse = finish(to_outcome(reply)).unwrap();
    assert_eq!(resp, GetResponse { value: String::new(), exists: false });
}

#[test]
fn last_registration_wins() {
    let mut d: Dispatcher<Handler> = Dispatcher::new();
    d.register(OP_GET, answer_a);
    d.register(OP_GET, answer_b);
    let resp: GetResponse = finish(to_outcome(d.dispatch(OP_GET, get_args("k")))).unwrap();
    assert_eq!(resp.value, "B");
    d.register(OP_GET, answer_a);
    let resp: GetResponse = finish(to_outcome(d.dispatch(OP_GET, get_args("k")))).unwrap();
    assert_eq!(resp.value, "A");
}

#[test]
fn unknown_operation_fails() {
    let mut d: Dispatcher<Handler> = Dispatcher::new();
    assert_eq!(d.dispatch(OP_GET, get_args("k")), Err(Error::UnknownOperation("Get".to_string())));
    d.register(OP_SET, set_echo);
    assert_eq!(d.dispatch("Get", get_args("k")), Err(Error::UnknownOperation("Get".to_string())));
    assert!(d.handler("set").is_none());
}

#[test]
fn handler_failure_passes_through() {
    let mut d: Dispatcher<Handler> = Dispatcher::new();
    d.register(OP_GET, refuse);
    assert_eq!(d.dispatch(OP_GET, get_args("k")), Err(Error::Handler("no such store".to_string())));
}

#[test]
fn undecodable_argument_fails_dispatch() {
    let mut d: Dispatcher<Handler> = Dispatcher::new();
    d.register(OP_SET, set_echo);
    assert_eq!(d.dispatch(OP_SET, get_args("k")), Err(Error::Decode(DecodeError::MissingField)));
    assert_eq!(d.dispatch(OP_SET, vec![0xc1]), Err(Error::Decode(DecodeError::Malformed)));
}

#[test]
fn proxy_tells_failures_apart() {
    let call_failed: Result<SetResponse, Error> = finish(Err("capability not granted".to_string()));
    assert_eq!(call_failed, Err(Error::Call("capability not granted".to_string())));
    let garbled: Result<SetResponse, Error> = finish(Ok(vec![0x91]));
    assert_eq!(garbled, Err(Error::Decode(DecodeError::Malformed)));
    let wrong: Result<SetResponse, Error> = finish(Ok(vec![0x80]));
    assert_eq!(wrong, Err(Error::Decode(DecodeError::MissingField)));
}

fn receive_chunk(payload: Vec<u8>) -> Result<Vec<u8>, Error> {
    handle_value(&|_: ReceiveChunkArgs| Ok::<Value, String>(Value::Nil), &payload)
}

fn deliver_event(payload: Vec<u8>) -> Result<Vec<u8>, Error> {
    handle_value(&|e: Event| Ok::<Value, String>(Value::Bool(!e.values.is_empty())), &payload)
}

#[test]
fn value_replies_for_unit_and_flag_handlers() {
    let mut d: Dispatcher<Handler> = Dispatcher::new();
    d.register(OP_RECEIVE_CHUNK, receive_chunk);
    d.register(OP_DELIVER_EVENT, deliver_event);
    let chunk = FileChunk {
        sequence_no: 0,
        container: Container { id: "c".to_string() },
        id: "f".to_string(),
        total_bytes: 1,
        chunk_size: 1,
        context: None,
        chunk_bytes: vec![7],
    };
    let args = ReceiveChunkArgs { chunk };
    assert_eq!(d.dispatch(OP_RECEIVE_CHUNK, encode(&args).unwrap()), Ok(vec![0xc0]));
    let event = Event {
        event_id: "1".to_string(),
        stream_id: "s".to_string(),
        values: vec![("k".to_string(), "v".to_string())],
    };
    assert_eq!(d.dispatch(OP_DELIVER_EVENT, encode(&event).unwrap()), Ok(vec![0xc3]));
}
