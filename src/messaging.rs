//! The message broker capability: its operations and message schemas.
use vstd::prelude::*;
use crate::message::{decoded, lemma_round_trip};
use crate::schema::write_record;
use crate::wire::{enc, encodable};
use crate::error::Error;
use crate::host::{perform, proxied, request, sends, HostRequest, DEFAULT_BINDING};
use crate::fieldkit::{
    get_bin, get_bool, get_i64, get_str, i64_kind, i64_ty, lemma_entries_normal, req,
};
use crate::message::Message;
use crate::reader::{lemma_tys_of, tys_of, FieldKind, Kind};
use crate::schema::{lemma_normal_fields_from_index, lemma_wf_fields_from_index, values_of, FieldTy, Ty};
use crate::value::{lemma_view_fields, models, view_fields, Field, Val, Value};

verus! {

/// The contract that providers of this capability serve.
pub const CAPABILITY: &'static str = "wasmcloud:messaging";

pub const OP_PUBLISH_MESSAGE: &'static str = "Publish";
pub const OP_PERFORM_REQUEST: &'static str = "Request";
pub const OP_HANDLE_MESSAGE: &'static str = "HandleMessage";
pub const OP_DELIVER_MESSAGE: &'static str = "DeliverMessage";

#[derive(Debug, Clone, PartialEq, Default)]
pub struct PublishArgs {
    pub subject: String,
    pub reply_to: String,
    pub body: Vec<u8>,
}

impl Message for PublishArgs {
    open spec fn schema() -> Seq<FieldTy> {
        seq![req("subject"@, Ty::Str), req("replyTo"@, Ty::Str), req("body"@, Ty::Bin)]
    }

    open spec fn fields(&self) -> Seq<Val> {
        seq![Val::Str(self.subject@), Val::Str(self.reply_to@), Val::Bin(self.body@)]
    }

    fn kinds() -> (r: Vec<FieldKind>) {
        let r = vec![
            FieldKind { name: "subject", kind: Kind::Str, optional: false },
            FieldKind { name: "replyTo", kind: Kind::Str, optional: false },
            FieldKind { name: "body", kind: Kind::Bin, optional: false },
        ];
        proof {
            lemma_tys_of(r@);
            assert(tys_of(r@) =~= Self::schema());
        }
        r
    }

    fn to_fields(&self) -> (r: Vec<Value>) {
        let r = vec![
            Value::Str(self.subject.clone()),
            Value::Str(self.reply_to.clone()),
            Value::Bin(vstd::slice::slice_to_vec(self.body.as_slice())),
        ];
        assert(models(r@) =~= self.fields());
        r
    }

    fn from_fields(entries: &Vec<Field>) -> (r: Self) {
        proof {
            lemma_entries_normal(Self::schema(), entries@);
            lemma_view_fields(entries@);
        }
        let r = PublishArgs {
            subject: get_str(entries, 0),
            reply_to: get_str(entries, 1),
            body: get_bin(entries, 2),
        };
        assert(r.fields() =~= values_of(view_fields(entries@)));
        r
    }

    proof fn lemma_normal(&self) {
        lemma_normal_fields_from_index(Self::schema(), self.fields());
    }

    proof fn lemma_schema_wf() {
        reveal_strlit("subject");
        reveal_strlit("replyTo");
        reveal_strlit("body");
        let s = Self::schema();
        assert(s[0].name == "subject"@ && "subject"@.len() == 7);
        assert(s[1].name == "replyTo"@ && "replyTo"@.len() == 7);
        assert(s[2].name == "body"@ && "body"@.len() == 4);
        assert("subject"@[0] != "replyTo"@[0]);
        assert(s[0].name != s[1].name && s[0].name != s[2].name && s[1].name != s[2].name);
        lemma_wf_fields_from_index(Self::schema());
    }
}

#[derive(Debug, Clone, PartialEq, Default)]
pub struct RequestArgs {
    pub subject: String,
    pub body: Vec<u8>,
    pub timeout: i64,
}

impl Message for RequestArgs {
    open spec fn schema() -> Seq<FieldTy> {
        seq![req("subject"@, Ty::Str), req("body"@, Ty::Bin), req("timeout"@, i64_ty())]
    }

    open spec fn fields(&self) -> Seq<Val> {
        seq![Val::Str(self.subject@), Val::Bin(self.body@), Val::Int(self.timeout as int)]
    }

    fn kinds() -> (r: Vec<FieldKind>) {
        let r = vec![
            FieldKind { name: "subject", kind: Kind::Str, optional: false },
            FieldKind { name: "body", kind: Kind::Bin, optional: false },
            FieldKind { name: "timeout", kind: i64_kind(), optional: false },
        ];
        proof {
            lemma_tys_of(r@);
            assert(tys_of(r@) =~= Self::schema());
        }
        r
    }

    fn to_fields(&self) -> (r: Vec<Value>) {
        let r = vec![
            Value::Str(self.subject.clone()),
            Value::Bin(vstd::slice::slice_to_vec(self.body.as_slice())),
            Value::Int(self.timeout),
        ];
        assert(models(r@) =~= self.fields());
        r
    }

    fn from_fields(entries: &Vec<Field>) -> (r: Self) {
        proof {
            lemma_entries_normal(Self::schema(), entries@);
            lemma_view_fields(entries@);
        }
        let r = RequestArgs {
            subject: get_str(entries, 0),
            body: get_bin(entries, 1),
            timeout: get_i64(entries, 2),
        };
        assert(r.fields() =~= values_of(view_fields(entries@)));
        r
    }

    proof fn lemma_normal(&self) {
        lemma_normal_fields_from_index(Self::schema(), self.fields());
    }

    proof fn lemma_schema_wf() {
        reveal_strlit("subject");
        reveal_strlit("body");
        reveal_strlit("timeout");
        let s = Self::schema();
        assert(s[0].name == "subject"@ && "subject"@.len() == 7);
        assert(s[1].name == "body"@ && "body"@.len() == 4);
        assert(s[2].name == "timeout"@ && "timeout"@.len() == 7);
        assert("subject"@[0] != "timeout"@[0]);
        assert(s[0].name != s[1].name && s[0].name != s[2].name && s[1].name != s[2].name);
        lemma_wf_fields_from_index(Self::schema());
    }
}

#[derive(Debug, Clone, PartialEq, Default)]
pub struct PublishResponse {
    pub published: bool,
}

impl Message for PublishResponse {
    open spec fn schema() -> Seq<FieldTy> {
        seq![req("published"@, Ty::Bool)]
    }

    open spec fn fields(&self) -> Seq<Val> {
        seq![Val::Bool(self.published)]
    }

    fn kinds() -> (r: Vec<FieldKind>) {
        let r = vec![
            FieldKind { name: "published", kind: Kind::Bool, optional: false },
        ];
        proof {
            lemma_tys_of(r@);
            assert(tys_of(r@) =~= Self::schema());
        }
        r
    }

    fn to_fields(&self) -> (r: Vec<Value>) {
        let r = vec![
            Value::Bool(self.published),
        ];
        assert(models(r@) =~= self.fields());
        r
    }

    fn from_fields(entries: &Vec<Field>) -> (r: Self) {
        proof {
            lemma_entries_normal(Self::schema(), entries@);
            lemma_view_fields(entries@);
        }
        let r = PublishResponse {
            published: get_bool(entries, 0),
        };
        assert(r.fields() =~= values_of(view_fields(entries@)));
        r
    }

    proof fn lemma_normal(&self) {
        lemma_normal_fields_from_index(Self::schema(), self.fields());
    }

    proof fn lemma_schema_wf() {
        reveal_strlit("published");
        lemma_wf_fields_from_index(Self::schema());
    }
}

/// A message delivered by a broker, or sent to one.
#[derive(Debug, Clone, PartialEq, Default)]
pub struct BrokerMessage {
    pub subject: String,
    pub reply_to: String,
    pub body: Vec<u8>,
}

impl Message for BrokerMessage {
    open spec fn schema() -> Seq<FieldTy> {
        seq![req("subject"@, Ty::Str), req("replyTo"@, Ty::Str), req("body"@, Ty::Bin)]
    }

    open spec fn fields(&self) -> Seq<Val> {
        seq![Val::Str(self.subject@), Val::Str(self.reply_to@), Val::Bin(self.body@)]
    }

    fn kinds() -> (r: Vec<FieldKind>) {
        let r = vec![
            FieldKind { name: "subject", kind: Kind::Str, optional: false },
            FieldKind { name: "replyTo", kind: Kind::Str, optional: false },
            FieldKind { name: "body", kind: Kind::Bin, optional: false },
        ];
        proof {
            lemma_tys_of(r@);
            assert(tys_of(r@) =~= Self::schema());
        }
        r
    }

    fn to_fields(&self) -> (r: Vec<Value>) {
        let r = vec![
            Value::Str(self.subject.clone()),
            Value::Str(self.reply_to.clone()),
            Value::Bin(vstd::slice::slice_to_vec(self.body.as_slice())),
        ];
        assert(models(r@) =~= self.fields());
        r
    }

    fn from_fields(entries: &Vec<Field>) -> (r: Self) {
        proof {
            lemma_entries_normal(Self::schema(), entries@);
            lemma_view_fields(entries@);
        }
        let r = BrokerMessage {
            subject: get_str(entries, 0),
            reply_to: get_str(entries, 1),
            body: get_bin(entries, 2),
        };
        assert(r.fields() =~= values_of(view_fields(entries@)));
        r
    }

    proof fn lemma_normal(&self) {
        lemma_normal_fields_from_index(Self::schema(), self.fields());
    }

    proof fn lemma_schema_wf() {
        reveal_strlit("subject");
        reveal_strlit("replyTo");
        reveal_strlit("body");
        let s = Self::schema();
        assert(s[0].name == "subject"@ && "subject"@.len() == 7);
        assert(s[1].name == "replyTo"@ && "replyTo"@.len() == 7);
        assert(s[2].name == "body"@ && "body"@.len() == 4);
        assert("subject"@[0] != "replyTo"@[0]);
        assert(s[0].name != s[1].name && s[0].name != s[2].name && s[1].name != s[2].name);
        lemma_wf_fields_from_index(Self::schema());
    }
}

/// A handle on a configured message broker, named by its binding.
#[derive(Debug)]
pub struct MessageBrokerHostBinding {
    binding: String,
}

/// A handle on the broker configured under `binding`.
pub fn host(binding: &str) -> (r: MessageBrokerHostBinding)
    ensures
        r.spec_binding() == binding@,
{
    MessageBrokerHostBinding { binding: binding.to_owned() }
}

/// A handle on the broker configured under the default binding.
pub fn default() -> (r: MessageBrokerHostBinding)
    ensures
        r.spec_binding() == DEFAULT_BINDING@,
{
    host(DEFAULT_BINDING)
}

/// The longest timeout that a request can carry, in milliseconds.
pub const MAX_TIMEOUT_MS: i64 = 0x7fff_ffff_ffff_ffff;

impl MessageBrokerHostBinding {
    pub closed spec fn spec_binding(&self) -> Seq<char> {
        self.binding@
    }

    /// The binding that names the broker.
    pub fn binding(&self) -> (r: &str)
        ensures
            r@ == self.spec_binding(),
    {
        self.binding.as_str()
    }

    /// The request that `publish` hands to the host: the envelope of the
    /// message for `Publish` under this binding, an absent reply subject
    /// sent as an empty one.
    pub fn publish_request(&self, subject: &str, reply_to: Option<&str>, payload: &[u8]) -> (r:
        Result<HostRequest, Error>)
        ensures
            sends::<PublishArgs>(
                r,
                self.spec_binding(),
                CAPABILITY@,
                OP_PUBLISH_MESSAGE@,
                publish_fields(subject@, reply_to, payload@),
            ),
    {
        let reply = match reply_to {
            Some(t) => t.to_owned(),
            None => String::new(),
        };
        assert(reply@ =~= match reply_to {
            Some(t) => t@,
            None => Seq::<char>::empty(),
        });
        let args = PublishArgs {
            subject: subject.to_owned(),
            reply_to: reply,
            body: vstd::slice::slice_to_vec(payload),
        };
        assert(args.fields() =~= publish_fields(subject@, reply_to, payload@));
        request(self.binding.as_str(), CAPABILITY, OP_PUBLISH_MESSAGE, &args)
    }

    /// Publishes a message on a subject, with an optional subject for
    /// replies. Hands the host exactly what `publish_request` builds.
    pub fn publish(&self, subject: &str, reply_to: Option<&str>, payload: &[u8]) -> (r: Result<
        PublishResponse,
        Error,
    >)
        ensures
            proxied::<PublishArgs, PublishResponse>(publish_fields(subject@, reply_to, payload@), r),
    {
        match self.publish_request(subject, reply_to, payload) {
            Ok(q) => perform(&q),
            Err(e) => Err(e),
        }
    }

    /// The request that `request` hands to the host: the envelope of the
    /// message for `Request` under this binding, with the timeout clamped to
    /// `MAX_TIMEOUT_MS`.
    pub fn request_request(&self, subject: &str, payload: &[u8], timeout_ms: u64) -> (r: Result<
        HostRequest,
        Error,
    >)
        ensures
            sends::<RequestArgs>(
                r,
                self.spec_binding(),
                CAPABILITY@,
                OP_PERFORM_REQUEST@,
                request_fields(subject@, payload@, timeout_ms),
            ),
    {
        let timeout = if timeout_ms <= MAX_TIMEOUT_MS as u64 {
            timeout_ms as i64
        } else {
            MAX_TIMEOUT_MS
        };
        let args = RequestArgs {
            subject: subject.to_owned(),
            body: vstd::slice::slice_to_vec(payload),
            timeout,
        };
        assert(args.fields() =~= request_fields(subject@, payload@, timeout_ms));
        request(self.binding.as_str(), CAPABILITY, OP_PERFORM_REQUEST, &args)
    }

    /// Publishes a message and waits up to `timeout_ms` milliseconds for a
    /// reply; a timeout beyond `MAX_TIMEOUT_MS` is sent as that. Hands the
    /// host exactly what `request_request` builds.
    pub fn request(&self, subject: &str, payload: &[u8], timeout_ms: u64) -> (r: Result<
        BrokerMessage,
        Error,
    >)
        ensures
            proxied::<RequestArgs, BrokerMessage>(request_fields(subject@, payload@, timeout_ms), r),
    {
        match self.request_request(subject, payload, timeout_ms) {
            Ok(q) => perform(&q),
            Err(e) => Err(e),
        }
    }
}

/// The field values of the record that `publish` sends.
pub open spec fn publish_fields(subject: Seq<char>, reply_to: Option<&str>, payload: Seq<u8>) -> Seq<Val> {
    seq![
        Val::Str(subject),
        Val::Str(
            match reply_to {
                Some(t) => t@,
                None => Seq::<char>::empty(),
            },
        ),
        Val::Bin(payload),
    ]
}

/// The field values of the record that `request` sends.
pub open spec fn request_fields(subject: Seq<char>, payload: Seq<u8>, timeout_ms: u64) -> Seq<Val> {
    seq![
        Val::Str(subject),
        Val::Bin(payload),
        Val::Int(
            if timeout_ms <= MAX_TIMEOUT_MS {
                timeout_ms as int
            } else {
                MAX_TIMEOUT_MS as int
            },
        ),
    ]
}

impl MessageBrokerHostBinding {
    /// The request that `deliver_message` hands to the host: the envelope
    /// of the message for `DeliverMessage` under this binding.
    pub fn deliver_message_request(&self, message: &BrokerMessage) -> (r: Result<HostRequest, Error>)
        ensures
            sends::<BrokerMessage>(r, self.spec_binding(), CAPABILITY@, OP_DELIVER_MESSAGE@, message.fields()),
    {
        request(self.binding.as_str(), CAPABILITY, OP_DELIVER_MESSAGE, message)
    }

    /// Hands a message to the broker for delivery, and returns the message
    /// it answers with. Hands the host exactly what
    /// `deliver_message_request` builds.
    pub fn deliver_message(&self, message: &BrokerMessage) -> (r: Result<BrokerMessage, Error>)
        ensures
            proxied::<BrokerMessage, BrokerMessage>(message.fields(), r),
    {
        match self.deliver_message_request(message) {
            Ok(q) => perform(&q),
            Err(e) => Err(e),
        }
    }
}

/// Binary payloads are kept byte for byte: decoding the envelope of a
/// message gives back its body as it was, whatever bytes it holds.
pub proof fn lemma_body_fidelity(msg: BrokerMessage)
    requires
        encodable(write_record(BrokerMessage::schema(), msg.fields())),
    ensures
        decoded::<BrokerMessage>(enc(write_record(BrokerMessage::schema(), msg.fields()))) is Ok,
        decoded::<BrokerMessage>(enc(write_record(BrokerMessage::schema(), msg.fields())))->Ok_0[2]
            == Val::Bin(msg.body@),
{
    lemma_round_trip(msg);
}

} // verus!
