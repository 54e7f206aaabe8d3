//! The event streams capability: its operations and message schemas.
use vstd::prelude::*;
use crate::fieldkit::{
    dict_kind, dict_ty, dict_val, dict_value, get_dict, get_opt_str, get_str, get_u64,
    lemma_collection_tys_wf, lemma_dict_normal, lemma_entries_normal, opt, opt_str_val,
    opt_str_value, req, u64_kind, u64_ty,
};
use crate::message::{
    get_opt_record, get_record_list, lemma_opt_record_normal, lemma_record_list_normal,
    lemma_record_ty_wf, opt_record_val, opt_record_value, record_kind, record_list_kind,
    record_list_ty, record_list_val, record_list_value, record_ty, Message,
};
use crate::error::Error;
use crate::host::{perform, proxied, request, sends, HostRequest, DEFAULT_BINDING};
use crate::reader::{lemma_tys_of, tys_of, FieldKind, Kind};
use crate::schema::{lemma_normal_fields_from_index, lemma_wf_fields_from_index, values_of, FieldTy, Ty};
use crate::value::{lemma_view_fields, models, view_fields, Field, Val, Value};

verus! {

/// The contract that providers of this capability serve.
pub const CAPABILITY: &'static str = "wasmcloud:eventstreams";

pub const OP_WRITE_EVENT: &'static str = "WriteEvent";
pub const OP_QUERY_STREAM: &'static str = "QueryStream";
pub const OP_DELIVER_EVENT: &'static str = "DeliverEvent";

#[derive(Debug, Clone, PartialEq, Default)]
pub struct WriteEventArgs {
    pub stream_id: String,
    pub values: Vec<(String, String)>,
}

impl Message for WriteEventArgs {
    open spec fn schema() -> Seq<FieldTy> {
        seq![req("streamId"@, Ty::Str), req("values"@, dict_ty())]
    }

    open spec fn fields(&self) -> Seq<Val> {
        seq![Val::Str(self.stream_id@), dict_val(self.values@)]
    }

    fn kinds() -> (r: Vec<FieldKind>) {
        let r = vec![
            FieldKind { name: "streamId", kind: Kind::Str, optional: false },
            FieldKind { name: "values", kind: dict_kind(), optional: false },
        ];
        proof {
            lemma_tys_of(r@);
            assert(tys_of(r@) =~= Self::schema());
        }
        r
    }

    fn to_fields(&self) -> (r: Vec<Value>) {
        let r = vec![
            Value::Str(self.stream_id.clone()),
            dict_value(&self.values),
        ];
        assert(models(r@) =~= self.fields());
        r
    }

    fn from_fields(entries: &Vec<Field>) -> (r: Self) {
        proof {
            lemma_entries_normal(Self::schema(), entries@);
            lemma_view_fields(entries@);
        }
        let r = WriteEventArgs {
            stream_id: get_str(entries, 0),
            values: get_dict(entries, 1),
        };
        assert(r.fields() =~= values_of(view_fields(entries@)));
        r
    }

    proof fn lemma_normal(&self) {
        lemma_dict_normal(self.values@);
        lemma_normal_fields_from_index(Self::schema(), self.fields());
    }

    proof fn lemma_schema_wf() {
        reveal_strlit("streamId");
        reveal_strlit("values");
        lemma_collection_tys_wf();
        let s = Self::schema();
        assert(s[0].name == "streamId"@ && "streamId"@.len() == 8);
        assert(s[1].name == "values"@ && "values"@.len() == 6);
        assert(s[0].name != s[1].name);
        lemma_wf_fields_from_index(Self::schema());
    }
}

#[derive(Debug, Clone, PartialEq, Default)]
pub struct Event {
    pub event_id: String,
    pub stream_id: String,
    pub values: Vec<(String, String)>,
}

impl Message for Event {
    open spec fn schema() -> Seq<FieldTy> {
        seq![req("eventId"@, Ty::Str), req("streamId"@, Ty::Str), req("values"@, dict_ty())]
    }

    open spec fn fields(&self) -> Seq<Val> {
        seq![Val::Str(self.event_id@), Val::Str(self.stream_id@), dict_val(self.values@)]
    }

    fn kinds() -> (r: Vec<FieldKind>) {
        let r = vec![
            FieldKind { name: "eventId", kind: Kind::Str, optional: false },
            FieldKind { name: "streamId", kind: Kind::Str, optional: false },
            FieldKind { name: "values", kind: dict_kind(), optional: false },
        ];
        proof {
            lemma_tys_of(r@);
            assert(tys_of(r@) =~= Self::schema());
        }
        r
    }

    fn to_fields(&self) -> (r: Vec<Value>) {
        let r = vec![
            Value::Str(self.event_id.clone()),
            Value::Str(self.stream_id.clone()),
            dict_value(&self.values),
        ];
        assert(models(r@) =~= self.fields());
        r
    }

    fn from_fields(entries: &Vec<Field>) -> (r: Self) {
        proof {
            lemma_entries_normal(Self::schema(), entries@);
            lemma_view_fields(entries@);
        }
        let r = Event {
            event_id: get_str(entries, 0),
            stream_id: get_str(entries, 1),
            values: get_dict(entries, 2),
        };
        assert(r.fields() =~= values_of(view_fields(entries@)));
        r
    }

    proof fn lemma_normal(&self) {
        lemma_dict_normal(self.values@);
        lemma_normal_fields_from_index(Self::schema(), self.fields());
    }

    proof fn lemma_schema_wf() {
        reveal_strlit("eventId");
        reveal_strlit("streamId");
        reveal_strlit("values");
        lemma_collection_tys_wf();
        let s = Self::schema();
        assert(s[0].name == "eventId"@ && "eventId"@.len() == 7);
        assert(s[1].name == "streamId"@ && "streamId"@.len() == 8);
        assert(s[2].name == "values"@ && "values"@.len() == 6);
        assert(s[0].name != s[1].name && s[0].name != s[2].name && s[1].name != s[2].name);
        lemma_wf_fields_from_index(Self::schema());
    }
}

#[derive(Debug, Clone, PartialEq, Default)]
pub struct EventAck {
    pub event_id: Option<String>,
    pub error: Option<String>,
}

impl Message for EventAck {
    open spec fn schema() -> Seq<FieldTy> {
        seq![opt("eventId"@, Ty::Str), opt("error"@, Ty::Str)]
    }

    open spec fn fields(&self) -> Seq<Val> {
        seq![opt_str_val(self.event_id), opt_str_val(self.error)]
    }

    fn kinds() -> (r: Vec<FieldKind>) {
        let r = vec![
            FieldKind { name: "eventId", kind: Kind::Str, optional: true },
            FieldKind { name: "error", kind: Kind::Str, optional: true },
        ];
        proof {
            lemma_tys_of(r@);
            assert(tys_of(r@) =~= Self::schema());
        }
        r
    }

    fn to_fields(&self) -> (r: Vec<Value>) {
        let r = vec![
            opt_str_value(&self.event_id),
            opt_str_value(&self.error),
        ];
        assert(models(r@) =~= self.fields());
        r
    }

    fn from_fields(entries: &Vec<Field>) -> (r: Self) {
        proof {
            lemma_entries_normal(Self::schema(), entries@);
            lemma_view_fields(entries@);
        }
        let r = EventAck {
            event_id: get_opt_str(entries, 0),
            error: get_opt_str(entries, 1),
        };
        assert(r.fields() =~= values_of(view_fields(entries@)));
        r
    }

    proof fn lemma_normal(&self) {
        lemma_normal_fields_from_index(Self::schema(), self.fields());
    }

    proof fn lemma_schema_wf() {
        reveal_strlit("eventId");
        reveal_strlit("error");
        let s = Self::schema();
        assert(s[0].name == "eventId"@ && "eventId"@.len() == 7);
        assert(s[1].name == "error"@ && "error"@.len() == 5);
        assert(s[0].name != s[1].name);
        lemma_wf_fields_from_index(Self::schema());
    }
}

#[derive(Debug, Clone, PartialEq, Default)]
pub struct EventList {
    pub events: Vec<Event>,
}

impl Message for EventList {
    open spec fn schema() -> Seq<FieldTy> {
        seq![req("events"@, record_list_ty::<Event>())]
    }

    open spec fn fields(&self) -> Seq<Val> {
        seq![record_list_val(self.events@)]
    }

    fn kinds() -> (r: Vec<FieldKind>) {
        let r = vec![
            FieldKind { name: "events", kind: record_list_kind::<Event>(), optional: false },
        ];
        proof {
            lemma_tys_of(r@);
            assert(tys_of(r@) =~= Self::schema());
        }
        r
    }

    fn to_fields(&self) -> (r: Vec<Value>) {
        let r = vec![
            record_list_value(&self.events),
        ];
        assert(models(r@) =~= self.fields());
        r
    }

    fn from_fields(entries: &Vec<Field>) -> (r: Self) {
        proof {
            lemma_entries_normal(Self::schema(), entries@);
            lemma_view_fields(entries@);
        }
        let r = EventList {
            events: get_record_list::<Event>(entries, 0),
        };
        assert(r.fields() =~= values_of(view_fields(entries@)));
        r
    }

    proof fn lemma_normal(&self) {
        lemma_record_list_normal(self.events@);
        lemma_normal_fields_from_index(Self::schema(), self.fields());
    }

    proof fn lemma_schema_wf() {
        reveal_strlit("events");
        lemma_record_ty_wf::<Event>();
        lemma_wf_fields_from_index(Self::schema());
    }
}

#[derive(Debug, Clone, PartialEq, Default)]
pub struct TimeRange {
    pub min_time: u64,
    pub max_time: u64,
}

impl Message for TimeRange {
    open spec fn schema() -> Seq<FieldTy> {
        seq![req("minTime"@, u64_ty()), req("maxTime"@, u64_ty())]
    }

    open spec fn fields(&self) -> Seq<Val> {
        seq![Val::Int(self.min_time as int), Val::Int(self.max_time as int)]
    }

    fn kinds() -> (r: Vec<FieldKind>) {
        let r = vec![
            FieldKind { name: "minTime", kind: u64_kind(), optional: false },
            FieldKind { name: "maxTime", kind: u64_kind(), optional: false },
        ];
        proof {
            lemma_tys_of(r@);
            assert(tys_of(r@) =~= Self::schema());
        }
        r
    }

    fn to_fields(&self) -> (r: Vec<Value>) {
        let r = vec![
            Value::UInt(self.min_time),
            Value::UInt(self.max_time),
        ];
        assert(models(r@) =~= self.fields());
        r
    }

    fn from_fields(entries: &Vec<Field>) -> (r: Self) {
        proof {
            lemma_entries_normal(Self::schema(), entries@);
            lemma_view_fields(entries@);
        }
        let r = TimeRange {
            min_time: get_u64(entries, 0),
            max_time: get_u64(entries, 1),
        };
        assert(r.fields() =~= values_of(view_fields(entries@)));
        r
    }

    proof fn lemma_normal(&self) {
        lemma_normal_fields_from_index(Self::schema(), self.fields());
    }

    proof fn lemma_schema_wf() {
        reveal_strlit("minTime");
        reveal_strlit("maxTime");
        let s = Self::schema();
        assert(s[0].name == "minTime"@ && "minTime"@.len() == 7);
        assert(s[1].name == "maxTime"@ && "maxTime"@.len() == 7);
        assert("minTime"@[1] != "maxTime"@[1]);
        assert(s[0].name != s[1].name);
        lemma_wf_fields_from_index(Self::schema());
    }
}

#[derive(Debug, Clone, PartialEq, Default)]
pub struct StreamQuery {
    pub stream_id: String,
    pub range: Option<TimeRange>,
    pub count: u64,
}

impl Message for StreamQuery {
    open spec fn schema() -> Seq<FieldTy> {
        seq![req("streamId"@, Ty::Str), opt("range"@, record_ty::<TimeRange>()), req("count"@, u64_ty())]
    }

    open spec fn fields(&self) -> Seq<Val> {
        seq![Val::Str(self.stream_id@), opt_record_val(self.range), Val::Int(self.count as int)]
    }

    fn kinds() -> (r: Vec<FieldKind>) {
        let r = vec![
            FieldKind { name: "streamId", kind: Kind::Str, optional: false },
            FieldKind { name: "range", kind: record_kind::<TimeRange>(), optional: true },
            FieldKind { name: "count", kind: u64_kind(), optional: false },
        ];
        proof {
            lemma_tys_of(r@);
            assert(tys_of(r@) =~= Self::schema());
        }
        r
    }

    fn to_fields(&self) -> (r: Vec<Value>) {
        let r = vec![
            Value::Str(self.stream_id.clone()),
            opt_record_value(&self.range),
            Value::UInt(self.count),
        ];
        assert(models(r@) =~= self.fields());
        r
    }

    fn from_fields(entries: &Vec<Field>) -> (r: Self) {
        proof {
            lemma_entries_normal(Self::schema(), entries@);
            lemma_view_fields(entries@);
        }
        let r = StreamQuery {
            stream_id: get_str(entries, 0),
            range: get_opt_record::<TimeRange>(entries, 1),
            count: get_u64(entries, 2),
        };
        assert(r.fields() =~= values_of(view_fields(entries@)));
        r
    }

    proof fn lemma_normal(&self) {
        lemma_opt_record_normal(self.range);
        lemma_normal_fields_from_index(Self::schema(), self.fields());
    }

    proof fn lemma_schema_wf() {
        reveal_strlit("streamId");
        reveal_strlit("range");
        reveal_strlit("count");
        lemma_record_ty_wf::<TimeRange>();
        let s = Self::schema();
        assert(s[0].name == "streamId"@ && "streamId"@.len() == 8);
        assert(s[1].name == "range"@ && "range"@.len() == 5);
        assert(s[2].name == "count"@ && "count"@.len() == 5);
        assert("range"@[0] != "count"@[0]);
        assert(s[0].name != s[1].name && s[0].name != s[2].name && s[1].name != s[2].name);
        lemma_wf_fields_from_index(Self::schema());
    }
}

/// A handle on a configured provider of this capability, named by its binding.
#[derive(Debug)]
pub struct Host {
    binding: String,
}

/// A handle on the provider configured under `binding`.
pub fn host(binding: &str) -> (r: Host)
    ensures
        r.spec_binding() == binding@,
{
    Host { binding: binding.to_owned() }
}

/// A handle on the provider configured under the default binding.
pub fn default() -> (r: Host)
    ensures
        r.spec_binding() == DEFAULT_BINDING@,
{
    host(DEFAULT_BINDING)
}

impl Host {
    pub closed spec fn spec_binding(&self) -> Seq<char> {
        self.binding@
    }

    /// The binding that names the provider.
    pub fn binding(&self) -> (r: &str)
        ensures
            r@ == self.spec_binding(),
    {
        self.binding.as_str()
    }

    /// The request that `write_event` hands to the host: an envelope of `args`
    /// for `OP_WRITE_EVENT` under this binding.
    pub fn write_event_request(&self, args: &WriteEventArgs) -> (r: Result<HostRequest, Error>)
        ensures
            sends::<WriteEventArgs>(r, self.spec_binding(), CAPABILITY@, OP_WRITE_EVENT@, args.fields()),
    {
        request(self.binding.as_str(), CAPABILITY, OP_WRITE_EVENT, args)
    }

    /// Writes an event, given as its values, to a stream.
    /// Hands the host exactly what `write_event_request` builds.
    pub fn write_event(&self, stream_id: String, values: Vec<(String, String)>) -> (r: Result<EventAck, Error>)
        ensures
            proxied::<WriteEventArgs, EventAck>((WriteEventArgs { stream_id, values }).fields(), r),
    {
        let args = WriteEventArgs { stream_id, values };
        match self.write_event_request(&args) {
            Ok(q) => perform(&q),
            Err(e) => Err(e),
        }
    }

    /// The request that `query_stream` hands to the host: an envelope of `args`
    /// for `OP_QUERY_STREAM` under this binding.
    pub fn query_stream_request(&self, args: &StreamQuery) -> (r: Result<HostRequest, Error>)
        ensures
            sends::<StreamQuery>(r, self.spec_binding(), CAPABILITY@, OP_QUERY_STREAM@, args.fields()),
    {
        request(self.binding.as_str(), CAPABILITY, OP_QUERY_STREAM, args)
    }

    /// The events of a stream that a query selects.
    /// Hands the host exactly what `query_stream_request` builds.
    pub fn query_stream(&self, query: StreamQuery) -> (r: Result<EventList, Error>)
        ensures
            proxied::<StreamQuery, EventList>(query.fields(), r),
    {
        match self.query_stream_request(&query) {
            Ok(q) => perform(&q),
            Err(e) => Err(e),
        }
    }
}

} // verus!
