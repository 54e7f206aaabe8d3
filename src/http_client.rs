//! The HTTP client capability: outbound requests and their responses.
use vstd::prelude::*;
use crate::fieldkit::{
    dict_kind, dict_ty, dict_val, dict_value, get_bin, get_dict, get_str, get_u32,
    lemma_collection_tys_wf, lemma_dict_normal, lemma_entries_normal, req, u32_kind, u32_ty,
};
use crate::message::Message;
use crate::error::Error;
use crate::host::{perform, proxied, request, sends, HostRequest, DEFAULT_BINDING};
use crate::reader::{lemma_tys_of, tys_of, FieldKind, Kind};
use crate::schema::{lemma_normal_fields_from_index, lemma_wf_fields_from_index, values_of, FieldTy, Ty};
use crate::value::{lemma_view_fields, models, view_fields, Field, Val, Value};

verus! {

/// The contract that providers of this capability serve.
pub const CAPABILITY: &'static str = "wasmcloud:httpclient";

pub const OP_HANDLE_REQUEST: &'static str = "HandleRequest";

/// An outbound HTTP request.
#[derive(Debug, Clone, PartialEq, Default)]
pub struct Request {
    pub url: String,
    pub method: String,
    pub path: String,
    pub query_string: String,
    pub header: Vec<(String, String)>,
    pub body: Vec<u8>,
}

impl Message for Request {
    open spec fn schema() -> Seq<FieldTy> {
        seq![req("url"@, Ty::Str), req("method"@, Ty::Str), req("path"@, Ty::Str), req("queryString"@, Ty::Str), req("header"@, dict_ty()), req("body"@, Ty::Bin)]
    }

    open spec fn fields(&self) -> Seq<Val> {
        seq![Val::Str(self.url@), Val::Str(self.method@), Val::Str(self.path@), Val::Str(self.query_string@), dict_val(self.header@), Val::Bin(self.body@)]
    }

    fn kinds() -> (r: Vec<FieldKind>) {
        let r = vec![
            FieldKind { name: "url", kind: Kind::Str, optional: false },
            FieldKind { name: "method", kind: Kind::Str, optional: false },
            FieldKind { name: "path", kind: Kind::Str, optional: false },
            FieldKind { name: "queryString", kind: Kind::Str, optional: false },
            FieldKind { name: "header", kind: dict_kind(), optional: false },
            FieldKind { name: "body", kind: Kind::Bin, optional: false },
        ];
        proof {
            lemma_tys_of(r@);
            assert(tys_of(r@) =~= Self::schema());
        }
        r
    }

    fn to_fields(&self) -> (r: Vec<Value>) {
        let r = vec![
            Value::Str(self.url.clone()),
            Value::Str(self.method.clone()),
            Value::Str(self.path.clone()),
            Value::Str(self.query_string.clone()),
            dict_value(&self.header),
            Value::Bin(vstd::slice::slice_to_vec(self.body.as_slice())),
        ];
        assert(models(r@) =~= self.fields());
        r
    }

    fn from_fields(entries: &Vec<Field>) -> (r: Self) {
        proof {
            lemma_entries_normal(Self::schema(), entries@);
            lemma_view_fields(entries@);
        }
        let r = Request {
            url: get_str(entries, 0),
            method: get_str(entries, 1),
            path: get_str(entries, 2),
            query_string: get_str(entries, 3),
            header: get_dict(entries, 4),
            body: get_bin(entries, 5),
        };
        assert(r.fields() =~= values_of(view_fields(entries@)));
        r
    }

    proof fn lemma_normal(&self) {
        lemma_dict_normal(self.header@);
        lemma_normal_fields_from_index(Self::schema(), self.fields());
    }

    proof fn lemma_schema_wf() {
        reveal_strlit("url");
        reveal_strlit("method");
        reveal_strlit("path");
        reveal_strlit("queryString");
        reveal_strlit("header");
        reveal_strlit("body");
        lemma_collection_tys_wf();
        let s = Self::schema();
        assert(s[0].name == "url"@ && "url"@.len() == 3);
        assert(s[1].name == "method"@ && "method"@.len() == 6);
        assert(s[2].name == "path"@ && "path"@.len() == 4);
        assert(s[3].name == "queryString"@ && "queryString"@.len() == 11);
        assert(s[4].name == "header"@ && "header"@.len() == 6);
        assert(s[5].name == "body"@ && "body"@.len() == 4);
        assert("method"@[0] != "header"@[0]);
        assert("path"@[0] != "body"@[0]);
        assert(s[0].name != s[1].name && s[0].name != s[2].name && s[0].name != s[3].name && s[0].name != s[4].name && s[0].name != s[5].name && s[1].name != s[2].name && s[1].name != s[3].name && s[1].name != s[4].name && s[1].name != s[5].name && s[2].name != s[3].name && s[2].name != s[4].name && s[2].name != s[5].name && s[3].name != s[4].name && s[3].name != s[5].name && s[4].name != s[5].name);
        lemma_wf_fields_from_index(Self::schema());
    }
}

/// An HTTP response.
#[derive(Debug, Clone, PartialEq, Default)]
pub struct Response {
    pub status_code: u32,
    pub status: String,
    pub header: Vec<(String, String)>,
    pub body: Vec<u8>,
}

impl Message for Response {
    open spec fn schema() -> Seq<FieldTy> {
        seq![req("statusCode"@, u32_ty()), req("status"@, Ty::Str), req("header"@, dict_ty()), req("body"@, Ty::Bin)]
    }

    open spec fn fields(&self) -> Seq<Val> {
        seq![Val::Int(self.status_code as int), Val::Str(self.status@), dict_val(self.header@), Val::Bin(self.body@)]
    }

    fn kinds() -> (r: Vec<FieldKind>) {
        let r = vec![
            FieldKind { name: "statusCode", kind: u32_kind(), optional: false },
            FieldKind { name: "status", kind: Kind::Str, optional: false },
            FieldKind { name: "header", kind: dict_kind(), optional: false },
            FieldKind { name: "body", kind: Kind::Bin, optional: false },
        ];
        proof {
            lemma_tys_of(r@);
            assert(tys_of(r@) =~= Self::schema());
        }
        r
    }

    fn to_fields(&self) -> (r: Vec<Value>) {
        let r = vec![
            Value::UInt(self.status_code as u64),
            Value::Str(self.status.clone()),
            dict_value(&self.header),
            Value::Bin(vstd::slice::slice_to_vec(self.body.as_slice())),
        ];
        assert(models(r@) =~= self.fields());
        r
    }

    fn from_fields(entries: &Vec<Field>) -> (r: Self) {
        proof {
            lemma_entries_normal(Self::schema(), entries@);
            lemma_view_fields(entries@);
        }
        let r = Response {
            status_code: get_u32(entries, 0),
            status: get_str(entries, 1),
            header: get_dict(entries, 2),
            body: get_bin(entries, 3),
        };
        assert(r.fields() =~= values_of(view_fields(entries@)));
        r
    }

    proof fn lemma_normal(&self) {
        lemma_dict_normal(self.header@);
        lemma_normal_fields_from_index(Self::schema(), self.fields());
    }

    proof fn lemma_schema_wf() {
        reveal_strlit("statusCode");
        reveal_strlit("status");
        reveal_strlit("header");
        reveal_strlit("body");
        lemma_collection_tys_wf();
        let s = Self::schema();
        assert(s[0].name == "statusCode"@ && "statusCode"@.len() == 10);
        assert(s[1].name == "status"@ && "status"@.len() == 6);
        assert(s[2].name == "header"@ && "header"@.len() == 6);
        assert(s[3].name == "body"@ && "body"@.len() == 4);
        assert("status"@[0] != "header"@[0]);
        assert(s[0].name != s[1].name && s[0].name != s[2].name && s[0].name != s[3].name && s[1].name != s[2].name && s[1].name != s[3].name && s[2].name != s[3].name);
        lemma_wf_fields_from_index(Self::schema());
    }
}

/// A handle on a configured provider of this capability, named by its binding.
#[derive(Debug)]
pub struct Host {
    binding: String,
}

/// A handle on the provider configured under `binding`.
pub fn host(binding: &str) -> (r: Host)
    ensures
        r.spec_binding() == binding@,
{
    Host { binding: binding.to_owned() }
}

/// A handle on the provider configured under the default binding.
pub fn default() -> (r: Host)
    ensures
        r.spec_binding() == DEFAULT_BINDING@,
{
    host(DEFAULT_BINDING)
}

impl Host {
    pub closed spec fn spec_binding(&self) -> Seq<char> {
        self.binding@
    }

    /// The binding that names the provider.
    pub fn binding(&self) -> (r: &str)
        ensures
            r@ == self.spec_binding(),
    {
        self.binding.as_str()
    }

    /// The request that `handle_request` hands to the host: an envelope of `args`
    /// for `OP_HANDLE_REQUEST` under this binding.
    pub fn handle_request_request(&self, args: &Request) -> (r: Result<HostRequest, Error>)
        ensures
            sends::<Request>(r, self.spec_binding(), CAPABILITY@, OP_HANDLE_REQUEST@, args.fields()),
    {
        request(self.binding.as_str(), CAPABILITY, OP_HANDLE_REQUEST, args)
    }

    /// Performs an outbound HTTP request.
    /// Hands the host exactly what `handle_request_request` builds.
    pub fn handle_request(&self, request: Request) -> (r: Result<Response, Error>)
        ensures
            proxied::<Request, Response>(request.fields(), r),
    {
        match self.handle_request_request(&request) {
            Ok(q) => perform(&q),
            Err(e) => Err(e),
        }
    }
}

} // verus!
