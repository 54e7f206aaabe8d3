//! The HTTP server capability: requests delivered to actors and their responses.
use vstd::prelude::*;
use vstd::utf8::encode_utf8;
use crate::reader::same_text;
use crate::text::{ascii_upper, to_ascii_upper, trim, trimmed};
use crate::fieldkit::{
    dict_kind, dict_ty, dict_val, dict_value, get_bin, get_dict, get_str, get_u32,
    lemma_collection_tys_wf, lemma_dict_normal, lemma_entries_normal, req, u32_kind, u32_ty,
};
use crate::message::Message;
use crate::reader::{lemma_tys_of, tys_of, FieldKind, Kind};
use crate::schema::{lemma_normal_fields_from_index, lemma_wf_fields_from_index, values_of, FieldTy, Ty};
use crate::value::{lemma_view_fields, models, view_fields, Field, Val, Value};

verus! {

/// The contract that providers of this capability serve.
pub const CAPABILITY: &'static str = "wasmcloud:httpserver";

pub const OP_HANDLE_REQUEST: &'static str = "HandleRequest";

/// An HTTP request.
#[derive(Debug, Clone, PartialEq, Default)]
pub struct Request {
    pub method: String,
    pub path: String,
    pub query_string: String,
    pub header: Vec<(String, String)>,
    pub body: Vec<u8>,
}

impl Message for Request {
    open spec fn schema() -> Seq<FieldTy> {
        seq![req("method"@, Ty::Str), req("path"@, Ty::Str), req("queryString"@, Ty::Str), req("header"@, dict_ty()), req("body"@, Ty::Bin)]
    }

    open spec fn fields(&self) -> Seq<Val> {
        seq![Val::Str(self.method@), Val::Str(self.path@), Val::Str(self.query_string@), dict_val(self.header@), Val::Bin(self.body@)]
    }

    fn kinds() -> (r: Vec<FieldKind>) {
        let r = vec![
            FieldKind { name: "method", kind: Kind::Str, optional: false },
            FieldKind { name: "path", kind: Kind::Str, optional: false },
            FieldKind { name: "queryString", kind: Kind::Str, optional: false },
            FieldKind { name: "header", kind: dict_kind(), optional: false },
            FieldKind { name: "body", kind: Kind::Bin, optional: false },
        ];
        proof {
            lemma_tys_of(r@);
            assert(tys_of(r@) =~= Self::schema());
        }
        r
    }

    fn to_fields(&self) -> (r: Vec<Value>) {
        let r = vec![
            Value::Str(self.method.clone()),
            Value::Str(self.path.clone()),
            Value::Str(self.query_string.clone()),
            dict_value(&self.header),
            Value::Bin(vstd::slice::slice_to_vec(self.body.as_slice())),
        ];
        assert(models(r@) =~= self.fields());
        r
    }

    fn from_fields(entries: &Vec<Field>) -> (r: Self) {
        proof {
            lemma_entries_normal(Self::schema(), entries@);
            lemma_view_fields(entries@);
        }
        let r = Request {
            method: get_str(entries, 0),
            path: get_str(entries, 1),
            query_string: get_str(entries, 2),
            header: get_dict(entries, 3),
            body: get_bin(entries, 4),
        };
        assert(r.fields() =~= values_of(view_fields(entries@)));
        r
    }

    proof fn lemma_normal(&self) {
        lemma_dict_normal(self.header@);
        lemma_normal_fields_from_index(Self::schema(), self.fields());
    }

    proof fn lemma_schema_wf() {
        reveal_strlit("method");
        reveal_strlit("path");
        reveal_strlit("queryString");
        reveal_strlit("header");
        reveal_strlit("body");
        lemma_collection_tys_wf();
        let s = Self::schema();
        assert(s[0].name == "method"@ && "method"@.len() == 6);
        assert(s[1].name == "path"@ && "path"@.len() == 4);
        assert(s[2].name == "queryString"@ && "queryString"@.len() == 11);
        assert(s[3].name == "header"@ && "header"@.len() == 6);
        assert(s[4].name == "body"@ && "body"@.len() == 4);
        assert("method"@[0] != "header"@[0]);
        assert("path"@[0] != "body"@[0]);
        assert(s[0].name != s[1].name && s[0].name != s[2].name && s[0].name != s[3].name && s[0].name != s[4].name && s[1].name != s[2].name && s[1].name != s[3].name && s[1].name != s[4].name && s[2].name != s[3].name && s[2].name != s[4].name && s[3].name != s[4].name);
        lemma_wf_fields_from_index(Self::schema());
    }
}

/// An HTTP response.
#[derive(Debug, Clone, PartialEq, Default)]
pub struct Response {
    pub status_code: u32,
    pub status: String,
    pub header: Vec<(String, String)>,
    pub body: Vec<u8>,
}

impl Message for Response {
    open spec fn schema() -> Seq<FieldTy> {
        seq![req("statusCode"@, u32_ty()), req("status"@, Ty::Str), req("header"@, dict_ty()), req("body"@, Ty::Bin)]
    }

    open spec fn fields(&self) -> Seq<Val> {
        seq![Val::Int(self.status_code as int), Val::Str(self.status@), dict_val(self.header@), Val::Bin(self.body@)]
    }

    fn kinds() -> (r: Vec<FieldKind>) {
        let r = vec![
            FieldKind { name: "statusCode", kind: u32_kind(), optional: false },
            FieldKind { name: "status", kind: Kind::Str, optional: false },
            FieldKind { name: "header", kind: dict_kind(), optional: false },
            FieldKind { name: "body", kind: Kind::Bin, optional: false },
        ];
        proof {
            lemma_tys_of(r@);
            assert(tys_of(r@) =~= Self::schema());
        }
        r
    }

    fn to_fields(&self) -> (r: Vec<Value>) {
        let r = vec![
            Value::UInt(self.status_code as u64),
            Value::Str(self.status.clone()),
            dict_value(&self.header),
            Value::Bin(vstd::slice::slice_to_vec(self.body.as_slice())),
        ];
        assert(models(r@) =~= self.fields());
        r
    }

    fn from_fields(entries: &Vec<Field>) -> (r: Self) {
        proof {
            lemma_entries_normal(Self::schema(), entries@);
            lemma_view_fields(entries@);
        }
        let r = Response {
            status_code: get_u32(entries, 0),
            status: get_str(entries, 1),
            header: get_dict(entries, 2),
            body: get_bin(entries, 3),
        };
        assert(r.fields() =~= values_of(view_fields(entries@)));
        r
    }

    proof fn lemma_normal(&self) {
        lemma_dict_normal(self.header@);
        lemma_normal_fields_from_index(Self::schema(), self.fields());
    }

    proof fn lemma_schema_wf() {
        reveal_strlit("statusCode");
        reveal_strlit("status");
        reveal_strlit("header");
        reveal_strlit("body");
        lemma_collection_tys_wf();
        let s = Self::schema();
        assert(s[0].name == "statusCode"@ && "statusCode"@.len() == 10);
        assert(s[1].name == "status"@ && "status"@.len() == 6);
        assert(s[2].name == "header"@ && "header"@.len() == 6);
        assert(s[3].name == "body"@ && "body"@.len() == 4);
        assert("status"@[0] != "header"@[0]);
        assert(s[0].name != s[1].name && s[0].name != s[2].name && s[0].name != s[3].name && s[1].name != s[2].name && s[1].name != s[3].name && s[2].name != s[3].name);
        lemma_wf_fields_from_index(Self::schema());
    }
}

/// The methods of an HTTP request.
#[derive(Clone, Copy, Debug, PartialEq, Eq, Hash, Structural)]
pub enum Method {
    Options,
    Get,
    Post,
    Put,
    Delete,
    Head,
    Trace,
    Connect,
    Patch,
}

/// The method that a name in upper case stands for; a name that stands for
/// none is taken as `Get`.
pub open spec fn method_named(name: Seq<char>) -> Method {
    if name == "OPTIONS"@ {
        Method::Options
    } else if name == "POST"@ {
        Method::Post
    } else if name == "PUT"@ {
        Method::Put
    } else if name == "DELETE"@ {
        Method::Delete
    } else if name == "TRACE"@ {
        Method::Trace
    } else if name == "HEAD"@ {
        Method::Head
    } else if name == "CONNECT"@ {
        Method::Connect
    } else if name == "PATCH"@ {
        Method::Patch
    } else {
        Method::Get
    }
}

impl Method {
    /// The method that a name stands for, whatever its case and surrounding
    /// white space; `Get` for a name that stands for none.
    pub fn parse(input: &str) -> (m: Method)
        ensures
            m == method_named(trimmed(ascii_upper(input@))),
    {
        let upper = to_ascii_upper(input);
        let name = trim(upper.as_str());
        if same_text(name, "OPTIONS") {
            Method::Options
        } else if same_text(name, "POST") {
            Method::Post
        } else if same_text(name, "PUT") {
            Method::Put
        } else if same_text(name, "DELETE") {
            Method::Delete
        } else if same_text(name, "TRACE") {
            Method::Trace
        } else if same_text(name, "HEAD") {
            Method::Head
        } else if same_text(name, "CONNECT") {
            Method::Connect
        } else if same_text(name, "PATCH") {
            Method::Patch
        } else {
            Method::Get
        }
    }
}

impl std::str::FromStr for Method {
    type Err = std::convert::Infallible;

    fn from_str(input: &str) -> Result<Method, std::convert::Infallible> {
        Ok(Method::parse(input))
    }
}

/// The state of a scan of a path up to some point: the segments closed so
/// far, where the current one starts, and whether a slash was seen.
pub open spec fn scan_path(s: Seq<char>) -> (Seq<Seq<char>>, int, bool)
    decreases s.len(),
{
    if s.len() == 0 {
        (Seq::empty(), 0, false)
    } else {
        let n = s.len() - 1;
        let (done, start, seen) = scan_path(s.drop_last());
        if s.last() == '/' {
            if seen && n > start {
                (done.push(s.subrange(start, n)), n + 1, true)
            } else {
                (done, n + 1, true)
            }
        } else {
            (done, start, seen)
        }
    }
}

/// The segments of a path: the non-empty pieces between slashes, after the
/// first slash.
pub open spec fn path_segments(s: Seq<char>) -> Seq<Seq<char>> {
    let (done, start, seen) = scan_path(s);
    if seen && s.len() > start {
        done.push(s.subrange(start, s.len() as int))
    } else {
        done
    }
}

proof fn lemma_scan_path_bounds(s: Seq<char>)
    ensures
        0 <= scan_path(s).1 <= s.len(),
    decreases s.len(),
{
    if s.len() > 0 {
        lemma_scan_path_bounds(s.drop_last());
    }
}

impl Request {
    /// The method of the request; `Get` where it names none.
    pub fn method(&self) -> (m: Method)
        ensures
            m == method_named(trimmed(ascii_upper(self.method@))),
    {
        Method::parse(self.method.as_str())
    }

    /// The segments of the request's path.
    pub fn path_segments(&self) -> (r: Vec<String>)
        ensures
            r@.len() == path_segments(self.path@).len(),
            forall|k: int| 0 <= k < r@.len() ==> (#[trigger] r@[k])@ == path_segments(self.path@)[k],
    {
        let path = self.path.as_str();
        let n = path.unicode_len();
        let mut out: Vec<String> = Vec::new();
        let mut start: usize = 0;
        let mut seen = false;
        let mut i: usize = 0;
        while i < n
            invariant
                n == path@.len(),
                i <= n,
                path@ == self.path@,
                scan_path(path@.subrange(0, i as int)).1 == start as int,
                scan_path(path@.subrange(0, i as int)).2 == seen,
                out@.len() == scan_path(path@.subrange(0, i as int)).0.len(),
                forall|k: int|
                    0 <= k < out@.len() ==> (#[trigger] out@[k])@ == scan_path(
                        path@.subrange(0, i as int),
                    ).0[k],
            decreases n - i,
        {
            let ghost pre = path@.subrange(0, i as int);
            let ghost next = path@.subrange(0, i + 1);
            proof {
                assert(next.drop_last() =~= pre);
                lemma_scan_path_bounds(pre);
            }
            let c = path.get_char(i);
            if c == '/' {
                if seen && i > start {
                    let piece = path.substring_char(start, i);
                    assert(piece@ =~= next.subrange(start as int, i as int));
                    out.push(piece.to_owned());
                }
                start = i + 1;
                seen = true;
            }
            i = i + 1;
        }
        let ghost whole = path@.subrange(0, n as int);
        assert(whole =~= path@);
        proof {
            lemma_scan_path_bounds(whole);
        }
        if seen && n > start {
            let piece = path.substring_char(start, n);
            out.push(piece.to_owned());
        }
        out
    }
}

impl Response {
    fn with_status(status_code: u32, status: &str) -> (r: Response)
        ensures
            r.status_code == status_code,
            r.status@ == status@,
            r.header@.len() == 0,
            r.body@.len() == 0,
    {
        Response { status_code, status: status.to_owned(), header: Vec::new(), body: Vec::new() }
    }

    /// A 404 Not Found response with no headers and no body.
    pub fn not_found() -> (r: Response)
        ensures
            r.status_code == 404,
            r.status@ == "Not Found"@,
            r.header@.len() == 0,
            r.body@.len() == 0,
    {
        Response::with_status(404, "Not Found")
    }

    /// A 200 OK response with no headers and no body.
    pub fn ok() -> (r: Response)
        ensures
            r.status_code == 200,
            r.status@ == "OK"@,
            r.header@.len() == 0,
            r.body@.len() == 0,
    {
        Response::with_status(200, "OK")
    }

    /// A 500 Internal Server Error response whose body is the message.
    pub fn internal_server_error(msg: &str) -> (r: Response)
        ensures
            r.status_code == 500,
            r.status@ == "Internal Server Error"@,
            r.header@.len() == 0,
            r.body@ == encode_utf8(msg@),
    {
        let mut r = Response::with_status(500, "Internal Server Error");
        r.body = vstd::slice::slice_to_vec(msg.as_bytes());
        r
    }

    /// A 400 Bad Request response with no headers and no body.
    pub fn bad_request() -> (r: Response)
        ensures
            r.status_code == 400,
            r.status@ == "Bad Request"@,
            r.header@.len() == 0,
            r.body@.len() == 0,
    {
        Response::with_status(400, "Bad Request")
    }
}

} // verus!
