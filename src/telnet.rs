//! The telnet capability: its operations and message schemas.
use vstd::prelude::*;
use crate::fieldkit::{
    get_bool, get_opt_str, get_str, lemma_entries_normal, opt, opt_str_val, opt_str_value, req,
};
use crate::message::Message;
use crate::error::Error;
use crate::host::{perform, proxied, request, sends, HostRequest, DEFAULT_BINDING};
use crate::reader::{lemma_tys_of, tys_of, FieldKind, Kind};
use crate::schema::{lemma_normal_fields_from_index, lemma_wf_fields_from_index, values_of, FieldTy, Ty};
use crate::value::{lemma_view_fields, models, view_fields, Field, Val, Value};

verus! {

/// The contract that providers of this capability serve.
pub const CAPABILITY: &'static str = "wasmcloud:telnet";

pub const OP_SESSION_STARTED: &'static str = "SessionStarted";
pub const OP_RECEIVE_TEXT: &'static str = "ReceiveText";
pub const OP_SEND_TEXT: &'static str = "SendText";

#[derive(Debug, Clone, PartialEq, Default)]
pub struct SendTextArgs {
    pub session: String,
    pub text: String,
}

impl Message for SendTextArgs {
    open spec fn schema() -> Seq<FieldTy> {
        seq![req("session"@, Ty::Str), req("text"@, Ty::Str)]
    }

    open spec fn fields(&self) -> Seq<Val> {
        seq![Val::Str(self.session@), Val::Str(self.text@)]
    }

    fn kinds() -> (r: Vec<FieldKind>) {
        let r = vec![
            FieldKind { name: "session", kind: Kind::Str, optional: false },
            FieldKind { name: "text", kind: Kind::Str, optional: false },
        ];
        proof {
            lemma_tys_of(r@);
            assert(tys_of(r@) =~= Self::schema());
        }
        r
    }

    fn to_fields(&self) -> (r: Vec<Value>) {
        let r = vec![
            Value::Str(self.session.clone()),
            Value::Str(self.text.clone()),
        ];
        assert(models(r@) =~= self.fields());
        r
    }

    fn from_fields(entries: &Vec<Field>) -> (r: Self) {
        proof {
            lemma_entries_normal(Self::schema(), entries@);
            lemma_view_fields(entries@);
        }
        let r = SendTextArgs {
            session: get_str(entries, 0),
            text: get_str(entries, 1),
        };
        assert(r.fields() =~= values_of(view_fields(entries@)));
        r
    }

    proof fn lemma_normal(&self) {
        lemma_normal_fields_from_index(Self::schema(), self.fields());
    }

    proof fn lemma_schema_wf() {
        reveal_strlit("session");
        reveal_strlit("text");
        let s = Self::schema();
        assert(s[0].name == "session"@ && "session"@.len() == 7);
        assert(s[1].name == "text"@ && "text"@.len() == 4);
        assert(s[0].name != s[1].name);
        lemma_wf_fields_from_index(Self::schema());
    }
}

#[derive(Debug, Clone, PartialEq, Default)]
pub struct SessionStartedArgs {
    pub session: String,
}

impl Message for SessionStartedArgs {
    open spec fn schema() -> Seq<FieldTy> {
        seq![req("session"@, Ty::Str)]
    }

    open spec fn fields(&self) -> Seq<Val> {
        seq![Val::Str(self.session@)]
    }

    fn kinds() -> (r: Vec<FieldKind>) {
        let r = vec![
            FieldKind { name: "session", kind: Kind::Str, optional: false },
        ];
        proof {
            lemma_tys_of(r@);
            assert(tys_of(r@) =~= Self::schema());
        }
        r
    }

    fn to_fields(&self) -> (r: Vec<Value>) {
        let r = vec![
            Value::Str(self.session.clone()),
        ];
        assert(models(r@) =~= self.fields());
        r
    }

    fn from_fields(entries: &Vec<Field>) -> (r: Self) {
        proof {
            lemma_entries_normal(Self::schema(), entries@);
            lemma_view_fields(entries@);
        }
        let r = SessionStartedArgs {
            session: get_str(entries, 0),
        };
        assert(r.fields() =~= values_of(view_fields(entries@)));
        r
    }

    proof fn lemma_normal(&self) {
        lemma_normal_fields_from_index(Self::schema(), self.fields());
    }

    proof fn lemma_schema_wf() {
        reveal_strlit("session");
        lemma_wf_fields_from_index(Self::schema());
    }
}

#[derive(Debug, Clone, PartialEq, Default)]
pub struct ReceiveTextArgs {
    pub session: String,
    pub text: String,
}

impl Message for ReceiveTextArgs {
    open spec fn schema() -> Seq<FieldTy> {
        seq![req("session"@, Ty::Str), req("text"@, Ty::Str)]
    }

    open spec fn fields(&self) -> Seq<Val> {
        seq![Val::Str(self.session@), Val::Str(self.text@)]
    }

    fn kinds() -> (r: Vec<FieldKind>) {
        let r = vec![
            FieldKind { name: "session", kind: Kind::Str, optional: false },
            FieldKind { name: "text", kind: Kind::Str, optional: false },
        ];
        proof {
            lemma_tys_of(r@);
            assert(tys_of(r@) =~= Self::schema());
        }
        r
    }

    fn to_fields(&self) -> (r: Vec<Value>) {
        let r = vec![
            Value::Str(self.session.clone()),
            Value::Str(self.text.clone()),
        ];
        assert(models(r@) =~= self.fields());
        r
    }

    fn from_fields(entries: &Vec<Field>) -> (r: Self) {
        proof {
            lemma_entries_normal(Self::schema(), entries@);
            lemma_view_fields(entries@);
        }
        let r = ReceiveTextArgs {
            session: get_str(entries, 0),
            text: get_str(entries, 1),
        };
        assert(r.fields() =~= values_of(view_fields(entries@)));
        r
    }

    proof fn lemma_normal(&self) {
        lemma_normal_fields_from_index(Self::schema(), self.fields());
    }

    proof fn lemma_schema_wf() {
        reveal_strlit("session");
        reveal_strlit("text");
        let s = Self::schema();
        assert(s[0].name == "session"@ && "session"@.len() == 7);
        assert(s[1].name == "text"@ && "text"@.len() == 4);
        assert(s[0].name != s[1].name);
        lemma_wf_fields_from_index(Self::schema());
    }
}

#[derive(Debug, Clone, PartialEq, Default)]
pub struct TelnetResult {
    pub success: bool,
    pub error: Option<String>,
}

impl Message for TelnetResult {
    open spec fn schema() -> Seq<FieldTy> {
        seq![req("success"@, Ty::Bool), opt("error"@, Ty::Str)]
    }

    open spec fn fields(&self) -> Seq<Val> {
        seq![Val::Bool(self.success), opt_str_val(self.error)]
    }

    fn kinds() -> (r: Vec<FieldKind>) {
        let r = vec![
            FieldKind { name: "success", kind: Kind::Bool, optional: false },
            FieldKind { name: "error", kind: Kind::Str, optional: true },
        ];
        proof {
            lemma_tys_of(r@);
            assert(tys_of(r@) =~= Self::schema());
        }
        r
    }

    fn to_fields(&self) -> (r: Vec<Value>) {
        let r = vec![
            Value::Bool(self.success),
            opt_str_value(&self.error),
        ];
        assert(models(r@) =~= self.fields());
        r
    }

    fn from_fields(entries: &Vec<Field>) -> (r: Self) {
        proof {
            lemma_entries_normal(Self::schema(), entries@);
            lemma_view_fields(entries@);
        }
        let r = TelnetResult {
            success: get_bool(entries, 0),
            error: get_opt_str(entries, 1),
        };
        assert(r.fields() =~= values_of(view_fields(entries@)));
        r
    }

    proof fn lemma_normal(&self) {
        lemma_normal_fields_from_index(Self::schema(), self.fields());
    }

    proof fn lemma_schema_wf() {
        reveal_strlit("success");
        reveal_strlit("error");
        let s = Self::schema();
        assert(s[0].name == "success"@ && "success"@.len() == 7);
        assert(s[1].name == "error"@ && "error"@.len() == 5);
        assert(s[0].name != s[1].name);
        lemma_wf_fields_from_index(Self::schema());
    }
}

/// A handle on a configured provider of this capability, named by its binding.
#[derive(Debug)]
pub struct Host {
    binding: String,
}

/// A handle on the provider configured under `binding`.
pub fn host(binding: &str) -> (r: Host)
    ensures
        r.spec_binding() == binding@,
{
    Host { binding: binding.to_owned() }
}

/// A handle on the provider configured under the default binding.
pub fn default() -> (r: Host)
    ensures
        r.spec_binding() == DEFAULT_BINDING@,
{
    host(DEFAULT_BINDING)
}

impl Host {
    pub closed spec fn spec_binding(&self) -> Seq<char> {
        self.binding@
    }

    /// The binding that names the provider.
    pub fn binding(&self) -> (r: &str)
        ensures
            r@ == self.spec_binding(),
    {
        self.binding.as_str()
    }

    /// The request that `send_text` hands to the host: an envelope of `args`
    /// for `OP_SEND_TEXT` under this binding.
    pub fn send_text_request(&self, args: &SendTextArgs) -> (r: Result<HostRequest, Error>)
        ensures
            sends::<SendTextArgs>(r, self.spec_binding(), CAPABILITY@, OP_SEND_TEXT@, args.fields()),
    {
        request(self.binding.as_str(), CAPABILITY, OP_SEND_TEXT, args)
    }

    /// Sends text to a session.
    /// Hands the host exactly what `send_text_request` builds.
    pub fn send_text(&self, session: String, text: String) -> (r: Result<TelnetResult, Error>)
        ensures
            proxied::<SendTextArgs, TelnetResult>((SendTextArgs { session, text }).fields(), r),
    {
        let args = SendTextArgs { session, text };
        match self.send_text_request(&args) {
            Ok(q) => perform(&q),
            Err(e) => Err(e),
        }
    }
}

} // verus!
