//! The core actor contract: health checks and capability configuration.
use vstd::prelude::*;
use crate::error::Error;
use crate::host::{call, proxied, DEFAULT_BINDING};
use crate::fieldkit::{
    dict_kind, dict_ty, dict_val, dict_value, get_bool, get_dict, get_str, lemma_collection_tys_wf,
    lemma_dict_normal, lemma_entries_normal, req,
};
use crate::message::Message;
use crate::reader::{lemma_tys_of, tys_of, FieldKind, Kind};
use crate::schema::{lemma_normal_fields_from_index, lemma_wf_fields_from_index, values_of, FieldTy, Ty};
use crate::value::{lemma_view_fields, models, view_fields, Field, Val, Value};

verus! {

/// The contract that providers of this capability serve.
pub const CAPABILITY: &'static str = "wasmcloud:core";

pub const OP_HEALTH_REQUEST: &'static str = "HealthRequest";

#[derive(Debug, Clone, PartialEq, Default)]
pub struct CapabilityConfiguration {
    pub module: String,
    pub values: Vec<(String, String)>,
}

impl Message for CapabilityConfiguration {
    open spec fn schema() -> Seq<FieldTy> {
        seq![req("module"@, Ty::Str), req("values"@, dict_ty())]
    }

    open spec fn fields(&self) -> Seq<Val> {
        seq![Val::Str(self.module@), dict_val(self.values@)]
    }

    fn kinds() -> (r: Vec<FieldKind>) {
        let r = vec![
            FieldKind { name: "module", kind: Kind::Str, optional: false },
            FieldKind { name: "values", kind: dict_kind(), optional: false },
        ];
        proof {
            lemma_tys_of(r@);
            assert(tys_of(r@) =~= Self::schema());
        }
        r
    }

    fn to_fields(&self) -> (r: Vec<Value>) {
        let r = vec![
            Value::Str(self.module.clone()),
            dict_value(&self.values),
        ];
        assert(models(r@) =~= self.fields());
        r
    }

    fn from_fields(entries: &Vec<Field>) -> (r: Self) {
        proof {
            lemma_entries_normal(Self::schema(), entries@);
            lemma_view_fields(entries@);
        }
        let r = CapabilityConfiguration {
            module: get_str(entries, 0),
            values: get_dict(entries, 1),
        };
        assert(r.fields() =~= values_of(view_fields(entries@)));
        r
    }

    proof fn lemma_normal(&self) {
        lemma_dict_normal(self.values@);
        lemma_normal_fields_from_index(Self::schema(), self.fields());
    }

    proof fn lemma_schema_wf() {
        reveal_strlit("module");
        reveal_strlit("values");
        lemma_collection_tys_wf();
        let s = Self::schema();
        assert(s[0].name == "module"@ && "module"@.len() == 6);
        assert(s[1].name == "values"@ && "values"@.len() == 6);
        assert("module"@[0] != "values"@[0]);
        assert(s[0].name != s[1].name);
        lemma_wf_fields_from_index(Self::schema());
    }
}

#[derive(Debug, Clone, PartialEq, Default)]
pub struct HealthCheckRequest {
    pub placeholder: bool,
}

impl Message for HealthCheckRequest {
    open spec fn schema() -> Seq<FieldTy> {
        seq![req("placeholder"@, Ty::Bool)]
    }

    open spec fn fields(&self) -> Seq<Val> {
        seq![Val::Bool(self.placeholder)]
    }

    fn kinds() -> (r: Vec<FieldKind>) {
        let r = vec![
            FieldKind { name: "placeholder", kind: Kind::Bool, optional: false },
        ];
        proof {
            lemma_tys_of(r@);
            assert(tys_of(r@) =~= Self::schema());
        }
        r
    }

    fn to_fields(&self) -> (r: Vec<Value>) {
        let r = vec![
            Value::Bool(self.placeholder),
        ];
        assert(models(r@) =~= self.fields());
        r
    }

    fn from_fields(entries: &Vec<Field>) -> (r: Self) {
        proof {
            lemma_entries_normal(Self::schema(), entries@);
            lemma_view_fields(entries@);
        }
        let r = HealthCheckRequest {
            placeholder: get_bool(entries, 0),
        };
        assert(r.fields() =~= values_of(view_fields(entries@)));
        r
    }

    proof fn lemma_normal(&self) {
        lemma_normal_fields_from_index(Self::schema(), self.fields());
    }

    proof fn lemma_schema_wf() {
        reveal_strlit("placeholder");
        lemma_wf_fields_from_index(Self::schema());
    }
}

#[derive(Debug, Clone, PartialEq, Default)]
pub struct HealthCheckResponse {
    pub healthy: bool,
    pub message: String,
}

impl Message for HealthCheckResponse {
    open spec fn schema() -> Seq<FieldTy> {
        seq![req("healthy"@, Ty::Bool), req("message"@, Ty::Str)]
    }

    open spec fn fields(&self) -> Seq<Val> {
        seq![Val::Bool(self.healthy), Val::Str(self.message@)]
    }

    fn kinds() -> (r: Vec<FieldKind>) {
        let r = vec![
            FieldKind { name: "healthy", kind: Kind::Bool, optional: false },
            FieldKind { name: "message", kind: Kind::Str, optional: false },
        ];
        proof {
            lemma_tys_of(r@);
            assert(tys_of(r@) =~= Self::schema());
        }
        r
    }

    fn to_fields(&self) -> (r: Vec<Value>) {
        let r = vec![
            Value::Bool(self.healthy),
            Value::Str(self.message.clone()),
        ];
        assert(models(r@) =~= self.fields());
        r
    }

    fn from_fields(entries: &Vec<Field>) -> (r: Self) {
        proof {
            lemma_entries_normal(Self::schema(), entries@);
            lemma_view_fields(entries@);
        }
        let r = HealthCheckResponse {
            healthy: get_bool(entries, 0),
            message: get_str(entries, 1),
        };
        assert(r.fields() =~= values_of(view_fields(entries@)));
        r
    }

    proof fn lemma_normal(&self) {
        lemma_normal_fields_from_index(Self::schema(), self.fields());
    }

    proof fn lemma_schema_wf() {
        reveal_strlit("healthy");
        reveal_strlit("message");
        let s = Self::schema();
        assert(s[0].name == "healthy"@ && "healthy"@.len() == 7);
        assert(s[1].name == "message"@ && "message"@.len() == 7);
        assert("healthy"@[0] != "message"@[0]);
        assert(s[0].name != s[1].name);
        lemma_wf_fields_from_index(Self::schema());
    }
}

impl HealthCheckResponse {
    /// A response that reports the actor healthy, with an empty message.
    pub fn healthy() -> (r: HealthCheckResponse)
        ensures
            r.healthy,
            r.message@ == Seq::<char>::empty(),
    {
        HealthCheckResponse { healthy: true, message: String::new() }
    }
}

/// Calls operation `operation` of another actor, named by `actor_ref`,
/// with an argument record, and reads its reply as a record of `R`. Hands
/// the host what `request` builds for the default binding.
pub fn call_actor<A: Message, R: Message>(actor_ref: &str, operation: &str, msg: &A) -> (r: Result<
    R,
    Error,
>)
    ensures
        proxied::<A, R>(msg.fields(), r),
{
    call(DEFAULT_BINDING, actor_ref, operation, msg)
}

} // verus!
