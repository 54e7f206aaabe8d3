//! The key-value store capability: its operations, message schemas, and a proxy for calling providers.
use vstd::prelude::*;
use crate::fieldkit::{
    get_bool, get_i32, get_str, get_str_list, i32_kind, i32_ty, lemma_collection_tys_wf,
    lemma_entries_normal, lemma_str_list_normal, req, str_list_kind, str_list_ty, str_list_val,
    str_list_value,
};
use crate::message::Message;
use crate::error::Error;
use crate::host::{perform, proxied, request, sends, HostRequest, DEFAULT_BINDING};
use crate::reader::{lemma_tys_of, tys_of, FieldKind, Kind};
use crate::schema::{lemma_normal_fields_from_index, lemma_wf_fields_from_index, values_of, FieldTy, Ty};
use crate::value::{lemma_view_fields, models, view_fields, Field, Val, Value};

verus! {

/// The contract that providers of this capability serve.
pub const CAPABILITY: &'static str = "wasmcloud:keyvalue";

pub const OP_ADD: &'static str = "Add";
pub const OP_GET: &'static str = "Get";
pub const OP_SET: &'static str = "Set";
pub const OP_DEL: &'static str = "Del";
pub const OP_CLEAR: &'static str = "Clear";
pub const OP_RANGE: &'static str = "Range";
pub const OP_PUSH: &'static str = "Push";
pub const OP_LIST_DEL: &'static str = "ListItemDelete";
pub const OP_SET_ADD: &'static str = "SetAdd";
pub const OP_SET_REMOVE: &'static str = "SetRemove";
pub const OP_SET_UNION: &'static str = "SetUnion";
pub const OP_SET_INTERSECT: &'static str = "SetIntersection";
pub const OP_SET_QUERY: &'static str = "SetQuery";
pub const OP_KEY_EXISTS: &'static str = "KeyExists";

#[derive(Debug, Clone, PartialEq, Default)]
pub struct GetArgs {
    pub key: String,
}

impl Message for GetArgs {
    open spec fn schema() -> Seq<FieldTy> {
        seq![req("key"@, Ty::Str)]
    }

    open spec fn fields(&self) -> Seq<Val> {
        seq![Val::Str(self.key@)]
    }

    fn kinds() -> (r: Vec<FieldKind>) {
        let r = vec![
            FieldKind { name: "key", kind: Kind::Str, optional: false },
        ];
        proof {
            lemma_tys_of(r@);
            assert(tys_of(r@) =~= Self::schema());
        }
        r
    }

    fn to_fields(&self) -> (r: Vec<Value>) {
        let r = vec![
            Value::Str(self.key.clone()),
        ];
        assert(models(r@) =~= self.fields());
        r
    }

    fn from_fields(entries: &Vec<Field>) -> (r: Self) {
        proof {
            lemma_entries_normal(Self::schema(), entries@);
            lemma_view_fields(entries@);
        }
        let r = GetArgs {
            key: get_str(entries, 0),
        };
        assert(r.fields() =~= values_of(view_fields(entries@)));
        r
    }

    proof fn lemma_normal(&self) {
        lemma_normal_fields_from_index(Self::schema(), self.fields());
    }

    proof fn lemma_schema_wf() {
        reveal_strlit("key");
        lemma_wf_fields_from_index(Self::schema());
    }
}

#[derive(Debug, Clone, PartialEq, Default)]
pub struct AddArgs {
    pub key: String,
    pub value: i32,
}

impl Message for AddArgs {
    open spec fn schema() -> Seq<FieldTy> {
        seq![req("key"@, Ty::Str), req("value"@, i32_ty())]
    }

    open spec fn fields(&self) -> Seq<Val> {
        seq![Val::Str(self.key@), Val::Int(self.value as int)]
    }

    fn kinds() -> (r: Vec<FieldKind>) {
        let r = vec![
            FieldKind { name: "key", kind: Kind::Str, optional: false },
            FieldKind { name: "value", kind: i32_kind(), optional: false },
        ];
        proof {
            lemma_tys_of(r@);
            assert(tys_of(r@) =~= Self::schema());
        }
        r
    }

    fn to_fields(&self) -> (r: Vec<Value>) {
        let r = vec![
            Value::Str(self.key.clone()),
            Value::Int(self.value as i64),
        ];
        assert(models(r@) =~= self.fields());
        r
    }

    fn from_fields(entries: &Vec<Field>) -> (r: Self) {
        proof {
            lemma_entries_normal(Self::schema(), entries@);
            lemma_view_fields(entries@);
        }
        let r = AddArgs {
            key: get_str(entries, 0),
            value: get_i32(entries, 1),
        };
        assert(r.fields() =~= values_of(view_fields(entries@)));
        r
    }

    proof fn lemma_normal(&self) {
        lemma_normal_fields_from_index(Self::schema(), self.fields());
    }

    proof fn lemma_schema_wf() {
        reveal_strlit("key");
        reveal_strlit("value");
        let s = Self::schema();
        assert(s[0].name == "key"@ && "key"@.len() == 3);
        assert(s[1].name == "value"@ && "value"@.len() == 5);
        assert(s[0].name != s[1].name);
        lemma_wf_fields_from_index(Self::schema());
    }
}

#[derive(Debug, Clone, PartialEq, Default)]
pub struct SetArgs {
    pub key: String,
    pub value: String,
    pub expires: i32,
}

impl Message for SetArgs {
    open spec fn schema() -> Seq<FieldTy> {
        seq![req("key"@, Ty::Str), req("value"@, Ty::Str), req("expires"@, i32_ty())]
    }

    open spec fn fields(&self) -> Seq<Val> {
        seq![Val::Str(self.key@), Val::Str(self.value@), Val::Int(self.expires as int)]
    }

    fn kinds() -> (r: Vec<FieldKind>) {
        let r = vec![
            FieldKind { name: "key", kind: Kind::Str, optional: false },
            FieldKind { name: "value", kind: Kind::Str, optional: false },
            FieldKind { name: "expires", kind: i32_kind(), optional: false },
        ];
        proof {
            lemma_tys_of(r@);
            assert(tys_of(r@) =~= Self::schema());
        }
        r
    }

    fn to_fields(&self) -> (r: Vec<Value>) {
        let r = vec![
            Value::Str(self.key.clone()),
            Value::Str(self.value.clone()),
            Value::Int(self.expires as i64),
        ];
        assert(models(r@) =~= self.fields());
        r
    }

    fn from_fields(entries: &Vec<Field>) -> (r: Self) {
        proof {
            lemma_entries_normal(Self::schema(), entries@);
            lemma_view_fields(entries@);
        }
        let r = SetArgs {
            key: get_str(entries, 0),
            value: get_str(entries, 1),
            expires: get_i32(entries, 2),
        };
        assert(r.fields() =~= values_of(view_fields(entries@)));
        r
    }

    proof fn lemma_normal(&self) {
        lemma_normal_fields_from_index(Self::schema(), self.fields());
    }

    proof fn lemma_schema_wf() {
        reveal_strlit("key");
        reveal_strlit("value");
        reveal_strlit("expires");
        let s = Self::schema();
        assert(s[0].name == "key"@ && "key"@.len() == 3);
        assert(s[1].name == "value"@ && "value"@.len() == 5);
        assert(s[2].name == "expires"@ && "expires"@.len() == 7);
        assert(s[0].name != s[1].name && s[0].name != s[2].name && s[1].name != s[2].name);
        lemma_wf_fields_from_index(Self::schema());
    }
}

#[derive(Debug, Clone, PartialEq, Default)]
pub struct DelArgs {
    pub key: String,
}

impl Message for DelArgs {
    open spec fn schema() -> Seq<FieldTy> {
        seq![req("key"@, Ty::Str)]
    }

    open spec fn fields(&self) -> Seq<Val> {
        seq![Val::Str(self.key@)]
    }

    fn kinds() -> (r: Vec<FieldKind>) {
        let r = vec![
            FieldKind { name: "key", kind: Kind::Str, optional: false },
        ];
        proof {
            lemma_tys_of(r@);
            assert(tys_of(r@) =~= Self::schema());
        }
        r
    }

    fn to_fields(&self) -> (r: Vec<Value>) {
        let r = vec![
            Value::Str(self.key.clone()),
        ];
        assert(models(r@) =~= self.fields());
        r
    }

    fn from_fields(entries: &Vec<Field>) -> (r: Self) {
        proof {
            lemma_entries_normal(Self::schema(), entries@);
            lemma_view_fields(entries@);
        }
        let r = DelArgs {
            key: get_str(entries, 0),
        };
        assert(r.fields() =~= values_of(view_fields(entries@)));
        r
    }

    proof fn lemma_normal(&self) {
        lemma_normal_fields_from_index(Self::schema(), self.fields());
    }

    proof fn lemma_schema_wf() {
        reveal_strlit("key");
        lemma_wf_fields_from_index(Self::schema());
    }
}

#[derive(Debug, Clone, PartialEq, Default)]
pub struct ClearArgs {
    pub key: String,
}

impl Message for ClearArgs {
    open spec fn schema() -> Seq<FieldTy> {
        seq![req("key"@, Ty::Str)]
    }

    open spec fn fields(&self) -> Seq<Val> {
        seq![Val::Str(self.key@)]
    }

    fn kinds() -> (r: Vec<FieldKind>) {
        let r = vec![
            FieldKind { name: "key", kind: Kind::Str, optional: false },
        ];
        proof {
            lemma_tys_of(r@);
            assert(tys_of(r@) =~= Self::schema());
        }
        r
    }

    fn to_fields(&self) -> (r: Vec<Value>) {
        let r = vec![
            Value::Str(self.key.clone()),
        ];
        assert(models(r@) =~= self.fields());
        r
    }

    fn from_fields(entries: &Vec<Field>) -> (r: Self) {
        proof {
            lemma_entries_normal(Self::schema(), entries@);
            lemma_view_fields(entries@);
        }
        let r = ClearArgs {
            key: get_str(entries, 0),
        };
        assert(r.fields() =~= values_of(view_fields(entries@)));
        r
    }

    proof fn lemma_normal(&self) {
        lemma_normal_fields_from_index(Self::schema(), self.fields());
    }

    proof fn lemma_schema_wf() {
        reveal_strlit("key");
        lemma_wf_fields_from_index(Self::schema());
    }
}

#[derive(Debug, Clone, PartialEq, Default)]
pub struct RangeArgs {
    pub key: String,
    pub start: i32,
    pub stop: i32,
}

impl Message for RangeArgs {
    open spec fn schema() -> Seq<FieldTy> {
        seq![req("key"@, Ty::Str), req("start"@, i32_ty()), req("stop"@, i32_ty())]
    }

    open spec fn fields(&self) -> Seq<Val> {
        seq![Val::Str(self.key@), Val::Int(self.start as int), Val::Int(self.stop as int)]
    }

    fn kinds() -> (r: Vec<FieldKind>) {
        let r = vec![
            FieldKind { name: "key", kind: Kind::Str, optional: false },
            FieldKind { name: "start", kind: i32_kind(), optional: false },
            FieldKind { name: "stop", kind: i32_kind(), optional: false },
        ];
        proof {
            lemma_tys_of(r@);
            assert(tys_of(r@) =~= Self::schema());
        }
        r
    }

    fn to_fields(&self) -> (r: Vec<Value>) {
        let r = vec![
            Value::Str(self.key.clone()),
            Value::Int(self.start as i64),
            Value::Int(self.stop as i64),
        ];
        assert(models(r@) =~= self.fields());
        r
    }

    fn from_fields(entries: &Vec<Field>) -> (r: Self) {
        proof {
            lemma_entries_normal(Self::schema(), entries@);
            lemma_view_fields(entries@);
        }
        let r = RangeArgs {
            key: get_str(entries, 0),
            start: get_i32(entries, 1),
            stop: get_i32(entries, 2),
        };
        assert(r.fields() =~= values_of(view_fields(entries@)));
        r
    }

    proof fn lemma_normal(&self) {
        lemma_normal_fields_from_index(Self::schema(), self.fields());
    }

    proof fn lemma_schema_wf() {
        reveal_strlit("key");
        reveal_strlit("start");
        reveal_strlit("stop");
        let s = Self::schema();
        assert(s[0].name == "key"@ && "key"@.len() == 3);
        assert(s[1].name == "start"@ && "start"@.len() == 5);
        assert(s[2].name == "stop"@ && "stop"@.len() == 4);
        assert(s[0].name != s[1].name && s[0].name != s[2].name && s[1].name != s[2].name);
        lemma_wf_fields_from_index(Self::schema());
    }
}

#[derive(Debug, Clone, PartialEq, Default)]
pub struct PushArgs {
    pub key: String,
    pub value: String,
}

impl Message for PushArgs {
    open spec fn schema() -> Seq<FieldTy> {
        seq![req("key"@, Ty::Str), req("value"@, Ty::Str)]
    }

    open spec fn fields(&self) -> Seq<Val> {
        seq![Val::Str(self.key@), Val::Str(self.value@)]
    }

    fn kinds() -> (r: Vec<FieldKind>) {
        let r = vec![
            FieldKind { name: "key", kind: Kind::Str, optional: false },
            FieldKind { name: "value", kind: Kind::Str, optional: false },
        ];
        proof {
            lemma_tys_of(r@);
            assert(tys_of(r@) =~= Self::schema());
        }
        r
    }

    fn to_fields(&self) -> (r: Vec<Value>) {
        let r = vec![
            Value::Str(self.key.clone()),
            Value::Str(self.value.clone()),
        ];
        assert(models(r@) =~= self.fields());
        r
    }

    fn from_fields(entries: &Vec<Field>) -> (r: Self) {
        proof {
            lemma_entries_normal(Self::schema(), entries@);
            lemma_view_fields(entries@);
        }
        let r = PushArgs {
            key: get_str(entries, 0),
            value: get_str(entries, 1),
        };
        assert(r.fields() =~= values_of(view_fields(entries@)));
        r
    }

    proof fn lemma_normal(&self) {
        lemma_normal_fields_from_index(Self::schema(), self.fields());
    }

    proof fn lemma_schema_wf() {
        reveal_strlit("key");
        reveal_strlit("value");
        let s = Self::schema();
        assert(s[0].name == "key"@ && "key"@.len() == 3);
        assert(s[1].name == "value"@ && "value"@.len() == 5);
        assert(s[0].name != s[1].name);
        lemma_wf_fields_from_index(Self::schema());
    }
}

#[derive(Debug, Clone, PartialEq, Default)]
pub struct ListItemDeleteArgs {
    pub key: String,
    pub value: String,
}

impl Message for ListItemDeleteArgs {
    open spec fn schema() -> Seq<FieldTy> {
        seq![req("key"@, Ty::Str), req("value"@, Ty::Str)]
    }

    open spec fn fields(&self) -> Seq<Val> {
        seq![Val::Str(self.key@), Val::Str(self.value@)]
    }

    fn kinds() -> (r: Vec<FieldKind>) {
        let r = vec![
            FieldKind { name: "key", kind: Kind::Str, optional: false },
            FieldKind { name: "value", kind: Kind::Str, optional: false },
        ];
        proof {
            lemma_tys_of(r@);
            assert(tys_of(r@) =~= Self::schema());
        }
        r
    }

    fn to_fields(&self) -> (r: Vec<Value>) {
        let r = vec![
            Value::Str(self.key.clone()),
            Value::Str(self.value.clone()),
        ];
        assert(models(r@) =~= self.fields());
        r
    }

    fn from_fields(entries: &Vec<Field>) -> (r: Self) {
        proof {
            lemma_entries_normal(Self::schema(), entries@);
            lemma_view_fields(entries@);
        }
        let r = ListItemDeleteArgs {
            key: get_str(entries, 0),
            value: get_str(entries, 1),
        };
        assert(r.fields() =~= values_of(view_fields(entries@)));
        r
    }

    proof fn lemma_normal(&self) {
        lemma_normal_fields_from_index(Self::schema(), self.fields());
    }

    proof fn lemma_schema_wf() {
        reveal_strlit("key");
        reveal_strlit("value");
        let s = Self::schema();
        assert(s[0].name == "key"@ && "key"@.len() == 3);
        assert(s[1].name == "value"@ && "value"@.len() == 5);
        assert(s[0].name != s[1].name);
        lemma_wf_fields_from_index(Self::schema());
    }
}

#[derive(Debug, Clone, PartialEq, Default)]
pub struct SetAddArgs {
    pub key: String,
    pub value: String,
}

impl Message for SetAddArgs {
    open spec fn schema() -> Seq<FieldTy> {
        seq![req("key"@, Ty::Str), req("value"@, Ty::Str)]
    }

    open spec fn fields(&self) -> Seq<Val> {
        seq![Val::Str(self.key@), Val::Str(self.value@)]
    }

    fn kinds() -> (r: Vec<FieldKind>) {
        let r = vec![
            FieldKind { name: "key", kind: Kind::Str, optional: false },
            FieldKind { name: "value", kind: Kind::Str, optional: false },
        ];
        proof {
            lemma_tys_of(r@);
            assert(tys_of(r@) =~= Self::schema());
        }
        r
    }

    fn to_fields(&self) -> (r: Vec<Value>) {
        let r = vec![
            Value::Str(self.key.clone()),
            Value::Str(self.value.clone()),
        ];
        assert(models(r@) =~= self.fields());
        r
    }

    fn from_fields(entries: &Vec<Field>) -> (r: Self) {
        proof {
            lemma_entries_normal(Self::schema(), entries@);
            lemma_view_fields(entries@);
        }
        let r = SetAddArgs {
            key: get_str(entries, 0),
            value: get_str(entries, 1),
        };
        assert(r.fields() =~= values_of(view_fields(entries@)));
        r
    }

    proof fn lemma_normal(&self) {
        lemma_normal_fields_from_index(Self::schema(), self.fields());
    }

    proof fn lemma_schema_wf() {
        reveal_strlit("key");
        reveal_strlit("value");
        let s = Self::schema();
        assert(s[0].name == "key"@ && "key"@.len() == 3);
        assert(s[1].name == "value"@ && "value"@.len() == 5);
        assert(s[0].name != s[1].name);
        lemma_wf_fields_from_index(Self::schema());
    }
}

#[derive(Debug, Clone, PartialEq, Default)]
pub struct SetRemoveArgs {
    pub key: String,
    pub value: String,
}

impl Message for SetRemoveArgs {
    open spec fn schema() -> Seq<FieldTy> {
        seq![req("key"@, Ty::Str), req("value"@, Ty::Str)]
    }

    open spec fn fields(&self) -> Seq<Val> {
        seq![Val::Str(self.key@), Val::Str(self.value@)]
    }

    fn kinds() -> (r: Vec<FieldKind>) {
        let r = vec![
            FieldKind { name: "key", kind: Kind::Str, optional: false },
            FieldKind { name: "value", kind: Kind::Str, optional: false },
        ];
        proof {
            lemma_tys_of(r@);
            assert(tys_of(r@) =~= Self::schema());
        }
        r
    }

    fn to_fields(&self) -> (r: Vec<Value>) {
        let r = vec![
            Value::Str(self.key.clone()),
            Value::Str(self.value.clone()),
        ];
        assert(models(r@) =~= self.fields());
        r
    }

    fn from_fields(entries: &Vec<Field>) -> (r: Self) {
        proof {
            lemma_entries_normal(Self::schema(), entries@);
            lemma_view_fields(entries@);
        }
        let r = SetRemoveArgs {
            key: get_str(entries, 0),
            value: get_str(entries, 1),
        };
        assert(r.fields() =~= values_of(view_fields(entries@)));
        r
    }

    proof fn lemma_normal(&self) {
        lemma_normal_fields_from_index(Self::schema(), self.fields());
    }

    proof fn lemma_schema_wf() {
        reveal_strlit("key");
        reveal_strlit("value");
        let s = Self::schema();
        assert(s[0].name == "key"@ && "key"@.len() == 3);
        assert(s[1].name == "value"@ && "value"@.len() == 5);
        assert(s[0].name != s[1].name);
        lemma_wf_fields_from_index(Self::schema());
    }
}

#[derive(Debug, Clone, PartialEq, Default)]
pub struct SetUnionArgs {
    pub keys: Vec<String>,
}

impl Message for SetUnionArgs {
    open spec fn schema() -> Seq<FieldTy> {
        seq![req("keys"@, str_list_ty())]
    }

    open spec fn fields(&self) -> Seq<Val> {
        seq![str_list_val(self.keys@)]
    }

    fn kinds() -> (r: Vec<FieldKind>) {
        let r = vec![
            FieldKind { name: "keys", kind: str_list_kind(), optional: false },
        ];
        proof {
            lemma_tys_of(r@);
            assert(tys_of(r@) =~= Self::schema());
        }
        r
    }

    fn to_fields(&self) -> (r: Vec<Value>) {
        let r = vec![
            str_list_value(&self.keys),
        ];
        assert(models(r@) =~= self.fields());
        r
    }

    fn from_fields(entries: &Vec<Field>) -> (r: Self) {
        proof {
            lemma_entries_normal(Self::schema(), entries@);
            lemma_view_fields(entries@);
        }
        let r = SetUnionArgs {
            keys: get_str_list(entries, 0),
        };
        assert(r.fields() =~= values_of(view_fields(entries@)));
        r
    }

    proof fn lemma_normal(&self) {
        lemma_str_list_normal(self.keys@);
        lemma_normal_fields_from_index(Self::schema(), self.fields());
    }

    proof fn lemma_schema_wf() {
        reveal_strlit("keys");
        lemma_collection_tys_wf();
        lemma_wf_fields_from_index(Self::schema());
    }
}

#[derive(Debug, Clone, PartialEq, Default)]
pub struct SetIntersectionArgs {
    pub keys: Vec<String>,
}

impl Message for SetIntersectionArgs {
    open spec fn schema() -> Seq<FieldTy> {
        seq![req("keys"@, str_list_ty())]
    }

    open spec fn fields(&self) -> Seq<Val> {
        seq![str_list_val(self.keys@)]
    }

    fn kinds() -> (r: Vec<FieldKind>) {
        let r = vec![
            FieldKind { name: "keys", kind: str_list_kind(), optional: false },
        ];
        proof {
            lemma_tys_of(r@);
            assert(tys_of(r@) =~= Self::schema());
        }
        r
    }

    fn to_fields(&self) -> (r: Vec<Value>) {
        let r = vec![
            str_list_value(&self.keys),
        ];
        assert(models(r@) =~= self.fields());
        r
    }

    fn from_fields(entries: &Vec<Field>) -> (r: Self) {
        proof {
            lemma_entries_normal(Self::schema(), entries@);
            lemma_view_fields(entries@);
        }
        let r = SetIntersectionArgs {
            keys: get_str_list(entries, 0),
        };
        assert(r.fields() =~= values_of(view_fields(entries@)));
        r
    }

    proof fn lemma_normal(&self) {
        lemma_str_list_normal(self.keys@);
        lemma_normal_fields_from_index(Self::schema(), self.fields());
    }

    proof fn lemma_schema_wf() {
        reveal_strlit("keys");
        lemma_collection_tys_wf();
        lemma_wf_fields_from_index(Self::schema());
    }
}

#[derive(Debug, Clone, PartialEq, Default)]
pub struct SetQueryArgs {
    pub key: String,
}

impl Message for SetQueryArgs {
    open spec fn schema() -> Seq<FieldTy> {
        seq![req("key"@, Ty::Str)]
    }

    open spec fn fields(&self) -> Seq<Val> {
        seq![Val::Str(self.key@)]
    }

    fn kinds() -> (r: Vec<FieldKind>) {
        let r = vec![
            FieldKind { name: "key", kind: Kind::Str, optional: false },
        ];
        proof {
            lemma_tys_of(r@);
            assert(tys_of(r@) =~= Self::schema());
        }
        r
    }

    fn to_fields(&self) -> (r: Vec<Value>) {
        let r = vec![
            Value::Str(self.key.clone()),
        ];
        assert(models(r@) =~= self.fields());
        r
    }

    fn from_fields(entries: &Vec<Field>) -> (r: Self) {
        proof {
            lemma_entries_normal(Self::schema(), entries@);
            lemma_view_fields(entries@);
        }
        let r = SetQueryArgs {
            key: get_str(entries, 0),
        };
        assert(r.fields() =~= values_of(view_fields(entries@)));
        r
    }

    proof fn lemma_normal(&self) {
        lemma_normal_fields_from_index(Self::schema(), self.fields());
    }

    proof fn lemma_schema_wf() {
        reveal_strlit("key");
        lemma_wf_fields_from_index(Self::schema());
    }
}

#[derive(Debug, Clone, PartialEq, Default)]
pub struct KeyExistsArgs {
    pub key: String,
}

impl Message for KeyExistsArgs {
    open spec fn schema() -> Seq<FieldTy> {
        seq![req("key"@, Ty::Str)]
    }

    open spec fn fields(&self) -> Seq<Val> {
        seq![Val::Str(self.key@)]
    }

    fn kinds() -> (r: Vec<FieldKind>) {
        let r = vec![
            FieldKind { name: "key", kind: Kind::Str, optional: false },
        ];
        proof {
            lemma_tys_of(r@);
            assert(tys_of(r@) =~= Self::schema());
        }
        r
    }

    fn to_fields(&self) -> (r: Vec<Value>) {
        let r = vec![
            Value::Str(self.key.clone()),
        ];
        assert(models(r@) =~= self.fields());
        r
    }

    fn from_fields(entries: &Vec<Field>) -> (r: Self) {
        proof {
            lemma_entries_normal(Self::schema(), entries@);
            lemma_view_fields(entries@);
        }
        let r = KeyExistsArgs {
            key: get_str(entries, 0),
        };
        assert(r.fields() =~= values_of(view_fields(entries@)));
        r
    }

    proof fn lemma_normal(&self) {
        lemma_normal_fields_from_index(Self::schema(), self.fields());
    }

    proof fn lemma_schema_wf() {
        reveal_strlit("key");
        lemma_wf_fields_from_index(Self::schema());
    }
}

/// Response type for Get operations.
#[derive(Debug, Clone, PartialEq, Default)]
pub struct GetResponse {
    pub value: String,
    pub exists: bool,
}

impl Message for GetResponse {
    open spec fn schema() -> Seq<FieldTy> {
        seq![req("value"@, Ty::Str), req("exists"@, Ty::Bool)]
    }

    open spec fn fields(&self) -> Seq<Val> {
        seq![Val::Str(self.value@), Val::Bool(self.exists)]
    }

    fn kinds() -> (r: Vec<FieldKind>) {
        let r = vec![
            FieldKind { name: "value", kind: Kind::Str, optional: false },
            FieldKind { name: "exists", kind: Kind::Bool, optional: false },
        ];
        proof {
            lemma_tys_of(r@);
            assert(tys_of(r@) =~= Self::schema());
        }
        r
    }

    fn to_fields(&self) -> (r: Vec<Value>) {
        let r = vec![
            Value::Str(self.value.clone()),
            Value::Bool(self.exists),
        ];
        assert(models(r@) =~= self.fields());
        r
    }

    fn from_fields(entries: &Vec<Field>) -> (r: Self) {
        proof {
            lemma_entries_normal(Self::schema(), entries@);
            lemma_view_fields(entries@);
        }
        let r = GetResponse {
            value: get_str(entries, 0),
            exists: get_bool(entries, 1),
        };
        assert(r.fields() =~= values_of(view_fields(entries@)));
        r
    }

    proof fn lemma_normal(&self) {
        lemma_normal_fields_from_index(Self::schema(), self.fields());
    }

    proof fn lemma_schema_wf() {
        reveal_strlit("value");
        reveal_strlit("exists");
        let s = Self::schema();
        assert(s[0].name == "value"@ && "value"@.len() == 5);
        assert(s[1].name == "exists"@ && "exists"@.len() == 6);
        assert(s[0].name != s[1].name);
        lemma_wf_fields_from_index(Self::schema());
    }
}

/// Response type for Add operations.
#[derive(Debug, Clone, PartialEq, Default)]
pub struct AddResponse {
    pub value: i32,
}

impl Message for AddResponse {
    open spec fn schema() -> Seq<FieldTy> {
        seq![req("value"@, i32_ty())]
    }

    open spec fn fields(&self) -> Seq<Val> {
        seq![Val::Int(self.value as int)]
    }

    fn kinds() -> (r: Vec<FieldKind>) {
        let r = vec![
            FieldKind { name: "value", kind: i32_kind(), optional: false },
        ];
        proof {
            lemma_tys_of(r@);
            assert(tys_of(r@) =~= Self::schema());
        }
        r
    }

    fn to_fields(&self) -> (r: Vec<Value>) {
        let r = vec![
            Value::Int(self.value as i64),
        ];
        assert(models(r@) =~= self.fields());
        r
    }

    fn from_fields(entries: &Vec<Field>) -> (r: Self) {
        proof {
            lemma_entries_normal(Self::schema(), entries@);
            lemma_view_fields(entries@);
        }
        let r = AddResponse {
            value: get_i32(entries, 0),
        };
        assert(r.fields() =~= values_of(view_fields(entries@)));
        r
    }

    proof fn lemma_normal(&self) {
        lemma_normal_fields_from_index(Self::schema(), self.fields());
    }

    proof fn lemma_schema_wf() {
        reveal_strlit("value");
        lemma_wf_fields_from_index(Self::schema());
    }
}

/// Response type for Delete operations.
#[derive(Debug, Clone, PartialEq, Default)]
pub struct DelResponse {
    pub key: String,
}

impl Message for DelResponse {
    open spec fn schema() -> Seq<FieldTy> {
        seq![req("key"@, Ty::Str)]
    }

    open spec fn fields(&self) -> Seq<Val> {
        seq![Val::Str(self.key@)]
    }

    fn kinds() -> (r: Vec<FieldKind>) {
        let r = vec![
            FieldKind { name: "key", kind: Kind::Str, optional: false },
        ];
        proof {
            lemma_tys_of(r@);
            assert(tys_of(r@) =~= Self::schema());
        }
        r
    }

    fn to_fields(&self) -> (r: Vec<Value>) {
        let r = vec![
            Value::Str(self.key.clone()),
        ];
        assert(models(r@) =~= self.fields());
        r
    }

    fn from_fields(entries: &Vec<Field>) -> (r: Self) {
        proof {
            lemma_entries_normal(Self::schema(), entries@);
            lemma_view_fields(entries@);
        }
        let r = DelResponse {
            key: get_str(entries, 0),
        };
        assert(r.fields() =~= values_of(view_fields(entries@)));
        r
    }

    proof fn lemma_normal(&self) {
        lemma_normal_fields_from_index(Self::schema(), self.fields());
    }

    proof fn lemma_schema_wf() {
        reveal_strlit("key");
        lemma_wf_fields_from_index(Self::schema());
    }
}

/// Response type for list range operations.
#[derive(Debug, Clone, PartialEq, Default)]
pub struct ListRangeResponse {
    pub values: Vec<String>,
}

impl Message for ListRangeResponse {
    open spec fn schema() -> Seq<FieldTy> {
        seq![req("values"@, str_list_ty())]
    }

    open spec fn fields(&self) -> Seq<Val> {
        seq![str_list_val(self.values@)]
    }

    fn kinds() -> (r: Vec<FieldKind>) {
        let r = vec![
            FieldKind { name: "values", kind: str_list_kind(), optional: false },
        ];
        proof {
            lemma_tys_of(r@);
            assert(tys_of(r@) =~= Self::schema());
        }
        r
    }

    fn to_fields(&self) -> (r: Vec<Value>) {
        let r = vec![
            str_list_value(&self.values),
        ];
        assert(models(r@) =~= self.fields());
        r
    }

    fn from_fields(entries: &Vec<Field>) -> (r: Self) {
        proof {
            lemma_entries_normal(Self::schema(), entries@);
            lemma_view_fields(entries@);
        }
        let r = ListRangeResponse {
            values: get_str_list(entries, 0),
        };
        assert(r.fields() =~= values_of(view_fields(entries@)));
        r
    }

    proof fn lemma_normal(&self) {
        lemma_str_list_normal(self.values@);
        lemma_normal_fields_from_index(Self::schema(), self.fields());
    }

    proof fn lemma_schema_wf() {
        reveal_strlit("values");
        lemma_collection_tys_wf();
        lemma_wf_fields_from_index(Self::schema());
    }
}

/// Response type for list push operations.
#[derive(Debug, Clone, PartialEq, Default)]
pub struct ListResponse {
    pub new_count: i32,
}

impl Message for ListResponse {
    open spec fn schema() -> Seq<FieldTy> {
        seq![req("newCount"@, i32_ty())]
    }

    open spec fn fields(&self) -> Seq<Val> {
        seq![Val::Int(self.new_count as int)]
    }

    fn kinds() -> (r: Vec<FieldKind>) {
        let r = vec![
            FieldKind { name: "newCount", kind: i32_kind(), optional: false },
        ];
        proof {
            lemma_tys_of(r@);
            assert(tys_of(r@) =~= Self::schema());
        }
        r
    }

    fn to_fields(&self) -> (r: Vec<Value>) {
        let r = vec![
            Value::Int(self.new_count as i64),
        ];
        assert(models(r@) =~= self.fields());
        r
    }

    fn from_fields(entries: &Vec<Field>) -> (r: Self) {
        proof {
            lemma_entries_normal(Self::schema(), entries@);
            lemma_view_fields(entries@);
        }
        let r = ListResponse {
            new_count: get_i32(entries, 0),
        };
        assert(r.fields() =~= values_of(view_fields(entries@)));
        r
    }

    proof fn lemma_normal(&self) {
        lemma_normal_fields_from_index(Self::schema(), self.fields());
    }

    proof fn lemma_schema_wf() {
        reveal_strlit("newCount");
        lemma_wf_fields_from_index(Self::schema());
    }
}

/// Response type for the Set operation (not the set data structure).
#[derive(Debug, Clone, PartialEq, Default)]
pub struct SetResponse {
    pub value: String,
}

impl Message for SetResponse {
    open spec fn schema() -> Seq<FieldTy> {
        seq![req("value"@, Ty::Str)]
    }

    open spec fn fields(&self) -> Seq<Val> {
        seq![Val::Str(self.value@)]
    }

    fn kinds() -> (r: Vec<FieldKind>) {
        let r = vec![
            FieldKind { name: "value", kind: Kind::Str, optional: false },
        ];
        proof {
            lemma_tys_of(r@);
            assert(tys_of(r@) =~= Self::schema());
        }
        r
    }

    fn to_fields(&self) -> (r: Vec<Value>) {
        let r = vec![
            Value::Str(self.value.clone()),
        ];
        assert(models(r@) =~= self.fields());
        r
    }

    fn from_fields(entries: &Vec<Field>) -> (r: Self) {
        proof {
            lemma_entries_normal(Self::schema(), entries@);
            lemma_view_fields(entries@);
        }
        let r = SetResponse {
            value: get_str(entries, 0),
        };
        assert(r.fields() =~= values_of(view_fields(entries@)));
        r
    }

    proof fn lemma_normal(&self) {
        lemma_normal_fields_from_index(Self::schema(), self.fields());
    }

    proof fn lemma_schema_wf() {
        reveal_strlit("value");
        lemma_wf_fields_from_index(Self::schema());
    }
}

/// Response type for set add and remove operations.
#[derive(Debug, Clone, PartialEq, Default)]
pub struct SetOperationResponse {
    pub new_count: i32,
}

impl Message for SetOperationResponse {
    open spec fn schema() -> Seq<FieldTy> {
        seq![req("new_count"@, i32_ty())]
    }

    open spec fn fields(&self) -> Seq<Val> {
        seq![Val::Int(self.new_count as int)]
    }

    fn kinds() -> (r: Vec<FieldKind>) {
        let r = vec![
            FieldKind { name: "new_count", kind: i32_kind(), optional: false },
        ];
        proof {
            lemma_tys_of(r@);
            assert(tys_of(r@) =~= Self::schema());
        }
        r
    }

    fn to_fields(&self) -> (r: Vec<Value>) {
        let r = vec![
            Value::Int(self.new_count as i64),
        ];
        assert(models(r@) =~= self.fields());
        r
    }

    fn from_fields(entries: &Vec<Field>) -> (r: Self) {
        proof {
            lemma_entries_normal(Self::schema(), entries@);
            lemma_view_fields(entries@);
        }
        let r = SetOperationResponse {
            new_count: get_i32(entries, 0),
        };
        assert(r.fields() =~= values_of(view_fields(entries@)));
        r
    }

    proof fn lemma_normal(&self) {
        lemma_normal_fields_from_index(Self::schema(), self.fields());
    }

    proof fn lemma_schema_wf() {
        reveal_strlit("new_count");
        lemma_wf_fields_from_index(Self::schema());
    }
}

/// Response type for set query operations.
#[derive(Debug, Clone, PartialEq, Default)]
pub struct SetQueryResponse {
    pub values: Vec<String>,
}

impl Message for SetQueryResponse {
    open spec fn schema() -> Seq<FieldTy> {
        seq![req("values"@, str_list_ty())]
    }

    open spec fn fields(&self) -> Seq<Val> {
        seq![str_list_val(self.values@)]
    }

    fn kinds() -> (r: Vec<FieldKind>) {
        let r = vec![
            FieldKind { name: "values", kind: str_list_kind(), optional: false },
        ];
        proof {
            lemma_tys_of(r@);
            assert(tys_of(r@) =~= Self::schema());
        }
        r
    }

    fn to_fields(&self) -> (r: Vec<Value>) {
        let r = vec![
            str_list_value(&self.values),
        ];
        assert(models(r@) =~= self.fields());
        r
    }

    fn from_fields(entries: &Vec<Field>) -> (r: Self) {
        proof {
            lemma_entries_normal(Self::schema(), entries@);
            lemma_view_fields(entries@);
        }
        let r = SetQueryResponse {
            values: get_str_list(entries, 0),
        };
        assert(r.fields() =~= values_of(view_fields(entries@)));
        r
    }

    proof fn lemma_normal(&self) {
        lemma_str_list_normal(self.values@);
        lemma_normal_fields_from_index(Self::schema(), self.fields());
    }

    proof fn lemma_schema_wf() {
        reveal_strlit("values");
        lemma_collection_tys_wf();
        lemma_wf_fields_from_index(Self::schema());
    }
}

/// A handle on a configured provider of this capability, named by its binding.
#[derive(Debug)]
pub struct Host {
    binding: String,
}

/// A handle on the provider configured under `binding`.
pub fn host(binding: &str) -> (r: Host)
    ensures
        r.spec_binding() == binding@,
{
    Host { binding: binding.to_owned() }
}

/// A handle on the provider configured under the default binding.
pub fn default() -> (r: Host)
    ensures
        r.spec_binding() == DEFAULT_BINDING@,
{
    host(DEFAULT_BINDING)
}

impl Host {
    pub closed spec fn spec_binding(&self) -> Seq<char> {
        self.binding@
    }

    /// The binding that names the provider.
    pub fn binding(&self) -> (r: &str)
        ensures
            r@ == self.spec_binding(),
    {
        self.binding.as_str()
    }

    /// The request that `get` hands to the host: an envelope of `args`
    /// for `OP_GET` under this binding.
    pub fn get_request(&self, args: &GetArgs) -> (r: Result<HostRequest, Error>)
        ensures
            sends::<GetArgs>(r, self.spec_binding(), CAPABILITY@, OP_GET@, args.fields()),
    {
        request(self.binding.as_str(), CAPABILITY, OP_GET, args)
    }

    /// Gets the value of a key; a key that does not exist is reported in the response, not as an error.
    /// Hands the host exactly what `get_request` builds.
    pub fn get(&self, key: String) -> (r: Result<GetResponse, Error>)
        ensures
            proxied::<GetArgs, GetResponse>((GetArgs { key }).fields(), r),
    {
        let args = GetArgs { key };
        match self.get_request(&args) {
            Ok(q) => perform(&q),
            Err(e) => Err(e),
        }
    }

    /// The request that `add` hands to the host: an envelope of `args`
    /// for `OP_ADD` under this binding.
    pub fn add_request(&self, args: &AddArgs) -> (r: Result<HostRequest, Error>)
        ensures
            sends::<AddArgs>(r, self.spec_binding(), CAPABILITY@, OP_ADD@, args.fields()),
    {
        request(self.binding.as_str(), CAPABILITY, OP_ADD, args)
    }

    /// Adds a number to the value of a key.
    /// Hands the host exactly what `add_request` builds.
    pub fn add(&self, key: String, value: i32) -> (r: Result<AddResponse, Error>)
        ensures
            proxied::<AddArgs, AddResponse>((AddArgs { key, value }).fields(), r),
    {
        let args = AddArgs { key, value };
        match self.add_request(&args) {
            Ok(q) => perform(&q),
            Err(e) => Err(e),
        }
    }

    /// The request that `set` hands to the host: an envelope of `args`
    /// for `OP_SET` under this binding.
    pub fn set_request(&self, args: &SetArgs) -> (r: Result<HostRequest, Error>)
        ensures
            sends::<SetArgs>(r, self.spec_binding(), CAPABILITY@, OP_SET@, args.fields()),
    {
        request(self.binding.as_str(), CAPABILITY, OP_SET, args)
    }

    /// Sets the value of a key.
    /// Hands the host exactly what `set_request` builds.
    pub fn set(&self, key: String, value: String, expires: i32) -> (r: Result<SetResponse, Error>)
        ensures
            proxied::<SetArgs, SetResponse>((SetArgs { key, value, expires }).fields(), r),
    {
        let args = SetArgs { key, value, expires };
        match self.set_request(&args) {
            Ok(q) => perform(&q),
            Err(e) => Err(e),
        }
    }

    /// The request that `del` hands to the host: an envelope of `args`
    /// for `OP_DEL` under this binding.
    pub fn del_request(&self, args: &DelArgs) -> (r: Result<HostRequest, Error>)
        ensures
            sends::<DelArgs>(r, self.spec_binding(), CAPABILITY@, OP_DEL@, args.fields()),
    {
        request(self.binding.as_str(), CAPABILITY, OP_DEL, args)
    }

    /// Deletes a key.
    /// Hands the host exactly what `del_request` builds.
    pub fn del(&self, key: String) -> (r: Result<DelResponse, Error>)
        ensures
            proxied::<DelArgs, DelResponse>((DelArgs { key }).fields(), r),
    {
        let args = DelArgs { key };
        match self.del_request(&args) {
            Ok(q) => perform(&q),
            Err(e) => Err(e),
        }
    }

    /// The request that `clear` hands to the host: an envelope of `args`
    /// for `OP_CLEAR` under this binding.
    pub fn clear_request(&self, args: &ClearArgs) -> (r: Result<HostRequest, Error>)
        ensures
            sends::<ClearArgs>(r, self.spec_binding(), CAPABILITY@, OP_CLEAR@, args.fields()),
    {
        request(self.binding.as_str(), CAPABILITY, OP_CLEAR, args)
    }

    /// Clears a list of its values; depending on the provider, this may delete the list.
    /// Hands the host exactly what `clear_request` builds.
    pub fn clear(&self, key: String) -> (r: Result<DelResponse, Error>)
        ensures
            proxied::<ClearArgs, DelResponse>((ClearArgs { key }).fields(), r),
    {
        let args = ClearArgs { key };
        match self.clear_request(&args) {
            Ok(q) => perform(&q),
            Err(e) => Err(e),
        }
    }

    /// The request that `range` hands to the host: an envelope of `args`
    /// for `OP_RANGE` under this binding.
    pub fn range_request(&self, args: &RangeArgs) -> (r: Result<HostRequest, Error>)
        ensures
            sends::<RangeArgs>(r, self.spec_binding(), CAPABILITY@, OP_RANGE@, args.fields()),
    {
        request(self.binding.as_str(), CAPABILITY, OP_RANGE, args)
    }

    /// Retrieves a range of values from a list; whether `start` and `stop` are inclusive depends on the provider.
    /// Hands the host exactly what `range_request` builds.
    pub fn range(&self, key: String, start: i32, stop: i32) -> (r: Result<ListRangeResponse, Error>)
        ensures
            proxied::<RangeArgs, ListRangeResponse>((RangeArgs { key, start, stop }).fields(), r),
    {
        let args = RangeArgs { key, start, stop };
        match self.range_request(&args) {
            Ok(q) => perform(&q),
            Err(e) => Err(e),
        }
    }

    /// The request that `push` hands to the host: an envelope of `args`
    /// for `OP_PUSH` under this binding.
    pub fn push_request(&self, args: &PushArgs) -> (r: Result<HostRequest, Error>)
        ensures
            sends::<PushArgs>(r, self.spec_binding(), CAPABILITY@, OP_PUSH@, args.fields()),
    {
        request(self.binding.as_str(), CAPABILITY, OP_PUSH, args)
    }

    /// Pushes a value onto a list.
    /// Hands the host exactly what `push_request` builds.
    pub fn push(&self, key: String, value: String) -> (r: Result<ListResponse, Error>)
        ensures
            proxied::<PushArgs, ListResponse>((PushArgs { key, value }).fields(), r),
    {
        let args = PushArgs { key, value };
        match self.push_request(&args) {
            Ok(q) => perform(&q),
            Err(e) => Err(e),
        }
    }

    /// The request that `list_item_delete` hands to the host: an envelope of `args`
    /// for `OP_LIST_DEL` under this binding.
    pub fn list_item_delete_request(&self, args: &ListItemDeleteArgs) -> (r: Result<HostRequest, Error>)
        ensures
            sends::<ListItemDeleteArgs>(r, self.spec_binding(), CAPABILITY@, OP_LIST_DEL@, args.fields()),
    {
        request(self.binding.as_str(), CAPABILITY, OP_LIST_DEL, args)
    }

    /// Deletes an item from a list.
    /// Hands the host exactly what `list_item_delete_request` builds.
    pub fn list_item_delete(&self, key: String, value: String) -> (r: Result<ListResponse, Error>)
        ensures
            proxied::<ListItemDeleteArgs, ListResponse>((ListItemDeleteArgs { key, value }).fields(), r),
    {
        let args = ListItemDeleteArgs { key, value };
        match self.list_item_delete_request(&args) {
            Ok(q) => perform(&q),
            Err(e) => Err(e),
        }
    }

    /// The request that `set_add` hands to the host: an envelope of `args`
    /// for `OP_SET_ADD` under this binding.
    pub fn set_add_request(&self, args: &SetAddArgs) -> (r: Result<HostRequest, Error>)
        ensures
            sends::<SetAddArgs>(r, self.spec_binding(), CAPABILITY@, OP_SET_ADD@, args.fields()),
    {
        request(self.binding.as_str(), CAPABILITY, OP_SET_ADD, args)
    }

    /// Adds an item to a set.
    /// Hands the host exactly what `set_add_request` builds.
    pub fn set_add(&self, key: String, value: String) -> (r: Result<SetOperationResponse, Error>)
        ensures
            proxied::<SetAddArgs, SetOperationResponse>((SetAddArgs { key, value }).fields(), r),
    {
        let args = SetAddArgs { key, value };
        match self.set_add_request(&args) {
            Ok(q) => perform(&q),
            Err(e) => Err(e),
        }
    }

    /// The request that `set_remove` hands to the host: an envelope of `args`
    /// for `OP_SET_REMOVE` under this binding.
    pub fn set_remove_request(&self, args: &SetRemoveArgs) -> (r: Result<HostRequest, Error>)
        ensures
            sends::<SetRemoveArgs>(r, self.spec_binding(), CAPABILITY@, OP_SET_REMOVE@, args.fields()),
    {
        request(self.binding.as_str(), CAPABILITY, OP_SET_REMOVE, args)
    }

    /// Removes an item from a set.
    /// Hands the host exactly what `set_remove_request` builds.
    pub fn set_remove(&self, key: String, value: String) -> (r: Result<SetOperationResponse, Error>)
        ensures
            proxied::<SetRemoveArgs, SetOperationResponse>((SetRemoveArgs { key, value }).fields(), r),
    {
        let args = SetRemoveArgs { key, value };
        match self.set_remove_request(&args) {
            Ok(q) => perform(&q),
            Err(e) => Err(e),
        }
    }

    /// The request that `set_union` hands to the host: an envelope of `args`
    /// for `OP_SET_UNION` under this binding.
    pub fn set_union_request(&self, args: &SetUnionArgs) -> (r: Result<HostRequest, Error>)
        ensures
            sends::<SetUnionArgs>(r, self.spec_binding(), CAPABILITY@, OP_SET_UNION@, args.fields()),
    {
        request(self.binding.as_str(), CAPABILITY, OP_SET_UNION, args)
    }

    /// The union of the sets under the given keys.
    /// Hands the host exactly what `set_union_request` builds.
    pub fn set_union(&self, keys: Vec<String>) -> (r: Result<SetQueryResponse, Error>)
        ensures
            proxied::<SetUnionArgs, SetQueryResponse>((SetUnionArgs { keys }).fields(), r),
    {
        let args = SetUnionArgs { keys };
        match self.set_union_request(&args) {
            Ok(q) => perform(&q),
            Err(e) => Err(e),
        }
    }

    /// The request that `set_intersection` hands to the host: an envelope of `args`
    /// for `OP_SET_INTERSECT` under this binding.
    pub fn set_intersection_request(&self, args: &SetIntersectionArgs) -> (r: Result<HostRequest, Error>)
        ensures
            sends::<SetIntersectionArgs>(r, self.spec_binding(), CAPABILITY@, OP_SET_INTERSECT@, args.fields()),
    {
        request(self.binding.as_str(), CAPABILITY, OP_SET_INTERSECT, args)
    }

    /// The intersection of the sets under the given keys.
    /// Hands the host exactly what `set_intersection_request` builds.
    pub fn set_intersection(&self, keys: Vec<String>) -> (r: Result<SetQueryResponse, Error>)
        ensures
            proxied::<SetIntersectionArgs, SetQueryResponse>((SetIntersectionArgs { keys }).fields(), r),
    {
        let args = SetIntersectionArgs { keys };
        match self.set_intersection_request(&args) {
            Ok(q) => perform(&q),
            Err(e) => Err(e),
        }
    }

    /// The request that `set_query` hands to the host: an envelope of `args`
    /// for `OP_SET_QUERY` under this binding.
    pub fn set_query_request(&self, args: &SetQueryArgs) -> (r: Result<HostRequest, Error>)
        ensures
            sends::<SetQueryArgs>(r, self.spec_binding(), CAPABILITY@, OP_SET_QUERY@, args.fields()),
    {
        request(self.binding.as_str(), CAPABILITY, OP_SET_QUERY, args)
    }

    /// The items of the set under a key.
    /// Hands the host exactly what `set_query_request` builds.
    pub fn set_query(&self, key: String) -> (r: Result<SetQueryResponse, Error>)
        ensures
            proxied::<SetQueryArgs, SetQueryResponse>((SetQueryArgs { key }).fields(), r),
    {
        let args = SetQueryArgs { key };
        match self.set_query_request(&args) {
            Ok(q) => perform(&q),
            Err(e) => Err(e),
        }
    }

    /// The request that `key_exists` hands to the host: an envelope of `args`
    /// for `OP_KEY_EXISTS` under this binding.
    pub fn key_exists_request(&self, args: &KeyExistsArgs) -> (r: Result<HostRequest, Error>)
        ensures
            sends::<KeyExistsArgs>(r, self.spec_binding(), CAPABILITY@, OP_KEY_EXISTS@, args.fields()),
    {
        request(self.binding.as_str(), CAPABILITY, OP_KEY_EXISTS, args)
    }

    /// Whether a key exists.
    /// Hands the host exactly what `key_exists_request` builds.
    pub fn key_exists(&self, key: String) -> (r: Result<GetResponse, Error>)
        ensures
            proxied::<KeyExistsArgs, GetResponse>((KeyExistsArgs { key }).fields(), r),
    {
        let args = KeyExistsArgs { key };
        match self.key_exists_request(&args) {
            Ok(q) => perform(&q),
            Err(e) => Err(e),
        }
    }
}

} // verus!
