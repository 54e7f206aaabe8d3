//! The blob store capability: its operations and message schemas.
use vstd::prelude::*;
use crate::fieldkit::{
    get_bin, get_bool, get_opt_str, get_str, get_u64, lemma_entries_normal, opt, opt_str_val,
    opt_str_value, req, u64_kind, u64_ty,
};
use crate::message::{
    get_record, get_record_list, lemma_record_list_normal, lemma_record_normal, lemma_record_ty_wf,
    record_kind, record_list_kind, record_list_ty, record_list_val, record_list_value, record_ty,
    record_val, to_value, Message,
};
use crate::error::Error;
use crate::host::{perform, proxied, request, sends, HostRequest, DEFAULT_BINDING};
use crate::reader::{lemma_tys_of, tys_of, FieldKind, Kind};
use crate::schema::{lemma_normal_fields_from_index, lemma_wf_fields_from_index, values_of, FieldTy, Ty};
use crate::value::{lemma_view_fields, models, view_fields, Field, Val, Value};

verus! {

/// The contract that providers of this capability serve.
pub const CAPABILITY: &'static str = "wasmcloud:blobstore";

pub const OP_CREATE_CONTAINER: &'static str = "CreateContainer";
pub const OP_REMOVE_CONTAINER: &'static str = "RemoveContainer";
pub const OP_REMOVE_OBJECT: &'static str = "RemoveObject";
pub const OP_LIST_OBJECTS: &'static str = "ListObjects";
pub const OP_UPLOAD_CHUNK: &'static str = "UploadChunk";
pub const OP_START_DOWNLOAD: &'static str = "StartDownload";
pub const OP_START_UPLOAD: &'static str = "StartUpload";
pub const OP_RECEIVE_CHUNK: &'static str = "ReceiveChunk";
pub const OP_GET_OBJECT_INFO: &'static str = "GetObjectInfo";

/// A logical grouping of blobs, like a directory.
#[derive(Debug, Clone, PartialEq, Default)]
pub struct Container {
    pub id: String,
}

impl Message for Container {
    open spec fn schema() -> Seq<FieldTy> {
        seq![req("id"@, Ty::Str)]
    }

    open spec fn fields(&self) -> Seq<Val> {
        seq![Val::Str(self.id@)]
    }

    fn kinds() -> (r: Vec<FieldKind>) {
        let r = vec![
            FieldKind { name: "id", kind: Kind::Str, optional: false },
        ];
        proof {
            lemma_tys_of(r@);
            assert(tys_of(r@) =~= Self::schema());
        }
        r
    }

    fn to_fields(&self) -> (r: Vec<Value>) {
        let r = vec![
            Value::Str(self.id.clone()),
        ];
        assert(models(r@) =~= self.fields());
        r
    }

    fn from_fields(entries: &Vec<Field>) -> (r: Self) {
        proof {
            lemma_entries_normal(Self::schema(), entries@);
            lemma_view_fields(entries@);
        }
        let r = Container {
            id: get_str(entries, 0),
        };
        assert(r.fields() =~= values_of(view_fields(entries@)));
        r
    }

    proof fn lemma_normal(&self) {
        lemma_normal_fields_from_index(Self::schema(), self.fields());
    }

    proof fn lemma_schema_wf() {
        reveal_strlit("id");
        lemma_wf_fields_from_index(Self::schema());
    }
}

/// A chunk of a file; its sequence number, sizes and context say where it belongs.
#[derive(Debug, Clone, PartialEq, Default)]
pub struct FileChunk {
    pub sequence_no: u64,
    pub container: Container,
    pub id: String,
    pub total_bytes: u64,
    pub chunk_size: u64,
    pub context: Option<String>,
    pub chunk_bytes: Vec<u8>,
}

impl Message for FileChunk {
    open spec fn schema() -> Seq<FieldTy> {
        seq![req("sequenceNo"@, u64_ty()), req("container"@, record_ty::<Container>()), req("id"@, Ty::Str), req("totalBytes"@, u64_ty()), req("chunkSize"@, u64_ty()), opt("context"@, Ty::Str), req("chunkBytes"@, Ty::Bin)]
    }

    open spec fn fields(&self) -> Seq<Val> {
        seq![Val::Int(self.sequence_no as int), record_val(self.container), Val::Str(self.id@), Val::Int(self.total_bytes as int), Val::Int(self.chunk_size as int), opt_str_val(self.context), Val::Bin(self.chunk_bytes@)]
    }

    fn kinds() -> (r: Vec<FieldKind>) {
        let r = vec![
            FieldKind { name: "sequenceNo", kind: u64_kind(), optional: false },
            FieldKind { name: "container", kind: record_kind::<Container>(), optional: false },
            FieldKind { name: "id", kind: Kind::Str, optional: false },
            FieldKind { name: "totalBytes", kind: u64_kind(), optional: false },
            FieldKind { name: "chunkSize", kind: u64_kind(), optional: false },
            FieldKind { name: "context", kind: Kind::Str, optional: true },
            FieldKind { name: "chunkBytes", kind: Kind::Bin, optional: false },
        ];
        proof {
            lemma_tys_of(r@);
            assert(tys_of(r@) =~= Self::schema());
        }
        r
    }

    fn to_fields(&self) -> (r: Vec<Value>) {
        let r = vec![
            Value::UInt(self.sequence_no),
            to_value(&self.container),
            Value::Str(self.id.clone()),
            Value::UInt(self.total_bytes),
            Value::UInt(self.chunk_size),
            opt_str_value(&self.context),
            Value::Bin(vstd::slice::slice_to_vec(self.chunk_bytes.as_slice())),
        ];
        assert(models(r@) =~= self.fields());
        r
    }

    fn from_fields(entries: &Vec<Field>) -> (r: Self) {
        proof {
            lemma_entries_normal(Self::schema(), entries@);
            lemma_view_fields(entries@);
        }
        let r = FileChunk {
            sequence_no: get_u64(entries, 0),
            container: get_record::<Container>(entries, 1),
            id: get_str(entries, 2),
            total_bytes: get_u64(entries, 3),
            chunk_size: get_u64(entries, 4),
            context: get_opt_str(entries, 5),
            chunk_bytes: get_bin(entries, 6),
        };
        assert(r.fields() =~= values_of(view_fields(entries@)));
        r
    }

    proof fn lemma_normal(&self) {
        lemma_record_normal(self.container);
        lemma_normal_fields_from_index(Self::schema(), self.fields());
    }

    proof fn lemma_schema_wf() {
        reveal_strlit("sequenceNo");
        reveal_strlit("container");
        reveal_strlit("id");
        reveal_strlit("totalBytes");
        reveal_strlit("chunkSize");
        reveal_strlit("context");
        reveal_strlit("chunkBytes");
        lemma_record_ty_wf::<Container>();
        let s = Self::schema();
        assert(s[0].name == "sequenceNo"@ && "sequenceNo"@.len() == 10);
        assert(s[1].name == "container"@ && "container"@.len() == 9);
        assert(s[2].name == "id"@ && "id"@.len() == 2);
        assert(s[3].name == "totalBytes"@ && "totalBytes"@.len() == 10);
        assert(s[4].name == "chunkSize"@ && "chunkSize"@.len() == 9);
        assert(s[5].name == "context"@ && "context"@.len() == 7);
        assert(s[6].name == "chunkBytes"@ && "chunkBytes"@.len() == 10);
        assert("sequenceNo"@[0] != "totalBytes"@[0]);
        assert("sequenceNo"@[0] != "chunkBytes"@[0]);
        assert("container"@[1] != "chunkSize"@[1]);
        assert("totalBytes"@[0] != "chunkBytes"@[0]);
        assert(s[0].name != s[1].name && s[0].name != s[2].name && s[0].name != s[3].name && s[0].name != s[4].name && s[0].name != s[5].name && s[0].name != s[6].name && s[1].name != s[2].name && s[1].name != s[3].name && s[1].name != s[4].name && s[1].name != s[5].name && s[1].name != s[6].name && s[2].name != s[3].name && s[2].name != s[4].name && s[2].name != s[5].name && s[2].name != s[6].name && s[3].name != s[4].name && s[3].name != s[5].name && s[3].name != s[6].name && s[4].name != s[5].name && s[4].name != s[6].name && s[5].name != s[6].name);
        lemma_wf_fields_from_index(Self::schema());
    }
}

#[derive(Debug, Clone, PartialEq, Default)]
pub struct CreateContainerArgs {
    pub id: String,
}

impl Message for CreateContainerArgs {
    open spec fn schema() -> Seq<FieldTy> {
        seq![req("id"@, Ty::Str)]
    }

    open spec fn fields(&self) -> Seq<Val> {
        seq![Val::Str(self.id@)]
    }

    fn kinds() -> (r: Vec<FieldKind>) {
        let r = vec![
            FieldKind { name: "id", kind: Kind::Str, optional: false },
        ];
        proof {
            lemma_tys_of(r@);
            assert(tys_of(r@) =~= Self::schema());
        }
        r
    }

    fn to_fields(&self) -> (r: Vec<Value>) {
        let r = vec![
            Value::Str(self.id.clone()),
        ];
        assert(models(r@) =~= self.fields());
        r
    }

    fn from_fields(entries: &Vec<Field>) -> (r: Self) {
        proof {
            lemma_entries_normal(Self::schema(), entries@);
            lemma_view_fields(entries@);
        }
        let r = CreateContainerArgs {
            id: get_str(entries, 0),
        };
        assert(r.fields() =~= values_of(view_fields(entries@)));
        r
    }

    proof fn lemma_normal(&self) {
        lemma_normal_fields_from_index(Self::schema(), self.fields());
    }

    proof fn lemma_schema_wf() {
        reveal_strlit("id");
        lemma_wf_fields_from_index(Self::schema());
    }
}

#[derive(Debug, Clone, PartialEq, Default)]
pub struct RemoveContainerArgs {
    pub id: String,
}

impl Message for RemoveContainerArgs {
    open spec fn schema() -> Seq<FieldTy> {
        seq![req("id"@, Ty::Str)]
    }

    open spec fn fields(&self) -> Seq<Val> {
        seq![Val::Str(self.id@)]
    }

    fn kinds() -> (r: Vec<FieldKind>) {
        let r = vec![
            FieldKind { name: "id", kind: Kind::Str, optional: false },
        ];
        proof {
            lemma_tys_of(r@);
            assert(tys_of(r@) =~= Self::schema());
        }
        r
    }

    fn to_fields(&self) -> (r: Vec<Value>) {
        let r = vec![
            Value::Str(self.id.clone()),
        ];
        assert(models(r@) =~= self.fields());
        r
    }

    fn from_fields(entries: &Vec<Field>) -> (r: Self) {
        proof {
            lemma_entries_normal(Self::schema(), entries@);
            lemma_view_fields(entries@);
        }
        let r = RemoveContainerArgs {
            id: get_str(entries, 0),
        };
        assert(r.fields() =~= values_of(view_fields(entries@)));
        r
    }

    proof fn lemma_normal(&self) {
        lemma_normal_fields_from_index(Self::schema(), self.fields());
    }

    proof fn lemma_schema_wf() {
        reveal_strlit("id");
        lemma_wf_fields_from_index(Self::schema());
    }
}

#[derive(Debug, Clone, PartialEq, Default)]
pub struct RemoveObjectArgs {
    pub id: String,
    pub container_id: String,
}

impl Message for RemoveObjectArgs {
    open spec fn schema() -> Seq<FieldTy> {
        seq![req("id"@, Ty::Str), req("container_id"@, Ty::Str)]
    }

    open spec fn fields(&self) -> Seq<Val> {
        seq![Val::Str(self.id@), Val::Str(self.container_id@)]
    }

    fn kinds() -> (r: Vec<FieldKind>) {
        let r = vec![
            FieldKind { name: "id", kind: Kind::Str, optional: false },
            FieldKind { name: "container_id", kind: Kind::Str, optional: false },
        ];
        proof {
            lemma_tys_of(r@);
            assert(tys_of(r@) =~= Self::schema());
        }
        r
    }

    fn to_fields(&self) -> (r: Vec<Value>) {
        let r = vec![
            Value::Str(self.id.clone()),
            Value::Str(self.container_id.clone()),
        ];
        assert(models(r@) =~= self.fields());
        r
    }

    fn from_fields(entries: &Vec<Field>) -> (r: Self) {
        proof {
            lemma_entries_normal(Self::schema(), entries@);
            lemma_view_fields(entries@);
        }
        let r = RemoveObjectArgs {
            id: get_str(entries, 0),
            container_id: get_str(entries, 1),
        };
        assert(r.fields() =~= values_of(view_fields(entries@)));
        r
    }

    proof fn lemma_normal(&self) {
        lemma_normal_fields_from_index(Self::schema(), self.fields());
    }

    proof fn lemma_schema_wf() {
        reveal_strlit("id");
        reveal_strlit("container_id");
        let s = Self::schema();
        assert(s[0].name == "id"@ && "id"@.len() == 2);
        assert(s[1].name == "container_id"@ && "container_id"@.len() == 12);
        assert(s[0].name != s[1].name);
        lemma_wf_fields_from_index(Self::schema());
    }
}

#[derive(Debug, Clone, PartialEq, Default)]
pub struct ListObjectsArgs {
    pub container_id: String,
}

impl Message for ListObjectsArgs {
    open spec fn schema() -> Seq<FieldTy> {
        seq![req("container_id"@, Ty::Str)]
    }

    open spec fn fields(&self) -> Seq<Val> {
        seq![Val::Str(self.container_id@)]
    }

    fn kinds() -> (r: Vec<FieldKind>) {
        let r = vec![
            FieldKind { name: "container_id", kind: Kind::Str, optional: false },
        ];
        proof {
            lemma_tys_of(r@);
            assert(tys_of(r@) =~= Self::schema());
        }
        r
    }

    fn to_fields(&self) -> (r: Vec<Value>) {
        let r = vec![
            Value::Str(self.container_id.clone()),
        ];
        assert(models(r@) =~= self.fields());
        r
    }

    fn from_fields(entries: &Vec<Field>) -> (r: Self) {
        proof {
            lemma_entries_normal(Self::schema(), entries@);
            lemma_view_fields(entries@);
        }
        let r = ListObjectsArgs {
            container_id: get_str(entries, 0),
        };
        assert(r.fields() =~= values_of(view_fields(entries@)));
        r
    }

    proof fn lemma_normal(&self) {
        lemma_normal_fields_from_index(Self::schema(), self.fields());
    }

    proof fn lemma_schema_wf() {
        reveal_strlit("container_id");
        lemma_wf_fields_from_index(Self::schema());
    }
}

#[derive(Debug, Clone, PartialEq, Default)]
pub struct UploadChunkArgs {
    pub chunk: FileChunk,
}

impl Message for UploadChunkArgs {
    open spec fn schema() -> Seq<FieldTy> {
        seq![req("chunk"@, record_ty::<FileChunk>())]
    }

    open spec fn fields(&self) -> Seq<Val> {
        seq![record_val(self.chunk)]
    }

    fn kinds() -> (r: Vec<FieldKind>) {
        let r = vec![
            FieldKind { name: "chunk", kind: record_kind::<FileChunk>(), optional: false },
        ];
        proof {
            lemma_tys_of(r@);
            assert(tys_of(r@) =~= Self::schema());
        }
        r
    }

    fn to_fields(&self) -> (r: Vec<Value>) {
        let r = vec![
            to_value(&self.chunk),
        ];
        assert(models(r@) =~= self.fields());
        r
    }

    fn from_fields(entries: &Vec<Field>) -> (r: Self) {
        proof {
            lemma_entries_normal(Self::schema(), entries@);
            lemma_view_fields(entries@);
        }
        let r = UploadChunkArgs {
            chunk: get_record::<FileChunk>(entries, 0),
        };
        assert(r.fields() =~= values_of(view_fields(entries@)));
        r
    }

    proof fn lemma_normal(&self) {
        lemma_record_normal(self.chunk);
        lemma_normal_fields_from_index(Self::schema(), self.fields());
    }

    proof fn lemma_schema_wf() {
        reveal_strlit("chunk");
        lemma_record_ty_wf::<FileChunk>();
        lemma_wf_fields_from_index(Self::schema());
    }
}

#[derive(Debug, Clone, PartialEq, Default)]
pub struct StartDownloadArgs {
    pub blob_id: String,
    pub container_id: String,
    pub chunk_size: u64,
    pub context: Option<String>,
}

impl Message for StartDownloadArgs {
    open spec fn schema() -> Seq<FieldTy> {
        seq![req("blob_id"@, Ty::Str), req("container_id"@, Ty::Str), req("chunk_size"@, u64_ty()), opt("context"@, Ty::Str)]
    }

    open spec fn fields(&self) -> Seq<Val> {
        seq![Val::Str(self.blob_id@), Val::Str(self.container_id@), Val::Int(self.chunk_size as int), opt_str_val(self.context)]
    }

    fn kinds() -> (r: Vec<FieldKind>) {
        let r = vec![
            FieldKind { name: "blob_id", kind: Kind::Str, optional: false },
            FieldKind { name: "container_id", kind: Kind::Str, optional: false },
            FieldKind { name: "chunk_size", kind: u64_kind(), optional: false },
            FieldKind { name: "context", kind: Kind::Str, optional: true },
        ];
        proof {
            lemma_tys_of(r@);
            assert(tys_of(r@) =~= Self::schema());
        }
        r
    }

    fn to_fields(&self) -> (r: Vec<Value>) {
        let r = vec![
            Value::Str(self.blob_id.clone()),
            Value::Str(self.container_id.clone()),
            Value::UInt(self.chunk_size),
            opt_str_value(&self.context),
        ];
        assert(models(r@) =~= self.fields());
        r
    }

    fn from_fields(entries: &Vec<Field>) -> (r: Self) {
        proof {
            lemma_entries_normal(Self::schema(), entries@);
            lemma_view_fields(entries@);
        }
        let r = StartDownloadArgs {
            blob_id: get_str(entries, 0),
            container_id: get_str(entries, 1),
            chunk_size: get_u64(entries, 2),
            context: get_opt_str(entries, 3),
        };
        assert(r.fields() =~= values_of(view_fields(entries@)));
        r
    }

    proof fn lemma_normal(&self) {
        lemma_normal_fields_from_index(Self::schema(), self.fields());
    }

    proof fn lemma_schema_wf() {
        reveal_strlit("blob_id");
        reveal_strlit("container_id");
        reveal_strlit("chunk_size");
        reveal_strlit("context");
        let s = Self::schema();
        assert(s[0].name == "blob_id"@ && "blob_id"@.len() == 7);
        assert(s[1].name == "container_id"@ && "container_id"@.len() == 12);
        assert(s[2].name == "chunk_size"@ && "chunk_size"@.len() == 10);
        assert(s[3].name == "context"@ && "context"@.len() == 7);
        assert("blob_id"@[0] != "context"@[0]);
        assert(s[0].name != s[1].name && s[0].name != s[2].name && s[0].name != s[3].name && s[1].name != s[2].name && s[1].name != s[3].name && s[2].name != s[3].name);
        lemma_wf_fields_from_index(Self::schema());
    }
}

#[derive(Debug, Clone, PartialEq, Default)]
pub struct StartUploadArgs {
    pub chunk: FileChunk,
}

impl Message for StartUploadArgs {
    open spec fn schema() -> Seq<FieldTy> {
        seq![req("chunk"@, record_ty::<FileChunk>())]
    }

    open spec fn fields(&self) -> Seq<Val> {
        seq![record_val(self.chunk)]
    }

    fn kinds() -> (r: Vec<FieldKind>) {
        let r = vec![
            FieldKind { name: "chunk", kind: record_kind::<FileChunk>(), optional: false },
        ];
        proof {
            lemma_tys_of(r@);
            assert(tys_of(r@) =~= Self::schema());
        }
        r
    }

    fn to_fields(&self) -> (r: Vec<Value>) {
        let r = vec![
            to_value(&self.chunk),
        ];
        assert(models(r@) =~= self.fields());
        r
    }

    fn from_fields(entries: &Vec<Field>) -> (r: Self) {
        proof {
            lemma_entries_normal(Self::schema(), entries@);
            lemma_view_fields(entries@);
        }
        let r = StartUploadArgs {
            chunk: get_record::<FileChunk>(entries, 0),
        };
        assert(r.fields() =~= values_of(view_fields(entries@)));
        r
    }

    proof fn lemma_normal(&self) {
        lemma_record_normal(self.chunk);
        lemma_normal_fields_from_index(Self::schema(), self.fields());
    }

    proof fn lemma_schema_wf() {
        reveal_strlit("chunk");
        lemma_record_ty_wf::<FileChunk>();
        lemma_wf_fields_from_index(Self::schema());
    }
}

#[derive(Debug, Clone, PartialEq, Default)]
pub struct GetObjectInfoArgs {
    pub blob_id: String,
    pub container_id: String,
}

impl Message for GetObjectInfoArgs {
    open spec fn schema() -> Seq<FieldTy> {
        seq![req("blob_id"@, Ty::Str), req("container_id"@, Ty::Str)]
    }

    open spec fn fields(&self) -> Seq<Val> {
        seq![Val::Str(self.blob_id@), Val::Str(self.container_id@)]
    }

    fn kinds() -> (r: Vec<FieldKind>) {
        let r = vec![
            FieldKind { name: "blob_id", kind: Kind::Str, optional: false },
            FieldKind { name: "container_id", kind: Kind::Str, optional: false },
        ];
        proof {
            lemma_tys_of(r@);
            assert(tys_of(r@) =~= Self::schema());
        }
        r
    }

    fn to_fields(&self) -> (r: Vec<Value>) {
        let r = vec![
            Value::Str(self.blob_id.clone()),
            Value::Str(self.container_id.clone()),
        ];
        assert(models(r@) =~= self.fields());
        r
    }

    fn from_fields(entries: &Vec<Field>) -> (r: Self) {
        proof {
            lemma_entries_normal(Self::schema(), entries@);
            lemma_view_fields(entries@);
        }
        let r = GetObjectInfoArgs {
            blob_id: get_str(entries, 0),
            container_id: get_str(entries, 1),
        };
        assert(r.fields() =~= values_of(view_fields(entries@)));
        r
    }

    proof fn lemma_normal(&self) {
        lemma_normal_fields_from_index(Self::schema(), self.fields());
    }

    proof fn lemma_schema_wf() {
        reveal_strlit("blob_id");
        reveal_strlit("container_id");
        let s = Self::schema();
        assert(s[0].name == "blob_id"@ && "blob_id"@.len() == 7);
        assert(s[1].name == "container_id"@ && "container_id"@.len() == 12);
        assert(s[0].name != s[1].name);
        lemma_wf_fields_from_index(Self::schema());
    }
}

#[derive(Debug, Clone, PartialEq, Default)]
pub struct ReceiveChunkArgs {
    pub chunk: FileChunk,
}

impl Message for ReceiveChunkArgs {
    open spec fn schema() -> Seq<FieldTy> {
        seq![req("chunk"@, record_ty::<FileChunk>())]
    }

    open spec fn fields(&self) -> Seq<Val> {
        seq![record_val(self.chunk)]
    }

    fn kinds() -> (r: Vec<FieldKind>) {
        let r = vec![
            FieldKind { name: "chunk", kind: record_kind::<FileChunk>(), optional: false },
        ];
        proof {
            lemma_tys_of(r@);
            assert(tys_of(r@) =~= Self::schema());
        }
        r
    }

    fn to_fields(&self) -> (r: Vec<Value>) {
        let r = vec![
            to_value(&self.chunk),
        ];
        assert(models(r@) =~= self.fields());
        r
    }

    fn from_fields(entries: &Vec<Field>) -> (r: Self) {
        proof {
            lemma_entries_normal(Self::schema(), entries@);
            lemma_view_fields(entries@);
        }
        let r = ReceiveChunkArgs {
            chunk: get_record::<FileChunk>(entries, 0),
        };
        assert(r.fields() =~= values_of(view_fields(entries@)));
        r
    }

    proof fn lemma_normal(&self) {
        lemma_record_normal(self.chunk);
        lemma_normal_fields_from_index(Self::schema(), self.fields());
    }

    proof fn lemma_schema_wf() {
        reveal_strlit("chunk");
        lemma_record_ty_wf::<FileChunk>();
        lemma_wf_fields_from_index(Self::schema());
    }
}

/// A list of containers.
#[derive(Debug, Clone, PartialEq, Default)]
pub struct ContainerList {
    pub containers: Vec<Container>,
}

impl Message for ContainerList {
    open spec fn schema() -> Seq<FieldTy> {
        seq![req("containers"@, record_list_ty::<Container>())]
    }

    open spec fn fields(&self) -> Seq<Val> {
        seq![record_list_val(self.containers@)]
    }

    fn kinds() -> (r: Vec<FieldKind>) {
        let r = vec![
            FieldKind { name: "containers", kind: record_list_kind::<Container>(), optional: false },
        ];
        proof {
            lemma_tys_of(r@);
            assert(tys_of(r@) =~= Self::schema());
        }
        r
    }

    fn to_fields(&self) -> (r: Vec<Value>) {
        let r = vec![
            record_list_value(&self.containers),
        ];
        assert(models(r@) =~= self.fields());
        r
    }

    fn from_fields(entries: &Vec<Field>) -> (r: Self) {
        proof {
            lemma_entries_normal(Self::schema(), entries@);
            lemma_view_fields(entries@);
        }
        let r = ContainerList {
            containers: get_record_list::<Container>(entries, 0),
        };
        assert(r.fields() =~= values_of(view_fields(entries@)));
        r
    }

    proof fn lemma_normal(&self) {
        lemma_record_list_normal(self.containers@);
        lemma_normal_fields_from_index(Self::schema(), self.fields());
    }

    proof fn lemma_schema_wf() {
        reveal_strlit("containers");
        lemma_record_ty_wf::<Container>();
        lemma_wf_fields_from_index(Self::schema());
    }
}

/// An object in a blob store, like a file.
#[derive(Debug, Clone, PartialEq, Default)]
pub struct Blob {
    pub id: String,
    pub container: Container,
    pub byte_size: u64,
}

impl Message for Blob {
    open spec fn schema() -> Seq<FieldTy> {
        seq![req("id"@, Ty::Str), req("container"@, record_ty::<Container>()), req("byteSize"@, u64_ty())]
    }

    open spec fn fields(&self) -> Seq<Val> {
        seq![Val::Str(self.id@), record_val(self.container), Val::Int(self.byte_size as int)]
    }

    fn kinds() -> (r: Vec<FieldKind>) {
        let r = vec![
            FieldKind { name: "id", kind: Kind::Str, optional: false },
            FieldKind { name: "container", kind: record_kind::<Container>(), optional: false },
            FieldKind { name: "byteSize", kind: u64_kind(), optional: false },
        ];
        proof {
            lemma_tys_of(r@);
            assert(tys_of(r@) =~= Self::schema());
        }
        r
    }

    fn to_fields(&self) -> (r: Vec<Value>) {
        let r = vec![
            Value::Str(self.id.clone()),
            to_value(&self.container),
            Value::UInt(self.byte_size),
        ];
        assert(models(r@) =~= self.fields());
        r
    }

    fn from_fields(entries: &Vec<Field>) -> (r: Self) {
        proof {
            lemma_entries_normal(Self::schema(), entries@);
            lemma_view_fields(entries@);
        }
        let r = Blob {
            id: get_str(entries, 0),
            container: get_record::<Container>(entries, 1),
            byte_size: get_u64(entries, 2),
        };
        assert(r.fields() =~= values_of(view_fields(entries@)));
        r
    }

    proof fn lemma_normal(&self) {
        lemma_record_normal(self.container);
        lemma_normal_fields_from_index(Self::schema(), self.fields());
    }

    proof fn lemma_schema_wf() {
        reveal_strlit("id");
        reveal_strlit("container");
        reveal_strlit("byteSize");
        lemma_record_ty_wf::<Container>();
        let s = Self::schema();
        assert(s[0].name == "id"@ && "id"@.len() == 2);
        assert(s[1].name == "container"@ && "container"@.len() == 9);
        assert(s[2].name == "byteSize"@ && "byteSize"@.len() == 8);
        assert(s[0].name != s[1].name && s[0].name != s[2].name && s[1].name != s[2].name);
        lemma_wf_fields_from_index(Self::schema());
    }
}

/// A list of blobs.
#[derive(Debug, Clone, PartialEq, Default)]
pub struct BlobList {
    pub blobs: Vec<Blob>,
}

impl Message for BlobList {
    open spec fn schema() -> Seq<FieldTy> {
        seq![req("blobs"@, record_list_ty::<Blob>())]
    }

    open spec fn fields(&self) -> Seq<Val> {
        seq![record_list_val(self.blobs@)]
    }

    fn kinds() -> (r: Vec<FieldKind>) {
        let r = vec![
            FieldKind { name: "blobs", kind: record_list_kind::<Blob>(), optional: false },
        ];
        proof {
            lemma_tys_of(r@);
            assert(tys_of(r@) =~= Self::schema());
        }
        r
    }

    fn to_fields(&self) -> (r: Vec<Value>) {
        let r = vec![
            record_list_value(&self.blobs),
        ];
        assert(models(r@) =~= self.fields());
        r
    }

    fn from_fields(entries: &Vec<Field>) -> (r: Self) {
        proof {
            lemma_entries_normal(Self::schema(), entries@);
            lemma_view_fields(entries@);
        }
        let r = BlobList {
            blobs: get_record_list::<Blob>(entries, 0),
        };
        assert(r.fields() =~= values_of(view_fields(entries@)));
        r
    }

    proof fn lemma_normal(&self) {
        lemma_record_list_normal(self.blobs@);
        lemma_normal_fields_from_index(Self::schema(), self.fields());
    }

    proof fn lemma_schema_wf() {
        reveal_strlit("blobs");
        lemma_record_ty_wf::<Blob>();
        lemma_wf_fields_from_index(Self::schema());
    }
}

#[derive(Debug, Clone, PartialEq, Default)]
pub struct Transfer {
    pub blob_id: String,
    pub container: Container,
    pub chunk_size: u64,
    pub total_size: u64,
    pub total_chunks: u64,
    pub context: Option<String>,
}

impl Message for Transfer {
    open spec fn schema() -> Seq<FieldTy> {
        seq![req("blobId"@, Ty::Str), req("container"@, record_ty::<Container>()), req("chunkSize"@, u64_ty()), req("totalSize"@, u64_ty()), req("totalChunks"@, u64_ty()), opt("context"@, Ty::Str)]
    }

    open spec fn fields(&self) -> Seq<Val> {
        seq![Val::Str(self.blob_id@), record_val(self.container), Val::Int(self.chunk_size as int), Val::Int(self.total_size as int), Val::Int(self.total_chunks as int), opt_str_val(self.context)]
    }

    fn kinds() -> (r: Vec<FieldKind>) {
        let r = vec![
            FieldKind { name: "blobId", kind: Kind::Str, optional: false },
            FieldKind { name: "container", kind: record_kind::<Container>(), optional: false },
            FieldKind { name: "chunkSize", kind: u64_kind(), optional: false },
            FieldKind { name: "totalSize", kind: u64_kind(), optional: false },
            FieldKind { name: "totalChunks", kind: u64_kind(), optional: false },
            FieldKind { name: "context", kind: Kind::Str, optional: true },
        ];
        proof {
            lemma_tys_of(r@);
            assert(tys_of(r@) =~= Self::schema());
        }
        r
    }

    fn to_fields(&self) -> (r: Vec<Value>) {
        let r = vec![
            Value::Str(self.blob_id.clone()),
            to_value(&self.container),
            Value::UInt(self.chunk_size),
            Value::UInt(self.total_size),
            Value::UInt(self.total_chunks),
            opt_str_value(&self.context),
        ];
        assert(models(r@) =~= self.fields());
        r
    }

    fn from_fields(entries: &Vec<Field>) -> (r: Self) {
        proof {
            lemma_entries_normal(Self::schema(), entries@);
            lemma_view_fields(entries@);
        }
        let r = Transfer {
            blob_id: get_str(entries, 0),
            container: get_record::<Container>(entries, 1),
            chunk_size: get_u64(entries, 2),
            total_size: get_u64(entries, 3),
            total_chunks: get_u64(entries, 4),
            context: get_opt_str(entries, 5),
        };
        assert(r.fields() =~= values_of(view_fields(entries@)));
        r
    }

    proof fn lemma_normal(&self) {
        lemma_record_normal(self.container);
        lemma_normal_fields_from_index(Self::schema(), self.fields());
    }

    proof fn lemma_schema_wf() {
        reveal_strlit("blobId");
        reveal_strlit("container");
        reveal_strlit("chunkSize");
        reveal_strlit("totalSize");
        reveal_strlit("totalChunks");
        reveal_strlit("context");
        lemma_record_ty_wf::<Container>();
        let s = Self::schema();
        assert(s[0].name == "blobId"@ && "blobId"@.len() == 6);
        assert(s[1].name == "container"@ && "container"@.len() == 9);
        assert(s[2].name == "chunkSize"@ && "chunkSize"@.len() == 9);
        assert(s[3].name == "totalSize"@ && "totalSize"@.len() == 9);
        assert(s[4].name == "totalChunks"@ && "totalChunks"@.len() == 11);
        assert(s[5].name == "context"@ && "context"@.len() == 7);
        assert("container"@[1] != "chunkSize"@[1]);
        assert("container"@[0] != "totalSize"@[0]);
        assert("chunkSize"@[0] != "totalSize"@[0]);
        assert(s[0].name != s[1].name && s[0].name != s[2].name && s[0].name != s[3].name && s[0].name != s[4].name && s[0].name != s[5].name && s[1].name != s[2].name && s[1].name != s[3].name && s[1].name != s[4].name && s[1].name != s[5].name && s[2].name != s[3].name && s[2].name != s[4].name && s[2].name != s[5].name && s[3].name != s[4].name && s[3].name != s[5].name && s[4].name != s[5].name);
        lemma_wf_fields_from_index(Self::schema());
    }
}

/// Success or error of a blob store operation.
#[derive(Debug, Clone, PartialEq, Default)]
pub struct BlobstoreResult {
    pub success: bool,
    pub error: Option<String>,
}

impl Message for BlobstoreResult {
    open spec fn schema() -> Seq<FieldTy> {
        seq![req("success"@, Ty::Bool), opt("error"@, Ty::Str)]
    }

    open spec fn fields(&self) -> Seq<Val> {
        seq![Val::Bool(self.success), opt_str_val(self.error)]
    }

    fn kinds() -> (r: Vec<FieldKind>) {
        let r = vec![
            FieldKind { name: "success", kind: Kind::Bool, optional: false },
            FieldKind { name: "error", kind: Kind::Str, optional: true },
        ];
        proof {
            lemma_tys_of(r@);
            assert(tys_of(r@) =~= Self::schema());
        }
        r
    }

    fn to_fields(&self) -> (r: Vec<Value>) {
        let r = vec![
            Value::Bool(self.success),
            opt_str_value(&self.error),
        ];
        assert(models(r@) =~= self.fields());
        r
    }

    fn from_fields(entries: &Vec<Field>) -> (r: Self) {
        proof {
            lemma_entries_normal(Self::schema(), entries@);
            lemma_view_fields(entries@);
        }
        let r = BlobstoreResult {
            success: get_bool(entries, 0),
            error: get_opt_str(entries, 1),
        };
        assert(r.fields() =~= values_of(view_fields(entries@)));
        r
    }

    proof fn lemma_normal(&self) {
        lemma_normal_fields_from_index(Self::schema(), self.fields());
    }

    proof fn lemma_schema_wf() {
        reveal_strlit("success");
        reveal_strlit("error");
        let s = Self::schema();
        assert(s[0].name == "success"@ && "success"@.len() == 7);
        assert(s[1].name == "error"@ && "error"@.len() == 5);
        assert(s[0].name != s[1].name);
        lemma_wf_fields_from_index(Self::schema());
    }
}

/// A handle on a configured provider of this capability, named by its binding.
#[derive(Debug)]
pub struct Host {
    binding: String,
}

/// A handle on the provider configured under `binding`.
pub fn host(binding: &str) -> (r: Host)
    ensures
        r.spec_binding() == binding@,
{
    Host { binding: binding.to_owned() }
}

/// A handle on the provider configured under the default binding.
pub fn default() -> (r: Host)
    ensures
        r.spec_binding() == DEFAULT_BINDING@,
{
    host(DEFAULT_BINDING)
}

impl Host {
    pub closed spec fn spec_binding(&self) -> Seq<char> {
        self.binding@
    }

    /// The binding that names the provider.
    pub fn binding(&self) -> (r: &str)
        ensures
            r@ == self.spec_binding(),
    {
        self.binding.as_str()
    }

    /// The request that `create_container` hands to the host: an envelope of `args`
    /// for `OP_CREATE_CONTAINER` under this binding.
    pub fn create_container_request(&self, args: &CreateContainerArgs) -> (r: Result<HostRequest, Error>)
        ensures
            sends::<CreateContainerArgs>(r, self.spec_binding(), CAPABILITY@, OP_CREATE_CONTAINER@, args.fields()),
    {
        request(self.binding.as_str(), CAPABILITY, OP_CREATE_CONTAINER, args)
    }

    /// Creates a container; returns the container created.
    /// Hands the host exactly what `create_container_request` builds.
    pub fn create_container(&self, id: String) -> (r: Result<Container, Error>)
        ensures
            proxied::<CreateContainerArgs, Container>((CreateContainerArgs { id }).fields(), r),
    {
        let args = CreateContainerArgs { id };
        match self.create_container_request(&args) {
            Ok(q) => perform(&q),
            Err(e) => Err(e),
        }
    }

    /// The request that `remove_container` hands to the host: an envelope of `args`
    /// for `OP_REMOVE_CONTAINER` under this binding.
    pub fn remove_container_request(&self, args: &RemoveContainerArgs) -> (r: Result<HostRequest, Error>)
        ensures
            sends::<RemoveContainerArgs>(r, self.spec_binding(), CAPABILITY@, OP_REMOVE_CONTAINER@, args.fields()),
    {
        request(self.binding.as_str(), CAPABILITY, OP_REMOVE_CONTAINER, args)
    }

    /// Removes a container.
    /// Hands the host exactly what `remove_container_request` builds.
    pub fn remove_container(&self, id: String) -> (r: Result<BlobstoreResult, Error>)
        ensures
            proxied::<RemoveContainerArgs, BlobstoreResult>((RemoveContainerArgs { id }).fields(), r),
    {
        let args = RemoveContainerArgs { id };
        match self.remove_container_request(&args) {
            Ok(q) => perform(&q),
            Err(e) => Err(e),
        }
    }

    /// The request that `remove_object` hands to the host: an envelope of `args`
    /// for `OP_REMOVE_OBJECT` under this binding.
    pub fn remove_object_request(&self, args: &RemoveObjectArgs) -> (r: Result<HostRequest, Error>)
        ensures
            sends::<RemoveObjectArgs>(r, self.spec_binding(), CAPABILITY@, OP_REMOVE_OBJECT@, args.fields()),
    {
        request(self.binding.as_str(), CAPABILITY, OP_REMOVE_OBJECT, args)
    }

    /// Removes an object from a container.
    /// Hands the host exactly what `remove_object_request` builds.
    pub fn remove_object(&self, id: String, container_id: String) -> (r: Result<BlobstoreResult, Error>)
        ensures
            proxied::<RemoveObjectArgs, BlobstoreResult>((RemoveObjectArgs { id, container_id }).fields(), r),
    {
        let args = RemoveObjectArgs { id, container_id };
        match self.remove_object_request(&args) {
            Ok(q) => perform(&q),
            Err(e) => Err(e),
        }
    }

    /// The request that `list_objects` hands to the host: an envelope of `args`
    /// for `OP_LIST_OBJECTS` under this binding.
    pub fn list_objects_request(&self, args: &ListObjectsArgs) -> (r: Result<HostRequest, Error>)
        ensures
            sends::<ListObjectsArgs>(r, self.spec_binding(), CAPABILITY@, OP_LIST_OBJECTS@, args.fields()),
    {
        request(self.binding.as_str(), CAPABILITY, OP_LIST_OBJECTS, args)
    }

    /// Lists the blobs in a container.
    /// Hands the host exactly what `list_objects_request` builds.
    pub fn list_objects(&self, container_id: String) -> (r: Result<BlobList, Error>)
        ensures
            proxied::<ListObjectsArgs, BlobList>((ListObjectsArgs { container_id }).fields(), r),
    {
        let args = ListObjectsArgs { container_id };
        match self.list_objects_request(&args) {
            Ok(q) => perform(&q),
            Err(e) => Err(e),
        }
    }

    /// The request that `upload_chunk` hands to the host: an envelope of `args`
    /// for `OP_UPLOAD_CHUNK` under this binding.
    pub fn upload_chunk_request(&self, args: &UploadChunkArgs) -> (r: Result<HostRequest, Error>)
        ensures
            sends::<UploadChunkArgs>(r, self.spec_binding(), CAPABILITY@, OP_UPLOAD_CHUNK@, args.fields()),
    {
        request(self.binding.as_str(), CAPABILITY, OP_UPLOAD_CHUNK, args)
    }

    /// Uploads a chunk of a file, after the upload has been started.
    /// Hands the host exactly what `upload_chunk_request` builds.
    pub fn upload_chunk(&self, chunk: FileChunk) -> (r: Result<BlobstoreResult, Error>)
        ensures
            proxied::<UploadChunkArgs, BlobstoreResult>((UploadChunkArgs { chunk }).fields(), r),
    {
        let args = UploadChunkArgs { chunk };
        match self.upload_chunk_request(&args) {
            Ok(q) => perform(&q),
            Err(e) => Err(e),
        }
    }

    /// The request that `start_download` hands to the host: an envelope of `args`
    /// for `OP_START_DOWNLOAD` under this binding.
    pub fn start_download_request(&self, args: &StartDownloadArgs) -> (r: Result<HostRequest, Error>)
        ensures
            sends::<StartDownloadArgs>(r, self.spec_binding(), CAPABILITY@, OP_START_DOWNLOAD@, args.fields()),
    {
        request(self.binding.as_str(), CAPABILITY, OP_START_DOWNLOAD, args)
    }

    /// Starts a download; its chunks are delivered to the handler of `ReceiveChunk`.
    /// Hands the host exactly what `start_download_request` builds.
    pub fn start_download(&self, blob_id: String, container_id: String, chunk_size: u64, context: Option<String>) -> (r: Result<BlobstoreResult, Error>)
        ensures
            proxied::<StartDownloadArgs, BlobstoreResult>((StartDownloadArgs { blob_id, container_id, chunk_size, context }).fields(), r),
    {
        let args = StartDownloadArgs { blob_id, container_id, chunk_size, context };
        match self.start_download_request(&args) {
            Ok(q) => perform(&q),
            Err(e) => Err(e),
        }
    }

    /// The request that `start_upload` hands to the host: an envelope of `args`
    /// for `OP_START_UPLOAD` under this binding.
    pub fn start_upload_request(&self, args: &StartUploadArgs) -> (r: Result<HostRequest, Error>)
        ensures
            sends::<StartUploadArgs>(r, self.spec_binding(), CAPABILITY@, OP_START_UPLOAD@, args.fields()),
    {
        request(self.binding.as_str(), CAPABILITY, OP_START_UPLOAD, args)
    }

    /// Starts an upload with the first chunk of a file.
    /// Hands the host exactly what `start_upload_request` builds.
    pub fn start_upload(&self, chunk: FileChunk) -> (r: Result<BlobstoreResult, Error>)
        ensures
            proxied::<StartUploadArgs, BlobstoreResult>((StartUploadArgs { chunk }).fields(), r),
    {
        let args = StartUploadArgs { chunk };
        match self.start_upload_request(&args) {
            Ok(q) => perform(&q),
            Err(e) => Err(e),
        }
    }

    /// The request that `get_object_info` hands to the host: an envelope of `args`
    /// for `OP_GET_OBJECT_INFO` under this binding.
    pub fn get_object_info_request(&self, args: &GetObjectInfoArgs) -> (r: Result<HostRequest, Error>)
        ensures
            sends::<GetObjectInfoArgs>(r, self.spec_binding(), CAPABILITY@, OP_GET_OBJECT_INFO@, args.fields()),
    {
        request(self.binding.as_str(), CAPABILITY, OP_GET_OBJECT_INFO, args)
    }

    /// Information about a blob.
    /// Hands the host exactly what `get_object_info_request` builds.
    pub fn get_object_info(&self, blob_id: String, container_id: String) -> (r: Result<Blob, Error>)
        ensures
            proxied::<GetObjectInfoArgs, Blob>((GetObjectInfoArgs { blob_id, container_id }).fields(), r),
    {
        let args = GetObjectInfoArgs { blob_id, container_id };
        match self.get_object_info_request(&args) {
            Ok(q) => perform(&q),
            Err(e) => Err(e),
        }
    }
}

impl Container {
    /// The container with the given id.
    pub fn new(id: &str) -> (r: Container)
        ensures
            r.id@ == id@,
    {
        Container { id: id.to_owned() }
    }
}

} // verus!
