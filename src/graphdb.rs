//! The graph database capability: its operations and message schemas.
use vstd::prelude::*;
use crate::error::Error;
use crate::host::{exchange, finish_unit, perform, proxied, request, sends, HostRequest, DEFAULT_BINDING};
use crate::schema::write_record;
use crate::wire::encodable;
use crate::fieldkit::{
    get_bool, get_opt_bool, get_opt_double, get_opt_i64, get_opt_str, get_str, get_str_list,
    i64_kind, i64_ty, lemma_collection_tys_wf, lemma_entries_normal, lemma_str_list_normal, opt,
    opt_bool_val, opt_bool_value, opt_double_val, opt_double_value, opt_i64_val, opt_i64_value,
    opt_str_val, opt_str_value, req, str_list_kind, str_list_ty, str_list_val, str_list_value,
};
use crate::message::{
    get_opt_record_list, get_record, get_record_dict, get_record_list, lemma_opt_record_list_normal,
    lemma_record_dict_normal, lemma_record_dict_ty_wf, lemma_record_list_normal,
    lemma_record_normal, lemma_record_ty_wf, opt_record_list_val, opt_record_list_value,
    record_dict_kind, record_dict_ty, record_dict_val, record_dict_value, record_kind,
    record_list_kind, record_list_ty, record_list_val, record_list_value, record_ty, record_val,
    to_value, Message,
};
use crate::reader::{lemma_tys_of, tys_of, FieldKind, Kind};
use crate::schema::{lemma_normal_fields_from_index, lemma_wf_fields_from_index, values_of, FieldTy, Ty};
use crate::value::{lemma_view_fields, models, view_fields, Field, Val, Value};

verus! {

/// The contract that providers of this capability serve.
pub const CAPABILITY: &'static str = "wasmcloud:graphdb";

pub const OP_QUERY: &'static str = "QueryGraph";
pub const OP_DELETE: &'static str = "DeleteGraph";

#[derive(Debug, Clone, PartialEq, Default)]
pub struct QueryGraphArgs {
    pub graph_name: String,
    pub query: String,
}

impl Message for QueryGraphArgs {
    open spec fn schema() -> Seq<FieldTy> {
        seq![req("graphName"@, Ty::Str), req("query"@, Ty::Str)]
    }

    open spec fn fields(&self) -> Seq<Val> {
        seq![Val::Str(self.graph_name@), Val::Str(self.query@)]
    }

    fn kinds() -> (r: Vec<FieldKind>) {
        let r = vec![
            FieldKind { name: "graphName", kind: Kind::Str, optional: false },
            FieldKind { name: "query", kind: Kind::Str, optional: false },
        ];
        proof {
            lemma_tys_of(r@);
            assert(tys_of(r@) =~= Self::schema());
        }
        r
    }

    fn to_fields(&self) -> (r: Vec<Value>) {
        let r = vec![
            Value::Str(self.graph_name.clone()),
            Value::Str(self.query.clone()),
        ];
        assert(models(r@) =~= self.fields());
        r
    }

    fn from_fields(entries: &Vec<Field>) -> (r: Self) {
        proof {
            lemma_entries_normal(Self::schema(), entries@);
            lemma_view_fields(entries@);
        }
        let r = QueryGraphArgs {
            graph_name: get_str(entries, 0),
            query: get_str(entries, 1),
        };
        assert(r.fields() =~= values_of(view_fields(entries@)));
        r
    }

    proof fn lemma_normal(&self) {
        lemma_normal_fields_from_index(Self::schema(), self.fields());
    }

    proof fn lemma_schema_wf() {
        reveal_strlit("graphName");
        reveal_strlit("query");
        let s = Self::schema();
        assert(s[0].name == "graphName"@ && "graphName"@.len() == 9);
        assert(s[1].name == "query"@ && "query"@.len() == 5);
        assert(s[0].name != s[1].name);
        lemma_wf_fields_from_index(Self::schema());
    }
}

#[derive(Debug, Clone, PartialEq, Default)]
pub struct QueryResponse {
    pub result_set: ResultSet,
}

impl Message for QueryResponse {
    open spec fn schema() -> Seq<FieldTy> {
        seq![req("resultSet"@, record_ty::<ResultSet>())]
    }

    open spec fn fields(&self) -> Seq<Val> {
        seq![record_val(self.result_set)]
    }

    fn kinds() -> (r: Vec<FieldKind>) {
        let r = vec![
            FieldKind { name: "resultSet", kind: record_kind::<ResultSet>(), optional: false },
        ];
        proof {
            lemma_tys_of(r@);
            assert(tys_of(r@) =~= Self::schema());
        }
        r
    }

    fn to_fields(&self) -> (r: Vec<Value>) {
        let r = vec![
            to_value(&self.result_set),
        ];
        assert(models(r@) =~= self.fields());
        r
    }

    fn from_fields(entries: &Vec<Field>) -> (r: Self) {
        proof {
            lemma_entries_normal(Self::schema(), entries@);
            lemma_view_fields(entries@);
        }
        let r = QueryResponse {
            result_set: get_record::<ResultSet>(entries, 0),
        };
        assert(r.fields() =~= values_of(view_fields(entries@)));
        r
    }

    proof fn lemma_normal(&self) {
        lemma_record_normal(self.result_set);
        lemma_normal_fields_from_index(Self::schema(), self.fields());
    }

    proof fn lemma_schema_wf() {
        reveal_strlit("resultSet");
        lemma_record_ty_wf::<ResultSet>();
        lemma_wf_fields_from_index(Self::schema());
    }
}

/// The result of a query: its columns, and statistics such as the execution time.
#[derive(Debug, Clone, PartialEq, Default)]
pub struct ResultSet {
    pub columns: Vec<Column>,
    pub statistics: Vec<String>,
}

impl Message for ResultSet {
    open spec fn schema() -> Seq<FieldTy> {
        seq![req("columns"@, record_list_ty::<Column>()), req("statistics"@, str_list_ty())]
    }

    open spec fn fields(&self) -> Seq<Val> {
        seq![record_list_val(self.columns@), str_list_val(self.statistics@)]
    }

    fn kinds() -> (r: Vec<FieldKind>) {
        let r = vec![
            FieldKind { name: "columns", kind: record_list_kind::<Column>(), optional: false },
            FieldKind { name: "statistics", kind: str_list_kind(), optional: false },
        ];
        proof {
            lemma_tys_of(r@);
            assert(tys_of(r@) =~= Self::schema());
        }
        r
    }

    fn to_fields(&self) -> (r: Vec<Value>) {
        let r = vec![
            record_list_value(&self.columns),
            str_list_value(&self.statistics),
        ];
        assert(models(r@) =~= self.fields());
        r
    }

    fn from_fields(entries: &Vec<Field>) -> (r: Self) {
        proof {
            lemma_entries_normal(Self::schema(), entries@);
            lemma_view_fields(entries@);
        }
        let r = ResultSet {
            columns: get_record_list::<Column>(entries, 0),
            statistics: get_str_list(entries, 1),
        };
        assert(r.fields() =~= values_of(view_fields(entries@)));
        r
    }

    proof fn lemma_normal(&self) {
        lemma_record_list_normal(self.columns@);
        lemma_str_list_normal(self.statistics@);
        lemma_normal_fields_from_index(Self::schema(), self.fields());
    }

    proof fn lemma_schema_wf() {
        reveal_strlit("columns");
        reveal_strlit("statistics");
        lemma_record_ty_wf::<Column>();
        lemma_collection_tys_wf();
        let s = Self::schema();
        assert(s[0].name == "columns"@ && "columns"@.len() == 7);
        assert(s[1].name == "statistics"@ && "statistics"@.len() == 10);
        assert(s[0].name != s[1].name);
        lemma_wf_fields_from_index(Self::schema());
    }
}

/// A column of a result set: scalars, nodes or relations.
#[derive(Debug, Clone, PartialEq, Default)]
pub struct Column {
    pub scalars: Option<Vec<Scalar>>,
    pub nodes: Option<Vec<Node>>,
    pub relations: Option<Vec<Relation>>,
}

impl Message for Column {
    open spec fn schema() -> Seq<FieldTy> {
        seq![opt("scalars"@, record_list_ty::<Scalar>()), opt("nodes"@, record_list_ty::<Node>()), opt("relations"@, record_list_ty::<Relation>())]
    }

    open spec fn fields(&self) -> Seq<Val> {
        seq![opt_record_list_val(self.scalars), opt_record_list_val(self.nodes), opt_record_list_val(self.relations)]
    }

    fn kinds() -> (r: Vec<FieldKind>) {
        let r = vec![
            FieldKind { name: "scalars", kind: record_list_kind::<Scalar>(), optional: true },
            FieldKind { name: "nodes", kind: record_list_kind::<Node>(), optional: true },
            FieldKind { name: "relations", kind: record_list_kind::<Relation>(), optional: true },
        ];
        proof {
            lemma_tys_of(r@);
            assert(tys_of(r@) =~= Self::schema());
        }
        r
    }

    fn to_fields(&self) -> (r: Vec<Value>) {
        let r = vec![
            opt_record_list_value(&self.scalars),
            opt_record_list_value(&self.nodes),
            opt_record_list_value(&self.relations),
        ];
        assert(models(r@) =~= self.fields());
        r
    }

    fn from_fields(entries: &Vec<Field>) -> (r: Self) {
        proof {
            lemma_entries_normal(Self::schema(), entries@);
            lemma_view_fields(entries@);
        }
        let r = Column {
            scalars: get_opt_record_list::<Scalar>(entries, 0),
            nodes: get_opt_record_list::<Node>(entries, 1),
            relations: get_opt_record_list::<Relation>(entries, 2),
        };
        assert(r.fields() =~= values_of(view_fields(entries@)));
        r
    }

    proof fn lemma_normal(&self) {
        lemma_opt_record_list_normal(self.scalars);
        lemma_opt_record_list_normal(self.nodes);
        lemma_opt_record_list_normal(self.relations);
        lemma_normal_fields_from_index(Self::schema(), self.fields());
    }

    proof fn lemma_schema_wf() {
        reveal_strlit("scalars");
        reveal_strlit("nodes");
        reveal_strlit("relations");
        lemma_record_ty_wf::<Scalar>();
        lemma_record_ty_wf::<Node>();
        lemma_record_ty_wf::<Relation>();
        let s = Self::schema();
        assert(s[0].name == "scalars"@ && "scalars"@.len() == 7);
        assert(s[1].name == "nodes"@ && "nodes"@.len() == 5);
        assert(s[2].name == "relations"@ && "relations"@.len() == 9);
        assert(s[0].name != s[1].name && s[0].name != s[2].name && s[1].name != s[2].name);
        lemma_wf_fields_from_index(Self::schema());
    }
}

/// A value of a result set. A double is held as its IEEE 754 bits.
#[derive(Debug, Clone, PartialEq, Default)]
pub struct Scalar {
    pub bool_value: Option<bool>,
    pub int_value: Option<i64>,
    pub double_value: Option<u64>,
    pub string_value: Option<String>,
}

impl Message for Scalar {
    open spec fn schema() -> Seq<FieldTy> {
        seq![opt("boolValue"@, Ty::Bool), opt("intValue"@, i64_ty()), opt("doubleValue"@, Ty::Double), opt("stringValue"@, Ty::Str)]
    }

    open spec fn fields(&self) -> Seq<Val> {
        seq![opt_bool_val(self.bool_value), opt_i64_val(self.int_value), opt_double_val(self.double_value), opt_str_val(self.string_value)]
    }

    fn kinds() -> (r: Vec<FieldKind>) {
        let r = vec![
            FieldKind { name: "boolValue", kind: Kind::Bool, optional: true },
            FieldKind { name: "intValue", kind: i64_kind(), optional: true },
            FieldKind { name: "doubleValue", kind: Kind::Double, optional: true },
            FieldKind { name: "stringValue", kind: Kind::Str, optional: true },
        ];
        proof {
            lemma_tys_of(r@);
            assert(tys_of(r@) =~= Self::schema());
        }
        r
    }

    fn to_fields(&self) -> (r: Vec<Value>) {
        let r = vec![
            opt_bool_value(&self.bool_value),
            opt_i64_value(&self.int_value),
            opt_double_value(&self.double_value),
            opt_str_value(&self.string_value),
        ];
        assert(models(r@) =~= self.fields());
        r
    }

    fn from_fields(entries: &Vec<Field>) -> (r: Self) {
        proof {
            lemma_entries_normal(Self::schema(), entries@);
            lemma_view_fields(entries@);
        }
        let r = Scalar {
            bool_value: get_opt_bool(entries, 0),
            int_value: get_opt_i64(entries, 1),
            double_value: get_opt_double(entries, 2),
            string_value: get_opt_str(entries, 3),
        };
        assert(r.fields() =~= values_of(view_fields(entries@)));
        r
    }

    proof fn lemma_normal(&self) {
        lemma_normal_fields_from_index(Self::schema(), self.fields());
    }

    proof fn lemma_schema_wf() {
        reveal_strlit("boolValue");
        reveal_strlit("intValue");
        reveal_strlit("doubleValue");
        reveal_strlit("stringValue");
        let s = Self::schema();
        assert(s[0].name == "boolValue"@ && "boolValue"@.len() == 9);
        assert(s[1].name == "intValue"@ && "intValue"@.len() == 8);
        assert(s[2].name == "doubleValue"@ && "doubleValue"@.len() == 11);
        assert(s[3].name == "stringValue"@ && "stringValue"@.len() == 11);
        assert("doubleValue"@[0] != "stringValue"@[0]);
        assert(s[0].name != s[1].name && s[0].name != s[2].name && s[0].name != s[3].name && s[1].name != s[2].name && s[1].name != s[3].name && s[2].name != s[3].name);
        lemma_wf_fields_from_index(Self::schema());
    }
}

/// A node of a graph: its labels and properties.
#[derive(Debug, Clone, PartialEq, Default)]
pub struct Node {
    pub labels: Vec<String>,
    pub properties: Vec<(String, Scalar)>,
}

impl Message for Node {
    open spec fn schema() -> Seq<FieldTy> {
        seq![req("labels"@, str_list_ty()), req("properties"@, record_dict_ty::<Scalar>())]
    }

    open spec fn fields(&self) -> Seq<Val> {
        seq![str_list_val(self.labels@), record_dict_val(self.properties@)]
    }

    fn kinds() -> (r: Vec<FieldKind>) {
        let r = vec![
            FieldKind { name: "labels", kind: str_list_kind(), optional: false },
            FieldKind { name: "properties", kind: record_dict_kind::<Scalar>(), optional: false },
        ];
        proof {
            lemma_tys_of(r@);
            assert(tys_of(r@) =~= Self::schema());
        }
        r
    }

    fn to_fields(&self) -> (r: Vec<Value>) {
        let r = vec![
            str_list_value(&self.labels),
            record_dict_value(&self.properties),
        ];
        assert(models(r@) =~= self.fields());
        r
    }

    fn from_fields(entries: &Vec<Field>) -> (r: Self) {
        proof {
            lemma_entries_normal(Self::schema(), entries@);
            lemma_view_fields(entries@);
        }
        let r = Node {
            labels: get_str_list(entries, 0),
            properties: get_record_dict::<Scalar>(entries, 1),
        };
        assert(r.fields() =~= values_of(view_fields(entries@)));
        r
    }

    proof fn lemma_normal(&self) {
        lemma_str_list_normal(self.labels@);
        lemma_record_dict_normal(self.properties@);
        lemma_normal_fields_from_index(Self::schema(), self.fields());
    }

    proof fn lemma_schema_wf() {
        reveal_strlit("labels");
        reveal_strlit("properties");
        lemma_collection_tys_wf();
        lemma_record_dict_ty_wf::<Scalar>();
        let s = Self::schema();
        assert(s[0].name == "labels"@ && "labels"@.len() == 6);
        assert(s[1].name == "properties"@ && "properties"@.len() == 10);
        assert(s[0].name != s[1].name);
        lemma_wf_fields_from_index(Self::schema());
    }
}

/// A relation of a graph: its type and properties.
#[derive(Debug, Clone, PartialEq, Default)]
pub struct Relation {
    pub relation_type: String,
    pub properties: Vec<(String, Scalar)>,
}

impl Message for Relation {
    open spec fn schema() -> Seq<FieldTy> {
        seq![req("typeName"@, Ty::Str), req("properties"@, record_dict_ty::<Scalar>())]
    }

    open spec fn fields(&self) -> Seq<Val> {
        seq![Val::Str(self.relation_type@), record_dict_val(self.properties@)]
    }

    fn kinds() -> (r: Vec<FieldKind>) {
        let r = vec![
            FieldKind { name: "typeName", kind: Kind::Str, optional: false },
            FieldKind { name: "properties", kind: record_dict_kind::<Scalar>(), optional: false },
        ];
        proof {
            lemma_tys_of(r@);
            assert(tys_of(r@) =~= Self::schema());
        }
        r
    }

    fn to_fields(&self) -> (r: Vec<Value>) {
        let r = vec![
            Value::Str(self.relation_type.clone()),
            record_dict_value(&self.properties),
        ];
        assert(models(r@) =~= self.fields());
        r
    }

    fn from_fields(entries: &Vec<Field>) -> (r: Self) {
        proof {
            lemma_entries_normal(Self::schema(), entries@);
            lemma_view_fields(entries@);
        }
        let r = Relation {
            relation_type: get_str(entries, 0),
            properties: get_record_dict::<Scalar>(entries, 1),
        };
        assert(r.fields() =~= values_of(view_fields(entries@)));
        r
    }

    proof fn lemma_normal(&self) {
        lemma_record_dict_normal(self.properties@);
        lemma_normal_fields_from_index(Self::schema(), self.fields());
    }

    proof fn lemma_schema_wf() {
        reveal_strlit("typeName");
        reveal_strlit("properties");
        lemma_record_dict_ty_wf::<Scalar>();
        let s = Self::schema();
        assert(s[0].name == "typeName"@ && "typeName"@.len() == 8);
        assert(s[1].name == "properties"@ && "properties"@.len() == 10);
        assert(s[0].name != s[1].name);
        lemma_wf_fields_from_index(Self::schema());
    }
}

#[derive(Debug, Clone, PartialEq, Default)]
pub struct DeleteGraphArgs {
    pub graph_name: String,
}

impl Message for DeleteGraphArgs {
    open spec fn schema() -> Seq<FieldTy> {
        seq![req("graphName"@, Ty::Str)]
    }

    open spec fn fields(&self) -> Seq<Val> {
        seq![Val::Str(self.graph_name@)]
    }

    fn kinds() -> (r: Vec<FieldKind>) {
        let r = vec![
            FieldKind { name: "graphName", kind: Kind::Str, optional: false },
        ];
        proof {
            lemma_tys_of(r@);
            assert(tys_of(r@) =~= Self::schema());
        }
        r
    }

    fn to_fields(&self) -> (r: Vec<Value>) {
        let r = vec![
            Value::Str(self.graph_name.clone()),
        ];
        assert(models(r@) =~= self.fields());
        r
    }

    fn from_fields(entries: &Vec<Field>) -> (r: Self) {
        proof {
            lemma_entries_normal(Self::schema(), entries@);
            lemma_view_fields(entries@);
        }
        let r = DeleteGraphArgs {
            graph_name: get_str(entries, 0),
        };
        assert(r.fields() =~= values_of(view_fields(entries@)));
        r
    }

    proof fn lemma_normal(&self) {
        lemma_normal_fields_from_index(Self::schema(), self.fields());
    }

    proof fn lemma_schema_wf() {
        reveal_strlit("graphName");
        lemma_wf_fields_from_index(Self::schema());
    }
}

#[derive(Debug, Clone, PartialEq, Default)]
pub struct DeleteResponse {
    pub success: bool,
}

impl Message for DeleteResponse {
    open spec fn schema() -> Seq<FieldTy> {
        seq![req("success"@, Ty::Bool)]
    }

    open spec fn fields(&self) -> Seq<Val> {
        seq![Val::Bool(self.success)]
    }

    fn kinds() -> (r: Vec<FieldKind>) {
        let r = vec![
            FieldKind { name: "success", kind: Kind::Bool, optional: false },
        ];
        proof {
            lemma_tys_of(r@);
            assert(tys_of(r@) =~= Self::schema());
        }
        r
    }

    fn to_fields(&self) -> (r: Vec<Value>) {
        let r = vec![
            Value::Bool(self.success),
        ];
        assert(models(r@) =~= self.fields());
        r
    }

    fn from_fields(entries: &Vec<Field>) -> (r: Self) {
        proof {
            lemma_entries_normal(Self::schema(), entries@);
            lemma_view_fields(entries@);
        }
        let r = DeleteResponse {
            success: get_bool(entries, 0),
        };
        assert(r.fields() =~= values_of(view_fields(entries@)));
        r
    }

    proof fn lemma_normal(&self) {
        lemma_normal_fields_from_index(Self::schema(), self.fields());
    }

    proof fn lemma_schema_wf() {
        reveal_strlit("success");
        lemma_wf_fields_from_index(Self::schema());
    }
}

/// A handle on a configured graph database, from which handles on its
/// graphs are made.
#[derive(Debug)]
pub struct GraphHostBindingBuilder {
    binding: String,
}

/// A handle on the graph database configured under `binding`; used where
/// an actor binds more than one of them.
pub fn host(binding: &str) -> (r: GraphHostBindingBuilder)
    ensures
        r.spec_binding() == binding@,
{
    GraphHostBindingBuilder { binding: binding.to_owned() }
}

/// A handle on the graph database configured under the default binding.
pub fn default() -> (r: GraphHostBindingBuilder)
    ensures
        r.spec_binding() == DEFAULT_BINDING@,
{
    host(DEFAULT_BINDING)
}

impl GraphHostBindingBuilder {
    pub closed spec fn spec_binding(&self) -> Seq<char> {
        self.binding@
    }

    /// A handle on the graph named `graph` in this database.
    pub fn graph(&self, graph: &str) -> (r: GraphHostBinding)
        ensures
            r.spec_binding() == self.spec_binding(),
            r.spec_name() == graph@,
    {
        GraphHostBinding { binding: self.binding.clone(), graph_name: graph.to_owned() }
    }
}

/// A handle on one graph of a graph database.
#[derive(Debug)]
pub struct GraphHostBinding {
    binding: String,
    graph_name: String,
}

impl GraphHostBinding {
    pub closed spec fn spec_binding(&self) -> Seq<char> {
        self.binding@
    }

    pub closed spec fn spec_name(&self) -> Seq<char> {
        self.graph_name@
    }

    /// The name of the graph.
    pub fn name(&self) -> (r: &str)
        ensures
            r@ == self.spec_name(),
    {
        self.graph_name.as_str()
    }

    /// The request that `delete` hands to the host: the envelope of the
    /// graph's name for `DeleteGraph` under the graph's binding.
    pub fn delete_request(&self) -> (r: Result<HostRequest, Error>)
        ensures
            sends::<DeleteGraphArgs>(
                r,
                self.spec_binding(),
                CAPABILITY@,
                OP_DELETE@,
                seq![Val::Str(self.spec_name())],
            ),
    {
        let args = DeleteGraphArgs { graph_name: self.graph_name.clone() };
        request(self.binding.as_str(), CAPABILITY, OP_DELETE, &args)
    }

    /// Deletes the whole graph from the database. Hands the host exactly
    /// what `delete_request` builds; the reply is not read, and the result
    /// is success exactly when the host succeeds, as `finish_unit` says.
    pub fn delete(self) -> (r: Result<(), Error>)
        ensures
            match r {
                Err(Error::Encode(_)) => !encodable(
                    write_record(DeleteGraphArgs::schema(), seq![Val::Str(self.spec_name())]),
                ),
                Err(Error::Call(_)) | Ok(_) => encodable(
                    write_record(DeleteGraphArgs::schema(), seq![Val::Str(self.spec_name())]),
                ),
                Err(_) => false,
            },
    {
        match self.delete_request() {
            Ok(q) => finish_unit(exchange(&q)),
            Err(e) => Err(e),
        }
    }
}

impl GraphHostBinding {
    /// The field values of the record that asks this graph `query`.
    pub open spec fn query_fields(&self, query: Seq<char>) -> Seq<Val> {
        seq![Val::Str(self.spec_name()), Val::Str(query)]
    }

    /// The request that `query_graph` hands to the host: the envelope of the
    /// graph's name and the query for `QueryGraph` under the graph's binding.
    pub fn query_graph_request(&self, query: &str) -> (r: Result<HostRequest, Error>)
        ensures
            sends::<QueryGraphArgs>(r, self.spec_binding(), CAPABILITY@, OP_QUERY@, self.query_fields(query@)),
    {
        let args = QueryGraphArgs { graph_name: self.graph_name.clone(), query: query.to_owned() };
        assert(args.fields() =~= self.query_fields(query@));
        request(self.binding.as_str(), CAPABILITY, OP_QUERY, &args)
    }

    /// Runs a query on the graph, in whatever language the provider takes
    /// (Cypher, for instance); a query that mutates the graph and returns
    /// data may run here too. Hands the host exactly what
    /// `query_graph_request` builds.
    pub fn query_graph(&self, query: &str) -> (r: Result<QueryResponse, Error>)
        ensures
            proxied::<QueryGraphArgs, QueryResponse>(self.query_fields(query@), r),
    {
        match self.query_graph_request(query) {
            Ok(q) => perform(&q),
            Err(e) => Err(e),
        }
    }

    /// The result set of a query on the graph.
    pub fn query(&self, query: &str) -> (r: Result<ResultSet, Error>)
        ensures
            match r {
                Ok(rs) => proxied::<QueryGraphArgs, QueryResponse>(
                    self.query_fields(query@),
                    Ok((QueryResponse { result_set: rs })),
                ),
                Err(e) => proxied::<QueryGraphArgs, QueryResponse>(self.query_fields(query@), Err(e)),
            },
    {
        match self.query_graph(query) {
            Ok(resp) => {
                let ghost before = resp;
                let rs = resp.result_set;
                assert((QueryResponse { result_set: rs }).fields() =~= before.fields());
                Ok(rs)
            },
            Err(e) => Err(e),
        }
    }

    /// Runs a query for its effect on the graph, and returns the statistics
    /// of its result set.
    pub fn mutate_with_statistics(&mut self, query: &str) -> (r: Result<Vec<String>, Error>)
        ensures
            final(self).spec_binding() == old(self).spec_binding(),
            final(self).spec_name() == old(self).spec_name(),
            match r {
                Ok(stats) => exists|rs: ResultSet|
                    rs.statistics@ == stats@ && proxied::<QueryGraphArgs, QueryResponse>(
                        old(self).query_fields(query@),
                        Ok((QueryResponse { result_set: rs })),
                    ),
                Err(e) => proxied::<QueryGraphArgs, QueryResponse>(old(self).query_fields(query@), Err(e)),
            },
    {
        match self.query(query) {
            Ok(rs) => {
                let ghost whole = rs;
                Ok(rs.statistics)
            },
            Err(e) => Err(e),
        }
    }

    /// Runs a query for its effect on the graph.
    pub fn mutate(&mut self, query: &str) -> (r: Result<(), Error>)
        ensures
            final(self).spec_binding() == old(self).spec_binding(),
            final(self).spec_name() == old(self).spec_name(),
            match r {
                Ok(_) => exists|rs: ResultSet| proxied::<QueryGraphArgs, QueryResponse>(
                    old(self).query_fields(query@),
                    Ok((QueryResponse { result_set: rs })),
                ),
                Err(e) => proxied::<QueryGraphArgs, QueryResponse>(old(self).query_fields(query@), Err(e)),
            },
    {
        match self.mutate_with_statistics(query) {
            Ok(_) => Ok(()),
            Err(e) => Err(e),
        }
    }
}

} // verus!
