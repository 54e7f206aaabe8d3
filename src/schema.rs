//! Schemas: what a record's fields are called and what they hold, and how a
//! record is read from an envelope by looking its fields up by name.
use vstd::prelude::*;
use crate::envelope::DecodeError;
use crate::value::Val;

verus! {

/// The model of the type of a field.
pub ghost enum Ty {
    Bool,
    /// An integer between `min` and `max` inclusive.
    Int { min: int, max: int },
    Str,
    Bin,
    /// A double-precision floating-point number, held as its bits.
    Double,
    /// An array whose items all have the inner type.
    List(Box<Ty>),
    /// A map from text keys to values of the inner type.
    Dict(Box<Ty>),
    /// A nested record.
    Record(Seq<FieldTy>),
}

/// The model of a field of a schema: its name, its type, and whether it may
/// be absent (or nil).
pub ghost struct FieldTy {
    pub name: Seq<char>,
    pub ty: Ty,
    pub optional: bool,
}

/// The value of the first entry named `name`.
pub open spec fn lookup(entries: Seq<(Seq<char>, Val)>, name: Seq<char>) -> Option<Val>
    decreases entries.len(),
{
    if entries.len() == 0 {
        None
    } else if entries[0].0 == name {
        Some(entries[0].1)
    } else {
        lookup(entries.subrange(1, entries.len() as int), name)
    }
}

/// The entries that a record of `schema` with field values `vals` is written
/// as: one per field, in the schema's order, an absent optional field as nil.
pub open spec fn write_entries(schema: Seq<FieldTy>, vals: Seq<Val>) -> Seq<(Seq<char>, Val)> {
    Seq::new(schema.len(), |i: int| (schema[i].name, vals[i]))
}

/// Reads a value of type `ty`: the value in normal form (nested records with
/// their fields in schema order and nothing else), or why it does not fit.
pub open spec fn read_val(ty: Ty, v: Val) -> Result<Val, DecodeError>
    decreases ty, 0nat,
{
    match ty {
        Ty::Bool => if v is Bool {
            Ok(v)
        } else {
            Err(DecodeError::WrongType)
        },
        Ty::Int { min, max } => if v is Int && min <= v->Int_0 <= max {
            Ok(v)
        } else {
            Err(DecodeError::WrongType)
        },
        Ty::Str => if v is Str {
            Ok(v)
        } else {
            Err(DecodeError::WrongType)
        },
        Ty::Bin => if v is Bin {
            Ok(v)
        } else {
            Err(DecodeError::WrongType)
        },
        Ty::Double => if v is Float64Bits {
            Ok(v)
        } else {
            Err(DecodeError::WrongType)
        },
        Ty::List(item) => match v {
            Val::Array(items) => match read_list(*item, items) {
                Ok(ws) => Ok(Val::Array(ws)),
                Err(e) => Err(e),
            },
            _ => Err(DecodeError::WrongType),
        },
        Ty::Dict(item) => match v {
            Val::Record(es) => match read_dict(*item, es) {
                Ok(ws) => Ok(Val::Record(ws)),
                Err(e) => Err(e),
            },
            _ => Err(DecodeError::WrongType),
        },
        Ty::Record(fields) => match v {
            Val::Record(es) => match read_fields(fields, es) {
                Ok(ws) => Ok(Val::Record(write_entries(fields, ws))),
                Err(e) => Err(e),
            },
            _ => Err(DecodeError::WrongType),
        },
    }
}

/// Reads every item of an array as type `ty`; the first failure decides.
pub open spec fn read_list(ty: Ty, items: Seq<Val>) -> Result<Seq<Val>, DecodeError>
    decreases ty, items.len() + 1,
{
    if items.len() == 0 {
        Ok(Seq::empty())
    } else {
        match read_val(ty, items[0]) {
            Ok(w) => match read_list(ty, items.subrange(1, items.len() as int)) {
                Ok(ws) => Ok(seq![w] + ws),
                Err(e) => Err(e),
            },
            Err(e) => Err(e),
        }
    }
}

/// Reads every value of a map as type `ty`, keeping the keys.
pub open spec fn read_dict(ty: Ty, es: Seq<(Seq<char>, Val)>) -> Result<
    Seq<(Seq<char>, Val)>,
    DecodeError,
>
    decreases ty, es.len() + 1,
{
    if es.len() == 0 {
        Ok(Seq::empty())
    } else {
        match read_val(ty, es[0].1) {
            Ok(w) => match read_dict(ty, es.subrange(1, es.len() as int)) {
                Ok(ws) => Ok(seq![(es[0].0, w)] + ws),
                Err(e) => Err(e),
            },
            Err(e) => Err(e),
        }
    }
}

/// Reads one field from the value found under its name, if any: an absent or
/// nil optional field reads as nil, an absent required one fails.
pub open spec fn read_field(f: FieldTy, found: Option<Val>) -> Result<Val, DecodeError>
    decreases f, 0nat,
{
    match found {
        None => if f.optional {
            Ok(Val::Nil)
        } else {
            Err(DecodeError::MissingField)
        },
        Some(v) => if f.optional && v == Val::Nil {
            Ok(Val::Nil)
        } else {
            read_val(f.ty, v)
        },
    }
}

/// Reads the fields of `schema` from a map's entries, each looked up by
/// name; entries under other names are ignored. The first failing field, in
/// schema order, decides the error.
pub open spec fn read_fields(schema: Seq<FieldTy>, es: Seq<(Seq<char>, Val)>) -> Result<
    Seq<Val>,
    DecodeError,
>
    decreases schema, 0nat,
{
    if schema.len() == 0 {
        Ok(Seq::empty())
    } else {
        match read_field(schema[0], lookup(es, schema[0].name)) {
            Ok(w) => match read_fields(schema.subrange(1, schema.len() as int), es) {
                Ok(ws) => Ok(seq![w] + ws),
                Err(e) => Err(e),
            },
            Err(e) => Err(e),
        }
    }
}

/// Reads a record of `schema` from an envelope value.
pub open spec fn read_record(schema: Seq<FieldTy>, v: Val) -> Result<Seq<Val>, DecodeError> {
    match v {
        Val::Record(es) => read_fields(schema, es),
        _ => Err(DecodeError::WrongType),
    }
}

/// The envelope value of a record of `schema` with field values `vals`.
pub open spec fn write_record(schema: Seq<FieldTy>, vals: Seq<Val>) -> Val {
    Val::Record(write_entries(schema, vals))
}

/// The values of a map's entries, in order.
pub open spec fn values_of(es: Seq<(Seq<char>, Val)>) -> Seq<Val> {
    Seq::new(es.len(), |i: int| es[i].1)
}

/// No two fields of the schema share a name.
pub open spec fn names_distinct(schema: Seq<FieldTy>) -> bool {
    forall|i: int, j: int|
        0 <= i < j < schema.len() ==> #[trigger] schema[i].name != #[trigger] schema[j].name
}

/// No entry is named `name`.
pub open spec fn absent(es: Seq<(Seq<char>, Val)>, name: Seq<char>) -> bool {
    forall|j: int| 0 <= j < es.len() ==> #[trigger] es[j].0 != name
}

/// A type is well formed when the fields of each record in it have distinct
/// names.
pub open spec fn wf_ty(ty: Ty) -> bool
    decreases ty, 0nat,
{
    match ty {
        Ty::List(item) => wf_ty(*item),
        Ty::Dict(item) => wf_ty(*item),
        Ty::Record(fields) => names_distinct(fields) && wf_fields(fields),
        _ => true,
    }
}

pub open spec fn wf_fields(schema: Seq<FieldTy>) -> bool
    decreases schema, 0nat,
{
    schema.len() == 0 || (wf_ty(schema[0].ty) && wf_fields(
        schema.subrange(1, schema.len() as int),
    ))
}

/// A schema is well formed when its fields have distinct names and well
/// formed types.
pub open spec fn wf_schema(schema: Seq<FieldTy>) -> bool {
    names_distinct(schema) && wf_fields(schema)
}

/// `w` is a value of type `ty` in normal form: what reading gives.
pub open spec fn normal(ty: Ty, w: Val) -> bool
    decreases ty, 0nat,
{
    match ty {
        Ty::Bool => w is Bool,
        Ty::Int { min, max } => w is Int && min <= w->Int_0 <= max,
        Ty::Str => w is Str,
        Ty::Bin => w is Bin,
        Ty::Double => w is Float64Bits,
        Ty::List(item) => w is Array && normal_list(*item, w->Array_0),
        Ty::Dict(item) => w is Record && normal_dict(*item, w->Record_0),
        Ty::Record(fields) => w is Record && w->Record_0 == write_entries(
            fields,
            values_of(w->Record_0),
        ) && normal_fields(fields, values_of(w->Record_0)),
    }
}

pub open spec fn normal_list(ty: Ty, ws: Seq<Val>) -> bool
    decreases ty, ws.len() + 1,
{
    ws.len() == 0 || (normal(ty, ws[0]) && normal_list(ty, ws.subrange(1, ws.len() as int)))
}

pub open spec fn normal_dict(ty: Ty, es: Seq<(Seq<char>, Val)>) -> bool
    decreases ty, es.len() + 1,
{
    es.len() == 0 || (normal(ty, es[0].1) && normal_dict(ty, es.subrange(1, es.len() as int)))
}

pub open spec fn normal_field(f: FieldTy, w: Val) -> bool
    decreases f, 0nat,
{
    (f.optional && w == Val::Nil) || normal(f.ty, w)
}

/// `vals` are field values of a record of `schema` in normal form.
pub open spec fn normal_fields(schema: Seq<FieldTy>, vals: Seq<Val>) -> bool
    decreases schema, 0nat,
{
    vals.len() == schema.len() && (schema.len() == 0 || (normal_field(schema[0], vals[0])
        && normal_fields(schema.subrange(1, schema.len() as int), vals.subrange(1, vals.len() as int))))
}

pub proof fn lemma_normal_fields_index(schema: Seq<FieldTy>, vals: Seq<Val>)
    requires
        normal_fields(schema, vals),
    ensures
        vals.len() == schema.len(),
        forall|i: int| 0 <= i < schema.len() ==> normal_field(schema[i], #[trigger] vals[i]),
    decreases schema.len(),
{
    if schema.len() > 0 {
        let s1 = schema.subrange(1, schema.len() as int);
        let v1 = vals.subrange(1, vals.len() as int);
        lemma_normal_fields_index(s1, v1);
        assert forall|i: int| 0 <= i < schema.len() implies normal_field(schema[i], #[trigger] vals[i]) by {
            if i > 0 {
                assert(s1[i - 1] == schema[i]);
                assert(v1[i - 1] == vals[i]);
            }
        }
    }
}

pub proof fn lemma_wf_fields_index(schema: Seq<FieldTy>)
    requires
        wf_fields(schema),
    ensures
        forall|i: int| 0 <= i < schema.len() ==> wf_ty(#[trigger] schema[i].ty),
    decreases schema.len(),
{
    if schema.len() > 0 {
        let s1 = schema.subrange(1, schema.len() as int);
        lemma_wf_fields_index(s1);
        assert forall|i: int| 0 <= i < schema.len() implies wf_ty(#[trigger] schema[i].ty) by {
            if i > 0 {
                assert(s1[i - 1] == schema[i]);
            }
        }
    }
}

/// Field values that each read as given make the whole record read as them.
pub proof fn lemma_read_fields_each(schema: Seq<FieldTy>, es: Seq<(Seq<char>, Val)>, ws: Seq<Val>)
    requires
        ws.len() == schema.len(),
        forall|i: int|
            0 <= i < schema.len() ==> read_field(schema[i], lookup(es, #[trigger] schema[i].name))
                == Ok::<Val, DecodeError>(ws[i]),
    ensures
        read_fields(schema, es) == Ok::<Seq<Val>, DecodeError>(ws),
    decreases schema.len(),
{
    if schema.len() == 0 {
        assert(ws =~= Seq::<Val>::empty());
    } else {
        let s1 = schema.subrange(1, schema.len() as int);
        let w1 = ws.subrange(1, ws.len() as int);
        assert forall|i: int|
            0 <= i < s1.len() implies read_field(s1[i], lookup(es, #[trigger] s1[i].name)) == Ok::<
            Val,
            DecodeError,
        >(w1[i]) by {
            assert(s1[i] == schema[i + 1]);
        }
        lemma_read_fields_each(s1, es, w1);
        assert(read_field(schema[0], lookup(es, schema[0].name)) == Ok::<Val, DecodeError>(ws[0]));
        assert(seq![ws[0]] + w1 =~= ws);
    }
}

/// The first entry named like entry `i`, when no earlier one is, is entry `i`.
pub proof fn lemma_lookup_index(es: Seq<(Seq<char>, Val)>, i: int)
    requires
        0 <= i < es.len(),
        forall|j: int| 0 <= j < i ==> #[trigger] es[j].0 != es[i].0,
    ensures
        lookup(es, es[i].0) == Some(es[i].1),
    decreases i,
{
    if i > 0 {
        let e1 = es.subrange(1, es.len() as int);
        assert(e1[i - 1] == es[i]);
        assert forall|j: int| 0 <= j < i - 1 implies #[trigger] e1[j].0 != e1[i - 1].0 by {
            assert(e1[j] == es[j + 1]);
        }
        lemma_lookup_index(e1, i - 1);
    }
}

/// A name that no entry has is not found.
pub proof fn lemma_lookup_absent(es: Seq<(Seq<char>, Val)>, name: Seq<char>)
    requires
        absent(es, name),
    ensures
        lookup(es, name) is None,
    decreases es.len(),
{
    if es.len() > 0 {
        let e1 = es.subrange(1, es.len() as int);
        assert forall|j: int| 0 <= j < e1.len() implies #[trigger] e1[j].0 != name by {
            assert(e1[j] == es[j + 1]);
        }
        lemma_lookup_absent(e1, name);
    }
}

/// In the entries written for a record, each field is found under its name.
pub proof fn lemma_lookup_written(schema: Seq<FieldTy>, vals: Seq<Val>, i: int)
    requires
        names_distinct(schema),
        0 <= i < schema.len(),
    ensures
        lookup(write_entries(schema, vals), schema[i].name) == Some(vals[i]),
{
    let es = write_entries(schema, vals);
    assert forall|j: int| 0 <= j < i implies #[trigger] es[j].0 != es[i].0 by {
        assert(es[j].0 == schema[j].name);
    }
    lemma_lookup_index(es, i);
}

/// A value in normal form reads as itself.
pub proof fn lemma_read_normal(ty: Ty, w: Val)
    requires
        wf_ty(ty),
        normal(ty, w),
    ensures
        read_val(ty, w) == Ok::<Val, DecodeError>(w),
    decreases ty, 0nat,
{
    match ty {
        Ty::List(item) => {
            lemma_read_normal_list(*item, w->Array_0);
        },
        Ty::Dict(item) => {
            lemma_read_normal_dict(*item, w->Record_0);
        },
        Ty::Record(fields) => {
            let vals = values_of(w->Record_0);
            lemma_read_written(fields, vals);
        },
        _ => {},
    }
}

proof fn lemma_read_normal_list(ty: Ty, ws: Seq<Val>)
    requires
        wf_ty(ty),
        normal_list(ty, ws),
    ensures
        read_list(ty, ws) == Ok::<Seq<Val>, DecodeError>(ws),
    decreases ty, ws.len() + 1,
{
    if ws.len() > 0 {
        lemma_read_normal(ty, ws[0]);
        lemma_read_normal_list(ty, ws.subrange(1, ws.len() as int));
        assert(seq![ws[0]] + ws.subrange(1, ws.len() as int) =~= ws);
    } else {
        assert(ws =~= Seq::<Val>::empty());
    }
}

proof fn lemma_read_normal_dict(ty: Ty, es: Seq<(Seq<char>, Val)>)
    requires
        wf_ty(ty),
        normal_dict(ty, es),
    ensures
        read_dict(ty, es) == Ok::<Seq<(Seq<char>, Val)>, DecodeError>(es),
    decreases ty, es.len() + 1,
{
    if es.len() > 0 {
        lemma_read_normal(ty, es[0].1);
        lemma_read_normal_dict(ty, es.subrange(1, es.len() as int));
        assert(seq![(es[0].0, es[0].1)] + es.subrange(1, es.len() as int) =~= es);
    } else {
        assert(es =~= Seq::<(Seq<char>, Val)>::empty());
    }
}

/// A record written from field values in normal form reads back as them.
pub proof fn lemma_read_written(schema: Seq<FieldTy>, vals: Seq<Val>)
    requires
        wf_schema(schema),
        normal_fields(schema, vals),
    ensures
        read_fields(schema, write_entries(schema, vals)) == Ok::<Seq<Val>, DecodeError>(vals),
    decreases schema, 1nat,
{
    let es = write_entries(schema, vals);
    lemma_normal_fields_index(schema, vals);
    lemma_wf_fields_index(schema);
    assert forall|i: int|
        0 <= i < schema.len() implies read_field(schema[i], lookup(es, #[trigger] schema[i].name))
        == Ok::<Val, DecodeError>(vals[i]) by {
        lemma_lookup_written(schema, vals, i);
        if !(schema[i].optional && vals[i] == Val::Nil) {
            assert(decreases_to!(schema => schema[i]));
            lemma_read_normal(schema[i].ty, vals[i]);
        }
    }
    lemma_read_fields_each(schema, es, vals);
}

/// What reading gives is in normal form.
pub proof fn lemma_read_is_normal(ty: Ty, v: Val)
    requires
        read_val(ty, v) is Ok,
    ensures
        normal(ty, read_val(ty, v)->Ok_0),
    decreases ty, 0nat,
{
    match ty {
        Ty::List(item) => {
            lemma_read_list_is_normal(*item, v->Array_0);
        },
        Ty::Dict(item) => {
            lemma_read_dict_is_normal(*item, v->Record_0);
        },
        Ty::Record(fields) => {
            let ws = read_fields(fields, v->Record_0)->Ok_0;
            lemma_read_fields_is_normal(fields, v->Record_0);
            assert(values_of(write_entries(fields, ws)) =~= ws);
        },
        _ => {},
    }
}

proof fn lemma_read_list_is_normal(ty: Ty, items: Seq<Val>)
    requires
        read_list(ty, items) is Ok,
    ensures
        normal_list(ty, read_list(ty, items)->Ok_0),
    decreases ty, items.len() + 1,
{
    if items.len() > 0 {
        let rest = items.subrange(1, items.len() as int);
        lemma_read_is_normal(ty, items[0]);
        lemma_read_list_is_normal(ty, rest);
        let ws = read_list(ty, items)->Ok_0;
        assert(ws.subrange(1, ws.len() as int) =~= read_list(ty, rest)->Ok_0);
    }
}

proof fn lemma_read_dict_is_normal(ty: Ty, es: Seq<(Seq<char>, Val)>)
    requires
        read_dict(ty, es) is Ok,
    ensures
        normal_dict(ty, read_dict(ty, es)->Ok_0),
    decreases ty, es.len() + 1,
{
    if es.len() > 0 {
        let rest = es.subrange(1, es.len() as int);
        lemma_read_is_normal(ty, es[0].1);
        lemma_read_dict_is_normal(ty, rest);
        let ws = read_dict(ty, es)->Ok_0;
        assert(ws.subrange(1, ws.len() as int) =~= read_dict(ty, rest)->Ok_0);
    }
}

pub proof fn lemma_read_fields_is_normal(schema: Seq<FieldTy>, es: Seq<(Seq<char>, Val)>)
    requires
        read_fields(schema, es) is Ok,
    ensures
        normal_fields(schema, read_fields(schema, es)->Ok_0),
    decreases schema, 0nat,
{
    if schema.len() > 0 {
        let s1 = schema.subrange(1, schema.len() as int);
        let f = schema[0];
        let found = lookup(es, f.name);
        assert(read_field(f, found) is Ok);
        if !(found is None) && !(f.optional && found->Some_0 == Val::Nil) {
            assert(decreases_to!(schema => schema[0]));
            lemma_read_is_normal(f.ty, found->Some_0);
        }
        lemma_read_fields_is_normal(s1, es);
        let ws = read_fields(schema, es)->Ok_0;
        let w0 = read_field(f, found)->Ok_0;
        let ws1 = read_fields(s1, es)->Ok_0;
        assert(ws == seq![w0] + ws1);
        assert(ws.subrange(1, ws.len() as int) =~= ws1);
        assert(ws[0] == w0);
        assert(normal_field(f, w0));
        assert(ws.len() == schema.len());
    } else {
        assert(read_fields(schema, es)->Ok_0 =~= Seq::<Val>::empty());
    }
}

/// A required field that the entries lack makes reading fail.
pub proof fn lemma_missing_required(schema: Seq<FieldTy>, es: Seq<(Seq<char>, Val)>, i: int)
    requires
        0 <= i < schema.len(),
        !schema[i].optional,
        absent(es, schema[i].name),
    ensures
        read_record(schema, Val::Record(es)) is Err,
    decreases i,
{
    if i == 0 {
        lemma_lookup_absent(es, schema[0].name);
    } else {
        let s1 = schema.subrange(1, schema.len() as int);
        assert(s1[i - 1] == schema[i]);
        lemma_missing_required(s1, es, i - 1);
        assert(read_fields(s1, es) is Err);
        match read_field(schema[0], lookup(es, schema[0].name)) {
            Ok(w) => {
                assert(read_fields(schema, es) is Err);
            },
            Err(e) => {
                assert(read_fields(schema, es) is Err);
            },
        }
    }
}

pub proof fn lemma_wf_fields_from_index(schema: Seq<FieldTy>)
    requires
        forall|i: int| 0 <= i < schema.len() ==> wf_ty(#[trigger] schema[i].ty),
    ensures
        wf_fields(schema),
    decreases schema.len(),
{
    if schema.len() > 0 {
        let s1 = schema.subrange(1, schema.len() as int);
        assert forall|i: int| 0 <= i < s1.len() implies wf_ty(#[trigger] s1[i].ty) by {
            assert(s1[i] == schema[i + 1]);
        }
        lemma_wf_fields_from_index(s1);
    }
}

pub proof fn lemma_normal_fields_from_index(schema: Seq<FieldTy>, vals: Seq<Val>)
    requires
        vals.len() == schema.len(),
        forall|i: int| 0 <= i < schema.len() ==> normal_field(schema[i], #[trigger] vals[i]),
    ensures
        normal_fields(schema, vals),
    decreases schema.len(),
{
    if schema.len() > 0 {
        let s1 = schema.subrange(1, schema.len() as int);
        let v1 = vals.subrange(1, vals.len() as int);
        assert forall|i: int| 0 <= i < s1.len() implies normal_field(s1[i], #[trigger] v1[i]) by {
            assert(s1[i] == schema[i + 1]);
            assert(v1[i] == vals[i + 1]);
        }
        lemma_normal_fields_from_index(s1, v1);
        assert(normal_field(schema[0], vals[0]));
    }
}

pub proof fn lemma_normal_list_index(ty: Ty, ws: Seq<Val>)
    requires
        normal_list(ty, ws),
    ensures
        forall|i: int| 0 <= i < ws.len() ==> normal(ty, #[trigger] ws[i]),
    decreases ws.len(),
{
    if ws.len() > 0 {
        let w1 = ws.subrange(1, ws.len() as int);
        lemma_normal_list_index(ty, w1);
        assert forall|i: int| 0 <= i < ws.len() implies normal(ty, #[trigger] ws[i]) by {
            if i > 0 {
                assert(w1[i - 1] == ws[i]);
            }
        }
    }
}

pub proof fn lemma_normal_list_from_index(ty: Ty, ws: Seq<Val>)
    requires
        forall|i: int| 0 <= i < ws.len() ==> normal(ty, #[trigger] ws[i]),
    ensures
        normal_list(ty, ws),
    decreases ws.len(),
{
    if ws.len() > 0 {
        let w1 = ws.subrange(1, ws.len() as int);
        assert forall|i: int| 0 <= i < w1.len() implies normal(ty, #[trigger] w1[i]) by {
            assert(w1[i] == ws[i + 1]);
        }
        lemma_normal_list_from_index(ty, w1);
        assert(normal(ty, ws[0]));
    }
}

pub proof fn lemma_normal_dict_index(ty: Ty, es: Seq<(Seq<char>, Val)>)
    requires
        normal_dict(ty, es),
    ensures
        forall|i: int| 0 <= i < es.len() ==> normal(ty, #[trigger] es[i].1),
    decreases es.len(),
{
    if es.len() > 0 {
        let e1 = es.subrange(1, es.len() as int);
        lemma_normal_dict_index(ty, e1);
        assert forall|i: int| 0 <= i < es.len() implies normal(ty, #[trigger] es[i].1) by {
            if i > 0 {
                assert(e1[i - 1] == es[i]);
            }
        }
    }
}

pub proof fn lemma_normal_dict_from_index(ty: Ty, es: Seq<(Seq<char>, Val)>)
    requires
        forall|i: int| 0 <= i < es.len() ==> normal(ty, #[trigger] es[i].1),
    ensures
        normal_dict(ty, es),
    decreases es.len(),
{
    if es.len() > 0 {
        let e1 = es.subrange(1, es.len() as int);
        assert forall|i: int| 0 <= i < e1.len() implies normal(ty, #[trigger] e1[i].1) by {
            assert(e1[i] == es[i + 1]);
        }
        lemma_normal_dict_from_index(ty, e1);
        assert(normal(ty, es[0].1));
    }
}

/// Some field of the schema is named `name`.
pub open spec fn has_name(schema: Seq<FieldTy>, name: Seq<char>) -> bool {
    exists|i: int| 0 <= i < schema.len() && #[trigger] schema[i].name == name
}

/// The entries whose names the schema knows, in their order.
pub open spec fn known_entries(schema: Seq<FieldTy>, es: Seq<(Seq<char>, Val)>) -> Seq<
    (Seq<char>, Val),
>
    decreases es.len(),
{
    if es.len() == 0 {
        Seq::empty()
    } else if has_name(schema, es[0].0) {
        seq![es[0]] + known_entries(schema, es.subrange(1, es.len() as int))
    } else {
        known_entries(schema, es.subrange(1, es.len() as int))
    }
}

proof fn lemma_lookup_known(schema: Seq<FieldTy>, es: Seq<(Seq<char>, Val)>, name: Seq<char>)
    requires
        has_name(schema, name),
    ensures
        lookup(es, name) == lookup(known_entries(schema, es), name),
    decreases es.len(),
{
    if es.len() > 0 {
        let rest = es.subrange(1, es.len() as int);
        lemma_lookup_known(schema, rest, name);
        if has_name(schema, es[0].0) {
            let k = seq![es[0]] + known_entries(schema, rest);
            assert(k[0] == es[0]);
            assert(k.subrange(1, k.len() as int) =~= known_entries(schema, rest));
        }
    }
}

proof fn lemma_read_fields_same_lookups(
    schema: Seq<FieldTy>,
    es1: Seq<(Seq<char>, Val)>,
    es2: Seq<(Seq<char>, Val)>,
)
    requires
        forall|i: int|
            0 <= i < schema.len() ==> lookup(es1, #[trigger] schema[i].name) == lookup(
                es2,
                schema[i].name,
            ),
    ensures
        read_fields(schema, es1) == read_fields(schema, es2),
    decreases schema.len(),
{
    if schema.len() > 0 {
        let s1 = schema.subrange(1, schema.len() as int);
        assert forall|i: int| 0 <= i < s1.len() implies lookup(es1, #[trigger] s1[i].name) == lookup(
            es2,
            s1[i].name,
        ) by {
            assert(s1[i] == schema[i + 1]);
        }
        lemma_read_fields_same_lookups(s1, es1, es2);
        assert(lookup(es1, schema[0].name) == lookup(es2, schema[0].name));
    }
}

/// Unknown fields are tolerated, wherever they stand: two maps whose entries
/// under the schema's names are the same, in the same order, read as the
/// same record, whatever other entries either holds and wherever they are.
pub proof fn lemma_only_known_entries_matter(
    schema: Seq<FieldTy>,
    es1: Seq<(Seq<char>, Val)>,
    es2: Seq<(Seq<char>, Val)>,
)
    requires
        known_entries(schema, es1) == known_entries(schema, es2),
    ensures
        read_record(schema, Val::Record(es1)) == read_record(schema, Val::Record(es2)),
{
    assert forall|i: int| 0 <= i < schema.len() implies lookup(es1, #[trigger] schema[i].name)
        == lookup(es2, schema[i].name) by {
        assert(has_name(schema, schema[i].name));
        lemma_lookup_known(schema, es1, schema[i].name);
        lemma_lookup_known(schema, es2, schema[i].name);
    }
    lemma_read_fields_same_lookups(schema, es1, es2);
}

/// The value found under each field's name in the entries, nil where there
/// is none.
pub open spec fn by_name(schema: Seq<FieldTy>, es: Seq<(Seq<char>, Val)>) -> Seq<Val> {
    Seq::new(
        schema.len(),
        |j: int|
            match lookup(es, schema[j].name) {
                Some(x) => x,
                None => Val::Nil,
            },
    )
}

/// `newer` is `older` with optional fields added anywhere: it has every
/// field of `older`, and each of its other fields is optional, under a name
/// that `older` does not use.
#[verifier::opaque]
pub open spec fn extends(newer: Seq<FieldTy>, older: Seq<FieldTy>) -> bool {
    &&& forall|i: int|
        0 <= i < older.len() ==> exists|j: int| 0 <= j < newer.len() && newer[j] == #[trigger] older[i]
    &&& forall|j: int|
        0 <= j < newer.len() ==> (exists|i: int| 0 <= i < older.len() && older[i] == #[trigger] newer[j])
            || (newer[j].optional && !has_name(older, newer[j].name))
}

proof fn lemma_extends_new_field(newer: Seq<FieldTy>, older: Seq<FieldTy>, j: int) -> (i: int)
    requires
        extends(newer, older),
        0 <= j < newer.len(),
    ensures
        (0 <= i < older.len() && older[i] == newer[j]) || (i == -1 && newer[j].optional && !has_name(
            older,
            newer[j].name,
        )),
{
    reveal(extends);
    if exists|i: int| 0 <= i < older.len() && older[i] == #[trigger] newer[j] {
        choose|i: int| 0 <= i < older.len() && older[i] == #[trigger] newer[j]
    } else {
        -1
    }
}

proof fn lemma_extends_old_field(newer: Seq<FieldTy>, older: Seq<FieldTy>, i: int) -> (j: int)
    requires
        extends(newer, older),
        0 <= i < older.len(),
    ensures
        0 <= j < newer.len() && newer[j] == older[i],
{
    reveal(extends);
    choose|j: int| 0 <= j < newer.len() && newer[j] == #[trigger] older[i]
}

proof fn lemma_field_found(older: Seq<FieldTy>, vals: Seq<Val>, i: int)
    requires
        names_distinct(older),
        0 <= i < older.len(),
        wf_ty(older[i].ty),
        normal_field(older[i], vals[i]),
    ensures
        lookup(write_entries(older, vals), older[i].name) == Some(vals[i]),
        read_field(older[i], Some(vals[i])) == Ok::<Val, DecodeError>(vals[i]),
{
    lemma_lookup_written(older, vals, i);
    if !(older[i].optional && vals[i] == Val::Nil) {
        lemma_read_normal(older[i].ty, vals[i]);
    }
}

proof fn lemma_field_added(older: Seq<FieldTy>, vals: Seq<Val>, f: FieldTy)
    requires
        f.optional,
        !has_name(older, f.name),
    ensures
        lookup(write_entries(older, vals), f.name) is None,
        read_field(f, None) == Ok::<Val, DecodeError>(Val::Nil),
{
    let es = write_entries(older, vals);
    assert forall|k: int| 0 <= k < es.len() implies #[trigger] es[k].0 != f.name by {
        if es[k].0 == f.name {
            assert(older[k].name == f.name);
            assert(has_name(older, f.name));
        }
    }
    lemma_lookup_absent(es, f.name);
}

/// Additive evolution, old writer and new reader: a record written under
/// `older` reads under a schema that extends it as the old values under
/// their names and nil for the added fields.
pub proof fn lemma_read_extended(older: Seq<FieldTy>, newer: Seq<FieldTy>, vals: Seq<Val>)
    requires
        wf_schema(older),
        wf_schema(newer),
        extends(newer, older),
        normal_fields(older, vals),
    ensures
        read_record(newer, write_record(older, vals)) == Ok::<Seq<Val>, DecodeError>(
            by_name(newer, write_entries(older, vals)),
        ),
{
    let es = write_entries(older, vals);
    let ws = by_name(newer, es);
    lemma_normal_fields_index(older, vals);
    lemma_wf_fields_index(older);
    assert forall|j: int|
        0 <= j < newer.len() implies read_field(newer[j], lookup(es, #[trigger] newer[j].name))
        == Ok::<Val, DecodeError>(ws[j]) by {
        let i = lemma_extends_new_field(newer, older, j);
        if i >= 0 {
            lemma_field_found(older, vals, i);
        } else {
            lemma_field_added(older, vals, newer[j]);
        }
    }
    lemma_read_fields_each(newer, es, ws);
}

/// Additive evolution, new writer and old reader: a record written under a
/// schema that extends `older` reads under `older` as the values under the
/// names that `older` knows; the added fields are ignored.
pub proof fn lemma_read_extension(older: Seq<FieldTy>, newer: Seq<FieldTy>, vals: Seq<Val>)
    requires
        wf_schema(older),
        wf_schema(newer),
        extends(newer, older),
        normal_fields(newer, vals),
    ensures
        read_record(older, write_record(newer, vals)) == Ok::<Seq<Val>, DecodeError>(
            by_name(older, write_entries(newer, vals)),
        ),
{
    let es = write_entries(newer, vals);
    let ws = by_name(older, es);
    lemma_normal_fields_index(newer, vals);
    lemma_wf_fields_index(newer);
    assert forall|i: int|
        0 <= i < older.len() implies read_field(older[i], lookup(es, #[trigger] older[i].name))
        == Ok::<Val, DecodeError>(ws[i]) by {
        let j = lemma_extends_old_field(newer, older, i);
        lemma_field_found(newer, vals, j);
    }
    lemma_read_fields_each(older, es, ws);
}

} // verus!
