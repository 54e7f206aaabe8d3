//! Typed messages: records with a schema, and their envelopes.
use vstd::prelude::*;
use crate::envelope::{decode_value, encode_value, DecodeError, EncodeError};
use crate::fieldkit::entry_val;
use crate::reader::{read_record_fields, tys_of, FieldKind, Kind};
use crate::schema::{
    absent, by_name, extends, known_entries, lemma_missing_required, lemma_only_known_entries_matter,
    lemma_read_extended, lemma_read_extension, lemma_read_fields_is_normal, lemma_read_written,
    lemma_normal_fields_index, lemma_normal_list_from_index, lemma_normal_list_index,
    normal, normal_fields, read_record, values_of, wf_schema,
    wf_ty, write_entries, write_record, FieldTy, Ty,
};
use crate::value::{lemma_view_fields, lemma_view_fields_push, models, view_fields, Field, Val, Value};
use crate::schema::lemma_normal_dict_from_index;
use crate::schema::lemma_normal_dict_index;
use crate::wire::{enc, encodable, lemma_parse_all_enc, parse_all};

verus! {

/// A record type that travels in envelopes.
pub trait Message: Sized {
    /// Its schema: the fields in the order they are written.
    spec fn schema() -> Seq<FieldTy>;

    /// The model of a record: its field values in schema order, an absent
    /// optional field as nil.
    spec fn fields(&self) -> Seq<Val>;

    /// The schema, as a program holds it.
    fn kinds() -> (r: Vec<FieldKind>)
        ensures
            tys_of(r@) == Self::schema(),
    ;

    /// The field values in schema order.
    fn to_fields(&self) -> (r: Vec<Value>)
        ensures
            models(r@) == self.fields(),
    ;

    /// The record whose field values are those of normal entries of the
    /// schema.
    fn from_fields(entries: &Vec<Field>) -> (r: Self)
        requires
            normal_fields(Self::schema(), values_of(view_fields(entries@))),
        ensures
            r.fields() == values_of(view_fields(entries@)),
    ;

    /// The schema is well formed.
    proof fn lemma_schema_wf()
        ensures
            wf_schema(Self::schema()),
    ;

    /// Every record is in normal form.
    proof fn lemma_normal(&self)
        ensures
            normal_fields(Self::schema(), self.fields()),
    ;
}

/// What decoding bytes as a record of `T` gives: its field values, or why
/// it fails.
pub open spec fn decoded<T: Message>(b: Seq<u8>) -> Result<Seq<Val>, DecodeError> {
    match parse_all(b) {
        Some(v) => read_record(T::schema(), v),
        None => Err(DecodeError::Malformed),
    }
}

/// The envelope value of a record.
pub fn to_value<T: Message>(msg: &T) -> (r: Value)
    ensures
        r@ == write_record(T::schema(), msg.fields()),
{
    let kinds = T::kinds();
    let mut vals = msg.to_fields();
    let ghost schema = T::schema();
    let ghost all = msg.fields();
    proof {
        crate::reader::lemma_tys_of(kinds@);
        msg.lemma_normal();
        crate::schema::lemma_normal_fields_index(schema, all);
    }
    let mut out: Vec<Field> = Vec::new();
    let mut i: usize = 0;
    assert(models(vals@) =~= all.subrange(0, all.len() as int));
    assert(view_fields(out@) =~= write_entries(schema.subrange(0, 0), all.subrange(0, 0)));
    while i < kinds.len()
        invariant
            i <= kinds@.len(),
            schema == tys_of(kinds@),
            schema.len() == kinds@.len(),
            all.len() == schema.len(),
            forall|j: int| 0 <= j < kinds@.len() ==> (#[trigger] schema[j]).name == kinds@[j].name@,
            models(vals@) == all.subrange(i as int, all.len() as int),
            vals@.len() == all.len() - i,
            view_fields(out@) == write_entries(schema.subrange(0, i as int), all.subrange(0, i as int)),
        decreases kinds@.len() - i,
    {
        assert(models(vals@)[0] == all[i as int]);
        let ghost old_vals = vals@;
        let v = vals.remove(0);
        assert forall|j: int| 0 <= j < vals@.len() implies #[trigger] vals@[j] == old_vals[j + 1] by {}
        assert forall|j: int| 0 <= j < vals@.len() implies models(vals@)[j] == all[i + 1 + j] by {
            assert(models(old_vals)[j + 1] == all[i + 1 + j]);
        }
        assert(models(vals@) =~= all.subrange(i + 1, all.len() as int));
        let f = Field { name: kinds[i].name.to_owned(), value: v };
        proof {
            lemma_view_fields_push(out@, f);
        }
        out.push(f);
        assert(view_fields(out@) =~= write_entries(
            schema.subrange(0, i + 1),
            all.subrange(0, i + 1),
        ));
        i = i + 1;
    }
    assert(schema.subrange(0, i as int) =~= schema);
    assert(all.subrange(0, i as int) =~= all);
    assert(write_entries(schema, all) =~= write_entries(schema.subrange(0, i as int), all.subrange(0, i as int)));
    Value::Record(out)
}

/// Writes a record's envelope: `Ok` exactly when the format can hold it.
pub fn encode<T: Message>(msg: &T) -> (r: Result<Vec<u8>, EncodeError>)
    ensures
        match r {
            Ok(b) => encodable(write_record(T::schema(), msg.fields())) && b@ == enc(
                write_record(T::schema(), msg.fields()),
            ),
            Err(_) => !encodable(write_record(T::schema(), msg.fields())),
        },
{
    let v = to_value(msg);
    encode_value(&v)
}

/// Reads a record of `T` from an envelope value, looking its fields up by
/// name.
pub fn from_value<T: Message>(v: &Value) -> (r: Result<T, DecodeError>)
    ensures
        match r {
            Ok(m) => read_record(T::schema(), v@) == Ok::<Seq<Val>, DecodeError>(m.fields()),
            Err(e) => read_record(T::schema(), v@) == Err::<Seq<Val>, DecodeError>(e),
        },
{
    match v {
        Value::Record(fields) => {
            let kinds = T::kinds();
            match read_record_fields(&kinds, fields) {
                Ok(ws) => {
                    let ghost read = crate::schema::read_fields(T::schema(), view_fields(fields@))->Ok_0;
                    proof {
                        lemma_read_fields_is_normal(T::schema(), view_fields(fields@));
                        assert(values_of(view_fields(ws@)) =~= read);
                    }
                    Ok(T::from_fields(&ws))
                },
                Err(e) => Err(e),
            }
        },
        _ => Err(DecodeError::WrongType),
    }
}

/// Reads a record of `T` from its envelope.
pub fn decode<T: Message>(b: &[u8]) -> (r: Result<T, DecodeError>)
    ensures
        match r {
            Ok(m) => decoded::<T>(b@) == Ok::<Seq<Val>, DecodeError>(m.fields()),
            Err(e) => decoded::<T>(b@) == Err::<Seq<Val>, DecodeError>(e),
        },
{
    match decode_value(b) {
        Ok(v) => from_value(&v),
        Err(e) => Err(e),
    }
}

/// Round trip: decoding the envelope of a record gives the record back.
pub proof fn lemma_round_trip<T: Message>(msg: T)
    requires
        encodable(write_record(T::schema(), msg.fields())),
    ensures
        decoded::<T>(enc(write_record(T::schema(), msg.fields()))) == Ok::<Seq<Val>, DecodeError>(
            msg.fields(),
        ),
{
    T::lemma_schema_wf();
    msg.lemma_normal();
    lemma_parse_all_enc(write_record(T::schema(), msg.fields()));
    lemma_read_written(T::schema(), msg.fields());
}

/// Unknown fields are tolerated, wherever they stand: two envelopes whose
/// entries under `T`'s field names are the same, in the same order, decode
/// to the same result, whatever other entries either holds and wherever.
pub proof fn lemma_unknown_fields_tolerated<T: Message>(
    es: Seq<(Seq<char>, Val)>,
    with_unknown: Seq<(Seq<char>, Val)>,
)
    requires
        known_entries(T::schema(), es) == known_entries(T::schema(), with_unknown),
        encodable(Val::Record(es)),
        encodable(Val::Record(with_unknown)),
    ensures
        decoded::<T>(enc(Val::Record(with_unknown))) == decoded::<T>(enc(Val::Record(es))),
{
    lemma_parse_all_enc(Val::Record(es));
    lemma_parse_all_enc(Val::Record(with_unknown));
    lemma_only_known_entries_matter(T::schema(), es, with_unknown);
}

/// A required field missing from an envelope makes decoding fail.
pub proof fn lemma_missing_field_rejected<T: Message>(es: Seq<(Seq<char>, Val)>, i: int)
    requires
        0 <= i < T::schema().len(),
        !T::schema()[i].optional,
        absent(es, T::schema()[i].name),
        encodable(Val::Record(es)),
    ensures
        decoded::<T>(enc(Val::Record(es))) is Err,
{
    lemma_parse_all_enc(Val::Record(es));
    lemma_missing_required(T::schema(), es, i);
}

/// Additive evolution: where `New`'s schema is `Old`'s with optional fields
/// added anywhere, an `Old` envelope decodes as `New` with the old values
/// under their names and the added fields absent, and a `New` envelope
/// decodes as `Old`, the added fields ignored.
pub proof fn lemma_additive_evolution<Old: Message, New: Message>(older: Old, newer: New)
    requires
        extends(New::schema(), Old::schema()),
        encodable(write_record(Old::schema(), older.fields())),
        encodable(write_record(New::schema(), newer.fields())),
    ensures
        decoded::<New>(enc(write_record(Old::schema(), older.fields()))) == Ok::<
            Seq<Val>,
            DecodeError,
        >(by_name(New::schema(), write_entries(Old::schema(), older.fields()))),
        decoded::<Old>(enc(write_record(New::schema(), newer.fields()))) == Ok::<
            Seq<Val>,
            DecodeError,
        >(by_name(Old::schema(), write_entries(New::schema(), newer.fields()))),
{
    Old::lemma_schema_wf();
    New::lemma_schema_wf();
    older.lemma_normal();
    newer.lemma_normal();
    lemma_parse_all_enc(write_record(Old::schema(), older.fields()));
    lemma_parse_all_enc(write_record(New::schema(), newer.fields()));
    lemma_read_extended(Old::schema(), New::schema(), older.fields());
    lemma_read_extension(Old::schema(), New::schema(), newer.fields());
}

/// The model of a nested record.
pub open spec fn record_val<T: Message>(x: T) -> Val {
    write_record(T::schema(), x.fields())
}

/// The model of a list of records.
pub open spec fn record_list_val<T: Message>(items: Seq<T>) -> Val {
    Val::Array(Seq::new(items.len(), |i: int| record_val(items[i])))
}

/// The type of a field that nests a record of `T`, and the type of a field
/// that holds a list of them.
pub open spec fn record_ty<T: Message>() -> Ty {
    Ty::Record(T::schema())
}

pub open spec fn record_list_ty<T: Message>() -> Ty {
    Ty::List(Box::new(Ty::Record(T::schema())))
}

pub fn record_kind<T: Message>() -> (k: Kind)
    ensures
        k@ == record_ty::<T>(),
{
    Kind::Record(T::kinds())
}

pub fn record_list_kind<T: Message>() -> (k: Kind)
    ensures
        k@ == record_list_ty::<T>(),
{
    let inner = Kind::Record(T::kinds());
    let k = Kind::List(Box::new(inner));
    assert(crate::reader::ty_of(inner) == Ty::Record(T::schema()));
    k
}

pub proof fn lemma_record_ty_wf<T: Message>()
    ensures
        wf_ty(record_ty::<T>()),
        wf_ty(record_list_ty::<T>()),
{
    T::lemma_schema_wf();
    assert(wf_ty(Ty::Record(T::schema())));
}

pub proof fn lemma_record_normal<T: Message>(x: T)
    ensures
        normal(record_ty::<T>(), record_val(x)),
{
    x.lemma_normal();
    lemma_normal_fields_index(T::schema(), x.fields());
    assert(values_of(write_entries(T::schema(), x.fields())) =~= x.fields());
}

pub proof fn lemma_record_list_normal<T: Message>(items: Seq<T>)
    ensures
        normal(record_list_ty::<T>(), record_list_val(items)),
{
    let ws = record_list_val(items)->Array_0;
    assert forall|i: int| 0 <= i < ws.len() implies normal(record_ty::<T>(), #[trigger] ws[i]) by {
        lemma_record_normal(items[i]);
    }
    lemma_normal_list_from_index(record_ty::<T>(), ws);
}

pub fn record_list_value<T: Message>(items: &Vec<T>) -> (r: Value)
    ensures
        r@ == record_list_val(items@),
{
    let mut out: Vec<Value> = Vec::new();
    let mut i: usize = 0;
    while i < items.len()
        invariant
            i <= items@.len(),
            out@.len() == i,
            forall|j: int| 0 <= j < i ==> (#[trigger] out@[j])@ == record_val(items@[j]),
        decreases items@.len() - i,
    {
        out.push(to_value(&items[i]));
        i = i + 1;
    }
    let r = Value::Array(out);
    assert(r@->Array_0 =~= record_list_val(items@)->Array_0);
    r
}

/// The record of `T` that a normal value holds.
pub fn record_from<T: Message>(v: &Value) -> (r: T)
    requires
        normal(record_ty::<T>(), v@),
    ensures
        record_val(r) == v@,
{
    match v {
        Value::Record(fs) => {
            let r = T::from_fields(fs);
            r
        },
        _ => T::from_fields(&Vec::new()),
    }
}

pub fn get_record<T: Message>(entries: &Vec<Field>, i: usize) -> (r: T)
    requires
        i < entries@.len(),
        normal(record_ty::<T>(), entry_val(entries@, i as int)),
    ensures
        record_val(r) == entry_val(entries@, i as int),
{
    proof {
        lemma_view_fields(entries@);
    }
    record_from(&entries[i].value)
}

pub fn get_record_list<T: Message>(entries: &Vec<Field>, i: usize) -> (r: Vec<T>)
    requires
        i < entries@.len(),
        normal(record_list_ty::<T>(), entry_val(entries@, i as int)),
    ensures
        record_list_val(r@) == entry_val(entries@, i as int),
{
    proof {
        lemma_view_fields(entries@);
    }
    let mut out: Vec<T> = Vec::new();
    match &entries[i].value {
        Value::Array(items) => {
            let ghost ws = entries@[i as int].value@->Array_0;
            proof {
                lemma_normal_list_index(record_ty::<T>(), ws);
            }
            let mut j: usize = 0;
            while j < items.len()
                invariant
                    j <= items@.len(),
                    ws.len() == items@.len(),
                    forall|k: int| 0 <= k < items@.len() ==> ws[k] == #[trigger] items@[k]@,
                    forall|k: int| 0 <= k < ws.len() ==> normal(record_ty::<T>(), #[trigger] ws[k]),
                    out@.len() == j,
                    forall|k: int| 0 <= k < j ==> record_val(#[trigger] out@[k]) == ws[k],
                decreases items@.len() - j,
            {
                assert(normal(record_ty::<T>(), ws[j as int]));
                out.push(record_from(&items[j]));
                j = j + 1;
            }
            assert(record_list_val(out@)->Array_0 =~= ws);
        },
        _ => {},
    }
    out
}

/// The model of an optional list of records.
pub open spec fn opt_record_list_val<T: Message>(items: Option<Vec<T>>) -> Val {
    match items {
        Some(v) => record_list_val(v@),
        None => Val::Nil,
    }
}

pub fn opt_record_list_value<T: Message>(items: &Option<Vec<T>>) -> (r: Value)
    ensures
        r@ == opt_record_list_val(*items),
{
    match items {
        Some(v) => record_list_value(v),
        None => Value::Nil,
    }
}

pub fn get_opt_record_list<T: Message>(entries: &Vec<Field>, i: usize) -> (r: Option<Vec<T>>)
    requires
        i < entries@.len(),
        normal(record_list_ty::<T>(), entry_val(entries@, i as int)) || entry_val(entries@, i as int) is Nil,
    ensures
        opt_record_list_val(r) == entry_val(entries@, i as int),
{
    proof {
        lemma_view_fields(entries@);
    }
    match &entries[i].value {
        Value::Nil => None,
        _ => Some(get_record_list(entries, i)),
    }
}

pub proof fn lemma_opt_record_list_normal<T: Message>(items: Option<Vec<T>>)
    ensures
        items is Some ==> normal(record_list_ty::<T>(), opt_record_list_val(items)),
        items is None ==> opt_record_list_val(items) == Val::Nil,
{
    if let Some(v) = items {
        lemma_record_list_normal(v@);
    }
}

/// The type of a map from texts to records of `T`.
pub open spec fn record_dict_ty<T: Message>() -> Ty {
    Ty::Dict(Box::new(Ty::Record(T::schema())))
}

pub fn record_dict_kind<T: Message>() -> (k: Kind)
    ensures
        k@ == record_dict_ty::<T>(),
{
    let inner = Kind::Record(T::kinds());
    let k = Kind::Dict(Box::new(inner));
    assert(crate::reader::ty_of(inner) == Ty::Record(T::schema()));
    k
}

pub proof fn lemma_record_dict_ty_wf<T: Message>()
    ensures
        wf_ty(record_dict_ty::<T>()),
{
    T::lemma_schema_wf();
    assert(wf_ty(Ty::Record(T::schema())));
}

/// The model of a map from texts to records, held as pairs.
pub open spec fn record_dict_val<T: Message>(pairs: Seq<(String, T)>) -> Val {
    Val::Record(Seq::new(pairs.len(), |i: int| (pairs[i].0@, record_val(pairs[i].1))))
}

pub fn record_dict_value<T: Message>(pairs: &Vec<(String, T)>) -> (r: Value)
    ensures
        r@ == record_dict_val(pairs@),
{
    let mut out: Vec<Field> = Vec::new();
    let mut i: usize = 0;
    assert(view_fields(out@) =~= record_dict_val(pairs@)->Record_0.subrange(0, 0));
    while i < pairs.len()
        invariant
            i <= pairs@.len(),
            view_fields(out@) == record_dict_val(pairs@)->Record_0.subrange(0, i as int),
        decreases pairs@.len() - i,
    {
        let f = Field { name: pairs[i].0.clone(), value: to_value(&pairs[i].1) };
        proof {
            lemma_view_fields_push(out@, f);
        }
        out.push(f);
        assert(view_fields(out@) =~= record_dict_val(pairs@)->Record_0.subrange(0, i + 1));
        i = i + 1;
    }
    assert(record_dict_val(pairs@)->Record_0.subrange(0, i as int) =~= record_dict_val(pairs@)->Record_0);
    Value::Record(out)
}

pub fn get_record_dict<T: Message>(entries: &Vec<Field>, i: usize) -> (r: Vec<(String, T)>)
    requires
        i < entries@.len(),
        normal(record_dict_ty::<T>(), entry_val(entries@, i as int)),
    ensures
        record_dict_val(r@) == entry_val(entries@, i as int),
{
    proof {
        lemma_view_fields(entries@);
    }
    let mut out: Vec<(String, T)> = Vec::new();
    match &entries[i].value {
        Value::Record(fs) => {
            let ghost es = view_fields(fs@);
            proof {
                lemma_view_fields(fs@);
                lemma_normal_dict_index(record_ty::<T>(), es);
            }
            let mut j: usize = 0;
            while j < fs.len()
                invariant
                    j <= fs@.len(),
                    es == view_fields(fs@),
                    es.len() == fs@.len(),
                    forall|k: int| 0 <= k < fs@.len() ==> #[trigger] es[k] == (fs@[k].name@, fs@[k].value@),
                    forall|k: int| 0 <= k < es.len() ==> normal(record_ty::<T>(), #[trigger] es[k].1),
                    out@.len() == j,
                    forall|k: int| 0 <= k < j ==> (#[trigger] out@[k]).0@ == es[k].0 && record_val(out@[k].1) == es[k].1,
                decreases fs@.len() - j,
            {
                assert(normal(record_ty::<T>(), es[j as int].1));
                let x: T = record_from(&fs[j].value);
                out.push((fs[j].name.clone(), x));
                j = j + 1;
            }
            assert(record_dict_val(out@)->Record_0 =~= es);
        },
        _ => {},
    }
    out
}

pub proof fn lemma_record_dict_normal<T: Message>(pairs: Seq<(String, T)>)
    ensures
        normal(record_dict_ty::<T>(), record_dict_val(pairs)),
{
    let es = record_dict_val(pairs)->Record_0;
    assert forall|i: int| 0 <= i < es.len() implies normal(record_ty::<T>(), #[trigger] es[i].1) by {
        lemma_record_normal(pairs[i].1);
    }
    lemma_normal_dict_from_index(record_ty::<T>(), es);
}

/// The model of an optional nested record.
pub open spec fn opt_record_val<T: Message>(x: Option<T>) -> Val {
    match x {
        Some(r) => record_val(r),
        None => Val::Nil,
    }
}

pub fn opt_record_value<T: Message>(x: &Option<T>) -> (r: Value)
    ensures
        r@ == opt_record_val(*x),
{
    match x {
        Some(m) => to_value(m),
        None => Value::Nil,
    }
}

pub fn get_opt_record<T: Message>(entries: &Vec<Field>, i: usize) -> (r: Option<T>)
    requires
        i < entries@.len(),
        normal(record_ty::<T>(), entry_val(entries@, i as int)) || entry_val(entries@, i as int) is Nil,
    ensures
        opt_record_val(r) == entry_val(entries@, i as int),
{
    proof {
        lemma_view_fields(entries@);
    }
    match &entries[i].value {
        Value::Nil => None,
        _ => Some(get_record(entries, i)),
    }
}

pub proof fn lemma_opt_record_normal<T: Message>(x: Option<T>)
    ensures
        x is Some ==> normal(record_ty::<T>(), opt_record_val(x)),
        x is None ==> opt_record_val(x) == Val::Nil,
{
    if let Some(m) = x {
        lemma_record_normal(m);
    }
}

} // verus!
