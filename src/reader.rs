//! Executable schemas, and reading records out of envelope values with them.
use vstd::prelude::*;
use vstd::utf8::*;
use crate::envelope::DecodeError;
use crate::schema::{lookup, read_dict, read_field, read_fields, read_list, read_val, write_entries, FieldTy, Ty};
use crate::value::{lemma_view_fields, lemma_view_fields_push, models, view_fields, Field, Val, Value};

verus! {

/// The type of a field, as a program holds it.
#[derive(Debug)]
pub enum Kind {
    Bool,
    /// An integer between `min` and `max` inclusive.
    Int { min: i64, max: u64 },
    Str,
    Bin,
    Double,
    List(Box<Kind>),
    Dict(Box<Kind>),
    Record(Vec<FieldKind>),
}

/// A field of a schema, as a program holds it.
#[derive(Debug)]
pub struct FieldKind {
    pub name: &'static str,
    pub kind: Kind,
    pub optional: bool,
}

pub open spec fn ty_of(k: Kind) -> Ty
    decreases k,
{
    match k {
        Kind::Bool => Ty::Bool,
        Kind::Int { min, max } => Ty::Int { min: min as int, max: max as int },
        Kind::Str => Ty::Str,
        Kind::Bin => Ty::Bin,
        Kind::Double => Ty::Double,
        Kind::List(item) => Ty::List(Box::new(ty_of(*item))),
        Kind::Dict(item) => Ty::Dict(Box::new(ty_of(*item))),
        Kind::Record(fields) => Ty::Record(tys_of(fields@)),
    }
}

pub open spec fn tys_of(fields: Seq<FieldKind>) -> Seq<FieldTy>
    decreases fields,
{
    if fields.len() == 0 {
        Seq::empty()
    } else {
        tys_of(fields.drop_last()).push(
            FieldTy {
                name: fields.last().name@,
                ty: ty_of(fields.last().kind),
                optional: fields.last().optional,
            },
        )
    }
}

impl View for Kind {
    type V = Ty;

    open spec fn view(&self) -> Ty {
        ty_of(*self)
    }
}

pub proof fn lemma_tys_of(fields: Seq<FieldKind>)
    ensures
        tys_of(fields).len() == fields.len(),
        forall|j: int|
            0 <= j < fields.len() ==> #[trigger] tys_of(fields)[j] == (FieldTy {
                name: fields[j].name@,
                ty: ty_of(fields[j].kind),
                optional: fields[j].optional,
            }),
    decreases fields.len(),
{
    if fields.len() > 0 {
        lemma_tys_of(fields.drop_last());
    }
}

/// Whether two texts are equal, compared by their bytes.
pub fn same_text(a: &str, b: &str) -> (r: bool)
    ensures
        r == (a@ == b@),
{
    let x = a.as_bytes();
    let y = b.as_bytes();
    proof {
        encode_utf8_decode_utf8(a@);
        encode_utf8_decode_utf8(b@);
    }
    if x.len() != y.len() {
        return false;
    }
    let mut i: usize = 0;
    while i < x.len()
        invariant
            x@ == encode_utf8(a@),
            y@ == encode_utf8(b@),
            x@.len() == y@.len(),
            i <= x@.len(),
            forall|j: int| 0 <= j < i ==> x@[j] == y@[j],
        decreases x@.len() - i,
    {
        if x[i] != y[i] {
            return false;
        }
        i = i + 1;
    }
    assert(x@ =~= y@);
    true
}

/// The position of the first entry named `name`.
pub fn find_field(fields: &Vec<Field>, name: &str) -> (r: Option<usize>)
    ensures
        match r {
            Some(i) => i < fields@.len() && lookup(view_fields(fields@), name@) == Some(
                fields@[i as int].value@,
            ),
            None => lookup(view_fields(fields@), name@) is None,
        },
{
    let ghost es = view_fields(fields@);
    proof {
        lemma_view_fields(fields@);
        assert(es.subrange(0, es.len() as int) =~= es);
    }
    let mut i: usize = 0;
    while i < fields.len()
        invariant
            i <= fields@.len(),
            es == view_fields(fields@),
            es.len() == fields@.len(),
            forall|j: int| 0 <= j < fields@.len() ==> #[trigger] es[j] == (fields@[j].name@, fields@[j].value@),
            lookup(es, name@) == lookup(es.subrange(i as int, es.len() as int), name@),
        decreases fields@.len() - i,
    {
        let ghost rest = es.subrange(i as int, es.len() as int);
        assert(rest[0] == es[i as int]);
        if same_text(fields[i].name.as_str(), name) {
            return Some(i);
        }
        assert(rest.subrange(1, rest.len() as int) =~= es.subrange(i + 1, es.len() as int));
        i = i + 1;
    }
    None
}

/// Reads a value of kind `k`, as `read_val` says: the value in normal form,
/// or why it does not fit.
pub fn read_value(k: &Kind, v: &Value) -> (r: Result<Value, DecodeError>)
    ensures
        match r {
            Ok(w) => read_val(k@, v@) == Ok::<Val, DecodeError>(w@),
            Err(e) => read_val(k@, v@) == Err::<Val, DecodeError>(e),
        },
    decreases k, 0nat,
{
    match k {
        Kind::Bool => match v {
            Value::Bool(b) => Ok(Value::Bool(*b)),
            _ => Err(DecodeError::WrongType),
        },
        Kind::Int { min, max } => match v {
            Value::UInt(x) => if *x <= *max && (*min <= 0 || *x >= *min as u64) {
                Ok(Value::UInt(*x))
            } else {
                Err(DecodeError::WrongType)
            },
            Value::Int(x) => if *x >= *min && (*x < 0 || *x as u64 <= *max) {
                Ok(Value::Int(*x))
            } else {
                Err(DecodeError::WrongType)
            },
            _ => Err(DecodeError::WrongType),
        },
        Kind::Str => match v {
            Value::Str(s) => Ok(Value::Str(s.clone())),
            _ => Err(DecodeError::WrongType),
        },
        Kind::Bin => match v {
            Value::Bin(b) => Ok(Value::Bin(vstd::slice::slice_to_vec(b.as_slice()))),
            _ => Err(DecodeError::WrongType),
        },
        Kind::Double => match v {
            Value::Float64Bits(x) => Ok(Value::Float64Bits(*x)),
            _ => Err(DecodeError::WrongType),
        },
        Kind::List(item) => match v {
            Value::Array(items) => {
                proof {
                    assert(decreases_to!(*k => k->List_0));
                }
                match read_list_items(item, items) {
                    Ok(ws) => {
                        let r = Value::Array(ws);
                        assert(r@->Array_0 =~= models(ws@));
                        assert(v@->Array_0 =~= models(items@));
                        Ok(r)
                    },
                    Err(e) => {
                        assert(v@->Array_0 =~= models(items@));
                        Err(e)
                    },
                }
            },
            _ => Err(DecodeError::WrongType),
        },
        Kind::Dict(item) => match v {
            Value::Record(fields) => {
                proof {
                    assert(decreases_to!(*k => k->Dict_0));
                }
                match read_dict_entries(item, fields) {
                    Ok(ws) => Ok(Value::Record(ws)),
                    Err(e) => Err(e),
                }
            },
            _ => Err(DecodeError::WrongType),
        },
        Kind::Record(schema) => match v {
            Value::Record(fields) => {
                proof {
                    assert(decreases_to!(*k => k->Record_0));
                }
                match read_record_fields(schema, fields) {
                    Ok(ws) => Ok(Value::Record(ws)),
                    Err(e) => Err(e),
                }
            },
            _ => Err(DecodeError::WrongType),
        },
    }
}

fn read_list_items(k: &Kind, items: &Vec<Value>) -> (r: Result<Vec<Value>, DecodeError>)
    ensures
        match r {
            Ok(ws) => read_list(k@, models(items@)) == Ok::<Seq<Val>, DecodeError>(models(ws@)),
            Err(e) => read_list(k@, models(items@)) == Err::<Seq<Val>, DecodeError>(e),
        },
    decreases k, 1nat,
{
    let ghost all = models(items@);
    let mut out: Vec<Value> = Vec::new();
    let mut i: usize = 0;
    assert(all.subrange(0, all.len() as int) =~= all);
    assert(models(out@) + all =~= all);
    while i < items.len()
        invariant
            i <= items@.len(),
            all == models(items@),
            read_list(k@, all) == match read_list(k@, all.subrange(i as int, all.len() as int)) {
                Ok(rest) => Ok::<Seq<Val>, DecodeError>(models(out@) + rest),
                Err(e) => Err(e),
            },
        decreases items@.len() - i,
    {
        let ghost tail = all.subrange(i as int, all.len() as int);
        assert(tail[0] == items@[i as int]@);
        assert(tail.subrange(1, tail.len() as int) =~= all.subrange(i + 1, all.len() as int));
        match read_value(k, &items[i]) {
            Ok(w) => {
                let ghost before = models(out@);
                out.push(w);
                assert(models(out@) =~= before.push(w@));
                proof {
                    match read_list(k@, all.subrange(i + 1, all.len() as int)) {
                        Ok(rest) => {
                            assert(before + (seq![w@] + rest) =~= before.push(w@) + rest);
                        },
                        Err(e) => {},
                    }
                }
            },
            Err(e) => {
                return Err(e);
            },
        }
        i = i + 1;
    }
    assert(all.subrange(i as int, all.len() as int) =~= Seq::<Val>::empty());
    assert(models(out@) + Seq::<Val>::empty() =~= models(out@));
    Ok(out)
}

fn read_dict_entries(k: &Kind, fields: &Vec<Field>) -> (r: Result<Vec<Field>, DecodeError>)
    ensures
        match r {
            Ok(ws) => read_dict(k@, view_fields(fields@)) == Ok::<
                Seq<(Seq<char>, Val)>,
                DecodeError,
            >(view_fields(ws@)),
            Err(e) => read_dict(k@, view_fields(fields@)) == Err::<
                Seq<(Seq<char>, Val)>,
                DecodeError,
            >(e),
        },
    decreases k, 1nat,
{
    let ghost all = view_fields(fields@);
    proof {
        lemma_view_fields(fields@);
    }
    let mut out: Vec<Field> = Vec::new();
    let mut i: usize = 0;
    assert(all.subrange(0, all.len() as int) =~= all);
    assert(view_fields(out@) + all =~= all);
    while i < fields.len()
        invariant
            i <= fields@.len(),
            all == view_fields(fields@),
            all.len() == fields@.len(),
            forall|j: int| 0 <= j < fields@.len() ==> #[trigger] all[j] == (fields@[j].name@, fields@[j].value@),
            read_dict(k@, all) == match read_dict(k@, all.subrange(i as int, all.len() as int)) {
                Ok(rest) => Ok::<Seq<(Seq<char>, Val)>, DecodeError>(view_fields(out@) + rest),
                Err(e) => Err(e),
            },
        decreases fields@.len() - i,
    {
        let ghost tail = all.subrange(i as int, all.len() as int);
        assert(tail[0] == all[i as int]);
        assert(tail.subrange(1, tail.len() as int) =~= all.subrange(i + 1, all.len() as int));
        match read_value(k, &fields[i].value) {
            Ok(w) => {
                let ghost before = view_fields(out@);
                let f = Field { name: fields[i].name.clone(), value: w };
                let ghost entry = (f.name@, f.value@);
                proof {
                    lemma_view_fields_push(out@, f);
                }
                out.push(f);
                proof {
                    match read_dict(k@, all.subrange(i + 1, all.len() as int)) {
                        Ok(rest) => {
                            assert(before + (seq![entry] + rest) =~= before.push(entry) + rest);
                        },
                        Err(e) => {},
                    }
                }
            },
            Err(e) => {
                return Err(e);
            },
        }
        i = i + 1;
    }
    assert(all.subrange(i as int, all.len() as int) =~= Seq::<(Seq<char>, Val)>::empty());
    assert(view_fields(out@) + Seq::<(Seq<char>, Val)>::empty() =~= view_fields(out@));
    Ok(out)
}

/// Reads one field of a schema from a record's entries, as `read_field`
/// says.
fn read_one_field(f: &FieldKind, fields: &Vec<Field>) -> (r: Result<Value, DecodeError>)
    ensures
        match r {
            Ok(w) => read_field(
                FieldTy { name: f.name@, ty: f.kind@, optional: f.optional },
                lookup(view_fields(fields@), f.name@),
            ) == Ok::<Val, DecodeError>(w@),
            Err(e) => read_field(
                FieldTy { name: f.name@, ty: f.kind@, optional: f.optional },
                lookup(view_fields(fields@), f.name@),
            ) == Err::<Val, DecodeError>(e),
        },
    decreases f.kind, 1nat,
{
    match find_field(fields, f.name) {
        None => if f.optional {
            Ok(Value::Nil)
        } else {
            Err(DecodeError::MissingField)
        },
        Some(j) => {
            let v = &fields[j].value;
            if f.optional && matches!(v, Value::Nil) {
                Ok(Value::Nil)
            } else {
                read_value(&f.kind, v)
            }
        },
    }
}

/// Reads the fields of `schema` from a record's entries, each looked up by
/// name: the record in normal form, or why it does not fit.
pub fn read_record_fields(schema: &Vec<FieldKind>, fields: &Vec<Field>) -> (r: Result<
    Vec<Field>,
    DecodeError,
>)
    ensures
        match r {
            Ok(ws) => read_fields(tys_of(schema@), view_fields(fields@)) is Ok && view_fields(ws@)
                == write_entries(
                tys_of(schema@),
                read_fields(tys_of(schema@), view_fields(fields@))->Ok_0,
            ),
            Err(e) => read_fields(tys_of(schema@), view_fields(fields@)) == Err::<
                Seq<Val>,
                DecodeError,
            >(e),
        },
    decreases schema, 1nat,
{
    let ghost tys = tys_of(schema@);
    let ghost es = view_fields(fields@);
    proof {
        lemma_tys_of(schema@);
    }
    let mut out: Vec<Field> = Vec::new();
    let ghost mut ws: Seq<Val> = Seq::empty();
    let mut i: usize = 0;
    assert(tys.subrange(0, tys.len() as int) =~= tys);
    assert(ws + Seq::<Val>::empty() =~= ws);
    assert(view_fields(out@) =~= write_entries(tys.subrange(0, 0), ws));
    while i < schema.len()
        invariant
            i <= schema@.len(),
            tys == tys_of(schema@),
            es == view_fields(fields@),
            tys.len() == schema@.len(),
            forall|j: int|
                0 <= j < schema@.len() ==> #[trigger] tys[j] == (FieldTy {
                    name: schema@[j].name@,
                    ty: ty_of(schema@[j].kind),
                    optional: schema@[j].optional,
                }),
            ws.len() == i,
            view_fields(out@) == write_entries(tys.subrange(0, i as int), ws),
            read_fields(tys, es) == match read_fields(tys.subrange(i as int, tys.len() as int), es) {
                Ok(rest) => Ok::<Seq<Val>, DecodeError>(ws + rest),
                Err(e) => Err(e),
            },
        decreases schema@.len() - i,
    {
        let ghost tail = tys.subrange(i as int, tys.len() as int);
        assert(tail[0] == tys[i as int]);
        assert(tail.subrange(1, tail.len() as int) =~= tys.subrange(i + 1, tys.len() as int));
        proof {
            assert(decreases_to!(schema => schema@));
            assert(decreases_to!(schema@ => schema@[i as int]));
        }
        match read_one_field(&schema[i], fields) {
            Ok(w) => {
                let name = schema[i].name.to_owned();
                let f = Field { name, value: w };
                proof {
                    lemma_view_fields_push(out@, f);
                }
                out.push(f);
                proof {
                    let ws0 = ws;
                    ws = ws.push(w@);
                    assert(view_fields(out@) =~= write_entries(tys.subrange(0, i + 1), ws));
                    match read_fields(tys.subrange(i + 1, tys.len() as int), es) {
                        Ok(rest) => {
                            assert(ws0 + (seq![w@] + rest) =~= ws + rest);
                        },
                        Err(e) => {},
                    }
                }
            },
            Err(e) => {
                return Err(e);
            },
        }
        i = i + 1;
    }
    assert(tys.subrange(i as int, tys.len() as int) =~= Seq::<FieldTy>::empty());
    assert(ws + Seq::<Val>::empty() =~= ws);
    assert(tys.subrange(0, i as int) =~= tys);
    Ok(out)
}

} // verus!
