//! Building blocks for the schemas of message types: field types, and
//! reading typed values out of normal record entries.
use vstd::prelude::*;
use crate::reader::Kind;
use crate::schema::{
    lemma_normal_dict_index, lemma_normal_fields_index, lemma_normal_list_index, normal, normal_field,
    normal_fields, values_of, FieldTy, Ty,
};
use crate::value::{lemma_view_fields, lemma_view_fields_push, view_fields, Field, Val, Value};

verus! {

/// A required field.
pub open spec fn req(name: Seq<char>, ty: Ty) -> FieldTy {
    FieldTy { name, ty, optional: false }
}

/// An optional field.
pub open spec fn opt(name: Seq<char>, ty: Ty) -> FieldTy {
    FieldTy { name, ty, optional: true }
}

pub open spec fn i32_ty() -> Ty {
    Ty::Int { min: -0x8000_0000, max: 0x7fff_ffff }
}

pub open spec fn u32_ty() -> Ty {
    Ty::Int { min: 0, max: 0xffff_ffff }
}

pub open spec fn i64_ty() -> Ty {
    Ty::Int { min: -0x8000_0000_0000_0000, max: 0x7fff_ffff_ffff_ffff }
}

pub open spec fn u64_ty() -> Ty {
    Ty::Int { min: 0, max: 0xffff_ffff_ffff_ffff }
}

pub open spec fn str_list_ty() -> Ty {
    Ty::List(Box::new(Ty::Str))
}

pub fn i32_kind() -> (k: Kind)
    ensures
        k@ == i32_ty(),
{
    Kind::Int { min: -0x8000_0000, max: 0x7fff_ffff }
}

pub fn u32_kind() -> (k: Kind)
    ensures
        k@ == u32_ty(),
{
    Kind::Int { min: 0, max: 0xffff_ffff }
}

pub fn i64_kind() -> (k: Kind)
    ensures
        k@ == i64_ty(),
{
    Kind::Int { min: -0x8000_0000_0000_0000, max: 0x7fff_ffff_ffff_ffff }
}

pub fn u64_kind() -> (k: Kind)
    ensures
        k@ == u64_ty(),
{
    Kind::Int { min: 0, max: 0xffff_ffff_ffff_ffff }
}

pub fn str_list_kind() -> (k: Kind)
    ensures
        k@ == str_list_ty(),
{
    let k = Kind::List(Box::new(Kind::Str));
    assert(crate::reader::ty_of(Kind::Str) == Ty::Str);
    k
}

/// The model of an optional text.
pub open spec fn opt_str_val(s: Option<String>) -> Val {
    match s {
        Some(t) => Val::Str(t@),
        None => Val::Nil,
    }
}

/// The model of a list of texts.
pub open spec fn str_list_val(items: Seq<String>) -> Val {
    Val::Array(Seq::new(items.len(), |i: int| Val::Str(items[i]@)))
}

/// The value of entry `i`.
pub open spec fn entry_val(entries: Seq<Field>, i: int) -> Val {
    view_fields(entries)[i].1
}

pub fn opt_str_value(s: &Option<String>) -> (r: Value)
    ensures
        r@ == opt_str_val(*s),
{
    match s {
        Some(t) => Value::Str(t.clone()),
        None => Value::Nil,
    }
}

pub fn str_list_value(items: &Vec<String>) -> (r: Value)
    ensures
        r@ == str_list_val(items@),
{
    let mut out: Vec<Value> = Vec::new();
    let mut i: usize = 0;
    while i < items.len()
        invariant
            i <= items@.len(),
            out@.len() == i,
            forall|j: int| 0 <= j < i ==> (#[trigger] out@[j])@ == Val::Str(items@[j]@),
        decreases items@.len() - i,
    {
        out.push(Value::Str(items[i].clone()));
        i = i + 1;
    }
    let r = Value::Array(out);
    assert(r@->Array_0 =~= str_list_val(items@)->Array_0);
    r
}

pub fn get_str(entries: &Vec<Field>, i: usize) -> (r: String)
    requires
        i < entries@.len(),
        entry_val(entries@, i as int) is Str,
    ensures
        Val::Str(r@) == entry_val(entries@, i as int),
{
    proof {
        lemma_view_fields(entries@);
    }
    match &entries[i].value {
        Value::Str(s) => s.clone(),
        _ => String::new(),
    }
}

pub fn get_opt_str(entries: &Vec<Field>, i: usize) -> (r: Option<String>)
    requires
        i < entries@.len(),
        entry_val(entries@, i as int) is Str || entry_val(entries@, i as int) is Nil,
    ensures
        opt_str_val(r) == entry_val(entries@, i as int),
{
    proof {
        lemma_view_fields(entries@);
    }
    match &entries[i].value {
        Value::Str(s) => Some(s.clone()),
        _ => None,
    }
}

pub fn get_bool(entries: &Vec<Field>, i: usize) -> (r: bool)
    requires
        i < entries@.len(),
        entry_val(entries@, i as int) is Bool,
    ensures
        Val::Bool(r) == entry_val(entries@, i as int),
{
    proof {
        lemma_view_fields(entries@);
    }
    match &entries[i].value {
        Value::Bool(b) => *b,
        _ => false,
    }
}

pub fn get_bin(entries: &Vec<Field>, i: usize) -> (r: Vec<u8>)
    requires
        i < entries@.len(),
        entry_val(entries@, i as int) is Bin,
    ensures
        Val::Bin(r@) == entry_val(entries@, i as int),
{
    proof {
        lemma_view_fields(entries@);
    }
    match &entries[i].value {
        Value::Bin(b) => vstd::slice::slice_to_vec(b.as_slice()),
        _ => Vec::new(),
    }
}

/// The integer of entry `i`, which lies between `min` and `max`.
pub fn get_int(entries: &Vec<Field>, i: usize, min: i64, max: u64) -> (r: (i64, u64))
    requires
        i < entries@.len(),
        entry_val(entries@, i as int) is Int,
        min <= entry_val(entries@, i as int)->Int_0 <= max,
    ensures
        entry_val(entries@, i as int)->Int_0 < 0 ==> r.0 == entry_val(entries@, i as int)->Int_0,
        entry_val(entries@, i as int)->Int_0 >= 0 ==> r.1 == entry_val(entries@, i as int)->Int_0
            && r.0 == 0,
{
    proof {
        lemma_view_fields(entries@);
    }
    match &entries[i].value {
        Value::UInt(x) => (0, *x),
        Value::Int(x) => if *x < 0 {
            (*x, 0)
        } else {
            (0, *x as u64)
        },
        _ => (0, 0),
    }
}

pub fn get_i32(entries: &Vec<Field>, i: usize) -> (r: i32)
    requires
        i < entries@.len(),
        entry_val(entries@, i as int) is Int,
        -0x8000_0000 <= entry_val(entries@, i as int)->Int_0 <= 0x7fff_ffff,
    ensures
        Val::Int(r as int) == entry_val(entries@, i as int),
{
    let (neg, pos) = get_int(entries, i, -0x8000_0000, 0x7fff_ffff);
    if neg < 0 {
        neg as i32
    } else {
        pos as i32
    }
}

pub fn get_u32(entries: &Vec<Field>, i: usize) -> (r: u32)
    requires
        i < entries@.len(),
        entry_val(entries@, i as int) is Int,
        0 <= entry_val(entries@, i as int)->Int_0 <= 0xffff_ffff,
    ensures
        Val::Int(r as int) == entry_val(entries@, i as int),
{
    let (_, pos) = get_int(entries, i, 0, 0xffff_ffff);
    pos as u32
}

pub fn get_i64(entries: &Vec<Field>, i: usize) -> (r: i64)
    requires
        i < entries@.len(),
        entry_val(entries@, i as int) is Int,
        -0x8000_0000_0000_0000 <= entry_val(entries@, i as int)->Int_0 <= 0x7fff_ffff_ffff_ffff,
    ensures
        Val::Int(r as int) == entry_val(entries@, i as int),
{
    let (neg, pos) = get_int(entries, i, -0x8000_0000_0000_0000, 0x7fff_ffff_ffff_ffff);
    if neg < 0 {
        neg
    } else {
        pos as i64
    }
}

pub fn get_u64(entries: &Vec<Field>, i: usize) -> (r: u64)
    requires
        i < entries@.len(),
        entry_val(entries@, i as int) is Int,
        0 <= entry_val(entries@, i as int)->Int_0 <= 0xffff_ffff_ffff_ffff,
    ensures
        Val::Int(r as int) == entry_val(entries@, i as int),
{
    let (_, pos) = get_int(entries, i, 0, 0xffff_ffff_ffff_ffff);
    pos
}

/// Each value of normal entries of a schema is normal for its field.
pub proof fn lemma_entries_normal(schema: Seq<FieldTy>, entries: Seq<Field>)
    requires
        normal_fields(schema, values_of(view_fields(entries))),
    ensures
        entries.len() == schema.len(),
        forall|i: int| 0 <= i < schema.len() ==> normal_field(schema[i], #[trigger] entry_val(entries, i)),
{
    lemma_view_fields(entries);
    lemma_normal_fields_index(schema, values_of(view_fields(entries)));
    assert forall|i: int| 0 <= i < schema.len() implies normal_field(schema[i], #[trigger] entry_val(entries, i)) by {
        assert(values_of(view_fields(entries))[i] == entry_val(entries, i));
    }
}

pub open spec fn dict_ty() -> Ty {
    Ty::Dict(Box::new(Ty::Str))
}

pub fn dict_kind() -> (k: Kind)
    ensures
        k@ == dict_ty(),
{
    let k = Kind::Dict(Box::new(Kind::Str));
    assert(crate::reader::ty_of(Kind::Str) == Ty::Str);
    k
}

/// The model of a map from texts to texts, held as pairs.
pub open spec fn dict_val(pairs: Seq<(String, String)>) -> Val {
    Val::Record(Seq::new(pairs.len(), |i: int| (pairs[i].0@, Val::Str(pairs[i].1@))))
}

pub fn dict_value(pairs: &Vec<(String, String)>) -> (r: Value)
    ensures
        r@ == dict_val(pairs@),
{
    let mut out: Vec<Field> = Vec::new();
    let mut i: usize = 0;
    assert(view_fields(out@) =~= dict_val(pairs@)->Record_0.subrange(0, 0));
    while i < pairs.len()
        invariant
            i <= pairs@.len(),
            view_fields(out@) == dict_val(pairs@)->Record_0.subrange(0, i as int),
        decreases pairs@.len() - i,
    {
        let f = Field { name: pairs[i].0.clone(), value: Value::Str(pairs[i].1.clone()) };
        proof {
            lemma_view_fields_push(out@, f);
        }
        out.push(f);
        assert(view_fields(out@) =~= dict_val(pairs@)->Record_0.subrange(0, i + 1));
        i = i + 1;
    }
    assert(dict_val(pairs@)->Record_0.subrange(0, i as int) =~= dict_val(pairs@)->Record_0);
    Value::Record(out)
}

pub fn get_dict(entries: &Vec<Field>, i: usize) -> (r: Vec<(String, String)>)
    requires
        i < entries@.len(),
        normal(dict_ty(), entry_val(entries@, i as int)),
    ensures
        dict_val(r@) == entry_val(entries@, i as int),
{
    proof {
        lemma_view_fields(entries@);
    }
    let mut out: Vec<(String, String)> = Vec::new();
    match &entries[i].value {
        Value::Record(fs) => {
            let ghost es = view_fields(fs@);
            proof {
                lemma_view_fields(fs@);
                lemma_normal_dict_index(Ty::Str, es);
            }
            let mut j: usize = 0;
            while j < fs.len()
                invariant
                    j <= fs@.len(),
                    es == view_fields(fs@),
                    es.len() == fs@.len(),
                    forall|k: int| 0 <= k < fs@.len() ==> #[trigger] es[k] == (fs@[k].name@, fs@[k].value@),
                    forall|k: int| 0 <= k < es.len() ==> normal(Ty::Str, #[trigger] es[k].1),
                    out@.len() == j,
                    forall|k: int| 0 <= k < j ==> (#[trigger] out@[k]).0@ == es[k].0 && Val::Str(out@[k].1@) == es[k].1,
                decreases fs@.len() - j,
            {
                assert(normal(Ty::Str, es[j as int].1));
                let text = match &fs[j].value {
                    Value::Str(t) => t.clone(),
                    _ => String::new(),
                };
                out.push((fs[j].name.clone(), text));
                j = j + 1;
            }
            assert(dict_val(out@)->Record_0 =~= es);
        },
        _ => {},
    }
    out
}

pub fn get_str_list(entries: &Vec<Field>, i: usize) -> (r: Vec<String>)
    requires
        i < entries@.len(),
        normal(str_list_ty(), entry_val(entries@, i as int)),
    ensures
        str_list_val(r@) == entry_val(entries@, i as int),
{
    proof {
        lemma_view_fields(entries@);
    }
    let mut out: Vec<String> = Vec::new();
    match &entries[i].value {
        Value::Array(items) => {
            let ghost ws = entries@[i as int].value@->Array_0;
            proof {
                lemma_normal_list_index(Ty::Str, ws);
            }
            let mut j: usize = 0;
            while j < items.len()
                invariant
                    j <= items@.len(),
                    ws.len() == items@.len(),
                    forall|k: int| 0 <= k < items@.len() ==> ws[k] == #[trigger] items@[k]@,
                    forall|k: int| 0 <= k < ws.len() ==> normal(Ty::Str, #[trigger] ws[k]),
                    out@.len() == j,
                    forall|k: int| 0 <= k < j ==> Val::Str((#[trigger] out@[k])@) == ws[k],
                decreases items@.len() - j,
            {
                assert(normal(Ty::Str, ws[j as int]));
                assert(ws[j as int] == items@[j as int]@);
                assert(items@[j as int]@ is Str);
                assert(items@[j as int] is Str);
                let text = match &items[j] {
                    Value::Str(t) => t.clone(),
                    _ => String::new(),
                };
                assert(Val::Str(text@) == ws[j as int]);
                out.push(text);
                j = j + 1;
            }
            assert(str_list_val(out@)->Array_0 =~= ws);
        },
        _ => {},
    }
    out
}

pub proof fn lemma_str_list_normal(items: Seq<String>)
    ensures
        normal(str_list_ty(), str_list_val(items)),
{
    let ws = str_list_val(items)->Array_0;
    assert forall|i: int| 0 <= i < ws.len() implies normal(Ty::Str, #[trigger] ws[i]) by {}
    crate::schema::lemma_normal_list_from_index(Ty::Str, ws);
}

pub proof fn lemma_dict_normal(pairs: Seq<(String, String)>)
    ensures
        normal(dict_ty(), dict_val(pairs)),
{
    let es = dict_val(pairs)->Record_0;
    assert forall|i: int| 0 <= i < es.len() implies normal(Ty::Str, #[trigger] es[i].1) by {}
    crate::schema::lemma_normal_dict_from_index(Ty::Str, es);
}

pub proof fn lemma_collection_tys_wf()
    ensures
        crate::schema::wf_ty(str_list_ty()),
        crate::schema::wf_ty(dict_ty()),
{
    assert(crate::schema::wf_ty(Ty::Str));
}

/// The model of an optional truth value.
pub open spec fn opt_bool_val(b: Option<bool>) -> Val {
    match b {
        Some(x) => Val::Bool(x),
        None => Val::Nil,
    }
}

/// The model of an optional integer.
pub open spec fn opt_i64_val(n: Option<i64>) -> Val {
    match n {
        Some(x) => Val::Int(x as int),
        None => Val::Nil,
    }
}

/// The model of an optional double, given by its bits.
pub open spec fn opt_double_val(bits: Option<u64>) -> Val {
    match bits {
        Some(x) => Val::Float64Bits(x as nat),
        None => Val::Nil,
    }
}

pub fn opt_bool_value(b: &Option<bool>) -> (r: Value)
    ensures
        r@ == opt_bool_val(*b),
{
    match b {
        Some(x) => Value::Bool(*x),
        None => Value::Nil,
    }
}

pub fn opt_i64_value(n: &Option<i64>) -> (r: Value)
    ensures
        r@ == opt_i64_val(*n),
{
    match n {
        Some(x) => Value::Int(*x),
        None => Value::Nil,
    }
}

pub fn opt_double_value(bits: &Option<u64>) -> (r: Value)
    ensures
        r@ == opt_double_val(*bits),
{
    match bits {
        Some(x) => Value::Float64Bits(*x),
        None => Value::Nil,
    }
}

pub fn get_opt_bool(entries: &Vec<Field>, i: usize) -> (r: Option<bool>)
    requires
        i < entries@.len(),
        entry_val(entries@, i as int) is Bool || entry_val(entries@, i as int) is Nil,
    ensures
        opt_bool_val(r) == entry_val(entries@, i as int),
{
    proof {
        lemma_view_fields(entries@);
    }
    match &entries[i].value {
        Value::Bool(b) => Some(*b),
        _ => None,
    }
}

pub fn get_opt_i64(entries: &Vec<Field>, i: usize) -> (r: Option<i64>)
    requires
        i < entries@.len(),
        normal(i64_ty(), entry_val(entries@, i as int)) || entry_val(entries@, i as int) is Nil,
    ensures
        opt_i64_val(r) == entry_val(entries@, i as int),
{
    proof {
        lemma_view_fields(entries@);
    }
    match &entries[i].value {
        Value::Nil => None,
        _ => Some(get_i64(entries, i)),
    }
}

pub fn get_opt_double(entries: &Vec<Field>, i: usize) -> (r: Option<u64>)
    requires
        i < entries@.len(),
        entry_val(entries@, i as int) is Float64Bits || entry_val(entries@, i as int) is Nil,
    ensures
        opt_double_val(r) == entry_val(entries@, i as int),
{
    proof {
        lemma_view_fields(entries@);
    }
    match &entries[i].value {
        Value::Float64Bits(x) => Some(*x),
        _ => None,
    }
}

} // verus!
