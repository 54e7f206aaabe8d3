use vstd::prelude::*;

verus! {

/// The mathematical model of an envelope value.
pub ghost enum Val {
    Nil,
    Bool(bool),
    Int(int),
    Str(Seq<char>),
    Bin(Seq<u8>),
    /// A single-precision floating-point number, as its IEEE 754 bits.
    Float32Bits(nat),
    /// A double-precision floating-point number, as its IEEE 754 bits.
    Float64Bits(nat),
    Array(Seq<Val>),
    Record(Seq<(Seq<char>, Val)>),
}

/// A structured value as it travels on the wire: the data model of the
/// envelope format.
#[derive(Debug)]
pub enum Value {
    Nil,
    Bool(bool),
    /// A non-negative integer.
    UInt(u64),
    /// A signed integer; non-negative ones are written as `UInt` on the wire.
    Int(i64),
    Str(String),
    Bin(Vec<u8>),
    /// A single-precision floating-point number, as its IEEE 754 bits.
    Float32Bits(u32),
    /// A double-precision floating-point number, as its IEEE 754 bits.
    Float64Bits(u64),
    Array(Vec<Value>),
    Record(Vec<Field>),
}

/// One entry of a record: a field's name and its value.
#[derive(Debug)]
pub struct Field {
    pub name: String,
    pub value: Value,
}

/// The model of a record's entries: each field's name and the model of its
/// value, in order.
pub open spec fn view_fields(fields: Seq<Field>) -> Seq<(Seq<char>, Val)>
    decreases fields,
{
    if fields.len() == 0 {
        Seq::empty()
    } else {
        view_fields(fields.drop_last()).push(
            (fields.last().name@, model(fields.last().value)),
        )
    }
}

pub proof fn lemma_view_fields(fields: Seq<Field>)
    ensures
        view_fields(fields).len() == fields.len(),
        forall|j: int|
            0 <= j < fields.len() ==> #[trigger] view_fields(fields)[j] == (
            fields[j].name@, fields[j].value@),
    decreases fields.len(),
{
    if fields.len() > 0 {
        lemma_view_fields(fields.drop_last());
    }
}

/// The model of a value.
pub open spec fn model(v: Value) -> Val
    decreases v,
{
    match v {
        Value::Nil => Val::Nil,
        Value::Bool(b) => Val::Bool(b),
        Value::UInt(n) => Val::Int(n as int),
        Value::Int(n) => Val::Int(n as int),
        Value::Str(s) => Val::Str(s@),
        Value::Bin(b) => Val::Bin(b@),
        Value::Float32Bits(x) => Val::Float32Bits(x as nat),
        Value::Float64Bits(x) => Val::Float64Bits(x as nat),
        Value::Array(items) => Val::Array(
            Seq::new(
                items.len() as nat,
                |i: int|
                    if 0 <= i < items.len() {
                        model(items[i])
                    } else {
                        Val::Nil
                    },
            ),
        ),
        Value::Record(fields) => Val::Record(view_fields(fields@)),
    }
}

impl View for Value {
    type V = Val;

    open spec fn view(&self) -> Val {
        model(*self)
    }
}

/// The models of a sequence of values.
pub open spec fn models(items: Seq<Value>) -> Seq<Val> {
    Seq::new(items.len(), |i: int| items[i]@)
}

pub proof fn lemma_view_fields_push(fields: Seq<Field>, f: Field)
    ensures
        view_fields(fields.push(f)) == view_fields(fields).push((f.name@, f.value@)),
{
    assert(fields.push(f).drop_last() =~= fields);
}

} // verus!
