//! The extras capability: unique identifiers, random numbers and sequences.
use vstd::prelude::*;
use crate::error::Error;
use crate::envelope::{decode_value, DecodeError};
use crate::host::{exchange, raw_request, request, sends, HostRequest, DEFAULT_BINDING};
use crate::schema::write_record;
use crate::wire::{enc, encodable, lemma_encode_utf8_len, parse_all};
use vstd::utf8::encode_utf8;
use crate::fieldkit::{get_u32, lemma_entries_normal, req, u32_kind, u32_ty};
use crate::message::Message;
use crate::reader::{lemma_tys_of, tys_of, FieldKind, Kind};
use crate::schema::{lemma_normal_fields_from_index, lemma_wf_fields_from_index, values_of, FieldTy, Ty};
use crate::value::{lemma_view_fields, models, view_fields, Field, Val, Value};

verus! {

/// The contract that providers of this capability serve.
pub const CAPABILITY: &'static str = "wasmcloud:extras";

pub const OP_REQUEST_GUID: &'static str = "RequestGuid";
pub const OP_REQUEST_RANDOM: &'static str = "RequestRandom";
pub const OP_REQUEST_SEQUENCE: &'static str = "RequestSequence";

#[derive(Debug, Clone, PartialEq, Default)]
pub struct RequestRandomArgs {
    pub min: u32,
    pub max: u32,
}

impl Message for RequestRandomArgs {
    open spec fn schema() -> Seq<FieldTy> {
        seq![req("min"@, u32_ty()), req("max"@, u32_ty())]
    }

    open spec fn fields(&self) -> Seq<Val> {
        seq![Val::Int(self.min as int), Val::Int(self.max as int)]
    }

    fn kinds() -> (r: Vec<FieldKind>) {
        let r = vec![
            FieldKind { name: "min", kind: u32_kind(), optional: false },
            FieldKind { name: "max", kind: u32_kind(), optional: false },
        ];
        proof {
            lemma_tys_of(r@);
            assert(tys_of(r@) =~= Self::schema());
        }
        r
    }

    fn to_fields(&self) -> (r: Vec<Value>) {
        let r = vec![
            Value::UInt(self.min as u64),
            Value::UInt(self.max as u64),
        ];
        assert(models(r@) =~= self.fields());
        r
    }

    fn from_fields(entries: &Vec<Field>) -> (r: Self) {
        proof {
            lemma_entries_normal(Self::schema(), entries@);
            lemma_view_fields(entries@);
        }
        let r = RequestRandomArgs {
            min: get_u32(entries, 0),
            max: get_u32(entries, 1),
        };
        assert(r.fields() =~= values_of(view_fields(entries@)));
        r
    }

    proof fn lemma_normal(&self) {
        lemma_normal_fields_from_index(Self::schema(), self.fields());
    }

    proof fn lemma_schema_wf() {
        reveal_strlit("min");
        reveal_strlit("max");
        let s = Self::schema();
        assert(s[0].name == "min"@ && "min"@.len() == 3);
        assert(s[1].name == "max"@ && "max"@.len() == 3);
        assert("min"@[1] != "max"@[1]);
        assert(s[0].name != s[1].name);
        lemma_wf_fields_from_index(Self::schema());
    }
}

/// A handle on a configured provider of extras, named by its binding.
#[derive(Debug)]
pub struct Host {
    binding: String,
}

/// A handle on the provider configured under `binding`.
pub fn host(binding: &str) -> (r: Host)
    ensures
        r.spec_binding() == binding@,
{
    Host { binding: binding.to_owned() }
}

/// A handle on the provider configured under the default binding.
pub fn default() -> (r: Host)
    ensures
        r.spec_binding() == DEFAULT_BINDING@,
{
    host(DEFAULT_BINDING)
}

/// What a reply that should hold a text gives: the text, or why not.
pub open spec fn text_reply(outcome: Result<Vec<u8>, String>, r: Result<String, Error>) -> bool {
    match outcome {
        Err(m) => r matches Err(Error::Call(n)) && n@ == m@,
        Ok(b) => match parse_all(b@) {
            Some(Val::Str(t)) => r matches Ok(s) && s@ == t,
            Some(_) => r == Err::<String, Error>(Error::Decode(DecodeError::WrongType)),
            None => r == Err::<String, Error>(Error::Decode(DecodeError::Malformed)),
        },
    }
}

/// What a reply that should hold an integer between `0` and `max` gives:
/// the integer, or why not.
pub open spec fn count_reply(outcome: Result<Vec<u8>, String>, max: u64, r: Result<u64, Error>) -> bool {
    match outcome {
        Err(m) => r matches Err(Error::Call(n)) && n@ == m@,
        Ok(b) => match parse_all(b@) {
            Some(Val::Int(n)) => if 0 <= n <= max {
                r == Ok::<u64, Error>(n as u64)
            } else {
                r == Err::<u64, Error>(Error::Decode(DecodeError::WrongType))
            },
            Some(_) => r == Err::<u64, Error>(Error::Decode(DecodeError::WrongType)),
            None => r == Err::<u64, Error>(Error::Decode(DecodeError::Malformed)),
        },
    }
}

/// The text that a reply value holds.
pub fn text_of(v: Value) -> (r: Result<String, Error>)
    ensures
        match r {
            Ok(s) => v@ == Val::Str(s@),
            Err(e) => !(v@ is Str) && e == Error::Decode(DecodeError::WrongType),
        },
{
    match v {
        Value::Str(s) => Ok(s),
        _ => Err(Error::Decode(DecodeError::WrongType)),
    }
}

/// The integer between `0` and `max` that a reply value holds.
pub fn count_of(v: Value, max: u64) -> (r: Result<u64, Error>)
    ensures
        match r {
            Ok(n) => v@ == Val::Int(n as int) && n <= max,
            Err(e) => !(v@ is Int && 0 <= v@->Int_0 <= max) && e == Error::Decode(DecodeError::WrongType),
        },
{
    match v {
        Value::UInt(n) => if n <= max {
            Ok(n)
        } else {
            Err(Error::Decode(DecodeError::WrongType))
        },
        Value::Int(n) => if n >= 0 && n as u64 <= max {
            Ok(n as u64)
        } else {
            Err(Error::Decode(DecodeError::WrongType))
        },
        _ => Err(Error::Decode(DecodeError::WrongType)),
    }
}

/// The text that the host's outcome carries, as `text_reply` says.
pub fn text_from_reply(outcome: Result<Vec<u8>, String>) -> (r: Result<String, Error>)
    ensures
        text_reply(outcome, r),
{
    match outcome {
        Err(m) => Err(Error::Call(m)),
        Ok(b) => match decode_value(b.as_slice()) {
            Ok(v) => text_of(v),
            Err(e) => Err(Error::Decode(e)),
        },
    }
}

/// The integer between `0` and `max` that the host's outcome carries, as
/// `count_reply` says.
pub fn count_from_reply(outcome: Result<Vec<u8>, String>, max: u64) -> (r: Result<u64, Error>)
    ensures
        count_reply(outcome, max, r),
{
    match outcome {
        Err(m) => Err(Error::Call(m)),
        Ok(b) => match decode_value(b.as_slice()) {
            Ok(v) => count_of(v, max),
            Err(e) => Err(Error::Decode(e)),
        },
    }
}

/// The record of a request for a random number can always be encoded.
pub proof fn lemma_random_args_encodable(args: RequestRandomArgs)
    ensures
        encodable(write_record(RequestRandomArgs::schema(), args.fields())),
{
    reveal_strlit("min");
    reveal_strlit("max");
    lemma_encode_utf8_len("min"@);
    lemma_encode_utf8_len("max"@);
    let es = crate::schema::write_entries(RequestRandomArgs::schema(), args.fields());
    assert(es[0].0 == "min"@ && es[1].0 == "max"@);
    assert forall|i: int| 0 <= i < es.len() implies encode_utf8(#[trigger] es[i].0).len()
        < 0x1_0000_0000 && encodable(es[i].1) by {
        if i == 0 {
        } else {
            assert(i == 1);
        }
    }
}

impl Host {
    pub closed spec fn spec_binding(&self) -> Seq<char> {
        self.binding@
    }

    /// The request that `request_guid` hands to the host: no payload.
    pub fn request_guid_request(&self) -> (q: HostRequest)
        ensures
            q.binding@ == self.spec_binding(),
            q.capability@ == CAPABILITY@,
            q.operation@ == OP_REQUEST_GUID@,
            q.payload@ == Seq::<u8>::empty(),
    {
        let empty: Vec<u8> = Vec::new();
        raw_request(self.binding.as_str(), CAPABILITY, OP_REQUEST_GUID, empty.as_slice())
    }

    /// Requests a globally unique identifier. Hands the host exactly what
    /// `request_guid_request` builds, and reads the reply as
    /// `text_from_reply` says.
    pub fn request_guid(&self) -> (r: Result<String, Error>)
        ensures
            exists|outcome: Result<Vec<u8>, String>| text_reply(outcome, r),
    {
        let q = self.request_guid_request();
        let outcome = exchange(&q);
        let ghost got = outcome;
        let r = text_from_reply(outcome);
        assert(text_reply(got, r));
        r
    }

    /// The request that `request_random` hands to the host: the envelope of
    /// the bounds. It cannot fail to encode.
    pub fn request_random_request(&self, min: u32, max: u32) -> (q: HostRequest)
        ensures
            sends::<RequestRandomArgs>(
                Ok(q),
                self.spec_binding(),
                CAPABILITY@,
                OP_REQUEST_RANDOM@,
                seq![Val::Int(min as int), Val::Int(max as int)],
            ),
    {
        let args = RequestRandomArgs { min, max };
        proof {
            lemma_random_args_encodable(args);
        }
        match request(self.binding.as_str(), CAPABILITY, OP_REQUEST_RANDOM, &args) {
            Ok(q) => q,
            Err(_) => raw_request(self.binding.as_str(), CAPABILITY, OP_REQUEST_RANDOM, &[]),
        }
    }

    /// Requests a random number between `min` and `max`; whether the bounds
    /// are included depends on the provider. Hands the host exactly what
    /// `request_random_request` builds, and reads the reply as
    /// `count_from_reply` says; it never fails to encode.
    pub fn request_random(&self, min: u32, max: u32) -> (r: Result<u32, Error>)
        ensures
            exists|outcome: Result<Vec<u8>, String>, n: Result<u64, Error>|
                count_reply(outcome, 0xffff_ffff, n) && match n {
                    Ok(x) => r == Ok::<u32, Error>(x as u32),
                    Err(e) => r == Err::<u32, Error>(e),
                },
            !(r matches Err(Error::Encode(_))),
    {
        let q = self.request_random_request(min, max);
        let outcome = exchange(&q);
        let ghost got = outcome;
        let n = count_from_reply(outcome, 0xffff_ffff);
        assert(count_reply(got, 0xffff_ffff, n));
        match n {
            Ok(x) => Ok(x as u32),
            Err(e) => Err(e),
        }
    }

    /// The request that `request_sequence` hands to the host: no payload.
    pub fn request_sequence_request(&self) -> (q: HostRequest)
        ensures
            q.binding@ == self.spec_binding(),
            q.capability@ == CAPABILITY@,
            q.operation@ == OP_REQUEST_SEQUENCE@,
            q.payload@ == Seq::<u8>::empty(),
    {
        let empty: Vec<u8> = Vec::new();
        raw_request(self.binding.as_str(), CAPABILITY, OP_REQUEST_SEQUENCE, empty.as_slice())
    }

    /// Requests the next number of a sequence that starts at 0 and only
    /// grows. Hands the host exactly what `request_sequence_request` builds,
    /// and reads the reply as `count_from_reply` says.
    pub fn request_sequence(&self) -> (r: Result<u64, Error>)
        ensures
            exists|outcome: Result<Vec<u8>, String>| count_reply(outcome, 0xffff_ffff_ffff_ffff, r),
    {
        let q = self.request_sequence_request();
        let outcome = exchange(&q);
        let ghost got = outcome;
        let r = count_from_reply(outcome, 0xffff_ffff_ffff_ffff);
        assert(count_reply(got, 0xffff_ffff_ffff_ffff, r));
        r
    }
}

} // verus!
