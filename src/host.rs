//! Calls from an actor to its host: a record goes out as an envelope, and
//! the reply comes back as one.
use vstd::prelude::*;
use crate::error::Error;
use crate::envelope::DecodeError;
use crate::message::{decode, decoded, encode, Message};
use crate::schema::write_record;
use crate::value::Val;
use crate::wire::{enc, encodable};

verus! {

/// The binding that names the only configured provider of a capability.
pub const DEFAULT_BINDING: &'static str = "default";

/// Relies on `wapc_guest::host_call`: the host performs the operation of the
/// capability under the binding. What comes back depends on the host alone,
/// so nothing is stated of it.
#[verifier::external_body]
fn host_call(binding: &str, capability: &str, op: &str, payload: &[u8]) -> Result<Vec<u8>, String> {
    match wapc_guest::host_call(binding, capability, op, payload) {
        Ok(reply) => Ok(reply),
        Err(e) => Err(e.to_string()),
    }
}

/// What an actor hands to its host for one call: the binding that names the
/// provider, the capability's contract, the operation and the payload.
#[derive(Debug)]
pub struct HostRequest {
    pub binding: String,
    pub capability: String,
    pub operation: String,
    pub payload: Vec<u8>,
}

/// `r` is the request that carries the envelope of an argument record with
/// field values `args` to operation `op` of `capability` under `binding`, or
/// the encoding failure where the format cannot hold that record.
pub open spec fn sends<A: Message>(
    r: Result<HostRequest, Error>,
    binding: Seq<char>,
    capability: Seq<char>,
    op: Seq<char>,
    args: Seq<Val>,
) -> bool {
    match r {
        Ok(q) => encodable(write_record(A::schema(), args)) && q.binding@ == binding
            && q.capability@ == capability && q.operation@ == op && q.payload@ == enc(
            write_record(A::schema(), args),
        ),
        Err(e) => !encodable(write_record(A::schema(), args)) && e is Encode,
    }
}

/// The request that carries an argument record to operation `op` of a
/// capability under a binding.
pub fn request<A: Message>(binding: &str, capability: &str, op: &str, args: &A) -> (r: Result<
    HostRequest,
    Error,
>)
    ensures
        sends::<A>(r, binding@, capability@, op@, args.fields()),
{
    match encode(args) {
        Ok(payload) => Ok(
            HostRequest {
                binding: binding.to_owned(),
                capability: capability.to_owned(),
                operation: op.to_owned(),
                payload,
            },
        ),
        Err(e) => Err(Error::Encode(e)),
    }
}

/// The request that carries raw payload bytes to operation `op` of a
/// capability under a binding.
pub fn raw_request(binding: &str, capability: &str, op: &str, payload: &[u8]) -> (q: HostRequest)
    ensures
        q.binding@ == binding@,
        q.capability@ == capability@,
        q.operation@ == op@,
        q.payload@ == payload@,
{
    HostRequest {
        binding: binding.to_owned(),
        capability: capability.to_owned(),
        operation: op.to_owned(),
        payload: vstd::slice::slice_to_vec(payload),
    }
}

/// Hands a request to the host, exactly as it stands, and returns the
/// host's outcome: its reply, or the reason it gave for failing.
pub fn exchange(q: &HostRequest) -> Result<Vec<u8>, String> {
    host_call(q.binding.as_str(), q.capability.as_str(), q.operation.as_str(), q.payload.as_slice())
}

/// What a call returns for the host's outcome: the reply decoded as a record
/// of `R`, or the failure, each as its own kind of error.
pub fn finish<R: Message>(outcome: Result<Vec<u8>, String>) -> (r: Result<R, Error>)
    ensures
        match outcome {
            Err(m) => r matches Err(Error::Call(n)) && n@ == m@,
            Ok(b) => match decoded::<R>(b@) {
                Ok(fields) => r matches Ok(resp) && resp.fields() == fields,
                Err(e) => r == Err::<R, Error>(Error::Decode(e)),
            },
        },
{
    match outcome {
        Err(m) => Err(Error::Call(m)),
        Ok(b) => match decode::<R>(b.as_slice()) {
            Ok(resp) => Ok(resp),
            Err(e) => Err(Error::Decode(e)),
        },
    }
}

/// What holds of the result of a request whatever the host answers: a reply
/// decoded as `R`, a decoding failure, or the host's failure.
pub open spec fn answered<R: Message>(r: Result<R, Error>) -> bool {
    match r {
        Ok(resp) => exists|b: Seq<u8>| decoded::<R>(b) == Ok::<Seq<Val>, DecodeError>(resp.fields()),
        Err(Error::Decode(e)) => exists|b: Seq<u8>| decoded::<R>(b) == Err::<Seq<Val>, DecodeError>(e),
        Err(Error::Call(_)) => true,
        Err(_) => false,
    }
}

/// Hands a request to the host and reads the reply as a record of `R`, as
/// `finish` says.
pub fn perform<R: Message>(q: &HostRequest) -> (r: Result<R, Error>)
    ensures
        answered::<R>(r),
{
    let outcome = exchange(q);
    let ghost got = outcome;
    let r = finish::<R>(outcome);
    proof {
        match got {
            Ok(b) => {
                assert(decoded::<R>(b@) matches Ok(fs) ==> r matches Ok(resp) && resp.fields() == fs);
            },
            Err(_) => {},
        }
    }
    r
}

/// What a call whose reply is not read returns for the host's outcome:
/// success exactly when the host succeeded.
pub fn finish_unit(outcome: Result<Vec<u8>, String>) -> (r: Result<(), Error>)
    ensures
        match outcome {
            Err(m) => r matches Err(Error::Call(n)) && n@ == m@,
            Ok(_) => r is Ok,
        },
{
    match outcome {
        Err(m) => Err(Error::Call(m)),
        Ok(_) => Ok(()),
    }
}

/// What holds of every outcome of a call with an argument record whose field
/// values are `args`: it fails to encode exactly when the format cannot hold
/// the record; otherwise the result is a reply decoded as `R`, a decoding
/// failure, or the host's failure.
pub open spec fn proxied<A: Message, R: Message>(args: Seq<Val>, r: Result<R, Error>) -> bool {
    let sendable = encodable(write_record(A::schema(), args));
    match r {
        Err(Error::Encode(_)) => !sendable,
        _ => sendable && answered::<R>(r),
    }
}

/// Calls operation `op` of a capability under a binding with an argument
/// record: hands the host the request that `request` builds and reads the
/// reply as a record of `R`.
pub fn call<A: Message, R: Message>(binding: &str, capability: &str, op: &str, args: &A) -> (r: Result<R, Error>)
    ensures
        proxied::<A, R>(args.fields(), r),
{
    match request(binding, capability, op, args) {
        Ok(q) => perform(&q),
        Err(e) => Err(e),
    }
}

} // verus!
