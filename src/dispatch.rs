//! Binding operation names to handlers, and dispatching inbound calls to
//! them.
use vstd::prelude::*;
use crate::envelope::encode_value;
use crate::value::Value;
use crate::error::Error;
use crate::message::{decoded, encode, decode, Message};
use crate::reader::same_text;
use crate::schema::write_record;
use crate::wire::{enc, encodable};

verus! {

/// The handlers that a sequence of registrations leaves bound: a later
/// registration of a name replaces an earlier one.
pub open spec fn bindings<H>(entries: Seq<(String, H)>) -> Map<Seq<char>, H>
    decreases entries.len(),
{
    if entries.len() == 0 {
        Map::empty()
    } else {
        bindings(entries.drop_last()).insert(entries.last().0@, entries.last().1)
    }
}

/// A table from operation names to handlers, owned by whoever initializes
/// the actor. At most one handler is bound to a name at a time.
pub struct Dispatcher<H> {
    entries: Vec<(String, H)>,
}

impl<H> View for Dispatcher<H> {
    type V = Map<Seq<char>, H>;

    closed spec fn view(&self) -> Map<Seq<char>, H> {
        bindings(self.entries@)
    }
}

proof fn lemma_bindings_prefix<H>(entries: Seq<(String, H)>, i: int, op: Seq<char>)
    requires
        0 <= i <= entries.len(),
        forall|j: int| i <= j < entries.len() ==> (#[trigger] entries[j]).0@ != op,
    ensures
        bindings(entries).contains_key(op) == bindings(entries.subrange(0, i)).contains_key(op),
        bindings(entries).contains_key(op) ==> bindings(entries)[op] == bindings(
            entries.subrange(0, i),
        )[op],
    decreases entries.len() - i,
{
    if i < entries.len() {
        let shorter = entries.drop_last();
        assert(shorter.subrange(0, i) =~= entries.subrange(0, i));
        lemma_bindings_prefix(shorter, i, op);
    } else {
        assert(entries.subrange(0, i) =~= entries);
    }
}

impl<H> Dispatcher<H> {
    /// A dispatcher with no handler bound.
    pub fn new() -> (r: Self)
        ensures
            r@ == Map::<Seq<char>, H>::empty(),
    {
        Dispatcher { entries: Vec::new() }
    }

    /// Binds `handler` to `op`, replacing any handler bound to it before.
    pub fn register(&mut self, op: &str, handler: H)
        ensures
            final(self)@ == old(self)@.insert(op@, handler),
    {
        let name = op.to_owned();
        self.entries.push((name, handler));
        assert(self.entries@.drop_last() =~= old(self).entries@);
    }

    /// The handler bound to `op`, if any.
    pub fn handler(&self, op: &str) -> (r: Option<&H>)
        ensures
            match r {
                Some(h) => self@.contains_key(op@) && *h == self@[op@],
                None => !self@.contains_key(op@),
            },
    {
        let mut i = self.entries.len();
        proof {
            assert(self.entries@.subrange(0, i as int) =~= self.entries@);
        }
        while i > 0
            invariant
                i <= self.entries@.len(),
                forall|j: int| i <= j < self.entries@.len() ==> (#[trigger] self.entries@[j]).0@ != op@,
            decreases i,
        {
            if same_text(self.entries[i - 1].0.as_str(), op) {
                proof {
                    let pre = self.entries@.subrange(0, i as int);
                    lemma_bindings_prefix(self.entries@, i as int, op@);
                    assert(pre.drop_last() =~= self.entries@.subrange(0, i - 1));
                    assert(pre.last() == self.entries@[i - 1]);
                }
                return Some(&self.entries[i - 1].1);
            }
            i = i - 1;
        }
        proof {
            lemma_bindings_prefix(self.entries@, 0, op@);
            assert(self.entries@.subrange(0, 0) =~= Seq::<(String, H)>::empty());
        }
        None
    }

    /// Dispatches an inbound call: runs the handler bound to `op` on the
    /// payload and returns what it returns, or fails with
    /// `UnknownOperation` where no handler is bound.
    pub fn dispatch(&self, op: &str, payload: Vec<u8>) -> (r: Result<Vec<u8>, Error>) where
        H: Fn(Vec<u8>) -> Result<Vec<u8>, Error>,

        requires
            self@.contains_key(op@) ==> self@[op@].requires((payload,)),
        ensures
            !self@.contains_key(op@) ==> (r matches Err(Error::UnknownOperation(name)) && name@ == op@),
            self@.contains_key(op@) ==> self@[op@].ensures((payload,), r),
    {
        match self.handler(op) {
            Some(h) => h(payload),
            None => Err(Error::UnknownOperation(op.to_owned())),
        }
    }
}

/// Last registration wins: where `a` and then `b` are registered under the
/// same name (each step as `register` ensures it), the name is bound to `b`,
/// and the table is as if `a` had never been registered.
pub proof fn lemma_last_registration_wins<H>(
    start: Dispatcher<H>,
    after_a: Dispatcher<H>,
    after_b: Dispatcher<H>,
    op: Seq<char>,
    a: H,
    b: H,
)
    requires
        after_a@ == start@.insert(op, a),
        after_b@ == after_a@.insert(op, b),
    ensures
        after_b@.contains_key(op),
        after_b@[op] == b,
        after_b@ == start@.insert(op, b),
{
    assert(start@.insert(op, a).insert(op, b) =~= start@.insert(op, b));
}

/// What running a typed handler on a payload gives, for the argument that
/// the payload decodes to and the handler's outcome.
pub open spec fn handled<R: Message>(out: Result<R, String>, r: Result<Vec<u8>, Error>) -> bool {
    match out {
        Ok(resp) => if encodable(write_record(R::schema(), resp.fields())) {
            r matches Ok(b) && b@ == enc(write_record(R::schema(), resp.fields()))
        } else {
            r matches Err(Error::Encode(_))
        },
        Err(m) => r matches Err(Error::Handler(n)) && n@ == m@,
    }
}

/// Runs a typed handler on an envelope: decodes its argument record, calls
/// the handler, and encodes what it returns. A decoding failure and a
/// handler failure are passed on as such.
pub fn handle<A: Message, R: Message, F: Fn(A) -> Result<R, String>>(f: &F, payload: &[u8]) -> (r:
    Result<Vec<u8>, Error>)
    requires
        forall|a: A| f.requires((a,)),
    ensures
        match decoded::<A>(payload@) {
            Err(e) => r == Err::<Vec<u8>, Error>(Error::Decode(e)),
            Ok(fields) => exists|a: A, out: Result<R, String>|
                a.fields() == fields && f.ensures((a,), out) && handled(out, r),
        },
{
    match decode::<A>(payload) {
        Err(e) => Err(Error::Decode(e)),
        Ok(arg) => {
            let ghost a = arg;
            let out = f(arg);
            let ghost o = out;
            let r = match out {
                Ok(resp) => match encode(&resp) {
                    Ok(b) => Ok(b),
                    Err(e) => Err(Error::Encode(e)),
                },
                Err(m) => Err(Error::Handler(m)),
            };
            assert(handled(o, r));
            r
        },
    }
}

/// Runs a handler whose reply is a single value rather than a record (nil
/// for a handler that returns nothing, a truth value, ...): decodes its
/// argument record, calls the handler, and encodes the value it returns.
pub fn handle_value<A: Message, F: Fn(A) -> Result<Value, String>>(f: &F, payload: &[u8]) -> (r:
    Result<Vec<u8>, Error>)
    requires
        forall|a: A| f.requires((a,)),
    ensures
        match decoded::<A>(payload@) {
            Err(e) => r == Err::<Vec<u8>, Error>(Error::Decode(e)),
            Ok(fields) => exists|a: A, out: Result<Value, String>|
                a.fields() == fields && f.ensures((a,), out) && match out {
                    Ok(v) => if encodable(v@) {
                        r matches Ok(b) && b@ == enc(v@)
                    } else {
                        r matches Err(Error::Encode(_))
                    },
                    Err(m) => r matches Err(Error::Handler(n)) && n@ == m@,
                },
        },
{
    match decode::<A>(payload) {
        Err(e) => Err(Error::Decode(e)),
        Ok(arg) => {
            let ghost a = arg;
            let out = f(arg);
            let ghost o = out;
            let r = match out {
                Ok(v) => match encode_value(&v) {
                    Ok(b) => Ok(b),
                    Err(e) => Err(Error::Encode(e)),
                },
                Err(m) => Err(Error::Handler(m)),
            };
            assert(match o {
                Ok(v) => if encodable(v@) {
                    r matches Ok(b) && b@ == enc(v@)
                } else {
                    r matches Err(Error::Encode(_))
                },
                Err(m) => r matches Err(Error::Handler(n)) && n@ == m@,
            });
            r
        },
    }
}

} // verus!
