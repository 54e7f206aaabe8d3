//! The logging capability: its operation and message schema.
use vstd::prelude::*;
use crate::error::Error;
use crate::host::{exchange, finish_unit, request, sends, HostRequest, DEFAULT_BINDING};
use crate::reader::same_text;
use crate::schema::write_record;
use crate::text::{ascii_lower, to_ascii_lower};
use crate::wire::encodable;
use crate::fieldkit::{get_str, lemma_entries_normal, req};
use crate::message::Message;
use crate::reader::{lemma_tys_of, tys_of, FieldKind, Kind};
use crate::schema::{lemma_normal_fields_from_index, lemma_wf_fields_from_index, values_of, FieldTy, Ty};
use crate::value::{lemma_view_fields, models, view_fields, Field, Val, Value};

verus! {

/// The contract that providers of this capability serve.
pub const CAPABILITY: &'static str = "wasmcloud:logging";

pub const OP_LOG: &'static str = "WriteLog";

#[derive(Debug, Clone, PartialEq, Default)]
pub struct WriteLogArgs {
    pub target: String,
    pub level: String,
    pub text: String,
}

impl Message for WriteLogArgs {
    open spec fn schema() -> Seq<FieldTy> {
        seq![req("target"@, Ty::Str), req("level"@, Ty::Str), req("text"@, Ty::Str)]
    }

    open spec fn fields(&self) -> Seq<Val> {
        seq![Val::Str(self.target@), Val::Str(self.level@), Val::Str(self.text@)]
    }

    fn kinds() -> (r: Vec<FieldKind>) {
        let r = vec![
            FieldKind { name: "target", kind: Kind::Str, optional: false },
            FieldKind { name: "level", kind: Kind::Str, optional: false },
            FieldKind { name: "text", kind: Kind::Str, optional: false },
        ];
        proof {
            lemma_tys_of(r@);
            assert(tys_of(r@) =~= Self::schema());
        }
        r
    }

    fn to_fields(&self) -> (r: Vec<Value>) {
        let r = vec![
            Value::Str(self.target.clone()),
            Value::Str(self.level.clone()),
            Value::Str(self.text.clone()),
        ];
        assert(models(r@) =~= self.fields());
        r
    }

    fn from_fields(entries: &Vec<Field>) -> (r: Self) {
        proof {
            lemma_entries_normal(Self::schema(), entries@);
            lemma_view_fields(entries@);
        }
        let r = WriteLogArgs {
            target: get_str(entries, 0),
            level: get_str(entries, 1),
            text: get_str(entries, 2),
        };
        assert(r.fields() =~= values_of(view_fields(entries@)));
        r
    }

    proof fn lemma_normal(&self) {
        lemma_normal_fields_from_index(Self::schema(), self.fields());
    }

    proof fn lemma_schema_wf() {
        reveal_strlit("target");
        reveal_strlit("level");
        reveal_strlit("text");
        let s = Self::schema();
        assert(s[0].name == "target"@ && "target"@.len() == 6);
        assert(s[1].name == "level"@ && "level"@.len() == 5);
        assert(s[2].name == "text"@ && "text"@.len() == 4);
        assert(s[0].name != s[1].name && s[0].name != s[2].name && s[1].name != s[2].name);
        lemma_wf_fields_from_index(Self::schema());
    }
}

/// The levels that a log record may have.
pub open spec fn is_level(name: Seq<char>) -> bool {
    name == "error"@ || name == "warn"@ || name == "info"@ || name == "debug"@ || name == "trace"@
}

/// The level under which a record is written: the given one where it names
/// a level in any ASCII case, else `info`.
pub open spec fn effective_level(level: Seq<char>) -> Seq<char> {
    if is_level(ascii_lower(level)) {
        level
    } else {
        "info"@
    }
}

/// The level under which a record is written, as `effective_level` says.
pub fn level_or_info(level: &str) -> (r: &str)
    ensures
        r@ == effective_level(level@),
{
    let lower = to_ascii_lower(level);
    let l = lower.as_str();
    if same_text(l, "error") || same_text(l, "warn") || same_text(l, "info") || same_text(l, "debug")
        || same_text(l, "trace") {
        level
    } else {
        "info"
    }
}

/// The record that `write_log` sends.
pub fn log_record(target: &str, level: &str, text: &str) -> (r: WriteLogArgs)
    ensures
        r.target@ == target@,
        r.level@ == effective_level(level@),
        r.text@ == text@,
{
    WriteLogArgs {
        target: target.to_owned(),
        level: level_or_info(level).to_owned(),
        text: text.to_owned(),
    }
}

/// A sink that writes log records to the provider under a binding. It
/// stands in for an ambient logger: the actor owns it and hands it to the
/// code that logs.
#[derive(Debug)]
pub struct Host {
    binding: String,
}

/// A sink that writes to the provider under `binding`.
pub fn host(binding: &str) -> (r: Host)
    ensures
        r.spec_binding() == binding@,
{
    Host { binding: binding.to_owned() }
}

/// A sink that writes to the provider under the default binding.
pub fn default() -> (r: Host)
    ensures
        r.spec_binding() == DEFAULT_BINDING@,
{
    host(DEFAULT_BINDING)
}

impl Host {
    pub closed spec fn spec_binding(&self) -> Seq<char> {
        self.binding@
    }

    /// The binding that names the provider.
    pub fn binding(&self) -> (r: &str)
        ensures
            r@ == self.spec_binding(),
    {
        self.binding.as_str()
    }

    /// Directs the records written from now on to the provider under
    /// `binding`.
    pub fn set_binding(&mut self, binding: &str)
        ensures
            final(self).spec_binding() == binding@,
    {
        self.binding = binding.to_owned();
    }

    /// The request that `write_log` hands to the host: the envelope of the
    /// record that `log_record` builds.
    pub fn write_log_request(&self, target: &str, level: &str, text: &str) -> (r: Result<
        HostRequest,
        Error,
    >)
        ensures
            sends::<WriteLogArgs>(
                r,
                self.spec_binding(),
                CAPABILITY@,
                OP_LOG@,
                log_record_fields(target@, level@, text@),
            ),
    {
        let record = log_record(target, level, text);
        assert(record.fields() == log_record_fields(target@, level@, text@));
        request(self.binding.as_str(), CAPABILITY, OP_LOG, &record)
    }

    /// Writes a log record to a target (which may be empty) at a level:
    /// `error`, `warn`, `info`, `debug` or `trace`, in any ASCII case, and
    /// `info` for anything else. Hands the host exactly what
    /// `write_log_request` builds; succeeds exactly when the host does, as
    /// `finish_unit` says.
    pub fn write_log(&self, target: &str, level: &str, text: &str) -> (r: Result<(), Error>)
        ensures
            match r {
                Err(Error::Encode(_)) => !encodable(
                    write_record(WriteLogArgs::schema(), log_record_fields(target@, level@, text@)),
                ),
                Err(Error::Call(_)) | Ok(_) => encodable(
                    write_record(WriteLogArgs::schema(), log_record_fields(target@, level@, text@)),
                ),
                Err(_) => false,
            },
    {
        match self.write_log_request(target, level, text) {
            Ok(q) => finish_unit(exchange(&q)),
            Err(e) => Err(e),
        }
    }
}

/// The field values of the record that `write_log` sends.
pub open spec fn log_record_fields(target: Seq<char>, level: Seq<char>, text: Seq<char>) -> Seq<Val> {
    seq![Val::Str(target), Val::Str(effective_level(level)), Val::Str(text)]
}

} // verus!
