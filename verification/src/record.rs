//! Log records: what one ingested line becomes.

use crate::fields::{as_map, names_distinct, FieldMap};
use crate::text::{contains, occurs_in, to_uppercase, trim, trimmed, uppercase};
use vstd::prelude::*;

verus! {

/// The severity of a record.
#[derive(Clone, Copy, Debug, PartialEq, Eq, Structural)]
pub enum LogLevel {
    Error,
    Warn,
    Info,
    Debug,
}

impl LogLevel {
    /// The text under which a record carries this level.
    pub open spec fn name(self) -> Seq<char> {
        match self {
            LogLevel::Error => "ERROR"@,
            LogLevel::Warn => "WARN"@,
            LogLevel::Info => "INFO"@,
            LogLevel::Debug => "DEBUG"@,
        }
    }

    /// The level of a line whose upper-case form is `upper`: the first of
    /// ERROR, WARN and INFO that occurs in it, whatever its place, and DEBUG
    /// where none does.
    pub open spec fn of_uppercase(upper: Seq<char>) -> LogLevel {
        if occurs_in("ERROR"@, upper) {
            LogLevel::Error
        } else if occurs_in("WARN"@, upper) {
            LogLevel::Warn
        } else if occurs_in("INFO"@, upper) {
            LogLevel::Info
        } else {
            LogLevel::Debug
        }
    }

    /// The level of `line`, found without regard to case.
    pub open spec fn of_line(line: Seq<char>) -> LogLevel {
        LogLevel::of_uppercase(uppercase(line))
    }

    /// The text under which a record carries this level.
    pub fn as_str(&self) -> (name: &'static str)
        ensures
            name@ == self.name(),
    {
        match self {
            LogLevel::Error => "ERROR",
            LogLevel::Warn => "WARN",
            LogLevel::Info => "INFO",
            LogLevel::Debug => "DEBUG",
        }
    }

    /// The level of a line that has already been brought to upper case.
    pub fn from_uppercase(upper: &str) -> (level: LogLevel)
        ensures
            level == LogLevel::of_uppercase(upper@),
    {
        if contains(upper, "ERROR") {
            LogLevel::Error
        } else if contains(upper, "WARN") {
            LogLevel::Warn
        } else if contains(upper, "INFO") {
            LogLevel::Info
        } else {
            LogLevel::Debug
        }
    }

    /// The level of `line`: a keyword counts in any mix of upper and lower
    /// case, and ERROR wins over WARN, WARN over INFO.
    pub fn infer(line: &str) -> (level: LogLevel)
        ensures
            level == LogLevel::of_line(line@),
    {
        let upper = to_uppercase(line);
        LogLevel::from_uppercase(upper.as_str())
    }
}

/// The source of every record that comes in over the ingestion channel.
pub const INGEST_SOURCE: &'static str = "tcp_stream";

/// The fields of an ingested record: its timestamp, its message, its level
/// and the tag of the ingestion channel.
pub open spec fn record_fields(timestamp: Seq<char>, message: Seq<char>, level: LogLevel) -> Map<
    Seq<char>,
    Seq<char>,
> {
    Map::<Seq<char>, Seq<char>>::empty().insert("timestamp"@, timestamp).insert(
        "message"@,
        message,
    ).insert("level"@, level.name()).insert("source"@, INGEST_SOURCE@)
}

/// The fields of the record that `line` gives when it is read at `timestamp`:
/// the message is the line without the whitespace around it, and the level
/// is the one that the keywords in the line give.
pub open spec fn line_fields(timestamp: Seq<char>, line: Seq<char>) -> Map<Seq<char>, Seq<char>> {
    record_fields(timestamp, trimmed(line), LogLevel::of_line(line))
}

/// The four levels go by four different names.
pub proof fn lemma_level_names_differ(a: LogLevel, b: LogLevel)
    ensures
        a.name() == b.name() <==> a == b,
{
    reveal_strlit("ERROR");
    reveal_strlit("WARN");
    reveal_strlit("INFO");
    reveal_strlit("DEBUG");
    if a != b && a.name().len() == b.name().len() {
        assert(a.name()[0] != b.name()[0]);
    }
}

/// An ingested record carries exactly its four fields, each with the value
/// that it was given.
pub proof fn lemma_record_fields(timestamp: Seq<char>, message: Seq<char>, level: LogLevel)
    ensures
        ({
            let record = record_fields(timestamp, message, level);
            &&& record.dom() == set!["timestamp"@, "message"@, "level"@, "source"@]
            &&& record["timestamp"@] == timestamp
            &&& record["message"@] == message
            &&& record["level"@] == level.name()
            &&& record["source"@] == INGEST_SOURCE@
        }),
{
    reveal_strlit("timestamp");
    reveal_strlit("message");
    reveal_strlit("level");
    reveal_strlit("source");
    assert("timestamp"@.len() == 9);
    assert("message"@.len() == 7);
    assert("level"@.len() == 5);
    assert("source"@.len() == 6);
    let record = record_fields(timestamp, message, level);
    assert(record.dom() =~= set!["timestamp"@, "message"@, "level"@, "source"@]);
}

/// One log entry: named fields with text values.
#[derive(Debug)]
pub struct LogRecord {
    fields: FieldMap,
}

impl View for LogRecord {
    type V = Map<Seq<char>, Seq<char>>;

    closed spec fn view(&self) -> Map<Seq<char>, Seq<char>> {
        self.fields@
    }
}

impl LogRecord {
    /// The record without any field.
    pub fn new() -> (record: LogRecord)
        ensures
            record@ == Map::<Seq<char>, Seq<char>>::empty(),
    {
        LogRecord { fields: FieldMap::new() }
    }

    /// This record with `value` under `name`.
    pub fn with_field(self, name: String, value: String) -> (record: LogRecord)
        ensures
            record@ == self@.insert(name@, value@),
    {
        let mut fields = self.fields;
        fields.insert(name, value);
        LogRecord { fields }
    }

    /// The value of the field `name`, or `None` where the record lacks it.
    pub fn get(&self, name: &str) -> (value: Option<&String>)
        ensures
            match value {
                Some(v) => self@.contains_key(name@) && self@[name@] == v@,
                None => !self@.contains_key(name@),
            },
    {
        self.fields.get(name)
    }

    /// The fields as a list of names with their values, each name once.
    pub fn to_pairs(&self) -> (pairs: Vec<(String, String)>)
        ensures
            names_distinct(pairs@),
            as_map(pairs@) == self@,
    {
        self.fields.to_pairs()
    }

    /// The named fields of this record.
    pub fn fields(&self) -> (fields: &FieldMap)
        ensures
            fields@ == self@,
    {
        &self.fields
    }

    /// The ingested record with the given timestamp, message and level.
    pub fn from_parts(timestamp: String, message: String, level: LogLevel) -> (record: LogRecord)
        ensures
            record@ == record_fields(timestamp@, message@, level),
    {
        let mut fields = FieldMap::new();
        fields.insert("timestamp".to_owned(), timestamp);
        fields.insert("message".to_owned(), message);
        fields.insert("level".to_owned(), level.as_str().to_owned());
        fields.insert("source".to_owned(), INGEST_SOURCE.to_owned());
        LogRecord { fields }
    }

    /// The record of `line`, read at `timestamp`: the line without the
    /// whitespace around it as its message, the level that its keywords
    /// give, and the tag of the ingestion channel as its source.
    pub fn from_line(timestamp: String, line: &str) -> (record: LogRecord)
        ensures
            record@ == line_fields(timestamp@, line@),
    {
        let message = trim(line).to_owned();
        let level = LogLevel::infer(line);
        LogRecord::from_parts(timestamp, message, level)
    }
}

impl Clone for LogRecord {
    fn clone(&self) -> (copy: LogRecord)
        ensures
            copy@ == self@,
    {
        LogRecord { fields: self.fields.clone() }
    }
}

} // verus!
