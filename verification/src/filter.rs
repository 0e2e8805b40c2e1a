//! The record filter: message patterns, exact field values and a level.
//!
//! A check constrains only the records that carry the field it looks at: a
//! record without that field passes the check.

use crate::fields::{compatible, FieldMap};
use crate::record::LogRecord;
use regex::Regex;
use vstd::prelude::*;

verus! {

/// `regex::Regex`, a compiled regular expression. Nothing inside it is seen
/// here; what it matches has the name `regex_language`.
#[verifier::external_type_specification]
#[verifier::external_body]
pub struct ExRegex(regex::Regex);

/// `regex::Error`, the reason for which a pattern did not compile. Nothing
/// inside it is seen here; the text it holds has the name `error_text`.
#[verifier::external_type_specification]
#[verifier::external_body]
pub struct ExRegexError(regex::Error);

/// What `Regex::new` makes of `pattern`: the texts in which the compiled
/// expression finds a match, or, where the pattern does not compile, the
/// text of the error that says why.
pub uninterp spec fn pattern_outcome(pattern: Seq<char>) -> Result<Set<Seq<char>>, Seq<char>>;

/// The texts that a compiled expression holds: those in which
/// `Regex::is_match` finds a match.
pub uninterp spec fn regex_language(regex: Regex) -> Set<Seq<char>>;

/// The text that an error of the regex crate holds: what its `to_string`
/// gives.
pub uninterp spec fn error_text(error: regex::Error) -> Seq<char>;

/// Whether `pattern` compiles.
pub open spec fn pattern_compiles(pattern: Seq<char>) -> bool {
    pattern_outcome(pattern) is Ok
}

/// Whether `pattern` compiles and matches somewhere in `text`.
pub open spec fn pattern_matches(pattern: Seq<char>, text: Seq<char>) -> bool {
    pattern_outcome(pattern) matches Ok(texts) && texts.contains(text)
}

/// Calls `Regex::new`. Trusted: whether the pattern compiles, which texts
/// the compiled expression matches, and what the error says where it does
/// not compile, depends on the pattern alone.
#[verifier::external_body]
fn compile_regex(pattern: &str) -> (compiled: Result<Regex, regex::Error>)
    ensures
        match compiled {
            Ok(regex) => pattern_outcome(pattern@) == Ok::<Set<Seq<char>>, Seq<char>>(
                regex_language(regex),
            ),
            Err(error) => pattern_outcome(pattern@) == Err::<Set<Seq<char>>, Seq<char>>(
                error_text(error),
            ),
        },
{
    Regex::new(pattern)
}

/// Calls `Regex::is_match`. Trusted: the result tells whether the expression
/// finds a match anywhere in `text`.
#[verifier::external_body]
fn regex_is_match(regex: &Regex, text: &str) -> (found: bool)
    ensures
        found == regex_language(*regex).contains(text@),
{
    regex.is_match(text)
}

/// Calls `to_string` on an error of the regex crate. Trusted: the result is
/// the text that the error holds.
#[verifier::external_body]
fn regex_error_text(error: &regex::Error) -> (text: String)
    ensures
        text@ == error_text(*error),
{
    error.to_string()
}

/// Why a filter could not be configured.
#[derive(Debug)]
pub enum FilterError {
    /// The pattern does not compile; `reason` is what the regex crate says
    /// of it.
    InvalidPattern { pattern: String, reason: String },
}

impl FilterError {
    /// What went wrong, in the words of the regex crate.
    pub fn message(&self) -> (text: String)
        ensures
            self matches FilterError::InvalidPattern { reason, .. } && text@ == reason@,
    {
        match self {
            FilterError::InvalidPattern { reason, .. } => reason.clone(),
        }
    }
}

/// What refusing `pattern` for `reason` says of the pattern: it does not
/// compile, and the reason is the one that the regex crate gives.
pub open spec fn refuses(pattern: Seq<char>, reason: Seq<char>) -> bool {
    pattern_outcome(pattern) == Err::<Set<Seq<char>>, Seq<char>>(reason)
}

/// A compiled message pattern.
#[derive(Debug)]
pub struct MessagePattern {
    source: String,
    regex: Regex,
}

impl View for MessagePattern {
    type V = Seq<char>;

    closed spec fn view(&self) -> Seq<char> {
        self.source@
    }
}

impl MessagePattern {
    #[verifier::type_invariant]
    spec fn compiled_from_source(&self) -> bool {
        pattern_outcome(self.source@) == Ok::<Set<Seq<char>>, Seq<char>>(
            regex_language(self.regex),
        )
    }

    /// Compiles `pattern`, or says that it does not compile, and why.
    pub fn compile(pattern: &str) -> (compiled: Result<MessagePattern, FilterError>)
        ensures
            match compiled {
                Ok(matcher) => pattern_compiles(pattern@) && matcher@ == pattern@,
                Err(FilterError::InvalidPattern { pattern: rejected, reason }) => rejected@
                    == pattern@ && refuses(pattern@, reason@),
            },
    {
        match compile_regex(pattern) {
            Ok(regex) => Ok(MessagePattern { source: pattern.to_owned(), regex }),
            Err(error) => Err(
                FilterError::InvalidPattern {
                    pattern: pattern.to_owned(),
                    reason: regex_error_text(&error),
                },
            ),
        }
    }

    /// Whether the pattern matches anywhere in `text`.
    pub fn is_match(&self, text: &str) -> (found: bool)
        ensures
            found == pattern_matches(self@, text@),
    {
        proof {
            use_type_invariant(self);
        }
        regex_is_match(&self.regex, text)
    }

    /// The text that the pattern was compiled from.
    pub fn source(&self) -> (source: &str)
        ensures
            source@ == self@,
    {
        self.source.as_str()
    }
}

/// What a filter is set to.
pub struct FilterConfig {
    /// The message patterns, in the order in which they were added.
    pub patterns: Seq<Seq<char>>,
    /// The value that each filtered field must have.
    pub fields: Map<Seq<char>, Seq<char>>,
    /// The level that a record must have, if one is set.
    pub level: Option<Seq<char>>,
}

impl FilterConfig {
    /// The setting under which every record passes.
    pub open spec fn pass_all() -> FilterConfig {
        FilterConfig { patterns: Seq::empty(), fields: Map::empty(), level: None }
    }

    /// The level check: a record that carries a level has the one that is set.
    pub open spec fn level_allows(self, record: Map<Seq<char>, Seq<char>>) -> bool {
        self.level matches Some(required) ==> (record.contains_key("level"@) ==> record["level"@]
            == required)
    }

    /// The field check: no field that the record carries differs from its filter.
    pub open spec fn fields_allow(self, record: Map<Seq<char>, Seq<char>>) -> bool {
        compatible(self.fields, record)
    }

    /// Some pattern matches `message`.
    pub open spec fn some_pattern_matches(self, message: Seq<char>) -> bool {
        exists|i: int|
            0 <= i < self.patterns.len() && pattern_matches(#[trigger] self.patterns[i], message)
    }

    /// The message check: where patterns are set and the record carries a
    /// message, one of them matches it.
    pub open spec fn message_allows(self, record: Map<Seq<char>, Seq<char>>) -> bool {
        self.patterns.len() > 0 && record.contains_key("message"@) ==> self.some_pattern_matches(
            record["message"@],
        )
    }

    /// Whether a record passes the filter.
    pub open spec fn accepts(self, record: Map<Seq<char>, Seq<char>>) -> bool {
        &&& self.level_allows(record)
        &&& self.fields_allow(record)
        &&& self.message_allows(record)
    }
}

/// One of `results` is true.
pub open spec fn any_true(results: Seq<bool>) -> bool {
    exists|i: int| 0 <= i < results.len() && #[trigger] results[i]
}

/// The answer of the filter, from what its checks found: a failed level or
/// field check rejects; after that the patterns decide, where they were
/// consulted, and accept if one of them matched.
pub open spec fn decision(level_ok: bool, fields_ok: bool, matches: Option<Seq<bool>>) -> bool {
    &&& level_ok
    &&& fields_ok
    &&& (matches matches Some(results) ==> any_true(results))
}

/// A filter over log records.
#[derive(Debug)]
pub struct LogFilter {
    regex_filters: Vec<MessagePattern>,
    field_filters: FieldMap,
    level_filter: Option<String>,
}

impl View for LogFilter {
    type V = FilterConfig;

    closed spec fn view(&self) -> FilterConfig {
        FilterConfig {
            patterns: Seq::new(self.regex_filters@.len(), |i: int| self.regex_filters@[i]@),
            fields: self.field_filters@,
            level: match self.level_filter {
                Some(level) => Some(level@),
                None => None,
            },
        }
    }
}

impl LogFilter {
    /// The filter that lets every record pass.
    pub fn new() -> (filter: LogFilter)
        ensures
            filter@ == FilterConfig::pass_all(),
    {
        let filter = LogFilter {
            regex_filters: Vec::new(),
            field_filters: FieldMap::new(),
            level_filter: None,
        };
        assert(filter@.patterns =~= Seq::<Seq<char>>::empty());
        filter
    }

    /// Adds a message pattern behind those already set. A pattern that does
    /// not compile is refused, and the filter stays as it was.
    pub fn add_regex_filter(&mut self, pattern: &str) -> (added: Result<(), FilterError>)
        ensures
            match added {
                Ok(_) => pattern_compiles(pattern@) && final(self)@ == (FilterConfig {
                    patterns: old(self)@.patterns.push(pattern@),
                    ..old(self)@
                }),
                Err(FilterError::InvalidPattern { pattern: rejected, reason }) => rejected@
                    == pattern@ && refuses(pattern@, reason@) && final(self)@ == old(self)@,
            },
    {
        match MessagePattern::compile(pattern) {
            Ok(matcher) => {
                self.regex_filters.push(matcher);
                assert(self@.patterns =~= old(self)@.patterns.push(pattern@));
                Ok(())
            },
            Err(e) => Err(e),
        }
    }

    /// Requires `field` to have exactly `value`, in place of any value
    /// required of it before.
    pub fn add_field_filter(&mut self, field: String, value: String)
        ensures
            final(self)@ == (FilterConfig {
                fields: old(self)@.fields.insert(field@, value@),
                ..old(self)@
            }),
    {
        self.field_filters.insert(field, value);
        assert(self@.patterns =~= old(self)@.patterns);
    }

    /// Requires the level `level`, in place of any level required before.
    pub fn set_level_filter(&mut self, level: String)
        ensures
            final(self)@ == (FilterConfig { level: Some(level@), ..old(self)@ }),
    {
        self.level_filter = Some(level);
        assert(self@.patterns =~= old(self)@.patterns);
    }

    /// Removes every pattern, field value and level: all records pass again.
    pub fn clear_filters(&mut self)
        ensures
            final(self)@ == FilterConfig::pass_all(),
            forall|record: Map<Seq<char>, Seq<char>>| #[trigger] final(self)@.accepts(record),
    {
        self.regex_filters = Vec::new();
        self.field_filters.clear();
        self.level_filter = None;
        assert(self@.patterns =~= Seq::<Seq<char>>::empty());
        assert forall|record: Map<Seq<char>, Seq<char>>| #[trigger]
            self@.accepts(record) by {
            law_cleared_filter_passes_all(record);
        }
    }

    /// The level check on `record`.
    pub fn level_allows(&self, record: &LogRecord) -> (ok: bool)
        ensures
            ok == self@.level_allows(record@),
    {
        match &self.level_filter {
            Some(required) => match record.get("level") {
                Some(actual) => *actual == *required,
                None => true,
            },
            None => true,
        }
    }

    /// The field check on `record`.
    pub fn fields_allow(&self, record: &LogRecord) -> (ok: bool)
        ensures
            ok == self@.fields_allow(record@),
    {
        self.field_filters.agrees_with(record.fields())
    }

    /// For each pattern, in order, whether it matches `message`.
    pub fn match_results(&self, message: &str) -> (results: Vec<bool>)
        ensures
            results@.len() == self@.patterns.len(),
            forall|i: int|
                0 <= i < results@.len() ==> #[trigger] results@[i] == pattern_matches(
                    self@.patterns[i],
                    message@,
                ),
    {
        let mut results: Vec<bool> = Vec::new();
        let mut i: usize = 0;
        while i < self.regex_filters.len()
            invariant
                i <= self.regex_filters@.len(),
                results@.len() == i,
                forall|k: int|
                    0 <= k < i ==> #[trigger] results@[k] == pattern_matches(
                        self.regex_filters@[k]@,
                        message@,
                    ),
            decreases self.regex_filters@.len() - i,
        {
            let found = self.regex_filters[i].is_match(message);
            results.push(found);
            i += 1;
        }
        results
    }

    /// The answer of the filter from what its checks found; `matches` holds
    /// the result of each pattern where the patterns were consulted.
    pub fn decide(level_ok: bool, fields_ok: bool, matches: Option<&Vec<bool>>) -> (pass: bool)
        ensures
            pass == decision(
                level_ok,
                fields_ok,
                match matches {
                    Some(results) => Some(results@),
                    None => None,
                },
            ),
    {
        if !level_ok || !fields_ok {
            return false;
        }
        match matches {
            None => true,
            Some(results) => {
                let mut i: usize = 0;
                while i < results.len()
                    invariant
                        level_ok && fields_ok,
                        matches == Some(results),
                        i <= results@.len(),
                        forall|k: int| 0 <= k < i ==> !(#[trigger] results@[k]),
                    decreases results@.len() - i,
                {
                    if results[i] {
                        assert(any_true(results@)) by {
                            assert(results@[i as int]);
                        }
                        return true;
                    }
                    i += 1;
                }
                false
            },
        }
    }

    /// Whether `record` passes the filter. The record is only read.
    pub fn should_process(&self, record: &LogRecord) -> (pass: bool)
        ensures
            pass == self@.accepts(record@),
    {
        if !self.level_allows(record) {
            return false;
        }
        if !self.fields_allow(record) {
            return false;
        }
        if self.regex_filters.len() == 0 {
            return LogFilter::decide(true, true, None);
        }
        match record.get("message") {
            None => LogFilter::decide(true, true, None),
            Some(message) => {
                let results = self.match_results(message.as_str());
                proof {
                    let config = self@;
                    let text = record@["message"@];
                    if any_true(results@) {
                        let i = choose|i: int| 0 <= i < results@.len() && #[trigger] results@[i];
                        assert(pattern_matches(config.patterns[i], text));
                    }
                    if config.some_pattern_matches(text) {
                        let i = choose|i: int|
                            0 <= i < config.patterns.len() && pattern_matches(
                                #[trigger] config.patterns[i],
                                text,
                            );
                        assert(results@[i]);
                    }
                }
                LogFilter::decide(true, true, Some(&results))
            },
        }
    }
}

/// A record that carries no level passes the level check, whatever level is
/// required: it is judged as if none were.
pub proof fn law_missing_level_passes(config: FilterConfig, record: Map<Seq<char>, Seq<char>>)
    requires
        !record.contains_key("level"@),
    ensures
        config.level_allows(record),
        config.accepts(record) == (FilterConfig { level: None, ..config }).accepts(record),
{
}

/// A record that lacks a field is judged as if no value were required of
/// that field.
pub proof fn law_missing_field_passes(
    config: FilterConfig,
    record: Map<Seq<char>, Seq<char>>,
    field: Seq<char>,
)
    requires
        !record.contains_key(field),
    ensures
        config.accepts(record) == (FilterConfig {
            fields: config.fields.remove(field),
            ..config
        }).accepts(record),
{
    let without = FilterConfig { fields: config.fields.remove(field), ..config };
    if config.fields_allow(record) {
        assert forall|name: Seq<char>| #[trigger]
            without.fields.contains_key(name) && record.contains_key(name) implies without.fields[name]
            == record[name] by {
            assert(config.fields.contains_key(name));
        }
    }
    if without.fields_allow(record) {
        assert forall|name: Seq<char>| #[trigger]
            config.fields.contains_key(name) && record.contains_key(name) implies config.fields[name]
            == record[name] by {
            assert(without.fields.contains_key(name));
        }
    }
}

/// A record that carries no message passes the message check, whatever
/// patterns are set: it is judged as if none were.
pub proof fn law_missing_message_passes(config: FilterConfig, record: Map<Seq<char>, Seq<char>>)
    requires
        !record.contains_key("message"@),
    ensures
        config.message_allows(record),
        config.accepts(record) == (FilterConfig { patterns: Seq::empty(), ..config }).accepts(
            record,
        ),
{
}

/// A record whose level differs from the required one is rejected.
pub proof fn law_level_mismatch_rejects(
    config: FilterConfig,
    record: Map<Seq<char>, Seq<char>>,
    required: Seq<char>,
)
    requires
        config.level == Some(required),
        record.contains_key("level"@),
        record["level"@] != required,
    ensures
        !config.accepts(record),
{
}

/// Where patterns are set and the record carries a message, a record that
/// the level and field checks let through passes exactly if one of the
/// patterns matches its message.
pub proof fn law_patterns_decide(config: FilterConfig, record: Map<Seq<char>, Seq<char>>)
    requires
        config.patterns.len() > 0,
        record.contains_key("message"@),
        config.level_allows(record),
        config.fields_allow(record),
    ensures
        config.accepts(record) == config.some_pattern_matches(record["message"@]),
{
}

/// Without patterns the message check rejects nothing.
pub proof fn law_no_patterns_never_reject(config: FilterConfig, record: Map<Seq<char>, Seq<char>>)
    requires
        config.patterns.len() == 0,
    ensures
        config.message_allows(record),
        config.accepts(record) == (config.level_allows(record) && config.fields_allow(record)),
{
}

/// Under the cleared setting every record passes.
pub proof fn law_cleared_filter_passes_all(record: Map<Seq<char>, Seq<char>>)
    ensures
        FilterConfig::pass_all().accepts(record),
{
}

} // verus!
