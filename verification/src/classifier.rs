//! Classification of the engine's log lines.
//!
//! A structured line carries `time="..." level=... msg="..."`. The shape is
//! written down as a regular expression and matched by the `regex` crate; what
//! is done with the captured groups is decided, and proved, here.

use vstd::prelude::*;
use vstd::string::*;
use crate::level::{level_of, Level};

verus! {

/// `regex::Regex`, a compiled expression. Nothing inside it is visible here.
#[verifier::external_type_specification]
#[verifier::external_body]
pub struct ExRegex(regex::Regex);

/// `regex::Error`, the reason why a pattern did not compile. Nothing inside
/// it is visible here.
#[verifier::external_type_specification]
#[verifier::external_body]
pub struct ExRegexError(regex::Error);

/// The pattern text from which a compiled expression was built, as
/// `regex::Regex::as_str` reports it. Expressions come from `compile` alone,
/// which builds them with the crate's default options, so the pattern says
/// all there is to say about how an expression matches.
pub uninterp spec fn pattern_of(re: &regex::Regex) -> Seq<char>;

/// The capture groups that an expression compiled from `pattern` finds in
/// `haystack`, as `regex::Regex::captures` returns them: `None` where the
/// pattern matches nowhere, else the groups of the leftmost match, the whole
/// match first, each the matched text or `None` for a group that took no part.
pub uninterp spec fn pattern_captures(pattern: Seq<char>, haystack: Seq<char>) -> Option<
    Seq<Option<Seq<char>>>,
>;

/// Whether `regex::Regex::new` accepts `pattern`: the pattern is well-formed
/// and the expression compiled from it stays within the size limit that the
/// crate sets by default. Which patterns those are is not said here.
pub uninterp spec fn pattern_compiles(pattern: Seq<char>) -> bool;

/// Calls `regex::Regex::new`. It answers `Ok` for the patterns that
/// `pattern_compiles` names, whichever they are, and a compiled expression
/// remembers the pattern it was built from.
#[verifier::external_body]
fn compile(pattern: &str) -> (r: Result<regex::Regex, regex::Error>)
    ensures
        r is Ok <==> pattern_compiles(pattern@),
        r matches Ok(re) ==> pattern_of(&re) == pattern@,
{
    regex::Regex::new(pattern)
}

/// Calls `regex::Regex::captures` and copies the groups out of the result, in
/// the order of `regex::Captures::iter`. The result is the one that
/// `pattern_captures` names for the expression's pattern and the haystack.
#[verifier::external_body]
fn captures(re: &regex::Regex, haystack: &str) -> (r: Option<Vec<Option<String>>>)
    ensures
        r.deep_view() == pattern_captures(pattern_of(re), haystack@),
{
    let caps = re.captures(haystack)?;
    Some(caps.iter().map(|m| m.map(|m| m.as_str().to_string())).collect())
}

/// The shape of a structured line: a quoted timestamp whose fraction has at
/// least three digits and whose zone offset is signed, a bare level word, and
/// a quoted message. Groups one to five are the timestamp up to the fraction,
/// the first three fraction digits, the zone offset, the level word and the
/// message.
pub const LINE_PATTERN: &'static str =
    r#"time="(.*?)\.(\d{3})\d*([+-]\d{2}:\d{2})"\s+level=(\w+)\s+msg="(.*?)""#;

/// One classified line.
#[derive(Clone, Debug)]
pub struct LogEvent {
    /// When the engine wrote the line, where the line says so.
    pub timestamp: Option<String>,
    pub level: Level,
    pub message: String,
}

/// A `LogEvent` as plain sequences of characters.
pub struct LogEventView {
    pub timestamp: Option<Seq<char>>,
    pub level: Level,
    pub message: Seq<char>,
}

impl View for LogEvent {
    type V = LogEventView;

    open spec fn view(&self) -> LogEventView {
        LogEventView {
            timestamp: match self.timestamp {
                Some(t) => Some(t@),
                None => None,
            },
            level: self.level,
            message: self.message@,
        }
    }
}

/// The timestamp put together from its three captured pieces: the part
/// before the fraction, a dot, the three kept digits, the zone offset.
pub open spec fn joined_timestamp(head: Seq<char>, millis: Seq<char>, zone: Seq<char>) -> Seq<
    char,
> {
    head + seq!['.'] + millis + zone
}

/// Whether a match has the six groups of the line pattern, all of them set.
pub open spec fn complete_groups(groups: Seq<Option<Seq<char>>>) -> bool {
    &&& groups.len() == 6
    &&& forall|i: int| 1 <= i < 6 ==> (#[trigger] groups[i]) is Some
}

/// The event that a match stands for. A match without all five fields
/// stands for none.
pub open spec fn event_of_groups(groups: Seq<Option<Seq<char>>>) -> Option<LogEventView> {
    if complete_groups(groups) {
        Some(
            LogEventView {
                timestamp: Some(
                    joined_timestamp(groups[1]->Some_0, groups[2]->Some_0, groups[3]->Some_0),
                ),
                level: level_of(groups[4]->Some_0),
                message: groups[5]->Some_0,
            },
        )
    } else {
        None
    }
}

/// The event that a line stands for under `pattern`: none where the pattern
/// matches nowhere in the line.
pub open spec fn classified(pattern: Seq<char>, line: Seq<char>) -> Option<LogEventView> {
    match pattern_captures(pattern, line) {
        Some(groups) => event_of_groups(groups),
        None => None,
    }
}

/// The view of an optional event.
pub open spec fn event_view(e: Option<LogEvent>) -> Option<LogEventView> {
    match e {
        Some(e) => Some(e@),
        None => None,
    }
}

/// Builds the event from the groups of a match. The fraction is kept as
/// captured, so digits beyond the third are already gone; the level word is
/// mapped by `level_of`; the message is taken as it stands.
pub fn event_from_groups(groups: &Vec<Option<String>>) -> (r: Option<LogEvent>)
    ensures
        event_view(r) == event_of_groups(groups.deep_view()),
{
    let ghost g = groups.deep_view();
    if groups.len() != 6 {
        return None;
    }
    proof {
        assert forall|i: int| 0 <= i < 6 implies (#[trigger] g[i]) == groups@[i].deep_view() by {}
    }
    match (&groups[1], &groups[2], &groups[3], &groups[4], &groups[5]) {
        (Some(head), Some(millis), Some(zone), Some(word), Some(message)) => {
            let mut timestamp = head.clone();
            timestamp.append(".");
            timestamp.append(millis.as_str());
            timestamp.append(zone.as_str());
            proof {
                reveal_strlit(".");
                assert("."@ =~= seq!['.']);
                assert(g[1] is Some && g[2] is Some && g[3] is Some && g[4] is Some && g[5] is Some);
                assert(complete_groups(g));
                assert(timestamp@ == joined_timestamp(g[1]->Some_0, g[2]->Some_0, g[3]->Some_0));
            }
            Some(
                LogEvent {
                    timestamp: Some(timestamp),
                    level: Level::from_token(word.as_str()),
                    message: message.clone(),
                },
            )
        },
        _ => {
            proof {
                assert(g[1] is None || g[2] is None || g[3] is None || g[4] is None || g[5] is None);
            }
            None
        },
    }
}

/// The line pattern was turned down by the expression compiler.
#[derive(Clone, Copy, Debug, PartialEq, Eq, Structural)]
pub struct PatternRejected;

/// The line pattern, compiled once and used for every line.
pub struct LineClassifier {
    re: regex::Regex,
}

impl LineClassifier {
    /// Every classifier holds the line pattern and no other.
    #[verifier::type_invariant]
    spec fn holds_line_pattern(&self) -> bool {
        pattern_of(&self.re) == LINE_PATTERN@
    }

    /// The pattern that the classifier matches lines against.
    pub closed spec fn pattern(&self) -> Seq<char> {
        pattern_of(&self.re)
    }

    /// Compiles the line pattern. There is a classifier exactly when the
    /// `regex` crate accepts the line pattern, and it then holds that pattern
    /// and no other; else the pattern is reported as rejected.
    pub fn new() -> (r: Result<LineClassifier, PatternRejected>)
        ensures
            r is Ok <==> pattern_compiles(LINE_PATTERN@),
            r matches Ok(c) ==> c.pattern() == LINE_PATTERN@,
    {
        match compile(LINE_PATTERN) {
            Ok(re) => Ok(LineClassifier { re }),
            Err(_) => Err(PatternRejected),
        }
    }

    /// Classifies one line: the event of the leftmost match of the line
    /// pattern, or `None` for a line in which the pattern matches nowhere.
    /// Such a line is no error; it is unstructured and the caller drops it.
    pub fn classify(&self, line: &str) -> (r: Option<LogEvent>)
        ensures
            event_view(r) == classified(LINE_PATTERN@, line@),
    {
        proof {
            use_type_invariant(self);
        }
        match captures(&self.re, line) {
            Some(groups) => event_from_groups(&groups),
            None => None,
        }
    }
}

/// A line in which the pattern captures the five fields classifies to the
/// timestamp joined from its three pieces, the level that the word names,
/// and the message as captured.
pub proof fn lemma_structured_line(
    line: Seq<char>,
    whole: Option<Seq<char>>,
    head: Seq<char>,
    millis: Seq<char>,
    zone: Seq<char>,
    word: Seq<char>,
    message: Seq<char>,
)
    ensures
        pattern_captures(LINE_PATTERN@, line) == Some(
            seq![whole, Some(head), Some(millis), Some(zone), Some(word), Some(message)],
        ) ==> classified(LINE_PATTERN@, line) == Some(
            LogEventView {
                timestamp: Some(head + seq!['.'] + millis + zone),
                level: level_of(word),
                message: message,
            },
        ),
{
    let groups = seq![whole, Some(head), Some(millis), Some(zone), Some(word), Some(message)];
    assert(complete_groups(groups));
}

/// A line in which the pattern matches nowhere classifies to nothing, and
/// nothing is written for it.
pub proof fn lemma_unstructured_line(line: Seq<char>)
    ensures
        pattern_captures(LINE_PATTERN@, line) is None ==> classified(LINE_PATTERN@, line) is None
            && logged(LINE_PATTERN@, line) is None,
{
}

/// What is written to the console for one event.
#[derive(Clone, Debug)]
pub struct LogRecord {
    pub level: Level,
    pub text: String,
}

/// A `LogRecord` as plain values.
pub struct LogRecordView {
    pub level: Level,
    pub text: Seq<char>,
}

impl View for LogRecord {
    type V = LogRecordView;

    open spec fn view(&self) -> LogRecordView {
        LogRecordView { level: self.level, text: self.text@ }
    }
}

/// The console record of an event: its level, and its timestamp and message
/// with one space between them, or the message alone where it has no
/// timestamp.
pub open spec fn record_of(event: LogEventView) -> LogRecordView {
    LogRecordView {
        level: event.level,
        text: match event.timestamp {
            Some(t) => t + seq![' '] + event.message,
            None => event.message,
        },
    }
}

/// The console record of what a line classifies to.
pub open spec fn logged(pattern: Seq<char>, line: Seq<char>) -> Option<LogRecordView> {
    match classified(pattern, line) {
        Some(event) => Some(record_of(event)),
        None => None,
    }
}

/// The view of an optional record.
pub open spec fn record_view(r: Option<LogRecord>) -> Option<LogRecordView> {
    match r {
        Some(r) => Some(r@),
        None => None,
    }
}

impl LogEvent {
    /// The console record of this event.
    pub fn record(&self) -> (r: LogRecord)
        ensures
            r@ == record_of(self@),
    {
        let text = match &self.timestamp {
            Some(t) => {
                let mut text = t.clone();
                text.append(" ");
                text.append(self.message.as_str());
                proof {
                    reveal_strlit(" ");
                    assert(" "@ =~= seq![' ']);
                }
                text
            },
            None => self.message.clone(),
        };
        LogRecord { level: self.level, text }
    }
}

/// The record to write for one line of the engine's output: that of the
/// event the line classifies to, and none for an unstructured line.
pub fn log(classifier: &LineClassifier, s: &str) -> (r: Option<LogRecord>)
    ensures
        record_view(r) == logged(LINE_PATTERN@, s@),
{
    match classifier.classify(s) {
        Some(event) => Some(event.record()),
        None => None,
    }
}

} // verus!
