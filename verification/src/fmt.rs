//! What the log lines of the tool look like.
//!
//! The formatter of the logging framework hands over what an event is made
//! of, and the functions here put the line together. Dates are written by
//! `chrono`, colours and styles are applied by `colored`.

use crate::state::Timestamp;
use crate::text::str_eq;
use colored::{ColoredString, Colorize};
use vstd::prelude::*;
use vstd::std_specs::convert::FromSpecImpl;
use vstd::string::*;

verus! {

/// Which parts of a log line are left out.
#[derive(Clone, Copy, Debug, Default, PartialEq, Eq, Structural)]
pub struct FmtFilter {
    pub hide_date: bool,
    pub hide_fields: bool,
    pub hide_level: bool,
    pub hide_spans: bool,
}

/// Whether `c` is the letter `lower` in either case.
pub open spec fn is_letter(c: char, lower: char, upper: char) -> bool {
    c == lower || c == upper
}

/// Whether `s` holds the letter in either case.
pub open spec fn has_letter(s: Seq<char>, lower: char, upper: char) -> bool {
    s.contains(lower) || s.contains(upper)
}

/// The filter that a string of letters stands for: `d` hides the date, `f`
/// the fields, `l` the level and `s` the spans, each in either case; any
/// other character says nothing.
pub open spec fn filter_of(s: Seq<char>) -> FmtFilter {
    FmtFilter {
        hide_date: has_letter(s, 'd', 'D'),
        hide_fields: has_letter(s, 'f', 'F'),
        hide_level: has_letter(s, 'l', 'L'),
        hide_spans: has_letter(s, 's', 'S'),
    }
}

impl<'a> From<&'a str> for FmtFilter {
    fn from(filter_str: &'a str) -> (filter: FmtFilter) {
        let mut filter = FmtFilter {
            hide_date: false,
            hide_fields: false,
            hide_level: false,
            hide_spans: false,
        };
        for c in it: filter_str.chars()
            invariant
                it.seq() == filter_str@,
                filter == filter_of(filter_str@.take(it.index())),
        {
            let ghost seen = filter_str@.take(it.index());
            assert(filter_str@.take(it.index() + 1) == seen.push(c));
            assert forall|x: char| seen.push(c).contains(x) <==> seen.contains(x) || x == c by {
                vstd::seq_lib::lemma_seq_contains_after_push(seen, c, x);
            }
            if c == 'd' || c == 'D' {
                filter.hide_date = true;
            } else if c == 'f' || c == 'F' {
                filter.hide_fields = true;
            } else if c == 'l' || c == 'L' {
                filter.hide_level = true;
            } else if c == 's' || c == 'S' {
                filter.hide_spans = true;
            }
        }
        assert(filter_str@.take(filter_str@.len() as int) == filter_str@);
        filter
    }
}

impl<'a> FromSpecImpl<&'a str> for FmtFilter {
    open spec fn obeys_from_spec() -> bool {
        true
    }

    open spec fn from_spec(filter_str: &'a str) -> FmtFilter {
        filter_of(filter_str@)
    }
}

impl From<String> for FmtFilter {
    fn from(filter_string: String) -> (filter: FmtFilter) {
        FmtFilter::from(filter_string.as_str())
    }
}

impl FromSpecImpl<String> for FmtFilter {
    open spec fn obeys_from_spec() -> bool {
        true
    }

    open spec fn from_spec(filter_string: String) -> FmtFilter {
        filter_of(filter_string@)
    }
}

/// The options of the command line that decide what is logged.
#[derive(Clone, Debug, PartialEq, Eq)]
pub struct Opts {
    /// Log errors only.
    pub quiet: bool,
    /// Log everything.
    pub debug: bool,
    /// The letters of the parts of a log line that are left out.
    pub hide: Option<String>,
}

/// What the logging is set up with.
#[derive(Clone, Debug, PartialEq, Eq)]
pub struct TracingSetup {
    /// The directives of the filter that decides which events are logged.
    pub log_filter: String,
    /// The parts of a log line that are left out.
    pub fmt_filter: FmtFilter,
}

/// The filter directives for the given options. `rust_log` is the value of
/// the environment variable `RUST_LOG`. Where it is set it is used as it
/// is, unless the tool is asked to be quiet, which silences everything.
/// Where it is not set, the tool logs its own errors when asked to be
/// quiet, everything of its own when asked to debug, and else what is of
/// interest.
pub open spec fn log_filter_of(rust_log: Option<Seq<char>>, quiet: bool, debug: bool) -> Seq<char> {
    match rust_log {
        Some(filter) => if quiet {
            Seq::empty()
        } else {
            filter
        },
        None => if quiet {
            "pkger=error"@
        } else if debug {
            "pkger=trace"@
        } else {
            "pkger=info"@
        },
    }
}

/// The parts to hide for the given options: those that the letters of
/// `hide` name, and none without it.
pub open spec fn fmt_filter_of(hide: Option<Seq<char>>) -> FmtFilter {
    match hide {
        Some(letters) => filter_of(letters),
        None => FmtFilter {
            hide_date: false,
            hide_fields: false,
            hide_level: false,
            hide_spans: false,
        },
    }
}

/// Decides how the logging is set up: which events are logged and which
/// parts of a log line are left out. `rust_log` is the value of the
/// environment variable `RUST_LOG`, if it is set.
pub fn setup_tracing(opts: &Opts, rust_log: Option<&str>) -> (r: TracingSetup)
    ensures
        r.log_filter@ == log_filter_of(rust_log.deep_view(), opts.quiet, opts.debug),
        r.fmt_filter == fmt_filter_of(opts.hide.deep_view()),
{
    let log_filter = match rust_log {
        Some(filter) => {
            if opts.quiet {
                String::new()
            } else {
                filter.to_owned()
            }
        },
        None => {
            if opts.quiet {
                "pkger=error".to_owned()
            } else if opts.debug {
                "pkger=trace".to_owned()
            } else {
                "pkger=info".to_owned()
            }
        },
    };
    let fmt_filter = match &opts.hide {
        Some(letters) => FmtFilter::from(letters.as_str()),
        None => FmtFilter {
            hide_date: false,
            hide_fields: false,
            hide_level: false,
            hide_spans: false,
        },
    };
    TracingSetup { log_filter, fmt_filter }
}

/// How grave an event is.
#[derive(Clone, Copy, Debug, PartialEq, Eq, Hash, Structural)]
pub enum Level {
    Error,
    Warn,
    Info,
    Debug,
    Trace,
}

impl Level {
    /// The word a log line carries for the level.
    pub open spec fn label(self) -> Seq<char> {
        match self {
            Level::Error => "ERROR"@,
            Level::Warn => "WARN"@,
            Level::Info => "INFO"@,
            Level::Debug => "DEBUG"@,
            Level::Trace => "TRACE"@,
        }
    }

    pub fn as_str(&self) -> (r: &'static str)
        ensures
            r@ == self.label(),
    {
        match self {
            Level::Error => "ERROR",
            Level::Warn => "WARN",
            Level::Info => "INFO",
            Level::Debug => "DEBUG",
            Level::Trace => "TRACE",
        }
    }
}

/// No label of a level holds an escape character.
pub proof fn lemma_label_is_plain(level: Level)
    ensures
        !level.label().contains(escape()),
{
    reveal_strlit("ERROR");
    reveal_strlit("WARN");
    reveal_strlit("INFO");
    reveal_strlit("DEBUG");
    reveal_strlit("TRACE");
    let label = level.label();
    assert forall|i: int| 0 <= i < label.len() implies label[i] != escape() by {}
}

/// `colored::ColoredString`: a text with the colour and the style it is to
/// be shown in.
#[verifier::external_type_specification]
#[verifier::external_body]
pub struct ExColoredString(colored::ColoredString);

/// The text that a `colored::ColoredString` holds, apart from its colour
/// and its style.
pub uninterp spec fn plain_text(text: ColoredString) -> Seq<char>;

/// The character that every escape sequence of a terminal begins with.
pub open spec fn escape() -> char {
    '\x1b'
}

/// The escape sequence with which `colored` ends a text that it styles.
pub open spec fn style_reset() -> Seq<char> {
    seq![escape(), '[', '0', 'm']
}

/// Whether `shown` is `text` as `colored` displays it: either as it is, or
/// behind the escape sequence of its style and before the one that ends
/// the style.
pub open spec fn displays(shown: Seq<char>, text: Seq<char>) -> bool {
    shown == text || exists|style: Seq<char>| shown == style + text + style_reset()
}

/// Whether `shown` is `text` as `colored` displays it, as far as that is
/// known: it is for a text without an escape character.
pub open spec fn displays_plain(shown: Seq<char>, text: Seq<char>) -> bool {
    !text.contains(escape()) ==> displays(shown, text)
}

/// Calls `colored::ColoredString::from`, which takes the text in without
/// colour or style: the result holds the text given.
#[verifier::external_body]
fn unstyled(text: &str) -> (styled: ColoredString)
    ensures
        plain_text(styled) == text@,
{
    ColoredString::from(text)
}

/// Calls `colored::Colorize::bold`, which adds to the style and leaves the
/// text as it is.
#[verifier::external_body]
fn bold(text: ColoredString) -> (styled: ColoredString)
    ensures
        plain_text(styled) == plain_text(text),
{
    text.bold()
}

/// Calls `colored::Colorize::italic`, which adds to the style and leaves the
/// text as it is.
#[verifier::external_body]
fn italic(text: ColoredString) -> (styled: ColoredString)
    ensures
        plain_text(styled) == plain_text(text),
{
    text.italic()
}

/// Calls `colored::Colorize::truecolor`, which sets the colour and leaves
/// the text as it is.
#[verifier::external_body]
fn truecolor(text: ColoredString, r: u8, g: u8, b: u8) -> (styled: ColoredString)
    ensures
        plain_text(styled) == plain_text(text),
{
    text.truecolor(r, g, b)
}

/// Calls `colored::Colorize::blue`, which sets the colour and leaves the
/// text as it is.
#[verifier::external_body]
fn blue(text: ColoredString) -> (styled: ColoredString)
    ensures
        plain_text(styled) == plain_text(text),
{
    text.blue()
}

/// Calls `colored::Colorize::bright_red`, which sets the colour and leaves the
/// text as it is.
#[verifier::external_body]
fn bright_red(text: ColoredString) -> (styled: ColoredString)
    ensures
        plain_text(styled) == plain_text(text),
{
    text.bright_red()
}

/// Calls `colored::Colorize::bright_yellow`, which sets the colour and leaves the
/// text as it is.
#[verifier::external_body]
fn bright_yellow(text: ColoredString) -> (styled: ColoredString)
    ensures
        plain_text(styled) == plain_text(text),
{
    text.bright_yellow()
}

/// Calls `colored::Colorize::bright_green`, which sets the colour and leaves the
/// text as it is.
#[verifier::external_body]
fn bright_green(text: ColoredString) -> (styled: ColoredString)
    ensures
        plain_text(styled) == plain_text(text),
{
    text.bright_green()
}

/// Calls `colored::Colorize::bright_blue`, which sets the colour and leaves the
/// text as it is.
#[verifier::external_body]
fn bright_blue(text: ColoredString) -> (styled: ColoredString)
    ensures
        plain_text(styled) == plain_text(text),
{
    text.bright_blue()
}

/// Calls `colored::Colorize::bright_magenta`, which sets the colour and leaves the
/// text as it is.
#[verifier::external_body]
fn bright_magenta(text: ColoredString) -> (styled: ColoredString)
    ensures
        plain_text(styled) == plain_text(text),
{
    text.bright_magenta()
}

/// Calls `to_string` on the text, which goes by the `Display` of
/// `colored::ColoredString`. Whether the text is styled at all depends on
/// the terminal and on the environment of the process. Either way a text
/// without an escape character is displayed as it is, or between the
/// escape sequence of its style and the one that ends the style. A text
/// that holds escape sequences may be changed inside, and nothing is
/// claimed of it.
#[verifier::external_body]
fn displayed(text: &ColoredString) -> (r: String)
    ensures
        !plain_text(*text).contains(escape()) ==> displays(r@, plain_text(*text)),
{
    text.to_string()
}

/// The date and time of a time stamp as `chrono` writes it in the format of
/// RFC 3339; none for a time stamp that `chrono` has no date for.
pub uninterp spec fn rfc3339_text(secs: int, nanos: int) -> Option<Seq<char>>;

/// Calls `chrono::DateTime::from_timestamp` and, on the date it gives,
/// `to_rfc3339`. Both are functions of their arguments alone, so the
/// result is the named text of the seconds and nanoseconds given.
#[verifier::external_body]
fn rfc3339(secs: i64, nanos: u32) -> (r: Option<String>)
    ensures
        r.deep_view() == rfc3339_text(secs as int, nanos as int),
{
    match chrono::DateTime::from_timestamp(secs, nanos) {
        Some(date) => Some(date.to_rfc3339()),
        None => None,
    }
}

/// The date of a time stamp as a log line carries it.
pub open spec fn date_text(at: Timestamp) -> Option<Seq<char>> {
    if at.secs <= i64::MAX {
        rfc3339_text(at.secs as int, at.nanos as int)
    } else {
        None
    }
}

/// Writes the date and time of a time stamp in the format of RFC 3339.
pub fn format_date(at: &Timestamp) -> (r: Option<String>)
    ensures
        r.deep_view() == date_text(*at),
{
    if at.secs <= 0x7fff_ffff_ffff_ffff {
        rfc3339(at.secs as i64, at.nanos)
    } else {
        None
    }
}

/// Fields visitor factory
#[derive(Clone, Copy, Debug, PartialEq, Eq, Structural)]
pub struct PkgerFields {
    pub hide_fields: bool,
}

impl PkgerFields {
    pub fn make_visitor(&self) -> (r: PkgerFieldsVisitor)
        ensures
            r@ == PkgerFieldsVisitorView::start(self.hide_fields),
    {
        PkgerFieldsVisitor::new(self.hide_fields)
    }
}

/// Fields visitor: takes in the fields of an event one by one and holds
/// the text written for them so far.
#[derive(Clone, Debug, PartialEq, Eq)]
pub struct PkgerFieldsVisitor {
    pub written: String,
    pub hide_fields: bool,
}

pub struct PkgerFieldsVisitorView {
    pub written: Seq<char>,
    pub hide_fields: bool,
}

impl View for PkgerFieldsVisitor {
    type V = PkgerFieldsVisitorView;

    open spec fn view(&self) -> PkgerFieldsVisitorView {
        PkgerFieldsVisitorView { written: self.written@, hide_fields: self.hide_fields }
    }
}

/// The name of the field that holds the message of an event.
pub open spec fn message_field() -> Seq<char> {
    "message"@
}

impl PkgerFieldsVisitorView {
    /// A visitor that has written nothing.
    pub open spec fn start(hide_fields: bool) -> PkgerFieldsVisitorView {
        PkgerFieldsVisitorView { written: Seq::empty(), hide_fields }
    }

    /// Whether a field is written: the message always, any other field
    /// unless the fields are hidden.
    pub open spec fn shows(self, field: Seq<char>) -> bool {
        field == message_field() || !self.hide_fields
    }

    /// The visitor after a field shown in the styles given: the message is
    /// written as it is, any other field as its name, `=` and its value.
    pub open spec fn recorded(
        self,
        field: Seq<char>,
        value: Seq<char>,
        styled_name: Seq<char>,
        styled_value: Seq<char>,
    ) -> PkgerFieldsVisitorView {
        if field == message_field() {
            PkgerFieldsVisitorView { written: self.written + value, ..self }
        } else if self.hide_fields {
            self
        } else {
            PkgerFieldsVisitorView {
                written: self.written + styled_name + "="@ + styled_value,
                ..self
            }
        }
    }
}

impl PkgerFieldsVisitor {
    pub fn new(hide_fields: bool) -> (r: PkgerFieldsVisitor)
        ensures
            r@ == PkgerFieldsVisitorView::start(hide_fields),
    {
        PkgerFieldsVisitor { written: String::new(), hide_fields }
    }

    /// Takes in a field whose name and value have been given their styles.
    /// `value` is the value of the field in its short form.
    pub fn record_styled(&mut self, field: &str, value: &str, styled_name: &str, styled_value: &str)
        ensures
            final(self)@ == old(self)@.recorded(field@, value@, styled_name@, styled_value@),
    {
        if str_eq(field, "message") {
            self.written.append(value);
        } else if !self.hide_fields {
            self.written.append(styled_name);
            self.written.append("=");
            self.written.append(styled_value);
        }
    }

    /// Takes in a field. `value` is the value in its short form and
    /// `pretty` in its long form. The message of the event is written in
    /// the short form as it is. Any other field is left out where the
    /// fields are hidden, and else written as its name, `=` and the long
    /// form of its value, the name in grey and the value in cyan italics,
    /// each as `colored` displays it.
    pub fn record_debug(&mut self, field: &str, value: &str, pretty: &str)
        ensures
            field@ == message_field() ==> final(self)@ == (PkgerFieldsVisitorView {
                written: old(self)@.written + value@,
                ..old(self)@
            }),
            !old(self)@.shows(field@) ==> final(self)@ == old(self)@,
            exists|styled_name: Seq<char>, styled_value: Seq<char>|
                final(self)@ == old(self)@.recorded(field@, value@, styled_name, styled_value)
                    && displays_plain(styled_name, field@) && displays_plain(
                    styled_value,
                    pretty@,
                ),
    {
        let name = displayed(&truecolor(unstyled(field), 0xa1, 0xa1, 0xa1));
        let shown = displayed(&italic(truecolor(unstyled(pretty), 0x26, 0xbd, 0xb0)));
        self.record_styled(field, value, name.as_str(), shown.as_str());
    }

    /// The text written for the fields taken in.
    pub fn finish(self) -> (r: String)
        ensures
            r@ == self@.written,
    {
        self.written
    }

    /// The text written so far.
    pub fn writer(&self) -> (r: &str)
        ensures
            r@ == self@.written,
    {
        self.written.as_str()
    }
}

/// Fields formatter
#[derive(Clone, Copy, Debug)]
pub struct PkgerFieldsFmt {
    pub delimiter: &'static str,
    pub hide_fields: bool,
}

impl PkgerFieldsFmt {
    /// The visitor that formats the fields of one event.
    pub fn make_visitor(&self) -> (r: PkgerFieldsVisitor)
        ensures
            r@ == PkgerFieldsVisitorView::start(self.hide_fields),
    {
        PkgerFieldsVisitor::new(self.hide_fields)
    }
}

/// The delimiter of the formatter for a filter.
pub open spec fn delimiter_for(hide_fields: bool) -> &'static str {
    if hide_fields {
        ""
    } else {
        ", "
    }
}

impl<'a> From<&'a FmtFilter> for PkgerFieldsFmt {
    fn from(filter: &'a FmtFilter) -> (r: PkgerFieldsFmt) {
        let delimiter = if filter.hide_fields {
            ""
        } else {
            ", "
        };
        PkgerFieldsFmt { delimiter, hide_fields: filter.hide_fields }
    }
}

impl<'a> FromSpecImpl<&'a FmtFilter> for PkgerFieldsFmt {
    open spec fn obeys_from_spec() -> bool {
        true
    }

    open spec fn from_spec(filter: &'a FmtFilter) -> PkgerFieldsFmt {
        PkgerFieldsFmt {
            delimiter: delimiter_for(filter.hide_fields),
            hide_fields: filter.hide_fields,
        }
    }
}

/// A span an event lies in: its name and its fields as they were formatted
/// when the span was entered.
#[derive(Clone, Debug, PartialEq, Eq)]
pub struct SpanRecord {
    pub name: String,
    pub fields: String,
}

/// A span with its parts in the styles they are shown in.
#[derive(Clone, Debug, PartialEq, Eq)]
pub struct StyledSpan {
    pub name: String,
    pub open: String,
    pub fields: String,
    pub close: String,
    pub colon: String,
}

pub struct StyledSpanView {
    pub name: Seq<char>,
    pub open: Seq<char>,
    pub fields: Seq<char>,
    pub close: Seq<char>,
    pub colon: Seq<char>,
}

impl View for StyledSpan {
    type V = StyledSpanView;

    open spec fn view(&self) -> StyledSpanView {
        StyledSpanView {
            name: self.name@,
            open: self.open@,
            fields: self.fields@,
            close: self.close@,
            colon: self.colon@,
        }
    }
}

impl DeepView for StyledSpan {
    type V = StyledSpanView;

    open spec fn deep_view(&self) -> StyledSpanView {
        self@
    }
}

impl StyledSpanView {
    /// The span as a log line shows it: the name, the fields in braces
    /// where there are any, and a colon.
    pub open spec fn text(self) -> Seq<char> {
        self.name + (if self.fields.len() > 0 {
            self.open + self.fields + self.close
        } else {
            Seq::empty()
        }) + self.colon
    }
}

/// The spans of an event, from the outermost to the innermost.
pub open spec fn spans_text(spans: Seq<StyledSpanView>) -> Seq<char>
    decreases spans.len(),
{
    if spans.len() == 0 {
        Seq::empty()
    } else {
        spans_text(spans.drop_last()) + spans.last().text()
    }
}

/// Whether `styled` is the span as a log line shows it: its name, the
/// braces and the colon as `colored` displays them, its fields as they are.
pub open spec fn styled_span(styled: StyledSpanView, span: SpanRecord) -> bool {
    &&& displays_plain(styled.name, span.name@)
    &&& displays(styled.open, "{"@)
    &&& styled.fields == span.fields@
    &&& displays(styled.close, "}"@)
    &&& displays(styled.colon, ":"@)
}

/// Whether the styled spans are the given spans, one for one.
pub open spec fn styled_spans(styled: Seq<StyledSpanView>, spans: Seq<SpanRecord>) -> bool {
    styled.len() == spans.len() && forall|j: int|
        0 <= j < spans.len() ==> styled_span(#[trigger] styled[j], spans[j])
}

/// Whether `date` is the date of a log line for a time stamp whose date
/// reads `text`: there with the date as `colored` displays it, and missing
/// with a time stamp that has no date.
pub open spec fn styled_date(date: Option<Seq<char>>, text: Option<Seq<char>>) -> bool {
    match (date, text) {
        (Some(shown), Some(t)) => displays_plain(shown, t),
        (None, None) => true,
        _ => false,
    }
}

/// Neither a brace nor a colon is an escape character.
pub proof fn lemma_marks_are_plain()
    ensures
        !"{"@.contains(escape()),
        !"}"@.contains(escape()),
        !":"@.contains(escape()),
{
    reveal_strlit("{");
    reveal_strlit("}");
    reveal_strlit(":");
}

/// Event formatter
#[derive(Clone, Copy, Debug, PartialEq, Eq, Structural)]
pub struct PkgerEventFmt {
    pub hide_date: bool,
    pub hide_level: bool,
    pub hide_spans: bool,
}

impl<'a> From<&'a FmtFilter> for PkgerEventFmt {
    fn from(filter: &'a FmtFilter) -> (r: PkgerEventFmt) {
        PkgerEventFmt {
            hide_date: filter.hide_date,
            hide_level: filter.hide_level,
            hide_spans: filter.hide_spans,
        }
    }
}

impl<'a> FromSpecImpl<&'a FmtFilter> for PkgerEventFmt {
    open spec fn obeys_from_spec() -> bool {
        true
    }

    open spec fn from_spec(filter: &'a FmtFilter) -> PkgerEventFmt {
        PkgerEventFmt {
            hide_date: filter.hide_date,
            hide_level: filter.hide_level,
            hide_spans: filter.hide_spans,
        }
    }
}

impl PkgerEventFmt {
    /// What comes before the fields of an event: the date and the level,
    /// each followed by a space, and the spans; each of the three unless
    /// it is hidden. A date that is not known is left out.
    pub open spec fn prefix(
        self,
        date: Option<Seq<char>>,
        level: Seq<char>,
        spans: Seq<StyledSpanView>,
    ) -> Seq<char> {
        (match date {
            Some(d) => if self.hide_date {
                Seq::empty()
            } else {
                d + " "@
            },
            None => Seq::empty(),
        }) + (if self.hide_level {
            Seq::empty()
        } else {
            level + " "@
        }) + (if self.hide_spans {
            Seq::empty()
        } else {
            spans_text(spans)
        })
    }

    /// The log line of an event: the prefix, the fields of the event and a
    /// line feed.
    pub open spec fn line(
        self,
        date: Option<Seq<char>>,
        level: Seq<char>,
        spans: Seq<StyledSpanView>,
        fields: Seq<char>,
    ) -> Seq<char> {
        self.prefix(date, level, spans) + fields + "\n"@
    }

    /// Puts the log line of an event together from its parts, each already
    /// in the style it is shown in.
    pub fn format_styled(
        &self,
        date: Option<&str>,
        level: &str,
        spans: &Vec<StyledSpan>,
        fields: &str,
    ) -> (r: String)
        ensures
            r@ == self.line(date.deep_view(), level@, spans.deep_view(), fields@),
    {
        let mut r = String::new();
        if let Some(d) = date {
            if !self.hide_date {
                r.append(d);
                r.append(" ");
            }
        }
        if !self.hide_level {
            r.append(level);
            r.append(" ");
        }
        let ghost head = r@;
        let ghost all = spans.deep_view();
        if !self.hide_spans {
            let mut i: usize = 0;
            while i < spans.len()
                invariant
                    i <= spans@.len(),
                    all == spans.deep_view(),
                    r@ == head + spans_text(all.take(i as int)),
                decreases spans@.len() - i,
            {
                let span = &spans[i];
                assert(all.take(i + 1).drop_last() == all.take(i as int));
                r.append(span.name.as_str());
                if !span.fields.as_str().is_empty() {
                    r.append(span.open.as_str());
                    r.append(span.fields.as_str());
                    r.append(span.close.as_str());
                }
                r.append(span.colon.as_str());
                i += 1;
            }
            assert(all.take(all.len() as int) == all);
        }
        r.append(fields);
        r.append("\n");
        r
    }

    /// The label of a level, in bold and in the colour of the level, as
    /// `colored` displays it.
    fn level_label(level: Level) -> (r: String)
        ensures
            displays(r@, level.label()),
    {
        proof {
            lemma_label_is_plain(level);
        }
        let label = bold(unstyled(level.as_str()));
        let label = match level {
            Level::Error => bright_red(label),
            Level::Warn => bright_yellow(label),
            Level::Info => bright_green(label),
            Level::Debug => bright_blue(label),
            Level::Trace => bright_magenta(label),
        };
        displayed(&label)
    }

    /// A span with its parts in their styles: the name and the braces in
    /// bold, the colon in blue, the fields as they are.
    fn style_span(span: &SpanRecord) -> (r: StyledSpan)
        ensures
            styled_span(r@, *span),
    {
        proof {
            lemma_marks_are_plain();
        }
        StyledSpan {
            name: displayed(&bold(unstyled(span.name.as_str()))),
            open: displayed(&bold(unstyled("{"))),
            fields: span.fields.clone(),
            close: displayed(&bold(unstyled("}"))),
            colon: displayed(&blue(unstyled(":"))),
        }
    }

    /// The log line of an event that happened at `at`, inside `spans`, the
    /// outermost first; `fields` are the fields of the event as the field
    /// formatter wrote them. The line is the date in bold grey, the level
    /// in bold and in its colour, each span with its fields in braces, and
    /// the fields. What is hidden is left out, so that a line with nothing
    /// but fields is the fields and a line feed. The date is there exactly
    /// when the time stamp has one, and each span is shown with its own
    /// fields. Whether the styled parts carry escape sequences is up to
    /// `colored`, the terminal and the environment.
    pub fn format_event(&self, at: &Timestamp, level: Level, spans: &Vec<SpanRecord>, fields: &str)
        -> (r: String)
        ensures
            exists|date: Option<Seq<char>>, label: Seq<char>, styled: Seq<StyledSpanView>|
                r@ == self.line(date, label, styled, fields@) && styled_date(date, date_text(*at))
                    && displays(label, level.label()) && styled_spans(styled, spans@),
            (self.hide_date || date_text(*at) is None) && self.hide_level && (self.hide_spans
                || spans@.len() == 0) ==> r@ == fields@ + "\n"@,
    {
        let date = match format_date(at) {
            Some(d) => Some(displayed(&truecolor(bold(unstyled(d.as_str())), 0x5f, 0x5f, 0x5f))),
            None => None,
        };
        let label = Self::level_label(level);
        let mut styled: Vec<StyledSpan> = Vec::new();
        let mut i: usize = 0;
        while i < spans.len()
            invariant
                i <= spans@.len(),
                styled@.len() == i,
                forall|j: int| 0 <= j < i ==> styled_span((#[trigger] styled@[j])@, spans@[j]),
            decreases spans@.len() - i,
        {
            styled.push(Self::style_span(&spans[i]));
            i += 1;
        }
        let date_ref = match &date {
            Some(d) => Some(d.as_str()),
            None => None,
        };
        self.format_styled(date_ref, label.as_str(), &styled, fields)
    }
}

} // verus!
