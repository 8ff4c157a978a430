//! Monitoring events for server faults.
//!
//! When a request has ended in an internal failure, `notify_error_handler`
//! builds the event that reports it: a fresh id, what the failure says of
//! itself, the request's URL, method and headers, and the stack trace that was
//! captured with the failure. Sending the event is left to the caller, and so
//! is the response, which goes to the client unchanged.

use crate::error::AppError;
use vstd::prelude::*;
use vstd::string::*;
use vstd::utf8::encode_utf8;

verus! {

/// `sentry::protocol::Stacktrace`: the frames of a stack trace. An event
/// carries it through; nothing here reads it.
#[verifier::external_type_specification]
#[verifier::external_body]
pub struct ExStacktrace(sentry::protocol::Stacktrace);

/// One header of a request: its name, and its value as the bytes received.
#[derive(Debug, PartialEq, Eq)]
pub struct Header {
    pub name: String,
    pub value: Vec<u8>,
}

/// A `Header` as plain values.
pub struct HeaderView {
    pub name: Seq<char>,
    pub value: Seq<u8>,
}

impl View for Header {
    type V = HeaderView;

    open spec fn view(&self) -> HeaderView {
        HeaderView { name: self.name@, value: self.value@ }
    }
}

impl DeepView for Header {
    type V = HeaderView;

    open spec fn deep_view(&self) -> HeaderView {
        self@
    }
}

/// What an event reports of the request that failed.
#[derive(Debug, PartialEq, Eq)]
pub struct RequestInfo {
    /// `http` or `https`.
    pub scheme: String,
    /// The host the client addressed, with the port if it named one.
    pub host: String,
    /// The path and query of the request.
    pub uri: String,
    /// The request method.
    pub method: String,
    /// The headers in the order received; a name may occur more than once.
    pub headers: Vec<Header>,
}

/// A `RequestInfo` as plain values.
pub struct RequestInfoView {
    pub scheme: Seq<char>,
    pub host: Seq<char>,
    pub uri: Seq<char>,
    pub method: Seq<char>,
    pub headers: Seq<HeaderView>,
}

impl View for RequestInfo {
    type V = RequestInfoView;

    open spec fn view(&self) -> RequestInfoView {
        RequestInfoView {
            scheme: self.scheme@,
            host: self.host@,
            uri: self.uri@,
            method: self.method@,
            headers: self.headers.deep_view(),
        }
    }
}

/// What the failure behind a response says of itself, and the stack trace
/// that was captured when it arose.
#[derive(Debug, PartialEq, Eq)]
pub struct ErrorReport {
    pub message: String,
    pub backtrace: String,
}

/// An `ErrorReport` as plain values.
pub struct ErrorReportView {
    pub message: Seq<char>,
    pub backtrace: Seq<char>,
}

impl View for ErrorReport {
    type V = ErrorReportView;

    open spec fn view(&self) -> ErrorReportView {
        ErrorReportView { message: self.message@, backtrace: self.backtrace@ }
    }
}

impl ErrorReport {
    /// The report of `error`: the detail it wraps, and the stack trace that
    /// was captured with it.
    pub fn new(error: &AppError, backtrace: String) -> (report: Self)
        ensures
            report@ == (ErrorReportView { message: error@.err, backtrace: backtrace@ }),
    {
        ErrorReport { message: error.detail().to_owned(), backtrace }
    }
}

/// The report handed in, as plain values.
pub open spec fn report_view(error: Option<&ErrorReport>) -> Option<ErrorReportView> {
    match error {
        Some(report) => Some(report@),
        None => None,
    }
}

/// How grave an event is.
#[derive(Debug, Clone, Copy, PartialEq, Eq, Structural)]
pub enum Level {
    Debug,
    Info,
    Warning,
    Error,
    Fatal,
}

/// A monitoring event.
#[derive(Debug, PartialEq)]
pub struct Event {
    /// The id of the event, a random UUID as a number.
    pub event_id: u128,
    /// What went wrong, in words.
    pub message: String,
    pub level: Level,
    /// The URL of the request, where one could be read from its parts.
    pub url: Option<String>,
    /// The request method.
    pub method: String,
    /// The request headers, one entry for each name.
    pub headers: Vec<(String, String)>,
    /// The stack trace of the failure, where one was captured.
    pub stacktrace: Option<sentry::protocol::Stacktrace>,
}

/// An `Event` as plain values. The headers are a map: the order of the
/// entries says nothing.
pub struct EventView {
    pub event_id: u128,
    pub message: Seq<char>,
    pub level: Level,
    pub url: Option<Seq<char>>,
    pub method: Seq<char>,
    pub headers: Map<Seq<char>, Seq<char>>,
    pub stacktrace: Option<sentry::protocol::Stacktrace>,
}

/// The map that a list of entries stands for; of two entries with one name
/// the later counts.
pub open spec fn entries(pairs: Seq<(String, String)>) -> Map<Seq<char>, Seq<char>>
    decreases pairs.len(),
{
    if pairs.len() == 0 {
        Map::empty()
    } else {
        entries(pairs.drop_last()).insert(pairs.last().0@, pairs.last().1@)
    }
}

/// No name occurs twice among the entries.
pub open spec fn names_differ(pairs: Seq<(String, String)>) -> bool {
    forall|i: int, j: int|
        0 <= i < j < pairs.len() ==> (#[trigger] pairs[i]).0@ != (#[trigger] pairs[j]).0@
}

impl View for Event {
    type V = EventView;

    open spec fn view(&self) -> EventView {
        EventView {
            event_id: self.event_id,
            message: self.message@,
            level: self.level,
            url: match self.url {
                Some(url) => Some(url@),
                None => None,
            },
            method: self.method@,
            headers: entries(self.headers@),
            stacktrace: self.stacktrace,
        }
    }
}

/// Whether a byte of a header value is a visible ASCII character, a space or
/// a tab.
pub open spec fn is_visible_ascii(byte: u8) -> bool {
    32 <= byte < 127 || byte == 9
}

/// A header value as text: the characters that its bytes stand for where all
/// of them are visible ASCII, and the empty text otherwise.
pub open spec fn header_text(value: Seq<u8>) -> Seq<char> {
    if forall|i: int| 0 <= i < value.len() ==> is_visible_ascii(#[trigger] value[i]) {
        value.map_values(|byte: u8| byte as char)
    } else {
        Seq::empty()
    }
}

/// The headers of a request as a map from name to text. Where a name occurs
/// more than once, its last value counts.
pub open spec fn header_map(headers: Seq<HeaderView>) -> Map<Seq<char>, Seq<char>>
    decreases headers.len(),
{
    if headers.len() == 0 {
        Map::empty()
    } else {
        header_map(headers.drop_last()).insert(headers.last().name, header_text(headers.last().value))
    }
}

/// The text an event's URL is read from: scheme, `://`, host, and the path
/// and query.
pub open spec fn url_text(request: RequestInfoView) -> Seq<char> {
    request.scheme + "://"@ + request.host + request.uri
}

/// What an event says when the failure behind the response is not known.
pub open spec fn default_message() -> Seq<char> {
    "Internal Server Error"@
}

/// Whether a byte is an ASCII digit.
pub open spec fn is_digit(byte: u8) -> bool {
    48 <= byte <= 57
}

/// How many ASCII digits stand in a row directly before place `end`.
pub open spec fn digits_before(bytes: Seq<u8>, end: int) -> nat
    decreases end,
{
    if end <= 0 || end > bytes.len() || !is_digit(bytes[end - 1]) {
        0
    } else {
        1 + digits_before(bytes, end - 1)
    }
}

/// Whether every number that can be read from a trace fits in 64 bits: no
/// byte outside ASCII directly follows a colon or a digit, and no more than
/// 19 digits stand in a row.
///
/// A line or column number in a trace starts directly after a colon and goes
/// on while digits follow, digits of any script. Under the first condition
/// such a run holds ASCII digits only; under the second it holds at most 19
/// of them, and so stands for a number below 2^64.
pub open spec fn numbers_fit(bytes: Seq<u8>) -> bool {
    &&& forall|i: int|
        0 < i < bytes.len() && (bytes[i - 1] == 58 || is_digit(bytes[i - 1])) ==> #[trigger] bytes[i]
            < 128
    &&& forall|end: int| 0 <= end <= bytes.len() ==> #[trigger] digits_before(bytes, end) <= 19
}

/// Whether `id` is a random UUID: version 4, in the layout of RFC 4122.
pub open spec fn is_random_uuid(id: u128) -> bool {
    (id >> 76) & 0xf == 4 && (id >> 62) & 0x3 == 2
}

/// The text of the URL that `sentry::protocol::Url::parse` reads from `text`,
/// as that URL writes itself; `None` where it reads none.
pub uninterp spec fn parsed_url(text: Seq<char>) -> Option<Seq<char>>;

/// The stack trace that `sentry::integrations::backtrace::parse_stacktrace`
/// reads from `text`; `None` where it finds no frame.
pub uninterp spec fn parsed_stacktrace(text: Seq<char>) -> Option<sentry::protocol::Stacktrace>;

/// Calls `sentry::types::random_uuid`, which draws 16 random bytes and sets
/// the version to 4 and the variant to RFC 4122. The contract claims those two
/// fields and nothing of the other bits.
#[verifier::external_body]
fn new_event_id() -> (id: u128)
    ensures
        is_random_uuid(id),
{
    sentry::types::random_uuid().as_u128()
}

/// Calls `sentry::protocol::Url::parse` and writes the URL out again. The
/// contract claims only that the result depends on `text` alone.
#[verifier::external_body]
fn parse_url(text: &str) -> (url: Option<String>)
    ensures
        match url {
            Some(url) => parsed_url(text@) == Some(url@),
            None => parsed_url(text@) is None,
        },
{
    sentry::protocol::Url::parse(text).ok().map(String::from)
}

/// Calls `sentry::integrations::backtrace::parse_stacktrace`. That function
/// reads each line and column number, a run of digits after a colon, with
/// `u64::from_str` and panics where that fails, so the contract admits only
/// text in which every such run fits. It claims only that the result depends
/// on `text` alone.
#[verifier::external_body]
fn parse_stacktrace(text: &str) -> (trace: Option<sentry::protocol::Stacktrace>)
    requires
        numbers_fit(encode_utf8(text@)),
    ensures
        trace == parsed_stacktrace(text@),
{
    sentry::integrations::backtrace::parse_stacktrace(text)
}

/// Calls `String::push`.
#[verifier::external_body]
fn push_char(text: &mut String, c: char)
    ensures
        final(text)@ == old(text)@.push(c),
{
    text.push(c)
}

/// A header value as text, as `header_text` says.
pub fn header_value_text(value: &Vec<u8>) -> (text: String)
    ensures
        text@ == header_text(value@),
{
    let mut i: usize = 0;
    while i < value.len()
        invariant
            i <= value.len(),
            forall|j: int| 0 <= j < i ==> is_visible_ascii(#[trigger] value[j]),
        decreases value.len() - i,
    {
        let byte: u8 = value[i];
        if !(byte >= 32 && byte < 127 || byte == 9) {
            return String::new();
        }
        i += 1;
    }
    let mut text = String::new();
    let mut k: usize = 0;
    while k < value.len()
        invariant
            k <= value.len(),
            text@ == value@.take(k as int).map_values(|byte: u8| byte as char),
        decreases value.len() - k,
    {
        push_char(&mut text, value[k] as char);
        assert(value@.take(k as int + 1).map_values(|byte: u8| byte as char) =~= value@.take(
            k as int,
        ).map_values(|byte: u8| byte as char).push(value[k as int] as char));
        k += 1;
    }
    assert(value@.take(value.len() as int) =~= value@);
    text
}

/// Replacing the value of an entry changes the map at that name only.
proof fn lemma_entries_replace(pairs: Seq<(String, String)>, at: int, entry: (String, String))
    requires
        names_differ(pairs),
        0 <= at < pairs.len(),
        entry.0@ == pairs[at].0@,
    ensures
        names_differ(pairs.update(at, entry)),
        entries(pairs.update(at, entry)) == entries(pairs).insert(entry.0@, entry.1@),
    decreases pairs.len(),
{
    let replaced = pairs.update(at, entry);
    assert forall|i: int, j: int| 0 <= i < j < replaced.len() implies (#[trigger] replaced[i]).0@ != (
    #[trigger] replaced[j]).0@ by {
        assert(pairs[i].0@ != pairs[j].0@);
    }
    if at == pairs.len() - 1 {
        assert(replaced.drop_last() =~= pairs.drop_last());
        assert(entries(replaced) =~= entries(pairs).insert(entry.0@, entry.1@));
    } else {
        let shorter = pairs.drop_last();
        assert forall|i: int, j: int| 0 <= i < j < shorter.len() implies (#[trigger] shorter[i]).0@
            != (#[trigger] shorter[j]).0@ by {
            assert(pairs[i].0@ != pairs[j].0@);
        }
        lemma_entries_replace(shorter, at, entry);
        assert(replaced.drop_last() =~= shorter.update(at, entry));
        assert(pairs[at].0@ != pairs[pairs.len() - 1].0@);
        assert(entries(replaced) =~= entries(pairs).insert(entry.0@, entry.1@));
    }
}

/// The headers of a request as entries of an event: one entry for each name,
/// with the text of the last value received under that name.
pub fn collect_headers(headers: &Vec<Header>) -> (pairs: Vec<(String, String)>)
    ensures
        entries(pairs@) == header_map(headers.deep_view()),
        names_differ(pairs@),
{
    let mut pairs: Vec<(String, String)> = Vec::new();
    let mut i: usize = 0;
    assert(headers.deep_view().take(0) =~= Seq::empty());
    while i < headers.len()
        invariant
            i <= headers.len(),
            names_differ(pairs@),
            entries(pairs@) == header_map(headers.deep_view().take(i as int)),
        decreases headers.len() - i,
    {
        let name = headers[i].name.clone();
        let text = header_value_text(&headers[i].value);
        let mut at: usize = 0;
        while at < pairs.len() && !(pairs[at].0 == name)
            invariant
                at <= pairs.len(),
                forall|j: int| 0 <= j < at ==> (#[trigger] pairs[j]).0@ != name@,
            decreases pairs.len() - at,
        {
            at += 1;
        }
        let ghost before = pairs@;
        let ghost entry = (name, text);
        if at < pairs.len() {
            proof {
                lemma_entries_replace(before, at as int, entry);
            }
            pairs.set(at, (name, text));
        } else {
            pairs.push((name, text));
            assert(pairs@.drop_last() =~= before);
            assert forall|a: int, b: int| 0 <= a < b < pairs.len() implies (#[trigger] pairs[a]).0@ != (
            #[trigger] pairs[b]).0@ by {
                if b < before.len() {
                    assert(before[a].0@ != before[b].0@);
                }
            }
        }
        proof {
            let seen = headers.deep_view().take(i as int + 1);
            assert(seen.drop_last() =~= headers.deep_view().take(i as int));
            assert(seen.last() == headers[i as int]@);
        }
        i += 1;
    }
    assert(headers.deep_view().take(headers.len() as int) =~= headers.deep_view());
    pairs
}

/// The text an event's URL is read from.
pub fn request_url(request: &RequestInfo) -> (text: String)
    ensures
        text@ == url_text(request@),
{
    let mut text = request.scheme.clone();
    text.append("://");
    text.append(request.host.as_str());
    text.append(request.uri.as_str());
    text
}

/// Whether every number that can be read from `trace` fits in 64 bits.
pub fn trace_numbers_fit(trace: &str) -> (fit: bool)
    ensures
        fit == numbers_fit(encode_utf8(trace@)),
{
    let bytes = trace.as_bytes();
    let mut run: usize = 0;
    let mut i: usize = 0;
    while i < bytes.len()
        invariant
            i <= bytes.len(),
            bytes@ == encode_utf8(trace@),
            run == digits_before(bytes@, i as int),
            run <= 19,
            forall|j: int|
                0 < j < i && (bytes[j - 1] == 58 || is_digit(bytes[j - 1])) ==> #[trigger] bytes[j]
                    < 128,
            forall|end: int| 0 <= end <= i ==> #[trigger] digits_before(bytes@, end) <= 19,
        decreases bytes.len() - i,
    {
        let byte: u8 = bytes[i];
        if i > 0 && byte >= 128 {
            let previous: u8 = bytes[i - 1];
            if previous == 58 || (previous >= 48 && previous <= 57) {
                return false;
            }
        }
        if byte >= 48 && byte <= 57 {
            if run == 19 {
                assert(digits_before(bytes@, i as int + 1) == 20);
                return false;
            }
            run += 1;
        } else {
            run = 0;
        }
        i += 1;
    }
    true
}

/// The stack trace read from the captured text, or `None` where no frame is
/// found or a number in the text is too long to read.
pub fn read_stacktrace(backtrace: &str) -> (trace: Option<sentry::protocol::Stacktrace>)
    ensures
        trace == stacktrace_of(backtrace@),
{
    if trace_numbers_fit(backtrace) {
        parse_stacktrace(backtrace)
    } else {
        None
    }
}

/// The stack trace an event carries for this captured text.
pub open spec fn stacktrace_of(backtrace: Seq<char>) -> Option<sentry::protocol::Stacktrace> {
    if numbers_fit(encode_utf8(backtrace)) {
        parsed_stacktrace(backtrace)
    } else {
        None
    }
}

/// The event for a failed request, given its id, the URL that was read and
/// the stack trace that was read.
///
/// The message is the failure's own where the failure is known, and the
/// default otherwise. The level is always `Error`. The stack trace is dropped
/// where the failure is not known.
pub open spec fn event_of(
    request: RequestInfoView,
    error: Option<ErrorReportView>,
    event_id: u128,
    url: Option<Seq<char>>,
    stacktrace: Option<sentry::protocol::Stacktrace>,
) -> EventView {
    EventView {
        event_id,
        message: match error {
            Some(report) => report.message,
            None => default_message(),
        },
        level: Level::Error,
        url,
        method: request.method,
        headers: header_map(request.headers),
        stacktrace: match error {
            Some(_) => stacktrace,
            None => None,
        },
    }
}

/// Builds the event for a failed request from its parts, as `event_of` says.
pub fn build_event(
    request: &RequestInfo,
    error: Option<&ErrorReport>,
    event_id: u128,
    url: Option<String>,
    stacktrace: Option<sentry::protocol::Stacktrace>,
) -> (event: Event)
    ensures
        event@ == event_of(
            request@,
            report_view(error),
            event_id,
            match url {
                Some(url) => Some(url@),
                None => None,
            },
            stacktrace,
        ),
        names_differ(event.headers@),
{
    let message = match error {
        Some(report) => report.message.clone(),
        None => "Internal Server Error".to_owned(),
    };
    let stacktrace = match error {
        Some(_) => stacktrace,
        None => None,
    };
    Event {
        event_id,
        message,
        level: Level::Error,
        url,
        method: request.method.clone(),
        headers: collect_headers(&request.headers),
        stacktrace,
    }
}

/// Builds the monitoring event for a response that reports a server fault.
///
/// `request` is the request that failed. `error` is the failure behind the
/// response where it is one of this library's, and `None` otherwise. The
/// event gets a fresh random id; its URL is read from scheme, host and path
/// of the request and left out where they give none.
pub fn notify_error_handler(request: &RequestInfo, error: Option<&ErrorReport>) -> (event: Event)
    ensures
        is_random_uuid(event.event_id),
        names_differ(event.headers@),
        event@ == event_of(
            request@,
            report_view(error),
            event.event_id,
            parsed_url(url_text(request@)),
            match error {
                Some(report) => stacktrace_of(report.backtrace@),
                None => None,
            },
        ),
{
    let event_id = new_event_id();
    let text = request_url(request);
    let url = parse_url(text.as_str());
    let stacktrace = match error {
        Some(report) => read_stacktrace(report.backtrace.as_str()),
        None => None,
    };
    build_event(request, error, event_id, url, stacktrace)
}

} // verus!
