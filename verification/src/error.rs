//! A serializable and log friendly error record.

use vstd::prelude::*;
use crate::text::{kv_texts, lemma_dec_val, lookup_first, spec_dec, spec_digits_val, spec_is_digit,
    spec_join, spec_lookup, texts_of, join_lines, u64_to_dec};

verus! {

/// A serializable and log friendly error.
#[derive(Debug)]
pub struct Error {
    /// A concise description of the action that failed.
    ///
    /// Typically starts with a verb.
    ///
    /// Will be displayed as:
    /// > Failed to {action}
    ///
    /// Example: `deserialize object`
    pub action: String,

    /// A concise message describing the error.
    ///
    /// Displayed after the domain.
    ///
    /// Example: `Object is not valid.`
    pub message: String,

    /// A concise description of the domain in which this occurred.
    ///
    /// Will be displayed as:
    /// > A {domain} error occurred
    ///
    /// Example: `serialization`
    pub domain: Option<String>,

    /// An HTTP status code.
    ///
    /// Will be displayed as:
    /// > A {status_code} error occurred
    ///
    /// Example: `404`
    pub status_code: Option<u16>,

    /// Text of the stack trace captured at construction.
    ///
    /// Never serialized, and never kept by a copy.
    pub backtrace: Option<String>,
}

/// Relies on `std::backtrace::Backtrace::capture`; the trace text is kept
/// only when the platform reports a captured trace.
#[verifier::external_body]
fn capture_backtrace() -> Option<String> {
    let backtrace = std::backtrace::Backtrace::capture();
    match backtrace.status() {
        std::backtrace::BacktraceStatus::Captured => Some(backtrace.to_string()),
        _ => None,
    }
}

/// The first display line: `Failed to {action}`.
pub open spec fn spec_action_line(e: Error) -> Seq<char> {
    "Failed to "@ + e.action@
}

/// The display line of a domain: `A {domain} error occurred`.
pub open spec fn spec_domain_line(domain: Seq<char>) -> Seq<char> {
    "A "@ + domain + " error occurred"@
}

/// The display line of a status code: `A {status_code} error occurred`.
pub open spec fn spec_status_line(status_code: u16) -> Seq<char> {
    "A "@ + spec_dec(status_code as nat) + " error occurred"@
}

/// The display lines of an error: the action line, the domain line when a
/// domain is present, the status line when a status code is present, and
/// the message line.
pub open spec fn spec_lines(e: Error) -> Seq<Seq<char>> {
    seq![spec_action_line(e)] + (match e.domain {
        Some(d) => seq![spec_domain_line(d@)],
        None => Seq::empty(),
    }) + (match e.status_code {
        Some(n) => seq![spec_status_line(n)],
        None => Seq::empty(),
    }) + seq![e.message@]
}

/// The serialized field order of an error: `action` and `message` always,
/// then `domain` and `status_code` only when present; the backtrace never.
pub open spec fn spec_fields(e: Error) -> Seq<(Seq<char>, Seq<char>)> {
    seq![("action"@, e.action@), ("message"@, e.message@)] + (match e.domain {
        Some(d) => seq![("domain"@, d@)],
        None => Seq::empty(),
    }) + (match e.status_code {
        Some(n) => seq![("status_code"@, spec_dec(n as nat))],
        None => Seq::empty(),
    })
}

impl Error {
    /// Create a new error with a specific action and message.
    pub fn new(action: String, message: String) -> (r: Self)
        ensures
            r.action == action,
            r.message == message,
            r.domain is None,
            r.status_code is None,
    {
        Error { action, message, domain: None, status_code: None, backtrace: capture_backtrace() }
    }

    /// Format the error as separate lines.
    pub fn lines(&self) -> (r: Vec<String>)
        ensures
            texts_of(r@) == spec_lines(*self),
    {
        let mut lines: Vec<String> = Vec::new();
        let mut first = String::new();
        first.append("Failed to ");
        first.append(self.action.as_str());
        proof {
            assert(first@ =~= spec_action_line(*self));
        }
        lines.push(first);
        if let Some(domain) = &self.domain {
            let mut line = String::new();
            line.append("A ");
            line.append(domain.as_str());
            line.append(" error occurred");
            proof {
                assert(line@ =~= spec_domain_line(domain@));
            }
            lines.push(line);
        }
        if let Some(status_code) = &self.status_code {
            let mut line = String::new();
            line.append("A ");
            let num = u64_to_dec(*status_code as u64);
            line.append(num.as_str());
            line.append(" error occurred");
            proof {
                assert(line@ =~= spec_status_line(*status_code));
            }
            lines.push(line);
        }
        lines.push(self.message.clone());
        proof {
            assert(texts_of(lines@) =~= spec_lines(*self));
        }
        lines
    }

    /// The error as a multiline string, lines joined by single newlines.
    pub fn display(&self) -> (r: String)
        ensures
            r@ == spec_join(spec_lines(*self)),
    {
        let lines = self.lines();
        join_lines(&lines)
    }

    /// The ordered serialized fields of the error.
    ///
    /// `action` and `message` are always present; `domain` and
    /// `status_code` appear only when set; the backtrace never appears.
    pub fn to_fields(&self) -> (r: Vec<(String, String)>)
        ensures
            kv_texts(r@) == spec_fields(*self),
            self.domain is None ==> forall|i: int|
                0 <= i < r@.len() ==> (#[trigger] r@[i]).0@ != "domain"@,
            self.status_code is None ==> forall|i: int|
                0 <= i < r@.len() ==> (#[trigger] r@[i]).0@ != "status_code"@,
    {
        proof {
            reveal_strlit("action");
            reveal_strlit("message");
            reveal_strlit("domain");
            reveal_strlit("status_code");
        }
        let mut fields: Vec<(String, String)> = Vec::new();
        fields.push(("action".to_owned(), self.action.clone()));
        fields.push(("message".to_owned(), self.message.clone()));
        if let Some(domain) = &self.domain {
            fields.push(("domain".to_owned(), domain.clone()));
        }
        if let Some(status_code) = &self.status_code {
            fields.push(("status_code".to_owned(), u64_to_dec(*status_code as u64)));
        }
        proof {
            assert(kv_texts(fields@) =~= spec_fields(*self));
            assert("action"@[0] == 'a' && "message"@[0] == 'm' && "domain"@[0] == 'd'
                && "status_code"@[0] == 's');
            assert("action"@ != "domain"@);
            assert("message"@ != "domain"@);
            assert("status_code"@ != "domain"@);
            assert("action"@ != "status_code"@);
            assert("message"@ != "status_code"@);
            assert("domain"@ != "status_code"@);
            assert(forall|i: int|
                0 <= i < fields@.len() ==> (#[trigger] fields@[i]).0@ == kv_texts(fields@)[i].0);
        }
        fields
    }

    /// Rebuild an error from serialized fields.
    ///
    /// Missing `action` or `message` entries read as empty strings; the
    /// rebuilt error never carries a backtrace.
    pub fn from_fields(fields: &Vec<(String, String)>) -> (r: Self)
        ensures
            match spec_lookup(kv_texts(fields@), "action"@) {
                Some(a) => r.action@ == a,
                None => r.action@ == Seq::<char>::empty(),
            },
            match spec_lookup(kv_texts(fields@), "message"@) {
                Some(m) => r.message@ == m,
                None => r.message@ == Seq::<char>::empty(),
            },
            match spec_lookup(kv_texts(fields@), "domain"@) {
                Some(d) => r.domain matches Some(x) && x@ == d,
                None => r.domain is None,
            },
            match spec_lookup(kv_texts(fields@), "status_code"@) {
                Some(t) => forall|n: u16| t == spec_dec(n as nat) ==> r.status_code == Some(n),
                None => r.status_code is None,
            },
            r.backtrace is None,
    {
        let action = match lookup_first(fields, "action") {
            Some(a) => a,
            None => String::new(),
        };
        let message = match lookup_first(fields, "message") {
            Some(m) => m,
            None => String::new(),
        };
        let domain = lookup_first(fields, "domain");
        let status_code = match lookup_first(fields, "status_code") {
            Some(t) => {
                let parsed = parse_u16(t.as_str());
                proof {
                    assert forall|n: u16| t@ == spec_dec(n as nat) implies parsed == Some(
                        n,
                    ) by {
                        lemma_dec_val(n as nat);
                        assert(spec_dec(n as nat).len() >= 1);
                    }
                }
                parsed
            },
            None => None,
        };
        Error { action, message, domain, status_code, backtrace: None }
    }
}

/// The display of an error has one line for the action, one line per
/// optional field present, and one line for the message.
pub proof fn lemma_display_shape(e: Error)
    ensures
        spec_lines(e).len() == 2 + (if e.domain is Some {
            1int
        } else {
            0int
        }) + (if e.status_code is Some {
            1int
        } else {
            0int
        }),
{
}

/// The serialized fields of an error read back every field that was
/// serialized: `action` and `message` always, `domain` and `status_code`
/// exactly when present.
pub proof fn lemma_fields_round_trip(e: Error)
    ensures
        spec_lookup(spec_fields(e), "action"@) == Some(e.action@),
        spec_lookup(spec_fields(e), "message"@) == Some(e.message@),
        (match e.domain {
            Some(d) => spec_lookup(spec_fields(e), "domain"@) == Some(d@),
            None => spec_lookup(spec_fields(e), "domain"@) is None,
        }),
        (match e.status_code {
            Some(n) => spec_lookup(spec_fields(e), "status_code"@) == Some(spec_dec(n as nat)),
            None => spec_lookup(spec_fields(e), "status_code"@) is None,
        }),
{
    reveal_strlit("action");
    reveal_strlit("message");
    reveal_strlit("domain");
    reveal_strlit("status_code");
    assert("action"@[0] == 'a' && "message"@[0] == 'm' && "domain"@[0] == 'd'
        && "status_code"@[0] == 's');
    let f = spec_fields(e);
    assert(f[0] == ("action"@, e.action@));
    assert(f[1] == ("message"@, e.message@));
    assert(spec_lookup(f, "action"@) == Some(e.action@));
    let f1 = f.drop_first();
    assert(f1[0] == ("message"@, e.message@));
    assert(spec_lookup(f, "message"@) == spec_lookup(f1, "message"@));
    assert(spec_lookup(f1, "message"@) == Some(e.message@));
    let f2 = f1.drop_first();
    assert(spec_lookup(f, "domain"@) == spec_lookup(f2, "domain"@)) by {
        assert(spec_lookup(f1, "domain"@) == spec_lookup(f2, "domain"@));
    }
    assert(spec_lookup(f, "status_code"@) == spec_lookup(f2, "status_code"@)) by {
        assert(spec_lookup(f1, "status_code"@) == spec_lookup(f2, "status_code"@));
    }
    match e.domain {
        Some(d) => {
            assert(f2[0] == ("domain"@, d@));
            assert(spec_lookup(f2, "domain"@) == Some(d@));
        },
        None => {
            match e.status_code {
                Some(n) => {
                    assert(f2 =~= seq![("status_code"@, spec_dec(n as nat))]);
                    assert(spec_lookup(f2, "domain"@) == spec_lookup(
                        f2.drop_first(),
                        "domain"@,
                    ));
                    assert(f2.drop_first() =~= Seq::<(Seq<char>, Seq<char>)>::empty());
                },
                None => {
                    assert(f2 =~= Seq::<(Seq<char>, Seq<char>)>::empty());
                },
            }
        },
    }
    match e.status_code {
        Some(n) => {
            match e.domain {
                Some(d) => {
                    assert(f2 =~= seq![("domain"@, d@), ("status_code"@, spec_dec(n as nat))]);
                    assert(spec_lookup(f2, "status_code"@) == spec_lookup(
                        f2.drop_first(),
                        "status_code"@,
                    ));
                    assert(f2.drop_first()[0] == ("status_code"@, spec_dec(n as nat)));
                },
                None => {
                    assert(f2 =~= seq![("status_code"@, spec_dec(n as nat))]);
                    assert(spec_lookup(f2, "status_code"@) == Some(spec_dec(n as nat)));
                },
            }
        },
        None => {
            match e.domain {
                Some(d) => {
                    assert(f2 =~= seq![("domain"@, d@)]);
                    assert(spec_lookup(f2, "status_code"@) == spec_lookup(
                        f2.drop_first(),
                        "status_code"@,
                    ));
                    assert(f2.drop_first() =~= Seq::<(Seq<char>, Seq<char>)>::empty());
                },
                None => {
                    assert(f2 =~= Seq::<(Seq<char>, Seq<char>)>::empty());
                },
            }
        },
    }
}

/// Whether a text is a decimal numeral whose value fits 16 bits.
pub open spec fn spec_is_u16_numeral(s: Seq<char>) -> bool {
    &&& s.len() > 0
    &&& forall|j: int| 0 <= j < s.len() ==> spec_is_digit(#[trigger] s[j])
    &&& spec_digits_val(s) <= 0xFFFF
}

/// Parse a decimal numeral into a 16-bit number; anything else is `None`.
fn parse_u16(s: &str) -> (r: Option<u16>)
    ensures
        match r {
            Some(v) => spec_is_u16_numeral(s@) && v as int == spec_digits_val(s@),
            None => !spec_is_u16_numeral(s@),
        },
{
    let n = s.unicode_len();
    if n == 0 {
        return None;
    }
    let mut value: u32 = 0;
    let mut i: usize = 0;
    while i < n
        invariant
            n == s@.len(),
            i <= n,
            value <= 0xFFFF,
            value as int == spec_digits_val(s@.take(i as int)),
            forall|j: int| 0 <= j < i ==> spec_is_digit(#[trigger] s@[j]),
        decreases n - i,
    {
        let c = s.get_char(i);
        if c < '0' || c > '9' {
            return None;
        }
        let d = (c as u32) - ('0' as u32);
        let next = value * 10 + d;
        proof {
            assert(s@.take(i + 1).drop_last() =~= s@.take(i as int));
            assert(s@.take(i + 1).last() == s@[i as int]);
            assert(next as int == spec_digits_val(s@.take(i + 1)));
        }
        if next > 0xFFFF {
            proof {
                if forall|j: int| 0 <= j < s@.len() ==> spec_is_digit(#[trigger] s@[j]) {
                    crate::text::lemma_digits_val_prefix(s@, i + 1);
                }
            }
            return None;
        }
        value = next;
        i += 1;
    }
    proof {
        assert(s@.take(n as int) =~= s@);
    }
    Some(value as u16)
}

impl Clone for Error {
    /// A copy keeps every field except the backtrace: a stack trace marks
    /// its point of capture and is not meaningful to duplicate.
    fn clone(&self) -> (r: Self)
        ensures
            r.action == self.action,
            r.message == self.message,
            r.domain == self.domain,
            r.status_code == self.status_code,
            r.backtrace is None,
    {
        Error {
            action: self.action.clone(),
            message: self.message.clone(),
            domain: match &self.domain {
                Some(d) => Some(d.clone()),
                None => None,
            },
            status_code: self.status_code,
            backtrace: None,
        }
    }
}

/// Relies on the source error's `Display` form, through `ToString`, for
/// the message text.
#[verifier::external_body]
pub(crate) fn error_text<E: std::error::Error + ?Sized>(e: &E) -> String {
    e.to_string()
}

/// The record for a failed generic operation.
fn operation_error(message: String) -> (r: Error)
    ensures
        r.action@ == "perform operation"@,
        r.message == message,
        r.domain is None,
        r.status_code is None,
{
    Error::new("perform operation".to_owned(), message)
}

/// The record for a failed I/O operation.
fn io_operation_error(message: String) -> (r: Error)
    ensures
        r.action@ == "perform I/O operation"@,
        r.message == message,
        r.domain is None,
        r.status_code is None,
{
    Error::new("perform I/O operation".to_owned(), message)
}

/// The record for a failed conversion of bytes to a UTF-8 string.
fn utf8_conversion_error(message: String) -> (r: Error)
    ensures
        r.action@ == "convert bytes to UTF-8 string"@,
        r.message == message,
        r.domain is None,
        r.status_code is None,
{
    Error::new("convert bytes to UTF-8 string".to_owned(), message)
}

/// The record for a failed validation of a UTF-8 string.
fn utf8_parse_error(message: String) -> (r: Error)
    ensures
        r.action@ == "parse UTF-8 string"@,
        r.message == message,
        r.domain is None,
        r.status_code is None,
{
    Error::new("parse UTF-8 string".to_owned(), message)
}

/// The record for a failed formatting operation.
fn format_failure_error(message: String) -> (r: Error)
    ensures
        r.action@ == "format string"@,
        r.message == message,
        r.domain is None,
        r.status_code is None,
{
    Error::new("format string".to_owned(), message)
}

/// The record for a failed integer parse.
fn parse_int_failure_error(message: String) -> (r: Error)
    ensures
        r.action@ == "parse integer"@,
        r.message == message,
        r.domain is None,
        r.status_code is None,
{
    Error::new("parse integer".to_owned(), message)
}

/// The record for a failed float parse.
fn parse_float_failure_error(message: String) -> (r: Error)
    ensures
        r.action@ == "parse float"@,
        r.message == message,
        r.domain is None,
        r.status_code is None,
{
    Error::new("parse float".to_owned(), message)
}

/// The record for a failed logger registration.
fn set_logger_failure_error(message: String) -> (r: Error)
    ensures
        r.action@ == "set logger"@,
        r.message == message,
        r.domain is None,
        r.status_code is None,
{
    Error::new("set logger".to_owned(), message)
}

/// The record for a failed system time reading.
fn system_time_failure_error(message: String) -> (r: Error)
    ensures
        r.action@ == "get system time"@,
        r.message == message,
        r.domain is None,
        r.status_code is None,
{
    Error::new("get system time".to_owned(), message)
}

/// The record for a failed time parse.
fn parse_time_failure_error(message: String) -> (r: Error)
    ensures
        r.action@ == "parse time"@,
        r.message == message,
        r.domain is None,
        r.status_code is None,
{
    Error::new("parse time".to_owned(), message)
}

impl From<String> for Error {
    /// Forwards to the verified [`operation_error`]: the string becomes
    /// the message under the generic action.
    #[verifier::external_body]
    fn from(err: String) -> (r: Self)
        ensures
            r.action@ == "perform operation"@,
            r.message == err,
            r.domain is None,
            r.status_code is None,
    {
        operation_error(err)
    }
}

impl From<&str> for Error {
    /// Forwards to the verified [`operation_error`]: the string becomes
    /// the message under the generic action.
    #[verifier::external_body]
    fn from(err: &str) -> (r: Self)
        ensures
            r.action@ == "perform operation"@,
            r.message@ == err@,
            r.domain is None,
            r.status_code is None,
    {
        operation_error(err.to_owned())
    }
}

impl From<std::io::Error> for Error {
    /// Relies on `std::io::Error`'s `Display` form, through
    /// [`error_text`], for the message handed to the verified
    /// [`io_operation_error`].
    #[verifier::external_body]
    fn from(err: std::io::Error) -> (r: Self)
        ensures
            r.action@ == "perform I/O operation"@,
            r.domain is None,
            r.status_code is None,
    {
        io_operation_error(error_text(&err))
    }
}

impl From<std::string::FromUtf8Error> for Error {
    /// Relies on `FromUtf8Error`'s `Display` form, through
    /// [`error_text`], for the message handed to the verified
    /// [`utf8_conversion_error`].
    #[verifier::external_body]
    fn from(err: std::string::FromUtf8Error) -> (r: Self)
        ensures
            r.action@ == "convert bytes to UTF-8 string"@,
            r.domain is None,
            r.status_code is None,
    {
        utf8_conversion_error(error_text(&err))
    }
}

impl From<std::str::Utf8Error> for Error {
    /// Relies on `Utf8Error`'s `Display` form, through [`error_text`],
    /// for the message handed to the verified [`utf8_parse_error`].
    #[verifier::external_body]
    fn from(err: std::str::Utf8Error) -> (r: Self)
        ensures
            r.action@ == "parse UTF-8 string"@,
            r.domain is None,
            r.status_code is None,
    {
        utf8_parse_error(error_text(&err))
    }
}

impl From<std::fmt::Error> for Error {
    /// Relies on `std::fmt::Error`'s `Display` form, through
    /// [`error_text`], for the message handed to the verified
    /// [`format_failure_error`].
    #[verifier::external_body]
    fn from(err: std::fmt::Error) -> (r: Self)
        ensures
            r.action@ == "format string"@,
            r.domain is None,
            r.status_code is None,
    {
        format_failure_error(error_text(&err))
    }
}

impl From<std::num::ParseIntError> for Error {
    /// Relies on `ParseIntError`'s `Display` form, through
    /// [`error_text`], for the message handed to the verified
    /// [`parse_int_failure_error`].
    #[verifier::external_body]
    fn from(err: std::num::ParseIntError) -> (r: Self)
        ensures
            r.action@ == "parse integer"@,
            r.domain is None,
            r.status_code is None,
    {
        parse_int_failure_error(error_text(&err))
    }
}

impl From<std::num::ParseFloatError> for Error {
    /// Relies on `ParseFloatError`'s `Display` form, through
    /// [`error_text`], for the message handed to the verified
    /// [`parse_float_failure_error`].
    #[verifier::external_body]
    fn from(err: std::num::ParseFloatError) -> (r: Self)
        ensures
            r.action@ == "parse float"@,
            r.domain is None,
            r.status_code is None,
    {
        parse_float_failure_error(error_text(&err))
    }
}

impl From<log::SetLoggerError> for Error {
    /// Relies on `SetLoggerError`'s `Display` form, through
    /// [`error_text`], for the message handed to the verified
    /// [`set_logger_failure_error`].
    #[verifier::external_body]
    fn from(err: log::SetLoggerError) -> (r: Self)
        ensures
            r.action@ == "set logger"@,
            r.domain is None,
            r.status_code is None,
    {
        set_logger_failure_error(error_text(&err))
    }
}

impl From<std::time::SystemTimeError> for Error {
    /// Relies on `SystemTimeError`'s `Display` form, through
    /// [`error_text`], for the message handed to the verified
    /// [`system_time_failure_error`].
    #[verifier::external_body]
    fn from(err: std::time::SystemTimeError) -> (r: Self)
        ensures
            r.action@ == "get system time"@,
            r.domain is None,
            r.status_code is None,
    {
        system_time_failure_error(error_text(&err))
    }
}

impl From<chrono::format::ParseError> for Error {
    /// Relies on `chrono::ParseError`'s `Display` form, through
    /// [`error_text`], for the message handed to the verified
    /// [`parse_time_failure_error`].
    #[verifier::external_body]
    fn from(err: chrono::format::ParseError) -> (r: Self)
        ensures
            r.action@ == "parse time"@,
            r.domain is None,
            r.status_code is None,
    {
        parse_time_failure_error(error_text(&err))
    }
}

impl From<std::convert::Infallible> for Error {
    /// Relies on `Infallible` having no values: this conversion can never run.
    #[verifier::external_body]
    fn from(err: std::convert::Infallible) -> (r: Self) {
        match err {}
    }
}

impl Error {
    /// Relies on the boxed error's `Display` form, through
    /// [`error_text`], for the message handed to the verified
    /// [`operation_error`].
    #[verifier::external_body]
    pub fn from_boxed<E: std::error::Error + 'static>(err: Box<E>) -> (r: Self)
        ensures
            r.action@ == "perform operation"@,
            r.domain is None,
            r.status_code is None,
    {
        operation_error(error_text(err.as_ref()))
    }
}

impl From<Result<std::convert::Infallible, String>> for Error {
    /// Relies on `Infallible` having no values: only the error side can
    /// occur, and its string is handed to the verified
    /// [`operation_error`].
    #[verifier::external_body]
    fn from(err: Result<std::convert::Infallible, String>) -> (r: Self)
        ensures
            err matches Err(m) ==> r.action@ == "perform operation"@ && r.message == m
                && r.domain is None && r.status_code is None,
    {
        match err {
            Ok(infallible) => match infallible {},
            Err(msg) => operation_error(msg),
        }
    }
}
#[verifier::external_type_specification]
#[verifier::external_body]
pub struct ExIoError(std::io::Error);

#[verifier::external_type_specification]
#[verifier::external_body]
pub struct ExFromUtf8Error(std::string::FromUtf8Error);

#[verifier::external_type_specification]
#[verifier::external_body]
pub struct ExUtf8Error(std::str::Utf8Error);

#[verifier::external_type_specification]
#[verifier::external_body]
pub struct ExFmtError(std::fmt::Error);

#[verifier::external_type_specification]
#[verifier::external_body]
pub struct ExParseIntError(std::num::ParseIntError);

#[verifier::external_type_specification]
#[verifier::external_body]
pub struct ExParseFloatError(std::num::ParseFloatError);

#[verifier::external_type_specification]
#[verifier::external_body]
pub struct ExSetLoggerError(log::SetLoggerError);

#[verifier::external_type_specification]
#[verifier::external_body]
pub struct ExSystemTimeError(std::time::SystemTimeError);

#[verifier::external_type_specification]
#[verifier::external_body]
pub struct ExChronoParseError(chrono::format::ParseError);

impl Default for Error {
    /// Empty strings, no domain or status code, and a backtrace when the
    /// platform provides one.
    fn default() -> (r: Self)
        ensures
            r.action@ == Seq::<char>::empty(),
            r.message@ == Seq::<char>::empty(),
            r.domain is None,
            r.status_code is None,
    {
        Error {
            action: String::new(),
            message: String::new(),
            domain: None,
            status_code: None,
            backtrace: capture_backtrace(),
        }
    }
}

} // verus!
