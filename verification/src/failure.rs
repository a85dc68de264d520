//! An action-parameterised diagnostic wrapper for rich error reporting.

use vstd::prelude::*;
use vstd::pervasive::VecAdditionalExecFns;
use crate::code::{spec_code, synthesize_code};
use crate::error::{error_text, Error};
use crate::text::{kv_texts, lookup_first, spec_lookup, str_eq};

verus! {

/// Severity of a diagnostic, from gentlest to gravest.
#[derive(Clone, Copy, Debug, PartialEq, Eq, Structural)]
pub enum Severity {
    /// A suggestion; nothing is wrong.
    Advice,
    /// Something looks wrong but the operation went through.
    Warning,
    /// The operation failed.
    Error,
}

/// An action names what the code was attempting when it failed.
///
/// An action carries a human phrase, a machine identity, and the path of
/// its type; the identity of an enum value must start with its variant
/// name, and the identity of a struct value with the type's own name, so
/// that payload data never reaches the part before the first delimiter.
///
/// The trait is implemented by ordinary Rust callers, so its methods
/// carry no contracts: what a stored action's texts are is pinned at
/// construction, and every later operation is exact over the stored
/// texts.
pub trait Action {
    /// The human phrase of the action, e.g. `read config`.
    fn describe(&self) -> String;

    /// The machine identity of the action value (its debug form), e.g.
    /// `ReadConfig` or `Download("https://example.com")`.
    fn identity(&self) -> String;

    /// The full `::`-separated path of the action's type, e.g.
    /// `mycrate::io::ReadAction`.
    fn type_path(&self) -> &'static str;
}

/// Find the index of the first entry whose key is `key`, if any.
fn find_key(entries: &Vec<(String, String)>, key: &str) -> (r: Option<usize>)
    ensures
        match r {
            Some(i) => i < entries@.len() && kv_texts(entries@)[i as int].0 == key@ && forall|
                j: int,
            |
                0 <= j < i ==> (#[trigger] kv_texts(entries@)[j]).0 != key@,
            None => forall|j: int|
                0 <= j < entries@.len() ==> (#[trigger] kv_texts(entries@)[j]).0 != key@,
        },
{
    let ghost kv = kv_texts(entries@);
    let n = entries.len();
    let mut i: usize = 0;
    while i < n
        invariant
            n == entries@.len(),
            kv == kv_texts(entries@),
            i <= n,
            forall|j: int| 0 <= j < i ==> (#[trigger] kv[j]).0 != key@,
        decreases n - i,
    {
        if str_eq(entries[i].0.as_str(), key) {
            return Some(i);
        }
        i += 1;
    }
    None
}

/// Replace the value of the first entry whose key is `k`, or append a new
/// entry when no key matches.
pub open spec fn spec_set(
    entries: Seq<(Seq<char>, Seq<char>)>,
    k: Seq<char>,
    v: Seq<char>,
) -> Seq<(Seq<char>, Seq<char>)>
    decreases entries.len(),
{
    if entries.len() == 0 {
        seq![(k, v)]
    } else if entries[0].0 == k {
        seq![(k, v)] + entries.drop_first()
    } else {
        seq![entries[0]] + spec_set(entries.drop_first(), k, v)
    }
}

/// One rendered context line: `\n{key}: {value}` behind a right-pointing
/// marker.
pub open spec fn spec_context_line(entry: (Seq<char>, Seq<char>)) -> Seq<char> {
    "\n\u{25B7} "@ + entry.0 + ": "@ + entry.1
}

/// The rendered context lines of all entries, in insertion order.
pub open spec fn spec_additional_text(entries: Seq<(Seq<char>, Seq<char>)>) -> Seq<char>
    decreases entries.len(),
{
    if entries.len() == 0 {
        Seq::empty()
    } else {
        spec_additional_text(entries.drop_last()) + spec_context_line(entries.last())
    }
}

/// The display form of a failure: `Failed to {action}` followed by one
/// line per context entry, in insertion order.
pub open spec fn spec_failure_display(
    action_text: Seq<char>,
    entries: Seq<(Seq<char>, Seq<char>)>,
) -> Seq<char> {
    "Failed to "@ + action_text + spec_additional_text(entries)
}

/// A diagnostic wrapper around an action, its optional source error,
/// ordered key/value context, and optional report decoration.
///
/// The texts of the action are captured once at construction, so every
/// later operation is a pure function of the stored fields.
#[derive(Debug)]
pub struct Failure<A> {
    /// What the code was attempting.
    pub action: A,
    /// The human phrase of the action, captured at construction.
    pub action_text: String,
    /// The path of the action's type, captured at construction.
    pub type_path_text: String,
    /// The machine identity of the action value, captured at construction.
    pub identity_text: String,
    /// Caller-supplied override for the diagnostic code.
    pub code: Option<String>,
    /// A human hint.
    pub help: Option<String>,
    /// A reference URL.
    pub url: Option<String>,
    /// The severity a report renderer should use.
    pub severity: Option<Severity>,
    /// Further diagnostics, in insertion order.
    pub related: Vec<Error>,
    /// Ordered key/value context entries.
    pub additional: Vec<(String, String)>,
    /// The display text of the underlying cause, when there is one.
    pub source: Option<String>,
}

impl<A: Action> Failure<A> {
    /// Create a new failure with the given action and source error.
    pub fn new<E: std::error::Error + Send + Sync + 'static>(action: A, source: E) -> (r: Self)
        ensures
            r.action == action,
            r.code is None,
            r.help is None,
            r.url is None,
            r.severity is None,
            r.related@.len() == 0,
            r.additional@.len() == 0,
            r.source is Some,
    {
        let action_text = action.describe();
        let type_path_text = action.type_path().to_owned();
        let identity_text = action.identity();
        let source_text = error_text(&source);
        Failure {
            action,
            action_text,
            type_path_text,
            identity_text,
            code: None,
            help: None,
            url: None,
            severity: None,
            related: Vec::new(),
            additional: Vec::new(),
            source: Some(source_text),
        }
    }

    /// Create a new failure with only an action, no source error.
    pub fn from_action(action: A) -> (r: Self)
        ensures
            r.action == action,
            r.code is None,
            r.help is None,
            r.url is None,
            r.severity is None,
            r.related@.len() == 0,
            r.additional@.len() == 0,
            r.source is None,
    {
        let action_text = action.describe();
        let type_path_text = action.type_path().to_owned();
        let identity_text = action.identity();
        Failure {
            action,
            action_text,
            type_path_text,
            identity_text,
            code: None,
            help: None,
            url: None,
            severity: None,
            related: Vec::new(),
            additional: Vec::new(),
            source: None,
        }
    }

    /// Returns a one-shot adapter for use with `map_err`: it turns an
    /// error into exactly the failure `new` would build for the action.
    pub fn wrap<E: std::error::Error + Send + Sync + 'static>(action: A) -> (f: impl FnOnce(
        E,
    ) -> Failure<A>)
        ensures
            forall|e: E, out: Failure<A>|
                #[trigger] call_ensures(f, (e,), out) ==> {
                    &&& out.action == action
                    &&& out.code is None
                    &&& out.help is None
                    &&& out.url is None
                    &&& out.severity is None
                    &&& out.related@.len() == 0
                    &&& out.additional@.len() == 0
                    &&& out.source is Some
                },
    {
        move |e: E| -> (r: Failure<A>)
            ensures
                r.action == action,
                            r.code is None,
                r.help is None,
                r.url is None,
                r.severity is None,
                r.related@.len() == 0,
                r.additional@.len() == 0,
                r.source is Some,
            { Failure::new(action, e) }
    }

    /// Returns a one-shot adapter for use with `map_err` that builds the
    /// failure `new` would and then applies the given configurator: the
    /// adapter's result is what the configurator made of exactly that
    /// fresh failure.
    pub fn wrap_with<E: std::error::Error + Send + Sync + 'static, F: FnOnce(Failure<A>) -> Failure<
        A,
    >>(action: A, configure: F) -> (f: impl FnOnce(E) -> Failure<A>)
        requires
            forall|x: Failure<A>| #[trigger] call_requires(configure, (x,)),
        ensures
            forall|e: E, out: Failure<A>|
                #[trigger] call_ensures(f, (e,), out) ==> exists|mid: Failure<A>|
                    {
                        &&& mid.action == action
                        &&& mid.code is None
                        &&& mid.help is None
                        &&& mid.url is None
                        &&& mid.severity is None
                        &&& mid.related@.len() == 0
                        &&& mid.additional@.len() == 0
                        &&& mid.source is Some
                        &&& call_ensures(configure, (mid,), out)
                    },
    {
        move |e: E| -> (out: Failure<A>)
            ensures
                exists|mid: Failure<A>|
                    {
                        &&& mid.action == action
                        &&& mid.code is None
                        &&& mid.help is None
                        &&& mid.url is None
                        &&& mid.severity is None
                        &&& mid.related@.len() == 0
                        &&& mid.additional@.len() == 0
                        &&& mid.source is Some
                        &&& call_ensures(configure, (mid,), out)
                    },
            {
                let mid = Failure::new(action, e);
                let ghost mid0 = mid;
                let out = configure(mid);
                proof {
                    assert(call_ensures(configure, (mid0,), out));
                }
                out
            }
    }

    /// Returns a one-shot adapter for use with `map_err` that builds the
    /// failure `new` would and attaches the given path as its only
    /// context entry.
    pub fn wrap_with_path<E: std::error::Error + Send + Sync + 'static>(
        action: A,
        path: &str,
    ) -> (f: impl FnOnce(E) -> Failure<A>)
        ensures
            forall|e: E, out: Failure<A>|
                #[trigger] call_ensures(f, (e,), out) ==> {
                    &&& out.action == action
                    &&& out.code is None
                    &&& out.help is None
                    &&& out.url is None
                    &&& out.severity is None
                    &&& out.related@.len() == 0
                    &&& kv_texts(out.additional@) == seq![("path"@, path@)]
                    &&& out.source is Some
                },
    {
        let path = path.to_owned();
        move |e: E| -> (r: Failure<A>)
            ensures
                r.action == action,
                            r.code is None,
                r.help is None,
                r.url is None,
                r.severity is None,
                r.related@.len() == 0,
                kv_texts(r.additional@) == seq![("path"@, path@)],
                r.source is Some,
            {
                let r = Failure::new(action, e).with("path", path.as_str());
                proof {
                    assert(kv_texts(r.additional@) =~= seq![("path"@, path@)]);
                }
                r
            }
    }

    /// Get the action.
    pub fn action(&self) -> (r: &A)
        ensures
            r == &self.action,
    {
        &self.action
    }

    /// Get the display text of the underlying cause, if there is one.
    pub fn source_message(&self) -> (r: Option<&String>)
        ensures
            self.source matches Some(s) ==> r matches Some(x) && *x == s,
            self.source is None ==> r is None,
    {
        match &self.source {
            Some(s) => Some(s),
            None => None,
        }
    }

    /// Get a value by key from the additional context: the value of the
    /// first entry whose key matches exactly, or nothing.
    pub fn get(&self, key: &str) -> (r: Option<String>)
        ensures
            match r {
                Some(v) => spec_lookup(kv_texts(self.additional@), key@) == Some(v@),
                None => spec_lookup(kv_texts(self.additional@), key@) is None,
            },
    {
        lookup_first(&self.additional, key)
    }

    /// Set a key/value pair: the first entry with this key is replaced in
    /// place, or a new entry is appended when the key is absent.
    pub fn set(self, key: &str, value: &str) -> (r: Self)
        ensures
            kv_texts(r.additional@) == spec_set(kv_texts(self.additional@), key@, value@),
            r.action == self.action,
            r.action_text == self.action_text,
            r.type_path_text == self.type_path_text,
            r.identity_text == self.identity_text,
            r.code == self.code,
            r.help == self.help,
            r.url == self.url,
            r.severity == self.severity,
            r.related == self.related,
            r.source == self.source,
    {
        let ghost kv = kv_texts(self.additional@);
        let mut this = self;
        match find_key(&this.additional, key) {
            Some(i) => {
                this.additional.set(i, (key.to_owned(), value.to_owned()));
                proof {
                    lemma_set_first_match(kv, key@, value@, i as int);
                    assert(kv_texts(this.additional@) =~= kv.update(i as int, (key@, value@)));
                }
                this
            },
            None => {
                this.additional.push((key.to_owned(), value.to_owned()));
                proof {
                    lemma_set_no_match(kv, key@, value@);
                    assert(kv_texts(this.additional@) =~= kv.push((key@, value@)));
                }
                this
            },
        }
    }

    /// Append a key/value pair of additional context; repeated keys are
    /// preserved in insertion order.
    pub fn with(self, key: &str, value: &str) -> (r: Self)
        ensures
            kv_texts(r.additional@) == kv_texts(self.additional@).push((key@, value@)),
            r.action == self.action,
            r.action_text == self.action_text,
            r.type_path_text == self.type_path_text,
            r.identity_text == self.identity_text,
            r.code == self.code,
            r.help == self.help,
            r.url == self.url,
            r.severity == self.severity,
            r.related == self.related,
            r.source == self.source,
    {
        let mut this = self;
        this.additional.push((key.to_owned(), value.to_owned()));
        proof {
            assert(kv_texts(this.additional@) =~= kv_texts(self.additional@).push(
                (key@, value@),
            ));
        }
        this
    }

    /// Append the path of the thing being worked on to the context.
    pub fn with_path(self, path: &str) -> (r: Self)
        ensures
            kv_texts(r.additional@) == kv_texts(self.additional@).push(("path"@, path@)),
            r.action == self.action,
            r.code == self.code,
            r.help == self.help,
            r.url == self.url,
            r.severity == self.severity,
            r.related == self.related,
            r.source == self.source,
    {
        self.with("path", path)
    }

    /// Set the diagnostic code, overriding the synthesised one.
    pub fn with_code(self, code: &str) -> (r: Self)
        ensures
            r.code matches Some(c) && c@ == code@,
            r.action == self.action,
            r.action_text == self.action_text,
            r.type_path_text == self.type_path_text,
            r.identity_text == self.identity_text,
            r.help == self.help,
            r.url == self.url,
            r.severity == self.severity,
            r.related == self.related,
            r.additional == self.additional,
            r.source == self.source,
    {
        let mut this = self;
        this.code = Some(code.to_owned());
        this
    }

    /// Set the help text.
    pub fn with_help(self, help: &str) -> (r: Self)
        ensures
            r.help matches Some(h) && h@ == help@,
            r.action == self.action,
            r.action_text == self.action_text,
            r.type_path_text == self.type_path_text,
            r.identity_text == self.identity_text,
            r.code == self.code,
            r.url == self.url,
            r.severity == self.severity,
            r.related == self.related,
            r.additional == self.additional,
            r.source == self.source,
    {
        let mut this = self;
        this.help = Some(help.to_owned());
        this
    }

    /// Set the URL for more information.
    pub fn with_url(self, url: &str) -> (r: Self)
        ensures
            r.url matches Some(u) && u@ == url@,
            r.action == self.action,
            r.action_text == self.action_text,
            r.type_path_text == self.type_path_text,
            r.identity_text == self.identity_text,
            r.code == self.code,
            r.help == self.help,
            r.severity == self.severity,
            r.related == self.related,
            r.additional == self.additional,
            r.source == self.source,
    {
        let mut this = self;
        this.url = Some(url.to_owned());
        this
    }

    /// Set the severity level.
    pub fn with_severity(self, severity: Severity) -> (r: Self)
        ensures
            r.severity == Some(severity),
            r.action == self.action,
            r.action_text == self.action_text,
            r.type_path_text == self.type_path_text,
            r.identity_text == self.identity_text,
            r.code == self.code,
            r.help == self.help,
            r.url == self.url,
            r.related == self.related,
            r.additional == self.additional,
            r.source == self.source,
    {
        let mut this = self;
        this.severity = Some(severity);
        this
    }

    /// Append a related diagnostic record.
    pub fn with_related(self, diagnostic: Error) -> (r: Self)
        ensures
            r.related@ == self.related@.push(diagnostic),
            r.action == self.action,
            r.action_text == self.action_text,
            r.type_path_text == self.type_path_text,
            r.identity_text == self.identity_text,
            r.code == self.code,
            r.help == self.help,
            r.url == self.url,
            r.severity == self.severity,
            r.additional == self.additional,
            r.source == self.source,
    {
        let mut this = self;
        this.related.push(diagnostic);
        this
    }

    /// The diagnostic code: the caller-supplied override when one was
    /// set, else the code synthesised from the action type's path and
    /// the action value's identity.
    pub fn code(&self) -> (r: String)
        ensures
            match self.code {
                Some(c) => r == c,
                None => r@ == spec_code(self.type_path_text@, self.identity_text@),
            },
    {
        match &self.code {
            Some(c) => c.clone(),
            None => synthesize_code(self.type_path_text.as_str(), self.identity_text.as_str()),
        }
    }

    /// The severity a report renderer should use, when one was set.
    pub fn severity(&self) -> (r: Option<Severity>)
        ensures
            r == self.severity,
    {
        self.severity
    }

    /// The help text, when one was set.
    pub fn help(&self) -> (r: Option<&String>)
        ensures
            self.help matches Some(h) ==> r matches Some(x) && *x == h,
            self.help is None ==> r is None,
    {
        match &self.help {
            Some(h) => Some(h),
            None => None,
        }
    }

    /// The reference URL, when one was set.
    pub fn url(&self) -> (r: Option<&String>)
        ensures
            self.url matches Some(u) ==> r matches Some(x) && *x == u,
            self.url is None ==> r is None,
    {
        match &self.url {
            Some(u) => Some(u),
            None => None,
        }
    }

    /// The related diagnostic records, in insertion order.
    pub fn related(&self) -> (r: &Vec<Error>)
        ensures
            r == &self.related,
    {
        &self.related
    }

    /// The rendered context lines, one per entry, in insertion order.
    pub fn display_additional(&self) -> (r: String)
        ensures
            r@ == spec_additional_text(kv_texts(self.additional@)),
    {
        let ghost kv = kv_texts(self.additional@);
        let mut acc = String::new();
        let n = self.additional.len();
        let mut i: usize = 0;
        while i < n
            invariant
                n == self.additional@.len(),
                kv == kv_texts(self.additional@),
                i <= n,
                acc@ == spec_additional_text(kv.take(i as int)),
            decreases n - i,
        {
            acc.append("\n\u{25B7} ");
            acc.append(self.additional[i].0.as_str());
            acc.append(": ");
            acc.append(self.additional[i].1.as_str());
            proof {
                assert(kv.take(i + 1).drop_last() =~= kv.take(i as int));
                assert(kv.take(i + 1).last() == kv[i as int]);
                assert(acc@ =~= spec_additional_text(kv.take(i as int)) + spec_context_line(
                    kv[i as int],
                ));
            }
            i += 1;
        }
        proof {
            assert(kv.take(n as int) =~= kv);
        }
        acc
    }

    /// The display form of the failure: the action line, then the context
    /// lines in insertion order.
    pub fn display(&self) -> (r: String)
        ensures
            r@ == spec_failure_display(self.action_text@, kv_texts(self.additional@)),
    {
        let mut r = String::new();
        r.append("Failed to ");
        r.append(self.action_text.as_str());
        let additional = self.display_additional();
        r.append(additional.as_str());
        proof {
            assert(r@ =~= spec_failure_display(self.action_text@, kv_texts(self.additional@)));
        }
        r
    }

    /// Collapse the failure into a serializable [`Error`] record: the
    /// action phrase, the immediate source's text as the message, and the
    /// `domain` context entry or, failing that, the action type's path.
    pub fn to_error(&self) -> (r: Error)
        ensures
            r.action == self.action_text,
            (match self.source {
                Some(s) => r.message == s,
                None => r.message@ == Seq::<char>::empty(),
            }),
            (match spec_lookup(kv_texts(self.additional@), "domain"@) {
                Some(d) => r.domain matches Some(x) && x@ == d,
                None => r.domain matches Some(x) && x == self.type_path_text,
            }),
            r.status_code is None,
            r.backtrace is None,
    {
        let message = match &self.source {
            Some(s) => s.clone(),
            None => String::new(),
        };
        let domain = match self.get("domain") {
            Some(d) => Some(d),
            None => Some(self.type_path_text.clone()),
        };
        Error {
            action: self.action_text.clone(),
            message,
            domain,
            status_code: None,
            backtrace: None,
        }
    }
}

/// The synthesised short code of an action value: the code of its type
/// path and its identity text, as [`spec_code`] lays down.
///
/// The two texts come from the action's own `Action` impl, which an
/// ordinary Rust caller supplies unverified, so the contract binds the
/// result to the synthesis rule without naming the texts.
pub fn short_code<A: Action>(action: &A) -> (r: String)
    ensures
        exists|t: Seq<char>, d: Seq<char>| r@ == spec_code(t, d),
{
    let type_path = action.type_path();
    let identity = action.identity();
    let r = synthesize_code(type_path, identity.as_str());
    proof {
        assert(exists|t: Seq<char>, d: Seq<char>| r@ == spec_code(t, d)) by {
            assert(r@ == spec_code(type_path@, identity@));
        }
    }
    r
}

/// Rendering preserves insertion order: the context lines of entries
/// with one more appended are the earlier lines with exactly that
/// entry's line after them.
pub proof fn lemma_display_insertion_order(
    entries: Seq<(Seq<char>, Seq<char>)>,
    k: Seq<char>,
    v: Seq<char>,
)
    ensures
        spec_additional_text(entries.push((k, v))) == spec_additional_text(entries)
            + spec_context_line((k, v)),
{
    assert(entries.push((k, v)).drop_last() =~= entries);
    assert(entries.push((k, v)).last() == (k, v));
}

/// Replacing the first match rewrites exactly that entry.
pub proof fn lemma_set_first_match(
    entries: Seq<(Seq<char>, Seq<char>)>,
    k: Seq<char>,
    v: Seq<char>,
    i: int,
)
    requires
        0 <= i < entries.len(),
        entries[i].0 == k,
        forall|j: int| 0 <= j < i ==> (#[trigger] entries[j]).0 != k,
    ensures
        spec_set(entries, k, v) == entries.update(i, (k, v)),
    decreases i,
{
    if i == 0 {
        assert(spec_set(entries, k, v) =~= entries.update(0, (k, v)));
    } else {
        assert(entries[0].0 != k);
        lemma_set_first_match(entries.drop_first(), k, v, i - 1);
        assert(entries.drop_first().update(i - 1, (k, v)) =~= entries.update(
            i,
            (k, v),
        ).drop_first());
        assert(spec_set(entries, k, v) =~= entries.update(i, (k, v)));
    }
}

/// With no matching key, a set appends a new entry.
pub proof fn lemma_set_no_match(entries: Seq<(Seq<char>, Seq<char>)>, k: Seq<char>, v: Seq<char>)
    requires
        forall|j: int| 0 <= j < entries.len() ==> (#[trigger] entries[j]).0 != k,
    ensures
        spec_set(entries, k, v) == entries.push((k, v)),
    decreases entries.len(),
{
    if entries.len() == 0 {
        assert(spec_set(entries, k, v) =~= entries.push((k, v)));
    } else {
        assert(entries[0].0 != k);
        lemma_set_no_match(entries.drop_first(), k, v);
        assert(entries.drop_first().push((k, v)) =~= entries.push((k, v)).drop_first());
        assert(spec_set(entries, k, v) =~= entries.push((k, v)));
    }
}

/// A value put by `with` is found unless an earlier entry shadows it: the
/// first entry with a key wins, and later appends never change `get`.
pub proof fn lemma_get_after_with(
    entries: Seq<(Seq<char>, Seq<char>)>,
    k2: Seq<char>,
    v2: Seq<char>,
    k: Seq<char>,
)
    ensures
        spec_lookup(entries.push((k2, v2)), k) == (match spec_lookup(entries, k) {
            Some(v) => Some(v),
            None => if k2 == k {
                Some(v2)
            } else {
                None
            },
        }),
    decreases entries.len(),
{
    if entries.len() == 0 {
        assert(entries.push((k2, v2))[0] == (k2, v2));
        assert(entries.push((k2, v2)).drop_first() =~= Seq::<(Seq<char>, Seq<char>)>::empty());
        assert(spec_lookup(entries, k) is None);
        if k2 == k {
            assert(spec_lookup(entries.push((k2, v2)), k) == Some(v2));
        } else {
            assert(spec_lookup(entries.push((k2, v2)), k) == spec_lookup(
                Seq::<(Seq<char>, Seq<char>)>::empty(),
                k,
            ));
            assert(spec_lookup(entries.push((k2, v2)), k) is None);
        }
    } else {
        lemma_get_after_with(entries.drop_first(), k2, v2, k);
        assert(entries.push((k2, v2))[0] == entries[0]);
        assert(entries.push((k2, v2)).drop_first() =~= entries.drop_first().push((k2, v2)));
        if entries[0].0 == k {
            assert(spec_lookup(entries, k) == Some(entries[0].1));
            assert(spec_lookup(entries.push((k2, v2)), k) == Some(entries[0].1));
        } else {
            assert(spec_lookup(entries, k) == spec_lookup(entries.drop_first(), k));
            assert(spec_lookup(entries.push((k2, v2)), k) == spec_lookup(
                entries.drop_first().push((k2, v2)),
                k,
            ));
        }
    }
}

/// After a `set`, the set key reads back the set value.
pub proof fn lemma_get_after_set(entries: Seq<(Seq<char>, Seq<char>)>, k: Seq<char>, v: Seq<char>)
    ensures
        spec_lookup(spec_set(entries, k, v), k) == Some(v),
    decreases entries.len(),
{
    if entries.len() == 0 {
    } else if entries[0].0 == k {
        assert((seq![(k, v)] + entries.drop_first()).drop_first() =~= entries.drop_first());
    } else {
        lemma_get_after_set(entries.drop_first(), k, v);
        assert((seq![entries[0]] + spec_set(entries.drop_first(), k, v)).drop_first()
            =~= spec_set(entries.drop_first(), k, v));
    }
}

/// A `set` never changes what other keys read.
pub proof fn lemma_set_preserves_other(
    entries: Seq<(Seq<char>, Seq<char>)>,
    k: Seq<char>,
    v: Seq<char>,
    k2: Seq<char>,
)
    requires
        k2 != k,
    ensures
        spec_lookup(spec_set(entries, k, v), k2) == spec_lookup(entries, k2),
    decreases entries.len(),
{
    if entries.len() == 0 {
        assert(seq![(k, v)][0] == (k, v));
        assert(seq![(k, v)].drop_first() =~= Seq::<(Seq<char>, Seq<char>)>::empty());
        assert(spec_set(entries, k, v) == seq![(k, v)]);
        assert(spec_lookup(seq![(k, v)], k2) == spec_lookup(seq![(k, v)].drop_first(), k2));
        assert(spec_lookup(Seq::<(Seq<char>, Seq<char>)>::empty(), k2) is None);
        assert(spec_lookup(entries, k2) is None);
    } else if entries[0].0 == k {
        assert((seq![(k, v)] + entries.drop_first())[0] == (k, v));
        assert((seq![(k, v)] + entries.drop_first()).drop_first() =~= entries.drop_first());
        assert(spec_lookup(spec_set(entries, k, v), k2) == spec_lookup(
            entries.drop_first(),
            k2,
        ));
        assert(spec_lookup(entries, k2) == spec_lookup(entries.drop_first(), k2));
    } else {
        lemma_set_preserves_other(entries.drop_first(), k, v, k2);
        assert((seq![entries[0]] + spec_set(entries.drop_first(), k, v))[0] == entries[0]);
        assert((seq![entries[0]] + spec_set(entries.drop_first(), k, v)).drop_first()
            =~= spec_set(entries.drop_first(), k, v));
        if entries[0].0 == k2 {
            assert(spec_lookup(spec_set(entries, k, v), k2) == Some(entries[0].1));
            assert(spec_lookup(entries, k2) == Some(entries[0].1));
        } else {
            assert(spec_lookup(spec_set(entries, k, v), k2) == spec_lookup(
                spec_set(entries.drop_first(), k, v),
                k2,
            ));
            assert(spec_lookup(entries, k2) == spec_lookup(entries.drop_first(), k2));
        }
    }
}

/// The last `set` for a key wins: setting twice reads and counts the same
/// as setting once.
pub proof fn lemma_set_idempotent(
    entries: Seq<(Seq<char>, Seq<char>)>,
    k: Seq<char>,
    a: Seq<char>,
    b: Seq<char>,
)
    ensures
        spec_set(spec_set(entries, k, a), k, b) == spec_set(entries, k, b),
    decreases entries.len(),
{
    if entries.len() == 0 {
        assert(spec_set(spec_set(entries, k, a), k, b) =~= spec_set(entries, k, b));
    } else if entries[0].0 == k {
        assert((seq![(k, a)] + entries.drop_first()).drop_first() =~= entries.drop_first());
        assert(spec_set(spec_set(entries, k, a), k, b) =~= spec_set(entries, k, b));
    } else {
        lemma_set_idempotent(entries.drop_first(), k, a, b);
        assert((seq![entries[0]] + spec_set(entries.drop_first(), k, a)).drop_first()
            =~= spec_set(entries.drop_first(), k, a));
        assert(spec_set(spec_set(entries, k, a), k, b) =~= spec_set(entries, k, b));
    }
}

} // verus!
