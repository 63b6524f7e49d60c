//! The failures that the core reports, and how they are built.

use vstd::prelude::*;
use vstd::std_specs::convert::FromSpecImpl;
use crate::text::{joined, owned, replace_char, replaced};

verus! {

/// What a client is told where a header is missing, up to the name of the header.
pub const MISSING_HEADER_HEAD: &'static str = "Esse request deve conter o header '";

/// What a client is told where a header is missing, after the name of the header.
pub const MISSING_HEADER_TAIL: &'static str = "'";

/// The kinds of failure.
#[derive(Clone, Copy, Debug, PartialEq, Eq, Structural)]
pub enum ErrorKind {
    /// No bearer credential was presented.
    MissingCredential,
    /// The presented token names no live session.
    InvalidSession,
    /// The password does not match the stored record.
    WrongPassword,
    /// The authorization policy denied the operation.
    Forbidden,
    /// The email is already registered.
    DuplicateIdentity,
    /// The record asked for does not exist.
    NotFound,
    /// The request holds a value that the operation does not accept.
    InvalidInput,
    /// The store could not carry out the operation; the caller may retry.
    StorageUnavailable,
    /// The source of randomness is exhausted. It is fatal where it happens,
    /// so no function of this crate returns it.
    EntropyFailure,
    /// A failure inside the service that fits no other kind.
    Internal,
    /// The service could not start.
    Unavailable,
}

/// The mathematical content of a [`Cause`].
pub struct CauseView {
    pub message: Seq<char>,
    pub detail: Seq<char>,
}

/// What lies behind a failure, as the two texts that a lower layer's error
/// gives of itself: `message` for people, `detail` for diagnosis.
#[derive(Debug, PartialEq, Eq)]
pub struct Cause {
    pub message: String,
    pub detail: String,
}

impl View for Cause {
    type V = CauseView;

    open spec fn view(&self) -> CauseView {
        CauseView { message: self.message@, detail: self.detail@ }
    }
}

impl Clone for Cause {
    fn clone(&self) -> (r: Self)
        ensures
            r@ == self@,
    {
        Cause { message: self.message.clone(), detail: self.detail.clone() }
    }
}

/// The mathematical content of an [`Error`].
pub struct ErrorView {
    pub kind: ErrorKind,
    pub source: Option<CauseView>,
    pub description: Option<Seq<char>>,
}

/// A failure: its kind, what caused it, and a description for the client.
#[derive(Debug, PartialEq, Eq)]
pub struct Error {
    code: ErrorKind,
    source: Option<Cause>,
    description: Option<String>,
}

pub type Result<T> = std::result::Result<T, Error>;

/// The view of an optional string.
pub open spec fn text_view(s: Option<String>) -> Option<Seq<char>> {
    match s {
        Some(s) => Some(s@),
        None => None,
    }
}

/// The view of an optional cause.
pub open spec fn cause_view(c: Option<Cause>) -> Option<CauseView> {
    match c {
        Some(c) => Some(c@),
        None => None,
    }
}

/// The failure of kind `kind` that carries `description` and no cause.
pub open spec fn failure(kind: ErrorKind, description: Seq<char>) -> ErrorView {
    ErrorView { kind, source: None, description: Some(description) }
}

impl View for Error {
    type V = ErrorView;

    closed spec fn view(&self) -> ErrorView {
        ErrorView {
            kind: self.code,
            source: cause_view(self.source),
            description: text_view(self.description),
        }
    }
}

impl Clone for Error {
    fn clone(&self) -> (r: Self)
        ensures
            r@ == self@,
    {
        Error {
            code: self.code,
            source: match &self.source {
                Some(c) => Some(c.clone()),
                None => None,
            },
            description: self.description.clone(),
        }
    }
}

/// The failure that a builder starts from: of kind `Internal`, with nothing
/// said of it.
pub open spec fn blank() -> ErrorView {
    ErrorView { kind: ErrorKind::Internal, source: None, description: None }
}

/// What a request without the header `header` is told.
pub open spec fn missing_header_text(header: Seq<char>) -> Seq<char> {
    MISSING_HEADER_HEAD@ + header + MISSING_HEADER_TAIL@
}

/// The HTTP status code that stands for `kind`. The three failures of
/// authentication share one, so that they look alike from outside.
pub open spec fn status_of(kind: ErrorKind) -> u16 {
    match kind {
        ErrorKind::MissingCredential => 401,
        ErrorKind::InvalidSession => 401,
        ErrorKind::WrongPassword => 401,
        ErrorKind::Forbidden => 403,
        ErrorKind::DuplicateIdentity => 400,
        ErrorKind::NotFound => 404,
        ErrorKind::InvalidInput => 400,
        ErrorKind::StorageUnavailable => 500,
        ErrorKind::EntropyFailure => 500,
        ErrorKind::Internal => 500,
        ErrorKind::Unavailable => 503,
    }
}

/// The reason phrase that `rocket::http::Status::reason_lossy` gives for
/// the status code `code`.
pub uninterp spec fn reason_phrase(code: u16) -> Seq<char>;

/// The line that `rocket::http::Status` prints for the status code `code`:
/// the code and its reason phrase.
pub uninterp spec fn status_line(code: u16) -> Seq<char>;

/// Calls `rocket::http::Status::reason_lossy` on the status of the code
/// `code`; [`reason_phrase`] names what it returns.
#[verifier::external_body]
fn reason_phrase_of(code: u16) -> (phrase: String)
    ensures
        phrase@ == reason_phrase(code),
{
    rocket::http::Status::new(code).reason_lossy().to_string()
}

/// Prints the status of the code `code` through the `Display` of
/// `rocket::http::Status`; [`status_line`] names what comes out.
#[verifier::external_body]
fn status_line_of(code: u16) -> (line: String)
    ensures
        line@ == status_line(code),
{
    format!("{}", rocket::http::Status::new(code))
}

/// The description as a failure's text shows it: in brackets after a
/// space, or not at all.
pub open spec fn description_text(description: Option<Seq<char>>) -> Seq<char> {
    match description {
        Some(d) => " ("@ + d + ")"@,
        None => Seq::empty(),
    }
}

/// The cause as a failure's text shows it: its message after a colon, or
/// not at all.
pub open spec fn source_text(source: Option<CauseView>) -> Seq<char> {
    match source {
        Some(c) => ": "@ + c.message,
        None => Seq::empty(),
    }
}

/// The text of a failure: the reason phrase of its status, then the
/// description, then the cause.
pub open spec fn text_of(e: ErrorView) -> Seq<char> {
    reason_phrase(status_of(e.kind)) + description_text(e.description) + source_text(e.source)
}

/// The cause as a client is told it: its detail, with every double quote
/// turned into a single one.
pub open spec fn reason_of(source: Option<CauseView>) -> Option<Seq<char>> {
    match source {
        Some(c) => Some(replaced(c.detail, '"', '\'')),
        None => None,
    }
}

impl ErrorKind {
    /// The HTTP status code that stands for this kind.
    pub fn status(&self) -> (code: u16)
        ensures
            code == status_of(*self),
    {
        match self {
            ErrorKind::MissingCredential => 401,
            ErrorKind::InvalidSession => 401,
            ErrorKind::WrongPassword => 401,
            ErrorKind::Forbidden => 403,
            ErrorKind::DuplicateIdentity => 400,
            ErrorKind::NotFound => 404,
            ErrorKind::InvalidInput => 400,
            ErrorKind::StorageUnavailable => 500,
            ErrorKind::EntropyFailure => 500,
            ErrorKind::Internal => 500,
            ErrorKind::Unavailable => 503,
        }
    }
}

/// An [`Error`] in the making.
pub struct ErrorBuilder {
    inner: Error,
}

impl View for ErrorBuilder {
    type V = ErrorView;

    closed spec fn view(&self) -> ErrorView {
        self.inner@
    }
}

impl ErrorBuilder {
    /// Says what caused the failure.
    pub fn source(self, source: Cause) -> (b: ErrorBuilder)
        ensures
            b@ == (ErrorView { source: Some(source@), ..self@ }),
    {
        ErrorBuilder {
            inner: Error {
                code: self.inner.code,
                description: self.inner.description,
                source: Some(source),
            },
        }
    }

    /// Says of which kind the failure is.
    pub fn code(self, code: ErrorKind) -> (b: ErrorBuilder)
        ensures
            b@ == (ErrorView { kind: code, ..self@ }),
    {
        ErrorBuilder {
            inner: Error { code, source: self.inner.source, description: self.inner.description },
        }
    }

    /// Describes the failure for the client.
    pub fn description(self, description: &str) -> (b: ErrorBuilder)
        ensures
            b@ == (ErrorView { description: Some(description@), ..self@ }),
    {
        ErrorBuilder {
            inner: Error {
                code: self.inner.code,
                source: self.inner.source,
                description: Some(owned(description)),
            },
        }
    }

    /// Makes the failure that of a request without the header `header`.
    pub fn missing_header(self, header: &str) -> (b: ErrorBuilder)
        ensures
            b@ == (ErrorView {
                kind: ErrorKind::MissingCredential,
                description: Some(missing_header_text(header@)),
                ..self@
            }),
    {
        let mut text = joined(MISSING_HEADER_HEAD, header);
        text.append(MISSING_HEADER_TAIL);
        self.code(ErrorKind::MissingCredential).description(text.as_str())
    }

    /// The failure that was built.
    pub fn build(self) -> (e: Error)
        ensures
            e@ == self@,
    {
        self.inner
    }
}

impl From<ErrorBuilder> for Error {
    fn from(f: ErrorBuilder) -> (e: Error) {
        f.inner
    }
}

impl FromSpecImpl<ErrorBuilder> for Error {
    open spec fn obeys_from_spec() -> bool {
        true
    }

    closed spec fn from_spec(f: ErrorBuilder) -> Error {
        f.inner
    }
}

/// The failure that `From` makes of a builder is the one that was built.
pub proof fn lemma_from_builder(f: ErrorBuilder)
    ensures
        <Error as vstd::std_specs::convert::FromSpec<ErrorBuilder>>::from_spec(f)@ == f@,
{
}

impl Default for Error {
    fn default() -> (e: Error)
        ensures
            e@ == blank(),
    {
        Error { code: ErrorKind::Internal, source: None, description: None }
    }
}

impl Error {
    /// A builder that starts from the blank failure.
    pub fn builder() -> (b: ErrorBuilder)
        ensures
            b@ == blank(),
    {
        Error::default().edit()
    }

    /// A builder that starts from this failure.
    pub fn edit(self) -> (b: ErrorBuilder)
        ensures
            b@ == self@,
    {
        ErrorBuilder { inner: self }
    }

    /// A builder that starts from the failure that `source` turns into.
    pub fn builder_from<T: Into<Error>>(source: T) -> (b: ErrorBuilder)
        ensures
            exists|e: Error| call_ensures(T::into, (source,), e) && b@ == e@,
    {
        let error: Error = source.into();
        error.edit()
    }

    /// The failure of kind `kind` described by `description`.
    pub fn new(kind: ErrorKind, description: &str) -> (e: Error)
        ensures
            e@ == failure(kind, description@),
    {
        Error { code: kind, source: None, description: Some(description.to_owned()) }
    }

    /// The failure of kind `kind` described by `description` and caused by
    /// `source`.
    pub fn caused(kind: ErrorKind, description: &str, source: Cause) -> (e: Error)
        ensures
            e@ == (ErrorView { kind, source: Some(source@), description: Some(description@) }),
    {
        Error { code: kind, source: Some(source), description: Some(description.to_owned()) }
    }

    /// The kind of this failure.
    pub fn kind(&self) -> (k: ErrorKind)
        ensures
            k == self@.kind,
    {
        self.code
    }

    /// The HTTP status code of this failure.
    pub fn code(&self) -> (code: u16)
        ensures
            code == status_of(self@.kind),
    {
        self.code.status()
    }

    /// The description for the client, if there is one.
    pub fn description(&self) -> (d: Option<&String>)
        ensures
            match d {
                Some(d) => self@.description == Some(d@),
                None => self@.description is None,
            },
    {
        self.description.as_ref()
    }

    /// What caused this failure, if that is known.
    pub fn source(&self) -> (c: Option<&Cause>)
        ensures
            match c {
                Some(c) => self@.source == Some(c@),
                None => self@.source is None,
            },
    {
        self.source.as_ref()
    }

    /// The status of this failure as a line: its code and reason phrase.
    pub fn status_line(&self) -> (line: String)
        ensures
            line@ == status_line(status_of(self@.kind)),
    {
        status_line_of(self.code.status())
    }

    /// The cause as a client is told it, if it is known.
    pub fn reason(&self) -> (r: Option<String>)
        ensures
            text_view(r) == reason_of(self@.source),
    {
        match &self.source {
            Some(cause) => Some(replace_char(cause.detail.as_str(), '"', '\'')),
            None => None,
        }
    }

    /// This failure as text: the reason phrase of its status, then the
    /// description in brackets, then the message of the cause after a colon.
    pub fn to_text(&self) -> (text: String)
        ensures
            text@ == text_of(self@),
    {
        let mut text = reason_phrase_of(self.code.status());
        if let Some(description) = &self.description {
            text.append(" (");
            text.append(description.as_str());
            text.append(")");
        }
        if let Some(source) = &self.source {
            text.append(": ");
            text.append(source.message.as_str());
        }
        assert(text@ =~= text_of(self@));
        text
    }
}

} // verus!
