use vstd::prelude::*;

verus! {

/// The host's I/O error categories, read as std declares them, so that an
/// `Io` error kind can carry one and the kind mapping can name its variants.
#[verifier::external_type_specification]
pub struct ExIoErrorKind(std::io::ErrorKind);

/// A host I/O error, carried through the conversions without looking inside.
#[verifier::external_type_specification]
#[verifier::external_body]
pub struct ExIoError(std::io::Error);

/// The category that `std::io::Error::kind` reports for a host I/O error.
pub uninterp spec fn io_error_kind(e: std::io::Error) -> std::io::ErrorKind;

/// Relies on `std::io::Error::kind`: the category of a host I/O error, which
/// depends on the error value alone.
pub assume_specification[ std::io::Error::kind ](e: &std::io::Error) -> (r: std::io::ErrorKind)
    ensures
        r == io_error_kind(*e),
;

/// Relies on `From<&str>` for `String`: the string holds the same characters.
pub assume_specification<'a>[ <std::string::String as std::convert::From<&'a str>>::from ](s: &str) -> (r: std::string::String)
    ensures
        r@ == s@,
;

/// Relies on `Display` for `std::io::Error`: the error's message.
#[verifier::external_body]
fn io_error_message(e: &std::io::Error) -> String {
    format!("{}", e)
}

/// Relies on `std::io::Error::new`: a host I/O error of the given kind and
/// description, whose `kind()` is that kind.
#[verifier::external_body]
fn new_io_error(kind: std::io::ErrorKind, description: String) -> (r: std::io::Error)
    ensures
        io_error_kind(r) == kind,
{
    std::io::Error::new(kind, description)
}

/// Categories of errors that can occur when interacting with serial ports.
#[derive(Debug, Clone, Copy, PartialEq, Eq)]
pub enum ErrorKind {
    /// The device is not available: in use by another process, or disconnected.
    NoDevice,
    /// A parameter was incorrect.
    InvalidInput,
    /// An I/O error occurred, of the inner host kind.
    Io(std::io::ErrorKind),
}

/// The host I/O kind that an error kind converts to.
pub open spec fn host_kind(kind: ErrorKind) -> std::io::ErrorKind {
    match kind {
        ErrorKind::NoDevice => std::io::ErrorKind::NotFound,
        ErrorKind::InvalidInput => std::io::ErrorKind::InvalidInput,
        ErrorKind::Io(k) => k,
    }
}

/// Turning an error kind into a host I/O kind and back gives the same kind
/// exactly for `Io` kinds; `NoDevice` and `InvalidInput` come back as
/// `Io(NotFound)` and `Io(InvalidInput)`.
pub proof fn lemma_host_kind_round_trip(kind: ErrorKind)
    ensures
        ErrorKind::Io(host_kind(kind)) == kind <==> kind is Io,
        kind is NoDevice ==> ErrorKind::Io(host_kind(kind)) == ErrorKind::Io(
            std::io::ErrorKind::NotFound,
        ),
        kind is InvalidInput ==> ErrorKind::Io(host_kind(kind)) == ErrorKind::Io(
            std::io::ErrorKind::InvalidInput,
        ),
{
}

/// An error taken to host I/O parts by `Error::into_io_parts` and back by
/// `Error::from_io_parts` keeps its description, and keeps its kind exactly
/// when that is an `Io` kind.
pub proof fn lemma_error_host_round_trip(
    e: Error,
    kind: std::io::ErrorKind,
    description: Seq<char>,
    back: Error,
)
    requires
        kind == host_kind(e.spec_kind()),
        description == e.spec_description(),
        back.spec_kind() == ErrorKind::Io(kind),
        back.spec_description() == description,
    ensures
        back.spec_description() == e.spec_description(),
        back.spec_kind() == e.spec_kind() <==> e.spec_kind() is Io,
{
}

/// An error sent to the host as a `std::io::Error` and taken back keeps its
/// kind exactly when that is an `Io` kind; `NoDevice` and `InvalidInput` come
/// back as `Io(NotFound)` and `Io(InvalidInput)`.
pub proof fn lemma_host_error_kind_round_trip(e: Error, host: std::io::Error, back: Error)
    requires
        io_error_kind(host) == host_kind(e.spec_kind()),
        back.spec_kind() == ErrorKind::Io(io_error_kind(host)),
    ensures
        back.spec_kind() == e.spec_kind() <==> e.spec_kind() is Io,
        back.spec_kind() == ErrorKind::Io(host_kind(e.spec_kind())),
{
}

#[derive(Debug)]
pub struct Error {
    kind: ErrorKind,
    description: String,
}

impl Error {
    pub closed spec fn spec_kind(&self) -> ErrorKind {
        self.kind
    }

    pub closed spec fn spec_description(&self) -> Seq<char> {
        self.description@
    }

    /// Returns the category of this error.
    #[verifier::when_used_as_spec(spec_kind)]
    pub fn kind(&self) -> (r: ErrorKind)
        ensures
            r == self.spec_kind(),
    {
        self.kind
    }

    /// Returns the description of this error.
    pub fn description(&self) -> (r: &str)
        ensures
            r@ == self.spec_description(),
    {
        self.description.as_str()
    }

    /// Creates an error of the given kind and description.
    pub fn new(kind: ErrorKind, description: &str) -> (r: Error)
        ensures
            r.spec_kind() == kind,
            r.spec_description() == description@,
    {
        Error { kind: kind, description: String::from(description) }
    }

    /// Creates an error of the given kind whose description is exactly
    /// `description`.
    pub fn with_description(kind: ErrorKind, description: String) -> (r: Error)
        ensures
            r.spec_kind() == kind,
            r.spec_description() == description@,
    {
        Error { kind, description }
    }

    /// Builds the error that a host I/O error of this kind and description
    /// converts to.
    pub fn from_io_parts(kind: std::io::ErrorKind, description: String) -> (r: Error)
        ensures
            r.spec_kind() == ErrorKind::Io(kind),
            r.spec_description() == description@,
    {
        Error::with_description(ErrorKind::Io(kind), description)
    }

    /// The kind and description of the host I/O error this error converts to.
    pub fn into_io_parts(self) -> (r: (std::io::ErrorKind, String))
        ensures
            r.0 == host_kind(self.spec_kind()),
            r.1@ == self.spec_description(),
    {
        let kind = match self.kind {
            ErrorKind::NoDevice => std::io::ErrorKind::NotFound,
            ErrorKind::InvalidInput => std::io::ErrorKind::InvalidInput,
            ErrorKind::Io(k) => k,
        };
        (kind, self.description)
    }
}

impl From<std::io::Error> for Error {
    fn from(io_error: std::io::Error) -> (r: Error)
        ensures
            r.spec_kind() == ErrorKind::Io(io_error_kind(io_error)),
    {
        let kind = io_error.kind();
        Error::from_io_parts(kind, io_error_message(&io_error))
    }
}

/// What a host I/O error holds is not visible here, so `from` promises nothing
/// beyond what `Error::from_io_parts` states of the parts it is given.
impl vstd::std_specs::convert::FromSpecImpl<std::io::Error> for Error {
    open spec fn obeys_from_spec() -> bool {
        false
    }

    open spec fn from_spec(v: std::io::Error) -> Error {
        arbitrary()
    }
}

impl From<Error> for std::io::Error {
    fn from(error: Error) -> (r: std::io::Error)
        ensures
            io_error_kind(r) == host_kind(error.spec_kind()),
    {
        let (kind, description) = error.into_io_parts();
        new_io_error(kind, description)
    }
}

/// A host I/O error is not visible here: its kind and description are stated
/// by `Error::into_io_parts`.
impl vstd::std_specs::convert::FromSpecImpl<Error> for std::io::Error {
    open spec fn obeys_from_spec() -> bool {
        false
    }

    open spec fn from_spec(v: Error) -> std::io::Error {
        arbitrary()
    }
}

} // verus!
