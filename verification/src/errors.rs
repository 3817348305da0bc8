use vstd::prelude::*;

verus! {

/// A configuration problem reported with a plain message.
#[derive(Debug)]
pub struct ConfigurationError {
    message: String,
}

impl View for ConfigurationError {
    type V = Seq<char>;

    closed spec fn view(&self) -> Seq<char> {
        self.message@
    }
}

impl ConfigurationError {
    pub fn new(message: String) -> (r: ConfigurationError)
        ensures
            r@ == message@,
    {
        ConfigurationError { message }
    }

    pub fn message(&self) -> (r: &String)
        ensures
            r@ == self@,
    {
        &self.message
    }
}

/// Why a candidate configuration was rejected at validation time.
#[derive(Debug)]
pub enum ValidationError {
    /// Two rules share the same `key`.
    DuplicateKey { key: String },
    /// A rule's `derive` names a key that no rule has.
    UnknownDeriveKey { profile: String, missing: String },
    /// Following `derive` links from this rule never reaches an end.
    CycleDetected { key: String },
    /// A pattern in a rule's `matches` list does not compile.
    InvalidPattern { key: String, pattern: String },
}

/// Why resolving a rule's derive chain failed.
#[derive(Debug)]
pub enum ResolveError {
    /// The chain reached a key that no rule in the store has.
    UnknownKey { key: String },
    /// The chain walk exceeded the store's rule count, so it must revisit a rule.
    CycleDetected { key: String },
}

/// A required field was absent or had the wrong shape in a platform payload.
#[derive(Debug)]
pub struct TwitterDataError {
    pub field: String,
    pub body: String,
}

impl TwitterDataError {
    pub fn new(field: String, body: String) -> (r: TwitterDataError)
        ensures
            r.field == field,
            r.body == body,
    {
        TwitterDataError { field, body }
    }
}

/// The platform answered a request with a failure status code.
#[derive(Debug)]
pub struct TwitterAccessError {
    pub code: u16,
    pub message: String,
}

/// Mirror of the platform client's success test: a response bearing a status
/// code in the client-error or server-error range failed.
pub fn status_is_failure(code: u16) -> (r: bool)
    ensures
        r <==> 400 <= code < 600,
{
    400 <= code && code < 600
}

} // verus!
