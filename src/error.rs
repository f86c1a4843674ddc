use vstd::prelude::*;

verus! {

/// `reqwest::Error`, carried opaque: a transport failure.
#[verifier::external_type_specification]
#[verifier::external_body]
pub struct ExReqwestError(reqwest::Error);

/// `std::io::Error`, carried opaque: a local file could not be read.
#[verifier::external_type_specification]
#[verifier::external_body]
pub struct ExIoError(std::io::Error);

/// `url::ParseError`, carried opaque: what `url::Url::parse` refuses with.
#[verifier::external_type_specification]
#[verifier::external_body]
pub struct ExUrlParseError(url::ParseError);

/// `serde_json::Error`, carried opaque: a body that could not be encoded
/// or an answer of an unexpected shape.
#[verifier::external_type_specification]
#[verifier::external_body]
pub struct ExJsonError(serde_json::Error);

/// A business-rule violation found after a successful call.
///
/// The creation time and the label of the thread that raised it are read
/// by the caller and handed in.
#[derive(Debug)]
pub struct OperationError {
    pub created: u64,
    pub origin: String,
    pub reason: String,
    pub thread_id: String,
}

impl OperationError {
    pub fn new(origin: String, reason: String, created: u64, thread_id: String) -> (r: Self)
        ensures
            r.origin == origin,
            r.reason == reason,
            r.created == created,
            r.thread_id == thread_id,
    {
        OperationError { created, origin, reason, thread_id }
    }
}

/// Every failure the client reports.
///
/// Transport, I/O, URL and JSON failures carry the underlying error
/// unmodified; the others are raised by this library before any network
/// access (`InvalidLength`, `RestrictedValue`) or after a successful fetch
/// whose content breaks an expected invariant (`ClientError`,
/// `OperationError`).
#[derive(Debug)]
pub enum OpenApiError {
    ReqwestError(reqwest::Error),
    StdIoError(std::io::Error),
    UrlParseError(url::ParseError),
    SerdeJsonError(serde_json::Error),
    NotArray,
    /// The actual length and the largest one allowed.
    InvalidLength(usize, usize),
    RestrictedValue(String),
    ClientError(String),
    OperationError(OperationError),
}

impl OpenApiError {
    pub fn new_operation_err(
        origin: String,
        reason: String,
        created: u64,
        thread_id: String,
    ) -> (r: Self)
        ensures
            r matches OpenApiError::OperationError(e) && e.origin == origin && e.reason == reason
                && e.created == created && e.thread_id == thread_id,
    {
        OpenApiError::OperationError(OperationError::new(origin, reason, created, thread_id))
    }
}

/// A validating setter's refusal: the error, and the builder exactly as it
/// was before the call, so that the caller can correct the input and retry.
#[derive(Debug)]
pub struct Rejected<B> {
    pub builder: B,
    pub error: OpenApiError,
}

/// The decimal digits of `n`, most significant first.
pub open spec fn decimal(n: nat) -> Seq<char>
    decreases n,
{
    if n < 10 {
        seq!["0123456789"@[n as int]]
    } else {
        decimal(n / 10).push("0123456789"@[(n % 10) as int])
    }
}

/// Renders `n` in decimal.
fn decimal_string(n: usize) -> (r: String)
    ensures
        r@ == decimal(n as nat),
    decreases n,
{
    proof {
        reveal_strlit("0123456789");
    }
    let digits = "0123456789";
    let d = n % 10;
    let last = digits.substring_char(d, d + 1);
    assert(last@ =~= seq!["0123456789"@[d as int]]);
    if n < 10 {
        String::from_str(last)
    } else {
        let mut s = decimal_string(n / 10);
        s.append(last);
        assert(s@ =~= decimal(n as nat));
        s
    }
}

impl OpenApiError {
    /// What the error says to a reader.
    pub open spec fn spec_message(&self) -> Seq<char> {
        match self {
            OpenApiError::InvalidLength(len, max) => "Length of "@ + decimal(*len as nat)
                + " exceeds maximum of "@ + decimal(*max as nat),
            OpenApiError::ClientError(val) => "ClientError: "@ + val@,
            _ => "OpenApiError has occurred."@,
        }
    }

    pub fn to_string(&self) -> (r: String)
        ensures
            r@ == self.spec_message(),
    {
        match self {
            OpenApiError::InvalidLength(len, max) => {
                let mut text = String::from_str("Length of ");
                let len = decimal_string(*len);
                text.append(len.as_str());
                text.append(" exceeds maximum of ");
                let max = decimal_string(*max);
                text.append(max.as_str());
                text
            },
            OpenApiError::ClientError(val) => {
                let mut text = String::from_str("ClientError: ");
                text.append(val.as_str());
                text
            },
            _ => String::from_str("OpenApiError has occurred."),
        }
    }
}

impl From<reqwest::Error> for OpenApiError {
    fn from(value: reqwest::Error) -> (r: OpenApiError) {
        OpenApiError::ReqwestError(value)
    }
}

impl vstd::std_specs::convert::FromSpecImpl<reqwest::Error> for OpenApiError {
    open spec fn obeys_from_spec() -> bool {
        true
    }

    open spec fn from_spec(value: reqwest::Error) -> OpenApiError {
        OpenApiError::ReqwestError(value)
    }
}

impl From<std::io::Error> for OpenApiError {
    fn from(value: std::io::Error) -> (r: OpenApiError) {
        OpenApiError::StdIoError(value)
    }
}

impl vstd::std_specs::convert::FromSpecImpl<std::io::Error> for OpenApiError {
    open spec fn obeys_from_spec() -> bool {
        true
    }

    open spec fn from_spec(value: std::io::Error) -> OpenApiError {
        OpenApiError::StdIoError(value)
    }
}

impl From<url::ParseError> for OpenApiError {
    fn from(value: url::ParseError) -> (r: OpenApiError) {
        OpenApiError::UrlParseError(value)
    }
}

impl vstd::std_specs::convert::FromSpecImpl<url::ParseError> for OpenApiError {
    open spec fn obeys_from_spec() -> bool {
        true
    }

    open spec fn from_spec(value: url::ParseError) -> OpenApiError {
        OpenApiError::UrlParseError(value)
    }
}

impl From<serde_json::Error> for OpenApiError {
    fn from(value: serde_json::Error) -> (r: OpenApiError) {
        OpenApiError::SerdeJsonError(value)
    }
}

impl vstd::std_specs::convert::FromSpecImpl<serde_json::Error> for OpenApiError {
    open spec fn obeys_from_spec() -> bool {
        true
    }

    open spec fn from_spec(value: serde_json::Error) -> OpenApiError {
        OpenApiError::SerdeJsonError(value)
    }
}

} // verus!
