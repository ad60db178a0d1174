//! The provider side of a lookup: which request is sent, and how what comes
//! back is read.

use vstd::prelude::*;

verus! {

/// Why the provider gave no batch.
#[derive(Debug, Clone, Copy, PartialEq, Eq, Structural)]
pub enum UpstreamError {
    /// The provider answered that it has no such flight.
    NotFound,
    /// The provider answered, but not with a batch of flight records.
    ParseError,
    /// The provider could not be reached, or tried to send the client elsewhere.
    NetworkError,
}

/// The status with which the provider says that it has no such flight.
pub const NO_CONTENT: u16 = 204;

/// Seconds for which a cached record stays readable.
pub const ENTRY_TTL_SECONDS: u64 = 86400;

/// The message a client is given for each upstream failure.
pub open spec fn error_message(error: UpstreamError) -> Seq<char> {
    match error {
        UpstreamError::NotFound => "No flight found"@,
        UpstreamError::ParseError => "Could not parse server response"@,
        UpstreamError::NetworkError => "Could not contact server"@,
    }
}

/// Whether `status` asks the client to go elsewhere. Redirects are never
/// followed.
pub open spec fn is_redirect(status: u16) -> bool {
    300 <= status <= 399
}

/// What a status alone decides: no content means no flight, a redirect is a
/// failed transport, and anything else leaves the decision to the body.
pub open spec fn status_error(status: u16) -> Option<UpstreamError> {
    if status == NO_CONTENT {
        Some(UpstreamError::NotFound)
    } else if is_redirect(status) {
        Some(UpstreamError::NetworkError)
    } else {
        None
    }
}

/// What sending the request decides: `sent` is the status of the response,
/// or `None` when no response came.
pub open spec fn sent_error(sent: Option<u16>) -> Option<UpstreamError> {
    match sent {
        None => Some(UpstreamError::NetworkError),
        Some(status) => status_error(status),
    }
}

/// The result of one fetch: `body` is the batch read from the response, or
/// `None` when the body is no batch. The body counts only where the status
/// leaves the decision to it.
pub open spec fn fetch_outcome<R>(sent: Option<u16>, body: Option<Seq<R>>) -> Result<
    Seq<R>,
    UpstreamError,
> {
    match sent_error(sent) {
        Some(error) => Err(error),
        None => match body {
            Some(batch) => Ok(batch),
            None => Err(UpstreamError::ParseError),
        },
    }
}

/// A body as a value of the model: the records of the batch read from it.
pub open spec fn body_view<R>(body: Option<Vec<R>>) -> Option<Seq<R>> {
    match body {
        Some(batch) => Some(batch@),
        None => None,
    }
}

impl UpstreamError {
    /// The message a client is given for this failure.
    pub fn message(&self) -> (message: String)
        ensures
            message@ == error_message(*self),
    {
        match self {
            UpstreamError::NotFound => String::from_str("No flight found"),
            UpstreamError::ParseError => String::from_str("Could not parse server response"),
            UpstreamError::NetworkError => String::from_str("Could not contact server"),
        }
    }
}

/// Reads the status of a response: the failure it decides, or `None` when
/// the body has to be read.
pub fn status_verdict(status: u16) -> (verdict: Option<UpstreamError>)
    ensures
        verdict == status_error(status),
{
    if status == NO_CONTENT {
        Some(UpstreamError::NotFound)
    } else if 300 <= status && status <= 399 {
        Some(UpstreamError::NetworkError)
    } else {
        None
    }
}

/// Reads the outcome of sending: `sent` is the status of the response, or
/// `None` when no response came.
pub fn sent_verdict(sent: Option<u16>) -> (verdict: Option<UpstreamError>)
    ensures
        verdict == sent_error(sent),
{
    match sent {
        None => Some(UpstreamError::NetworkError),
        Some(status) => status_verdict(status),
    }
}

/// Reads one exchange with the provider as a whole: the batch, or why
/// there is none. `sent` is the status of the response (`None`: no response
/// came), `body` the batch read from it (`None`: it holds no batch).
pub fn fetch_result<R>(sent: Option<u16>, body: Option<Vec<R>>) -> (result: Result<
    Vec<R>,
    UpstreamError,
>)
    ensures
        (match fetch_outcome(sent, body_view(body)) {
            Ok(batch) => result matches Ok(records) && records@ == batch,
            Err(error) => result == Err::<Vec<R>, UpstreamError>(error),
        }),
{
    match sent_verdict(sent) {
        Some(error) => Err(error),
        None => match body {
            Some(batch) => Ok(batch),
            None => Err(UpstreamError::ParseError),
        },
    }
}

/// Where the provider is found, and the key that opens it.
#[derive(Debug, Clone, PartialEq, Eq)]
pub struct Provider {
    pub endpoint: String,
    pub api_key: String,
}

/// One request to the provider, ready to be sent.
#[derive(Debug, Clone, PartialEq, Eq)]
pub struct UpstreamRequest {
    /// The address to send to, query included.
    pub url: String,
    /// The header that carries the API key, and the key.
    pub header_name: String,
    pub header_value: String,
    /// Whether the client may follow a redirect. It never may.
    pub follow_redirects: bool,
}

/// The name of the header that carries the API key on every request.
pub const API_KEY_HEADER: &'static str = "x-provider-api-key";

/// The name of the header that carries the API key.
pub open spec fn api_key_header() -> Seq<char> {
    "x-provider-api-key"@
}

/// The query parameter sent with every lookup, and its value.
pub open spec fn image_param_name() -> Seq<char> {
    "withAircraftImage"@
}

pub open spec fn image_param_value() -> Seq<char> {
    "true"@
}

/// The most characters of an address that are handed to the URL parser.
/// The parser keeps its positions in 32 bits. A character takes at most
/// four bytes, and a byte at most three once it is percent-encoded, so the
/// text it builds from this many characters and one query pair stays
/// within them.
pub const MAX_URL_CHARS: usize = 268_435_456;

/// The most characters of a query parameter's name, and of its value, that
/// are handed to the URL parser.
pub const MAX_PARAM_CHARS: usize = 1024;

/// The address of a flight's schedule before the query is added:
/// `{endpoint}/flights/number/{number}/{date}`.
pub open spec fn request_target_of(endpoint: Seq<char>, number: Seq<char>, date: Seq<char>) -> Seq<
    char,
> {
    endpoint + "/flights/number/"@ + number + "/"@ + date
}

/// The text of the URL that `Url::parse_with_params` gives for `input` with
/// the one query pair `(name, value)` appended, or `None` where `input` is
/// no absolute URL.
pub uninterp spec fn url_with_param(input: Seq<char>, name: Seq<char>, value: Seq<char>) -> Option<
    Seq<char>,
>;

/// Runs `reqwest::Url::parse_with_params` on `input` and one query pair and
/// hands the URL back as text. Believed, not proved: the result is exactly
/// what that parser gives on these three strings, `None` standing for its
/// parse error. The parser gives up without a result on a text that
/// outgrows its 32-bit positions, so the three strings are bounded.
#[verifier::external_body]
fn parse_url_with_param(input: &str, name: &str, value: &str) -> (url: Option<String>)
    requires
        input@.len() <= MAX_URL_CHARS,
        name@.len() <= MAX_PARAM_CHARS,
        value@.len() <= MAX_PARAM_CHARS,
    ensures
        (match url {
            Some(text) => url_with_param(input@, name@, value@) == Some(text@),
            None => url_with_param(input@, name@, value@) is None,
        }),
{
    match reqwest::Url::parse_with_params(input, [(name, value)]) {
        Ok(url) => Some(String::from(url)),
        Err(_) => None,
    }
}

/// The URL of the lookup of flight `number` on `date`: the address with the
/// image parameter as its query, as the URL parser writes it. There is none
/// where the address is longer than the parser is given, or is no absolute
/// URL.
pub open spec fn request_url_of(endpoint: Seq<char>, number: Seq<char>, date: Seq<char>) -> Option<
    Seq<char>,
> {
    let target = request_target_of(endpoint, number, date);
    if target.len() > MAX_URL_CHARS {
        None
    } else {
        url_with_param(target, image_param_name(), image_param_value())
    }
}

/// Whether `request` goes to `url`, carries `api_key` in the key header
/// and forbids redirects.
pub open spec fn is_request_to(request: UpstreamRequest, url: Seq<char>, api_key: Seq<char>) -> bool {
    &&& request.url@ == url
    &&& request.header_name@ == api_key_header()
    &&& request.header_value@ == api_key
    &&& !request.follow_redirects
}

/// Builds `{endpoint}/flights/number/{number}/{date}`.
pub fn request_target(endpoint: &str, number: &str, date: &str) -> (target: String)
    ensures
        target@ == request_target_of(endpoint@, number@, date@),
{
    let mut target = String::from_str(endpoint);
    target.append("/flights/number/");
    target.append(number);
    target.append("/");
    target.append(date);
    target
}

impl UpstreamRequest {
    /// The request to `url`: the API key goes into its header and
    /// redirects are switched off.
    pub fn new(url: String, api_key: &str) -> (request: UpstreamRequest)
        ensures
            is_request_to(request, url@, api_key@),
    {
        UpstreamRequest {
            url,
            header_name: String::from_str(API_KEY_HEADER),
            header_value: String::from_str(api_key),
            follow_redirects: false,
        }
    }
}

impl Provider {
    /// The request that looks up flight `number` on `date`, or `None` where
    /// the address is longer than `MAX_URL_CHARS` or the endpoint does not
    /// lead to an absolute URL.
    pub fn request_for(&self, number: &str, date: &str) -> (request: Option<UpstreamRequest>)
        ensures
            request_target_of(self.endpoint@, number@, date@).len() > MAX_URL_CHARS ==> request
                is None,
            (match request_url_of(self.endpoint@, number@, date@) {
                Some(text) => request matches Some(r) && is_request_to(r, text, self.api_key@),
                None => request is None,
            }),
    {
        let target = request_target(self.endpoint.as_str(), number, date);
        if target.as_str().unicode_len() > MAX_URL_CHARS {
            return None;
        }
        proof {
            reveal_strlit("withAircraftImage");
            reveal_strlit("true");
        }
        match parse_url_with_param(target.as_str(), "withAircraftImage", "true") {
            Some(url) => Some(UpstreamRequest::new(url, self.api_key.as_str())),
            None => None,
        }
    }
}

} // verus!
