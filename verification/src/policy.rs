//! The rules of an api-key gate: what it reads of a request, which policy a
//! pair of optional secrets selects, and which requests each policy admits.

use crate::secret::eq_ct;
use vstd::prelude::*;
use vstd::utf8::encode_utf8;

verus! {

/// Request method, as far as admission tells methods apart.
#[derive(Clone, Copy, Debug, PartialEq, Eq, Structural)]
pub enum Method {
    Get,
    Head,
    Post,
    Put,
    Delete,
    Connect,
    Options,
    Trace,
    Patch,
    /// Any method that is none of the above.
    Other,
}

impl Method {
    /// Only `GET` counts as a read: a read-only secret opens no other method.
    pub open spec fn safe(self) -> bool {
        self is Get
    }

    /// Tells whether a read-only secret may open a request of this method.
    pub fn is_safe(self) -> (safe: bool)
        ensures
            safe == self.safe(),
    {
        self == Method::Get
    }
}

/// What a gate reads of an inbound request: its method and the raw bytes of its
/// `api-key` header, if it carries one.
#[derive(Clone, Debug, PartialEq, Eq)]
pub struct Request {
    pub method: Method,
    pub api_key: Option<Vec<u8>>,
}

/// Mathematical value of a [`Request`].
pub struct RequestView {
    pub method: Method,
    pub api_key: Option<Seq<u8>>,
}

impl View for Request {
    type V = RequestView;

    open spec fn view(&self) -> RequestView {
        RequestView {
            method: self.method,
            api_key: match self.api_key {
                Some(value) => Some(value@),
                None => None,
            },
        }
    }
}

impl Request {
    pub fn new(method: Method, api_key: Option<Vec<u8>>) -> (request: Request)
        ensures
            request.method == method,
            request.api_key == api_key,
    {
        Request { method, api_key }
    }
}

/// A header byte that may stand in a textual header value: printable ASCII or a tab.
pub open spec fn is_text_byte(byte: u8) -> bool {
    (32 <= byte && byte < 127) || byte == 9
}

/// A header value is text when every byte of it is a text byte.
pub open spec fn is_text(value: Seq<u8>) -> bool {
    forall|i: int| 0 <= i < value.len() ==> is_text_byte(#[trigger] value[i])
}

/// The key a request presents: the value of its `api-key` header, if there is one and
/// it is text.
pub open spec fn presented_key(request: RequestView) -> Option<Seq<u8>> {
    match request.api_key {
        Some(value) => if is_text(value) {
            Some(value)
        } else {
            None
        },
        None => None,
    }
}

/// The bytes a configured secret is compared by.
pub open spec fn secret_bytes(secret: Seq<char>) -> Seq<u8> {
    encode_utf8(secret)
}

/// The bytes of an optional secret.
pub open spec fn optional_secret(key: Option<String>) -> Option<Seq<u8>> {
    match key {
        Some(key) => Some(secret_bytes(key@)),
        None => None,
    }
}

/// The four policies of a gate, each with the secrets it holds.
pub enum Policy {
    Full { master: Seq<u8>, read_only: Seq<u8> },
    Master { master: Seq<u8> },
    ReadOnly { read_only: Seq<u8> },
    Phantom,
}

/// The policy that a pair of optional secrets selects.
pub open spec fn select_policy(master: Option<Seq<u8>>, read_only: Option<Seq<u8>>) -> Policy {
    match (master, read_only) {
        (Some(master), Some(read_only)) => Policy::Full { master, read_only },
        (Some(master), None) => Policy::Master { master },
        (None, Some(read_only)) => Policy::ReadOnly { read_only },
        (None, None) => Policy::Phantom,
    }
}

/// Whether `policy` lets `request` through to the next stage.
pub open spec fn admits(policy: Policy, request: RequestView) -> bool {
    match policy {
        Policy::Phantom => true,
        Policy::Master { master } => presented_key(request) == Some(master),
        Policy::ReadOnly { read_only } => request.method.safe() && presented_key(request) == Some(
            read_only,
        ),
        Policy::Full { master, read_only } => presented_key(request) == Some(master) || (
        request.method.safe() && presented_key(request) == Some(read_only)),
    }
}

/// Tells whether every byte of a header value is a text byte.
pub fn header_is_text(value: &[u8]) -> (text: bool)
    ensures
        text == is_text(value@),
{
    let mut text: bool = true;
    let mut i: usize = 0;
    while i < value.len()
        invariant
            i <= value@.len(),
            text == is_text(value@.subrange(0, i as int)),
        decreases value@.len() - i,
    {
        let byte: u8 = value[i];
        let here: bool = (32 <= byte && byte < 127) || byte == 9;
        proof {
            let before = value@.subrange(0, i as int);
            let after = value@.subrange(0, i + 1);
            if !here {
                assert(!is_text_byte(after[i as int]));
            } else if !text {
                let k = choose|k: int| 0 <= k < before.len() && !is_text_byte(#[trigger] before[k]);
                assert(!is_text_byte(after[k]));
            }
        }
        text = text && here;
        i = i + 1;
    }
    assert(value@.subrange(0, i as int) == value@);
    text
}

/// Tells whether `request` presents exactly `secret`.
///
/// Both the test for text and the comparison run over the whole header value, whatever
/// it holds.
pub fn presents(request: &Request, secret: &str) -> (hit: bool)
    ensures
        hit == (presented_key(request@) == Some(secret_bytes(secret@))),
{
    match &request.api_key {
        Some(value) => {
            let text: bool = header_is_text(value.as_slice());
            let same: bool = eq_ct(secret.as_bytes(), value.as_slice());
            text && same
        },
        None => false,
    }
}

/// Tells whether the master policy with secret `master_key` admits `request`.
pub fn master_admits(master_key: &str, request: &Request) -> (admitted: bool)
    ensures
        admitted == admits(Policy::Master { master: secret_bytes(master_key@) }, request@),
{
    presents(request, master_key)
}

/// Tells whether the read-only policy with secret `read_only_key` admits `request`.
/// The method is looked at first: a request that is no read is turned away whatever
/// it presents.
pub fn read_only_admits(read_only_key: &str, request: &Request) -> (admitted: bool)
    ensures
        admitted == admits(Policy::ReadOnly { read_only: secret_bytes(read_only_key@) }, request@),
{
    if !request.method.is_safe() {
        return false;
    }
    presents(request, read_only_key)
}

/// Tells whether the full policy with the two secrets admits `request`: the master
/// secret opens every method, the read-only secret opens reads.
pub fn full_admits(master_key: &str, read_only_key: &str, request: &Request) -> (admitted: bool)
    ensures
        admitted == admits(
            Policy::Full {
                master: secret_bytes(master_key@),
                read_only: secret_bytes(read_only_key@),
            },
            request@,
        ),
{
    let as_master: bool = presents(request, master_key);
    let as_reader: bool = presents(request, read_only_key);
    as_master || (request.method.is_safe() && as_reader)
}

/// Status of every rejection.
pub const FORBIDDEN: u16 = 403;

/// A response that a gate gives by itself, as plain values.
#[derive(Clone, Debug, PartialEq, Eq)]
pub struct Response {
    pub status: u16,
    pub headers: Vec<(String, String)>,
    pub body: String,
}

/// Mathematical value of a [`Response`].
pub struct ResponseView {
    pub status: u16,
    pub headers: Seq<(Seq<char>, Seq<char>)>,
    pub body: Seq<char>,
}

impl View for Response {
    type V = ResponseView;

    open spec fn view(&self) -> ResponseView {
        ResponseView {
            status: self.status,
            headers: Seq::new(
                self.headers@.len(),
                |i: int| (self.headers@[i].0@, self.headers@[i].1@),
            ),
            body: self.body@,
        }
    }
}

/// What a gate does with a request.
#[derive(Clone, Debug, PartialEq, Eq)]
pub enum Action {
    /// Hand the request, as it came, to the next stage and return what that gives.
    Forward,
    /// Answer with this response; the next stage is not called.
    Reject(Response),
}

/// Whether `action` is what a gate owes a request: the request goes on when it is
/// admitted, and is answered with `rejection` when it is not.
pub open spec fn answers(action: Action, admitted: bool, rejection: ResponseView) -> bool {
    match action {
        Action::Forward => admitted,
        Action::Reject(response) => !admitted && response@ == rejection,
    }
}

/// The rejection of the HTTP transport: status 403 with the body `Invalid api-key`.
pub open spec fn http_forbidden() -> ResponseView {
    ResponseView { status: 403, headers: Seq::empty(), body: "Invalid api-key"@ }
}

/// The rejection of the gRPC transport: status 403, an empty body, and the headers
/// `grpc-status: 7` (permission denied) and `grpc-message: Invalid api-key`.
pub open spec fn grpc_forbidden() -> ResponseView {
    ResponseView {
        status: 403,
        headers: seq![("grpc-status"@, "7"@), ("grpc-message"@, "Invalid api-key"@)],
        body: Seq::empty(),
    }
}

/// Builds the rejection of the HTTP transport.
pub fn forbidden_http() -> (response: Response)
    ensures
        response@ == http_forbidden(),
{
    let response = Response {
        status: FORBIDDEN,
        headers: Vec::new(),
        body: "Invalid api-key".to_owned(),
    };
    assert(response@.headers =~= Seq::empty());
    response
}

/// Builds the rejection of the gRPC transport.
pub fn forbidden_grpc() -> (response: Response)
    ensures
        response@ == grpc_forbidden(),
{
    let mut headers: Vec<(String, String)> = Vec::new();
    headers.push(("grpc-status".to_owned(), "7".to_owned()));
    headers.push(("grpc-message".to_owned(), "Invalid api-key".to_owned()));
    let response = Response { status: FORBIDDEN, headers, body: String::new() };
    assert(response@.headers =~= grpc_forbidden().headers);
    response
}

/// The open gate lets every request through.
pub proof fn law_phantom_admits_all(request: RequestView)
    ensures
        admits(Policy::Phantom, request),
{
}

/// With only a master secret, a request passes exactly when its `api-key` header is
/// that secret. A secret that is no text can never be presented, so the one case set
/// aside is a header equal to such a secret.
pub proof fn law_master_admits(master: Seq<u8>, request: RequestView)
    requires
        request.api_key == Some(master) ==> is_text(master),
    ensures
        admits(Policy::Master { master }, request) <==> request.api_key == Some(master),
{
}

/// With only a read-only secret, a request passes exactly when it is a `GET` and its
/// `api-key` header is that secret, under the same proviso as for the master secret.
pub proof fn law_read_only_admits(read_only: Seq<u8>, request: RequestView)
    requires
        request.api_key == Some(read_only) ==> is_text(read_only),
    ensures
        admits(Policy::ReadOnly { read_only }, request) <==> (request.method is Get
            && request.api_key == Some(read_only)),
{
}

/// With both secrets, a read passes on either secret and any other request on the
/// master secret alone.
pub proof fn law_full_admits(master: Seq<u8>, read_only: Seq<u8>, request: RequestView)
    ensures
        request.method is Get ==> (admits(Policy::Full { master, read_only }, request) <==> (
        presented_key(request) == Some(master) || presented_key(request) == Some(read_only))),
        !(request.method is Get) ==> (admits(Policy::Full { master, read_only }, request) <==> (
        presented_key(request) == Some(master))),
{
}

/// A request that is no `GET` and carries the read-only secret is turned away by the
/// full policy, provided the two secrets differ.
pub proof fn law_read_only_secret_opens_no_write(
    master: Seq<u8>,
    read_only: Seq<u8>,
    request: RequestView,
)
    requires
        master != read_only,
        !(request.method is Get),
        request.api_key == Some(read_only),
    ensures
        !admits(Policy::Full { master, read_only }, request),
{
}

} // verus!
