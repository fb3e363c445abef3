//! Assembling wire-ready requests and reading raw responses.
//!
//! This is the computational half of a REST client: joining the base URL
//! and an endpoint, attaching authentication, rendering the payload into
//! URL and body, and sorting a raw response into a success or a protocol
//! error. The transport that sends the bytes lives outside; it hands this
//! module plain values and takes plain values back.
use crate::error::Error;
use crate::request::{FormattedRequest, Method, RequestData};
use vstd::prelude::*;

verus! {

/// The byte `'/'`.
pub const SLASH: u8 = 47;

/// The byte `'?'`.
pub const QUESTION_MARK: u8 = 63;

/// The byte `'&'`.
pub const AMPERSAND: u8 = 38;

/// The byte `':'`.
pub const COLON: u8 = 58;

/// How many slashes `s` starts with.
pub open spec fn spec_leading_slashes(s: Seq<u8>) -> int
    decreases s.len(),
{
    if s.len() == 0 || s[0] != SLASH {
        0
    } else {
        1 + spec_leading_slashes(s.drop_first())
    }
}

/// How many slashes `s` ends with.
pub open spec fn spec_trailing_slashes(s: Seq<u8>) -> int
    decreases s.len(),
{
    if s.len() == 0 || s[s.len() - 1] != SLASH {
        0
    } else {
        1 + spec_trailing_slashes(s.drop_last())
    }
}

/// `s` with every leading and trailing slash removed.
pub open spec fn spec_trim_slashes(s: Seq<u8>) -> Seq<u8> {
    let lo = spec_leading_slashes(s);
    let hi = s.len() - spec_trailing_slashes(s);
    if lo <= hi {
        s.subrange(lo, hi)
    } else {
        Seq::empty()
    }
}

proof fn lemma_leading_slashes_shape(s: Seq<u8>)
    ensures
        0 <= spec_leading_slashes(s) <= s.len(),
        forall|i: int| 0 <= i < spec_leading_slashes(s) ==> s[i] == SLASH,
        spec_leading_slashes(s) < s.len() ==> s[spec_leading_slashes(s)] != SLASH,
    decreases s.len(),
{
    if s.len() == 0 || s[0] != SLASH {
    } else {
        lemma_leading_slashes_shape(s.drop_first());
        assert forall|i: int| 0 <= i < spec_leading_slashes(s) implies s[i] == SLASH by {
            if i > 0 {
                assert(s.drop_first()[i - 1] == s[i]);
            }
        }
    }
}

proof fn lemma_leading_slashes_unique(s: Seq<u8>, n: int)
    requires
        0 <= n <= s.len(),
        forall|i: int| 0 <= i < n ==> s[i] == SLASH,
        n < s.len() ==> s[n] != SLASH,
    ensures
        n == spec_leading_slashes(s),
{
    lemma_leading_slashes_shape(s);
}

proof fn lemma_trailing_slashes_shape(s: Seq<u8>)
    ensures
        0 <= spec_trailing_slashes(s) <= s.len(),
        forall|i: int| s.len() - spec_trailing_slashes(s) <= i < s.len() ==> s[i] == SLASH,
        spec_trailing_slashes(s) < s.len() ==> s[s.len() - spec_trailing_slashes(s) - 1]
            != SLASH,
    decreases s.len(),
{
    if s.len() == 0 || s[s.len() - 1] != SLASH {
    } else {
        lemma_trailing_slashes_shape(s.drop_last());
        assert forall|i: int| s.len() - spec_trailing_slashes(s) <= i < s.len() implies s[i]
            == SLASH by {
            if i < s.len() - 1 {
                assert(s.drop_last()[i] == s[i]);
            }
        }
    }
}

proof fn lemma_trailing_slashes_unique(s: Seq<u8>, n: int)
    requires
        0 <= n <= s.len(),
        forall|i: int| s.len() - n <= i < s.len() ==> s[i] == SLASH,
        n < s.len() ==> s[s.len() - n - 1] != SLASH,
    ensures
        n == spec_trailing_slashes(s),
{
    lemma_trailing_slashes_shape(s);
    let m = spec_trailing_slashes(s);
    if n < m {
        assert(s[s.len() - n - 1] == SLASH);
    } else if m < n {
        assert(s[s.len() - m - 1] == SLASH);
    }
}

/// Removes every leading and trailing slash of `s`.
fn trim_slashes(s: &Vec<u8>) -> (r: Vec<u8>)
    ensures
        r@ == spec_trim_slashes(s@),
{
    let mut lo: usize = 0;
    while lo < s.len() && s[lo] == SLASH
        invariant
            0 <= lo <= s@.len(),
            forall|i: int| 0 <= i < lo ==> s@[i] == SLASH,
        decreases s@.len() - lo,
    {
        lo = lo + 1;
    }
    let mut hi: usize = s.len();
    while hi > lo && s[hi - 1] == SLASH
        invariant
            lo <= hi <= s@.len(),
            forall|i: int| hi <= i < s@.len() ==> s@[i] == SLASH,
        decreases hi,
    {
        hi = hi - 1;
    }
    let mut r: Vec<u8> = Vec::new();
    let mut k: usize = lo;
    while k < hi
        invariant
            lo <= k <= hi <= s@.len(),
            r@ == s@.subrange(lo as int, k as int),
        decreases hi - k,
    {
        r.push(s[k]);
        proof {
            assert(r@ =~= s@.subrange(lo as int, k + 1 as int));
        }
        k = k + 1;
    }
    proof {
        if lo == s@.len() {
            // The whole string is slashes: the trimmed result is empty.
            lemma_leading_slashes_unique(s@, lo as int);
            lemma_trailing_slashes_shape(s@);
            assert(r@ =~= spec_trim_slashes(s@));
        } else {
            lemma_leading_slashes_unique(s@, lo as int);
            lemma_trailing_slashes_unique(s@, s@.len() - hi);
            assert(r@ =~= spec_trim_slashes(s@));
        }
    }
    r
}

/// Whether `b` occurs in `v`.
fn contains_byte(v: &Vec<u8>, b: u8) -> (r: bool)
    ensures
        r == v@.contains(b),
{
    let mut i: usize = 0;
    while i < v.len()
        invariant
            0 <= i <= v@.len(),
            forall|k: int| 0 <= k < i ==> v@[k] != b,
        decreases v@.len() - i,
    {
        if v[i] == b {
            return true;
        }
        i = i + 1;
    }
    false
}

/// `url` with `query` appended: after `&` when the URL already carries a
/// query, after `?` otherwise.
pub open spec fn spec_with_query(url: Seq<u8>, query: Seq<u8>) -> Seq<u8> {
    if url.contains(QUESTION_MARK) {
        url + seq![AMPERSAND] + query
    } else {
        url + seq![QUESTION_MARK] + query
    }
}

/// Appends a query string to a URL, choosing the separator by whether the
/// URL already carries a query.
fn with_query(url: Vec<u8>, query: Vec<u8>) -> (r: Vec<u8>)
    ensures
        r@ == spec_with_query(url@, query@),
{
    let mut r = url;
    let mut q = query;
    if contains_byte(&r, QUESTION_MARK) {
        r.push(AMPERSAND);
    } else {
        r.push(QUESTION_MARK);
    }
    proof {
        assert(r@ =~= (if url@.contains(QUESTION_MARK) {
            url@ + seq![AMPERSAND]
        } else {
            url@ + seq![QUESTION_MARK]
        }));
    }
    r.append(&mut q);
    r
}

/// The base URL joined with the endpoint: a single slash between the base
/// and the endpoint stripped of its leading and trailing slashes.
pub open spec fn spec_join_url(base: Seq<u8>, endpoint: Seq<u8>) -> Seq<u8> {
    base + seq![SLASH] + spec_trim_slashes(endpoint)
}

/// Joins the base URL and an endpoint.
fn join_url(base: Vec<u8>, endpoint: &Vec<u8>) -> (r: Vec<u8>)
    ensures
        r@ == spec_join_url(base@, endpoint@),
{
    let mut r = base;
    r.push(SLASH);
    let mut trimmed = trim_slashes(endpoint);
    proof {
        assert(r@ =~= base@ + seq![SLASH]);
    }
    r.append(&mut trimmed);
    r
}

/// How a client authenticates its requests.
#[derive(Clone, Debug, PartialEq, Eq)]
pub enum Authorization {
    /// An `authorization` header carrying `Bearer` and the token.
    Bearer(Vec<u8>),
    /// An `authorization` header carrying `Basic` and the encoded
    /// credentials; the password may be absent.
    Basic(Vec<u8>, Option<Vec<u8>>),
    /// Credential pairs appended to the URL's query string. The pairs are
    /// text, since they pass through the form encoder.
    Query(Vec<(String, String)>),
    /// Arbitrary header pairs.
    Header(Vec<(Vec<u8>, Vec<u8>)>),
}

/// The standard, padded base64 rendering of a byte string.
pub uninterp spec fn base64_std_of(bytes: Seq<u8>) -> Seq<u8>;

/// Relies on base64's `Engine::encode` with the standard engine: the
/// encoding is a function of the input bytes alone, four output bytes for
/// every three input bytes, rounded up to whole blocks by padding. The
/// bound keeps the output length within the encoder's reach.
#[verifier::external_body]
fn base64_encode(bytes: &Vec<u8>) -> (r: Vec<u8>)
    requires
        4 * ((bytes@.len() + 2) / 3) <= usize::MAX,
    ensures
        r@ == base64_std_of(bytes@),
        r@.len() == 4 * ((bytes@.len() + 2) / 3),
{
    base64::Engine::encode(&base64::engine::general_purpose::STANDARD, bytes).into_bytes()
}

/// The form-urlencoded rendering of text pairs: each key and value
/// escaped, the pairs joined in order.
pub uninterp spec fn urlencoded_of(pairs: Seq<(Seq<char>, Seq<char>)>) -> Seq<u8>;

/// Relies on serde_urlencoded::to_string: a sequence of text pairs is a
/// supported input that always serializes, to the escaped pairs joined in
/// order; no pairs give the empty string.
#[verifier::external_body]
fn urlencode_pairs(pairs: &Vec<(String, String)>) -> (r: Result<Vec<u8>, Error>)
    ensures
        r is Ok,
        r matches Ok(q) ==> q@ == urlencoded_of(pairs.deep_view()),
        pairs@.len() == 0 ==> (r matches Ok(q) ==> q@.len() == 0),
{
    match serde_urlencoded::to_string(pairs) {
        Ok(s) => Ok(s.into_bytes()),
        Err(e) => Err(Error::SerdeUrlEncoded(e.to_string())),
    }
}

/// The `authorization` header name.
pub open spec fn spec_authorization_name() -> Seq<u8> {
    seq![
        'a' as u8, 'u' as u8, 't' as u8, 'h' as u8, 'o' as u8, 'r' as u8, 'i' as u8,
        'z' as u8, 'a' as u8, 't' as u8, 'i' as u8, 'o' as u8, 'n' as u8,
    ]
}

fn authorization_name() -> (r: Vec<u8>)
    ensures
        r@ == spec_authorization_name(),
{
    let r = vec![
        'a' as u8, 'u' as u8, 't' as u8, 'h' as u8, 'o' as u8, 'r' as u8, 'i' as u8,
        'z' as u8, 'a' as u8, 't' as u8, 'i' as u8, 'o' as u8, 'n' as u8,
    ];
    proof {
        assert(r@ =~= spec_authorization_name());
    }
    r
}

/// The value prefix of bearer authorization: `Bearer` and a space.
pub open spec fn spec_bearer_prefix() -> Seq<u8> {
    seq!['B' as u8, 'e' as u8, 'a' as u8, 'r' as u8, 'e' as u8, 'r' as u8, ' ' as u8]
}

fn bearer_prefix() -> (r: Vec<u8>)
    ensures
        r@ == spec_bearer_prefix(),
{
    let r = vec!['B' as u8, 'e' as u8, 'a' as u8, 'r' as u8, 'e' as u8, 'r' as u8, ' ' as u8];
    proof {
        assert(r@ =~= spec_bearer_prefix());
    }
    r
}

/// The value prefix of basic authorization: `Basic` and a space.
pub open spec fn spec_basic_prefix() -> Seq<u8> {
    seq!['B' as u8, 'a' as u8, 's' as u8, 'i' as u8, 'c' as u8, ' ' as u8]
}

fn basic_prefix() -> (r: Vec<u8>)
    ensures
        r@ == spec_basic_prefix(),
{
    let r = vec!['B' as u8, 'a' as u8, 's' as u8, 'i' as u8, 'c' as u8, ' ' as u8];
    proof {
        assert(r@ =~= spec_basic_prefix());
    }
    r
}

/// The `content-type` header name.
pub open spec fn spec_content_type_name() -> Seq<u8> {
    seq![
        'c' as u8, 'o' as u8, 'n' as u8, 't' as u8, 'e' as u8, 'n' as u8, 't' as u8,
        '-' as u8, 't' as u8, 'y' as u8, 'p' as u8, 'e' as u8,
    ]
}

fn content_type_name() -> (r: Vec<u8>)
    ensures
        r@ == spec_content_type_name(),
{
    let r = vec![
        'c' as u8, 'o' as u8, 'n' as u8, 't' as u8, 'e' as u8, 'n' as u8, 't' as u8,
        '-' as u8, 't' as u8, 'y' as u8, 'p' as u8, 'e' as u8,
    ];
    proof {
        assert(r@ =~= spec_content_type_name());
    }
    r
}

/// The form content type: `application/x-www-form-urlencoded`.
pub open spec fn spec_form_content_type() -> Seq<u8> {
    seq![
        'a' as u8, 'p' as u8, 'p' as u8, 'l' as u8, 'i' as u8, 'c' as u8, 'a' as u8,
        't' as u8, 'i' as u8, 'o' as u8, 'n' as u8, '/' as u8, 'x' as u8, '-' as u8,
        'w' as u8, 'w' as u8, 'w' as u8, '-' as u8, 'f' as u8, 'o' as u8, 'r' as u8,
        'm' as u8, '-' as u8, 'u' as u8, 'r' as u8, 'l' as u8, 'e' as u8, 'n' as u8,
        'c' as u8, 'o' as u8, 'd' as u8, 'e' as u8, 'd' as u8,
    ]
}

fn form_content_type() -> (r: Vec<u8>)
    ensures
        r@ == spec_form_content_type(),
{
    let r = vec![
        'a' as u8, 'p' as u8, 'p' as u8, 'l' as u8, 'i' as u8, 'c' as u8, 'a' as u8,
        't' as u8, 'i' as u8, 'o' as u8, 'n' as u8, '/' as u8, 'x' as u8, '-' as u8,
        'w' as u8, 'w' as u8, 'w' as u8, '-' as u8, 'f' as u8, 'o' as u8, 'r' as u8,
        'm' as u8, '-' as u8, 'u' as u8, 'r' as u8, 'l' as u8, 'e' as u8, 'n' as u8,
        'c' as u8, 'o' as u8, 'd' as u8, 'e' as u8, 'd' as u8,
    ];
    proof {
        assert(r@ =~= spec_form_content_type());
    }
    r
}

/// The JSON content type: `application/json`.
pub open spec fn spec_json_content_type() -> Seq<u8> {
    seq![
        'a' as u8, 'p' as u8, 'p' as u8, 'l' as u8, 'i' as u8, 'c' as u8, 'a' as u8,
        't' as u8, 'i' as u8, 'o' as u8, 'n' as u8, '/' as u8, 'j' as u8, 's' as u8,
        'o' as u8, 'n' as u8,
    ]
}

fn json_content_type() -> (r: Vec<u8>)
    ensures
        r@ == spec_json_content_type(),
{
    let r = vec![
        'a' as u8, 'p' as u8, 'p' as u8, 'l' as u8, 'i' as u8, 'c' as u8, 'a' as u8,
        't' as u8, 'i' as u8, 'o' as u8, 'n' as u8, '/' as u8, 'j' as u8, 's' as u8,
        'o' as u8, 'n' as u8,
    ];
    proof {
        assert(r@ =~= spec_json_content_type());
    }
    r
}

/// The length of an optional byte string.
pub open spec fn spec_opt_len(bytes: Option<Vec<u8>>) -> int {
    match bytes {
        Some(b) => b@.len() as int,
        None => 0,
    }
}

/// Basic-authentication credentials: the user, a colon, and the password
/// if there is one.
pub open spec fn spec_basic_creds(user: Seq<u8>, pass: Option<Vec<u8>>) -> Seq<u8> {
    user + seq![COLON] + (match pass {
        Some(p) => p@,
        None => Seq::empty(),
    })
}

/// The header pairs an authorization scheme adds, in order. Query
/// authorization adds none: it goes to the URL instead.
pub open spec fn spec_auth_headers(auth: Option<Authorization>) -> Seq<(Seq<u8>, Seq<u8>)> {
    match auth {
        None => Seq::empty(),
        Some(Authorization::Bearer(token)) => seq![
            (spec_authorization_name(), spec_bearer_prefix() + token@),
        ],
        Some(Authorization::Basic(user, pass)) => seq![
            (
                spec_authorization_name(),
                spec_basic_prefix() + base64_std_of(spec_basic_creds(user@, pass)),
            ),
        ],
        Some(Authorization::Query(_)) => Seq::empty(),
        Some(Authorization::Header(pairs)) => pairs.deep_view(),
    }
}

/// The query string an authorization scheme appends, if any.
pub open spec fn spec_auth_query(auth: Option<Authorization>) -> Option<Seq<u8>> {
    match auth {
        Some(Authorization::Query(pairs)) => Some(urlencoded_of(pairs.deep_view())),
        _ => None,
    }
}

/// The content-type header pair a payload carries, if any.
pub open spec fn spec_content_headers(data: RequestData) -> Seq<(Seq<u8>, Seq<u8>)> {
    match data {
        RequestData::Form(_) => seq![(spec_content_type_name(), spec_form_content_type())],
        RequestData::Json(_) => seq![(spec_content_type_name(), spec_json_content_type())],
        _ => Seq::empty(),
    }
}

/// All header pairs of an assembled request, in application order: the
/// client's defaults, then the request's own, then authorization, then
/// the payload's content type.
pub open spec fn spec_request_headers(
    defaults: Seq<(Seq<u8>, Seq<u8>)>,
    request_headers: Seq<(Seq<u8>, Seq<u8>)>,
    auth: Option<Authorization>,
    data: RequestData,
) -> Seq<(Seq<u8>, Seq<u8>)> {
    defaults + request_headers + spec_auth_headers(auth) + spec_content_headers(data)
}

/// The URL of an assembled request. A query payload appends its query
/// string to the joined URL; query authorization appends its credentials
/// only when the request carries no payload.
pub open spec fn spec_request_url(
    url: Seq<u8>,
    auth: Option<Authorization>,
    data: RequestData,
) -> Seq<u8> {
    match data {
        RequestData::Empty => match spec_auth_query(auth) {
            Some(q) => spec_with_query(url, q),
            None => url,
        },
        RequestData::Form(_) => url,
        RequestData::Json(_) => url,
        RequestData::Query(q) => spec_with_query(url, q@),
    }
}

/// The body of an assembled request: the rendered payload, or empty when
/// the payload lives in the URL or there is none.
pub open spec fn spec_request_body(data: RequestData) -> Seq<u8> {
    match data {
        RequestData::Empty => Seq::empty(),
        RequestData::Form(b) => b@,
        RequestData::Json(b) => b@,
        RequestData::Query(_) => Seq::empty(),
    }
}

/// Assembles a wire-ready request: joins the base URL and the endpoint,
/// applies the authorization scheme and the payload, and collects the
/// headers in application order.
///
/// Every input assembles successfully; the result's URL, headers and body
/// are exactly the ones the specification functions above describe. The
/// bound on Basic credentials keeps them within the encoder's reach.
pub fn format_request(
    base_url: Vec<u8>,
    method: Method,
    endpoint: Vec<u8>,
    default_headers: Vec<(Vec<u8>, Vec<u8>)>,
    request_headers: Vec<(Vec<u8>, Vec<u8>)>,
    auth: Option<Authorization>,
    data: RequestData,
) -> (r: Result<FormattedRequest, Error>)
    requires
        auth matches Some(Authorization::Basic(user, pass)) ==> user@.len() + spec_opt_len(pass)
            < 0x4000_0000,
    ensures
        r is Ok,
        r matches Ok(f) ==> {
            &&& f.method == method
            &&& f.url@ == spec_request_url(spec_join_url(base_url@, endpoint@), auth, data)
            &&& f.headers.deep_view() == spec_request_headers(
                default_headers.deep_view(),
                request_headers.deep_view(),
                auth,
                data,
            )
            &&& f.body@ == spec_request_body(data)
        },
{
    let ghost defaults_dv = default_headers.deep_view();
    let ghost request_dv = request_headers.deep_view();
    let ghost gauth = auth;
    let url = join_url(base_url, &endpoint);

    let mut headers = default_headers;
    let mut more = request_headers;
    headers.append(&mut more);
    proof {
        assert(headers.deep_view() =~= defaults_dv + request_dv);
    }

    let mut auth_query: Option<Vec<u8>> = None;
    match auth {
        None => {},
        Some(Authorization::Bearer(token)) => {
            let mut value = bearer_prefix();
            let mut tail = token;
            value.append(&mut tail);
            headers.push((authorization_name(), value));
        },
        Some(Authorization::Basic(user, pass)) => {
            let ghost gpass = pass;
            let ghost guser = user@;
            let mut creds = user;
            creds.push(COLON);
            match pass {
                Some(p) => {
                    let mut tail = p;
                    creds.append(&mut tail);
                },
                None => {},
            }
            proof {
                assert(creds@ =~= spec_basic_creds(guser, gpass));
            }
            let mut value = basic_prefix();
            let mut encoded = base64_encode(&creds);
            value.append(&mut encoded);
            headers.push((authorization_name(), value));
        },
        Some(Authorization::Query(pairs)) => {
            match urlencode_pairs(&pairs) {
                Ok(q) => {
                    auth_query = Some(q);
                },
                Err(e) => {
                    return Err(e);
                },
            }
        },
        Some(Authorization::Header(pairs)) => {
            let mut more = pairs;
            headers.append(&mut more);
        },
    }
    proof {
        assert(headers.deep_view() =~~= defaults_dv + request_dv + spec_auth_headers(gauth));
    }

    let ghost gdata = data;
    let (final_url, body): (Vec<u8>, Vec<u8>) = match data {
        RequestData::Empty => {
            match auth_query {
                Some(q) => (with_query(url, q), Vec::new()),
                None => (url, Vec::new()),
            }
        },
        RequestData::Form(b) => {
            headers.push((content_type_name(), form_content_type()));
            (url, b)
        },
        RequestData::Json(b) => {
            headers.push((content_type_name(), json_content_type()));
            (url, b)
        },
        RequestData::Query(q) => (with_query(url, q), Vec::new()),
    };
    proof {
        assert(headers.deep_view() =~~= spec_request_headers(
            defaults_dv,
            request_dv,
            gauth,
            gdata,
        ));
    }

    Ok(FormattedRequest { method, url: final_url, headers, body })
}

/// Sorts a raw response into the request-response lifecycle's outcome:
/// a success status hands the body back for decoding; a client-error
/// status is the server rejecting the request; anything else is a server
/// failure. Exactly one of the three happens, decided by the status
/// alone.
pub fn handle_response(status: u16, body: Vec<u8>) -> (r: Result<Vec<u8>, Error>)
    ensures
        200 <= status < 300 ==> r == Ok::<Vec<u8>, Error>(body),
        400 <= status < 500 ==> r == Err::<Vec<u8>, Error>(Error::ClientError(status, body)),
        !(200 <= status < 300) && !(400 <= status < 500) ==> r == Err::<Vec<u8>, Error>(
            Error::ServerError(status, body),
        ),
{
    if 200 <= status && status < 300 {
        Ok(body)
    } else if 400 <= status && status < 500 {
        Err(Error::ClientError(status, body))
    } else {
        Err(Error::ServerError(status, body))
    }
}

} // verus!
