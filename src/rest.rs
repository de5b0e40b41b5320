//! The signed REST control plane: request signing, the URLs and headers of
//! each call, and the typed outcome of a response.

use vstd::prelude::*;
use vstd::string::*;
use crate::json::{Json, get_i64, get_str, i64_member, json_of_text, parse_json, str_member};
use crate::text::concat;

verus! {

/// Keys and bodies longer than this many characters are not signed.
pub const SIGNING_LIMIT: u64 = 0x0100_0000_0000_0000;

/// The HMAC-SHA256 tag of the UTF-8 bytes of `message` under the UTF-8
/// bytes of `key`.
pub uninterp spec fn hmac_sha256_of(key: Seq<char>, message: Seq<char>) -> Seq<u8>;

/// Relies on `ring::hmac::Key::new` with `HMAC_SHA256` and `ring::hmac::sign`:
/// the tag depends on the key and the message alone. They panic only on
/// inputs of 2^61 bytes or more, which the bound on lengths leaves out.
#[verifier::external_body]
fn hmac_sha256(key: &str, message: &str) -> (r: Vec<u8>)
    requires
        key@.len() < SIGNING_LIMIT,
        message@.len() < SIGNING_LIMIT,
    ensures
        r@ == hmac_sha256_of(key@, message@),
{
    let k = ring::hmac::Key::new(ring::hmac::HMAC_SHA256, key.as_bytes());
    ring::hmac::sign(&k, message.as_bytes()).as_ref().to_vec()
}

/// The lower-case hex digit of `n` (below 16).
pub open spec fn hex_digit(n: int) -> char {
    seq!['0', '1', '2', '3', '4', '5', '6', '7', '8', '9', 'a', 'b', 'c', 'd', 'e', 'f'][n]
}

/// Two lower-case hex digits for each byte, the high one first.
pub open spec fn hex_of(b: Seq<u8>) -> Seq<char>
    decreases b.len(),
{
    if b.len() == 0 {
        Seq::empty()
    } else {
        hex_of(b.drop_last()) + seq![hex_digit(b.last() as int / 16), hex_digit(b.last() as int % 16)]
    }
}

/// Relies on `hex::encode`: two digits from `0123456789abcdef` for each
/// byte, the high nibble first.
#[verifier::external_body]
fn hex_encode(b: &[u8]) -> (r: String)
    ensures
        r@ == hex_of(b@),
{
    hex::encode(b)
}

proof fn lemma_hex_len(b: Seq<u8>)
    ensures
        hex_of(b).len() == 2 * b.len(),
    decreases b.len(),
{
    if b.len() > 0 {
        lemma_hex_len(b.drop_last());
    }
}

/// Hex text determines its bytes.
pub proof fn lemma_hex_injective(a: Seq<u8>, b: Seq<u8>)
    requires
        hex_of(a) == hex_of(b),
    ensures
        a == b,
    decreases a.len(),
{
    lemma_hex_len(a);
    lemma_hex_len(b);
    if a.len() > 0 {
        let ha = hex_of(a.drop_last());
        let hb = hex_of(b.drop_last());
        lemma_hex_len(a.drop_last());
        lemma_hex_len(b.drop_last());
        let n = hex_of(a).len() as int;
        assert(hex_of(a).subrange(0, n - 2) =~= ha);
        assert(hex_of(b).subrange(0, n - 2) =~= hb);
        lemma_hex_injective(a.drop_last(), b.drop_last());
        let x = a.last();
        let y = b.last();
        assert(hex_of(a)[n - 2] == hex_digit(x as int / 16));
        assert(hex_of(b)[n - 2] == hex_digit(y as int / 16));
        assert(hex_of(a)[n - 1] == hex_digit(x as int % 16));
        assert(hex_of(b)[n - 1] == hex_digit(y as int % 16));
        assert(x / 16 == y / 16);
        assert(x % 16 == y % 16);
        assert(x == y);
        assert(a =~= a.drop_last().push(x));
        assert(b =~= b.drop_last().push(y));
    }
}

/// The hex signature of `body` under `secret`.
pub open spec fn signature_of(secret: Seq<char>, body: Seq<char>) -> Seq<char> {
    hex_of(hmac_sha256_of(secret, body))
}

/// A URL carrying `body` as its query, signed by the hex `signature`.
pub open spec fn signed_url(host: Seq<char>, endpoint: Seq<char>, body: Seq<char>, signature: Seq<char>) -> Seq<char> {
    host + endpoint + "?"@ + body + "&signature="@ + signature
}

/// Two signed URLs of one call differ exactly where the HMAC tags of their
/// secrets differ: nothing but the tag separates them.
pub proof fn lemma_signature_separates_secrets(
    host: Seq<char>,
    endpoint: Seq<char>,
    body: Seq<char>,
    secret_a: Seq<char>,
    secret_b: Seq<char>,
)
    ensures
        (signed_url(host, endpoint, body, signature_of(secret_a, body)) == signed_url(
            host, endpoint, body, signature_of(secret_b, body))) <==> (hmac_sha256_of(secret_a, body)
            == hmac_sha256_of(secret_b, body)),
{
    let pre = host + endpoint + "?"@ + body + "&signature="@;
    let sa = signature_of(secret_a, body);
    let sb = signature_of(secret_b, body);
    if pre + sa == pre + sb {
        assert((pre + sa).subrange(pre.len() as int, (pre + sa).len() as int) =~= sa);
        assert((pre + sb).subrange(pre.len() as int, (pre + sb).len() as int) =~= sb);
        lemma_hex_injective(hmac_sha256_of(secret_a, body), hmac_sha256_of(secret_b, body));
    }
}

/// A header value holds tabs and visible characters only: no other control
/// character and no DEL. (Every byte of a non-ASCII character is allowed.)
pub open spec fn header_char_ok(c: char) -> bool {
    c == '\t' || (' ' <= c && c != '\x7f')
}

pub open spec fn header_text_ok(s: Seq<char>) -> bool {
    forall|i: int| 0 <= i < s.len() ==> header_char_ok(#[trigger] s[i])
}

/// Relies on `reqwest::header::HeaderValue::from_str`: it accepts text
/// whose every byte is a tab or at least 32 and not 127.
#[verifier::external_body]
fn header_value_ok(s: &str) -> (r: bool)
    ensures
        r == header_text_ok(s@),
{
    reqwest::header::HeaderValue::from_str(s).is_ok()
}

/// The error body of a rejected request.
#[derive(Debug, Clone, PartialEq, Eq)]
pub struct ExchangeError {
    pub code: i64,
    pub msg: String,
}

/// Does `j` read as `v`?
pub open spec fn decodes_exchange_error(j: Json, v: ExchangeError) -> bool {
    &&& i64_member(j, "code"@) == Some(v.code)
    &&& str_member(j, "msg"@) == Some(v.msg@)
}

/// Reads an `ExchangeError` from `j`.
pub fn decode_exchange_error(j: &Json) -> (r: Option<ExchangeError>)
    ensures
        match r {
            Some(v) => decodes_exchange_error(*j, v),
            None => forall|v: ExchangeError| !#[trigger] decodes_exchange_error(*j, v),
        },
{
    let code = match get_i64(j, "code") {
        Some(x) => x,
        None => return None,
    };
    let msg = match get_str(j, "msg") {
        Some(x) => x,
        None => return None,
    };
    Some(ExchangeError { code, msg })
}

/// The failures of a control-plane call.
#[derive(Debug, Clone, PartialEq, Eq)]
pub enum CustomError {
    /// The request could not be sent or its answer not read.
    Transport(String),
    /// 401.
    Unauthorized,
    /// 500.
    InternalServerError,
    /// 503.
    ServiceUnavailable,
    /// 400, with the exchange's own error.
    BinanceError { response: ExchangeError },
    /// Any other status.
    UnexpectedStatus(u16),
    /// The body is not what the call returns.
    Decode,
    /// The API key cannot stand in a header.
    InvalidHeader,
}

/// The outcome owed for a response of `status` whose body reads as `body`.
pub open spec fn response_outcome(status: u16, body: Option<Json>, r: Result<Json, CustomError>) -> bool {
    if status == 200 {
        match body {
            Some(j) => r == Ok::<Json, CustomError>(j),
            None => r == Err::<Json, CustomError>(CustomError::Decode),
        }
    } else if status == 400 {
        match body {
            Some(j) => match r {
                Err(CustomError::BinanceError { response }) => decodes_exchange_error(j, response),
                Err(CustomError::Decode) => forall|e: ExchangeError| !#[trigger] decodes_exchange_error(j, e),
                _ => false,
            },
            None => r == Err::<Json, CustomError>(CustomError::Decode),
        }
    } else if status == 401 {
        r == Err::<Json, CustomError>(CustomError::Unauthorized)
    } else if status == 500 {
        r == Err::<Json, CustomError>(CustomError::InternalServerError)
    } else if status == 503 {
        r == Err::<Json, CustomError>(CustomError::ServiceUnavailable)
    } else {
        r == Err::<Json, CustomError>(CustomError::UnexpectedStatus(status))
    }
}

/// Classifies a response by its status: 200 gives the JSON body, 400 the
/// exchange's error, 401, 500 and 503 their own errors, and any other
/// status an error that carries it.
pub fn handle_response(status: u16, body: &str) -> (r: Result<Json, CustomError>)
    ensures
        response_outcome(status, json_of_text(body@), r),
{
    if status == 200 {
        match parse_json(body) {
            Some(j) => Ok(j),
            None => Err(CustomError::Decode),
        }
    } else if status == 400 {
        match parse_json(body) {
            Some(j) => match decode_exchange_error(&j) {
                Some(e) => Err(CustomError::BinanceError { response: e }),
                None => Err(CustomError::Decode),
            },
            None => Err(CustomError::Decode),
        }
    } else if status == 401 {
        Err(CustomError::Unauthorized)
    } else if status == 500 {
        Err(CustomError::InternalServerError)
    } else if status == 503 {
        Err(CustomError::ServiceUnavailable)
    } else {
        Err(CustomError::UnexpectedStatus(status))
    }
}

/// The headers of a call, as name and value.
pub open spec fn header_views(h: Seq<(String, String)>) -> Seq<(Seq<char>, Seq<char>)> {
    h.map_values(|p: (String, String)| (p.0@, p.1@))
}

/// The headers owed: the user agent, the form content type on calls that
/// send one, and the API key.
pub open spec fn expected_headers(content_type: bool, api_key: Seq<char>) -> Seq<(Seq<char>, Seq<char>)> {
    let agent = seq![("user-agent"@, "binance-rs"@)];
    let with_type = if content_type {
        agent.push(("content-type"@, "application/x-www-form-urlencoded"@))
    } else {
        agent
    };
    with_type.push(("x-mbx-apikey"@, api_key))
}

/// Where and how the control plane is reached.
#[derive(Debug, Clone, PartialEq, Eq)]
pub struct RestConfig {
    pub api_key: String,
    pub secret_key: String,
    pub host: String,
}

impl RestConfig {
    /// A missing key is taken as empty.
    pub fn new(api_key: Option<String>, secret_key: Option<String>, host: String) -> (c: Self)
        ensures
            c.api_key@ == match api_key {
                Some(k) => k@,
                None => Seq::<char>::empty(),
            },
            c.secret_key@ == match secret_key {
                Some(k) => k@,
                None => Seq::<char>::empty(),
            },
            c.host == host,
    {
        let api_key = match api_key {
            Some(k) => k,
            None => String::new(),
        };
        let secret_key = match secret_key {
            Some(k) => k,
            None => String::new(),
        };
        RestConfig { api_key, secret_key, host }
    }

    /// The signed URL of a call, given the HMAC tag of its body.
    pub fn signed_url_with_tag(&self, endpoint: &str, request_body: &str, tag: &[u8]) -> (url: String)
        ensures
            url@ == signed_url(self.host@, endpoint@, request_body@, hex_of(tag@)),
    {
        let signature = hex_encode(tag);
        let a = concat(self.host.as_str(), endpoint);
        let b = concat(a.as_str(), "?");
        let c = concat(b.as_str(), request_body);
        let d = concat(c.as_str(), "&signature=");
        concat(d.as_str(), signature.as_str())
    }

    /// The signed URL of a call: the body signed with the secret key by
    /// HMAC-SHA256, hex-encoded, appended as the `signature` parameter.
    pub fn signed_request(&self, endpoint: &str, request_body: &str) -> (url: String)
        requires
            self.secret_key@.len() < SIGNING_LIMIT,
            request_body@.len() < SIGNING_LIMIT,
        ensures
            url@ == signed_url(self.host@, endpoint@, request_body@, signature_of(self.secret_key@, request_body@)),
    {
        let tag = hmac_sha256(self.secret_key.as_str(), request_body);
        self.signed_url_with_tag(endpoint, request_body, tag.as_slice())
    }

    /// The headers of a call, or `InvalidHeader` when the API key holds a
    /// character that no header value may hold.
    pub fn build_headers(&self, content_type: bool) -> (r: Result<Vec<(String, String)>, CustomError>)
        ensures
            header_text_ok(self.api_key@) ==> r is Ok && header_views(r->Ok_0@) == expected_headers(
                content_type,
                self.api_key@,
            ),
            !header_text_ok(self.api_key@) ==> r == Err::<Vec<(String, String)>, CustomError>(
                CustomError::InvalidHeader,
            ),
    {
        if !header_value_ok(self.api_key.as_str()) {
            return Err(CustomError::InvalidHeader);
        }
        let mut h: Vec<(String, String)> = Vec::new();
        h.push((String::from_str("user-agent"), String::from_str("binance-rs")));
        if content_type {
            h.push((String::from_str("content-type"), String::from_str("application/x-www-form-urlencoded")));
        }
        h.push((String::from_str("x-mbx-apikey"), self.api_key.clone()));
        assert(header_views(h@) =~= expected_headers(content_type, self.api_key@));
        Ok(h)
    }

    /// The URL of an unsigned GET, with its query if there is one.
    pub fn get_url(&self, endpoint: &str, request: Option<&str>) -> (url: String)
        ensures
            url@ == match request {
                Some(q) => self.host@ + endpoint@ + "?"@ + q@,
                None => self.host@ + endpoint@,
            },
    {
        let base = concat(self.host.as_str(), endpoint);
        match request {
            Some(q) => {
                let b = concat(base.as_str(), "?");
                concat(b.as_str(), q)
            },
            None => base,
        }
    }

    /// The URL of an unsigned POST, naming a symbol if there is one.
    pub fn post_url(&self, endpoint: &str, symbol: Option<&str>) -> (url: String)
        ensures
            url@ == match symbol {
                Some(s) => self.host@ + endpoint@ + "?symbol="@ + s@,
                None => self.host@ + endpoint@,
            },
    {
        let base = concat(self.host.as_str(), endpoint);
        match symbol {
            Some(s) => {
                let b = concat(base.as_str(), "?symbol=");
                concat(b.as_str(), s)
            },
            None => base,
        }
    }

    /// The URL of an unsigned PUT that names a session token, and a symbol
    /// if there is one.
    pub fn put_url(&self, endpoint: &str, listen_key: &str, symbol: Option<&str>) -> (url: String)
        ensures
            url@ == self.host@ + endpoint@ + "?"@ + match symbol {
                Some(s) => "listenKey="@ + listen_key@ + "&symbol="@ + s@,
                None => "listenKey="@ + listen_key@,
            },
    {
        let k = concat("listenKey=", listen_key);
        let data = match symbol {
            Some(s) => {
                let b = concat(k.as_str(), "&symbol=");
                concat(b.as_str(), s)
            },
            None => k,
        };
        let base = concat(self.host.as_str(), endpoint);
        let b = concat(base.as_str(), "?");
        concat(b.as_str(), data.as_str())
    }
}

} // verus!
