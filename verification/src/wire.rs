//! Request builder: validates the HTTP method, filters headers, params and
//! form fields by their enabled flag, normalizes authentication, and hands
//! the result to the transport layer.
//!
//! Everything that decides what goes on the wire is verified here, down to
//! the transport's request builder: the builder's query pairs, header map,
//! and body are named, each trusted call says exactly how it changes them,
//! and the translation proves that the finished builder carries the wire
//! request's content and nothing else.

use vstd::prelude::*;

use crate::models::AuthConfig;
use crate::models::HttpError;
use crate::models::KeyValue;
use crate::models::RequestBody;
use crate::models::RequestConfig;
use crate::text::to_chars;
use reqwest::Client;
use reqwest::RequestBuilder;

verus! {

#[verifier::external_type_specification]
#[verifier::external_body]
pub struct ExMethod(reqwest::Method);

#[verifier::external_type_specification]
#[verifier::external_body]
pub struct ExRequestBuilder(RequestBuilder);

#[verifier::external_type_specification]
#[verifier::external_body]
pub struct ExMultipartForm(reqwest::multipart::Form);

/// A character of the RFC 7230 token set, as the transport's method and
/// header-name parsers accept it.
pub open spec fn is_token_char(c: char) -> bool {
    ||| c == '!'
    ||| c == '#'
    ||| c == '$'
    ||| c == '%'
    ||| c == '&'
    ||| c == '\''
    ||| c == '*'
    ||| c == '+'
    ||| c == '-'
    ||| c == '.'
    ||| ('0' <= c && c <= '9')
    ||| ('A' <= c && c <= 'Z')
    ||| c == '^'
    ||| c == '_'
    ||| c == '`'
    ||| ('a' <= c && c <= 'z')
    ||| c == '|'
    ||| c == '~'
}

/// A parseable HTTP method name: non-empty, token characters only.
pub open spec fn valid_method(s: Seq<char>) -> bool {
    s.len() > 0 && (forall|i: int| 0 <= i < s.len() ==> is_token_char(#[trigger] s[i]))
}

/// A parseable header name: non-empty, at most 65535 characters (the
/// transport's cap on header-name bytes; token characters are one byte
/// each), token characters only; uppercase letters are accepted and stored
/// lowercased.
pub open spec fn valid_header_name(s: Seq<char>) -> bool {
    0 < s.len() <= 65535 && (forall|i: int| 0 <= i < s.len() ==> is_token_char(#[trigger] s[i]))
}

/// A character the transport accepts in a header value: horizontal tab, any
/// visible character, or anything beyond ASCII.
pub open spec fn is_value_char(c: char) -> bool {
    c == '\u{0009}' || (' ' <= c && c != '\u{007F}')
}

/// A parseable header value.
pub open spec fn valid_header_value(s: Seq<char>) -> bool {
    forall|i: int| 0 <= i < s.len() ==> is_value_char(#[trigger] s[i])
}

/// The ASCII-lowercased form of one character.
pub open spec fn lower_char(c: char) -> char {
    if 'A' <= c && c <= 'Z' {
        (((c as u8) + 32) as u8) as char
    } else {
        c
    }
}

/// The ASCII-lowercased form of a text, as header names are stored.
pub open spec fn ascii_lower(s: Seq<char>) -> Seq<char> {
    s.map_values(|c: char| lower_char(c))
}

/// Whether a method name would be accepted by the transport's parser.
pub fn check_method(s: &str) -> (r: bool)
    ensures
        r == valid_method(s@),
{
    let cs = to_chars(s);
    if cs.len() == 0 {
        return false;
    }
    let mut i: usize = 0;
    while i < cs.len()
        invariant
            cs@ == s@,
            i <= cs@.len(),
            forall|k: int| 0 <= k < i ==> is_token_char(#[trigger] cs@[k]),
        decreases cs@.len() - i,
    {
        let c = cs[i];
        let ok = c == '!' || c == '#' || c == '$' || c == '%' || c == '&' || c == '\'' || c == '*'
            || c == '+' || c == '-' || c == '.' || ('0' <= c && c <= '9') || ('A' <= c && c <= 'Z')
            || c == '^' || c == '_' || c == '`' || ('a' <= c && c <= 'z') || c == '|' || c == '~';
        if !ok {
            return false;
        }
        i = i + 1;
    }
    true
}

/// Relies on `reqwest::Method::from_bytes`: parsing a method name succeeds
/// exactly when it is a non-empty sequence of RFC 7230 token characters.
#[verifier::external_body]
fn parse_method(s: &str) -> (r: Option<reqwest::Method>)
    ensures
        r is Some <==> valid_method(s@),
{
    reqwest::Method::from_bytes(s.as_bytes()).ok()
}

/// The `(key, value)` views of a pair list.
pub open spec fn pairs_view(s: Seq<(String, String)>) -> Seq<(Seq<char>, Seq<char>)> {
    s.map_values(|p: (String, String)| (p.0@, p.1@))
}

/// The `(key, value)` views of exactly the enabled entries, in order.
pub open spec fn enabled_pairs(entries: Seq<KeyValue>) -> Seq<(Seq<char>, Seq<char>)>
    decreases entries.len(),
{
    if entries.len() == 0 {
        Seq::<(Seq<char>, Seq<char>)>::empty()
    } else {
        let rest = enabled_pairs(entries.drop_last());
        if entries.last().enabled {
            rest.push((entries.last().key@, entries.last().value@))
        } else {
            rest
        }
    }
}

/// A list in which no entry is enabled contributes nothing to the wire.
pub proof fn lemma_all_disabled_empty(entries: Seq<KeyValue>)
    requires
        forall|i: int| 0 <= i < entries.len() ==> !(#[trigger] entries[i]).enabled,
    ensures
        enabled_pairs(entries) == Seq::<(Seq<char>, Seq<char>)>::empty(),
    decreases entries.len(),
{
    if entries.len() > 0 {
        lemma_all_disabled_empty(entries.drop_last());
    }
}

/// Keeps exactly the enabled entries, as plain key/value pairs, in order.
pub fn enabled_entries(entries: &Vec<KeyValue>) -> (r: Vec<(String, String)>)
    ensures
        pairs_view(r@) == enabled_pairs(entries@),
{
    let mut out: Vec<(String, String)> = Vec::new();
    let mut i: usize = 0;
    proof {
        assert(entries@.take(0) =~= Seq::<KeyValue>::empty());
        assert(pairs_view(out@) =~= enabled_pairs(entries@.take(0)));
    }
    while i < entries.len()
        invariant
            i <= entries@.len(),
            pairs_view(out@) == enabled_pairs(entries@.take(i as int)),
        decreases entries@.len() - i,
    {
        let e = &entries[i];
        proof {
            assert(entries@.take(i + 1 as int).drop_last() =~= entries@.take(i as int));
            assert(entries@.take(i + 1 as int).last() == entries@[i as int]);
        }
        if e.enabled {
            let ghost before = out@;
            out.push((e.key.clone(), e.value.clone()));
            proof {
                assert(enabled_pairs(entries@.take(i + 1 as int)) == enabled_pairs(
                    entries@.take(i as int),
                ).push((entries@[i as int].key@, entries@[i as int].value@)));
                assert(pairs_view(out@) =~= pairs_view(before).push(
                    (entries@[i as int].key@, entries@[i as int].value@),
                ));
            }
        } else {
            proof {
                assert(enabled_pairs(entries@.take(i + 1 as int)) == enabled_pairs(
                    entries@.take(i as int),
                ));
            }
        }
        i = i + 1;
    }
    proof {
        assert(entries@.take(entries@.len() as int) =~= entries@);
    }
    out
}

/// Copies an authentication choice field by field.
fn clone_auth(a: &AuthConfig) -> (r: AuthConfig)
    ensures
        r == *a,
{
    match a {
        AuthConfig::NoAuth => AuthConfig::NoAuth,
        AuthConfig::Basic { username, password } => AuthConfig::Basic {
            username: username.clone(),
            password: password.clone(),
        },
        AuthConfig::Bearer { token } => AuthConfig::Bearer { token: token.clone() },
    }
}

/// The authentication actually attached: an absent choice adds nothing, like
/// an explicit `NoAuth`.
pub open spec fn auth_normalized(a: Option<AuthConfig>) -> AuthConfig {
    match a {
        Option::Some(x) => x,
        Option::None => AuthConfig::NoAuth,
    }
}

/// Body encoding as it goes on the wire; form and multipart variants hold
/// only their enabled fields.
#[derive(Debug)]
pub enum WireBody {
    Empty,
    Raw { mime: String, content: String },
    Json { text: String },
    Form { fields: Vec<(String, String)> },
    Multipart { fields: Vec<(String, String)> },
}

/// A wire-level request: everything that will be attached to the transport,
/// with disabled entries already dropped.
#[derive(Debug)]
pub struct WireRequest {
    pub method: String,
    pub url: String,
    pub headers: Vec<(String, String)>,
    pub params: Vec<(String, String)>,
    pub auth: AuthConfig,
    pub body: WireBody,
}

/// How a built wire request relates to its request description: same method
/// and URL, exactly the enabled headers/params/fields in order, normalized
/// authentication, and the body encoding chosen by the body variant.
pub open spec fn wire_built(config: RequestConfig, w: WireRequest) -> bool {
    &&& w.method@ == config.method@
    &&& w.url@ == config.url@
    &&& pairs_view(w.headers@) == enabled_pairs(config.headers@)
    &&& pairs_view(w.params@) == enabled_pairs(config.params@)
    &&& w.auth == auth_normalized(config.auth)
    &&& match config.body {
        RequestBody::Empty => w.body is Empty,
        RequestBody::Raw { mime, content } => {
            &&& w.body matches WireBody::Raw { mime: m2, content: c2 }
            &&& m2@ == mime@
            &&& c2@ == content@
        },
        RequestBody::Json { value } => {
            &&& w.body matches WireBody::Json { text }
            &&& text@ == value@
        },
        RequestBody::FormUrlEncoded { fields } => {
            &&& w.body matches WireBody::Form { fields: f2 }
            &&& pairs_view(f2@) == enabled_pairs(fields@)
        },
        RequestBody::Multipart { fields } => {
            &&& w.body matches WireBody::Multipart { fields: f2 }
            &&& pairs_view(f2@) == enabled_pairs(fields@)
        },
    }
}

/// Builds the wire-level request for a description: only enabled entries are
/// kept, authentication is normalized, and the body is encoded by variant.
/// Fails exactly when the method name is unparseable, with the invalid-URL
/// error class, before any I/O could happen.
pub fn build_wire(config: &RequestConfig) -> (r: Result<WireRequest, HttpError>)
    ensures
        r is Ok <==> valid_method(config.method@),
        r is Ok ==> wire_built(*config, r->Ok_0),
        r is Err ==> (r->Err_0 matches HttpError::InvalidUrl { message } && message@
            == "Invalid HTTP method"@),
{
    if !check_method(config.method.as_str()) {
        return Result::Err(
            HttpError::InvalidUrl { message: String::from_str("Invalid HTTP method") },
        );
    }
    let body = match &config.body {
        RequestBody::Empty => WireBody::Empty,
        RequestBody::Raw { mime, content } => WireBody::Raw {
            mime: mime.clone(),
            content: content.clone(),
        },
        RequestBody::Json { value } => WireBody::Json { text: value.clone() },
        RequestBody::FormUrlEncoded { fields } => WireBody::Form {
            fields: enabled_entries(fields),
        },
        RequestBody::Multipart { fields } => WireBody::Multipart {
            fields: enabled_entries(fields),
        },
    };
    let auth = match &config.auth {
        Option::Some(a) => clone_auth(a),
        Option::None => AuthConfig::NoAuth,
    };
    Result::Ok(
        WireRequest {
            method: config.method.clone(),
            url: config.url.clone(),
            headers: enabled_entries(&config.headers),
            params: enabled_entries(&config.params),
            auth,
            body,
        },
    )
}

// What the transport's request builder holds, named so that every trusted
// call below can say exactly how it changes the request under construction.

/// Cap on distinct header names attached to one request: the transport's
/// header map aborts the process when its table can no longer grow, and the
/// earliest growth that can fail lies beyond 6553 distinct names; staying
/// under this limit keeps every append safe.
pub const TRANSPORT_HEADER_LIMIT: usize = 4096;

/// Whether the URL parser accepts the text as a request URL.
pub uninterp spec fn url_parses(url: Seq<char>) -> bool;

/// The decoded query pairs the URL text itself carries (empty when it does
/// not parse).
pub uninterp spec fn url_query_pairs(url: Seq<char>) -> Seq<(Seq<char>, Seq<char>)>;

/// The authorization entries induced by credentials embedded in the URL text
/// (empty for a credential-free URL).
pub uninterp spec fn url_auth_headers(url: Seq<char>) -> Map<Seq<char>, Seq<Seq<char>>>;

/// Whether the request under construction is intact; a rejected URL or a
/// malformed header poisons the builder, and the send would fail.
pub uninterp spec fn builder_ok(rb: RequestBuilder) -> bool;

/// The decoded query pairs of the request under construction, in order.
pub uninterp spec fn builder_params(rb: RequestBuilder) -> Seq<(Seq<char>, Seq<char>)>;

/// The header map of the request under construction: lowercased name to its
/// values in insertion order.
pub uninterp spec fn builder_headers(rb: RequestBuilder) -> Map<Seq<char>, Seq<Seq<char>>>;

/// The number of distinct header names the request under construction
/// holds; 0 when errored.
pub uninterp spec fn builder_header_count(rb: RequestBuilder) -> nat;

/// The buffered text body of the request under construction; `None` when no
/// buffered body is set.
pub uninterp spec fn builder_body(rb: RequestBuilder) -> Option<Seq<char>>;

/// The text parts of a streaming multipart body, when one is set.
pub uninterp spec fn builder_multipart(rb: RequestBuilder) -> Option<Seq<(Seq<char>, Seq<char>)>>;

/// The text parts a multipart form holds, in order.
pub uninterp spec fn form_parts(f: reqwest::multipart::Form) -> Seq<(Seq<char>, Seq<char>)>;

/// The HTTP Basic authorization value for the credentials (a function of
/// username and password alone).
pub uninterp spec fn basic_credentials(username: Seq<char>, password: Seq<char>) -> Seq<char>;

/// The form-url-encoding of the pairs (a function of the pairs alone).
pub uninterp spec fn form_encoded(fields: Seq<(Seq<char>, Seq<char>)>) -> Seq<char>;

/// One header appended to the map: the value joins the name's list.
pub open spec fn header_append(
    m: Map<Seq<char>, Seq<Seq<char>>>,
    name: Seq<char>,
    value: Seq<char>,
) -> Map<Seq<char>, Seq<Seq<char>>> {
    if m.dom().contains(name) {
        m.insert(name, m[name].push(value))
    } else {
        m.insert(name, seq![value])
    }
}

/// One header added only when the name is absent.
pub open spec fn header_default(
    m: Map<Seq<char>, Seq<Seq<char>>>,
    name: Seq<char>,
    value: Seq<char>,
) -> Map<Seq<char>, Seq<Seq<char>>> {
    if m.dom().contains(name) {
        m
    } else {
        m.insert(name, seq![value])
    }
}

/// The header map after appending each entry in order, names lowercased.
pub open spec fn attached_header_map(
    base: Map<Seq<char>, Seq<Seq<char>>>,
    entries: Seq<(String, String)>,
) -> Map<Seq<char>, Seq<Seq<char>>>
    decreases entries.len(),
{
    if entries.len() == 0 {
        base
    } else {
        header_append(
            attached_header_map(base, entries.drop_last()),
            ascii_lower(entries.last().0@),
            entries.last().1@,
        )
    }
}

/// Whether some entry's lowercased name is `n`.
pub open spec fn has_header_named(entries: Seq<(String, String)>, n: Seq<char>) -> bool
    decreases entries.len(),
{
    if entries.len() == 0 {
        false
    } else {
        has_header_named(entries.drop_last(), n) || ascii_lower(entries.last().0@) == n
    }
}

/// Appending entries adds exactly their lowercased names to the map's domain.
proof fn lemma_attached_dom(
    base: Map<Seq<char>, Seq<Seq<char>>>,
    entries: Seq<(String, String)>,
    n: Seq<char>,
)
    ensures
        attached_header_map(base, entries).dom().contains(n) == (base.dom().contains(n)
            || has_header_named(entries, n)),
    decreases entries.len(),
{
    if entries.len() > 0 {
        lemma_attached_dom(base, entries.drop_last(), n);
    }
}

/// Every entry is a parseable header.
pub open spec fn headers_well_formed(entries: Seq<(String, String)>) -> bool {
    forall|i: int|
        0 <= i < entries.len() ==> valid_header_name((#[trigger] entries[i]).0@)
            && valid_header_value(entries[i].1@)
}

/// The authorization entry the auth choice appends, if any.
pub open spec fn auth_header_map(
    m: Map<Seq<char>, Seq<Seq<char>>>,
    a: AuthConfig,
) -> Map<Seq<char>, Seq<Seq<char>>> {
    match a {
        AuthConfig::NoAuth => m,
        AuthConfig::Basic { username, password } => header_append(
            m,
            "authorization"@,
            basic_credentials(username@, password@),
        ),
        AuthConfig::Bearer { token } => header_append(m, "authorization"@, "Bearer "@ + token@),
    }
}

/// Whether the auth choice survives the transport's header-value check.
pub open spec fn wire_auth_ok(a: AuthConfig) -> bool {
    match a {
        AuthConfig::Bearer { token } => valid_header_value(token@),
        _ => true,
    }
}

/// Whether the body encoding survives the transport's header checks.
pub open spec fn wire_body_ok(b: WireBody) -> bool {
    match b {
        WireBody::Raw { mime, content } => valid_header_value(mime@),
        _ => true,
    }
}

/// Whether the whole translation leaves the builder intact: the URL parses
/// and every attached header is parseable.
pub open spec fn transport_ok(w: WireRequest) -> bool {
    &&& url_parses(w.url@)
    &&& headers_well_formed(w.headers@)
    &&& wire_auth_ok(w.auth)
    &&& wire_body_ok(w.body)
}

/// The header map after the wire request's own headers and authentication,
/// before the body encoding.
pub open spec fn wire_header_base(w: WireRequest) -> Map<Seq<char>, Seq<Seq<char>>> {
    auth_header_map(attached_header_map(url_auth_headers(w.url@), w.headers@), w.auth)
}

/// A multipart body appended its content type (with a fresh boundary) and
/// its computed content length to the header map.
pub open spec fn multipart_headers(
    before: Map<Seq<char>, Seq<Seq<char>>>,
    after: Map<Seq<char>, Seq<Seq<char>>>,
) -> bool {
    exists|ct: Seq<char>, cl: Seq<char>|
        after == #[trigger] header_append(
            header_append(before, "content-type"@, ct),
            "content-length"@,
            cl,
        )
}

/// What an intact builder carries after the translation: the URL's own query
/// pairs followed by the wire request's, the wire request's header map, and
/// the body its variant encodes.
pub open spec fn transport_attached(w: WireRequest, rb: RequestBuilder) -> bool {
    &&& builder_params(rb) == url_query_pairs(w.url@) + pairs_view(w.params@)
    &&& match w.body {
        WireBody::Empty => {
            &&& builder_headers(rb) == wire_header_base(w)
            &&& builder_body(rb) is None
            &&& builder_multipart(rb) is None
        },
        WireBody::Raw { mime, content } => {
            &&& builder_headers(rb) == header_append(wire_header_base(w), "content-type"@, mime@)
            &&& builder_body(rb) == Option::Some(content@)
            &&& builder_multipart(rb) is None
        },
        WireBody::Json { text } => {
            &&& builder_headers(rb) == header_default(
                wire_header_base(w),
                "content-type"@,
                "application/json"@,
            )
            &&& builder_body(rb) == Option::Some(text@)
            &&& builder_multipart(rb) is None
        },
        WireBody::Form { fields } => {
            &&& builder_headers(rb) == header_default(
                wire_header_base(w),
                "content-type"@,
                "application/x-www-form-urlencoded"@,
            )
            &&& builder_body(rb) == Option::Some(form_encoded(pairs_view(fields@)))
            &&& builder_multipart(rb) is None
        },
        WireBody::Multipart { fields } => {
            &&& multipart_headers(wire_header_base(w), builder_headers(rb))
            &&& builder_multipart(rb) == Option::Some(pairs_view(fields@))
            &&& builder_body(rb) is None
        },
    }
}

/// Relies on `Client::request`: starts a request builder for the method and
/// URL. The builder is intact exactly when the URL parses; it then carries
/// the URL's own query pairs, the authorization entry of any credentials
/// embedded in the URL (and no other header), and no body.
#[verifier::external_body]
fn transport_request(client: &Client, method: reqwest::Method, url: &str) -> (r: RequestBuilder)
    ensures
        builder_ok(r) == url_parses(url@),
        builder_ok(r) ==> builder_params(r) == url_query_pairs(url@),
        builder_ok(r) ==> builder_headers(r) == url_auth_headers(url@),
        builder_ok(r) ==> (forall|n: Seq<char>|
            #[trigger] builder_headers(r).dom().contains(n) ==> n == "authorization"@),
        builder_ok(r) ==> builder_body(r) is None,
        builder_ok(r) ==> builder_multipart(r) is None,
        builder_header_count(r) <= 1,
{
    client.request(method, url)
}

/// Relies on `RequestBuilder::query`: appends one decoded key/value pair to
/// the URL's query string; nothing else changes, and serializing a pair of
/// plain strings cannot fail.
#[verifier::external_body]
fn transport_query(rb: RequestBuilder, key: &str, value: &str) -> (r: RequestBuilder)
    ensures
        builder_ok(r) == builder_ok(rb),
        builder_ok(r) ==> builder_params(r) == builder_params(rb).push((key@, value@)),
        builder_ok(r) ==> builder_headers(r) == builder_headers(rb),
        builder_ok(r) ==> builder_body(r) == builder_body(rb),
        builder_ok(r) ==> builder_multipart(r) == builder_multipart(rb),
        builder_header_count(r) == builder_header_count(rb),
{
    rb.query(&[(key, value)])
}

/// Relies on `RequestBuilder::header`: appends one header, name lowercased;
/// a malformed name or value poisons the builder instead. The caller keeps
/// the header count under the map's safe limit, where appending cannot
/// abort.
#[verifier::external_body]
fn transport_header(rb: RequestBuilder, key: &str, value: &str) -> (r: RequestBuilder)
    requires
        builder_header_count(rb) < TRANSPORT_HEADER_LIMIT,
    ensures
        builder_ok(r) == (builder_ok(rb) && valid_header_name(key@) && valid_header_value(
            value@,
        )),
        builder_ok(r) ==> builder_headers(r) == header_append(
            builder_headers(rb),
            ascii_lower(key@),
            value@,
        ),
        builder_ok(r) ==> builder_params(r) == builder_params(rb),
        builder_ok(r) ==> builder_body(r) == builder_body(rb),
        builder_ok(r) ==> builder_multipart(r) == builder_multipart(rb),
        builder_header_count(r) <= builder_header_count(rb) + 1,
{
    rb.header(key, value)
}

/// Relies on `RequestBuilder::basic_auth`: appends the `Authorization`
/// header with the Basic credentials value, which is always parseable. The
/// caller keeps the header count under the map's safe limit.
#[verifier::external_body]
fn transport_basic_auth(rb: RequestBuilder, username: &str, password: &str) -> (r: RequestBuilder)
    requires
        builder_header_count(rb) < TRANSPORT_HEADER_LIMIT,
    ensures
        builder_ok(r) == builder_ok(rb),
        builder_ok(r) ==> builder_headers(r) == header_append(
            builder_headers(rb),
            "authorization"@,
            basic_credentials(username@, password@),
        ),
        builder_ok(r) ==> builder_params(r) == builder_params(rb),
        builder_ok(r) ==> builder_body(r) == builder_body(rb),
        builder_ok(r) ==> builder_multipart(r) == builder_multipart(rb),
        builder_header_count(r) <= builder_header_count(rb) + 1,
{
    rb.basic_auth(username, Some(password))
}

/// Relies on `RequestBuilder::bearer_auth`: appends the `Authorization`
/// header with the bearer value; a token with forbidden characters poisons
/// the builder instead. The caller keeps the header count under the map's
/// safe limit.
#[verifier::external_body]
fn transport_bearer_auth(rb: RequestBuilder, token: &str) -> (r: RequestBuilder)
    requires
        builder_header_count(rb) < TRANSPORT_HEADER_LIMIT,
    ensures
        builder_ok(r) == (builder_ok(rb) && valid_header_value(token@)),
        builder_ok(r) ==> builder_headers(r) == header_append(
            builder_headers(rb),
            "authorization"@,
            "Bearer "@ + token@,
        ),
        builder_ok(r) ==> builder_params(r) == builder_params(rb),
        builder_ok(r) ==> builder_body(r) == builder_body(rb),
        builder_ok(r) ==> builder_multipart(r) == builder_multipart(rb),
        builder_header_count(r) <= builder_header_count(rb) + 1,
{
    rb.bearer_auth(token)
}

/// Relies on `RequestBuilder::body`: sets the buffered body to the text,
/// verbatim; headers and query are untouched.
#[verifier::external_body]
fn transport_body_text(rb: RequestBuilder, content: String) -> (r: RequestBuilder)
    ensures
        builder_ok(r) == builder_ok(rb),
        builder_ok(r) ==> builder_body(r) == Option::Some(content@),
        builder_ok(r) ==> builder_multipart(r) is None,
        builder_ok(r) ==> builder_headers(r) == builder_headers(rb),
        builder_ok(r) ==> builder_params(r) == builder_params(rb),
        builder_header_count(r) == builder_header_count(rb),
{
    rb.body(content)
}

/// Relies on `RequestBuilder::form`: sets the buffered body to the
/// form-url-encoding of the pairs (which cannot fail for plain strings) and
/// adds the form content type only when none is present. The caller keeps
/// the header count under the map's safe limit.
#[verifier::external_body]
fn transport_form(rb: RequestBuilder, fields: &Vec<(String, String)>) -> (r: RequestBuilder)
    requires
        builder_header_count(rb) < TRANSPORT_HEADER_LIMIT,
    ensures
        builder_ok(r) == builder_ok(rb),
        builder_ok(r) ==> builder_body(r) == Option::Some(form_encoded(pairs_view(fields@))),
        builder_ok(r) ==> builder_multipart(r) is None,
        builder_ok(r) ==> builder_headers(r) == header_default(
            builder_headers(rb),
            "content-type"@,
            "application/x-www-form-urlencoded"@,
        ),
        builder_ok(r) ==> builder_params(r) == builder_params(rb),
        builder_header_count(r) <= builder_header_count(rb) + 1,
{
    rb.form(fields)
}

/// Relies on `reqwest::multipart::Form::new`: an empty multipart form.
#[verifier::external_body]
fn multipart_form_new() -> (r: reqwest::multipart::Form)
    ensures
        form_parts(r) == Seq::<(Seq<char>, Seq<char>)>::empty(),
{
    reqwest::multipart::Form::new()
}

/// Relies on `reqwest::multipart::Form::text`: adds one text part under the
/// given name.
#[verifier::external_body]
fn multipart_form_text(
    form: reqwest::multipart::Form,
    name: String,
    value: String,
) -> (r: reqwest::multipart::Form)
    ensures
        form_parts(r) == form_parts(form).push((name@, value@)),
{
    form.text(name, value)
}

/// Relies on `RequestBuilder::multipart`: appends the multipart content type
/// (with a fresh random boundary) and the computed content length, then sets
/// the form as the streaming body. The caller leaves room for both appends
/// under the map's safe limit.
#[verifier::external_body]
fn transport_multipart(rb: RequestBuilder, form: reqwest::multipart::Form) -> (r: RequestBuilder)
    requires
        builder_header_count(rb) + 2 <= TRANSPORT_HEADER_LIMIT,
    ensures
        builder_ok(r) == builder_ok(rb),
        builder_ok(r) ==> multipart_headers(builder_headers(rb), builder_headers(r)),
        builder_ok(r) ==> builder_multipart(r) == Option::Some(form_parts(form)),
        builder_ok(r) ==> builder_body(r) is None,
        builder_ok(r) ==> builder_params(r) == builder_params(rb),
        builder_header_count(r) <= builder_header_count(rb) + 2,
{
    rb.multipart(form)
}

/// Whether the entry's name is `content-type` up to ASCII case.
fn is_content_type_name(name: &String) -> (r: bool)
    ensures
        r == (ascii_lower(name@) == "content-type"@),
{
    proof {
        reveal_strlit("content-type");
    }
    let cs = to_chars(name.as_str());
    let ct = to_chars("content-type");
    if cs.len() != ct.len() {
        proof {
            assert(ascii_lower(name@).len() == name@.len());
        }
        return false;
    }
    let mut i: usize = 0;
    while i < cs.len()
        invariant
            cs@ == name@,
            ct@ == "content-type"@,
            cs@.len() == ct@.len(),
            i <= cs@.len(),
            forall|k: int| 0 <= k < i ==> lower_char(#[trigger] cs@[k]) == ct@[k],
        decreases cs@.len() - i,
    {
        let c = cs[i];
        let lc: char = if 'A' <= c && c <= 'Z' {
            ((c as u8) + 32) as char
        } else {
            c
        };
        proof {
            assert(lc == lower_char(cs@[i as int]));
        }
        if lc != ct[i] {
            proof {
                assert(ascii_lower(name@)[i as int] == lower_char(name@[i as int]));
            }
            return false;
        }
        i = i + 1;
    }
    proof {
        assert(ascii_lower(name@) =~= "content-type"@);
    }
    true
}

/// Whether any entry names the content type, as the transport's header map
/// would key it.
fn contains_content_type(entries: &Vec<(String, String)>) -> (r: bool)
    ensures
        r == has_header_named(entries@, "content-type"@),
{
    let mut i: usize = 0;
    proof {
        assert(entries@.take(0) =~= Seq::<(String, String)>::empty());
    }
    while i < entries.len()
        invariant
            i <= entries@.len(),
            !has_header_named(entries@.take(i as int), "content-type"@),
        decreases entries@.len() - i,
    {
        proof {
            assert(entries@.take(i + 1 as int).drop_last() =~= entries@.take(i as int));
            assert(entries@.take(i + 1 as int).last() == entries@[i as int]);
        }
        if is_content_type_name(&entries[i].0) {
            proof {
                assert(has_header_named(entries@.take(i + 1 as int), "content-type"@));
                lemma_has_header_extends(entries@, "content-type"@, i + 1 as int);
            }
            return true;
        }
        i = i + 1;
    }
    proof {
        assert(entries@.take(entries@.len() as int) =~= entries@);
    }
    false
}

/// The authentication step only ever touches the `authorization` entry.
proof fn lemma_auth_dom_content_type(m: Map<Seq<char>, Seq<Seq<char>>>, a: AuthConfig)
    ensures
        auth_header_map(m, a).dom().contains("content-type"@) == m.dom().contains(
            "content-type"@,
        ),
{
    reveal_strlit("content-type");
    reveal_strlit("authorization");
    assert("content-type"@.len() == 12);
    assert("authorization"@.len() == 13);
    match a {
        AuthConfig::NoAuth => {},
        AuthConfig::Basic { username, password } => {
            assert(header_append(
                m,
                "authorization"@,
                basic_credentials(username@, password@),
            ).dom() =~= m.dom().insert("authorization"@));
        },
        AuthConfig::Bearer { token } => {
            assert(header_append(m, "authorization"@, "Bearer "@ + token@).dom() =~= m.dom().insert(
                "authorization"@,
            ));
        },
    }
}

/// A name found in a prefix is found in the whole list.
proof fn lemma_has_header_extends(entries: Seq<(String, String)>, n: Seq<char>, k: int)
    requires
        0 <= k <= entries.len(),
        has_header_named(entries.take(k), n),
    ensures
        has_header_named(entries, n),
    decreases entries.len() - k,
{
    if k < entries.len() {
        assert(entries.take(k + 1).drop_last() =~= entries.take(k));
        assert(has_header_named(entries.take(k + 1), n));
        lemma_has_header_extends(entries, n, k + 1);
    } else {
        assert(entries.take(k) =~= entries);
    }
}

/// Translates a built wire request into the transport's request builder:
/// method and URL first, then each query pair, each header, the
/// authentication choice, and finally the body encoding. The header count is
/// kept under the transport map's safe limit, so no append can abort. The
/// builder stays intact exactly when the URL and every attached header are
/// parseable, and then carries the wire request's content and nothing else.
pub fn to_transport(client: &Client, w: &WireRequest) -> (r: RequestBuilder)
    requires
        valid_method(w.method@),
        w.headers@.len() + 4 <= TRANSPORT_HEADER_LIMIT,
    ensures
        builder_ok(r) == transport_ok(*w),
        builder_ok(r) ==> transport_attached(*w, r),
{
    proof {
        reveal_strlit("content-type");
        reveal_strlit("authorization");
        reveal_strlit("Content-Type");
        reveal_strlit("application/json");
        reveal_strlit("application/x-www-form-urlencoded");
    }
    let ghost base_auth = url_auth_headers(w.url@);
    let method = match parse_method(w.method.as_str()) {
        Option::Some(m) => m,
        Option::None => {
            proof {
                assert(false);
            }
            vstd::pervasive::unreached()
        },
    };
    let mut rb = transport_request(client, method, w.url.as_str());
    proof {
        assert(url_parses(w.url@) ==> (forall|n: Seq<char>|
            #[trigger] base_auth.dom().contains(n) ==> n == "authorization"@));
    }
    let mut i: usize = 0;
    proof {
        assert(pairs_view(w.params@.take(0)) =~= Seq::<(Seq<char>, Seq<char>)>::empty());
        assert(url_query_pairs(w.url@) + pairs_view(w.params@.take(0)) =~= url_query_pairs(
            w.url@,
        ));
    }
    while i < w.params.len()
        invariant
            i <= w.params@.len(),
            builder_ok(rb) == url_parses(w.url@),
            builder_ok(rb) ==> builder_params(rb) == url_query_pairs(w.url@) + pairs_view(
                w.params@.take(i as int),
            ),
            builder_ok(rb) ==> builder_headers(rb) == url_auth_headers(w.url@),
            builder_ok(rb) ==> builder_body(rb) is None,
            builder_ok(rb) ==> builder_multipart(rb) is None,
            builder_header_count(rb) <= 1,
        decreases w.params@.len() - i,
    {
        rb = transport_query(rb, w.params[i].0.as_str(), w.params[i].1.as_str());
        proof {
            if builder_ok(rb) {
                assert(url_query_pairs(w.url@) + pairs_view(w.params@.take(i + 1 as int)) =~= (
                url_query_pairs(w.url@) + pairs_view(w.params@.take(i as int))).push(
                    (w.params@[i as int].0@, w.params@[i as int].1@),
                ));
            }
        }
        i = i + 1;
    }
    proof {
        assert(w.params@.take(w.params@.len() as int) =~= w.params@);
    }
    let mut j: usize = 0;
    proof {
        assert(w.headers@.take(0) =~= Seq::<(String, String)>::empty());
    }
    while j < w.headers.len()
        invariant
            j <= w.headers@.len(),
            w.headers@.len() + 4 <= TRANSPORT_HEADER_LIMIT,
            builder_ok(rb) == (url_parses(w.url@) && headers_well_formed(
                w.headers@.take(j as int),
            )),
            builder_ok(rb) ==> builder_params(rb) == url_query_pairs(w.url@) + pairs_view(
                w.params@,
            ),
            builder_ok(rb) ==> builder_headers(rb) == attached_header_map(
                url_auth_headers(w.url@),
                w.headers@.take(j as int),
            ),
            builder_ok(rb) ==> builder_body(rb) is None,
            builder_ok(rb) ==> builder_multipart(rb) is None,
            builder_header_count(rb) <= 1 + j,
        decreases w.headers@.len() - j,
    {
        let ghost pre = w.headers@.take(j as int);
        rb = transport_header(rb, w.headers[j].0.as_str(), w.headers[j].1.as_str());
        proof {
            assert(w.headers@.take(j + 1 as int).drop_last() =~= pre);
            assert(w.headers@.take(j + 1 as int).last() == w.headers@[j as int]);
            assert(headers_well_formed(w.headers@.take(j + 1 as int)) == (headers_well_formed(pre)
                && valid_header_name(w.headers@[j as int].0@) && valid_header_value(
                w.headers@[j as int].1@,
            ))) by {
                if headers_well_formed(pre) && valid_header_name(w.headers@[j as int].0@)
                    && valid_header_value(w.headers@[j as int].1@) {
                    assert forall|k: int| 0 <= k < w.headers@.take(j + 1 as int).len() implies {
                        valid_header_name(
                            (#[trigger] w.headers@.take(j + 1 as int)[k]).0@,
                        ) && valid_header_value(w.headers@.take(j + 1 as int)[k].1@)
                    } by {
                        if k < j {
                            assert(w.headers@.take(j + 1 as int)[k] == pre[k]);
                        } else {
                            assert(w.headers@.take(j + 1 as int)[k] == w.headers@[j as int]);
                        }
                    }
                }
            }
        }
        j = j + 1;
    }
    proof {
        assert(w.headers@.take(w.headers@.len() as int) =~= w.headers@);
    }
    let ghost attached = attached_header_map(url_auth_headers(w.url@), w.headers@);
    rb = match &w.auth {
        AuthConfig::NoAuth => rb,
        AuthConfig::Basic { username, password } => transport_basic_auth(
            rb,
            username.as_str(),
            password.as_str(),
        ),
        AuthConfig::Bearer { token } => transport_bearer_auth(rb, token.as_str()),
    };
    proof {
        assert(builder_ok(rb) == (url_parses(w.url@) && headers_well_formed(w.headers@)
            && wire_auth_ok(w.auth)));
        assert(builder_ok(rb) ==> builder_headers(rb) == wire_header_base(*w));
    }
    let ghost base = wire_header_base(*w);
    match &w.body {
        WireBody::Empty => rb,
        WireBody::Raw { mime, content } => {
            let rb2 = transport_header(rb, "Content-Type", mime.as_str());
            proof {
                reveal_strlit("Content-Type");
                reveal_strlit("content-type");
                assert(valid_header_name("Content-Type"@)) by {
                    assert forall|k: int|
                        0 <= k < "Content-Type"@.len() implies is_token_char(
                        #[trigger] "Content-Type"@[k],
                    ) by {}
                }
                assert(ascii_lower("Content-Type"@) =~= "content-type"@);
            }
            transport_body_text(rb2, content.clone())
        },
        WireBody::Json { text } => {
            let rb2 = if contains_content_type(&w.headers) {
                proof {
                    reveal_strlit("content-type");
                    if builder_ok(rb) {
                        lemma_attached_dom(
                            url_auth_headers(w.url@),
                            w.headers@,
                            "content-type"@,
                        );
                        lemma_auth_dom_content_type(attached, w.auth);
                        assert(attached.dom().contains("content-type"@));
                        assert(base.dom().contains("content-type"@));
                        assert(header_default(base, "content-type"@, "application/json"@)
                            == base);
                    }
                }
                rb
            } else {
                proof {
                    reveal_strlit("content-type");
                    reveal_strlit("authorization");
                    reveal_strlit("Content-Type");
                    reveal_strlit("application/json");
                    if builder_ok(rb) {
                        lemma_attached_dom(
                            url_auth_headers(w.url@),
                            w.headers@,
                            "content-type"@,
                        );
                        lemma_auth_dom_content_type(attached, w.auth);
                        assert("content-type"@.len() == 12);
                        assert("authorization"@.len() == 13);
                        assert("content-type"@ != "authorization"@);
                        assert(!base_auth.dom().contains("content-type"@));
                        assert(!attached.dom().contains("content-type"@));
                        assert(!base.dom().contains("content-type"@));
                    }
                    assert(valid_header_name("Content-Type"@)) by {
                        assert forall|k: int|
                            0 <= k < "Content-Type"@.len() implies is_token_char(
                            #[trigger] "Content-Type"@[k],
                        ) by {}
                    }
                    assert(valid_header_value("application/json"@)) by {
                        assert forall|k: int|
                            0 <= k < "application/json"@.len() implies is_value_char(
                            #[trigger] "application/json"@[k],
                        ) by {}
                    }
                    assert(ascii_lower("Content-Type"@) =~= "content-type"@);
                }
                transport_header(rb, "Content-Type", "application/json")
            };
            proof {
                assert(builder_ok(rb2) ==> builder_headers(rb2) == header_default(
                    base,
                    "content-type"@,
                    "application/json"@,
                ));
            }
            transport_body_text(rb2, text.clone())
        },
        WireBody::Form { fields } => transport_form(rb, fields),
        WireBody::Multipart { fields } => {
            let mut form = multipart_form_new();
            let mut k: usize = 0;
            proof {
                assert(pairs_view(fields@.take(0)) =~= Seq::<(Seq<char>, Seq<char>)>::empty());
            }
            while k < fields.len()
                invariant
                    k <= fields@.len(),
                    form_parts(form) == pairs_view(fields@.take(k as int)),
                decreases fields@.len() - k,
            {
                form = multipart_form_text(form, fields[k].0.clone(), fields[k].1.clone());
                proof {
                    assert(pairs_view(fields@.take(k + 1 as int)) =~= pairs_view(
                        fields@.take(k as int),
                    ).push((fields@[k as int].0@, fields@[k as int].1@)));
                }
                k = k + 1;
            }
            proof {
                assert(fields@.take(fields@.len() as int) =~= fields@);
            }
            transport_multipart(rb, form)
        },
    }
}

} // verus!
