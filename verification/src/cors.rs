//! The cross-origin policy of the server: every configured origin, method and header
//! is checked before the policy is built.
use vstd::prelude::*;
use vstd::string::StringExecFns;
use axum::http::header::{HeaderName, HeaderValue, InvalidHeaderName, InvalidHeaderValue};
use axum::http::method::InvalidMethod;
use axum::http::Method;
use tower_http::cors::CorsLayer;
use crate::config::CorsConfig;
use crate::text::ascii_lowercase;

verus! {

broadcast use vstd::string::group_string_axioms;

/// `http::HeaderValue` (through `axum::http`), carried opaque.
#[verifier::external_type_specification]
#[verifier::external_body]
pub struct ExHeaderValue(HeaderValue);

/// `http::header::InvalidHeaderValue`, the error of a header value that does not parse; opaque.
#[verifier::external_type_specification]
#[verifier::external_body]
pub struct ExInvalidHeaderValue(InvalidHeaderValue);

/// `http::Method`, carried opaque.
#[verifier::external_type_specification]
#[verifier::external_body]
pub struct ExMethod(Method);

/// `http::method::InvalidMethod`, the error of a method that does not parse; opaque.
#[verifier::external_type_specification]
#[verifier::external_body]
pub struct ExInvalidMethod(InvalidMethod);

/// `http::HeaderName`, carried opaque.
#[verifier::external_type_specification]
#[verifier::external_body]
pub struct ExHeaderName(HeaderName);

/// `http::header::InvalidHeaderName`, the error of a header name that does not parse; opaque.
#[verifier::external_type_specification]
#[verifier::external_body]
pub struct ExInvalidHeaderName(InvalidHeaderName);

/// `tower_http::cors::CorsLayer`, the cross-origin policy handed to the router; opaque.
#[verifier::external_type_specification]
#[verifier::external_body]
pub struct ExCorsLayer(CorsLayer);

/// A character that may stand in a header value: anything from the space on except
/// DEL, or a tab. (Beyond ASCII every byte of a character's encoding is 128 or more.)
pub open spec fn header_value_char(c: char) -> bool {
    ((c as u32) >= 32 && (c as u32) != 127) || c == '\t'
}

/// Whether `s` parses as a header value.
pub open spec fn header_value_ok(s: Seq<char>) -> bool {
    forall|i: int| 0 <= i < s.len() ==> header_value_char(#[trigger] s[i])
}

/// A token character of HTTP: an ASCII letter or digit, or one of
/// `` !#$%&'*+-.^_`|~ ``.
pub open spec fn is_token_char(c: char) -> bool {
    ||| 'a' <= c <= 'z'
    ||| 'A' <= c <= 'Z'
    ||| '0' <= c <= '9'
    ||| c == '!' || c == '#' || c == '$' || c == '%' || c == '&' || c == '\''
    ||| c == '*' || c == '+' || c == '-' || c == '.' || c == '^' || c == '_'
    ||| c == '`' || c == '|' || c == '~'
}

/// Whether `s` parses as a method: a non-empty run of token characters.
pub open spec fn method_ok(s: Seq<char>) -> bool {
    &&& s.len() > 0
    &&& forall|i: int| 0 <= i < s.len() ==> is_token_char(#[trigger] s[i])
}

/// Whether `s` parses as a header name: a token of 1 to 65535 characters.
pub open spec fn header_name_ok(s: Seq<char>) -> bool {
    &&& 0 < s.len() <= 65535
    &&& forall|i: int| 0 <= i < s.len() ==> is_token_char(#[trigger] s[i])
}

/// The text a header value holds (`HeaderValue::as_bytes`, read as characters).
pub uninterp spec fn header_value_text(v: HeaderValue) -> Seq<char>;

/// The text of a method (`Method::as_str`).
pub uninterp spec fn method_text(m: Method) -> Seq<char>;

/// The text of a header name (`HeaderName::as_str`).
pub uninterp spec fn header_name_text(h: HeaderName) -> Seq<char>;

/// What a cross-origin policy holds: its allowed origins, methods and headers, in the
/// order they were given, its max age in seconds, and whether credentials are allowed.
pub uninterp spec fn cors_policy(l: CorsLayer) -> (
    Seq<HeaderValue>,
    Seq<Method>,
    Seq<HeaderName>,
    Option<u64>,
    bool,
);

/// `HeaderValue::from_str`: succeeds exactly when every byte of `s` is a tab or at least
/// 32 and not 127, which for the characters of a string is `header_value_ok`; the value
/// holds the bytes of `s`.
#[verifier::external_body]
fn parse_header_value(s: &str) -> (r: Result<HeaderValue, InvalidHeaderValue>)
    ensures
        r is Ok <==> header_value_ok(s@),
        r matches Ok(v) ==> header_value_text(v) == s@,
{
    HeaderValue::from_str(s)
}

/// `Method::from_str`: succeeds exactly when every byte of `s` is a token byte and
/// there is at least one (`Method::from_bytes`); a known method and an extension alike
/// keep the text of `s`.
#[verifier::external_body]
fn parse_method(s: &str) -> (r: Result<Method, InvalidMethod>)
    ensures
        r is Ok <==> method_ok(s@),
        r matches Ok(m) ==> method_text(m) == s@,
{
    s.parse::<Method>()
}

/// `HeaderName::from_str`: succeeds exactly when `s` has 1 to 65535 bytes, each a token
/// byte (`HeaderName::from_bytes`); the name holds `s` with ASCII capitals made small.
#[verifier::external_body]
fn parse_header_name(s: &str) -> (r: Result<HeaderName, InvalidHeaderName>)
    ensures
        r is Ok <==> header_name_ok(s@),
        r matches Ok(h) ==> header_name_text(h) == ascii_lowercase(s@),
{
    s.parse::<HeaderName>()
}

/// `CorsLayer::new`: a policy that allows no origin, method or header, sets no max
/// age and does not allow credentials.
#[verifier::external_body]
fn new_cors_layer() -> (r: CorsLayer)
    ensures
        cors_policy(r) == (
            Seq::<HeaderValue>::empty(),
            Seq::<Method>::empty(),
            Seq::<HeaderName>::empty(),
            None::<u64>,
            false,
        ),
{
    CorsLayer::new()
}

/// `CorsLayer::allow_origin` with a list of origins (`AllowOrigin::list`), which
/// replaces the allowed origins. The list must not hold the wildcard `*`: on it,
/// `AllowOrigin::list` panics.
#[verifier::external_body]
fn allow_origins(layer: CorsLayer, origins: Vec<HeaderValue>) -> (r: CorsLayer)
    requires
        forall|i: int| 0 <= i < origins@.len() ==> header_value_text(#[trigger] origins@[i]) != "*"@,
    ensures
        cors_policy(r) == (
            origins@,
            cors_policy(layer).1,
            cors_policy(layer).2,
            cors_policy(layer).3,
            cors_policy(layer).4,
        ),
{
    layer.allow_origin(origins)
}

/// `CorsLayer::allow_methods` with a list of methods, which replaces the allowed
/// methods.
#[verifier::external_body]
fn allow_methods(layer: CorsLayer, methods: Vec<Method>) -> (r: CorsLayer)
    ensures
        cors_policy(r) == (
            cors_policy(layer).0,
            methods@,
            cors_policy(layer).2,
            cors_policy(layer).3,
            cors_policy(layer).4,
        ),
{
    layer.allow_methods(methods)
}

/// `CorsLayer::allow_headers` with a list of header names, which replaces the allowed
/// headers.
#[verifier::external_body]
fn allow_headers(layer: CorsLayer, headers: Vec<HeaderName>) -> (r: CorsLayer)
    ensures
        cors_policy(r) == (
            cors_policy(layer).0,
            cors_policy(layer).1,
            headers@,
            cors_policy(layer).3,
            cors_policy(layer).4,
        ),
{
    layer.allow_headers(headers)
}

/// `CorsLayer::max_age` with a number of seconds, which replaces the max age.
#[verifier::external_body]
fn with_max_age(layer: CorsLayer, seconds: u64) -> (r: CorsLayer)
    ensures
        cors_policy(r) == (
            cors_policy(layer).0,
            cors_policy(layer).1,
            cors_policy(layer).2,
            Some(seconds),
            cors_policy(layer).4,
        ),
{
    layer.max_age(std::time::Duration::from_secs(seconds))
}

/// `CorsLayer::allow_credentials(true)`, which allows credentials.
#[verifier::external_body]
fn with_credentials(layer: CorsLayer) -> (r: CorsLayer)
    ensures
        cors_policy(r) == (
            cors_policy(layer).0,
            cors_policy(layer).1,
            cors_policy(layer).2,
            cors_policy(layer).3,
            true,
        ),
{
    layer.allow_credentials(true)
}

/// A setting of the cross-origin policy that does not parse.
#[derive(Debug, Clone, PartialEq, Eq)]
pub enum CorsError {
    /// An allowed origin that is not a valid header value.
    InvalidOrigin { value: String },
    /// An allowed method that is not a valid method.
    InvalidMethod { value: String },
    /// An allowed header that is not a valid header name.
    InvalidHeader { value: String },
}

/// The message of a policy error, as the parser of the setting words it.
pub open spec fn cors_error_message(e: CorsError) -> Seq<char> {
    match e {
        CorsError::InvalidOrigin { .. } => "failed to parse header value"@,
        CorsError::InvalidMethod { .. } => "invalid HTTP method"@,
        CorsError::InvalidHeader { .. } => "invalid HTTP header name"@,
    }
}

impl CorsError {
    /// The message of the error.
    pub fn message(&self) -> (r: &'static str)
        ensures
            r@ == cors_error_message(*self),
    {
        match self {
            CorsError::InvalidOrigin { .. } => "failed to parse header value",
            CorsError::InvalidMethod { .. } => "invalid HTTP method",
            CorsError::InvalidHeader { .. } => "invalid HTTP header name",
        }
    }
}

/// The position of the first setting in `v` that `ok` rejects.
pub open spec fn first_rejected(v: Seq<String>, ok: spec_fn(Seq<char>) -> bool) -> Option<int>
    decreases v.len(),
{
    if v.len() == 0 {
        None
    } else {
        match first_rejected(v.drop_last(), ok) {
            Some(i) => Some(i),
            None => if !ok(v.last()@) {
                Some(v.len() - 1)
            } else {
                None
            },
        }
    }
}

/// The check of an allowed origin.
pub open spec fn origin_check() -> spec_fn(Seq<char>) -> bool {
    |s: Seq<char>| header_value_ok(s)
}

/// The check of an allowed method.
pub open spec fn method_check() -> spec_fn(Seq<char>) -> bool {
    |s: Seq<char>| method_ok(s)
}

/// The check of an allowed header.
pub open spec fn header_check() -> spec_fn(Seq<char>) -> bool {
    |s: Seq<char>| header_name_ok(s)
}

/// The error of a policy: its first origin that does not parse, else its first method
/// that does not parse, else its first header that does not parse; `None` when all do.
pub open spec fn cors_error_of(c: CorsConfig) -> Option<CorsError> {
    match first_rejected(c.allowed_origins@, origin_check()) {
        Some(i) => Some(CorsError::InvalidOrigin { value: c.allowed_origins@[i] }),
        None => match first_rejected(c.allowed_methods@, method_check()) {
            Some(i) => Some(CorsError::InvalidMethod { value: c.allowed_methods@[i] }),
            None => match first_rejected(c.allowed_headers@, header_check()) {
                Some(i) => Some(CorsError::InvalidHeader { value: c.allowed_headers@[i] }),
                None => None,
            },
        },
    }
}

proof fn lemma_first_rejected_step(v: Seq<String>, ok: spec_fn(Seq<char>) -> bool, i: int)
    requires
        0 <= i < v.len(),
        first_rejected(v.take(i), ok) is None,
    ensures
        first_rejected(v.take(i + 1), ok) == if ok(v[i]@) {
            None
        } else {
            Some(i)
        },
{
    assert(v.take(i + 1).drop_last() =~= v.take(i));
}

proof fn lemma_first_rejected_prefix(v: Seq<String>, ok: spec_fn(Seq<char>) -> bool, n: int)
    requires
        0 <= n <= v.len(),
        first_rejected(v.take(n), ok) is Some,
    ensures
        first_rejected(v, ok) == first_rejected(v.take(n), ok),
    decreases v.len(),
{
    if v.len() == n {
        assert(v.take(n) =~= v);
    } else {
        assert(v.drop_last().take(n) =~= v.take(n));
        lemma_first_rejected_prefix(v.drop_last(), ok, n);
    }
}

/// The policy `p` is the one `c` describes: its origins, methods and headers in order
/// (header names with ASCII capitals made small), `c.max_age` seconds, and credentials
/// exactly when `c` allows them.
pub open spec fn policy_of_config(
    p: (Seq<HeaderValue>, Seq<Method>, Seq<HeaderName>, Option<u64>, bool),
    c: CorsConfig,
) -> bool {
    &&& p.0.len() == c.allowed_origins@.len()
    &&& forall|i: int|
        0 <= i < p.0.len() ==> header_value_text(#[trigger] p.0[i]) == c.allowed_origins@[i]@
    &&& p.1.len() == c.allowed_methods@.len()
    &&& forall|i: int|
        0 <= i < p.1.len() ==> method_text(#[trigger] p.1[i]) == c.allowed_methods@[i]@
    &&& p.2.len() == c.allowed_headers@.len()
    &&& forall|i: int|
        0 <= i < p.2.len() ==> header_name_text(#[trigger] p.2[i]) == ascii_lowercase(
            c.allowed_headers@[i]@,
        )
    &&& p.3 == Some(c.max_age)
    &&& p.4 == c.allow_credentials
}

/// The parsed settings of a cross-origin policy.
#[derive(Debug)]
pub struct CorsSettings {
    pub origins: Vec<HeaderValue>,
    pub methods: Vec<Method>,
    pub headers: Vec<HeaderName>,
}

/// `p` holds the parsed settings of `c`: its origins, methods and headers in order
/// (header names with ASCII capitals made small).
pub open spec fn settings_of_config(p: CorsSettings, c: CorsConfig) -> bool {
    &&& p.origins@.len() == c.allowed_origins@.len()
    &&& forall|i: int|
        0 <= i < p.origins@.len() ==> header_value_text(#[trigger] p.origins@[i])
            == c.allowed_origins@[i]@
    &&& p.methods@.len() == c.allowed_methods@.len()
    &&& forall|i: int|
        0 <= i < p.methods@.len() ==> method_text(#[trigger] p.methods@[i])
            == c.allowed_methods@[i]@
    &&& p.headers@.len() == c.allowed_headers@.len()
    &&& forall|i: int|
        0 <= i < p.headers@.len() ==> header_name_text(#[trigger] p.headers@[i])
            == ascii_lowercase(c.allowed_headers@[i]@)
}

/// Parses the origins, methods and headers of a policy. Fails on the first setting that
/// does not parse: origins first, then methods, then headers.
pub fn parse_cors_settings(config: &CorsConfig) -> (r: Result<CorsSettings, CorsError>)
    ensures
        r is Ok <==> cors_error_of(*config) is None,
        r matches Err(e) ==> cors_error_of(*config) == Some(e),
        r matches Ok(p) ==> settings_of_config(p, *config),
{
    let mut origins: Vec<HeaderValue> = Vec::new();
    let mut i: usize = 0;
    while i < config.allowed_origins.len()
        invariant
            i <= config.allowed_origins@.len(),
            first_rejected(config.allowed_origins@.take(i as int), origin_check()) is None,
            origins@.len() == i,
            forall|x: int|
                0 <= x < i ==> header_value_text(#[trigger] origins@[x])
                    == config.allowed_origins@[x]@,
        decreases config.allowed_origins@.len() - i,
    {
        proof {
            lemma_first_rejected_step(config.allowed_origins@, origin_check(), i as int);
        }
        match parse_header_value(config.allowed_origins[i].as_str()) {
            Ok(v) => origins.push(v),
            Err(_) => {
                proof {
                    lemma_first_rejected_prefix(config.allowed_origins@, origin_check(), i + 1);
                }
                return Err(CorsError::InvalidOrigin { value: config.allowed_origins[i].clone() });
            },
        }
        i += 1;
    }
    assert(config.allowed_origins@.take(i as int) =~= config.allowed_origins@);
    let mut methods: Vec<Method> = Vec::new();
    let mut j: usize = 0;
    while j < config.allowed_methods.len()
        invariant
            j <= config.allowed_methods@.len(),
            first_rejected(config.allowed_methods@.take(j as int), method_check()) is None,
            first_rejected(config.allowed_origins@, origin_check()) is None,
            methods@.len() == j,
            forall|x: int|
                0 <= x < j ==> method_text(#[trigger] methods@[x]) == config.allowed_methods@[x]@,
        decreases config.allowed_methods@.len() - j,
    {
        proof {
            lemma_first_rejected_step(config.allowed_methods@, method_check(), j as int);
        }
        match parse_method(config.allowed_methods[j].as_str()) {
            Ok(m) => methods.push(m),
            Err(_) => {
                proof {
                    lemma_first_rejected_prefix(config.allowed_methods@, method_check(), j + 1);
                }
                return Err(CorsError::InvalidMethod { value: config.allowed_methods[j].clone() });
            },
        }
        j += 1;
    }
    assert(config.allowed_methods@.take(j as int) =~= config.allowed_methods@);
    let mut headers: Vec<HeaderName> = Vec::new();
    let mut k: usize = 0;
    while k < config.allowed_headers.len()
        invariant
            k <= config.allowed_headers@.len(),
            first_rejected(config.allowed_headers@.take(k as int), header_check()) is None,
            first_rejected(config.allowed_origins@, origin_check()) is None,
            first_rejected(config.allowed_methods@, method_check()) is None,
            headers@.len() == k,
            forall|x: int|
                0 <= x < k ==> header_name_text(#[trigger] headers@[x]) == ascii_lowercase(
                    config.allowed_headers@[x]@,
                ),
        decreases config.allowed_headers@.len() - k,
    {
        proof {
            lemma_first_rejected_step(config.allowed_headers@, header_check(), k as int);
        }
        match parse_header_name(config.allowed_headers[k].as_str()) {
            Ok(h) => headers.push(h),
            Err(_) => {
                proof {
                    lemma_first_rejected_prefix(config.allowed_headers@, header_check(), k + 1);
                }
                return Err(CorsError::InvalidHeader { value: config.allowed_headers[k].clone() });
            },
        }
        k += 1;
    }
    assert(config.allowed_headers@.take(k as int) =~= config.allowed_headers@);
    Ok(CorsSettings { origins, methods, headers })
}

/// Builds the cross-origin policy of the configuration: its origins, methods and
/// headers, its max age, and credentials when allowed. Fails on the first setting that
/// does not parse: origins first, then methods, then headers. When every setting parses,
/// no origin may be the wildcard `*`. A policy that allows credentials with `*` as its
/// only method or only header is built all the same; tower-http refuses it when the
/// router applies it.
pub fn build_cors_layer(config: &CorsConfig) -> (r: Result<CorsLayer, CorsError>)
    requires
        cors_error_of(*config) is None ==> forall|i: int|
            0 <= i < config.allowed_origins@.len() ==> (#[trigger] config.allowed_origins@[i])@
                != "*"@,
    ensures
        r is Ok <==> cors_error_of(*config) is None,
        r matches Err(e) ==> cors_error_of(*config) == Some(e),
        r matches Ok(l) ==> policy_of_config(cors_policy(l), *config),
{
    let settings = parse_cors_settings(config)?;
    let CorsSettings { origins, methods, headers } = settings;
    assert forall|x: int| 0 <= x < origins@.len() implies header_value_text(
        #[trigger] origins@[x],
    ) != "*"@ by {
        assert(config.allowed_origins@[x]@ != "*"@);
    }
    let layer = new_cors_layer();
    let layer = allow_origins(layer, origins);
    let layer = allow_methods(layer, methods);
    let layer = allow_headers(layer, headers);
    let layer = with_max_age(layer, config.max_age);
    let layer = if config.allow_credentials {
        with_credentials(layer)
    } else {
        layer
    };
    Ok(layer)
}

} // verus!
