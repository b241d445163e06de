//! Configuration read from environment-style key/value pairs.
use vstd::prelude::*;
use vstd::string::StringExecFns;
use crate::provider::{parse_provider, provider_named, ModelProvider, UnknownProvider};
use crate::str_map::StrMap;
use crate::text::{
    chars_of, decimal, lowered, parse_unsigned, parse_unsigned_exec, push_char, push_decimal,
    str_eq, string_of_range, to_lowercase, trim, trim_bounds,
};

verus! {

broadcast use vstd::string::group_string_axioms;

/// The views of a list of strings.
pub open spec fn views(v: Seq<String>) -> Seq<Seq<char>> {
    v.map_values(|x: String| x@)
}

/// The text stored under `key`, or `default` when the key is absent.
pub open spec fn value_or(values: Map<Seq<char>, String>, key: Seq<char>, default: Seq<char>) -> Seq<
    char,
> {
    if values.contains_key(key) {
        values[key]@
    } else {
        default
    }
}

/// The text stored under `key`, or `default`.
pub fn get_or(values: &StrMap<String>, key: &str, default: &str) -> (r: String)
    ensures
        r@ == value_or(values@, key@, default@),
{
    match values.get(key) {
        Some(v) => v.clone(),
        None => String::from_str(default),
    }
}

// ---------------------------------------------------------------------------
// Comma-separated lists.
// ---------------------------------------------------------------------------
/// The pieces of `s` between the separators `c` (`str::split`); there is always at
/// least one piece.
pub open spec fn split_on(s: Seq<char>, c: char) -> Seq<Seq<char>>
    decreases s.len(),
{
    if s.len() == 0 {
        seq![Seq::<char>::empty()]
    } else {
        let rest = split_on(s.drop_last(), c);
        if s.last() == c {
            rest.push(Seq::empty())
        } else {
            rest.update(rest.len() - 1, rest.last().push(s.last()))
        }
    }
}

/// The pieces, trimmed, without the ones that are empty once trimmed.
pub open spec fn list_items(pieces: Seq<Seq<char>>) -> Seq<Seq<char>>
    decreases pieces.len(),
{
    if pieces.len() == 0 {
        Seq::empty()
    } else {
        let rest = list_items(pieces.drop_last());
        let t = trim(pieces.last());
        if t.len() > 0 {
            rest.push(t)
        } else {
            rest
        }
    }
}

/// The comma-separated items of `s`, trimmed, without empty ones.
pub open spec fn comma_list(s: Seq<char>) -> Seq<Seq<char>> {
    list_items(split_on(s, ','))
}

/// The list stored under `key`, or `default` when the key is absent.
pub open spec fn list_or(values: Map<Seq<char>, String>, key: Seq<char>, default: Seq<Seq<char>>) -> Seq<
    Seq<char>,
> {
    if values.contains_key(key) {
        comma_list(values[key]@)
    } else {
        default
    }
}

proof fn lemma_split_nonempty(s: Seq<char>, c: char)
    ensures
        split_on(s, c).len() >= 1,
    decreases s.len(),
{
    if s.len() > 0 {
        lemma_split_nonempty(s.drop_last(), c);
    }
}

/// The comma-separated items of `text`, trimmed, without empty ones.
pub fn comma_items(text: &str) -> (r: Vec<String>)
    ensures
        views(r@) == comma_list(text@),
{
    let v = chars_of(text);
    let ghost s = v@;
    let mut out: Vec<String> = Vec::new();
    let mut cur: Vec<char> = Vec::new();
    let mut i: usize = 0;
    proof {
        assert(s.take(0) =~= Seq::<char>::empty());
    }
    while i < v.len()
        invariant
            s == v@,
            i <= s.len(),
            split_on(s.take(i as int), ',').len() >= 1,
            cur@ == split_on(s.take(i as int), ',').last(),
            views(out@) == list_items(split_on(s.take(i as int), ',').drop_last()),
        decreases s.len() - i,
    {
        let c = v[i];
        let ghost p = split_on(s.take(i as int), ',');
        proof {
            assert(s.take(i + 1).drop_last() =~= s.take(i as int));
            lemma_split_nonempty(s.take(i + 1), ',');
        }
        if c == ',' {
            let (lo, hi) = trim_bounds(&cur);
            if lo < hi {
                let item = string_of_range(&cur, lo, hi);
                out.push(item);
            }
            proof {
                let q = split_on(s.take(i + 1), ',');
                assert(q =~= p.push(Seq::empty()));
                assert(q.drop_last() =~= p);
                assert(p.drop_last() =~= p.drop_last());
                assert(views(out@) =~= list_items(q.drop_last()));
            }
            cur = Vec::new();
            proof {
                assert(cur@ =~= split_on(s.take(i + 1), ',').last());
            }
        } else {
            cur.push(c);
            proof {
                let q = split_on(s.take(i + 1), ',');
                assert(q =~= p.update(p.len() - 1, p.last().push(c)));
                assert(q.drop_last() =~= p.drop_last());
                assert(cur@ =~= q.last());
            }
        }
        i += 1;
    }
    proof {
        assert(s.take(s.len() as int) =~= s);
    }
    let (lo, hi) = trim_bounds(&cur);
    if lo < hi {
        let item = string_of_range(&cur, lo, hi);
        out.push(item);
    }
    proof {
        let p = split_on(s, ',');
        assert(p.drop_last().push(p.last()) =~= p);
        assert(views(out@) =~= list_items(p));
    }
    out
}

/// The strings of `items`, as owned strings.
pub fn owned_list(items: &[&str]) -> (r: Vec<String>)
    ensures
        views(r@) == items@.map_values(|x: &str| x@),
{
    let mut r: Vec<String> = Vec::new();
    let mut i: usize = 0;
    while i < items.len()
        invariant
            i <= items@.len(),
            r@.len() == i,
            views(r@) == items@.take(i as int).map_values(|x: &str| x@),
        decreases items@.len() - i,
    {
        let item = String::from_str(items[i]);
        let ghost before = r@;
        r.push(item);
        proof {
            let lhs = views(r@);
            let rhs = items@.take(i + 1).map_values(|x: &str| x@);
            assert(lhs.len() == rhs.len());
            assert forall|j: int| 0 <= j < lhs.len() implies lhs[j] == rhs[j] by {
                if j < i {
                    assert(r@[j] == before[j]);
                    assert(views(before)[j] == items@.take(i as int).map_values(|x: &str| x@)[j]);
                } else {
                    assert(r@[j] == item);
                }
            }
            assert(lhs =~= rhs);
        }
        i += 1;
    }
    assert(items@.take(items@.len() as int) =~= items@);
    r
}

/// The list stored under `key` as comma-separated items, or `default` when the key is
/// absent.
pub fn value_list(values: &StrMap<String>, key: &str, default: &[&str]) -> (r: Vec<String>)
    ensures
        views(r@) == list_or(values@, key@, default@.map_values(|x: &str| x@)),
{
    match values.get(key) {
        Some(v) => comma_items(v.as_str()),
        None => owned_list(default),
    }
}

// ---------------------------------------------------------------------------
// Model configuration.
// ---------------------------------------------------------------------------
/// Connection settings of one OpenAI-compatible provider.
#[derive(Debug)]
pub struct ProviderConfig {
    pub api_key: Option<String>,
    pub base_url: String,
    pub model: String,
    pub max_tokens: u32,
}

impl Clone for ProviderConfig {
    fn clone(&self) -> (r: Self)
        ensures
            r == *self,
    {
        let api_key = match &self.api_key {
            Some(k) => Some(k.clone()),
            None => None,
        };
        ProviderConfig {
            api_key,
            base_url: self.base_url.clone(),
            model: self.model.clone(),
            max_tokens: self.max_tokens,
        }
    }
}

/// The token limit used for every provider.
pub const DEFAULT_MAX_TOKENS: u32 = 8192;

/// Whether `c` holds the settings read from `values` under the three keys, with the
/// given defaults for the base URL and the model.
pub open spec fn provider_config_from(
    c: ProviderConfig,
    values: Map<Seq<char>, String>,
    api_key: Seq<char>,
    base_url: Seq<char>,
    model: Seq<char>,
    default_url: Seq<char>,
    default_model: Seq<char>,
) -> bool {
    &&& (c.api_key is Some <==> values.contains_key(api_key))
    &&& (c.api_key matches Some(k) ==> k@ == values[api_key]@)
    &&& c.base_url@ == value_or(values, base_url, default_url)
    &&& c.model@ == value_or(values, model, default_model)
    &&& c.max_tokens == DEFAULT_MAX_TOKENS
}

fn provider_config(
    values: &StrMap<String>,
    api_key: &str,
    base_url: &str,
    model: &str,
    default_url: &str,
    default_model: &str,
) -> (r: ProviderConfig)
    ensures
        provider_config_from(r, values@, api_key@, base_url@, model@, default_url@, default_model@),
{
    let key = match values.get(api_key) {
        Some(k) => Some(k.clone()),
        None => None,
    };
    ProviderConfig {
        api_key: key,
        base_url: get_or(values, base_url, default_url),
        model: get_or(values, model, default_model),
        max_tokens: DEFAULT_MAX_TOKENS,
    }
}

/// Which providers serve the main and the vision model, and how to reach each one.
#[derive(Debug)]
pub struct ModelConfig {
    pub main_provider: ModelProvider,
    pub vision_provider: ModelProvider,
    pub deepseek: ProviderConfig,
    pub glm: ProviderConfig,
    pub qwen: ProviderConfig,
}

impl Clone for ModelConfig {
    fn clone(&self) -> (r: Self)
        ensures
            r == *self,
    {
        ModelConfig {
            main_provider: self.main_provider,
            vision_provider: self.vision_provider,
            deepseek: self.deepseek.clone(),
            glm: self.glm.clone(),
            qwen: self.qwen.clone(),
        }
    }
}

/// The provider named under `key` (default `mock`), ignoring case.
pub open spec fn provider_setting(values: Map<Seq<char>, String>, key: Seq<char>) -> Option<
    ModelProvider,
> {
    provider_named(lowered(value_or(values, key, "mock"@)))
}

/// Whether `c` is the model configuration that `values` describe.
pub open spec fn model_config_from(c: ModelConfig, values: Map<Seq<char>, String>) -> bool {
    &&& provider_setting(values, "MAIN_MODEL_PROVIDER"@) == Some(c.main_provider)
    &&& provider_setting(values, "VISION_MODEL_PROVIDER"@) == Some(c.vision_provider)
    &&& provider_config_from(
        c.deepseek,
        values,
        "DEEPSEEK_API_KEY"@,
        "DEEPSEEK_BASE_URL"@,
        "DEEPSEEK_MODEL"@,
        "https://api.deepseek.com"@,
        "deepseek-chat"@,
    )
    &&& provider_config_from(
        c.glm,
        values,
        "GLM_API_KEY"@,
        "GLM_BASE_URL"@,
        "GLM_MODEL"@,
        "https://open.bigmodel.cn/api/paas/v4"@,
        "glm-4-flash"@,
    )
    &&& provider_config_from(
        c.qwen,
        values,
        "QWEN_API_KEY"@,
        "QWEN_BASE_URL"@,
        "QWEN_MODEL"@,
        "https://dashscope.aliyuncs.com/compatible-mode/v1"@,
        "qwen-plus"@,
    )
}

/// Whether `values` name known providers for the main and the vision model.
pub open spec fn model_config_ok(values: Map<Seq<char>, String>) -> bool {
    provider_setting(values, "MAIN_MODEL_PROVIDER"@) is Some && provider_setting(
        values,
        "VISION_MODEL_PROVIDER"@,
    ) is Some
}

/// Why a configuration could not be read.
#[derive(Debug)]
pub enum ConfigError {
    /// `APP_PORT` is not a number from 0 to 65535.
    InvalidPort { value: String },
    /// A provider setting names no known provider.
    UnknownProvider(UnknownProvider),
}

impl ModelConfig {
    /// Reads the providers and their settings; fails when a provider name is unknown.
    pub fn from_values(values: &StrMap<String>) -> (r: Result<Self, UnknownProvider>)
        ensures
            r is Ok <==> model_config_ok(values@),
            r matches Ok(c) ==> model_config_from(c, values@),
            r matches Err(e) ==> {
                ||| provider_setting(values@, "MAIN_MODEL_PROVIDER"@) is None && e.name@
                    == lowered(value_or(values@, "MAIN_MODEL_PROVIDER"@, "mock"@))
                ||| provider_setting(values@, "MAIN_MODEL_PROVIDER"@) is Some && e.name@
                    == lowered(value_or(values@, "VISION_MODEL_PROVIDER"@, "mock"@))
            },
    {
        let main_name = get_or(values, "MAIN_MODEL_PROVIDER", "mock");
        let main_provider = parse_provider(main_name.as_str())?;
        let vision_name = get_or(values, "VISION_MODEL_PROVIDER", "mock");
        let vision_provider = parse_provider(vision_name.as_str())?;
        Ok(ModelConfig {
            main_provider,
            vision_provider,
            deepseek: provider_config(
                values,
                "DEEPSEEK_API_KEY",
                "DEEPSEEK_BASE_URL",
                "DEEPSEEK_MODEL",
                "https://api.deepseek.com",
                "deepseek-chat",
            ),
            glm: provider_config(
                values,
                "GLM_API_KEY",
                "GLM_BASE_URL",
                "GLM_MODEL",
                "https://open.bigmodel.cn/api/paas/v4",
                "glm-4-flash",
            ),
            qwen: provider_config(
                values,
                "QWEN_API_KEY",
                "QWEN_BASE_URL",
                "QWEN_MODEL",
                "https://dashscope.aliyuncs.com/compatible-mode/v1",
                "qwen-plus",
            ),
        })
    }
}

// ---------------------------------------------------------------------------
// Server and CORS settings.
// ---------------------------------------------------------------------------
/// Where the server listens.
#[derive(Debug)]
pub struct ServerConfig {
    pub host: String,
    pub port: u16,
}

impl ServerConfig {
    /// The `host:port` address to bind.
    pub fn bind_addr(&self) -> (r: String)
        ensures
            r@ == self.host@ + ":"@ + decimal(self.port as nat),
    {
        let mut r = self.host.clone();
        r.append(":");
        push_decimal(&mut r, self.port as u64);
        r
    }
}

/// Cross-origin settings; `max_age` is in seconds.
#[derive(Debug)]
pub struct CorsConfig {
    pub allowed_origins: Vec<String>,
    pub allowed_methods: Vec<String>,
    pub allowed_headers: Vec<String>,
    pub allow_credentials: bool,
    pub max_age: u64,
}

/// The whole application configuration.
#[derive(Debug)]
pub struct AppConfig {
    pub server: ServerConfig,
    pub cors: CorsConfig,
    pub model: ModelConfig,
}

/// The port text: `APP_PORT`, or `7001`.
pub open spec fn port_text(values: Map<Seq<char>, String>) -> Seq<char> {
    value_or(values, "APP_PORT"@, "7001"@)
}

/// Whether credentials are allowed: `CORS_ALLOW_CREDENTIALS` lowercased is `true`, or the
/// key is absent.
pub open spec fn allow_credentials_setting(values: Map<Seq<char>, String>) -> bool {
    if values.contains_key("CORS_ALLOW_CREDENTIALS"@) {
        lowered(values["CORS_ALLOW_CREDENTIALS"@]@) == "true"@
    } else {
        true
    }
}

/// The CORS max age in seconds: `CORS_MAX_AGE` when it is a number, else 3600.
pub open spec fn max_age_setting(values: Map<Seq<char>, String>) -> nat {
    if values.contains_key("CORS_MAX_AGE"@) {
        match parse_unsigned(values["CORS_MAX_AGE"@]@, u64::MAX as nat) {
            Some(n) => n,
            None => 3600,
        }
    } else {
        3600
    }
}

/// Whether `c` is the configuration that `values` describe.
pub open spec fn app_config_from(c: AppConfig, values: Map<Seq<char>, String>) -> bool {
    &&& c.server.host@ == value_or(values, "APP_HOST"@, "127.0.0.1"@)
    &&& parse_unsigned(port_text(values), u16::MAX as nat) == Some(c.server.port as nat)
    &&& views(c.cors.allowed_origins@) == list_or(
        values,
        "CORS_ALLOWED_ORIGINS"@,
        seq!["http://localhost:3000"@],
    )
    &&& views(c.cors.allowed_methods@) == list_or(
        values,
        "CORS_ALLOWED_METHODS"@,
        seq!["GET"@, "POST"@, "PUT"@, "DELETE"@, "PATCH"@, "OPTIONS"@],
    )
    &&& views(c.cors.allowed_headers@) == list_or(
        values,
        "CORS_ALLOWED_HEADERS"@,
        seq!["Content-Type"@, "Authorization"@, "Accept"@],
    )
    &&& c.cors.allow_credentials == allow_credentials_setting(values)
    &&& c.cors.max_age as nat == max_age_setting(values)
    &&& model_config_from(c.model, values)
}

/// Credentials are allowed by default; a `CORS_ALLOW_CREDENTIALS` that is present allows
/// them exactly when its value, lowercased, is `true`: any other value, such as `no`,
/// `0` or `false`, refuses them.
pub proof fn lemma_credentials_only_when_true(c: AppConfig, values: Map<Seq<char>, String>)
    requires
        app_config_from(c, values),
    ensures
        !values.contains_key("CORS_ALLOW_CREDENTIALS"@) ==> c.cors.allow_credentials,
        values.contains_key("CORS_ALLOW_CREDENTIALS"@) ==> (c.cors.allow_credentials <==> lowered(
            values["CORS_ALLOW_CREDENTIALS"@]@,
        ) == "true"@),
{
}

impl AppConfig {
    /// Reads the configuration. Fails when the port is not a number from 0 to 65535,
    /// then when a provider name is unknown.
    pub fn from_values(values: &StrMap<String>) -> (r: Result<Self, ConfigError>)
        ensures
            r is Ok <==> (parse_unsigned(port_text(values@), u16::MAX as nat) is Some
                && model_config_ok(values@)),
            r matches Ok(c) ==> app_config_from(c, values@),
            r matches Err(ConfigError::InvalidPort { value }) ==> value@ == port_text(values@)
                && parse_unsigned(port_text(values@), u16::MAX as nat) is None,
            r matches Err(ConfigError::UnknownProvider(_)) ==> parse_unsigned(
                port_text(values@),
                u16::MAX as nat,
            ) is Some && !model_config_ok(values@),
    {
        let host = get_or(values, "APP_HOST", "127.0.0.1");
        let port_value = get_or(values, "APP_PORT", "7001");
        let port = match parse_unsigned_exec(port_value.as_str(), 65535) {
            Some(p) => p as u16,
            None => {
                return Err(ConfigError::InvalidPort { value: port_value });
            },
        };
        let allowed_origins = value_list(values, "CORS_ALLOWED_ORIGINS", &["http://localhost:3000"]);
        let allowed_methods = value_list(
            values,
            "CORS_ALLOWED_METHODS",
            &["GET", "POST", "PUT", "DELETE", "PATCH", "OPTIONS"],
        );
        let allowed_headers = value_list(
            values,
            "CORS_ALLOWED_HEADERS",
            &["Content-Type", "Authorization", "Accept"],
        );
        let allow_credentials = match values.get("CORS_ALLOW_CREDENTIALS") {
            Some(v) => {
                let lower = to_lowercase(v.as_str());
                str_eq(lower.as_str(), "true")
            },
            None => true,
        };
        let max_age = match values.get("CORS_MAX_AGE") {
            Some(v) => match parse_unsigned_exec(v.as_str(), u64::MAX) {
                Some(n) => n,
                None => 3600,
            },
            None => 3600,
        };
        let model = match ModelConfig::from_values(values) {
            Ok(m) => m,
            Err(e) => {
                return Err(ConfigError::UnknownProvider(e));
            },
        };
        let r = AppConfig {
            server: ServerConfig { host, port },
            cors: CorsConfig {
                allowed_origins,
                allowed_methods,
                allowed_headers,
                allow_credentials,
                max_age,
            },
            model,
        };
        proof {
            let v = values@;
            assert(r.server.host@ == value_or(v, "APP_HOST"@, "127.0.0.1"@));
            assert(parse_unsigned(port_text(v), u16::MAX as nat) == Some(r.server.port as nat));
            assert(views(r.cors.allowed_origins@) == list_or(v, "CORS_ALLOWED_ORIGINS"@, seq!["http://localhost:3000"@]));
            assert(views(r.cors.allowed_methods@) == list_or(v, "CORS_ALLOWED_METHODS"@, seq!["GET"@, "POST"@, "PUT"@, "DELETE"@, "PATCH"@, "OPTIONS"@]));
            assert(r.cors.allow_credentials == allow_credentials_setting(v));
            assert(r.cors.max_age as nat == max_age_setting(v));
            assert(views(r.cors.allowed_headers@) == list_or(v, "CORS_ALLOWED_HEADERS"@, seq!["Content-Type"@, "Authorization"@, "Accept"@]));
            assert(model_config_from(r.model, v));
        }
        Ok(r)
    }
}

// ---------------------------------------------------------------------------
// Session limits.
// ---------------------------------------------------------------------------
/// How many versions are kept per project and in all.
#[derive(Debug, Clone, Copy)]
pub struct SessionConfig {
    pub per_project_cap: usize,
    pub global_cap: usize,
}

/// The default per-project cap.
pub const DEFAULT_PER_PROJECT: usize = 20;

/// The default global cap.
pub const DEFAULT_GLOBAL: usize = 100;

/// The cap under `key` when it is a positive number that fits a `usize`, else `default`.
pub open spec fn cap_setting(values: Map<Seq<char>, String>, key: Seq<char>, default: nat) -> nat {
    if values.contains_key(key) {
        match parse_unsigned(values[key]@, usize::MAX as nat) {
            Some(n) => if n >= 1 {
                n
            } else {
                default
            },
            None => default,
        }
    } else {
        default
    }
}

fn cap_value(values: &StrMap<String>, key: &str, default: usize) -> (r: usize)
    ensures
        r as nat == cap_setting(values@, key@, default as nat),
{
    match values.get(key) {
        Some(v) => match parse_unsigned_exec(v.as_str(), usize::MAX as u64) {
            Some(n) => if n >= 1 {
                n as usize
            } else {
                default
            },
            None => default,
        },
        None => default,
    }
}

impl SessionConfig {
    /// Reads `SESSION_PER_PROJECT_CAP` and `SESSION_GLOBAL_CAP`; a missing, malformed or
    /// zero value falls back to the default.
    pub fn from_values(values: &StrMap<String>) -> (r: Self)
        ensures
            r.per_project_cap as nat == cap_setting(
                values@,
                "SESSION_PER_PROJECT_CAP"@,
                DEFAULT_PER_PROJECT as nat,
            ),
            r.global_cap as nat == cap_setting(
                values@,
                "SESSION_GLOBAL_CAP"@,
                DEFAULT_GLOBAL as nat,
            ),
    {
        SessionConfig {
            per_project_cap: cap_value(values, "SESSION_PER_PROJECT_CAP", DEFAULT_PER_PROJECT),
            global_cap: cap_value(values, "SESSION_GLOBAL_CAP", DEFAULT_GLOBAL),
        }
    }
}

impl Default for SessionConfig {
    fn default() -> (r: Self)
        ensures
            r.per_project_cap == DEFAULT_PER_PROJECT,
            r.global_cap == DEFAULT_GLOBAL,
    {
        SessionConfig { per_project_cap: DEFAULT_PER_PROJECT, global_cap: DEFAULT_GLOBAL }
    }
}

} // verus!
