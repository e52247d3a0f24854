//! Service configuration: which settings are required, their defaults, and the
//! checks a configuration must pass before the service starts.
use vstd::prelude::*;
use vstd::utf8::encode_utf8;
use crate::error::{failed_field, note_field};
use crate::ids::{parse_uuid, uuid_parse};
use crate::json::views;
use crate::text::{decimal, decimal_string, str_eq, str_starts_with, trim, trim_chars, starts_with};

verus! {

#[verifier::external_type_specification]
#[verifier::external_body]
pub struct ExParseIntError(std::num::ParseIntError);

pub enum Environment {
    Development,
    Staging,
    Production,
}

pub enum ConfigError {
    Missing(Vec<String>),
    InvalidValue { var: String, reason: String },
    Parse(std::num::ParseIntError),
}

impl Environment {
    /// The environment a name denotes.
    pub open spec fn from_name(s: Seq<char>) -> Option<Environment> {
        if s == "development"@ {
            Some(Environment::Development)
        } else if s == "staging"@ {
            Some(Environment::Staging)
        } else if s == "production"@ {
            Some(Environment::Production)
        } else {
            None
        }
    }

    /// Parses an environment name: `development`, `staging` or `production`.
    pub fn parse(s: &str) -> (r: Option<Environment>)
        ensures
            r == Environment::from_name(s@),
    {
        if str_eq(s, "development") {
            Some(Environment::Development)
        } else if str_eq(s, "staging") {
            Some(Environment::Staging)
        } else if str_eq(s, "production") {
            Some(Environment::Production)
        } else {
            None
        }
    }

    pub fn is_production(&self) -> (r: bool)
        ensures
            r == (*self is Production),
    {
        match self {
            Environment::Production => true,
            _ => false,
        }
    }
}

impl std::str::FromStr for Environment {
    type Err = ();

    fn from_str(s: &str) -> (r: Result<Environment, ()>)
        ensures
            match Environment::from_name(s@) {
                Some(e) => r == Ok::<Environment, ()>(e),
                None => r is Err,
            },
    {
        match Environment::parse(s) {
            Some(e) => Ok(e),
            None => Err(()),
        }
    }
}

pub open spec fn is_ascii_digit(c: char) -> bool {
    '0' <= c && c <= '9'
}

/// Value of a string of decimal digits.
pub open spec fn digits_value(s: Seq<char>) -> int
    decreases s.len(),
{
    if s.len() == 0 {
        0
    } else {
        digits_value(s.drop_last()) * 10 + (s.last() as int - '0' as int)
    }
}

pub open spec fn digits_only(s: Seq<char>) -> Option<int> {
    if s.len() > 0 && (forall|i: int| 0 <= i < s.len() ==> is_ascii_digit(#[trigger] s[i])) {
        Some(digits_value(s))
    } else {
        None
    }
}

/// The number an unsigned integer text denotes: an optional `+` and one or more
/// decimal digits, nothing else.
pub open spec fn unsigned_text_value(s: Seq<char>) -> Option<int> {
    if s.len() > 0 && s[0] == '+' {
        digits_only(s.drop_first())
    } else {
        digits_only(s)
    }
}

/// The number a signed integer text denotes: an optional `+` or `-` and one or
/// more decimal digits, nothing else.
pub open spec fn signed_text_value(s: Seq<char>) -> Option<int> {
    if s.len() > 0 && s[0] == '-' {
        match digits_only(s.drop_first()) {
            Some(v) => Some(-v),
            None => None,
        }
    } else {
        unsigned_text_value(s)
    }
}

/// The value `str::parse` gives for an integer type with bounds `lo..=hi`.
pub open spec fn parsed_in(v: Option<int>, lo: int, hi: int) -> Option<int> {
    match v {
        Some(n) => if lo <= n <= hi {
            Some(n)
        } else {
            None
        },
        None => None,
    }
}

/// Calls `<u16 as FromStr>::from_str` (std). As std documents it: an optional `+`
/// followed by decimal digits only, within the type's range; anything else is an
/// error.
#[verifier::external_body]
pub(crate) fn parse_u16(s: &str) -> (r: Result<u16, std::num::ParseIntError>)
    ensures
        r is Ok <==> parsed_in(unsigned_text_value(s@), 0, u16::MAX as int) is Some,
        r matches Ok(n) ==> parsed_in(unsigned_text_value(s@), 0, u16::MAX as int) == Some(
            n as int,
        ),
{
    s.parse::<u16>()
}

/// Calls `<u64 as FromStr>::from_str` (std), keeping only success.
#[verifier::external_body]
pub(crate) fn parse_u64(s: &str) -> (r: Option<u64>)
    ensures
        r is Some <==> parsed_in(unsigned_text_value(s@), 0, u64::MAX as int) is Some,
        r matches Some(n) ==> parsed_in(unsigned_text_value(s@), 0, u64::MAX as int) == Some(
            n as int,
        ),
{
    s.parse::<u64>().ok()
}

/// Calls `<u32 as FromStr>::from_str` (std), keeping only success.
#[verifier::external_body]
pub(crate) fn parse_u32(s: &str) -> (r: Option<u32>)
    ensures
        r is Some <==> parsed_in(unsigned_text_value(s@), 0, u32::MAX as int) is Some,
        r matches Some(n) ==> parsed_in(unsigned_text_value(s@), 0, u32::MAX as int) == Some(
            n as int,
        ),
{
    s.parse::<u32>().ok()
}

/// Calls `<usize as FromStr>::from_str` (std), keeping only success.
#[verifier::external_body]
pub(crate) fn parse_usize(s: &str) -> (r: Option<usize>)
    ensures
        r is Some <==> parsed_in(unsigned_text_value(s@), 0, usize::MAX as int) is Some,
        r matches Some(n) ==> parsed_in(unsigned_text_value(s@), 0, usize::MAX as int) == Some(
            n as int,
        ),
{
    s.parse::<usize>().ok()
}

/// Calls `<i64 as FromStr>::from_str` (std), keeping only success. As std
/// documents it: an optional `+` or `-` followed by decimal digits only, within
/// the type's range.
#[verifier::external_body]
pub(crate) fn parse_i64(s: &str) -> (r: Option<i64>)
    ensures
        r is Some <==> parsed_in(signed_text_value(s@), i64::MIN as int, i64::MAX as int) is Some,
        r matches Some(n) ==> parsed_in(signed_text_value(s@), i64::MIN as int, i64::MAX as int)
            == Some(n as int),
{
    s.parse::<i64>().ok()
}

/// The settings the service reads from its environment, as found there (`None`
/// where a variable is unset).
pub struct EnvSnapshot {
    pub database_url: Option<String>,
    pub redis_url: Option<String>,
    pub jwt_secret: Option<String>,
    pub paystack_secret_key: Option<String>,
    pub paystack_webhook_secret: Option<String>,
    pub anthropic_api_key: Option<String>,
    pub aws_access_key_id: Option<String>,
    pub aws_secret_access_key: Option<String>,
    pub aws_region: Option<String>,
    pub s3_bucket: Option<String>,
    pub ses_from_email: Option<String>,
    pub firebase_service_account_json: Option<String>,
    pub firebase_project_id: Option<String>,
    pub google_oauth_client_id: Option<String>,
    pub app_base_url: Option<String>,
    pub sentry_dsn: Option<String>,
    pub environment: Option<String>,
    pub port: Option<String>,
    pub access_token_expiry_seconds: Option<String>,
    pub refresh_token_expiry_days: Option<String>,
    pub paystack_base_url: Option<String>,
    pub anthropic_concurrency_limit: Option<String>,
    pub free_tier_ai_queries_per_day: Option<String>,
    pub worker_count: Option<String>,
    pub behind_proxy: Option<String>,
    pub admin_user_ids: Option<String>,
    pub railway_environment: Option<String>,
    pub rust_log: Option<String>,
}

pub struct Config {
    pub database_url: String,
    pub redis_url: String,
    pub jwt_secret: String,
    pub access_token_expiry_seconds: u64,
    pub refresh_token_expiry_days: i64,
    pub paystack_secret_key: String,
    pub paystack_webhook_secret: String,
    pub paystack_base_url: String,
    pub anthropic_api_key: String,
    pub anthropic_concurrency_limit: usize,
    pub aws_access_key_id: String,
    pub aws_secret_access_key: String,
    pub aws_region: String,
    pub s3_bucket: String,
    pub ses_from_email: String,
    pub firebase_service_account_json: String,
    pub firebase_project_id: String,
    pub google_oauth_client_id: String,
    pub app_base_url: String,
    pub sentry_dsn: Option<String>,
    pub environment: Environment,
    pub admin_user_ids: Vec<u128>,
    pub port: u16,
    pub free_tier_ai_queries_per_day: u32,
    pub worker_count: usize,
    pub behind_proxy: bool,
    pub rust_log: String,
}

/// The text of a required setting: its value, or empty when unset.
pub open spec fn text_or_empty(o: Option<String>) -> Seq<char> {
    match o {
        Some(s) => s@,
        None => Seq::empty(),
    }
}

pub open spec fn text_or(o: Option<String>, d: Seq<char>) -> Seq<char> {
    match o {
        Some(s) => s@,
        None => d,
    }
}

/// The required settings that are unset, by variable name, in reading order.
pub open spec fn missing_vars(env: EnvSnapshot) -> Seq<Seq<char>> {
    Seq::empty() + failed_field(env.database_url is Some, "DATABASE_URL"@) + failed_field(
        env.redis_url is Some,
        "REDIS_URL"@,
    ) + failed_field(env.jwt_secret is Some, "JWT_SECRET"@) + failed_field(
        env.paystack_secret_key is Some,
        "PAYSTACK_SECRET_KEY"@,
    ) + failed_field(env.paystack_webhook_secret is Some, "PAYSTACK_WEBHOOK_SECRET"@)
        + failed_field(env.anthropic_api_key is Some, "ANTHROPIC_API_KEY"@) + failed_field(
        env.aws_access_key_id is Some,
        "AWS_ACCESS_KEY_ID"@,
    ) + failed_field(env.aws_secret_access_key is Some, "AWS_SECRET_ACCESS_KEY"@) + failed_field(
        env.aws_region is Some,
        "AWS_REGION"@,
    ) + failed_field(env.s3_bucket is Some, "S3_BUCKET"@) + failed_field(
        env.ses_from_email is Some,
        "SES_FROM_EMAIL"@,
    ) + failed_field(env.firebase_service_account_json is Some, "FIREBASE_SERVICE_ACCOUNT_JSON"@)
        + failed_field(env.firebase_project_id is Some, "FIREBASE_PROJECT_ID"@) + failed_field(
        env.google_oauth_client_id is Some,
        "GOOGLE_OAUTH_CLIENT_ID"@,
    ) + failed_field(env.app_base_url is Some, "APP_BASE_URL"@) + failed_field(
        env.environment is Some,
        "ENVIRONMENT"@,
    )
}

/// A signing secret that is set, even to the empty text, but shorter than 32
/// bytes.
pub open spec fn jwt_secret_too_short(env: EnvSnapshot) -> bool {
    env.jwt_secret is Some && encode_utf8(text_or_empty(env.jwt_secret)).len() < 32
}

pub open spec fn port_value(env: EnvSnapshot) -> Option<int> {
    parsed_in(unsigned_text_value(text_or(env.port, "8080"@)), 0, u16::MAX as int)
}

/// An optional numeric setting: its parsed value, or the default when unset or
/// unparsable.
pub open spec fn number_or(o: Option<String>, v: Option<int>, d: int) -> int
    recommends
        o is Some ==> true,
{
    match v {
        Some(n) => n,
        None => d,
    }
}

pub open spec fn unsigned_setting(o: Option<String>, hi: int, d: int) -> int {
    match o {
        Some(s) => match parsed_in(unsigned_text_value(s@), 0, hi) {
            Some(n) => n,
            None => d,
        },
        None => d,
    }
}

pub open spec fn worker_count_value(env: EnvSnapshot) -> int {
    unsigned_setting(env.worker_count, usize::MAX as int, 3)
}

/// The fields of a text split at every `sep` (`str::split`).
pub open spec fn split_on(s: Seq<char>, sep: char) -> Seq<Seq<char>>
    decreases s.len(),
{
    if s.len() == 0 {
        seq![Seq::empty()]
    } else {
        let prev = split_on(s.drop_last(), sep);
        if s.last() == sep {
            prev.push(Seq::empty())
        } else {
            prev.update(prev.len() - 1, prev.last().push(s.last()))
        }
    }
}

/// The identifiers a comma-separated list names: blank entries are skipped, the
/// others are trimmed and parsed; `None` when one of them does not parse.
pub open spec fn parse_ids(parts: Seq<Seq<char>>) -> Option<Seq<u128>>
    decreases parts.len(),
{
    if parts.len() == 0 {
        Some(Seq::empty())
    } else {
        match parse_ids(parts.drop_last()) {
            None => None,
            Some(prev) => {
                let t = trim(parts.last());
                if t.len() == 0 {
                    Some(prev)
                } else {
                    match uuid_parse(t) {
                        Some(u) => Some(prev.push(u)),
                        None => None,
                    }
                }
            },
        }
    }
}

pub open spec fn admin_ids(env: EnvSnapshot) -> Option<Seq<u128>> {
    parse_ids(split_on(text_or_empty(env.admin_user_ids), ','))
}

/// Running on Railway with a base URL that is not `https://`.
pub open spec fn insecure_base_url(env: EnvSnapshot) -> bool {
    env.railway_environment is Some && !starts_with(text_or_empty(env.app_base_url), "https://"@)
}

pub open spec fn proxy_flag(env: EnvSnapshot) -> bool {
    match env.behind_proxy {
        Some(v) => v@ == "true"@ || v@ == "1"@,
        None => false,
    }
}

/// The configuration `env` yields once every check has passed.
pub open spec fn config_from(c: Config, env: EnvSnapshot) -> bool {
    &&& c.database_url@ == text_or_empty(env.database_url)
    &&& c.redis_url@ == text_or_empty(env.redis_url)
    &&& c.jwt_secret@ == text_or_empty(env.jwt_secret)
    &&& c.paystack_secret_key@ == text_or_empty(env.paystack_secret_key)
    &&& c.paystack_webhook_secret@ == text_or_empty(env.paystack_webhook_secret)
    &&& c.anthropic_api_key@ == text_or_empty(env.anthropic_api_key)
    &&& c.aws_access_key_id@ == text_or_empty(env.aws_access_key_id)
    &&& c.aws_secret_access_key@ == text_or_empty(env.aws_secret_access_key)
    &&& c.aws_region@ == text_or_empty(env.aws_region)
    &&& c.s3_bucket@ == text_or_empty(env.s3_bucket)
    &&& c.ses_from_email@ == text_or_empty(env.ses_from_email)
    &&& c.firebase_service_account_json@ == text_or_empty(env.firebase_service_account_json)
    &&& c.firebase_project_id@ == text_or_empty(env.firebase_project_id)
    &&& c.google_oauth_client_id@ == text_or_empty(env.google_oauth_client_id)
    &&& c.app_base_url@ == text_or_empty(env.app_base_url)
    &&& c.sentry_dsn == env.sentry_dsn
    &&& port_value(env) == Some(c.port as int)
    &&& c.access_token_expiry_seconds == unsigned_setting(
        env.access_token_expiry_seconds,
        u64::MAX as int,
        900,
    )
    &&& c.refresh_token_expiry_days == match env.refresh_token_expiry_days {
        Some(s) => match parsed_in(signed_text_value(s@), i64::MIN as int, i64::MAX as int) {
            Some(n) => n,
            None => 30,
        },
        None => 30,
    }
    &&& c.paystack_base_url@ == text_or(env.paystack_base_url, "https://api.paystack.co"@)
    &&& c.anthropic_concurrency_limit == unsigned_setting(
        env.anthropic_concurrency_limit,
        usize::MAX as int,
        5,
    )
    &&& c.free_tier_ai_queries_per_day == unsigned_setting(
        env.free_tier_ai_queries_per_day,
        u32::MAX as int,
        10,
    )
    &&& c.worker_count == worker_count_value(env)
    &&& c.behind_proxy == proxy_flag(env)
    &&& admin_ids(env) == Some(c.admin_user_ids@)
    &&& c.rust_log@ == text_or(env.rust_log, "lekta_api=debug,sqlx=warn,tower_http=info"@)
    &&& c.environment == match Environment::from_name(text_or_empty(env.environment)) {
        Some(e) => e,
        None => Environment::Development,
    }
}

fn required(o: &Option<String>) -> (r: String)
    ensures
        r@ == text_or_empty(*o),
{
    match o {
        Some(s) => s.clone(),
        None => String::new(),
    }
}

fn text_with_default(o: &Option<String>, d: &str) -> (r: String)
    ensures
        r@ == text_or(*o, d@),
{
    match o {
        Some(s) => s.clone(),
        None => String::from_str(d),
    }
}

fn u64_setting(o: &Option<String>, d: u64) -> (r: u64)
    ensures
        r == unsigned_setting(*o, u64::MAX as int, d as int),
{
    match o {
        Some(s) => match parse_u64(s.as_str()) {
            Some(n) => n,
            None => d,
        },
        None => d,
    }
}

fn usize_setting(o: &Option<String>, d: usize) -> (r: usize)
    ensures
        r == unsigned_setting(*o, usize::MAX as int, d as int),
{
    match o {
        Some(s) => match parse_usize(s.as_str()) {
            Some(n) => n,
            None => d,
        },
        None => d,
    }
}

fn u32_setting(o: &Option<String>, d: u32) -> (r: u32)
    ensures
        r == unsigned_setting(*o, u32::MAX as int, d as int),
{
    match o {
        Some(s) => match parse_u32(s.as_str()) {
            Some(n) => n,
            None => d,
        },
        None => d,
    }
}

pub open spec fn all_views(v: Seq<Vec<char>>) -> Seq<Seq<char>> {
    v.map_values(|x: Vec<char>| x@)
}

proof fn lemma_split_nonempty(s: Seq<char>, sep: char)
    ensures
        split_on(s, sep).len() >= 1,
    decreases s.len(),
{
    if s.len() > 0 {
        lemma_split_nonempty(s.drop_last(), sep);
    }
}

/// The fields of `s` split at every `sep`.
pub fn split_chars(s: &[char], sep: char) -> (r: Vec<Vec<char>>)
    ensures
        all_views(r@) == split_on(s@, sep),
{
    let mut parts: Vec<Vec<char>> = Vec::new();
    let mut cur: Vec<char> = Vec::new();
    let mut i: usize = 0;
    assert(s@.take(0) =~= Seq::<char>::empty());
    assert(all_views(parts@).push(cur@) =~= split_on(s@.take(0), sep));
    while i < s.len()
        invariant
            i <= s@.len(),
            all_views(parts@).push(cur@) == split_on(s@.take(i as int), sep),
        decreases s.len() - i,
    {
        let c = s[i];
        let ghost pre = s@.take(i as int);
        assert(s@.take(i + 1).drop_last() =~= pre);
        assert(s@.take(i + 1).last() == c);
        proof {
            lemma_split_nonempty(pre, sep);
        }
        if c == sep {
            let done = cur;
            parts.push(done);
            cur = Vec::new();
            assert(all_views(parts@).push(cur@) =~= split_on(pre, sep).push(Seq::empty()));
        } else {
            let ghost old_cur = cur@;
            cur.push(c);
            assert(all_views(parts@).push(cur@) =~= split_on(pre, sep).update(
                split_on(pre, sep).len() - 1,
                split_on(pre, sep).last().push(c),
            ));
        }
        i = i + 1;
    }
    assert(s@.take(s@.len() as int) =~= s@);
    parts.push(cur);
    assert(all_views(parts@) =~= split_on(s@, sep));
    parts
}

proof fn lemma_parse_ids_none_extends(parts: Seq<Seq<char>>, k: int)
    requires
        0 <= k <= parts.len(),
        parse_ids(parts.take(k)) is None,
    ensures
        parse_ids(parts) is None,
    decreases parts.len() - k,
{
    if k < parts.len() {
        assert(parts.take(k + 1).drop_last() =~= parts.take(k));
        lemma_parse_ids_none_extends(parts, k + 1);
    } else {
        assert(parts.take(k) =~= parts);
    }
}

/// Parses a comma-separated list of identifiers; `Err` carries the text of the
/// first parse error.
pub fn parse_id_list(text: &str) -> (r: Result<Vec<u128>, String>)
    ensures
        r is Ok <==> parse_ids(split_on(text@, ',')) is Some,
        r matches Ok(ids) ==> parse_ids(split_on(text@, ',')) == Some(ids@),
{
    let cs = crate::text::chars_of(text);
    let parts = split_chars(cs.as_slice(), ',');
    let ghost ps = all_views(parts@);
    let mut ids: Vec<u128> = Vec::new();
    let mut i: usize = 0;
    assert(ps.take(0) =~= Seq::<Seq<char>>::empty());
    while i < parts.len()
        invariant
            ps == all_views(parts@),
            ps == split_on(text@, ','),
            i <= parts@.len(),
            parse_ids(ps.take(i as int)) == Some(ids@),
        decreases parts.len() - i,
    {
        assert(ps.take(i + 1).drop_last() =~= ps.take(i as int));
        assert(ps.take(i + 1).last() == parts@[i as int]@);
        let t = trim_chars(parts[i].as_slice());
        if t.len() > 0 {
            let ts = crate::text::string_from_chars(t.as_slice());
            match parse_uuid(ts.as_str()) {
                Ok(u) => {
                    ids.push(u);
                },
                Err(e) => {
                    proof {
                        lemma_parse_ids_none_extends(ps, i + 1);
                    }
                    return Err(e);
                },
            }
        }
        i = i + 1;
    }
    assert(ps.take(ps.len() as int) =~= ps);
    Ok(ids)
}


fn missing_settings(env: &EnvSnapshot) -> (r: Vec<String>)
    ensures
        views(r@) == missing_vars(*env),
{
        let mut missing: Vec<String> = Vec::new();
        assert(views(missing@) =~= Seq::<Seq<char>>::empty());
        note_field(&mut missing, env.database_url.is_some(), "DATABASE_URL");
        note_field(&mut missing, env.redis_url.is_some(), "REDIS_URL");
        note_field(&mut missing, env.jwt_secret.is_some(), "JWT_SECRET");
        note_field(&mut missing, env.paystack_secret_key.is_some(), "PAYSTACK_SECRET_KEY");
        note_field(&mut missing, env.paystack_webhook_secret.is_some(), "PAYSTACK_WEBHOOK_SECRET");
        note_field(&mut missing, env.anthropic_api_key.is_some(), "ANTHROPIC_API_KEY");
        note_field(&mut missing, env.aws_access_key_id.is_some(), "AWS_ACCESS_KEY_ID");
        note_field(&mut missing, env.aws_secret_access_key.is_some(), "AWS_SECRET_ACCESS_KEY");
        note_field(&mut missing, env.aws_region.is_some(), "AWS_REGION");
        note_field(&mut missing, env.s3_bucket.is_some(), "S3_BUCKET");
        note_field(&mut missing, env.ses_from_email.is_some(), "SES_FROM_EMAIL");
        note_field(
            &mut missing,
            env.firebase_service_account_json.is_some(),
            "FIREBASE_SERVICE_ACCOUNT_JSON",
        );
        note_field(&mut missing, env.firebase_project_id.is_some(), "FIREBASE_PROJECT_ID");
        note_field(&mut missing, env.google_oauth_client_id.is_some(), "GOOGLE_OAUTH_CLIENT_ID");
        note_field(&mut missing, env.app_base_url.is_some(), "APP_BASE_URL");
        note_field(&mut missing, env.environment.is_some(), "ENVIRONMENT");
        missing

}

#[verifier::rlimit(40)]
fn assemble(
    env: &EnvSnapshot,
    port: u16,
    worker_count: usize,
    behind_proxy: bool,
    admin_user_ids: Vec<u128>,
) -> (c: Config)
    requires
        port_value(*env) == Some(port as int),
        worker_count == worker_count_value(*env),
        behind_proxy == proxy_flag(*env),
        admin_ids(*env) == Some(admin_user_ids@),
    ensures
        config_from(c, *env),
{
    let jwt_secret = required(&env.jwt_secret);
    let app_base_url = required(&env.app_base_url);
        let access_token_expiry_seconds = u64_setting(&env.access_token_expiry_seconds, 900);
        let refresh_token_expiry_days: i64 = match &env.refresh_token_expiry_days {
            Some(s) => match parse_i64(s.as_str()) {
                Some(n) => n,
                None => 30,
            },
            None => 30,
        };
        let paystack_base_url = text_with_default(&env.paystack_base_url, "https://api.paystack.co");
        let anthropic_concurrency_limit = usize_setting(&env.anthropic_concurrency_limit, 5);
        let free_tier_ai_queries_per_day = u32_setting(&env.free_tier_ai_queries_per_day, 10);
        let rust_log = text_with_default(&env.rust_log, "lekta_api=debug,sqlx=warn,tower_http=info");
        let env_name = required(&env.environment);
        let environment = match Environment::parse(env_name.as_str()) {
            Some(e) => e,
            None => Environment::Development,
        };
        Config {
                database_url: required(&env.database_url),
                redis_url: required(&env.redis_url),
                jwt_secret,
                access_token_expiry_seconds,
                refresh_token_expiry_days,
                paystack_secret_key: required(&env.paystack_secret_key),
                paystack_webhook_secret: required(&env.paystack_webhook_secret),
                paystack_base_url,
                anthropic_api_key: required(&env.anthropic_api_key),
                anthropic_concurrency_limit,
                aws_access_key_id: required(&env.aws_access_key_id),
                aws_secret_access_key: required(&env.aws_secret_access_key),
                aws_region: required(&env.aws_region),
                s3_bucket: required(&env.s3_bucket),
                ses_from_email: required(&env.ses_from_email),
                firebase_service_account_json: required(&env.firebase_service_account_json),
                firebase_project_id: required(&env.firebase_project_id),
                google_oauth_client_id: required(&env.google_oauth_client_id),
                app_base_url,
                sentry_dsn: env.sentry_dsn.clone(),
                environment,
                admin_user_ids,
                port,
                free_tier_ai_queries_per_day,
                worker_count,
                behind_proxy,
                rust_log,
            }
}

impl Config {
    /// Builds the configuration from the environment's settings, checking in
    /// order: the signing secret's length, the required settings, the port, the
    /// worker count, the administrator list and, on Railway, the base URL's
    /// scheme. Optional settings that do not parse take their defaults.
    pub fn from_values(env: &EnvSnapshot) -> (r: Result<Config, ConfigError>)
        ensures
            jwt_secret_too_short(*env) ==> (r matches Err(ConfigError::InvalidValue { var, reason })
                && var@ == "JWT_SECRET"@ && reason@ == "must be at least 32 bytes"@),
            !jwt_secret_too_short(*env) && missing_vars(*env).len() > 0 ==> (r matches Err(
                ConfigError::Missing(m),
            ) && views(m@) == missing_vars(*env)),
            !jwt_secret_too_short(*env) && missing_vars(*env).len() == 0 && port_value(*env) is None
                ==> r matches Err(ConfigError::Parse(_)),
            !jwt_secret_too_short(*env) && missing_vars(*env).len() == 0 && port_value(*env) is Some
                && !(1 <= worker_count_value(*env) <= 32) ==> (r matches Err(
                ConfigError::InvalidValue { var, reason },
            ) && var@ == "WORKER_COUNT"@ && reason@ == "must be 1-32, got "@ + decimal(
                worker_count_value(*env) as nat,
            )),
            !jwt_secret_too_short(*env) && missing_vars(*env).len() == 0 && port_value(*env) is Some
                && 1 <= worker_count_value(*env) <= 32 && admin_ids(*env) is None ==> (r matches Err(
                ConfigError::InvalidValue { var, reason },
            ) && var@ == "ADMIN_USER_IDS"@),
            !jwt_secret_too_short(*env) && missing_vars(*env).len() == 0 && port_value(*env) is Some
                && 1 <= worker_count_value(*env) <= 32 && admin_ids(*env) is Some && insecure_base_url(
                *env,
            ) ==> (r matches Err(ConfigError::InvalidValue { var, reason }) && var@
                == "APP_BASE_URL"@ && reason@ == "must use https:// in production"@),
            !jwt_secret_too_short(*env) && missing_vars(*env).len() == 0 && port_value(*env) is Some
                && 1 <= worker_count_value(*env) <= 32 && admin_ids(*env) is Some
                && !insecure_base_url(*env) ==> (r matches Ok(c) && config_from(c, *env)),
            r matches Ok(c) ==> encode_utf8(c.jwt_secret@).len() >= 32 && 1 <= c.worker_count
                <= 32,
    {
        let missing = missing_settings(env);
        let jwt_secret = required(&env.jwt_secret);
        let jwt_len = jwt_secret.as_str().as_bytes().len();
        if env.jwt_secret.is_some() && jwt_len < 32 {
            return Err(
                ConfigError::InvalidValue {
                    var: String::from_str("JWT_SECRET"),
                    reason: String::from_str("must be at least 32 bytes"),
                },
            );
        }
        if missing.len() > 0 {
            return Err(ConfigError::Missing(missing));
        }
        let port_text = text_with_default(&env.port, "8080");
        let port = match parse_u16(port_text.as_str()) {
            Ok(p) => p,
            Err(e) => {
                return Err(ConfigError::Parse(e));
            },
        };
        let worker_count = usize_setting(&env.worker_count, 3);
        if !(1 <= worker_count && worker_count <= 32) {
            let mut reason = String::from_str("must be 1-32, got ");
            let n = decimal_string(worker_count as u64);
            reason.append(n.as_str());
            return Err(ConfigError::InvalidValue { var: String::from_str("WORKER_COUNT"), reason });
        }
        let behind_proxy = match &env.behind_proxy {
            Some(v) => str_eq(v.as_str(), "true") || str_eq(v.as_str(), "1"),
            None => false,
        };
        let admin_text = required(&env.admin_user_ids);
        let admin_user_ids = match parse_id_list(admin_text.as_str()) {
            Ok(ids) => ids,
            Err(reason) => {
                return Err(
                    ConfigError::InvalidValue { var: String::from_str("ADMIN_USER_IDS"), reason },
                );
            },
        };
        let app_base_url = required(&env.app_base_url);
        if env.railway_environment.is_some() {
            if !str_starts_with(app_base_url.as_str(), "https://") {
                return Err(
                    ConfigError::InvalidValue {
                        var: String::from_str("APP_BASE_URL"),
                        reason: String::from_str("must use https:// in production"),
                    },
                );
            }
        }
        Ok(assemble(env, port, worker_count, behind_proxy, admin_user_ids))
    }
}

/// Whether `Url::parse` (url crate) accepts a text as an absolute URL.
pub uninterp spec fn url_parses(s: Seq<char>) -> bool;

/// Whether the URL that `Url::parse` makes of a text carries a password.
pub uninterp spec fn url_has_password_of(s: Seq<char>) -> bool;

/// The serialization of the URL parsed from `s` after `Url::set_password` has
/// given it `password`.
pub uninterp spec fn url_with_password_of(s: Seq<char>, password: Seq<char>) -> Seq<char>;

/// The serialization of the URL parsed from `s`, unchanged.
pub uninterp spec fn url_serialization(s: Seq<char>) -> Seq<char>;

/// Calls `Url::parse` (url crate): whether the text parses is named.
#[verifier::external_body]
fn parse_url(s: &str) -> (r: bool)
    ensures
        r == url_parses(s@),
{
    url::Url::parse(s).is_ok()
}

/// Calls `Url::parse` and then `Url::password` (url crate) on the parsed URL:
/// whether it carries a password is named over the text.
#[verifier::external_body]
fn url_has_password(s: &str) -> (r: bool)
    requires
        url_parses(s@),
    ensures
        r == url_has_password_of(s@),
{
    match url::Url::parse(s) {
        Ok(u) => u.password().is_some(),
        Err(_) => false,
    }
}

/// Calls `Url::parse`, then `Url::set_password` (ignoring whether the URL can
/// carry one) and `Url::to_string` (url crate): the new serialization is named
/// over the text and the password.
#[verifier::external_body]
fn url_with_password(s: &str, password: &str) -> (r: String)
    requires
        url_parses(s@),
    ensures
        r@ == url_with_password_of(s@, password@),
{
    match url::Url::parse(s) {
        Ok(mut u) => {
            let _ = u.set_password(Some(password));
            u.to_string()
        },
        Err(_) => String::new(),
    }
}

/// Calls `Url::parse` and then `Url::to_string` (url crate): the serialization
/// is named over the text.
#[verifier::external_body]
fn url_text(s: &str) -> (r: String)
    requires
        url_parses(s@),
    ensures
        r@ == url_serialization(s@),
{
    match url::Url::parse(s) {
        Ok(u) => u.to_string(),
        Err(_) => String::new(),
    }
}

/// A connection URL as it may be shown: a fixed marker when the text is not a
/// URL; else the URL's serialization, its password replaced by `***` when it
/// has one.
pub open spec fn redacted_url(s: Seq<char>) -> Seq<char> {
    if !url_parses(s) {
        "***INVALID_URL***"@
    } else if url_has_password_of(s) {
        url_with_password_of(s, "***"@)
    } else {
        url_serialization(s)
    }
}

/// Hides the password of a connection URL before it is shown.
pub fn redact_url(url: &str) -> (r: String)
    ensures
        r@ == redacted_url(url@),
{
    if !parse_url(url) {
        return String::from_str("***INVALID_URL***");
    }
    if url_has_password(url) {
        url_with_password(url, "***")
    } else {
        url_text(url)
    }
}

} // verus!
