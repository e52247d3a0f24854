//! The configuration as it may be shown in logs: every secret hidden, the
//! connection URLs with their passwords masked, everything else as it is.
use vstd::prelude::*;
use crate::config::{redact_url, redacted_url, Config, Environment};
use crate::ids::{uuid_text, uuid_to_string};
use crate::text::{decimal, decimal_string, signed_decimal, signed_decimal_string};

verus! {

/// One setting as shown: its name, its text, and whether the text is shown in
/// quotes (texts are; numbers, flags, the environment and the id list are not).
pub struct ShownSetting {
    pub name: &'static str,
    pub value: String,
    pub quoted: bool,
}

/// What stands in place of a secret.
pub open spec fn redacted_text() -> Seq<char> {
    "<redacted>"@
}

/// How the environment is shown.
pub open spec fn environment_text(e: Environment) -> Seq<char> {
    match e {
        Environment::Development => "Development"@,
        Environment::Staging => "Staging"@,
        Environment::Production => "Production"@,
    }
}

/// The ids joined with `, `, each in its hyphenated form.
pub open spec fn joined_ids(ids: Seq<u128>) -> Seq<char>
    decreases ids.len(),
{
    if ids.len() == 0 {
        Seq::empty()
    } else if ids.len() == 1 {
        uuid_text(ids[0])
    } else {
        joined_ids(ids.drop_last()) + ", "@ + uuid_text(ids.last())
    }
}

/// The id list as shown: in square brackets.
pub open spec fn id_list_text(ids: Seq<u128>) -> Seq<char> {
    "["@ + joined_ids(ids) + "]"@
}

pub open spec fn bool_text(b: bool) -> Seq<char> {
    if b {
        "true"@
    } else {
        "false"@
    }
}

/// The settings shown, in order.
pub open spec fn setting_names() -> Seq<Seq<char>> {
    seq![
        "database_url"@, "redis_url"@, "jwt_secret"@, "access_token_expiry_seconds"@,
        "refresh_token_expiry_days"@, "paystack_secret_key"@, "paystack_webhook_secret"@,
        "paystack_base_url"@, "anthropic_api_key"@, "anthropic_concurrency_limit"@,
        "aws_access_key_id"@, "aws_secret_access_key"@, "aws_region"@, "s3_bucket"@,
        "ses_from_email"@, "firebase_service_account_json"@, "firebase_project_id"@,
        "google_oauth_client_id"@, "app_base_url"@, "sentry_dsn"@, "environment"@,
        "admin_user_ids"@, "port"@, "free_tier_ai_queries_per_day"@, "worker_count"@,
        "behind_proxy"@, "rust_log"@,
    ]
}

/// The text shown for the `i`-th setting other than the two URLs, and whether it
/// is quoted.
pub open spec fn shown_value(c: Config, i: int) -> (Seq<char>, bool) {
    if i == 2 || i == 5 || i == 6 || i == 8 || i == 10 || i == 11 || i == 15 || i == 19 {
        (redacted_text(), true)
    } else if i == 3 {
        (decimal(c.access_token_expiry_seconds as nat), false)
    } else if i == 4 {
        (signed_decimal(c.refresh_token_expiry_days as int), false)
    } else if i == 7 {
        (c.paystack_base_url@, true)
    } else if i == 9 {
        (decimal(c.anthropic_concurrency_limit as nat), false)
    } else if i == 12 {
        (c.aws_region@, true)
    } else if i == 13 {
        (c.s3_bucket@, true)
    } else if i == 14 {
        (c.ses_from_email@, true)
    } else if i == 16 {
        (c.firebase_project_id@, true)
    } else if i == 17 {
        (c.google_oauth_client_id@, true)
    } else if i == 18 {
        (c.app_base_url@, true)
    } else if i == 20 {
        (environment_text(c.environment), false)
    } else if i == 21 {
        (id_list_text(c.admin_user_ids@), false)
    } else if i == 22 {
        (decimal(c.port as nat), false)
    } else if i == 23 {
        (decimal(c.free_tier_ai_queries_per_day as nat), false)
    } else if i == 24 {
        (decimal(c.worker_count as nat), false)
    } else if i == 25 {
        (bool_text(c.behind_proxy), false)
    } else {
        (c.rust_log@, true)
    }
}

fn environment_name(e: &Environment) -> (r: String)
    ensures
        r@ == environment_text(*e),
{
    match e {
        Environment::Development => String::from_str("Development"),
        Environment::Staging => String::from_str("Staging"),
        Environment::Production => String::from_str("Production"),
    }
}

/// The id list as shown, in square brackets.
pub fn id_list_string(ids: &Vec<u128>) -> (r: String)
    ensures
        r@ == id_list_text(ids@),
{
    let mut s = String::from_str("[");
    let mut i: usize = 0;
    while i < ids.len()
        invariant
            i <= ids@.len(),
            s@ == "["@ + joined_ids(ids@.take(i as int)),
        decreases ids@.len() - i,
    {
        let text = uuid_to_string(ids[i]);
        proof {
            let next = ids@.take(i as int + 1);
            assert(next.drop_last() =~= ids@.take(i as int));
            assert(next.last() == ids@[i as int]);
        }
        if i > 0 {
            s.append(", ");
        }
        s.append(text.as_str());
        proof {
            let next = ids@.take(i as int + 1);
            if i == 0 {
                assert(ids@.take(0) =~= Seq::<u128>::empty());
                assert(next.len() == 1);
            }
        }
        i = i + 1;
    }
    assert(ids@.take(ids@.len() as int) =~= ids@);
    s.append("]");
    s
}

fn shown(name: &'static str, value: String, quoted: bool) -> (r: ShownSetting)
    ensures
        r.name == name,
        r.value == value,
        r.quoted == quoted,
{
    ShownSetting { name, value, quoted }
}

fn secret(name: &'static str) -> (r: ShownSetting)
    ensures
        r.name == name,
        r.value@ == redacted_text(),
        r.quoted,
{
    ShownSetting { name, value: String::from_str("<redacted>"), quoted: true }
}

fn text(name: &'static str, value: &String) -> (r: ShownSetting)
    ensures
        r.name == name,
        r.value@ == value@,
        r.quoted,
{
    ShownSetting { name, value: value.clone(), quoted: true }
}

impl Config {
    /// The settings as they may be shown: secrets hidden, the database and
    /// cache URLs passed through `redact_url`, the rest as they are.
    pub fn shown_settings(&self) -> (r: Vec<ShownSetting>)
        ensures
            r@.len() == setting_names().len(),
            forall|i: int| 0 <= i < r@.len() ==> (#[trigger] r@[i]).name@ == setting_names()[i],
            forall|i: int|
                2 <= i < r@.len() ==> ((#[trigger] r@[i]).value@, r@[i].quoted) == shown_value(*self, i),
            r@[0].quoted && r@[1].quoted,
            r@[0].value@ == redacted_url(self.database_url@),
            r@[1].value@ == redacted_url(self.redis_url@),
    {
        let mut v: Vec<ShownSetting> = Vec::new();
        v.push(shown("database_url", redact_url(self.database_url.as_str()), true));
        v.push(shown("redis_url", redact_url(self.redis_url.as_str()), true));
        v.push(secret("jwt_secret"));
        v.push(shown("access_token_expiry_seconds", decimal_string(self.access_token_expiry_seconds), false));
        v.push(shown("refresh_token_expiry_days", signed_decimal_string(self.refresh_token_expiry_days), false));
        v.push(secret("paystack_secret_key"));
        v.push(secret("paystack_webhook_secret"));
        v.push(text("paystack_base_url", &self.paystack_base_url));
        v.push(secret("anthropic_api_key"));
        v.push(shown("anthropic_concurrency_limit", decimal_string(self.anthropic_concurrency_limit as u64), false));
        v.push(secret("aws_access_key_id"));
        v.push(secret("aws_secret_access_key"));
        v.push(text("aws_region", &self.aws_region));
        v.push(text("s3_bucket", &self.s3_bucket));
        v.push(text("ses_from_email", &self.ses_from_email));
        v.push(secret("firebase_service_account_json"));
        v.push(text("firebase_project_id", &self.firebase_project_id));
        v.push(text("google_oauth_client_id", &self.google_oauth_client_id));
        v.push(text("app_base_url", &self.app_base_url));
        v.push(secret("sentry_dsn"));
        v.push(shown("environment", environment_name(&self.environment), false));
        v.push(shown("admin_user_ids", id_list_string(&self.admin_user_ids), false));
        v.push(shown("port", decimal_string(self.port as u64), false));
        v.push(shown("free_tier_ai_queries_per_day", decimal_string(self.free_tier_ai_queries_per_day as u64), false));
        v.push(shown("worker_count", decimal_string(self.worker_count as u64), false));
        v.push(shown("behind_proxy", String::from_str(if self.behind_proxy { "true" } else { "false" }), false));
        v.push(text("rust_log", &self.rust_log));
        v
    }
}

} // verus!
