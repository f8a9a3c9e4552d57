//! Configuration of the rollout authority.

use crate::config::{get_env_var_or, setting_or};
use crate::text::{join_text, replace_all, replace_text};
use vstd::prelude::*;
use vstd::string::*;

verus! {

pub const DB_HOST_DEFAULT: &'static str = "127.0.0.1";

pub const DB_USER_DEFAULT: &'static str = "postgres";

pub const DB_PWD_DEFAULT: &'static str = "";

pub const DB_NAME: &'static str = "client_version_manager";

pub const CONTENT_URL_DEFAULT: &'static str = "https://hello-versioned.s3.us-east-1.amazonaws.com/";

pub const DB_URL_TEMPLATE: &'static str = "postgresql://{user}@{host}:5432/{db_name}";

/// The version a client is recorded with before it has reported one.
pub const DEFAULT_VERSION: &'static str = "0.0.0";

/// What the rollout authority needs to know before it starts.
#[derive(Debug)]
pub struct Config {
    pub db_host: String,
    pub db_user: String,
    pub db_pwd: String,
    pub db_name: String,
    pub db_url: String,
    pub content_url: String,
    pub default_version: String,
}

/// The name of the database: the one for tests has `_test` behind the name.
pub open spec fn database_name(under_test: bool) -> Seq<char> {
    if under_test {
        DB_NAME@ + "_test"@
    } else {
        DB_NAME@
    }
}

/// The address of the database: the template with user, password, name and host put in
/// for their placeholders, in this order.
pub open spec fn database_url(
    user: Seq<char>,
    password: Seq<char>,
    name: Seq<char>,
    host: Seq<char>,
) -> Seq<char> {
    replace_all(
        replace_all(
            replace_all(replace_all(DB_URL_TEMPLATE@, "{user}"@, user), "{password}"@, password),
            "{db_name}"@,
            name,
        ),
        "{host}"@,
        host,
    )
}

/// The configuration, from the four settings as they were found in the environment; one
/// that was not set takes its default. `under_test` says whether the test database is
/// meant.
pub fn load_config(
    db_host: Option<String>,
    db_user: Option<String>,
    db_pwd: Option<String>,
    content_url: Option<String>,
    under_test: bool,
) -> (config: Config)
    ensures
        config.db_host@ == setting_or(db_host, DB_HOST_DEFAULT@),
        config.db_user@ == setting_or(db_user, DB_USER_DEFAULT@),
        config.db_pwd@ == setting_or(db_pwd, DB_PWD_DEFAULT@),
        config.content_url@ == setting_or(content_url, CONTENT_URL_DEFAULT@),
        config.db_name@ == database_name(under_test),
        config.db_url@ == database_url(
            config.db_user@,
            config.db_pwd@,
            config.db_name@,
            config.db_host@,
        ),
        config.default_version@ == DEFAULT_VERSION@,
{
    let db_host = get_env_var_or(db_host, DB_HOST_DEFAULT);
    let db_user = get_env_var_or(db_user, DB_USER_DEFAULT);
    let db_pwd = get_env_var_or(db_pwd, DB_PWD_DEFAULT);
    let content_url = get_env_var_or(content_url, CONTENT_URL_DEFAULT);
    let db_name = if under_test {
        join_text(DB_NAME, "_test")
    } else {
        String::from_str(DB_NAME)
    };
    let with_user = replace_text(DB_URL_TEMPLATE, "{user}", db_user.as_str());
    let with_password = replace_text(with_user.as_str(), "{password}", db_pwd.as_str());
    let with_name = replace_text(with_password.as_str(), "{db_name}", db_name.as_str());
    let db_url = replace_text(with_name.as_str(), "{host}", db_host.as_str());
    Config {
        db_host,
        db_user,
        db_pwd,
        db_name,
        db_url,
        content_url,
        default_version: String::from_str(DEFAULT_VERSION),
    }
}

} // verus!
