use crate::error::UtilsError;
use vstd::prelude::*;

verus! {

/// The name of the environment variable that holds the API key.
pub const API_KEY_VAR: &'static str = "ELEVENLABS_API_KEY";

/// The name of the environment variable that holds the API's base URL.
pub const API_URL_VAR: &'static str = "ELEVENLABS_API_URL";

/// Where the API is and the key it is called with.
#[derive(Debug)]
pub struct Config {
    pub api_url: String,
    pub api_key: String,
}

impl Config {
    pub fn new(api_key: &str, api_url: &str) -> (r: Config)
        ensures
            r.api_key@ == api_key@,
            r.api_url@ == api_url@,
    {
        Config { api_url: String::from_str(api_url), api_key: String::from_str(api_key) }
    }

    pub fn clone(&self) -> (r: Config)
        ensures
            r.api_key@ == self.api_key@,
            r.api_url@ == self.api_url@,
    {
        Config { api_url: self.api_url.clone(), api_key: self.api_key.clone() }
    }

    /// Builds the configuration from what the environment holds under
    /// `API_KEY_VAR` and `API_URL_VAR`; the key's error comes first.
    pub fn from_env_values(key: EnvValue, url: EnvValue) -> (r: Result<Config, UtilsError>)
        ensures
            match (key, url) {
                (EnvValue::Present(k), EnvValue::Present(u)) => r matches Ok(c) && c.api_key@
                    == k@ && c.api_url@ == u@,
                (EnvValue::Present(_), _) => r matches Err(e) && lookup_error(API_URL_VAR@, url, e),
                _ => r matches Err(e) && lookup_error(API_KEY_VAR@, key, e),
            },
    {
        let api_key = match load_api_key(key) {
            Ok(k) => k,
            Err(e) => return Err(e),
        };
        let api_url = match load_api_url(url) {
            Ok(u) => u,
            Err(e) => return Err(e),
        };
        Ok(Config { api_url, api_key })
    }
}

/// What the environment holds under one variable.
#[derive(Debug)]
pub enum EnvValue {
    /// The variable is absent.
    Absent,
    /// The variable is set, but not to valid Unicode; holds its value with
    /// each invalid sequence replaced by U+FFFD.
    NotUnicode(String),
    /// The variable is set to this text.
    Present(String),
}

/// `e` is the error for the variable `name` when the environment holds
/// `value` under it, which is not a usable value.
pub open spec fn lookup_error(name: Seq<char>, value: EnvValue, e: UtilsError) -> bool {
    match value {
        EnvValue::Absent => e matches UtilsError::NotSet(n) && n@ == name,
        EnvValue::NotUnicode(raw) => e matches UtilsError::NotUnicode { name: n, value: x } && n@
            == name && x == raw,
        EnvValue::Present(_) => false,
    }
}

/// The result of looking up the variable `name`, whose value is `value`.
pub open spec fn lookup_spec(name: Seq<char>, value: EnvValue, r: Result<String, UtilsError>) -> bool {
    match value {
        EnvValue::Present(v) => r == Ok::<String, UtilsError>(v),
        _ => r matches Err(e) && lookup_error(name, value, e),
    }
}

fn lookup(name: &str, value: EnvValue) -> (r: Result<String, UtilsError>)
    ensures
        lookup_spec(name@, value, r),
{
    match value {
        EnvValue::Present(v) => Ok(v),
        EnvValue::Absent => Err(UtilsError::NotSet(String::from_str(name))),
        EnvValue::NotUnicode(raw) => Err(UtilsError::NotUnicode { name: String::from_str(name), value: raw }),
    }
}

/// The API key, given what the environment holds under `API_KEY_VAR`.
pub fn load_api_key(value: EnvValue) -> (r: Result<String, UtilsError>)
    ensures
        lookup_spec(API_KEY_VAR@, value, r),
{
    lookup(API_KEY_VAR, value)
}

/// The API's base URL, given what the environment holds under `API_URL_VAR`.
pub fn load_api_url(value: EnvValue) -> (r: Result<String, UtilsError>)
    ensures
        lookup_spec(API_URL_VAR@, value, r),
{
    lookup(API_URL_VAR, value)
}

} // verus!
