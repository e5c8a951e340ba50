//! Choosing the Cloudflare credentials to authenticate with.
use vstd::prelude::*;
use crate::text::{push_str, to_owned_string, trim, trim_seq};

verus! {

/// How a request to the Cloudflare API authenticates: with an account email and
/// its global API key, or with an API token.
#[derive(Debug)]
pub enum Credentials {
    UserAuthKey { email: String, key: String },
    UserAuthToken { token: String },
}

impl Clone for Credentials {
    fn clone(&self) -> (r: Self)
        ensures
            match (r, *self) {
                (Credentials::UserAuthKey { email: e1, key: k1 }, Credentials::UserAuthKey { email: e2, key: k2 }) =>
                    e1@ == e2@ && k1@ == k2@,
                (Credentials::UserAuthToken { token: t1 }, Credentials::UserAuthToken { token: t2 }) => t1@ == t2@,
                _ => false,
            },
    {
        match self {
            Credentials::UserAuthKey { email, key } => Credentials::UserAuthKey { email: email.clone(), key: key.clone() },
            Credentials::UserAuthToken { token } => Credentials::UserAuthToken { token: token.clone() },
        }
    }
}

/// Choosing credentials out of what the configuration provides.
pub struct AuthManager;

/// Whether a value is given and not empty.
pub open spec fn provided(o: Option<String>) -> bool {
    o matches Some(s) && s@.len() > 0
}

/// How `{}` writes a `bool`.
pub open spec fn bool_text(b: bool) -> Seq<char> {
    if b { "true"@ } else { "false"@ }
}

/// The error when neither an email with an API key nor a token is given.
pub open spec fn missing_credentials_text(email: bool, api_key: bool, api_token: bool) -> Seq<char> {
    "No valid credentials provided. Available: email="@ + bool_text(email) + ", api_key="@ + bool_text(api_key)
        + ", api_token="@ + bool_text(api_token)
        + ". Must provide either (email AND api_key) OR api_token"@
}

fn is_provided(o: &Option<String>) -> (r: bool)
    ensures
        r == provided(*o),
{
    match o {
        Some(s) => !s.as_str().is_empty(),
        None => false,
    }
}

fn push_bool(s: &mut String, b: bool)
    ensures
        final(s)@ == old(s)@ + bool_text(b),
{
    if b {
        push_str(s, "true");
    } else {
        push_str(s, "false");
    }
}

impl AuthManager {
    /// The email with its API key when both are given, else the API token when it is
    /// given, each without surrounding whitespace; otherwise an error that says what
    /// was available.
    pub fn get_credentials(email: Option<String>, api_key: Option<String>, api_token: Option<String>) -> (r: Result<
        Credentials,
        String,
    >)
        ensures
            provided(email) && provided(api_key) ==> (r matches Ok(Credentials::UserAuthKey { email: e, key: k })
                && e@ == trim_seq(email->0@) && k@ == trim_seq(api_key->0@)),
            !(provided(email) && provided(api_key)) && provided(api_token) ==> (r matches Ok(
                Credentials::UserAuthToken { token },
            ) && token@ == trim_seq(api_token->0@)),
            !(provided(email) && provided(api_key)) && !provided(api_token) ==> (r matches Err(m) && m@
                == missing_credentials_text(provided(email), provided(api_key), provided(api_token))),
    {
        let email_provided = is_provided(&email);
        let api_key_provided = is_provided(&api_key);
        let api_token_provided = is_provided(&api_token);
        if email_provided && api_key_provided {
            let e = match &email {
                Some(e) => trim(e.as_str()),
                None => String::new(),
            };
            let k = match &api_key {
                Some(k) => trim(k.as_str()),
                None => String::new(),
            };
            Ok(Credentials::UserAuthKey { email: e, key: k })
        } else if api_token_provided {
            let t = match &api_token {
                Some(t) => trim(t.as_str()),
                None => String::new(),
            };
            Ok(Credentials::UserAuthToken { token: t })
        } else {
            let mut m = to_owned_string("No valid credentials provided. Available: email=");
            push_bool(&mut m, email_provided);
            push_str(&mut m, ", api_key=");
            push_bool(&mut m, api_key_provided);
            push_str(&mut m, ", api_token=");
            push_bool(&mut m, api_token_provided);
            push_str(&mut m, ". Must provide either (email AND api_key) OR api_token");
            Err(m)
        }
    }
}

} // verus!
