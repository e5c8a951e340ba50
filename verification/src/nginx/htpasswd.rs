//! The password file of basic authentication: one line with the user name and the
//! bcrypt hash of the password.
use vstd::prelude::*;
use crate::models::{Auth, AuthType, AuthView};
use crate::nginx::manager::ConfigFile;
use crate::nginx::templates::{htpasswd_file, htpasswd_file_text};
use crate::text::{push_str, to_owned_string, trim, trim_seq};

verus! {

#[verifier::external_type_specification]
#[verifier::external_body]
pub struct ExBcryptError(bcrypt::BcryptError);

/// Whether `bcrypt::verify(password, hash)` returns `Ok(true)`: the hash is well
/// formed and hashing `password` with its cost and salt gives its hash part. This
/// depends on the two arguments alone.
pub uninterp spec fn bcrypt_verifies(password: Seq<char>, hash: Seq<char>) -> bool;

/// `bcrypt::hash` at `bcrypt::DEFAULT_COST` (12). The salt is drawn from the operating
/// system's randomness, so the hash itself is not a function of the password. What
/// is claimed: the shape of the result, which the crate's source builds as version
/// `2b`, the cost written with two digits, then 22 and 31 characters of its base64;
/// and that `bcrypt::verify` accepts the password against it, since `verify`
/// re-hashes the password with the salt and cost read back from the hash, truncating
/// it the same way. The call fails only when no random salt can be drawn.
#[verifier::external_body]
fn bcrypt_hash(password: &str) -> (r: Result<String, bcrypt::BcryptError>)
    ensures
        r matches Ok(h) ==> h@.len() == 60 && h@.take(7) == "$2b$12$"@ && bcrypt_verifies(password@, h@),
{
    bcrypt::hash(password, bcrypt::DEFAULT_COST)
}

/// Why the password file could not be made.
#[derive(Debug)]
pub enum HtpasswdError {
    /// Hashing the password failed.
    Hash(bcrypt::BcryptError),
}

/// Whether the authentication asks for a password file: it is enabled and not by
/// bearer token alone.
pub open spec fn needs_htpasswd(auth: AuthView) -> bool {
    auth.enabled && auth.auth_type != AuthType::Bearer
}

/// The line of the password file.
pub open spec fn htpasswd_text(username: Seq<char>, hash: Seq<char>) -> Seq<char> {
    username + ":"@ + hash + "\n"@
}

/// Whether `h` has the shape of a bcrypt hash at cost 12.
pub open spec fn bcrypt_shaped(h: Seq<char>) -> bool {
    h.len() == 60 && h.take(7) == "$2b$12$"@
}

/// The line of the password file for `username` with the password hash `hash`.
pub fn htpasswd_content(username: &str, hash: &str) -> (r: String)
    ensures
        r@ == htpasswd_text(username@, hash@),
{
    let mut s = to_owned_string(username);
    push_str(&mut s, ":");
    push_str(&mut s, hash);
    push_str(&mut s, "\n");
    s
}

/// The password file of a domain, when its authentication asks for one: the hash
/// is taken of the password without surrounding whitespace. Hashing fails only when
/// no random salt can be drawn; that failure is passed on.
pub fn generate_htpasswd_file(auth: &Auth, domain: &str) -> (r: Result<Option<ConfigFile>, HtpasswdError>)
    ensures
        !needs_htpasswd(auth@) ==> r matches Ok(None),
        needs_htpasswd(auth@) ==> !(r matches Ok(None)),
        r matches Ok(Some(f)) ==> f.path@ == htpasswd_file_text(domain@) && exists|h: Seq<char>|
            bcrypt_shaped(h) && bcrypt_verifies(trim_seq(auth@.password), h) && f.content@ == #[trigger] htpasswd_text(
                auth@.username,
                h,
            ),
{
    let bearer = match auth.auth_type {
        AuthType::Bearer => true,
        _ => false,
    };
    if !auth.enabled || bearer {
        return Ok(None);
    }
    let password = trim(auth.password.as_str());
    match bcrypt_hash(password.as_str()) {
        Ok(h) => {
            let content = htpasswd_content(auth.username.as_str(), h.as_str());
            assert(bcrypt_shaped(h@));
            assert(bcrypt_verifies(trim_seq(auth@.password), h@));
            assert(content@ == htpasswd_text(auth@.username, h@));
            Ok(Some(ConfigFile { path: htpasswd_file(domain), content }))
        },
        Err(e) => Err(HtpasswdError::Hash(e)),
    }
}

} // verus!
