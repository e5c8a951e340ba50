//! Checking, before certbot runs, that the ACME challenge path of a domain is
//! served by this proxy: a request for a fixed file must answer `proxma`.
use vstd::prelude::*;
use crate::certbot::CertificateRequestResult;
use crate::text::{push_str, push_text, str_eq, to_owned_string, trim, trim_seq, views};

verus! {

/// The URL whose content proves that the domain reaches this proxy.
pub open spec fn challenge_url_text(domain: Seq<char>) -> Seq<char> {
    "http://"@ + domain + "/.well-known/acme-challenge/proxma.proxma"@
}

/// The arguments of the request: silent, at most ten seconds, resolved through
/// public DNS servers.
pub open spec fn curl_args_text(domain: Seq<char>) -> Seq<Seq<char>> {
    seq!["--silent"@, "--max-time"@, "10"@, "--dns-servers"@, "1.1.1.1,8.8.8.8"@, challenge_url_text(domain)]
}

/// The outcome of a request that ran: a failed request, a wrong content, or success.
pub open spec fn response_outcome(domain: Seq<char>, success: bool, stdout: Seq<char>, stderr: Seq<char>) -> Option<Seq<char>> {
    let url = challenge_url_text(domain);
    if !success {
        Some("curl command failed for "@ + url + ": "@ + stderr)
    } else if trim_seq(stdout) != "proxma"@ {
        Some("Incorrect content at "@ + url + ": Expected 'proxma' but got '"@ + trim_seq(stdout) + "'"@)
    } else {
        None
    }
}

/// The URL checked for `domain`.
pub fn challenge_url(domain: &str) -> (r: String)
    ensures
        r@ == challenge_url_text(domain@),
{
    let mut s = to_owned_string("http://");
    push_str(&mut s, domain);
    push_str(&mut s, "/.well-known/acme-challenge/proxma.proxma");
    s
}

/// The arguments curl is run with to check `domain`.
pub fn curl_args(domain: &str) -> (r: Vec<String>)
    ensures
        views(r@) == curl_args_text(domain@),
{
    let url = challenge_url(domain);
    let mut v: Vec<String> = Vec::new();
    push_text(&mut v, "--silent");
    push_text(&mut v, "--max-time");
    push_text(&mut v, "10");
    push_text(&mut v, "--dns-servers");
    push_text(&mut v, "1.1.1.1,8.8.8.8");
    push_text(&mut v, url.as_str());
    assert(views(v@) =~= curl_args_text(domain@));
    v
}

/// The result when curl could not be started.
pub fn curl_start_failure(error: &str) -> (r: CertificateRequestResult)
    ensures
        r matches CertificateRequestResult::AcmeChallengeFailure(m) && m@ == "Failed to execute curl command: "@ + error@,
{
    let mut m = to_owned_string("Failed to execute curl command: ");
    push_str(&mut m, error);
    CertificateRequestResult::AcmeChallengeFailure(m)
}

/// The result of a request that ran: success when it succeeded and answered
/// `proxma`, whitespace around it aside; otherwise a challenge failure that says why.
pub fn check_acme_response(domain: &str, success: bool, stdout: &str, stderr: &str) -> (r: CertificateRequestResult)
    ensures
        match response_outcome(domain@, success, stdout@, stderr@) {
            None => r is Success,
            Some(m) => r matches CertificateRequestResult::AcmeChallengeFailure(e) && e@ == m,
        },
{
    let url = challenge_url(domain);
    if !success {
        let mut m = to_owned_string("curl command failed for ");
        push_str(&mut m, url.as_str());
        push_str(&mut m, ": ");
        push_str(&mut m, stderr);
        return CertificateRequestResult::AcmeChallengeFailure(m);
    }
    let content = trim(stdout);
    if !str_eq(content.as_str(), "proxma") {
        let mut m = to_owned_string("Incorrect content at ");
        push_str(&mut m, url.as_str());
        push_str(&mut m, ": Expected 'proxma' but got '");
        push_str(&mut m, content.as_str());
        push_str(&mut m, "'");
        return CertificateRequestResult::AcmeChallengeFailure(m);
    }
    CertificateRequestResult::Success
}

} // verus!
