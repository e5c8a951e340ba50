//! Asking certbot for certificates: the command line, the Cloudflare credentials
//! file, and what a failed run reports.
use vstd::prelude::*;
use crate::nginx::manager::{join_path, join_path_seq};
use crate::queue::models::{clone_opt, opt_view};
use crate::text::{join_seq, join_strings, push_str, push_text, signed_decimal, signed_decimal_string, str_eq, to_owned_string, views};

verus! {

/// How a certificate request ended.
#[derive(Debug)]
pub enum CertificateRequestResult {
    Success,
    AcmeChallengeFailure(String),
    CertbotError(String),
}

/// The credentials a DNS challenge is answered with.
#[derive(Debug)]
pub struct DnsCredentials {
    pub provider: String,
    pub api_token: String,
    pub email: Option<String>,
    pub api_key: Option<String>,
}

pub struct DnsCredentialsView {
    pub provider: Seq<char>,
    pub api_token: Seq<char>,
    pub email: Option<Seq<char>>,
    pub api_key: Option<Seq<char>>,
}

impl View for DnsCredentials {
    type V = DnsCredentialsView;

    open spec fn view(&self) -> DnsCredentialsView {
        DnsCredentialsView {
            provider: self.provider@,
            api_token: self.api_token@,
            email: opt_view(self.email),
            api_key: opt_view(self.api_key),
        }
    }
}

impl Clone for DnsCredentials {
    fn clone(&self) -> (r: Self)
        ensures
            r@ == self@,
    {
        DnsCredentials {
            provider: self.provider.clone(),
            api_token: self.api_token.clone(),
            email: clone_opt(&self.email),
            api_key: clone_opt(&self.api_key),
        }
    }
}

/// How certbot proves control of the domain: by a file under the webroot, or by a
/// DNS record set through the named plugin.
#[derive(Debug)]
pub enum ChallengeType {
    Webroot,
    Dns(String, Option<DnsCredentials>),
}

pub enum ChallengeTypeView {
    Webroot,
    Dns(Seq<char>, Option<DnsCredentialsView>),
}

impl View for ChallengeType {
    type V = ChallengeTypeView;

    open spec fn view(&self) -> ChallengeTypeView {
        match self {
            ChallengeType::Webroot => ChallengeTypeView::Webroot,
            ChallengeType::Dns(p, c) => ChallengeTypeView::Dns(p@, match c {
                Some(c) => Some(c@),
                None => None,
            }),
        }
    }
}

impl Clone for ChallengeType {
    fn clone(&self) -> (r: Self)
        ensures
            r@ == self@,
    {
        match self {
            ChallengeType::Webroot => ChallengeType::Webroot,
            ChallengeType::Dns(p, c) => ChallengeType::Dns(p.clone(), match c {
                Some(c) => Some(c.clone()),
                None => None,
            }),
        }
    }
}

/// Where certbot keeps its files and which options it is always given.
#[derive(Debug)]
pub struct Certbot {
    pub webroot: String,
    pub config_dir: String,
    pub work_dir: String,
    pub logs_dir: String,
    pub agree_tos: bool,
    pub no_eff_email: bool,
}

pub struct CertbotView {
    pub webroot: Seq<char>,
    pub config_dir: Seq<char>,
    pub work_dir: Seq<char>,
    pub logs_dir: Seq<char>,
    pub agree_tos: bool,
    pub no_eff_email: bool,
}

impl View for Certbot {
    type V = CertbotView;

    open spec fn view(&self) -> CertbotView {
        CertbotView {
            webroot: self.webroot@,
            config_dir: self.config_dir@,
            work_dir: self.work_dir@,
            logs_dir: self.logs_dir@,
            agree_tos: self.agree_tos,
            no_eff_email: self.no_eff_email,
        }
    }
}

/// The credentials file to write before certbot runs: the directory to create, the
/// file's path and its content.
pub struct CredentialsFile {
    pub dir: String,
    pub path: String,
    pub content: String,
}

/// Incomplete Cloudflare credentials: the request fails with `message`, once the
/// directory `dir` has been created and the file at `path` created empty (or
/// emptied), as the credentials file is opened for writing before its content is
/// made.
#[derive(Debug)]
pub struct InvalidCredentials {
    pub dir: String,
    pub path: String,
    pub message: String,
}

/// What a certificate request runs: the credentials file to write first, if any,
/// and the arguments certbot is given.
pub struct CertbotRequest {
    pub credentials: Option<CredentialsFile>,
    pub args: Vec<String>,
}

/// The text of the Cloudflare credentials file: the API token when there is one,
/// else the email and global API key; `None` when neither is complete.
pub open spec fn cloudflare_credentials_text(c: DnsCredentialsView) -> Option<Seq<char>> {
    if c.api_token.len() > 0 {
        Some("dns_cloudflare_api_token = "@ + c.api_token)
    } else {
        match (c.email, c.api_key) {
            (Some(e), Some(k)) => Some("dns_cloudflare_email = "@ + e + "\ndns_cloudflare_api_key = "@ + k),
            _ => None,
        }
    }
}

/// The directory of the Cloudflare credentials file.
pub open spec fn credentials_dir(cb: CertbotView) -> Seq<char> {
    join_path_seq(cb.config_dir, "cloudflare"@)
}

/// The path of the Cloudflare credentials file.
pub open spec fn credentials_path(cb: CertbotView) -> Seq<char> {
    join_path_seq(credentials_dir(cb), "credentials.ini"@)
}

/// Whether the challenge goes through the Cloudflare DNS plugin with credentials.
pub open spec fn cloudflare_credentials_of(challenge: ChallengeTypeView) -> Option<DnsCredentialsView> {
    match challenge {
        ChallengeTypeView::Dns(p, Some(c)) => if p == "cloudflare"@ { Some(c) } else { None },
        _ => None,
    }
}

/// The arguments that select the challenge.
pub open spec fn challenge_args(cb: CertbotView, challenge: ChallengeTypeView) -> Seq<Seq<char>> {
    match challenge {
        ChallengeTypeView::Webroot => seq!["--webroot"@, "-w"@, cb.webroot],
        ChallengeTypeView::Dns(p, c) => if p == "cloudflare"@ {
            seq!["--dns-cloudflare"@] + if c is Some {
                seq!["--dns-cloudflare-credentials"@, credentials_path(cb)]
            } else {
                Seq::empty()
            }
        } else {
            Seq::empty()
        },
    }
}

/// `s` when `b` holds, else nothing.
pub open spec fn when(b: bool, s: Seq<Seq<char>>) -> Seq<Seq<char>> {
    if b { s } else { Seq::empty() }
}

/// The arguments certbot is given for a certificate of `domain`.
pub open spec fn certbot_args(
    cb: CertbotView,
    domain: Seq<char>,
    email: Seq<char>,
    challenge: ChallengeTypeView,
    staging: bool,
) -> Seq<Seq<char>> {
    seq!["certonly"@, "--non-interactive"@, "--email"@, email, "--quiet"@, "-d"@, domain]
        + challenge_args(cb, challenge)
        + seq!["--config-dir"@, cb.config_dir, "--work-dir"@, cb.work_dir, "--logs-dir"@, cb.logs_dir]
        + when(cb.agree_tos, seq!["--agree-tos"@])
        + when(staging, seq!["--staging"@])
        + when(cb.no_eff_email, seq!["--no-eff-email"@])
        + when(challenge is Dns, seq!["--dns-cloudflare-propagation-seconds"@, "30"@])
}

/// The credentials file path is longer than any flag it could be taken for.
proof fn lemma_credentials_path_long(cb: CertbotView)
    ensures
        credentials_path(cb).len() >= 15,
{
    reveal_strlit("cloudflare");
    reveal_strlit("credentials.ini");
    reveal_strlit("/");
}

/// None of the other arguments certbot is given reads `--staging`.
proof fn lemma_flags_differ()
    ensures
        "certonly"@ != "--staging"@,
        "--non-interactive"@ != "--staging"@,
        "--email"@ != "--staging"@,
        "--quiet"@ != "--staging"@,
        "-d"@ != "--staging"@,
        "--webroot"@ != "--staging"@,
        "-w"@ != "--staging"@,
        "--dns-cloudflare"@ != "--staging"@,
        "--dns-cloudflare-credentials"@ != "--staging"@,
        "--config-dir"@ != "--staging"@,
        "--work-dir"@ != "--staging"@,
        "--logs-dir"@ != "--staging"@,
        "--agree-tos"@ != "--staging"@,
        "--no-eff-email"@ != "--staging"@,
        "--dns-cloudflare-propagation-seconds"@ != "--staging"@,
        "30"@ != "--staging"@,
{
    reveal_strlit("--staging");
    reveal_strlit("certonly");
    reveal_strlit("--non-interactive");
    reveal_strlit("--email");
    reveal_strlit("--quiet");
    reveal_strlit("-d");
    reveal_strlit("--webroot");
    reveal_strlit("-w");
    reveal_strlit("--dns-cloudflare");
    reveal_strlit("--dns-cloudflare-credentials");
    reveal_strlit("--config-dir");
    reveal_strlit("--work-dir");
    reveal_strlit("--logs-dir");
    reveal_strlit("--agree-tos");
    reveal_strlit("--no-eff-email");
    reveal_strlit("--dns-cloudflare-propagation-seconds");
    reveal_strlit("30");
    assert("--webroot"@[2] != "--staging"@[2]);
    assert("-d"@[1] != "--staging"@[1]);
    assert("-w"@[1] != "--staging"@[1]);
}

/// certbot is asked for a staging certificate exactly when the request is for
/// staging: `--staging` is among the arguments if and only if `staging` holds
/// (where no domain, email or directory is itself the text `--staging`).
pub proof fn law_staging_flag_iff_staging(
    cb: CertbotView,
    domain: Seq<char>,
    email: Seq<char>,
    challenge: ChallengeTypeView,
    staging: bool,
)
    requires
        domain != "--staging"@,
        email != "--staging"@,
        cb.webroot != "--staging"@,
        cb.config_dir != "--staging"@,
        cb.work_dir != "--staging"@,
        cb.logs_dir != "--staging"@,
    ensures
        certbot_args(cb, domain, email, challenge, staging).contains("--staging"@) == staging,
{
    let s = "--staging"@;
    lemma_flags_differ();
    lemma_credentials_path_long(cb);
    reveal_strlit("--staging");
    assert(credentials_path(cb) != s);
    let head = seq!["certonly"@, "--non-interactive"@, "--email"@, email, "--quiet"@, "-d"@, domain];
    let ch = challenge_args(cb, challenge);
    let dirs = seq!["--config-dir"@, cb.config_dir, "--work-dir"@, cb.work_dir, "--logs-dir"@, cb.logs_dir];
    let tos = when(cb.agree_tos, seq!["--agree-tos"@]);
    let stg = when(staging, seq!["--staging"@]);
    let eff = when(cb.no_eff_email, seq!["--no-eff-email"@]);
    let dns = when(challenge is Dns, seq!["--dns-cloudflare-propagation-seconds"@, "30"@]);
    let before = head + ch + dirs + tos;
    let after = eff + dns;
    let args = certbot_args(cb, domain, email, challenge, staging);
    assert(args =~= before + stg + after);
    assert forall|k: int| 0 <= k < before.len() implies before[k] != s by {
        assert(head[0] != s && head[1] != s && head[2] != s && head[3] != s);
        assert(head[4] != s && head[5] != s && head[6] != s);
        assert(forall|j: int| 0 <= j < head.len() ==> head[j] != s);
        match challenge {
            ChallengeTypeView::Webroot => {
                assert(ch[0] != s && ch[1] != s && ch[2] != s);
            },
            ChallengeTypeView::Dns(pl, c) => {
                if pl == "cloudflare"@ {
                    if c is Some {
                        assert(ch[0] != s && ch[1] != s && ch[2] != s);
                    } else {
                        assert(ch[0] != s);
                    }
                }
            },
        }
        assert(forall|j: int| 0 <= j < ch.len() ==> ch[j] != s);
        assert(forall|j: int| 0 <= j < dirs.len() ==> dirs[j] != s);
        assert(forall|j: int| 0 <= j < tos.len() ==> tos[j] != s);
    }
    assert forall|k: int| 0 <= k < after.len() implies after[k] != s by {
        assert(forall|j: int| 0 <= j < eff.len() ==> eff[j] != s);
        assert(forall|j: int| 0 <= j < dns.len() ==> dns[j] != s);
    }
    if staging {
        assert(args[before.len() as int] == s);
    } else {
        assert(stg.len() == 0);
        assert forall|k: int| 0 <= k < args.len() implies args[k] != s by {
            if k < before.len() {
                assert(args[k] == before[k]);
            } else {
                assert(args[k] == after[k - before.len()]);
            }
        }
    }
}

/// How `Option<i32>` is written by `{:?}`.
pub open spec fn status_text(code: Option<i32>) -> Seq<char> {
    match code {
        Some(c) => "Some("@ + signed_decimal(c as int) + ")"@,
        None => "None"@,
    }
}

/// The error a failed certbot run is reported with.
pub open spec fn failure_text(code: Option<i32>, args: Seq<Seq<char>>, stdout: Seq<char>, stderr: Seq<char>) -> Seq<char> {
    "Certbot command failed with status: "@ + status_text(code) + "\nCommand: certbot "@ + join_seq(args, " "@)
        + "\nOutput: "@ + stdout + "\nError: "@ + stderr
}

impl Certbot {
    /// certbot with its files under `/var/proxma`, the webroot `/var/www/html`, the
    /// terms of service agreed to and the EFF mailing list not declined.
    pub fn new() -> (r: Self)
        ensures
            r@.webroot == "/var/www/html"@,
            r@.config_dir == "/var/proxma/configuration"@,
            r@.work_dir == "/var/proxma/work"@,
            r@.logs_dir == "/var/proxma/logs"@,
            r@.agree_tos,
            !r@.no_eff_email,
    {
        Certbot {
            webroot: to_owned_string("/var/www/html"),
            config_dir: to_owned_string("/var/proxma/configuration"),
            work_dir: to_owned_string("/var/proxma/work"),
            logs_dir: to_owned_string("/var/proxma/logs"),
            agree_tos: true,
            no_eff_email: false,
        }
    }

    /// The text of the Cloudflare credentials file, or the error the request fails
    /// with when the credentials are incomplete.
    pub fn cloudflare_credentials_content(creds: &DnsCredentials) -> (r: Result<String, String>)
        ensures
            match cloudflare_credentials_text(creds@) {
                Some(t) => r is Ok && r->Ok_0@ == t,
                None => r is Err && r->Err_0@ == "Invalid Cloudflare credentials configuration"@,
            },
    {
        if !creds.api_token.as_str().is_empty() {
            let mut s = to_owned_string("dns_cloudflare_api_token = ");
            push_str(&mut s, creds.api_token.as_str());
            Ok(s)
        } else {
            match (&creds.email, &creds.api_key) {
                (Some(e), Some(k)) => {
                    let mut s = to_owned_string("dns_cloudflare_email = ");
                    push_str(&mut s, e.as_str());
                    push_str(&mut s, "\ndns_cloudflare_api_key = ");
                    push_str(&mut s, k.as_str());
                    Ok(s)
                },
                _ => Err(to_owned_string("Invalid Cloudflare credentials configuration")),
            }
        }
    }

    /// The arguments that select the challenge.
    fn push_challenge_args(&self, args: &mut Vec<String>, challenge: &ChallengeType)
        ensures
            views(final(args)@) == views(old(args)@) + challenge_args(self@, challenge@),
    {
        let ghost a0 = views(args@);
        match challenge {
            ChallengeType::Webroot => {
                push_text(args, "--webroot");
                push_text(args, "-w");
                push_text(args, self.webroot.as_str());
                assert(views(args@) =~= a0 + challenge_args(self@, challenge@));
            },
            ChallengeType::Dns(plugin, credentials) => {
                if str_eq(plugin.as_str(), "cloudflare") {
                    push_text(args, "--dns-cloudflare");
                    if credentials.is_some() {
                        let dir = join_path(self.config_dir.as_str(), "cloudflare");
                        let path = join_path(dir.as_str(), "credentials.ini");
                        push_text(args, "--dns-cloudflare-credentials");
                        push_text(args, path.as_str());
                    }
                }
                assert(views(args@) =~= a0 + challenge_args(self@, challenge@));
            },
        }
    }

    /// What a certificate request for `domain` runs: certbot's arguments and, for a
    /// Cloudflare DNS challenge with credentials, the credentials file written first.
    /// Incomplete Cloudflare credentials fail the request before certbot runs, after
    /// the credentials file has been opened (see `InvalidCredentials`).
    pub fn prepare_request(
        &self,
        domain: &str,
        ssl_email: &str,
        challenge: &ChallengeType,
        staging: bool,
    ) -> (r: Result<CertbotRequest, InvalidCredentials>)
        ensures
            match cloudflare_credentials_of(challenge@) {
                Some(c) => match cloudflare_credentials_text(c) {
                    Some(t) => {
                        &&& r is Ok
                        &&& r->Ok_0.credentials matches Some(f) && f.dir@ == credentials_dir(self@)
                            && f.path@ == credentials_path(self@) && f.content@ == t
                    },
                    None => {
                        &&& r is Err
                        &&& r->Err_0.dir@ == credentials_dir(self@)
                        &&& r->Err_0.path@ == credentials_path(self@)
                        &&& r->Err_0.message@ == "Invalid Cloudflare credentials configuration"@
                    },
                },
                None => r is Ok && r->Ok_0.credentials is None,
            },
            r is Ok ==> views(r->Ok_0.args@) == certbot_args(self@, domain@, ssl_email@, challenge@, staging),
    {
        let credentials = match challenge {
            ChallengeType::Dns(plugin, Some(creds)) => {
                if str_eq(plugin.as_str(), "cloudflare") {
                    let dir = join_path(self.config_dir.as_str(), "cloudflare");
                    let path = join_path(dir.as_str(), "credentials.ini");
                    match Self::cloudflare_credentials_content(creds) {
                        Ok(content) => Some(CredentialsFile { dir, path, content }),
                        Err(message) => {
                            return Err(InvalidCredentials { dir, path, message });
                        },
                    }
                } else {
                    None
                }
            },
            _ => None,
        };
        let mut args: Vec<String> = Vec::new();
        push_text(&mut args, "certonly");
        push_text(&mut args, "--non-interactive");
        push_text(&mut args, "--email");
        push_text(&mut args, ssl_email);
        push_text(&mut args, "--quiet");
        push_text(&mut args, "-d");
        push_text(&mut args, domain);
        let ghost head = views(args@);
        assert(head =~= seq!["certonly"@, "--non-interactive"@, "--email"@, ssl_email@, "--quiet"@, "-d"@, domain@]);
        self.push_challenge_args(&mut args, challenge);
        let ghost with_challenge = views(args@);
        push_text(&mut args, "--config-dir");
        push_text(&mut args, self.config_dir.as_str());
        push_text(&mut args, "--work-dir");
        push_text(&mut args, self.work_dir.as_str());
        push_text(&mut args, "--logs-dir");
        push_text(&mut args, self.logs_dir.as_str());
        assert(views(args@) =~= with_challenge
            + seq!["--config-dir"@, self.config_dir@, "--work-dir"@, self.work_dir@, "--logs-dir"@, self.logs_dir@]);
        let ghost dirs = views(args@);
        if self.agree_tos {
            push_text(&mut args, "--agree-tos");
        }
        assert(views(args@) =~= dirs + when(self.agree_tos, seq!["--agree-tos"@]));
        let ghost tos = views(args@);
        if staging {
            push_text(&mut args, "--staging");
        }
        assert(views(args@) =~= tos + when(staging, seq!["--staging"@]));
        let ghost stg = views(args@);
        if self.no_eff_email {
            push_text(&mut args, "--no-eff-email");
        }
        assert(views(args@) =~= stg + when(self.no_eff_email, seq!["--no-eff-email"@]));
        let ghost eff = views(args@);
        let dns = match challenge {
            ChallengeType::Dns(_, _) => true,
            ChallengeType::Webroot => false,
        };
        if dns {
            push_text(&mut args, "--dns-cloudflare-propagation-seconds");
            push_text(&mut args, "30");
        }
        assert(views(args@) =~= eff + when(challenge@ is Dns, seq!["--dns-cloudflare-propagation-seconds"@, "30"@]));
        assert(views(args@) =~= certbot_args(self@, domain@, ssl_email@, challenge@, staging));
        Ok(CertbotRequest { credentials, args })
    }

    /// The error a failed certbot run is reported with: its exit status, the command
    /// line and what it printed.
    pub fn failure_message(code: Option<i32>, args: &Vec<String>, stdout: &str, stderr: &str) -> (r: String)
        ensures
            r@ == failure_text(code, views(args@), stdout@, stderr@),
    {
        let mut s = to_owned_string("Certbot command failed with status: ");
        match code {
            Some(c) => {
                push_str(&mut s, "Some(");
                let d = signed_decimal_string(c as i64);
                push_str(&mut s, d.as_str());
                push_str(&mut s, ")");
            },
            None => {
                push_str(&mut s, "None");
            },
        }
        push_str(&mut s, "\nCommand: certbot ");
        let line = join_strings(args, " ");
        push_str(&mut s, line.as_str());
        push_str(&mut s, "\nOutput: ");
        push_str(&mut s, stdout);
        push_str(&mut s, "\nError: ");
        push_str(&mut s, stderr);
        s
    }
}

} // verus!
