//! Where the configuration of each domain goes, and which files are orphaned.
use vstd::prelude::*;
use crate::models::{Auth, Webserver};
use crate::nginx::domain::{domain_filename, domain_to_filename};
use crate::nginx::templates::{environment_name, generate_grpc_server_block, generate_proxy_server_block, generate_redirect_server_block, grpc_server_block_text, proxy_server_block_text, redirect_server_block_text};
use crate::text::{chars_of, ends_with, ends_with_seq, push_str, starts_with, starts_with_seq, str_eq, to_owned_string, views};

verus! {

/// `name` appended to the directory `base` as `Path::join` does on Unix: an absolute
/// `name` replaces `base`; otherwise a `/` separates them unless `base` is empty or
/// already ends with one.
pub open spec fn join_path_seq(base: Seq<char>, name: Seq<char>) -> Seq<char> {
    if name.len() > 0 && name[0] == '/' {
        name
    } else if base.len() == 0 || base.last() == '/' {
        base + name
    } else {
        base + "/"@ + name
    }
}

/// `name` appended to the directory `base`.
pub fn join_path(base: &str, name: &str) -> (r: String)
    ensures
        r@ == join_path_seq(base@, name@),
{
    let n = chars_of(name);
    let b = chars_of(base);
    if n.len() > 0 && n[0] == '/' {
        return to_owned_string(name);
    }
    let mut r = to_owned_string(base);
    if !(b.len() == 0 || b[b.len() - 1] == '/') {
        push_str(&mut r, "/");
    }
    push_str(&mut r, name);
    r
}

/// Whether a file name is that of a configuration file written for a domain.
pub open spec fn is_config_filename(f: Seq<char>) -> bool {
    starts_with_seq(f, "proxma_"@) && ends_with_seq(f, ".conf"@)
}

/// The configuration files among `existing` that belong to no active domain, in
/// order.
pub open spec fn orphaned(existing: Seq<Seq<char>>, active: Set<Seq<char>>) -> Seq<Seq<char>>
    decreases existing.len(),
{
    if existing.len() == 0 {
        Seq::empty()
    } else {
        let prev = orphaned(existing.drop_last(), active);
        let f = existing.last();
        if is_config_filename(f) && !active.contains(f) { prev.push(f) } else { prev }
    }
}

/// Whether a file name is that of a configuration file written for a domain.
pub fn is_config_file(f: &str) -> (r: bool)
    ensures
        r == is_config_filename(f@),
{
    starts_with(f, "proxma_") && ends_with(f, ".conf")
}

/// Whether `name` is in `list`.
pub fn contains_string(list: &Vec<String>, name: &str) -> (r: bool)
    ensures
        r == views(list@).contains(name@),
{
    let mut i: usize = 0;
    while i < list.len()
        invariant
            i <= list.len(),
            forall|k: int| 0 <= k < i ==> list@[k]@ != name@,
        decreases list.len() - i,
    {
        if str_eq(list[i].as_str(), name) {
            assert(views(list@)[i as int] == name@);
            return true;
        }
        i = i + 1;
    }
    assert forall|k: int| 0 <= k < views(list@).len() implies views(list@)[k] != name@ by {
        assert(views(list@)[k] == list@[k]@);
    }
    false
}

/// The configuration files among `existing` that belong to no active domain.
pub fn orphaned_configs(existing: &Vec<String>, active: &Vec<String>) -> (r: Vec<String>)
    ensures
        views(r@) == orphaned(views(existing@), views(active@).to_set()),
{
    let mut r: Vec<String> = Vec::new();
    let mut i: usize = 0;
    while i < existing.len()
        invariant
            i <= existing.len(),
            views(r@) == orphaned(views(existing@).take(i as int), views(active@).to_set()),
        decreases existing.len() - i,
    {
        assert(views(existing@).take(i + 1).drop_last() =~= views(existing@).take(i as int));
        assert(views(existing@)[i as int] == existing@[i as int]@);
        let f = &existing[i];
        if is_config_file(f.as_str()) && !contains_string(active, f.as_str()) {
            let ghost r0 = r@;
            r.push(f.clone());
            assert(views(r@) =~= views(r0).push(f@));
        }
        i = i + 1;
    }
    assert(views(existing@).take(existing.len() as int) =~= views(existing@));
    r
}

/// Files removed as orphaned are configuration files, and none of them is active.
pub proof fn law_cleanup_spares_active(existing: Seq<Seq<char>>, active: Set<Seq<char>>)
    ensures
        forall|i: int| 0 <= i < orphaned(existing, active).len() ==> {
            &&& is_config_filename(#[trigger] orphaned(existing, active)[i])
            &&& !active.contains(orphaned(existing, active)[i])
            &&& existing.contains(orphaned(existing, active)[i])
        },
    decreases existing.len(),
{
    if existing.len() > 0 {
        law_cleanup_spares_active(existing.drop_last(), active);
        let prev = orphaned(existing.drop_last(), active);
        assert forall|i: int| 0 <= i < orphaned(existing, active).len() implies {
            &&& is_config_filename(#[trigger] orphaned(existing, active)[i])
            &&& !active.contains(orphaned(existing, active)[i])
            &&& existing.contains(orphaned(existing, active)[i])
        } by {
            if i < prev.len() {
                assert(orphaned(existing, active)[i] == prev[i]);
                let j = choose|j: int| 0 <= j < existing.drop_last().len() && existing.drop_last()[j] == prev[i];
                assert(existing[j] == prev[i]);
            } else {
                assert(existing[existing.len() - 1] == existing.last());
            }
        }
    }
}

/// The file of every domain has the shape of a configuration file, so that a
/// cleanup can find it.
pub proof fn law_domain_file_is_config_file(domain: Seq<char>)
    ensures
        is_config_filename(domain_filename(domain)),
{
    let f = domain_filename(domain);
    let pre = "proxma_"@;
    let suf = ".conf"@;
    assert(f.take(pre.len() as int) =~= pre);
    assert(f.skip(f.len() - suf.len()) =~= suf);
}

/// A configuration file to write: its path and its content.
pub struct ConfigFile {
    pub path: String,
    pub content: String,
}

/// Where the configuration of each domain is written and which webroot serves ACME
/// challenges.
pub struct NginxManager {
    pub config_path: String,
    pub webroot_path: String,
}

impl NginxManager {
    /// A manager writing into `config_path` (the directory itself is created by the
    /// caller).
    pub fn new(config_path: &str, webroot_path: &str) -> (r: Self)
        ensures
            r.config_path@ == config_path@,
            r.webroot_path@ == webroot_path@,
    {
        NginxManager { config_path: to_owned_string(config_path), webroot_path: to_owned_string(webroot_path) }
    }

    /// The name of the configuration file of a domain.
    pub fn domain_to_filename(domain: &str) -> (r: String)
        ensures
            r@ == domain_filename(domain@),
    {
        domain_to_filename(domain)
    }

    /// The path of the configuration file of a domain.
    pub fn config_file_path(&self, domain: &str) -> (r: String)
        ensures
            r@ == join_path_seq(self.config_path@, domain_filename(domain@)),
    {
        let name = domain_to_filename(domain);
        join_path(self.config_path.as_str(), name.as_str())
    }

    /// The file that redirects `from_domain` to `to_domain`.
    pub fn redirect_rule_file(
        &self,
        from_domain: &str,
        to_domain: &str,
        ssl: bool,
        ssl_staging: bool,
        webserver: Webserver,
        ipv6_enabled: bool,
    ) -> (r: ConfigFile)
        ensures
            r.path@ == join_path_seq(self.config_path@, domain_filename(from_domain@)),
            r.content@ == redirect_server_block_text(from_domain@, to_domain@, ssl, self.webroot_path@,
                ssl_staging, webserver@, ipv6_enabled),
    {
        let content = generate_redirect_server_block(from_domain, to_domain, ssl,
            self.webroot_path.as_str(), ssl_staging, webserver, ipv6_enabled);
        ConfigFile { path: self.config_file_path(from_domain), content }
    }

    /// The file that proxies `domain` to `upstream_url`: a gRPC configuration when
    /// `protocol` is `grpc`, else an HTTP one.
    pub fn container_host_rule_file(
        &self,
        domain: &str,
        upstream_url: &str,
        ssl: bool,
        ssl_staging: bool,
        auth: Auth,
        webserver: Webserver,
        protocol: &str,
        ipv6_enabled: bool,
    ) -> (r: ConfigFile)
        ensures
            r.path@ == join_path_seq(self.config_path@, domain_filename(domain@)),
            r.content@ == if protocol@ == "grpc"@ {
                grpc_server_block_text(domain@, upstream_url@, ssl, self.webroot_path@, ssl_staging,
                    auth@, webserver@, ipv6_enabled)
            } else {
                proxy_server_block_text(domain@, upstream_url@, ssl, self.webroot_path@, ssl_staging,
                    auth@, webserver@, ipv6_enabled)
            },
    {
        let content = if str_eq(protocol, "grpc") {
            generate_grpc_server_block(domain, upstream_url, ssl, self.webroot_path.as_str(),
                ssl_staging, auth, webserver, ipv6_enabled)
        } else {
            generate_proxy_server_block(domain, upstream_url, ssl, self.webroot_path.as_str(),
                ssl_staging, auth, webserver, ipv6_enabled)
        };
        ConfigFile { path: self.config_file_path(domain), content }
    }

    /// The certificate and key files of a domain in the staging or production tree.
    pub fn ssl_certificate_paths(domain: &str, ssl_staging: bool) -> (r: (String, String))
        ensures
            r.0@ == "/var/proxma/configuration/"@ + environment_name(ssl_staging) + "/live/"@ + domain@
                + "/fullchain.pem"@,
            r.1@ == "/var/proxma/configuration/"@ + environment_name(ssl_staging) + "/live/"@ + domain@
                + "/privkey.pem"@,
    {
        let environment = if ssl_staging { "staging" } else { "production" };
        let mut cert = to_owned_string("/var/proxma/configuration/");
        push_str(&mut cert, environment);
        push_str(&mut cert, "/live/");
        push_str(&mut cert, domain);
        push_str(&mut cert, "/fullchain.pem");
        let mut key = to_owned_string("/var/proxma/configuration/");
        push_str(&mut key, environment);
        push_str(&mut key, "/live/");
        push_str(&mut key, domain);
        push_str(&mut key, "/privkey.pem");
        (cert, key)
    }

    /// Of the files found in the configuration directory, the configuration files of
    /// no active domain, which a cleanup removes.
    pub fn orphaned_configs(existing: &Vec<String>, active_filenames: &Vec<String>) -> (r: Vec<String>)
        ensures
            views(r@) == orphaned(views(existing@), views(active_filenames@).to_set()),
    {
        orphaned_configs(existing, active_filenames)
    }
}

} // verus!
