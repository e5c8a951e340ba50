//! Keeping DNS records at Cloudflare in line with the proxied hosts.
pub mod auth_manager;
pub mod dns_manager;
pub mod cloudflare_manager;
pub mod zone_manager;
pub mod record_manager;
