pub mod text;
pub mod clock;
pub mod models;
pub mod label_map;
pub mod queue;
pub mod domain_tracker;
pub mod certbot;
pub mod acme_helper;
pub mod dns;
pub mod docker;
pub mod nginx;
pub mod proxy_rules;
