pub mod error;
pub mod domain;
pub mod templates;
pub mod htpasswd;
pub mod manager;
pub mod proxy_rule;
