//! Errors of nginx configuration management.
use vstd::prelude::*;
use crate::text::{push_str, to_owned_string};

verus! {

#[verifier::external_type_specification]
#[verifier::external_body]
pub struct ExIoError(std::io::Error);

/// How `std::io::Error` writes itself (its `Display`). Nothing is claimed of the
/// text: it comes from the operating system or from whoever made the error.
#[verifier::external_body]
fn io_error_text(e: &std::io::Error) -> (r: String) {
    e.to_string()
}

/// Why a configuration change failed.
#[derive(Debug)]
pub enum NginxError {
    Io(std::io::Error),
    ReloadFailed(String),
    InvalidRule(String),
}

impl NginxError {
    /// How the error is written: what failed, then the detail.
    pub fn message(&self) -> (r: String)
        ensures
            match self {
                NginxError::Io(_) => r@.len() >= 10 && r@.take(10) == "IO error: "@,
                NginxError::ReloadFailed(s) => r@ == "Nginx reload failed: "@ + s@,
                NginxError::InvalidRule(s) => r@ == "Invalid proxy rule: "@ + s@,
            },
    {
        match self {
            NginxError::Io(e) => {
                let mut m = to_owned_string("IO error: ");
                let t = io_error_text(e);
                push_str(&mut m, t.as_str());
                proof { reveal_strlit("IO error: "); }
                assert(m@.take(10) =~= "IO error: "@);
                m
            },
            NginxError::ReloadFailed(s) => {
                let mut m = to_owned_string("Nginx reload failed: ");
                push_str(&mut m, s.as_str());
                m
            },
            NginxError::InvalidRule(s) => {
                let mut m = to_owned_string("Invalid proxy rule: ");
                push_str(&mut m, s.as_str());
                m
            },
        }
    }
}

impl From<std::io::Error> for NginxError {
    fn from(err: std::io::Error) -> (r: Self) {
        NginxError::Io(err)
    }
}

impl vstd::std_specs::convert::FromSpecImpl<std::io::Error> for NginxError {
    open spec fn obeys_from_spec() -> bool {
        true
    }

    open spec fn from_spec(v: std::io::Error) -> Self {
        NginxError::Io(v)
    }
}

} // verus!
